//! Pricing and state transitions of a bonding-curve token launch.
//!
//! A single protocol configuration seeds any number of independent curves.
//! Each curve prices buys and sells with a constant-product rule over virtual
//! liquidity, stops trading once the sale threshold is reached, and can then be
//! drained by the protocol owner.
//!
//! Nothing here touches the ledger. Every instruction works on plain account
//! values and answers with the movements of value that the caller has to carry
//! out, so that the rules themselves can be proved.

pub mod custody;
pub mod error;
pub mod instructions;
pub mod keys;
pub mod laws;
pub mod pricing;
pub mod state;
