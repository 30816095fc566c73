use anchor_lang::prelude::Pubkey;
use vstd::prelude::*;

verus! {

/// Protocol-wide parameters, written once when the protocol is set up.
#[derive(Clone, Copy, Debug, PartialEq, Eq)]
pub struct GlobalState {
    /// The only identity that may withdraw from a curve.
    pub owner: Pubkey,
    pub tokens_to_sell: Pubkey,
    pub total_tokens_to_mint: u64,
    /// Virtual SOL liquidity that every new curve starts with.
    pub virtual_sol_liquidity: u64,
    /// Virtual token liquidity that every new curve starts with.
    pub virtual_token_liquidity: u64,
    pub bump: u8,
}

} // verus!
