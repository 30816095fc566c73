pub mod bonding_curve;
pub mod global_state;

pub use bonding_curve::BondingCurve;
pub use global_state::GlobalState;
