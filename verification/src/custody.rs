use anchor_lang::prelude::Pubkey;
use vstd::prelude::*;

verus! {

/// One movement of value that the ledger is asked to carry out.
///
/// `authority` is the identity in whose name the move is made: the trader for
/// what the trader gives, the curve for what leaves the curve's custody.
#[derive(Clone, Copy, Debug, PartialEq, Eq)]
pub struct CustodyMove {
    pub from: Pubkey,
    pub to: Pubkey,
    pub authority: Pubkey,
    pub amount: u64,
}

/// What a completed buy or sell moves. On a buy SOL goes in and tokens come
/// out; on a sell it is the other way round.
#[derive(Clone, Copy, Debug, PartialEq, Eq)]
pub struct Trade {
    /// From the trader into the curve's custody.
    pub paid: CustodyMove,
    /// From the curve's custody to the trader.
    pub received: CustodyMove,
}

/// What a withdrawal moves out of a curve that has stopped trading.
#[derive(Clone, Copy, Debug, PartialEq, Eq)]
pub struct Withdrawal {
    /// The whole SOL escrow, to the owner.
    pub sol: CustodyMove,
    /// The tokens kept back for later liquidity, to the owner's token account.
    pub tokens: CustodyMove,
}

/// The creation of new token units into an account.
#[derive(Clone, Copy, Debug, PartialEq, Eq)]
pub struct Issuance {
    pub mint: Pubkey,
    pub to: Pubkey,
    pub authority: Pubkey,
    pub amount: u64,
}

} // verus!
