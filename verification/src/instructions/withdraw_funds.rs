use crate::custody::{CustodyMove, Withdrawal};
pub use crate::error::MiniPumpError;
use crate::keys::same_key;
use crate::state::bonding_curve::BondingCurve;
use crate::state::global_state::GlobalState;
use anchor_lang::prelude::Pubkey;
use vstd::prelude::*;

verus! {

/// The accounts of a withdrawal: who asks, the protocol's configuration, the
/// curve, and where the curve and the caller keep SOL and tokens.
#[derive(Clone, Copy, Debug, PartialEq, Eq)]
pub struct WithdrawFunds {
    /// The caller, who receives what is withdrawn.
    pub payer: Pubkey,
    pub global_state: GlobalState,
    /// Where the curve keeps its SOL.
    pub sol_escrow: Pubkey,
    /// The balance of the escrow at the time of the call.
    pub sol_escrow_lamports: u64,
    /// The curve's own address, in whose name the curve's custody is moved.
    pub bonding_curve_key: Pubkey,
    pub bonding_curve: BondingCurve,
    /// Where the curve keeps its tokens.
    pub bonding_curve_token_account: Pubkey,
    /// The caller's token account.
    pub payer_token_account: Pubkey,
}

impl WithdrawFunds {
    /// What a withdrawal moves once every condition is met: the whole escrow
    /// balance to the caller, and the curve's token remainder to the caller's
    /// token account.
    pub open spec fn withdrawal(self) -> Withdrawal {
        Withdrawal {
            sol: CustodyMove {
                from: self.sol_escrow,
                to: self.payer,
                authority: self.bonding_curve_key,
                amount: self.sol_escrow_lamports,
            },
            tokens: CustodyMove {
                from: self.bonding_curve_token_account,
                to: self.payer_token_account,
                authority: self.bonding_curve_key,
                amount: self.bonding_curve.remainder() as u64,
            },
        }
    }

    /// The answer to a withdrawal. The conditions are tried in this order: the
    /// caller is the owner, the curve has stopped trading, the escrow holds
    /// something, and the curve holds at least as many tokens as it has sold.
    pub open spec fn withdraw_outcome(self) -> Result<Withdrawal, MiniPumpError> {
        if self.payer != self.global_state.owner {
            Err(MiniPumpError::NotOwner)
        } else if self.bonding_curve.is_active {
            Err(MiniPumpError::BondingCurveActive)
        } else if self.sol_escrow_lamports == 0 {
            Err(MiniPumpError::InsufficientSolBalance)
        } else if self.bonding_curve.remainder() < 0 {
            Err(MiniPumpError::InsufficientTokenBalance)
        } else {
            Ok(self.withdrawal())
        }
    }

    /// Sweeps a curve that has stopped trading: decides whether the caller may
    /// withdraw and, if so, what is to be moved. The curve's state is left as it
    /// is, as a record of the sale.
    pub fn withdraw_funds(&self) -> (r: Result<Withdrawal, MiniPumpError>)
        ensures
            r == self.withdraw_outcome(),
            self.payer != self.global_state.owner ==> r == Err::<Withdrawal, MiniPumpError>(
                MiniPumpError::NotOwner,
            ),
            self.payer == self.global_state.owner && self.bonding_curve.is_active ==> r == Err::<
                Withdrawal,
                MiniPumpError,
            >(MiniPumpError::BondingCurveActive),
            self.payer == self.global_state.owner && !self.bonding_curve.is_active
                && self.sol_escrow_lamports == 0 ==> r == Err::<Withdrawal, MiniPumpError>(
                MiniPumpError::InsufficientSolBalance,
            ),
            r is Ok ==> {
                &&& self.payer == self.global_state.owner
                &&& !self.bonding_curve.is_active
                &&& r->Ok_0.sol.amount == self.sol_escrow_lamports > 0
                &&& r->Ok_0.tokens.amount == self.bonding_curve.virtual_token_liquidity
                    - self.bonding_curve.tokens_sold
            },
    {
        if !same_key(&self.payer, &self.global_state.owner) {
            return Err(MiniPumpError::NotOwner);
        }
        if self.bonding_curve.is_active {
            return Err(MiniPumpError::BondingCurveActive);
        }
        if self.sol_escrow_lamports == 0 {
            return Err(MiniPumpError::InsufficientSolBalance);
        }
        let remainder = match self.bonding_curve.virtual_token_liquidity.checked_sub(
            self.bonding_curve.tokens_sold,
        ) {
            Some(v) => v,
            None => {
                return Err(MiniPumpError::InsufficientTokenBalance);
            },
        };
        Ok(
            Withdrawal {
                sol: CustodyMove {
                    from: self.sol_escrow,
                    to: self.payer,
                    authority: self.bonding_curve_key,
                    amount: self.sol_escrow_lamports,
                },
                tokens: CustodyMove {
                    from: self.bonding_curve_token_account,
                    to: self.payer_token_account,
                    authority: self.bonding_curve_key,
                    amount: remainder,
                },
            },
        )
    }
}

} // verus!
