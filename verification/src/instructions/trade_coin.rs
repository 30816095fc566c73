use crate::custody::{CustodyMove, Trade};
pub use crate::error::MiniPumpError;
use crate::pricing::constant_product_quote;
use crate::state::bonding_curve::{BondingCurve, SALE_THRESHOLD};
use anchor_lang::prelude::Pubkey;
use vstd::prelude::*;

verus! {

/// The accounts of a buy or a sell: the trader, the curve, and where each of
/// them keeps SOL and tokens.
#[derive(Clone, Copy, Debug, PartialEq, Eq)]
pub struct TradeCoin {
    /// The trader; pays SOL on a buy and receives it on a sell.
    pub buyer: Pubkey,
    /// The trader's token account.
    pub buyer_token_account: Pubkey,
    /// Where the curve keeps its SOL.
    pub sol_escrow: Pubkey,
    /// The curve's own address, in whose name the curve's custody is moved.
    pub bonding_curve_key: Pubkey,
    pub bonding_curve: BondingCurve,
    /// Where the curve keeps its tokens.
    pub bonding_curve_token_account: Pubkey,
}

impl TradeCoin {
    /// What a buy moves: `sol_amount` from the trader into the escrow, and
    /// `token_out` from the curve's token account to the trader's.
    pub open spec fn buy_moves(self, sol_amount: u64, token_out: u64) -> Trade {
        Trade {
            paid: CustodyMove {
                from: self.buyer,
                to: self.sol_escrow,
                authority: self.buyer,
                amount: sol_amount,
            },
            received: CustodyMove {
                from: self.bonding_curve_token_account,
                to: self.buyer_token_account,
                authority: self.bonding_curve_key,
                amount: token_out,
            },
        }
    }

    /// What a sell moves: `token_amount` from the trader's token account into
    /// the curve's, and `sol_out` from the escrow to the trader.
    pub open spec fn sell_moves(self, token_amount: u64, sol_out: u64) -> Trade {
        Trade {
            paid: CustodyMove {
                from: self.buyer_token_account,
                to: self.bonding_curve_token_account,
                authority: self.buyer,
                amount: token_amount,
            },
            received: CustodyMove {
                from: self.sol_escrow,
                to: self.buyer,
                authority: self.bonding_curve_key,
                amount: sol_out,
            },
        }
    }

    /// Buys tokens for `sol_amount`.
    ///
    /// On success the curve's state is replaced by the one that
    /// `BondingCurve::buy_outcome` gives and the two movements of the trade are
    /// returned for the caller to carry out. On refusal nothing changes and
    /// nothing is to be moved.
    pub fn buy_token(&mut self, sol_amount: u64) -> (r: Result<Trade, MiniPumpError>)
        ensures
            match old(self).bonding_curve.buy_outcome(sol_amount) {
                Ok((token_out, next)) => {
                    &&& r == Ok::<Trade, MiniPumpError>(old(self).buy_moves(sol_amount, token_out))
                    &&& *final(self) == (TradeCoin { bonding_curve: next, ..*old(self) })
                },
                Err(e) => r == Err::<Trade, MiniPumpError>(e) && *final(self) == *old(self),
            },
            !old(self).bonding_curve.is_active ==> r == Err::<Trade, MiniPumpError>(
                MiniPumpError::BondingCurveNotActive,
            ),
            r is Err ==> *final(self) == *old(self),
            final(self).bonding_curve.tokens_sold >= old(self).bonding_curve.tokens_sold,
            r is Ok && old(self).bonding_curve.buy_is_clamped(sol_amount) ==> {
                &&& r->Ok_0.received.amount == SALE_THRESHOLD - old(self).bonding_curve.tokens_sold
                &&& !final(self).bonding_curve.is_active
            },
            r is Ok && !old(self).bonding_curve.buy_is_clamped(sol_amount)
                ==> final(self).bonding_curve.is_active,
    {
        let curve = self.bonding_curve;
        if !curve.is_active {
            return Err(MiniPumpError::BondingCurveNotActive);
        }
        let quoted = match self.calculate_token_for_sol(sol_amount) {
            Ok(v) => v,
            Err(e) => {
                return Err(e);
            },
        };
        let sol_after = match curve.virtual_sol_liquidity.checked_add(sol_amount) {
            Some(v) => v,
            None => {
                return Err(MiniPumpError::ArithmeticOverflow);
            },
        };
        let clamped = curve.tokens_sold as u128 + quoted as u128 > SALE_THRESHOLD as u128;
        let token_out = if clamped {
            match SALE_THRESHOLD.checked_sub(curve.tokens_sold) {
                Some(v) => v,
                None => {
                    return Err(MiniPumpError::InsufficientTokenBalance);
                },
            }
        } else {
            quoted
        };
        let token_after = match curve.virtual_token_liquidity.checked_sub(token_out) {
            Some(v) => v,
            None => {
                return Err(MiniPumpError::InsufficientTokenBalance);
            },
        };
        let sold_after = match curve.tokens_sold.checked_add(token_out) {
            Some(v) => v,
            None => {
                return Err(MiniPumpError::ArithmeticOverflow);
            },
        };
        let trade = Trade {
            paid: CustodyMove {
                from: self.buyer,
                to: self.sol_escrow,
                authority: self.buyer,
                amount: sol_amount,
            },
            received: CustodyMove {
                from: self.bonding_curve_token_account,
                to: self.buyer_token_account,
                authority: self.bonding_curve_key,
                amount: token_out,
            },
        };
        self.bonding_curve.virtual_token_liquidity = token_after;
        self.bonding_curve.virtual_sol_liquidity = sol_after;
        self.bonding_curve.tokens_sold = sold_after;
        if clamped {
            self.bonding_curve.is_active = false;
        }
        Ok(trade)
    }

    /// Sells `token_amount` tokens back to the curve.
    ///
    /// On success the curve's state is replaced by the one that
    /// `BondingCurve::sell_outcome` gives and the two movements of the trade
    /// are returned for the caller to carry out. On refusal nothing changes and
    /// nothing is to be moved.
    pub fn sell_token(&mut self, token_amount: u64) -> (r: Result<Trade, MiniPumpError>)
        ensures
            match old(self).bonding_curve.sell_outcome(token_amount) {
                Ok((sol_out, next)) => {
                    &&& r == Ok::<Trade, MiniPumpError>(old(self).sell_moves(token_amount, sol_out))
                    &&& *final(self) == (TradeCoin { bonding_curve: next, ..*old(self) })
                },
                Err(e) => r == Err::<Trade, MiniPumpError>(e) && *final(self) == *old(self),
            },
            !old(self).bonding_curve.is_active ==> r == Err::<Trade, MiniPumpError>(
                MiniPumpError::BondingCurveNotActive,
            ),
            r is Err ==> *final(self) == *old(self),
            final(self).bonding_curve.tokens_sold >= old(self).bonding_curve.tokens_sold,
            final(self).bonding_curve.is_active == old(self).bonding_curve.is_active,
    {
        let curve = self.bonding_curve;
        if !curve.is_active {
            return Err(MiniPumpError::BondingCurveNotActive);
        }
        let sol_out = match self.calculate_sol_for_token(token_amount) {
            Ok(v) => v,
            Err(e) => {
                return Err(e);
            },
        };
        let token_after = match curve.virtual_token_liquidity.checked_sub(token_amount) {
            Some(v) => v,
            None => {
                return Err(MiniPumpError::InsufficientTokenBalance);
            },
        };
        let sol_after = match curve.virtual_sol_liquidity.checked_add(sol_out) {
            Some(v) => v,
            None => {
                return Err(MiniPumpError::ArithmeticOverflow);
            },
        };
        let sold_after = match curve.tokens_sold.checked_add(token_amount) {
            Some(v) => v,
            None => {
                return Err(MiniPumpError::ArithmeticOverflow);
            },
        };
        let trade = Trade {
            paid: CustodyMove {
                from: self.buyer_token_account,
                to: self.bonding_curve_token_account,
                authority: self.buyer,
                amount: token_amount,
            },
            received: CustodyMove {
                from: self.sol_escrow,
                to: self.buyer,
                authority: self.bonding_curve_key,
                amount: sol_out,
            },
        };
        self.bonding_curve.virtual_token_liquidity = token_after;
        self.bonding_curve.virtual_sol_liquidity = sol_after;
        self.bonding_curve.tokens_sold = sold_after;
        Ok(trade)
    }

    /// Tokens that the curve gives for `sol_amount` at its present state:
    /// the virtual token liquidity less the floor of the constant product over
    /// the virtual SOL liquidity enlarged by `sol_amount`.
    ///
    /// Refuses with `ArithmeticOverflow` where the enlarged liquidity does not
    /// fit in 64 bits, and with `CalculationError` where it is zero.
    pub fn calculate_token_for_sol(&self, sol_amount: u64) -> (r: Result<u64, MiniPumpError>)
        ensures
            r == self.bonding_curve.token_for_sol(sol_amount),
            r matches Ok(token_out) ==> {
                &&& token_out <= self.bonding_curve.virtual_token_liquidity
                &&& token_out == self.bonding_curve.virtual_token_liquidity
                    - self.bonding_curve.product() / (self.bonding_curve.virtual_sol_liquidity
                    + sol_amount)
            },
    {
        constant_product_quote(
            self.bonding_curve.virtual_sol_liquidity,
            self.bonding_curve.virtual_token_liquidity,
            sol_amount,
        )
    }

    /// SOL that the curve gives for `token_amount` at its present state:
    /// the virtual SOL liquidity less the floor of the constant product over
    /// the virtual token liquidity enlarged by `token_amount`.
    ///
    /// Refuses with `ArithmeticOverflow` where the enlarged liquidity does not
    /// fit in 64 bits, and with `CalculationError` where it is zero.
    pub fn calculate_sol_for_token(&self, token_amount: u64) -> (r: Result<u64, MiniPumpError>)
        ensures
            r == self.bonding_curve.sol_for_token(token_amount),
            r matches Ok(sol_out) ==> {
                &&& sol_out <= self.bonding_curve.virtual_sol_liquidity
                &&& sol_out == self.bonding_curve.virtual_sol_liquidity
                    - self.bonding_curve.product() / (self.bonding_curve.virtual_token_liquidity
                    + token_amount)
            },
    {
        proof {
            assert(self.bonding_curve.virtual_token_liquidity
                * self.bonding_curve.virtual_sol_liquidity == self.bonding_curve.product())
                by (nonlinear_arith);
        }
        constant_product_quote(
            self.bonding_curve.virtual_token_liquidity,
            self.bonding_curve.virtual_sol_liquidity,
            token_amount,
        )
    }
}

} // verus!
