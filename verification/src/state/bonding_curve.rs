use crate::error::MiniPumpError;
use crate::pricing::quote_outcome;
use anchor_lang::prelude::Pubkey;
use vstd::prelude::*;

verus! {

/// Cumulative units, in minimal units of six decimals, beyond which a curve
/// stops trading: 800 million whole tokens.
pub const SALE_THRESHOLD: u64 = 800_000_000_000;

/// The state of one curve. Every trade rewrites the three amounts together;
/// `is_active` goes from `true` to `false` once and never back.
#[derive(Clone, Copy, Debug, PartialEq, Eq)]
pub struct BondingCurve {
    /// SOL side of the constant product.
    pub virtual_sol_liquidity: u64,
    /// Token side of the constant product.
    pub virtual_token_liquidity: u64,
    /// Token units that have passed through the curve, buys and sells alike.
    pub tokens_sold: u64,
    pub token_mint: Pubkey,
    pub is_active: bool,
    pub bump: u8,
}

/// A request to trade, as far as the curve's state is concerned.
pub enum Order {
    /// Pay this much SOL for tokens.
    Buy(u64),
    /// Hand in this many tokens for SOL.
    Sell(u64),
}

impl BondingCurve {
    /// The product that pricing holds constant.
    pub open spec fn product(self) -> int {
        self.virtual_sol_liquidity * self.virtual_token_liquidity
    }

    /// Tokens that the pricing rule gives for `sol_amount`, before any clamp.
    pub open spec fn token_for_sol(self, sol_amount: u64) -> Result<u64, MiniPumpError> {
        quote_outcome(self.virtual_sol_liquidity, self.virtual_token_liquidity, sol_amount)
    }

    /// SOL that the pricing rule gives for `token_amount`.
    pub open spec fn sol_for_token(self, token_amount: u64) -> Result<u64, MiniPumpError> {
        quote_outcome(self.virtual_token_liquidity, self.virtual_sol_liquidity, token_amount)
    }

    /// Whether a buy of `sol_amount` would carry `tokens_sold` past the
    /// threshold, so that its output is cut down and the curve is closed.
    pub open spec fn buy_is_clamped(self, sol_amount: u64) -> bool {
        self.token_for_sol(sol_amount) matches Ok(quoted) && self.tokens_sold + quoted
            > SALE_THRESHOLD
    }

    /// What a buy of `sol_amount` does: the tokens handed out and the state
    /// afterwards, or the reason why nothing happens.
    ///
    /// The whole payment enters the virtual SOL liquidity even when the
    /// threshold cuts the tokens down. An active curve whose `tokens_sold` is
    /// already above the threshold has nothing left to hand out and refuses.
    pub open spec fn buy_outcome(self, sol_amount: u64) -> Result<(u64, BondingCurve), MiniPumpError> {
        if !self.is_active {
            Err(MiniPumpError::BondingCurveNotActive)
        } else {
            match self.token_for_sol(sol_amount) {
                Err(e) => Err(e),
                Ok(quoted) => {
                    if self.tokens_sold + quoted <= SALE_THRESHOLD {
                        Ok(
                            (
                                quoted,
                                BondingCurve {
                                    virtual_sol_liquidity: (self.virtual_sol_liquidity
                                        + sol_amount) as u64,
                                    virtual_token_liquidity: (self.virtual_token_liquidity
                                        - quoted) as u64,
                                    tokens_sold: (self.tokens_sold + quoted) as u64,
                                    ..self
                                },
                            ),
                        )
                    } else if self.tokens_sold > SALE_THRESHOLD {
                        Err(MiniPumpError::InsufficientTokenBalance)
                    } else {
                        let token_out = (SALE_THRESHOLD - self.tokens_sold) as u64;
                        Ok(
                            (
                                token_out,
                                BondingCurve {
                                    virtual_sol_liquidity: (self.virtual_sol_liquidity
                                        + sol_amount) as u64,
                                    virtual_token_liquidity: (self.virtual_token_liquidity
                                        - token_out) as u64,
                                    tokens_sold: SALE_THRESHOLD,
                                    is_active: false,
                                    ..self
                                },
                            ),
                        )
                    }
                },
            }
        }
    }

    /// What a sell of `token_amount` does: the SOL paid out and the state
    /// afterwards, or the reason why nothing happens.
    ///
    /// A sell lowers the virtual token liquidity by what was handed in, raises
    /// the virtual SOL liquidity by what was paid out, and counts the tokens
    /// into `tokens_sold`. No threshold applies.
    pub open spec fn sell_outcome(self, token_amount: u64) -> Result<
        (u64, BondingCurve),
        MiniPumpError,
    > {
        if !self.is_active {
            Err(MiniPumpError::BondingCurveNotActive)
        } else {
            match self.sol_for_token(token_amount) {
                Err(e) => Err(e),
                Ok(sol_out) => {
                    if token_amount > self.virtual_token_liquidity {
                        Err(MiniPumpError::InsufficientTokenBalance)
                    } else if self.virtual_sol_liquidity + sol_out > u64::MAX {
                        Err(MiniPumpError::ArithmeticOverflow)
                    } else if self.tokens_sold + token_amount > u64::MAX {
                        Err(MiniPumpError::ArithmeticOverflow)
                    } else {
                        Ok(
                            (
                                sol_out,
                                BondingCurve {
                                    virtual_sol_liquidity: (self.virtual_sol_liquidity
                                        + sol_out) as u64,
                                    virtual_token_liquidity: (self.virtual_token_liquidity
                                        - token_amount) as u64,
                                    tokens_sold: (self.tokens_sold + token_amount) as u64,
                                    ..self
                                },
                            ),
                        )
                    }
                },
            }
        }
    }

    /// The state after an order has been tried: the new state where the order
    /// goes through, the old one where it is refused.
    pub open spec fn after(self, order: Order) -> BondingCurve {
        let outcome = match order {
            Order::Buy(sol_amount) => self.buy_outcome(sol_amount),
            Order::Sell(token_amount) => self.sell_outcome(token_amount),
        };
        match outcome {
            Ok((_, next)) => next,
            Err(_) => self,
        }
    }

    /// The state after a run of orders, each tried on what the one before left.
    pub open spec fn after_all(self, orders: Seq<Order>) -> BondingCurve
        decreases orders.len(),
    {
        if orders.len() == 0 {
            self
        } else {
            self.after_all(orders.drop_last()).after(orders.last())
        }
    }

    /// Tokens kept back for liquidity after the sale: what a withdrawal hands to
    /// the owner.
    pub open spec fn remainder(self) -> int {
        self.virtual_token_liquidity - self.tokens_sold
    }
}

} // verus!
