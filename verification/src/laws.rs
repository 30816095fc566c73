//! What holds of every curve and every trade, proved from the definitions in
//! `state::bonding_curve` that the instructions' contracts are stated in.

use crate::error::MiniPumpError;
use crate::pricing::{lemma_swap_output, lemma_swap_output_positive, swap_output};
use crate::state::bonding_curve::{BondingCurve, Order, SALE_THRESHOLD};
use vstd::prelude::*;

verus! {

/// Both quotes keep the constant product up to the rounding of one division:
/// with the amount added to one side and the quote taken off the other, the
/// product does not grow, and one unit less taken off would make it grow.
pub proof fn lemma_quotes_keep_product(curve: BondingCurve, amount: u64)
    ensures
        curve.token_for_sol(amount) matches Ok(token_out) ==> {
            &&& token_out <= curve.virtual_token_liquidity
            &&& (curve.virtual_sol_liquidity + amount) * (curve.virtual_token_liquidity
                - token_out) <= curve.product()
            &&& curve.product() < (curve.virtual_sol_liquidity + amount) * (
            curve.virtual_token_liquidity - token_out + 1)
        },
        curve.sol_for_token(amount) matches Ok(sol_out) ==> {
            &&& sol_out <= curve.virtual_sol_liquidity
            &&& (curve.virtual_sol_liquidity - sol_out) * (curve.virtual_token_liquidity
                + amount) <= curve.product()
            &&& curve.product() < (curve.virtual_sol_liquidity - sol_out + 1) * (
            curve.virtual_token_liquidity + amount)
        },
{
    let a = curve.virtual_sol_liquidity as int;
    let b = curve.virtual_token_liquidity as int;
    let x = amount as int;
    if curve.token_for_sol(amount) is Ok {
        lemma_swap_output(a, b, x);
    }
    if curve.sol_for_token(amount) is Ok {
        lemma_swap_output(b, a, x);
        let paid = swap_output(b, a, x);
        assert(b * a == a * b) by (nonlinear_arith);
        assert((b + x) * (a - paid) == (a - paid) * (b + x)) by (nonlinear_arith);
        assert((b + x) * (a - paid + 1) == (a - paid + 1) * (b + x)) by (nonlinear_arith);
    }
}

/// A buy goes through exactly when the curve trades, the payment fits into the
/// virtual SOL liquidity and leaves it above zero, and `tokens_sold` is not
/// above the threshold while the buy is clamped. The tokens of a buy that goes
/// through never exceed what the pricing rule quotes.
pub proof fn lemma_buy_succeeds_when(curve: BondingCurve, sol_amount: u64)
    ensures
        curve.buy_outcome(sol_amount) is Ok <==> {
            &&& curve.is_active
            &&& 0 < curve.virtual_sol_liquidity + sol_amount <= u64::MAX
            &&& (curve.buy_is_clamped(sol_amount) ==> curve.tokens_sold <= SALE_THRESHOLD)
        },
        curve.buy_outcome(sol_amount) matches Ok((token_out, _)) ==> token_out
            <= curve.token_for_sol(sol_amount)->Ok_0 <= curve.virtual_token_liquidity,
{
    if curve.token_for_sol(sol_amount) is Ok {
        lemma_swap_output(
            curve.virtual_sol_liquidity as int,
            curve.virtual_token_liquidity as int,
            sol_amount as int,
        );
    }
}

/// A buy that the threshold does not cut keeps the constant product up to the
/// rounding of one division: the product does not grow, and it falls by less
/// than the new virtual SOL liquidity. A buy that the threshold cuts takes the
/// whole payment for fewer tokens, and the product grows.
pub proof fn lemma_buy_keeps_product(curve: BondingCurve, sol_amount: u64)
    requires
        curve.buy_outcome(sol_amount) is Ok,
    ensures
        ({
            let next = curve.buy_outcome(sol_amount)->Ok_0.1;
            &&& !curve.buy_is_clamped(sol_amount) ==> curve.product() - next.virtual_sol_liquidity
                < next.product() <= curve.product()
            &&& curve.buy_is_clamped(sol_amount) ==> curve.product() < next.product()
        }),
{
    let a = curve.virtual_sol_liquidity as int;
    let b = curve.virtual_token_liquidity as int;
    let s = sol_amount as int;
    let quoted = swap_output(a, b, s);
    lemma_swap_output(a, b, s);
    if curve.buy_is_clamped(sol_amount) {
        let handed = SALE_THRESHOLD - curve.tokens_sold;
        assert(handed < quoted);
        assert(a * b < (a + s) * (b - handed)) by (nonlinear_arith)
            requires
                0 < a + s,
                handed < quoted,
                a * b < (a + s) * (b - quoted + 1),
        ;
    } else {
        assert((a + s) * (b - quoted + 1) == (a + s) * (b - quoted) + (a + s))
            by (nonlinear_arith);
    }
}

/// The product after a sell, written out. A sell takes the tokens off the
/// virtual token liquidity and adds the SOL paid out to the virtual SOL
/// liquidity, so the product falls by the tokens handed in times the old SOL
/// side and rises by the SOL paid out times the new token side. It does not
/// grow exactly when the second is no more than the first.
pub proof fn lemma_sell_product(curve: BondingCurve, token_amount: u64)
    requires
        curve.sell_outcome(token_amount) is Ok,
    ensures
        ({
            let (sol_out, next) = curve.sell_outcome(token_amount)->Ok_0;
            &&& next.product() == curve.product() - curve.virtual_sol_liquidity * token_amount
                + sol_out * next.virtual_token_liquidity
            &&& next.product() <= curve.product() <==> sol_out * next.virtual_token_liquidity
                <= curve.virtual_sol_liquidity * token_amount
        }),
{
    let a = curve.virtual_sol_liquidity as int;
    let b = curve.virtual_token_liquidity as int;
    let t = token_amount as int;
    let paid = swap_output(b, a, t);
    lemma_swap_output(b, a, t);
    assert((a + paid) * (b - t) == a * b - a * t + paid * (b - t)) by (nonlinear_arith);
}

/// A buy that would carry `tokens_sold` past the threshold hands out exactly
/// what is left below the threshold and closes the curve, however much SOL
/// was paid; the whole payment still enters the virtual SOL liquidity.
pub proof fn lemma_threshold_clamp(curve: BondingCurve, sol_amount: u64)
    requires
        curve.is_active,
        curve.tokens_sold <= SALE_THRESHOLD,
        curve.buy_is_clamped(sol_amount),
    ensures
        curve.buy_outcome(sol_amount) is Ok,
        ({
            let (token_out, next) = curve.buy_outcome(sol_amount)->Ok_0;
            &&& token_out == SALE_THRESHOLD - curve.tokens_sold
            &&& !next.is_active
            &&& next.tokens_sold == SALE_THRESHOLD
            &&& next.virtual_sol_liquidity == curve.virtual_sol_liquidity + sol_amount
            &&& next.virtual_token_liquidity == curve.virtual_token_liquidity - token_out
        }),
{
    lemma_swap_output(
        curve.virtual_sol_liquidity as int,
        curve.virtual_token_liquidity as int,
        sol_amount as int,
    );
}

/// One order, whether it goes through or not, never lowers `tokens_sold`,
/// never reopens a closed curve, and leaves a closed curve as it was.
pub proof fn lemma_order_step(curve: BondingCurve, order: Order)
    ensures
        curve.after(order).tokens_sold >= curve.tokens_sold,
        curve.after(order).is_active ==> curve.is_active,
        !curve.is_active ==> curve.after(order) == curve,
{
    match order {
        Order::Buy(sol_amount) => {
            if curve.token_for_sol(sol_amount) is Ok {
                lemma_swap_output(
                    curve.virtual_sol_liquidity as int,
                    curve.virtual_token_liquidity as int,
                    sol_amount as int,
                );
            }
        },
        Order::Sell(token_amount) => {
            if curve.sol_for_token(token_amount) is Ok {
                lemma_swap_output(
                    curve.virtual_token_liquidity as int,
                    curve.virtual_sol_liquidity as int,
                    token_amount as int,
                );
            }
        },
    }
}

/// Over any run of orders `tokens_sold` never decreases and a curve never goes
/// from closed to open.
pub proof fn lemma_tokens_sold_never_decreases(curve: BondingCurve, orders: Seq<Order>)
    ensures
        curve.after_all(orders).tokens_sold >= curve.tokens_sold,
        curve.after_all(orders).is_active ==> curve.is_active,
    decreases orders.len(),
{
    if orders.len() > 0 {
        lemma_tokens_sold_never_decreases(curve, orders.drop_last());
        lemma_order_step(curve.after_all(orders.drop_last()), orders.last());
    }
}

/// A closed curve refuses every trade and stays exactly as it is, whatever is
/// tried on it.
pub proof fn lemma_closed_curve_is_final(curve: BondingCurve, orders: Seq<Order>)
    requires
        !curve.is_active,
    ensures
        forall|sol_amount: u64| #[trigger]
            curve.buy_outcome(sol_amount) == Err::<(u64, BondingCurve), MiniPumpError>(
                MiniPumpError::BondingCurveNotActive,
            ),
        forall|token_amount: u64| #[trigger]
            curve.sell_outcome(token_amount) == Err::<(u64, BondingCurve), MiniPumpError>(
                MiniPumpError::BondingCurveNotActive,
            ),
        curve.after_all(orders) == curve,
    decreases orders.len(),
{
    if orders.len() > 0 {
        lemma_closed_curve_is_final(curve, orders.drop_last());
    }
}

/// Buying and at once selling the tokens bought pays back at least the SOL
/// that was paid: both quotes round in the trader's favour, so a round trip on
/// the curve never costs the trader anything.
pub proof fn lemma_round_trip_pays_back(curve: BondingCurve, sol_amount: u64)
    requires
        curve.buy_outcome(sol_amount) is Ok,
        curve.buy_outcome(sol_amount)->Ok_0.1.sell_outcome(curve.buy_outcome(sol_amount)->Ok_0.0)
            is Ok,
    ensures
        ({
            let (token_out, bought) = curve.buy_outcome(sol_amount)->Ok_0;
            bought.sell_outcome(token_out)->Ok_0.0 >= sol_amount
        }),
{
    let a = curve.virtual_sol_liquidity as int;
    let b = curve.virtual_token_liquidity as int;
    let s = sol_amount as int;
    let (token_out, bought) = curve.buy_outcome(sol_amount)->Ok_0;
    lemma_swap_output(a, b, s);
    assert(bought.is_active);
    assert(!curve.buy_is_clamped(sol_amount));
    let kept = b - token_out;
    assert(bought.virtual_token_liquidity == kept);
    assert(bought.virtual_sol_liquidity == a + s);
    if s > 0 {
        if b > 0 {
            lemma_swap_output_positive(a, b, s);
        }
        assert(b > 0);
        lemma_swap_output(kept, a + s, token_out as int);
        assert((kept * (a + s)) / (kept + token_out) <= a) by (nonlinear_arith)
            requires
                (a + s) * kept <= a * b,
                kept + token_out == b,
                0 < b,
                0 <= a,
        ;
    }
}

} // verus!
