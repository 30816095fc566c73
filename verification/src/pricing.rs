use crate::error::MiniPumpError;
use vstd::prelude::*;

verus! {

/// What a constant-product curve pays out.
///
/// The curve holds `side_in` of what the trader brings and `side_out` of what
/// the trader takes. After `amount_in` has been added to the first side, the
/// second side is cut down to the floor of the old product divided by the new
/// first side; the trader receives the difference.
pub open spec fn swap_output(side_in: int, side_out: int, amount_in: int) -> int {
    side_out - (side_in * side_out) / (side_in + amount_in)
}

/// The quotient that `swap_output` subtracts lies between zero and `side_out`,
/// and it is the floor of the product over the enlarged side.
pub proof fn lemma_swap_output(side_in: int, side_out: int, amount_in: int)
    requires
        0 <= side_in,
        0 <= side_out,
        0 <= amount_in,
        0 < side_in + amount_in,
    ensures
        0 <= swap_output(side_in, side_out, amount_in) <= side_out,
        (side_in + amount_in) * (side_out - swap_output(side_in, side_out, amount_in)) <= side_in
            * side_out,
        side_in * side_out < (side_in + amount_in) * (side_out - swap_output(
            side_in,
            side_out,
            amount_in,
        ) + 1),
{
    let k = side_in * side_out;
    let d = side_in + amount_in;
    let q = k / d;
    assert(0 <= k) by (nonlinear_arith)
        requires
            0 <= side_in,
            0 <= side_out,
            k == side_in * side_out,
    ;
    assert(d * q <= k < d * (q + 1)) by (nonlinear_arith)
        requires
            0 < d,
            q == k / d,
    ;
    assert(0 <= q) by (nonlinear_arith)
        requires
            0 < d,
            0 <= k,
            k < d * (q + 1),
    ;
    assert(q <= side_out) by (nonlinear_arith)
        requires
            0 < d,
            0 <= side_out,
            0 <= side_in <= d,
            d * q <= k,
            k == side_in * side_out,
    ;
}

/// A positive payment into a side that holds something always buys at least
/// one unit.
pub proof fn lemma_swap_output_positive(side_in: int, side_out: int, amount_in: int)
    requires
        0 <= side_in,
        0 < side_out,
        0 < amount_in,
    ensures
        1 <= swap_output(side_in, side_out, amount_in),
{
    let k = side_in * side_out;
    let d = side_in + amount_in;
    let q = k / d;
    assert(d * q <= k) by (nonlinear_arith)
        requires
            0 < d,
            q == k / d,
    ;
    assert(q < side_out) by (nonlinear_arith)
        requires
            0 < side_out,
            0 <= side_in < d,
            d * q <= k,
            k == side_in * side_out,
    ;
}

/// The answer of the pricing rule on 64-bit sides.
///
/// The enlarged side has to fit in 64 bits and must not be zero, since the
/// product is divided by it. Everywhere else the answer is `swap_output`, which
/// then lies between zero and `side_out`.
pub open spec fn quote_outcome(side_in: u64, side_out: u64, amount_in: u64) -> Result<
    u64,
    MiniPumpError,
> {
    if side_in + amount_in > u64::MAX {
        Err(MiniPumpError::ArithmeticOverflow)
    } else if side_in + amount_in == 0 {
        Err(MiniPumpError::CalculationError)
    } else {
        Ok(swap_output(side_in as int, side_out as int, amount_in as int) as u64)
    }
}

/// Computes `quote_outcome`, with the product held in 128 bits.
///
/// The test against `side_out` guards the final subtraction; the contract shows
/// that it never fires.
pub fn constant_product_quote(side_in: u64, side_out: u64, amount_in: u64) -> (r: Result<
    u64,
    MiniPumpError,
>)
    ensures
        r == quote_outcome(side_in, side_out, amount_in),
        r matches Ok(out) ==> out == swap_output(side_in as int, side_out as int, amount_in as int)
            && out <= side_out,
{
    let enlarged = match side_in.checked_add(amount_in) {
        Some(v) => v,
        None => {
            return Err(MiniPumpError::ArithmeticOverflow);
        },
    };
    if enlarged == 0 {
        return Err(MiniPumpError::CalculationError);
    }
    proof {
        lemma_swap_output(side_in as int, side_out as int, amount_in as int);
        assert(side_in * side_out <= 0xffff_ffff_ffff_ffff * 0xffff_ffff_ffff_ffff)
            by (nonlinear_arith)
            requires
                0 <= side_in <= 0xffff_ffff_ffff_ffff,
                0 <= side_out <= 0xffff_ffff_ffff_ffff,
        ;
    }
    let product: u128 = (side_in as u128) * (side_out as u128);
    let kept: u128 = product / (enlarged as u128);
    if kept > side_out as u128 {
        return Err(MiniPumpError::CalculationError);
    }
    Ok(side_out - (kept as u64))
}

} // verus!
