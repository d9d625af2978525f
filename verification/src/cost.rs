use vstd::prelude::*;
use crate::error::ErrorCode;

verus! {

/// 10 raised to the power `n`.
pub open spec fn pow10(n: nat) -> nat
    decreases n,
{
    if n == 0 {
        1
    } else {
        10 * pow10((n - 1) as nat)
    }
}

/// The quadratic cost of a vote, in base credit units: the square of the
/// vote weight, scaled by `10^decimals` so that one whole credit buys one
/// unit of weight-squared.
pub open spec fn vote_cost(weight: u64, decimals: u8) -> nat {
    (weight * weight * pow10(decimals as nat)) as nat
}

pub proof fn lemma_pow10_positive(n: nat)
    ensures
        pow10(n) >= 1,
    decreases n,
{
    if n > 0 {
        lemma_pow10_positive((n - 1) as nat);
    }
}

pub proof fn lemma_pow10_increases(m: nat, n: nat)
    requires
        m <= n,
    ensures
        pow10(m) <= pow10(n),
    decreases n,
{
    if m < n {
        lemma_pow10_increases(m, (n - 1) as nat);
        lemma_pow10_positive((n - 1) as nat);
    }
}

/// Computes `10^decimals`, or `None` where the result does not fit in a
/// `u64` (that is, for `decimals >= 20`).
pub fn checked_pow10(decimals: u8) -> (r: Option<u64>)
    ensures
        r is Some <==> pow10(decimals as nat) <= u64::MAX,
        r matches Some(v) ==> v == pow10(decimals as nat),
{
    let mut acc: u64 = 1;
    let mut i: u8 = 0;
    while i < decimals
        invariant
            i <= decimals,
            acc == pow10(i as nat),
        decreases decimals - i,
    {
        match acc.checked_mul(10) {
            Some(next) => {
                acc = next;
                i = i + 1;
            },
            None => {
                proof {
                    lemma_pow10_increases((i + 1) as nat, decimals as nat);
                }
                return None;
            },
        }
    }
    Some(acc)
}

/// The quadratic cost function of the voting engine: squares the requested
/// weight and scales it to base credit units, refusing any step that would
/// overflow a `u64`.
pub fn quadratic_cost(weight: u64, decimals: u8) -> (r: Result<u64, ErrorCode>)
    ensures
        r is Ok <==> weight * weight <= u64::MAX && pow10(decimals as nat) <= u64::MAX
            && vote_cost(weight, decimals) <= u64::MAX,
        r matches Ok(c) ==> c == vote_cost(weight, decimals),
        r matches Err(e) ==> e == ErrorCode::ArithmeticOverflow,
        weight > 0 ==> (r is Ok <==> vote_cost(weight, decimals) <= u64::MAX),
{
    proof {
        lemma_pow10_positive(decimals as nat);
        lemma_cost_factors_bounded(weight, decimals);
    }
    let squared = match weight.checked_mul(weight) {
        Some(s) => s,
        None => {
            return Err(ErrorCode::ArithmeticOverflow);
        },
    };
    let scale = match checked_pow10(decimals) {
        Some(s) => s,
        None => {
            return Err(ErrorCode::ArithmeticOverflow);
        },
    };
    match squared.checked_mul(scale) {
        Some(c) => Ok(c),
        None => Err(ErrorCode::ArithmeticOverflow),
    }
}

/// A positive weight costs at least one base credit unit.
pub proof fn lemma_vote_cost_positive(weight: u64, decimals: u8)
    requires
        weight > 0,
    ensures
        vote_cost(weight, decimals) >= 1,
{
    lemma_cost_factors_bounded(weight, decimals);
    assert(weight * weight >= 1) by (nonlinear_arith)
        requires weight >= 1;
}

/// A positive weight makes both factors of the cost product lower bounds of
/// the product itself, so overflow of either factor is overflow of the cost.
proof fn lemma_cost_factors_bounded(weight: u64, decimals: u8)
    ensures
        weight > 0 ==> weight * weight <= vote_cost(weight, decimals),
        weight > 0 ==> pow10(decimals as nat) <= vote_cost(weight, decimals),
{
    lemma_pow10_positive(decimals as nat);
    let p = pow10(decimals as nat);
    if weight > 0 {
        assert(weight * weight * p >= weight * weight * 1 == weight * weight)
            by (nonlinear_arith)
            requires p >= 1;
        assert(weight * weight * p >= 1 * 1 * p == p) by (nonlinear_arith)
            requires weight >= 1, p >= 1;
    }
}

} // verus!
