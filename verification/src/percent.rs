//! Integer percentage arithmetic on balances.

use vstd::prelude::*;
use crate::types::Balance;

verus! {

/// `percent` per cent of `amount`, rounded down. A percentage above 100 counts as 100.
pub open spec fn percent_of(percent: nat, amount: nat) -> nat {
    (if percent <= 100 { percent } else { 100 }) * amount / 100
}

/// Calls `Percent::from_percent` and `Percent::mul_floor` of `sp_runtime`.
///
/// Trusted: `from_percent` caps its argument at 100, and `mul_floor` multiplies the
/// balance by that share and rounds down to a whole number, without overflow.
#[verifier::external_body]
pub(crate) fn percent_mul_floor(percent: u8, amount: Balance) -> (r: Balance)
    ensures
        r == percent_of(percent as nat, amount as nat),
{
    sp_runtime::Percent::from_percent(percent).mul_floor(amount)
}

/// `percent` per cent of `amount`, rounded down.
pub fn percentage_of(percent: u8, amount: Balance) -> (r: Balance)
    ensures
        r == percent_of(percent as nat, amount as nat),
        r <= amount,
{
    proof {
        lemma_percent_of_bounds(percent as nat, amount as nat);
    }
    percent_mul_floor(percent, amount)
}

/// A share never exceeds the whole, and falls short of the exact share by less than one.
pub proof fn lemma_percent_of_bounds(percent: nat, amount: nat)
    ensures
        percent_of(percent, amount) <= amount,
        percent <= 100 ==> 100 * percent_of(percent, amount) <= percent * amount,
        percent <= 100 ==> percent * amount < 100 * percent_of(percent, amount) + 100,
        percent >= 100 ==> percent_of(percent, amount) == amount,
{
    let p: nat = if percent <= 100 { percent } else { 100 };
    assert(p * amount <= 100 * amount) by (nonlinear_arith)
        requires
            p <= 100,
    ;
    assert((p * amount) / 100 <= amount) by (nonlinear_arith)
        requires
            p * amount <= 100 * amount,
    ;
    assert(100 * ((p * amount) / 100) <= p * amount < 100 * ((p * amount) / 100) + 100)
        by (nonlinear_arith);
    if percent >= 100 {
        assert((100 * amount) / 100 == amount) by (nonlinear_arith);
    }
}

} // verus!
