//! Integer-only arithmetic of the market: stake multiplier, settlement-distance
//! accuracy and reward weight. All results are in basis points unless noted.
use vstd::prelude::*;

use crate::state::OodsError;

verus! {

/// Smallest currency units in one whole unit.
pub const UNITS_PER_WHOLE: u64 = 1_000_000_000;

/// Multiplier, in basis points, for a market that has `locked` smallest units
/// staked: a step function over whole units, lower bounds inclusive.
pub open spec fn stake_multiplier(locked: int) -> int {
    let units = locked / (UNITS_PER_WHOLE as int);
    if units < 100 {
        150
    } else if units < 200 {
        130
    } else if units < 300 {
        110
    } else if units < 400 {
        100
    } else if units < 500 {
        80
    } else if units < 600 {
        60
    } else {
        50
    }
}

/// Distance between a breakpoint and the settlement value.
pub open spec fn distance(breakpoint: int, settlement: int) -> int {
    if breakpoint > settlement {
        breakpoint - settlement
    } else {
        settlement - breakpoint
    }
}

/// The distance relative to the settlement value, in basis points, truncated.
pub open spec fn distance_ratio(breakpoint: int, settlement: int) -> int {
    distance(breakpoint, settlement) * 10000 / settlement
}

/// Direction-agnostic accuracy: 1 / (1 + ratio^2) in basis points, with each
/// division truncating.
pub open spec fn raw_accuracy(breakpoint: int, settlement: int) -> int {
    let ratio = distance_ratio(breakpoint, settlement);
    let ratio_sq = ratio * ratio / 10000;
    100_000_000int / (10000 + ratio_sq)
}

/// A "yes" bet is right when the settlement reaches the breakpoint; a "no" bet
/// when it stays below.
pub open spec fn direction_correct(breakpoint: int, settlement: int, is_yes: bool) -> bool {
    if is_yes {
        settlement >= breakpoint
    } else {
        settlement < breakpoint
    }
}

/// Accuracy of a bet: the raw score, cut to 67% when the direction was wrong.
pub open spec fn accuracy_score(breakpoint: int, settlement: int, is_yes: bool) -> int {
    if direction_correct(breakpoint, settlement, is_yes) {
        raw_accuracy(breakpoint, settlement)
    } else {
        raw_accuracy(breakpoint, settlement) * 67 / 100
    }
}

/// The accuracy computation stays within 128 bits exactly when the squared
/// ratio does.
pub open spec fn accuracy_fits(breakpoint: int, settlement: int) -> bool {
    distance_ratio(breakpoint, settlement) * distance_ratio(breakpoint, settlement)
        <= u128::MAX
}

/// Reward weight of a stake: amount x accuracy x multiplier, divided by 10000
/// and then by 100, each division truncating.
pub open spec fn reward_weight_of(amount: int, accuracy_bp: int, multiplier_bp: int) -> int {
    amount * accuracy_bp * multiplier_bp / 10000 / 100
}

/// The share of the supply reserved for participants: 80%, truncated.
pub open spec fn participant_pool_of(total_supply: int) -> int {
    total_supply * 80 / 100
}

/// Multiplier, in basis points, for a bet placed when `total_locked` smallest
/// units are already staked in the market.
pub fn calculate_multiplier(total_locked: u64) -> (r: u16)
    ensures
        r == stake_multiplier(total_locked as int),
{
    let units = total_locked / UNITS_PER_WHOLE;
    if units < 100 {
        150
    } else if units < 200 {
        130
    } else if units < 300 {
        110
    } else if units < 400 {
        100
    } else if units < 500 {
        80
    } else if units < 600 {
        60
    } else {
        50
    }
}

proof fn lemma_raw_accuracy_bounded(ratio_sq: int)
    requires
        ratio_sq >= 0,
    ensures
        0 <= 100_000_000int / (10000 + ratio_sq) <= 10000,
{
    vstd::arithmetic::div_mod::lemma_div_is_ordered_by_denominator(
        100_000_000int,
        10000,
        10000 + ratio_sq,
    );
    vstd::arithmetic::div_mod::lemma_div_pos_is_pos(100_000_000int, 10000 + ratio_sq);
}

/// Accuracy of a bet on `breakpoint` against `settlement`, in basis points
/// (0..=10000). Fails with `ArithmeticOverflow` exactly when the squared
/// distance ratio exceeds 128 bits.
pub fn calculate_accuracy(breakpoint: u64, settlement: u64, is_yes: bool) -> (r: Result<
    u16,
    OodsError,
>)
    requires
        settlement > 0,
    ensures
        accuracy_fits(breakpoint as int, settlement as int) ==> r is Ok && r->Ok_0 as int
            == accuracy_score(breakpoint as int, settlement as int, is_yes),
        !accuracy_fits(breakpoint as int, settlement as int) ==> r == Err::<u16, OodsError>(
            OodsError::ArithmeticOverflow,
        ),
        r is Ok ==> r->Ok_0 <= 10000,
{
    let distance = if breakpoint > settlement {
        breakpoint - settlement
    } else {
        settlement - breakpoint
    };
    let scaled = distance as u128 * 10000;
    let ratio = scaled / settlement as u128;
    let ratio_sq_full = match ratio.checked_mul(ratio) {
        Some(v) => v,
        None => {
            return Err(OodsError::ArithmeticOverflow);
        },
    };
    let ratio_sq = ratio_sq_full / 10000;
    assert(ratio_sq <= u128::MAX / 10000);
    let denom = 10000 + ratio_sq;
    let raw = 10000 * 10000 / denom;
    proof {
        lemma_raw_accuracy_bounded(ratio_sq as int);
    }
    let is_correct = if is_yes {
        settlement >= breakpoint
    } else {
        settlement < breakpoint
    };
    if is_correct {
        Ok(raw as u16)
    } else {
        Ok((raw * 67 / 100) as u16)
    }
}

/// Reward weight of a stake, in tokens. The product is formed in 128 bits,
/// where it always fits.
pub fn reward_weight(amount: u64, accuracy_bp: u16, multiplier_bp: u16) -> (r: u128)
    ensures
        r == reward_weight_of(amount as int, accuracy_bp as int, multiplier_bp as int),
{
    let a = amount as u128;
    let b = accuracy_bp as u128;
    let c = multiplier_bp as u128;
    assert(a * b <= 0xffff_ffff_ffff_ffffu128 * 0xffffu128) by (nonlinear_arith)
        requires
            a <= 0xffff_ffff_ffff_ffffu128,
            b <= 0xffffu128,
    ;
    let ab = a * b;
    assert(ab * c <= 0xffff_ffff_ffff_ffffu128 * 0xffffu128 * 0xffffu128) by (nonlinear_arith)
        requires
            ab <= 0xffff_ffff_ffff_ffffu128 * 0xffffu128,
            c <= 0xffffu128,
    ;
    let abc = ab * c;
    abc / 10000 / 100
}

/// The participants' share of `total_supply`, in tokens.
pub fn participant_pool(total_supply: u64) -> (r: u128)
    ensures
        r == participant_pool_of(total_supply as int),
        r <= total_supply,
{
    total_supply as u128 * 80 / 100
}

} // verus!
