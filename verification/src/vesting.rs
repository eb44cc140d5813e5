//! Linear vesting of a committed amount over a time window.

use vstd::prelude::*;
use crate::error::ErrorCode;
use crate::stream::{Stream, StreamView};
use vstd::arithmetic::div_mod::{
    lemma_div_denominator,
    lemma_div_is_ordered,
    lemma_div_multiples_vanish,
    lemma_fundamental_div_mod_converse,
    lemma_multiply_divide_lt,
};
use vstd::arithmetic::mul::lemma_mul_inequality;

verus! {

/// The part of `amount` that has vested at `now`, for a window that opens at
/// `start` and closes at `end`: nothing up to `start`, everything from `end`
/// on, and in between the share of the elapsed time, rounded down.
pub open spec fn vested_amount(amount: nat, start: int, end: int, now: int) -> nat {
    if now <= start {
        0
    } else if now >= end {
        amount
    } else {
        (amount * (now - start) / (end - start)) as nat
    }
}

/// A share `amount * elapsed / total` of an amount lies between nothing and
/// the amount itself as long as `elapsed` does not exceed `total`.
pub proof fn lemma_share_bounded(amount: int, elapsed: int, total: int)
    requires
        0 <= amount,
        0 <= elapsed <= total,
        0 < total,
    ensures
        0 <= amount * elapsed / total <= amount,
{
    lemma_mul_inequality(elapsed, total, amount);
    lemma_div_is_ordered(amount * elapsed, amount * total, total);
    lemma_div_multiples_vanish(amount, total);
}

/// A share grows with the elapsed time.
pub proof fn lemma_share_monotonic(amount: int, earlier: int, later: int, total: int)
    requires
        0 <= amount,
        0 <= earlier <= later,
        0 < total,
    ensures
        amount * earlier / total <= amount * later / total,
{
    lemma_mul_inequality(earlier, later, amount);
    lemma_div_is_ordered(amount * earlier, amount * later, total);
}

/// Never more than the whole amount has vested.
pub proof fn lemma_vested_bounded(amount: nat, start: int, end: int, now: int)
    requires
        start < end,
    ensures
        vested_amount(amount, start, end, now) <= amount,
{
    if start < now < end {
        lemma_share_bounded(amount as int, now - start, end - start);
    }
}

/// What has vested never shrinks as time goes on.
pub proof fn lemma_vested_monotonic(amount: nat, start: int, end: int, earlier: int, later: int)
    requires
        start < end,
        earlier <= later,
    ensures
        vested_amount(amount, start, end, earlier) <= vested_amount(amount, start, end, later),
{
    lemma_vested_bounded(amount, start, end, earlier);
    if start < earlier && later < end {
        lemma_share_monotonic(amount as int, earlier - start, later - start, end - start);
    }
}

/// When the window opens, nothing has vested.
pub proof fn law_vested_at_start(amount: nat, start: int, end: int)
    requires
        start < end,
    ensures
        vested_amount(amount, start, end, start) == 0,
{
}

/// When the window closes, the whole amount has vested.
pub proof fn law_vested_at_end(amount: nat, start: int, end: int)
    requires
        start < end,
    ensures
        vested_amount(amount, start, end, end) == amount,
{
}

/// The amounts and durations for which half of the amount, rounded down, has
/// vested half-way through the window, the half of the duration rounded down
/// too: every amount if the duration is even; with an odd duration, which
/// has no second in its middle, only no amount at all and the odd amounts up
/// to the duration.
pub open spec fn halves_at_midpoint(amount: nat, duration: int) -> bool {
    duration % 2 == 0 || amount == 0 || (amount % 2 == 1 && amount <= duration)
}

/// Half-way through the window, half of the amount has vested, rounded down,
/// for the amounts and durations of `halves_at_midpoint`.
pub proof fn law_vested_at_midpoint(amount: nat, start: int, end: int)
    requires
        start < end,
        halves_at_midpoint(amount, end - start),
    ensures
        vested_amount(amount, start, end, start + (end - start) / 2) == amount / 2,
{
    let duration = end - start;
    let half = duration / 2;
    let a = amount as int;
    if half > 0 && duration % 2 == 0 {
        lemma_div_denominator(a * half, half, 2);
        lemma_div_multiples_vanish(a, half);
    } else if half > 0 && amount > 0 {
        let q = a / 2;
        assert(a * half == q * duration + (half - q)) by (nonlinear_arith)
            requires
                a == 2 * q + 1,
                duration == 2 * half + 1,
        ;
        lemma_fundamental_div_mod_converse(a * half, duration, q, half - q);
    }
}

/// For all other amounts and durations, less than half of the amount has
/// vested half-way through the window.
pub proof fn law_vested_short_of_half_at_midpoint(amount: nat, start: int, end: int)
    requires
        start < end,
        !halves_at_midpoint(amount, end - start),
    ensures
        vested_amount(amount, start, end, start + (end - start) / 2) < amount / 2,
{
    let duration = end - start;
    let half = duration / 2;
    let a = amount as int;
    let q = a / 2;
    if half > 0 {
        assert(a * half < duration * q) by (nonlinear_arith)
            requires
                duration == 2 * half + 1,
                a == 2 * q || (a == 2 * q + 1 && q > half),
                q >= 1,
                half >= 1,
        ;
        lemma_multiply_divide_lt(a * half, duration, q);
    }
}

/// Computes `vested_amount`. The product of the amount and the elapsed time
/// is formed in 128 bits, where it cannot overflow.
pub fn vested(amount: u64, start_time: i64, end_time: i64, now: i64) -> (r: u64)
    requires
        start_time < end_time,
    ensures
        r == vested_amount(amount as nat, start_time as int, end_time as int, now as int),
{
    if now <= start_time {
        0
    } else if now >= end_time {
        amount
    } else {
        let elapsed: u128 = (now as i128 - start_time as i128) as u128;
        let total: u128 = (end_time as i128 - start_time as i128) as u128;
        proof {
            lemma_share_bounded(amount as int, elapsed as int, total as int);
            assert(amount * elapsed <= 0xffff_ffff_ffff_ffff * 0xffff_ffff_ffff_ffff)
                by (nonlinear_arith)
                requires
                    0 <= amount <= 0xffff_ffff_ffff_ffff,
                    0 <= elapsed <= 0xffff_ffff_ffff_ffff,
            ;
        }
        let share: u128 = (amount as u128) * elapsed / total;
        share as u64
    }
}

/// What `withdrawable_now` answers: what has vested and is not yet paid, or
/// `ArithmeticUnderflow` where that would be negative.
pub open spec fn spec_withdrawable_now(record: StreamView, now: i64) -> Result<u64, ErrorCode> {
    if record.withdrawable(now as int) < 0 {
        Err(ErrorCode::ArithmeticUnderflow)
    } else {
        Ok(record.withdrawable(now as int) as u64)
    }
}

/// What the receiver of `record` can be paid at `now`: the vested funds less
/// those already withdrawn. More withdrawn than vested means that the record
/// and the clock disagree, and is refused.
pub fn withdrawable_now(record: &Stream, now: i64) -> (r: Result<u64, ErrorCode>)
    ensures
        r == spec_withdrawable_now(record@, now),
        r matches Ok(due) ==> due == record@.withdrawable(now as int) && record@.withdrawn_amount
            + due <= record@.amount,
{
    proof {
        use_type_invariant(record);
        lemma_vested_bounded(record@.amount, record@.start_time, record@.end_time, now as int);
    }
    let vested_now = vested(record.amount(), record.start_time(), record.end_time(), now);
    match vested_now.checked_sub(record.withdrawn_amount()) {
        None => Err(ErrorCode::ArithmeticUnderflow),
        Some(due) => Ok(due),
    }
}

} // verus!
