//! The early-withdrawal penalty fee.
//!
//! The fee decays linearly with the completed share of the lock period,
//! measured in whole days: with `e` elapsed days out of `d` duration days,
//! the fee is `rate * (1 - e/d) * basis`, rounded down once at the end, where
//! the base rate is the rational `rate_num / rate_den`.  A matured lock
//! (`e >= d`) and a zero-length lock (`d == 0`) carry no fee.  The fraction
//! is never truncated on its own: the whole product is divided in one step,
//! so partial completion never collapses to all-or-nothing.

use vstd::prelude::*;

use crate::error::VaultError;

verus! {

/// Seconds in one day.
pub const SECONDS_PER_DAY: u64 = 86400;

/// Whole days elapsed since the deposit.
pub open spec fn spec_elapsed_days(now: u64, deposit_timestamp: u64) -> int
    recommends
        deposit_timestamp <= now,
{
    (now - deposit_timestamp) / (SECONDS_PER_DAY as int)
}

/// Whole days in the lock duration.
pub open spec fn spec_duration_days(lock_duration: u64) -> int {
    (lock_duration as int) / (SECONDS_PER_DAY as int)
}

/// The early-exit fee, as unbounded integer arithmetic: zero once the lock
/// has matured (or never ran), otherwise the linearly decayed share of the
/// fee basis, rounded down.
pub open spec fn spec_early_exit_fee(
    now: u64,
    deposit_timestamp: u64,
    lock_duration: u64,
    rate_num: u64,
    rate_den: u64,
    basis: u64,
) -> int
    recommends
        deposit_timestamp <= now,
        rate_den > 0,
{
    let e = spec_elapsed_days(now, deposit_timestamp);
    let d = spec_duration_days(lock_duration);
    if e >= d {
        0
    } else {
        (rate_num * (d - e) * basis) / (rate_den * d)
    }
}

/// Whether the fee computation stays within machine bounds: the undivided
/// product must fit in a `u128` and the resulting fee in a `u64`.
pub open spec fn spec_fee_fits(
    now: u64,
    deposit_timestamp: u64,
    lock_duration: u64,
    rate_num: u64,
    rate_den: u64,
    basis: u64,
) -> bool
    recommends
        deposit_timestamp <= now,
        rate_den > 0,
{
    let e = spec_elapsed_days(now, deposit_timestamp);
    let d = spec_duration_days(lock_duration);
    e >= d || {
        &&& rate_num * (d - e) * basis <= u128::MAX
        &&& spec_early_exit_fee(now, deposit_timestamp, lock_duration, rate_num, rate_den, basis)
            <= u64::MAX
    }
}

/// Computes the early-exit fee owed at `now` for a deposit made at
/// `deposit_timestamp` under a lock of `lock_duration` seconds, with the base
/// rate `rate_num / rate_den` applied to `basis` units of the settlement
/// asset.
pub fn early_exit_fee(
    now: u64,
    deposit_timestamp: u64,
    lock_duration: u64,
    rate_num: u64,
    rate_den: u64,
    basis: u64,
) -> (r: Result<u64, VaultError>)
    requires
        deposit_timestamp <= now,
        rate_den > 0,
    ensures
        r matches Ok(fee) ==> fee == spec_early_exit_fee(
            now,
            deposit_timestamp,
            lock_duration,
            rate_num,
            rate_den,
            basis,
        ),
        r is Ok <==> spec_fee_fits(now, deposit_timestamp, lock_duration, rate_num, rate_den, basis),
        r matches Err(e) ==> e == VaultError::ArithmeticOverflow,
{
    let elapsed_days: u64 = (now - deposit_timestamp) / SECONDS_PER_DAY;
    let duration_days: u64 = lock_duration / SECONDS_PER_DAY;
    if elapsed_days >= duration_days {
        return Ok(0);
    }
    let remaining: u64 = duration_days - elapsed_days;
    proof {
        assert(duration_days <= 0xffff_ffff_ffff_ffffu64 / 86400) by {
            vstd::arithmetic::div_mod::lemma_div_is_ordered(
                lock_duration as int,
                u64::MAX as int,
                SECONDS_PER_DAY as int,
            );
        }
        assert((remaining as int) * (basis as int) <= u128::MAX) by {
            vstd::arithmetic::mul::lemma_mul_upper_bound(
                remaining as int,
                0xffff_ffff_ffff_ffffi128 / 86400,
                basis as int,
                u64::MAX as int,
            );
        }
    }
    let scaled: u128 = (remaining as u128) * (basis as u128);
    let rn: u128 = rate_num as u128;
    if rn != 0 && scaled > u128::MAX / rn {
        proof {
            lemma_mul_exceeds(scaled as int, rn as int, u128::MAX as int);
            assert((rate_num * (duration_days - elapsed_days) * basis) == scaled * rn) by {
                vstd::arithmetic::mul::lemma_mul_is_associative(
                    rate_num as int,
                    remaining as int,
                    basis as int,
                );
                vstd::arithmetic::mul::lemma_mul_is_commutative(
                    rate_num as int,
                    (remaining as int) * (basis as int),
                );
            }
        }
        return Err(VaultError::ArithmeticOverflow);
    }
    proof {
        if rn != 0 {
            lemma_mul_within(scaled as int, rn as int, u128::MAX as int);
        }
        assert((rate_num * (duration_days - elapsed_days) * basis) == scaled * rn) by {
            vstd::arithmetic::mul::lemma_mul_is_associative(
                rate_num as int,
                remaining as int,
                basis as int,
            );
            vstd::arithmetic::mul::lemma_mul_is_commutative(
                rate_num as int,
                (remaining as int) * (basis as int),
            );
        }
    }
    let numerator: u128 = scaled * rn;
    proof {
        assert((rate_den as int) * (duration_days as int) <= u128::MAX) by {
            vstd::arithmetic::mul::lemma_mul_upper_bound(
                rate_den as int,
                u64::MAX as int,
                duration_days as int,
                0xffff_ffff_ffff_ffffi128 / 86400,
            );
        }
        assert((rate_den as int) * (duration_days as int) > 0) by {
            vstd::arithmetic::mul::lemma_mul_strictly_positive(
                rate_den as int,
                duration_days as int,
            );
        }
    }
    let denominator: u128 = (rate_den as u128) * (duration_days as u128);
    let fee: u128 = numerator / denominator;
    if fee > u64::MAX as u128 {
        return Err(VaultError::ArithmeticOverflow);
    }
    Ok(fee as u64)
}

/// If `a > max / b` for positive `b`, then `a * b` exceeds `max`.
proof fn lemma_mul_exceeds(a: int, b: int, max: int)
    requires
        0 <= a,
        0 < b,
        0 <= max,
        a > max / b,
    ensures
        a * b > max,
{
    vstd::arithmetic::div_mod::lemma_fundamental_div_mod(max, b);
    vstd::arithmetic::div_mod::lemma_remainder_upper(max, b);
    assert(a >= max / b + 1);
    assert((max / b + 1) * b == (max / b) * b + b) by {
        vstd::arithmetic::mul::lemma_mul_is_distributive_add_other_way(
            b,
            max / b,
            1,
        );
    }
    assert(a * b >= (max / b + 1) * b) by {
        vstd::arithmetic::mul::lemma_mul_inequality(max / b + 1, a, b);
    }
}

/// If `a <= max / b` for positive `b`, then `a * b` stays within `max`.
proof fn lemma_mul_within(a: int, b: int, max: int)
    requires
        0 <= a,
        0 < b,
        0 <= max,
        a <= max / b,
    ensures
        a * b <= max,
{
    vstd::arithmetic::div_mod::lemma_fundamental_div_mod(max, b);
    vstd::arithmetic::div_mod::lemma_remainder_lower(max, b);
    assert(a * b <= (max / b) * b) by {
        vstd::arithmetic::mul::lemma_mul_inequality(a, max / b, b);
    }
}

/// The fee is never negative.
pub proof fn lemma_fee_nonnegative(
    now: u64,
    deposit_timestamp: u64,
    lock_duration: u64,
    rate_num: u64,
    rate_den: u64,
    basis: u64,
)
    requires
        deposit_timestamp <= now,
        rate_den > 0,
    ensures
        spec_early_exit_fee(now, deposit_timestamp, lock_duration, rate_num, rate_den, basis) >= 0,
{
    let e = spec_elapsed_days(now, deposit_timestamp);
    let d = spec_duration_days(lock_duration);
    if e < d {
        assert(e >= 0) by {
            vstd::arithmetic::div_mod::lemma_div_pos_is_pos(
                now - deposit_timestamp,
                SECONDS_PER_DAY as int,
            );
        }
        assert(rate_num * (d - e) * basis >= 0) by {
            vstd::arithmetic::mul::lemma_mul_nonnegative(rate_num as int, d - e);
            vstd::arithmetic::mul::lemma_mul_nonnegative(rate_num * (d - e), basis as int);
        }
        assert(rate_den * d > 0) by {
            vstd::arithmetic::mul::lemma_mul_strictly_positive(rate_den as int, d);
        }
        vstd::arithmetic::div_mod::lemma_div_pos_is_pos(
            rate_num * (d - e) * basis,
            rate_den * d,
        );
    }
}

/// The fee is monotonically non-increasing in time: waiting longer never
/// raises the penalty, for a fixed deposit, duration, rate and basis.
pub proof fn lemma_fee_monotonic(
    now1: u64,
    now2: u64,
    deposit_timestamp: u64,
    lock_duration: u64,
    rate_num: u64,
    rate_den: u64,
    basis: u64,
)
    requires
        deposit_timestamp <= now1 <= now2,
        rate_den > 0,
    ensures
        spec_early_exit_fee(now2, deposit_timestamp, lock_duration, rate_num, rate_den, basis)
            <= spec_early_exit_fee(
            now1,
            deposit_timestamp,
            lock_duration,
            rate_num,
            rate_den,
            basis,
        ),
{
    let e1 = spec_elapsed_days(now1, deposit_timestamp);
    let e2 = spec_elapsed_days(now2, deposit_timestamp);
    let d = spec_duration_days(lock_duration);
    assert(e1 <= e2) by {
        vstd::arithmetic::div_mod::lemma_div_is_ordered(
            now1 - deposit_timestamp,
            now2 - deposit_timestamp,
            SECONDS_PER_DAY as int,
        );
    }
    if e2 >= d {
        lemma_fee_nonnegative(now1, deposit_timestamp, lock_duration, rate_num, rate_den, basis);
    } else {
        assert(rate_num * (d - e2) * basis <= rate_num * (d - e1) * basis) by {
            vstd::arithmetic::mul::lemma_mul_inequality(d - e2, d - e1, rate_num as int);
            vstd::arithmetic::mul::lemma_mul_is_commutative(rate_num as int, d - e2);
            vstd::arithmetic::mul::lemma_mul_is_commutative(rate_num as int, d - e1);
            vstd::arithmetic::mul::lemma_mul_inequality(
                rate_num * (d - e2),
                rate_num * (d - e1),
                basis as int,
            );
        }
        assert(rate_den * d > 0) by {
            vstd::arithmetic::mul::lemma_mul_strictly_positive(rate_den as int, d);
        }
        vstd::arithmetic::div_mod::lemma_div_is_ordered(
            rate_num * (d - e2) * basis,
            rate_num * (d - e1) * basis,
            rate_den * d,
        );
    }
}

/// A lock shorter than one day carries no fee, however little time has
/// elapsed: in particular a zero-length lock never divides by zero and never
/// charges a penalty.
pub proof fn lemma_short_lock_no_fee(
    now: u64,
    deposit_timestamp: u64,
    lock_duration: u64,
    rate_num: u64,
    rate_den: u64,
    basis: u64,
)
    requires
        deposit_timestamp <= now,
        rate_den > 0,
        lock_duration < SECONDS_PER_DAY,
    ensures
        spec_early_exit_fee(now, deposit_timestamp, lock_duration, rate_num, rate_den, basis) == 0,
{
    assert(spec_duration_days(lock_duration) == 0) by {
        vstd::arithmetic::div_mod::lemma_basic_div(
            lock_duration as int,
            SECONDS_PER_DAY as int,
        );
    }
    assert(spec_elapsed_days(now, deposit_timestamp) >= 0) by {
        vstd::arithmetic::div_mod::lemma_div_pos_is_pos(
            now - deposit_timestamp,
            SECONDS_PER_DAY as int,
        );
    }
}

/// Once the lock has matured, the fee is zero.
pub proof fn lemma_matured_no_fee(
    now: u64,
    deposit_timestamp: u64,
    lock_duration: u64,
    rate_num: u64,
    rate_den: u64,
    basis: u64,
)
    requires
        deposit_timestamp <= now,
        rate_den > 0,
        now - deposit_timestamp >= lock_duration,
    ensures
        spec_early_exit_fee(now, deposit_timestamp, lock_duration, rate_num, rate_den, basis) == 0,
{
    vstd::arithmetic::div_mod::lemma_div_is_ordered(
        lock_duration as int,
        now - deposit_timestamp,
        SECONDS_PER_DAY as int,
    );
}

} // verus!
