//! Timeouts in whole milliseconds, as the completion port's wait takes them.
use vstd::prelude::*;

verus! {

pub const NANOS_PER_SEC: u64 = 1_000_000_000;

pub const NANOS_PER_MILLI: u64 = 1_000_000;

/// The wait that means "forever".
pub const INFINITE: u32 = 0xffff_ffff;

/// The milliseconds of a duration of `secs` seconds and `nanos` nanoseconds,
/// rounded up; when adding the rounding would overflow the duration, the
/// duration is truncated instead. Saturates at `INFINITE`.
pub open spec fn millis_rounded_up(secs: u64, nanos: u32) -> int {
    let total: int = secs as int * 1_000_000_000 + nanos as int;
    let overflows = secs == u64::MAX && nanos as int + 999_999 >= 1_000_000_000;
    let ms: int = if overflows {
        total / 1_000_000
    } else {
        (total + 999_999) / 1_000_000
    };
    if ms > INFINITE {
        INFINITE as int
    } else {
        ms
    }
}

/// What `std::time::Duration::as_secs` answers: the whole seconds of a
/// duration.
pub uninterp spec fn duration_secs_of(d: std::time::Duration) -> u64;

/// What `std::time::Duration::subsec_nanos` answers: the nanoseconds of a
/// duration below its whole seconds.
pub uninterp spec fn duration_subsec_nanos_of(d: std::time::Duration) -> u32;

/// `std::time::Duration::as_secs`: the whole seconds of the duration.
#[verifier::external_body]
fn duration_as_secs(d: &std::time::Duration) -> (s: u64)
    ensures
        s == duration_secs_of(*d),
{
    d.as_secs()
}

/// `std::time::Duration::subsec_nanos`: the fractional part of the duration
/// in nanoseconds, which the documentation says is always below one
/// billion.
#[verifier::external_body]
fn duration_subsec_nanos(d: &std::time::Duration) -> (n: u32)
    ensures
        n == duration_subsec_nanos_of(*d),
        n < NANOS_PER_SEC,
{
    d.subsec_nanos()
}

/// The milliseconds of a duration given as whole seconds and the
/// nanoseconds below a second, rounded up so that a sub-millisecond wait
/// does not become a zero wait, and saturated at `INFINITE`.
pub fn millis_of_parts(secs: u64, nanos: u32) -> (ms: u32)
    requires
        nanos < NANOS_PER_SEC,
    ensures
        ms == millis_rounded_up(secs, nanos),
{
    proof {
        assert(secs as int * 1_000_000_000 <= 18_446_744_073_709_551_615 * 1_000_000_000)
            by (nonlinear_arith)
            requires
                secs <= 18_446_744_073_709_551_615u64,
        ;
    }
    let total: u128 = secs as u128 * 1_000_000_000u128 + nanos as u128;
    let overflows = secs == u64::MAX && nanos as u64 + (NANOS_PER_MILLI - 1) >= NANOS_PER_SEC;
    let ms: u128 = if overflows {
        total / NANOS_PER_MILLI as u128
    } else {
        (total + (NANOS_PER_MILLI as u128 - 1)) / NANOS_PER_MILLI as u128
    };
    if ms > INFINITE as u128 {
        INFINITE
    } else {
        ms as u32
    }
}

/// The milliseconds to wait for: forever (`INFINITE`) without a timeout,
/// otherwise the timeout rounded up to whole milliseconds and saturated at
/// `INFINITE`.
pub fn duration_millis(dur: Option<std::time::Duration>) -> (ms: u32)
    ensures
        dur is None ==> ms == INFINITE,
        dur matches Some(d) ==> ms == millis_rounded_up(
            duration_secs_of(d),
            duration_subsec_nanos_of(d),
        ),
{
    match dur {
        Some(d) => {
            let secs = duration_as_secs(&d);
            let nanos = duration_subsec_nanos(&d);
            millis_of_parts(secs, nanos)
        },
        None => INFINITE,
    }
}

/// A zero timeout stays zero, any positive timeout waits at least a
/// millisecond, and a whole number of milliseconds is kept exactly.
pub proof fn lemma_rounding(secs: u64, nanos: u32)
    requires
        nanos < NANOS_PER_SEC,
    ensures
        secs == 0 && nanos == 0 ==> millis_rounded_up(secs, nanos) == 0,
        secs > 0 || nanos > 0 ==> millis_rounded_up(secs, nanos) >= 1,
        nanos as int % 1_000_000 == 0 && secs < 4_294_967 ==> millis_rounded_up(secs, nanos)
            == secs * 1000 + nanos as int / 1_000_000,
{
    let total: int = secs as int * 1_000_000_000 + nanos as int;
    assert(secs as int * 1_000_000_000 >= 0) by (nonlinear_arith);
    if secs > 0 || nanos > 0 {
        assert(total >= 1) by (nonlinear_arith)
            requires
                total == secs as int * 1_000_000_000 + nanos as int,
                secs > 0 || nanos > 0,
        ;
    }
    if nanos as int % 1_000_000 == 0 && secs < 4_294_967 {
        let k: int = nanos as int / 1_000_000;
        assert(nanos == k * 1_000_000);
        assert(total == (secs * 1000 + k) * 1_000_000) by (nonlinear_arith)
            requires
                total == secs as int * 1_000_000_000 + nanos as int,
                nanos == k * 1_000_000,
        ;
        assert((total + 999_999) / 1_000_000 == secs * 1000 + k) by (nonlinear_arith)
            requires
                total == (secs * 1000 + k) * 1_000_000,
                k >= 0,
                secs >= 0,
        ;
        assert(secs * 1000 + k <= 4_294_967_295) by (nonlinear_arith)
            requires
                secs < 4_294_967,
                k < 1000,
        ;
    }
}

/// Rounded-up milliseconds grow with the duration, and never exceed the
/// wait forever (`INFINITE`) that no timeout gives.
pub proof fn lemma_rounding_monotone(secs1: u64, nanos1: u32, secs2: u64, nanos2: u32)
    requires
        nanos1 < NANOS_PER_SEC,
        nanos2 < NANOS_PER_SEC,
        secs1 * 1_000_000_000 + nanos1 <= secs2 * 1_000_000_000 + nanos2,
    ensures
        millis_rounded_up(secs1, nanos1) <= millis_rounded_up(secs2, nanos2),
        millis_rounded_up(secs2, nanos2) <= INFINITE,
{
    let t1: int = secs1 as int * 1_000_000_000 + nanos1 as int;
    let t2: int = secs2 as int * 1_000_000_000 + nanos2 as int;
    assert(secs1 as int * 1_000_000_000 >= 0) by (nonlinear_arith);
    if secs2 == u64::MAX {
        assert(t2 >= 18_446_744_073_709_551_615int * 1_000_000_000);
        vstd::arithmetic::div_mod::lemma_div_is_ordered(
            18_446_744_073_709_551_615int * 1_000_000_000,
            t2,
            1_000_000,
        );
        vstd::arithmetic::div_mod::lemma_div_is_ordered(t2, t2 + 999_999, 1_000_000);
        let k: int = 18_446_744_073_709_551_615int * 1000;
        assert(1_000_000 * k == 18_446_744_073_709_551_615int * 1_000_000_000);
        vstd::arithmetic::div_mod::lemma_div_multiples_vanish(k, 1_000_000);
    } else {
        assert(secs1 <= secs2) by (nonlinear_arith)
            requires
                secs1 * 1_000_000_000 + nanos1 <= secs2 * 1_000_000_000 + nanos2,
                nanos1 >= 0,
                nanos2 < 1_000_000_000,
        ;
        vstd::arithmetic::div_mod::lemma_div_is_ordered(t1 + 999_999, t2 + 999_999, 1_000_000);
    }
}

} // verus!
