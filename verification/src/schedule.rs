//! When refreshes run: the random spread added to each wait.
use vstd::prelude::*;
use rand::Rng;

verus! {

/// Calls `rand::thread_rng().gen_range(low..high)`. It panics on an empty
/// range, which `requires` leaves out; the value is random, so only that it
/// lies in the range is stated.
#[verifier::external_body]
fn random_in(low: u32, high: u32) -> (r: u32)
    requires
        low < high,
    ensures
        low <= r < high,
{
    rand::thread_rng().gen_range(low..high)
}

/// The largest number of whole seconds that a `chrono::Duration` holds.
pub open spec fn max_duration_seconds() -> int {
    i64::MAX / 1000
}

/// A base wait of `base_seconds` lengthened by `minutes` minutes.
pub fn fuzzed(base_seconds: i64, minutes: u32) -> (r: i64)
    requires
        -max_duration_seconds() <= base_seconds,
        base_seconds + minutes * 60 <= max_duration_seconds(),
    ensures
        r == base_seconds + minutes * 60,
{
    base_seconds + minutes as i64 * 60
}

/// A base wait lengthened by a random whole number of minutes drawn from
/// `start..end`.
pub fn fuzz(base_seconds: i64, start: u32, end: u32) -> (r: i64)
    requires
        start < end,
        -max_duration_seconds() <= base_seconds,
        base_seconds + end * 60 <= max_duration_seconds(),
    ensures
        base_seconds + start * 60 <= r < base_seconds + end * 60,
        (r - base_seconds) % 60 == 0,
{
    let minutes = random_in(start, end);
    let r = fuzzed(base_seconds, minutes);
    assert((minutes * 60) % 60 == 0) by (nonlinear_arith);
    r
}

/// A random whole number of seconds below `limit`.
pub fn random_spread(limit: u32) -> (r: u32)
    requires
        0 < limit,
    ensures
        r < limit,
{
    random_in(0, limit)
}

/// A wait of five minutes lengthened by `spread` seconds.
pub fn jitter(spread: u32) -> (r: u64)
    ensures
        r == spread + 300,
{
    spread as u64 + 300
}

/// A random spread of five to fifteen minutes, in seconds.
pub fn jitter_seconds() -> (r: u64)
    ensures
        300 <= r < 900,
{
    let spread = random_spread(600);
    jitter(spread)
}

/// How long to sleep until the next scheduled run: the time left until it,
/// or an hour when it is already past.
pub fn sleep_seconds(next_run: i64, now: i64) -> (r: u64)
    ensures
        r == if next_run >= now { next_run - now } else { 3600 },
{
    if next_run >= now {
        let left: i128 = next_run as i128 - now as i128;
        left as u64
    } else {
        3600
    }
}

} // verus!
