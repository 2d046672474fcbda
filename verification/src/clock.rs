//! Wall-clock time. Instants are nanoseconds since the Unix epoch, the
//! precision `chrono::DateTime<Utc>` keeps; some records keep milliseconds.

use vstd::prelude::*;

verus! {

/// Calls `chrono::Utc::now` and reads its `timestamp_millis`. The value
/// depends on the clock; `Utc::now` panics on a clock before the Unix epoch
/// (its source reads `SystemTime::duration_since(UNIX_EPOCH)`), so what it
/// returns is not negative.
#[verifier::external_body]
pub(crate) fn now_millis() -> (r: i64)
    ensures
        r >= 0,
{
    chrono::Utc::now().timestamp_millis()
}

/// Calls `chrono::Utc::now` and reads its whole seconds (`timestamp`) and the
/// nanoseconds past them (`timestamp_subsec_nanos`). The values depend on
/// the clock; `Utc::now` builds them from the `Duration` since the Unix epoch
/// (panicking on an earlier clock), so the seconds are not negative and the
/// nanoseconds are below one second.
#[verifier::external_body]
fn now_parts() -> (r: (i64, u32))
    ensures
        r.0 >= 0,
        r.1 < 1_000_000_000,
{
    let now = chrono::Utc::now();
    (now.timestamp(), now.timestamp_subsec_nanos())
}

/// The instant `secs` seconds and `subsec_nanos` nanoseconds after the Unix
/// epoch, in nanoseconds.
pub open spec fn instant_of(secs: i64, subsec_nanos: u32) -> int {
    secs * 1_000_000_000 + subsec_nanos
}

/// An instant in nanoseconds, from its whole seconds since the Unix epoch and
/// the nanoseconds past them (as `DateTime::timestamp` and
/// `DateTime::timestamp_subsec_nanos` give them).
pub fn instant_ns(secs: i64, subsec_nanos: u32) -> (r: i128)
    ensures
        r == instant_of(secs, subsec_nanos),
{
    assert(-0x8000_0000_0000_0000 * 1_000_000_000 <= secs * 1_000_000_000 <= 0x7fff_ffff_ffff_ffff
        * 1_000_000_000) by (nonlinear_arith)
        requires
            -0x8000_0000_0000_0000 <= secs <= 0x7fff_ffff_ffff_ffff,
    ;
    (secs as i128) * 1_000_000_000 + (subsec_nanos as i128)
}

/// The current instant, in nanoseconds since the Unix epoch.
pub(crate) fn now_nanos() -> (r: i128)
    ensures
        r >= 0,
{
    let (secs, nanos) = now_parts();
    instant_ns(secs, nanos)
}

} // verus!
