use vstd::prelude::*;

verus! {

/// A point in time: whole seconds since the UNIX epoch and the nanoseconds
/// past that second.
#[derive(Debug, Clone, Copy, PartialEq, Eq, Structural)]
pub struct Timestamp {
    pub secs: i64,
    pub nanos: u32,
}

/// `a` lies strictly before `b`.
pub open spec fn spec_before(a: Timestamp, b: Timestamp) -> bool {
    a.secs < b.secs || (a.secs == b.secs && a.nanos < b.nanos)
}

/// Decides whether `a` lies strictly before `b`.
pub fn is_before(a: Timestamp, b: Timestamp) -> (res: bool)
    ensures
        res == spec_before(a, b),
{
    a.secs < b.secs || (a.secs == b.secs && a.nanos < b.nanos)
}

/// A value the system clock can give: a second since the UNIX epoch that
/// chrono represents, and the nanoseconds past it.
pub open spec fn spec_clock_reading(t: Timestamp) -> bool {
    0 <= t.secs <= crate::outside::UTC_MAX_TIMESTAMP && t.nanos < 1_000_000_000
}

/// The current time, as the system clock gives it: a second since the UNIX
/// epoch that chrono represents, and the nanoseconds past it.
pub fn now() -> (res: Timestamp)
    ensures
        0 <= res.secs <= crate::outside::UTC_MAX_TIMESTAMP,
        res.nanos < 1_000_000_000,
        spec_clock_reading(res),
{
    crate::outside::utc_now()
}

} // verus!
