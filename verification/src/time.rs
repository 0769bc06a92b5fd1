//! Instants as seconds and nanoseconds since the Unix epoch.

use vstd::prelude::*;

verus! {

/// An instant in UTC: whole seconds since 1970-01-01T00:00:00Z and the
/// nanoseconds past them.
#[derive(Debug, Clone, Copy, PartialEq, Eq, Structural)]
pub struct UtcTime {
    pub secs: i64,
    pub nanos: u32,
}

impl UtcTime {
    /// The Unix epoch, the default instant.
    pub fn epoch() -> (t: UtcTime)
        ensures
            t.secs == 0 && t.nanos == 0,
    {
        UtcTime { secs: 0, nanos: 0 }
    }
}

/// `v` held to the range of `i64`.
pub open spec fn clamp_i64(v: int) -> int {
    if v > i64::MAX {
        i64::MAX as int
    } else if v < i64::MIN {
        i64::MIN as int
    } else {
        v
    }
}

/// When a token issued at `issued_at` (seconds since the epoch) and valid
/// for `hours` expires: `hours` times 3600 seconds later, held to the range
/// of `i64`.
pub fn token_expiry(issued_at: i64, hours: i64) -> (exp: i64)
    ensures
        exp == clamp_i64(issued_at + hours * 3600),
{
    let wide: i128 = issued_at as i128 + (hours as i128) * 3600;
    if wide > i64::MAX as i128 {
        i64::MAX
    } else if wide < i64::MIN as i128 {
        i64::MIN
    } else {
        wide as i64
    }
}

} // verus!
