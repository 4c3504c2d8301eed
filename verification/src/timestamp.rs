//! The protocol-owned neutral timestamp representation.
//!
//! Wire timestamps (signed seconds plus a nanosecond remainder) and the
//! internal block-time representation have independently maintained range
//! semantics. All conversions are routed explicitly through this one type,
//! whose ranges are stated here, so that the protocol's timestamp semantics
//! do not depend on either representation's own conversions.

use vstd::prelude::*;

use crate::error::TimestampError;

verus! {

/// Earliest representable block time, 0001-01-01T00:00:00Z, as Unix seconds.
pub const MIN_UNIX_SECONDS: i64 = -62135596800;

/// Latest representable block time, 9999-12-31T23:59:59Z, as Unix seconds.
pub const MAX_UNIX_SECONDS: i64 = 253402300799;

/// Nanosecond remainders lie in `[0, NANOS_PER_SECOND)`.
pub const NANOS_PER_SECOND: i32 = 1000000000;

/// A point in UTC time with nanosecond resolution: Unix seconds plus a
/// non-negative nanosecond remainder counting forward in time.
#[derive(Clone, Copy, Debug, PartialEq, Eq, Structural)]
pub struct Timestamp {
    pub seconds: i64,
    pub nanos: i32,
}

impl Timestamp {
    /// The timestamp lies in the representable range of a block time:
    /// nanos in `[0, 1e9)` and seconds between year 1 and year 9999.
    pub open spec fn is_valid(self) -> bool {
        &&& 0 <= self.nanos < NANOS_PER_SECOND
        &&& MIN_UNIX_SECONDS <= self.seconds <= MAX_UNIX_SECONDS
    }

    /// Validating conversion from a wire (seconds, nanos) pair. Returns the
    /// timestamp exactly when the pair is in range, and says which bound
    /// failed otherwise; the nanosecond range is checked first.
    pub fn from_unix(seconds: i64, nanos: i32) -> (r: Result<Timestamp, TimestampError>)
        ensures
            (0 <= nanos < NANOS_PER_SECOND && MIN_UNIX_SECONDS <= seconds <= MAX_UNIX_SECONDS)
                ==> r == Ok::<Timestamp, TimestampError>(Timestamp { seconds, nanos }),
            !(0 <= nanos < NANOS_PER_SECOND) ==> r == Err::<Timestamp, TimestampError>(
                TimestampError::NanosOutOfRange,
            ),
            (0 <= nanos < NANOS_PER_SECOND && !(MIN_UNIX_SECONDS <= seconds
                <= MAX_UNIX_SECONDS)) ==> r == Err::<Timestamp, TimestampError>(
                TimestampError::SecondsOutOfRange,
            ),
            r matches Ok(t) ==> t.is_valid(),
    {
        if nanos < 0 || nanos >= NANOS_PER_SECOND {
            Err(TimestampError::NanosOutOfRange)
        } else if seconds < MIN_UNIX_SECONDS || seconds > MAX_UNIX_SECONDS {
            Err(TimestampError::SecondsOutOfRange)
        } else {
            Ok(Timestamp { seconds, nanos })
        }
    }
}

} // verus!
