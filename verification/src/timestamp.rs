//! Host and block times, and the spans between them.

use vstd::prelude::*;

verus! {

/// A point in time: nanoseconds since the Unix epoch (UTC).
/// Zero stands for "no time set".
#[derive(Clone, Copy, Debug, PartialEq, Eq, Structural, Hash)]
pub struct Timestamp {
    pub nanos: u64,
}

/// A span of time in nanoseconds.
#[derive(Clone, Copy, Debug, PartialEq, Eq, Structural, Hash)]
pub struct Duration {
    pub nanos: u64,
}

/// The nanoseconds that whole seconds and a rest of nanoseconds make up,
/// where neither is negative, the rest is less than a second, and the sum
/// fits 64 bits.
pub open spec fn nanos_of_parts(seconds: i64, nanos: i32) -> Option<u64> {
    if seconds >= 0 && 0 <= nanos < 1_000_000_000 && seconds * 1_000_000_000 + nanos
        <= u64::MAX {
        Some((seconds * 1_000_000_000 + nanos) as u64)
    } else {
        None
    }
}

/// Computes the nanoseconds that seconds and nanoseconds make up.
pub fn nanos_from_parts(seconds: i64, nanos: i32) -> (r: Option<u64>)
    ensures
        r == nanos_of_parts(seconds, nanos),
{
    if seconds < 0 || nanos < 0 || nanos >= 1_000_000_000 {
        return None;
    }
    let whole = seconds as u64;
    let rest = nanos as u64;
    if whole > (u64::MAX - rest) / 1_000_000_000 {
        return None;
    }
    Some(whole * 1_000_000_000 + rest)
}

/// The whole seconds and the rest of nanoseconds that nanoseconds make up.
pub fn parts_of_nanos(nanos: u64) -> (r: (i64, i32))
    ensures
        nanos_of_parts(r.0, r.1) == Some(nanos),
{
    ((nanos / 1_000_000_000) as i64, (nanos % 1_000_000_000) as i32)
}

impl Duration {
    /// The span that a wire form of seconds and nanoseconds stands for.
    pub fn from_parts(seconds: i64, nanos: i32) -> (r: Option<Duration>)
        ensures
            r == (match nanos_of_parts(seconds, nanos) {
                Some(n) => Some((Duration { nanos: n })),
                None => None,
            }),
    {
        match nanos_from_parts(seconds, nanos) {
            Some(n) => Some(Duration { nanos: n }),
            None => None,
        }
    }

    pub fn from_nanos(nanos: u64) -> (r: Duration)
        ensures
            r.nanos == nanos,
    {
        Duration { nanos }
    }

    /// A span of whole seconds; saturates at the largest span.
    pub fn from_secs(secs: u64) -> (r: Duration)
        ensures
            r.nanos as int == (if secs * 1_000_000_000 <= u64::MAX {
                secs * 1_000_000_000
            } else {
                u64::MAX as int
            }),
    {
        if secs <= u64::MAX / 1_000_000_000 {
            Duration { nanos: secs * 1_000_000_000 }
        } else {
            Duration { nanos: u64::MAX }
        }
    }

    pub fn as_nanos(&self) -> (r: u64)
        ensures
            r == self.nanos,
    {
        self.nanos
    }
}

impl Timestamp {
    /// The time that a wire form of seconds and nanoseconds since the Unix
    /// epoch stands for.
    pub fn from_parts(seconds: i64, nanos: i32) -> (r: Option<Timestamp>)
        ensures
            r == (match nanos_of_parts(seconds, nanos) {
                Some(n) => Some((Timestamp { nanos: n })),
                None => None,
            }),
    {
        match nanos_from_parts(seconds, nanos) {
            Some(n) => Some(Timestamp { nanos: n }),
            None => None,
        }
    }

    pub fn from_nanoseconds(nanos: u64) -> (r: Timestamp)
        ensures
            r.nanos == nanos,
    {
        Timestamp { nanos }
    }

    pub fn nanoseconds(&self) -> (r: u64)
        ensures
            r == self.nanos,
    {
        self.nanos
    }

    /// Whether a time is set.
    pub fn is_set(&self) -> (r: bool)
        ensures
            r == (self.nanos != 0),
    {
        self.nanos != 0
    }

    /// The span from `earlier` to `self`, if `earlier` is not after `self`.
    pub fn duration_since(&self, earlier: &Timestamp) -> (r: Option<Duration>)
        ensures
            self.nanos >= earlier.nanos ==> r == Some(
                (Duration { nanos: (self.nanos - earlier.nanos) as u64 }),
            ),
            self.nanos < earlier.nanos ==> r.is_none(),
    {
        if self.nanos >= earlier.nanos {
            Some(Duration { nanos: self.nanos - earlier.nanos })
        } else {
            None
        }
    }

    /// Whether `self + span` lies strictly after `other`, computed without
    /// overflow.
    pub fn plus_is_after(&self, span: Duration, other: &Timestamp) -> (r: bool)
        ensures
            r == (self.nanos + span.nanos > other.nanos),
    {
        match self.nanos.checked_add(span.nanos) {
            Some(sum) => sum > other.nanos,
            None => true,
        }
    }
}

} // verus!
