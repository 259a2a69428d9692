//! Monotonic time: instants, durations and optional expirations.
//!
//! Handlers never block; every timeout is expressed as a comparison
//! against a caller-supplied instant.  Sums saturate at the top of the
//! millisecond range instead of wrapping, so a timer arithmetic overflow
//! can only push an expiration further out, never backwards.

use vstd::prelude::*;

verus! {

/// A point on the monotonic clock, in milliseconds.
#[derive(Clone, Copy, Debug, Hash, PartialEq, Eq, Structural)]
pub struct Instant {
    pub millis: u64,
}

/// A span of time, in milliseconds.
#[derive(Clone, Copy, Debug, Hash, PartialEq, Eq, Structural)]
pub struct Duration {
    pub millis: u64,
}

/// Either a concrete deadline or no deadline at all.
///
/// `Never` behaves as plus infinity: it is later than every instant.
#[derive(Clone, Copy, Debug, Hash, PartialEq, Eq, Structural)]
pub enum Expiration {
    /// No deadline pending.
    Never,
    /// A deadline at the given instant.
    When(Instant),
}

impl Instant {
    /// The instant `millis` milliseconds after the clock origin.
    pub fn from_millis(millis: u64) -> (r: Instant)
        ensures
            r.millis == millis,
    {
        Instant { millis }
    }

    /// The instant `secs` seconds after the clock origin.
    pub fn from_secs(secs: u64) -> (r: Instant)
        requires
            secs * 1000 <= u64::MAX,
        ensures
            r.millis == secs * 1000,
    {
        Instant { millis: secs * 1000 }
    }

    /// Strictly earlier than `other`.
    pub fn before(self, other: Instant) -> (r: bool)
        ensures
            r == (self.millis < other.millis),
    {
        self.millis < other.millis
    }

    /// At or earlier than `other`.
    pub fn at_or_before(self, other: Instant) -> (r: bool)
        ensures
            r == (self.millis <= other.millis),
    {
        self.millis <= other.millis
    }

    /// The later of the two instants.
    pub fn later_of(self, other: Instant) -> (r: Instant)
        ensures
            r == spec_later_of(self, other),
    {
        if self.millis >= other.millis { self } else { other }
    }

    /// This instant delayed by `d`, saturating at the end of time.
    pub fn plus(self, d: Duration) -> (r: Instant)
        ensures
            r == spec_plus(self, d),
    {
        Instant { millis: self.millis.saturating_add(d.millis) }
    }
}

impl Duration {
    /// A span of `millis` milliseconds.
    pub fn from_millis(millis: u64) -> (r: Duration)
        ensures
            r.millis == millis,
    {
        Duration { millis }
    }

    /// Twice this span, saturating at the top of the range.
    pub fn doubled(self) -> (r: Duration)
        ensures
            r == spec_doubled(self),
    {
        Duration { millis: self.millis.saturating_add(self.millis) }
    }
}

impl Expiration {
    /// Whether the deadline has arrived by `now`.  `Never` is never due.
    pub fn due_by(self, now: Instant) -> (r: bool)
        ensures
            r == match self {
                Expiration::Never => false,
                Expiration::When(at) => at.millis <= now.millis,
            },
    {
        match self {
            Expiration::Never => false,
            Expiration::When(at) => at.millis <= now.millis,
        }
    }

    /// The earlier of two deadlines, `Never` counting as plus infinity.
    pub fn earlier_of(self, other: Expiration) -> (r: Expiration)
        ensures
            r == spec_earlier_of(self, other),
    {
        match (self, other) {
            (Expiration::Never, _) => other,
            (_, Expiration::Never) => self,
            (Expiration::When(a), Expiration::When(b)) => {
                if a.millis <= b.millis {
                    Expiration::When(a)
                } else {
                    Expiration::When(b)
                }
            },
        }
    }
}

/// The later of two instants.
pub open spec fn spec_later_of(a: Instant, b: Instant) -> Instant {
    if a.millis >= b.millis { a } else { b }
}

/// An instant delayed by a duration, saturating at the end of time.
pub open spec fn spec_plus(i: Instant, d: Duration) -> Instant {
    Instant {
        millis: if i.millis + d.millis > u64::MAX { u64::MAX } else { (i.millis + d.millis) as u64 },
    }
}

/// Twice a duration, saturating at the top of the range.
pub open spec fn spec_doubled(d: Duration) -> Duration {
    Duration {
        millis: if d.millis + d.millis > u64::MAX { u64::MAX } else { (d.millis + d.millis) as u64 },
    }
}

/// The earlier of two deadlines, `Never` counting as plus infinity.
pub open spec fn spec_earlier_of(a: Expiration, b: Expiration) -> Expiration {
    match (a, b) {
        (Expiration::Never, _) => b,
        (_, Expiration::Never) => a,
        (Expiration::When(x), Expiration::When(y)) => {
            if x.millis <= y.millis {
                Expiration::When(x)
            } else {
                Expiration::When(y)
            }
        },
    }
}

} // verus!
