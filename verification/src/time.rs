//! Clock readings and durations as integers.

use vstd::prelude::*;

verus! {

/// The number of nanoseconds in a second.
pub const NANOS: u128 = 1_000_000_000;

/// A bound on what a clock reads, in nanoseconds since the Unix epoch.
pub const CLOCK_LIMIT: i128 = 18_446_744_073_709_551_616_000_000_000;

/// A span of time.
#[derive(Debug, Clone, Copy, PartialEq, Eq, Structural)]
pub struct Duration {
    /// The whole seconds.
    pub secs: u64,
    /// The nanoseconds beyond the whole seconds.
    pub nanos: u32,
}

impl Duration {
    /// The length of the span in nanoseconds.
    pub open spec fn total(self) -> int {
        self.secs * NANOS + self.nanos
    }

    /// A span of whole seconds.
    pub fn from_secs(secs: u64) -> (r: Self)
        ensures
            r.secs == secs,
            r.nanos == 0,
    {
        Duration { secs, nanos: 0 }
    }

    /// The length of the span in nanoseconds.
    pub fn as_nanos(&self) -> (r: i128)
        ensures
            r == self.total(),
            0 <= r <= 18_446_744_073_709_551_615_000_000_000 + 4_294_967_295,
    {
        (self.secs as i128) * 1_000_000_000 + (self.nanos as i128)
    }
}

/// A point in time.
#[derive(Debug, Clone, Copy, PartialEq, Eq, Structural)]
pub struct SystemTime {
    /// Nanoseconds since the Unix epoch; negative before it.
    pub nanos: i128,
}

/// What the clock of the machine reads: whether it is before the Unix epoch,
/// and the distance from the epoch in seconds and nanoseconds.
///
/// Trusted: `std::time::SystemTime::now`. The reading depends on the machine;
/// only the range of the nanoseconds is claimed.
#[verifier::external_body]
fn read_clock() -> (r: (bool, u64, u32))
    ensures
        r.2 < 1_000_000_000,
{
    match std::time::SystemTime::now().duration_since(std::time::UNIX_EPOCH) {
        Ok(d) => (false, d.as_secs(), d.subsec_nanos()),
        Err(e) => (true, e.duration().as_secs(), e.duration().subsec_nanos()),
    }
}

impl SystemTime {
    /// The point is one that a clock can read.
    pub open spec fn readable(self) -> bool {
        -CLOCK_LIMIT < self.nanos < CLOCK_LIMIT
    }

    /// The point that lies `secs` seconds later.
    pub open spec fn later(self, secs: u64) -> SystemTime {
        SystemTime { nanos: (self.nanos + secs * NANOS) as i128 }
    }

    /// The current time.
    pub fn now() -> (r: Self)
        ensures
            r.readable(),
    {
        let (before, secs, nanos) = read_clock();
        Self::from_reading(before, secs, nanos)
    }

    /// The point that lies `secs` seconds and `nanos` nanoseconds before or
    /// after the Unix epoch.
    pub fn from_reading(before: bool, secs: u64, nanos: u32) -> (r: Self)
        ensures
            before ==> r.nanos == -(secs * NANOS + nanos),
            !before ==> r.nanos == secs * NANOS + nanos,
    {
        let distance: i128 = (secs as i128) * 1_000_000_000 + (nanos as i128);
        if before {
            SystemTime { nanos: -distance }
        } else {
            SystemTime { nanos: distance }
        }
    }

    /// The point that lies `secs` seconds later.
    pub fn plus_secs(self, secs: u64) -> (r: Self)
        requires
            self.readable(),
        ensures
            r == self.later(secs),
            r.nanos == self.nanos + secs * NANOS,
    {
        SystemTime { nanos: self.nanos + (secs as i128) * 1_000_000_000 }
    }

    /// Whether more than `span` has passed since `start`. A start in the
    /// future counts as no time passed.
    pub fn elapsed_more_than(self, start: SystemTime, span: Duration) -> (r: bool)
        ensures
            r == (self.nanos - start.nanos > span.total()),
    {
        let limit: i128 = span.as_nanos();
        match self.nanos.checked_sub(start.nanos) {
            Some(d) => d > limit,
            None => self.nanos > start.nanos,
        }
    }

    /// Whether this point is at most `margin` before `end`.
    pub fn within(self, margin: Duration, end: SystemTime) -> (r: bool)
        ensures
            r == (self.nanos + margin.total() >= end.nanos),
    {
        match self.nanos.checked_add(margin.as_nanos()) {
            Some(t) => t >= end.nanos,
            None => true,
        }
    }

    /// The whole seconds since the Unix epoch; zero before it.
    pub open spec fn unix(self) -> u64 {
        if self.nanos < 0 {
            0
        } else {
            (self.nanos as int / NANOS as int) as u64
        }
    }

    /// The point that lies the given seconds after the Unix epoch.
    pub open spec fn at_unix(secs: u64) -> SystemTime {
        SystemTime { nanos: (secs * NANOS) as i128 }
    }

    /// This point, cut to the whole second.
    pub open spec fn whole_seconds(self) -> SystemTime {
        SystemTime { nanos: (self.nanos - self.nanos as int % NANOS as int) as i128 }
    }

    /// The whole seconds since the Unix epoch; zero before it.
    pub fn to_unix(self) -> (r: u64)
        requires
            self.nanos < CLOCK_LIMIT,
        ensures
            r == self.unix(),
            self.nanos < 0 ==> r == 0,
            self.nanos >= 0 ==> r == self.nanos / 1_000_000_000,
    {
        if self.nanos < 0 {
            0
        } else {
            (self.nanos / 1_000_000_000) as u64
        }
    }

    /// The point that lies the given seconds after the Unix epoch.
    pub fn from_unix(secs: u64) -> (r: Self)
        ensures
            r == Self::at_unix(secs),
            r.nanos == secs * NANOS,
    {
        SystemTime { nanos: (secs as i128) * 1_000_000_000 }
    }
}

/// A whole second since the epoch survives being written as Unix seconds and
/// read back.
pub proof fn law_unix_seconds_round_trip(secs: u64)
    ensures
        (secs * NANOS) / 1_000_000_000 == secs,
        0 <= secs * NANOS < CLOCK_LIMIT,
{
}

/// What the clock functions compute, in nanoseconds.
pub proof fn law_clock_arithmetic(
    t: SystemTime,
    other: SystemTime,
    span: Duration,
    secs: u64,
    nanos: u32,
    before: bool,
)
    ensures
        forall|r: bool| #[trigger]
            call_ensures(SystemTime::elapsed_more_than, (t, other, span), r) ==> (r <==> t.nanos
                - other.nanos > span.secs * 1_000_000_000 + span.nanos),
        forall|r: bool| #[trigger]
            call_ensures(SystemTime::within, (t, span, other), r) ==> (r <==> other.nanos - t.nanos
                <= span.secs * 1_000_000_000 + span.nanos),
        forall|r: SystemTime| #[trigger]
            call_ensures(SystemTime::from_reading, (before, secs, nanos), r) ==> r.nanos
                == if before {
                -(secs * 1_000_000_000 + nanos)
            } else {
                secs * 1_000_000_000 + nanos
            },
        forall|r: SystemTime| #[trigger]
            call_ensures(SystemTime::plus_secs, (t, secs), r) ==> r.nanos == t.nanos + secs
                * 1_000_000_000,
        forall|r: SystemTime| #[trigger]
            call_ensures(SystemTime::from_unix, (secs,), r) ==> r.nanos == secs * 1_000_000_000,
        forall|r: u64| #[trigger]
            call_ensures(SystemTime::to_unix, (t,), r) ==> r == if t.nanos < 0 {
                0
            } else {
                t.nanos as int / 1_000_000_000
            },
        forall|r: Duration| #[trigger]
            call_ensures(Duration::from_secs, (secs,), r) ==> r.secs == secs && r.nanos == 0,
        forall|r: i128| #[trigger]
            call_ensures(Duration::as_nanos, (&span,), r) ==> r == span.secs * 1_000_000_000
                + span.nanos,
{
}

} // verus!
