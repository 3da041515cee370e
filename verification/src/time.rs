use vstd::prelude::*;

verus! {

/// A span of time: whole seconds and the nanoseconds that remain.
#[derive(Clone, Copy, Debug, PartialEq, Eq, Structural)]
pub struct Duration {
    secs: u64,
    nanos: u32,
}

impl Duration {
    #[verifier::type_invariant]
    spec fn normalized(self) -> bool {
        self.nanos < 1_000_000_000
    }

    /// The span as a number of nanoseconds.
    pub closed spec fn nanoseconds(self) -> nat {
        (self.secs * 1_000_000_000 + self.nanos) as nat
    }

    /// A span of `secs` seconds.
    pub fn from_secs(secs: u64) -> (duration: Self)
        ensures
            duration.nanoseconds() == secs * 1_000_000_000,
    {
        Duration { secs, nanos: 0 }
    }

    /// A span of `nanos` nanoseconds.
    pub fn from_nanos(nanos: u64) -> (duration: Self)
        ensures
            duration.nanoseconds() == nanos,
    {
        Duration { secs: nanos / 1_000_000_000, nanos: (nanos % 1_000_000_000) as u32 }
    }

    /// The whole seconds of the span.
    pub fn as_secs(&self) -> (secs: u64)
        ensures
            secs == self.nanoseconds() / 1_000_000_000,
    {
        proof {
            use_type_invariant(self);
        }
        self.secs
    }

    /// The nanoseconds beyond the whole seconds of the span.
    pub fn subsec_nanos(&self) -> (nanos: u32)
        ensures
            nanos == self.nanoseconds() % 1_000_000_000,
    {
        proof {
            use_type_invariant(self);
        }
        self.nanos
    }

    /// Whether the span is empty.
    pub fn is_zero(&self) -> (zero: bool)
        ensures
            zero <==> self.nanoseconds() == 0,
    {
        self.secs == 0 && self.nanos == 0
    }
}

impl Default for Duration {
    fn default() -> (duration: Self)
        ensures
            duration.nanoseconds() == 0,
    {
        Duration { secs: 0, nanos: 0 }
    }
}

/// `embassy_time::Duration::from_millis`, in ticks of its clock, of which a second has a million: the
/// manifest of this crate selects that rate.
#[verifier::external_body]
fn ticks_of_millis(millis: u64) -> (ticks: u64)
    requires
        millis * 1_000 <= u64::MAX,
    ensures
        ticks == millis * 1_000,
{
    embassy_time::Duration::from_millis(millis).as_ticks()
}

/// `embassy_time::Duration::from_secs`, in ticks of its clock, of which a second has a million: the
/// manifest of this crate selects that rate.
#[verifier::external_body]
fn ticks_of_secs(secs: u64) -> (ticks: u64)
    requires
        secs * 1_000_000 <= u64::MAX,
    ensures
        ticks == secs * 1_000_000,
{
    embassy_time::Duration::from_secs(secs).as_ticks()
}

/// A span of time in ticks of the clock that delays are measured by.
#[derive(Clone, Copy, Debug, PartialEq, Eq, Structural)]
pub struct TickDuration {
    ticks: u64,
}

impl View for TickDuration {
    type V = u64;

    closed spec fn view(&self) -> u64 {
        self.ticks
    }
}

impl TickDuration {
    /// A span of `ticks` ticks.
    pub fn from_ticks(ticks: u64) -> (duration: Self)
        ensures
            duration@ == ticks,
    {
        TickDuration { ticks }
    }

    /// A span of `millis` milliseconds.
    pub fn from_millis(millis: u64) -> (duration: Self)
        requires
            millis * 1_000 <= u64::MAX,
        ensures
            duration@ == millis * 1_000,
    {
        TickDuration { ticks: ticks_of_millis(millis) }
    }

    /// A span of `secs` seconds.
    pub fn from_secs(secs: u64) -> (duration: Self)
        requires
            secs * 1_000_000 <= u64::MAX,
        ensures
            duration@ == secs * 1_000_000,
    {
        TickDuration { ticks: ticks_of_secs(secs) }
    }

    pub fn as_ticks(&self) -> (ticks: u64)
        ensures
            ticks == self@,
    {
        self.ticks
    }
}

} // verus!
