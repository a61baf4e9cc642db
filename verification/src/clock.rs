//! Time spans, instants, and the substitutable clock.
//!
//! A [`Duration`] is a span of whole seconds plus a sub-second nanosecond
//! part; an instant is a `Duration` measured from the Unix epoch. The
//! [`Clock`] reads "now" either from the real wall clock or from an explicit,
//! manually advanceable instant, so that expiration checks can be made
//! deterministic under test.

use vstd::prelude::*;

verus! {

/// Number of nanoseconds in one second.
pub const NANOS_PER_SEC: u32 = 1_000_000_000;

/// A non-negative span of time: whole seconds plus a sub-second nanosecond
/// part. Doubles as an instant when read as the span since the Unix epoch.
#[derive(Clone, Copy, Debug, PartialEq, Eq, Hash, Structural)]
pub struct Duration {
    secs: u64,
    nanos: u32,
}

impl View for Duration {
    type V = int;

    /// A span is modelled as its total length in nanoseconds.
    closed spec fn view(&self) -> int {
        self.secs as int * (NANOS_PER_SEC as int) + self.nanos as int
    }
}

/// The largest total length, in nanoseconds, that a [`Duration`] can hold.
pub open spec fn max_duration_nanos() -> int {
    u64::MAX as int * (NANOS_PER_SEC as int) + (NANOS_PER_SEC as int - 1)
}

impl Duration {
    /// The nanosecond part never reaches a whole second.
    pub closed spec fn wf(&self) -> bool {
        self.nanos < NANOS_PER_SEC
    }

    /// A span of `secs` whole seconds plus `nanos` nanoseconds.
    pub fn new(secs: u64, nanos: u32) -> (d: Duration)
        requires
            nanos < NANOS_PER_SEC,
        ensures
            d.wf(),
            d@ == secs as int * (NANOS_PER_SEC as int) + nanos as int,
    {
        Duration { secs, nanos }
    }

    /// A span of `secs` whole seconds.
    pub fn from_secs(secs: u64) -> (d: Duration)
        ensures
            d.wf(),
            d@ == secs as int * (NANOS_PER_SEC as int),
    {
        Duration { secs, nanos: 0 }
    }

    /// The whole-second part of the span.
    pub fn as_secs(&self) -> (r: u64)
        requires
            self.wf(),
        ensures
            r as int == self@ / (NANOS_PER_SEC as int),
    {
        proof {
            lemma_parts_from_view(*self);
        }
        self.secs
    }

    /// The sub-second part of the span, in nanoseconds.
    pub fn subsec_nanos(&self) -> (r: u32)
        requires
            self.wf(),
        ensures
            r as int == self@ % (NANOS_PER_SEC as int),
    {
        proof {
            lemma_parts_from_view(*self);
        }
        self.nanos
    }

    /// The sum of two spans, or `None` when the sum does not fit.
    pub fn checked_add(&self, other: &Duration) -> (r: Option<Duration>)
        requires
            self.wf(),
            other.wf(),
        ensures
            r is Some <==> self@ + other@ <= max_duration_nanos(),
            r matches Some(d) ==> d.wf() && d@ == self@ + other@,
    {
        let mut nanos: u32 = self.nanos + other.nanos;
        let mut carry: u64 = 0;
        if nanos >= NANOS_PER_SEC {
            nanos = nanos - NANOS_PER_SEC;
            carry = 1;
        }
        match self.secs.checked_add(other.secs) {
            Some(s) => match s.checked_add(carry) {
                Some(secs) => Some(Duration { secs, nanos }),
                None => None,
            },
            None => None,
        }
    }

    /// Whether this span is no longer than `other`.
    pub fn le(&self, other: &Duration) -> (r: bool)
        requires
            self.wf(),
            other.wf(),
        ensures
            r == (self@ <= other@),
    {
        self.secs < other.secs || (self.secs == other.secs && self.nanos <= other.nanos)
    }
}

/// The seconds and nanoseconds of a well-formed span are recovered from its
/// total length in nanoseconds by division and remainder.
proof fn lemma_parts_from_view(d: Duration)
    requires
        d.wf(),
    ensures
        d.secs as int == d@ / (NANOS_PER_SEC as int),
        d.nanos as int == d@ % (NANOS_PER_SEC as int),
{
    vstd::arithmetic::div_mod::lemma_fundamental_div_mod_converse(
        d@,
        NANOS_PER_SEC as int,
        d.secs as int,
        d.nanos as int,
    );
}

/// A span's total length in nanoseconds is never negative.
pub proof fn lemma_duration_nonnegative(d: Duration)
    ensures
        0 <= d@,
{
}

/// A stopped clock's instant never moves backward under `advance`: the
/// instant a successful advance lands on lies at or beyond the one it left.
/// Only an explicit `set` can move a clock back.
pub proof fn lemma_advance_monotonic(before: Duration, by: Duration, after: Duration)
    requires
        after@ == before@ + by@,
    ensures
        before@ <= after@,
{
    lemma_duration_nonnegative(by);
}

/// Failure of a time computation.
#[derive(Clone, Copy, Debug, PartialEq, Eq, Structural)]
pub enum ClockError {
    /// The computed instant would exceed the representable time range.
    Overflow,
}

/// A source of "now", measured from the Unix epoch.
///
/// In `System` mode every read returns the real wall-clock time. In `Stopped`
/// mode reads return an explicit stored instant that moves only when a caller
/// sets or advances it; this mode exists for deterministic tests, and
/// production code is expected to stay in `System` mode. A `Clock` value is
/// plain data: callers that share one across test contexts must serialize
/// their own access to it.
#[derive(Clone, Copy, Debug)]
pub enum Clock {
    /// Reads return the real wall-clock time.
    System,
    /// Reads return `instant`, which moves only by explicit `set` or
    /// `advance` calls.
    Stopped { instant: Duration },
}

/// Relies on `std::time::SystemTime::now`: a snapshot of the wall clock.
#[verifier::external_body]
fn system_time_now() -> std::time::SystemTime {
    std::time::SystemTime::now()
}

/// Declares std's `SystemTime` so that a wall-clock snapshot can be carried
/// to [`duration_since_epoch`].
#[verifier::external_type_specification]
#[verifier::external_body]
pub struct ExSystemTime(std::time::SystemTime);

/// Relies on `std::time::SystemTime::duration_since`, measured from
/// `SystemTime::UNIX_EPOCH`: the span from the epoch to `t`, with a
/// sub-second part below one second; zero when `t` lies before the epoch.
#[verifier::external_body]
fn duration_since_epoch(t: &std::time::SystemTime) -> (d: Duration)
    ensures
        d.wf(),
{
    let span = t
        .duration_since(std::time::SystemTime::UNIX_EPOCH)
        .unwrap_or(std::time::Duration::ZERO);
    Duration { secs: span.as_secs(), nanos: span.subsec_nanos() }
}

impl Clock {
    /// A stopped clock holds a well-formed instant.
    pub open spec fn wf(&self) -> bool {
        match *self {
            Clock::System => true,
            Clock::Stopped { instant } => instant.wf(),
        }
    }

    /// The current instant per the active mode. Never fails.
    pub fn now(&self) -> (t: Duration)
        requires
            self.wf(),
        ensures
            t.wf(),
            self matches Clock::Stopped { instant } ==> t == instant,
    {
        match self {
            Clock::System => {
                let snapshot = system_time_now();
                duration_since_epoch(&snapshot)
            },
            Clock::Stopped { instant } => *instant,
        }
    }

    /// `now() + duration`, without touching the stored state.
    pub fn add(&self, duration: &Duration) -> (r: Result<Duration, ClockError>)
        requires
            self.wf(),
            duration.wf(),
        ensures
            r matches Ok(t) ==> t.wf(),
            r is Err ==> r->Err_0 == ClockError::Overflow,
            self matches Clock::Stopped { instant } ==> {
                &&& r is Ok <==> instant@ + duration@ <= max_duration_nanos()
                &&& (r matches Ok(t) ==> t@ == instant@ + duration@)
            },
    {
        let now = self.now();
        match now.checked_add(duration) {
            Some(t) => Ok(t),
            None => Err(ClockError::Overflow),
        }
    }

    /// In stopped mode, moves the stored instant forward by `by` and returns
    /// the new value; fails with `Overflow` when the sum does not fit, and
    /// then leaves the instant unchanged. In system mode nothing is stored:
    /// the call leaves the clock as it is and returns the current wall-clock
    /// reading; it stays available so that test setups may mix it with
    /// explicit switches into stopped mode.
    pub fn advance(&mut self, by: &Duration) -> (r: Result<Duration, ClockError>)
        requires
            old(self).wf(),
            by.wf(),
        ensures
            final(self).wf(),
            r matches Ok(t) ==> t.wf(),
            r is Err ==> r->Err_0 == ClockError::Overflow,
            *old(self) matches Clock::Stopped { instant } ==> {
                &&& r is Ok <==> instant@ + by@ <= max_duration_nanos()
                &&& (r matches Ok(t) ==> t@ == instant@ + by@ && *final(self) == (
                Clock::Stopped { instant: t }))
                &&& (r is Err ==> *final(self) == *old(self))
            },
            *old(self) is System ==> *final(self) == *old(self) && r is Ok,
    {
        match self {
            Clock::System => Ok(self.now()),
            Clock::Stopped { instant } => match instant.checked_add(by) {
                Some(t) => {
                    *instant = t;
                    Ok(t)
                },
                None => Err(ClockError::Overflow),
            },
        }
    }

    /// Switches to stopped mode, holding the given instant.
    pub fn set(&mut self, instant: Duration)
        requires
            instant.wf(),
        ensures
            *final(self) == (Clock::Stopped { instant }),
    {
        *self = Clock::Stopped { instant };
    }

    /// Switches to stopped mode, holding a snapshot of the real wall-clock
    /// time: a deterministic but realistic starting point for tests.
    pub fn set_to_system_time(&mut self)
        ensures
            *final(self) is Stopped,
            final(self).wf(),
    {
        let snapshot = system_time_now();
        let instant = duration_since_epoch(&snapshot);
        *self = Clock::Stopped { instant };
    }
}

} // verus!
