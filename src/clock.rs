//! Timestamps from one of two interchangeable sources, and the elapsed time
//! between two of them.
//!
//! The cycle counter is read directly and counts processor cycles; turning a
//! difference of cycles into time takes a scaling factor in cycles per
//! microsecond, set on the later timestamp. The monotonic source reads the
//! operating system's monotonic clock, in nanoseconds since its clock was
//! made, and needs no scaling.

use std::time::Instant;
use vstd::prelude::*;

verus! {

#[verifier::external_type_specification]
#[verifier::external_body]
pub struct ExInstant(Instant);

/// Relies on `bmk_linux::timing::rdtsc`: the processor's time-stamp counter.
/// Nothing is promised of the value read.
#[verifier::external_body]
fn read_cycle_counter() -> (r: u64) {
    bmk_linux::timing::rdtsc()
}

/// Relies on `Instant::now`: a reading of the monotonic clock, used as an
/// origin.
#[verifier::external_body]
fn instant_now() -> (r: Instant) {
    Instant::now()
}

/// Relies on `Instant::elapsed`: the nanoseconds since `origin` on the
/// monotonic clock. Nothing is promised of the value read.
#[verifier::external_body]
fn nanos_since(origin: &Instant) -> (r: u64) {
    origin.elapsed().as_nanos() as u64
}

/// Nanoseconds in a second.
pub const NANOS_PER_SEC: u64 = 1_000_000_000;

/// Nanoseconds in a microsecond, the unit of the cycle counter's scaling.
pub const NANOS_PER_MICRO: u64 = 1_000;

/// Where a timestamp was read.
#[derive(Clone, Copy, Debug, PartialEq, Eq, Structural)]
pub enum ClockSource {
    /// The processor's cycle counter, in cycles.
    CycleCounter,
    /// The operating system's monotonic clock, in nanoseconds.
    Monotonic,
}

/// A reading of a clock source, with the scaling factor (cycles per
/// microsecond) set on it, if any.
#[derive(Clone, Copy, Debug, PartialEq, Eq)]
pub struct Timestamp {
    pub source: ClockSource,
    pub ticks: u64,
    pub scaling: Option<usize>,
}

/// Why no elapsed time lies between two timestamps.
#[derive(Clone, Copy, Debug, PartialEq, Eq, Structural)]
pub enum ClockError {
    /// The two timestamps come from different sources.
    MismatchedSources,
    /// The earlier timestamp is not strictly before the later one.
    NotIncreasing,
    /// A cycle-counter difference needs a scaling factor, and none was set.
    MissingScaling,
    /// The scaling factor set is zero.
    ZeroScaling,
}

/// A span of time, to the nanosecond.
#[derive(Clone, Copy, Debug, PartialEq, Eq)]
pub struct Elapsed {
    secs: u64,
    nanos: u32,
}

/// The time from `earlier` to `later` in nanoseconds, or why there is none:
/// the sources must agree and `earlier` must be strictly before `later`; on
/// the cycle counter the difference is `cycles * 1000 / factor`, rounded
/// down, for the factor set on `later`.
pub open spec fn elapsed_nanos(later: Timestamp, earlier: Timestamp) -> Result<int, ClockError> {
    if later.source != earlier.source {
        Err(ClockError::MismatchedSources)
    } else if earlier.ticks >= later.ticks {
        Err(ClockError::NotIncreasing)
    } else {
        match later.source {
            ClockSource::Monotonic => Ok(later.ticks - earlier.ticks),
            ClockSource::CycleCounter => match later.scaling {
                None => Err(ClockError::MissingScaling),
                Some(f) => if f == 0 {
                    Err(ClockError::ZeroScaling)
                } else {
                    Ok((later.ticks - earlier.ticks) * NANOS_PER_MICRO / (f as int))
                },
            },
        }
    }
}

impl Elapsed {
    /// The span in nanoseconds.
    pub closed spec fn spec_nanos(&self) -> int {
        self.secs * NANOS_PER_SEC + self.nanos
    }

    /// Whether the nanoseconds part is below one second.
    pub closed spec fn wf(&self) -> bool {
        self.nanos < NANOS_PER_SEC
    }

    /// The span of `nanos` nanoseconds.
    pub fn from_nanos(nanos: u128) -> (r: Elapsed)
        requires
            (nanos as int) / (NANOS_PER_SEC as int) <= u64::MAX,
        ensures
            r.wf(),
            r.spec_nanos() == nanos,
    {
        let secs = (nanos / (NANOS_PER_SEC as u128)) as u64;
        let sub = (nanos % (NANOS_PER_SEC as u128)) as u32;
        Elapsed { secs, nanos: sub }
    }

    /// The whole seconds of the span.
    pub fn as_secs(&self) -> (r: u64)
        ensures
            self.wf() ==> r == self.spec_nanos() / (NANOS_PER_SEC as int),
    {
        self.secs
    }

    /// The nanoseconds beyond the whole seconds.
    pub fn subsec_nanos(&self) -> (r: u32)
        ensures
            self.wf() ==> r == self.spec_nanos() % (NANOS_PER_SEC as int),
    {
        self.nanos
    }

    /// The whole span in nanoseconds.
    pub fn as_nanos(&self) -> (r: u128)
        ensures
            r == self.spec_nanos(),
    {
        assert((self.secs as int) * (NANOS_PER_SEC as int) + self.nanos <= u128::MAX)
            by (nonlinear_arith)
            requires
                self.secs <= u64::MAX,
                self.nanos <= u32::MAX,
        ;
        (self.secs as u128) * (NANOS_PER_SEC as u128) + (self.nanos as u128)
    }
}

/// A clock bound to one source.
pub struct Clock {
    source: ClockSource,
    origin: Instant,
}

impl Clock {
    /// The clock's source.
    pub closed spec fn spec_source(&self) -> ClockSource {
        self.source
    }

    /// A clock that reads the processor's cycle counter.
    pub fn cycle_counter() -> (r: Clock)
        ensures
            r.spec_source() == ClockSource::CycleCounter,
    {
        Clock { source: ClockSource::CycleCounter, origin: instant_now() }
    }

    /// A clock that reads the monotonic clock, in nanoseconds from now.
    pub fn monotonic() -> (r: Clock)
        ensures
            r.spec_source() == ClockSource::Monotonic,
    {
        Clock { source: ClockSource::Monotonic, origin: instant_now() }
    }

    /// The clock's source.
    pub fn source(&self) -> (r: ClockSource)
        ensures
            r == self.spec_source(),
    {
        self.source
    }

    /// A timestamp read from the clock's source, with no scaling set.
    pub fn now(&self) -> (r: Timestamp)
        ensures
            r.source == self.spec_source(),
            r.scaling is None,
    {
        let ticks = match self.source {
            ClockSource::CycleCounter => read_cycle_counter(),
            ClockSource::Monotonic => nanos_since(&self.origin),
        };
        Timestamp { source: self.source, ticks, scaling: None }
    }
}

impl Timestamp {
    /// Sets the cycles per microsecond by which a cycle-counter difference
    /// ending at this timestamp becomes time. On a monotonic timestamp, which
    /// is in nanoseconds already, it changes nothing.
    pub fn set_scaling_factor(&mut self, factor: usize)
        ensures
            final(self).source == old(self).source,
            final(self).ticks == old(self).ticks,
            final(self).scaling == if old(self).source == ClockSource::CycleCounter {
                Some(factor)
            } else {
                old(self).scaling
            },
    {
        if self.source == ClockSource::CycleCounter {
            self.scaling = Some(factor);
        }
    }

    /// The time from `earlier` to this timestamp. Fails when the sources
    /// differ, when `earlier` is not strictly before this timestamp, or, on
    /// the cycle counter, when no non-zero scaling factor is set here.
    pub fn duration_since(&self, earlier: Timestamp) -> (r: Result<Elapsed, ClockError>)
        ensures
            match r {
                Ok(d) => d.wf() && elapsed_nanos(*self, earlier) == Ok::<int, ClockError>(
                    d.spec_nanos(),
                ),
                Err(e) => elapsed_nanos(*self, earlier) == Err::<int, ClockError>(e),
            },
    {
        if self.source != earlier.source {
            return Err(ClockError::MismatchedSources);
        }
        if earlier.ticks >= self.ticks {
            return Err(ClockError::NotIncreasing);
        }
        let diff = self.ticks - earlier.ticks;
        match self.source {
            ClockSource::Monotonic => Ok(Elapsed::from_nanos(diff as u128)),
            ClockSource::CycleCounter => match self.scaling {
                None => Err(ClockError::MissingScaling),
                Some(f) => {
                    if f == 0 {
                        return Err(ClockError::ZeroScaling);
                    }
                    let nanos: u128 = (diff as u128) * (NANOS_PER_MICRO as u128) / (f as u128);
                    assert(nanos <= diff * 1000) by (nonlinear_arith)
                        requires
                            nanos == (diff * 1000) / (f as int),
                            f >= 1,
                            diff >= 0,
                    ;
                    Ok(Elapsed::from_nanos(nanos))
                },
            },
        }
    }
}

/// For a fixed earlier timestamp, a later reading never gives a shorter
/// elapsed time: when `a` is at or before `b` on the same source with the same
/// scaling, and the time from `earlier` to `a` exists, so does the time to
/// `b`, and it is at least as long.
pub proof fn lemma_duration_monotone(earlier: Timestamp, a: Timestamp, b: Timestamp)
    requires
        a.source == b.source,
        a.scaling == b.scaling,
        a.ticks <= b.ticks,
        elapsed_nanos(a, earlier) is Ok,
    ensures
        elapsed_nanos(b, earlier) is Ok,
        elapsed_nanos(a, earlier)->Ok_0 <= elapsed_nanos(b, earlier)->Ok_0,
{
    if a.source == ClockSource::CycleCounter {
        let f = a.scaling->Some_0 as int;
        let x = a.ticks - earlier.ticks;
        let y = b.ticks - earlier.ticks;
        assert(x * 1000 / f <= y * 1000 / f) by (nonlinear_arith)
            requires
                0 <= x <= y,
                f > 0,
        ;
    }
}

} // verus!
