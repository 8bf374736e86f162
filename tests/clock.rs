use paperexp::clock::{Clock, ClockError, ClockSource, Timestamp};

fn at(source: ClockSource, ticks: u64) -> Timestamp {
    Timestamp { source, ticks, scaling: None }
}

#[test]
fn monotonic_readings_do_not_go_back() {
    let clock = Clock::monotonic();
    assert_eq!(clock.source(), ClockSource::Monotonic);
    let t1 = clock.now();
    let t2 = clock.now();
    assert_eq!(t1.source, ClockSource::Monotonic);
    assert!(t2.ticks >= t1.ticks);
}

#[test]
fn cycle_counter_readings_do_not_go_back() {
    let clock = Clock::cycle_counter();
    let t1 = clock.now();
    let t2 = clock.now();
    assert_eq!(t1.source, ClockSource::CycleCounter);
    assert!(t2.ticks >= t1.ticks);
}

#[test]
fn monotonic_clock_advances() {
    let clock = Clock::monotonic();
    let t1 = clock.now();
    let mut t2 = clock.now();
    let mut spins = 0u64;
    while t2.ticks == t1.ticks && spins < 100_000_000 {
        t2 = clock.now();
        spins += 1;
    }
    let d = t2.duration_since(t1).unwrap();
    assert_eq!(d.as_nanos(), (t2.ticks - t1.ticks) as u128);
}

#[test]
fn cycles_are_scaled_to_nanoseconds() {
    let earlier = at(ClockSource::CycleCounter, 1_000);
    let mut later = at(ClockSource::CycleCounter, 4_000);
    later.set_scaling_factor(3);
    let d = later.duration_since(earlier).unwrap();
    assert_eq!(d.as_nanos(), 1_000_000);
    assert_eq!(d.as_secs(), 0);
    assert_eq!(d.subsec_nanos(), 1_000_000);
}

#[test]
fn long_cycle_spans_split_into_seconds() {
    let earlier = at(ClockSource::CycleCounter, 0);
    let mut later = at(ClockSource::CycleCounter, 7_500_000_001);
    later.set_scaling_factor(3000);
    let d = later.duration_since(earlier).unwrap();
    assert_eq!(d.as_secs(), 2);
    assert_eq!(d.subsec_nanos(), 500_000_000);
}

#[test]
fn monotonic_span_needs_no_scaling() {
    let mut later = at(ClockSource::Monotonic, 2_500_000_100);
    later.set_scaling_factor(7);
    assert_eq!(later.scaling, None);
    let d = later.duration_since(at(ClockSource::Monotonic, 100)).unwrap();
    assert_eq!(d.as_secs(), 2);
    assert_eq!(d.subsec_nanos(), 500_000_000);
}

#[test]
fn duration_errors() {
    let mut later = at(ClockSource::CycleCounter, 10);
    assert_eq!(
        later.duration_since(at(ClockSource::CycleCounter, 5)),
        Err(ClockError::MissingScaling)
    );
    later.set_scaling_factor(0);
    assert_eq!(
        later.duration_since(at(ClockSource::CycleCounter, 5)),
        Err(ClockError::ZeroScaling)
    );
    later.set_scaling_factor(2);
    assert_eq!(
        later.duration_since(at(ClockSource::CycleCounter, 10)),
        Err(ClockError::NotIncreasing)
    );
    assert_eq!(
        later.duration_since(at(ClockSource::CycleCounter, 11)),
        Err(ClockError::NotIncreasing)
    );
    assert_eq!(
        later.duration_since(at(ClockSource::Monotonic, 5)),
        Err(ClockError::MismatchedSources)
    );
}

#[test]
fn later_reading_gives_no_shorter_span() {
    let earlier = at(ClockSource::CycleCounter, 100);
    let mut prev = 0u128;
    for ticks in [101u64, 102, 150, 1_000, 1_000_000] {
        let mut later = at(ClockSource::CycleCounter, ticks);
        later.set_scaling_factor(7);
        let nanos = later.duration_since(earlier).unwrap().as_nanos();
        assert!(nanos >= prev);
        prev = nanos;
    }
}
