use paperexp::plan::{
    access_count, access_offset, churn_len_of, churn_op, join_halves, next_fill, reports_at,
    retry_after_failure, touch_plan, values_in_gigabytes, CompactionPoll, KvOp, Pattern,
    PlanError, PollStep, TouchPlan,
};

#[test]
fn values_that_fill_gigabytes() {
    assert_eq!(values_in_gigabytes(1, 1 << 19), Some(2048));
    assert_eq!(values_in_gigabytes(3, 523_800), Some(6149));
    assert_eq!(values_in_gigabytes(1, 0), None);
    assert_eq!(values_in_gigabytes(1 << 34, 1), None);
}

#[test]
fn churn_workload_steps() {
    assert_eq!(churn_len_of(6), Some(13));
    let ops: Vec<KvOp> = (0..13).map(|i| churn_op(6, i)).collect();
    assert_eq!(
        ops,
        vec![
            KvOp::Put(0),
            KvOp::Put(1),
            KvOp::Put(2),
            KvOp::Put(3),
            KvOp::Put(4),
            KvOp::Put(5),
            KvOp::PhaseEnd,
            KvOp::Delete(0),
            KvOp::Delete(1),
            KvOp::PhaseEnd,
            KvOp::Put(6),
            KvOp::Put(7),
            KvOp::Put(8),
        ]
    );
    assert_eq!(churn_len_of(u64::MAX), None);
}

#[test]
fn reports_and_retries() {
    assert!(reports_at(0));
    assert!(!reports_at(99));
    assert!(reports_at(200));
    assert!(retry_after_failure(1));
    assert!(!retry_after_failure(2));
}

#[test]
fn poller_stops_once_settled_after_stop() {
    let mut poll = CompactionPoll::new();
    assert_eq!(poll.observe(5, false), PollStep::Report);
    assert_eq!(poll.observe(5, false), PollStep::Report);
    assert_eq!(poll.observe(9, true), PollStep::Report);
    assert_eq!(poll.prev_ops, 9);
    assert_eq!(poll.observe(9, true), PollStep::Stop);
}

#[test]
fn touch_run_plans() {
    let plan = touch_plan(1 << 20, 1).unwrap();
    assert_eq!(
        plan,
        TouchPlan { pages: (1 << 20) - (1 << 18), samples: 1 << 27, sample_every: 1 }
    );
    assert!(plan.samples_at(0));
    let big = touch_plan((1 << 18) + 3 * (1 << 27), 1).unwrap();
    assert_eq!(big.sample_every, 4);
    assert!(big.samples_at(8));
    assert!(!big.samples_at(9));
    assert_eq!(touch_plan(100, 0), Err(PlanError::NoSampleMemory));
    assert_eq!(touch_plan(100, 1), Err(PlanError::TooFewPages));
    assert_eq!(touch_plan(u64::MAX, 1 << 40), Err(PlanError::SampleMemoryTooLarge));
}

#[test]
fn fill_patterns() {
    assert_eq!(next_fill(Pattern::Zeros, 0), 0);
    assert_eq!(next_fill(Pattern::Counter, 41), 42);
    assert_eq!(next_fill(Pattern::Counter, 255), 0);
}

#[test]
fn locality_offsets() {
    assert_eq!(access_offset(true, 0, 0), 0);
    assert_eq!(access_offset(true, 9, 0), 4096);
    assert_eq!(access_offset(false, 9, 1000), 1000 * 4096);
    assert_eq!(access_count(true, 21), 16);
    assert_eq!(access_count(false, 21), 21);
}

#[test]
fn halves_join_into_one_value() {
    assert_eq!(join_halves(1, 2), (1u64 << 32) + 2);
    assert_eq!(join_halves(u32::MAX, u32::MAX), u64::MAX);
    assert_eq!(join_halves(0, 7), 7);
}
