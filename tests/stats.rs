use paperexp::stats::{Fraction, TimingStats};

#[test]
fn avg_is_sum_over_count() {
    let mut stats = TimingStats::new(vec![10, 20, 30]);
    let avg = stats.avg();
    assert_eq!(avg, Fraction { numerator: 60, denominator: 3 });
    assert_eq!(avg.numerator as f64 / avg.denominator as f64, 20.0);
}

#[test]
fn avg_twice_gives_the_kept_value() {
    let mut stats = TimingStats::new(vec![7, 8, 10, 1]);
    let first = stats.avg();
    let second = stats.avg();
    assert_eq!(first, second);
    assert_eq!(first, Fraction { numerator: 26, denominator: 4 });
}

#[test]
fn avg_of_large_samples_does_not_wrap() {
    let mut stats = TimingStats::new(vec![u64::MAX, u64::MAX]);
    let avg = stats.avg();
    assert_eq!(avg.numerator, 2 * (u64::MAX as u128));
    assert_eq!(avg.denominator, 2);
}

#[test]
fn median_of_one_to_ten() {
    let mut stats = TimingStats::new((1..=10).collect());
    assert_eq!(stats.percentile(50), Some(6));
}

#[test]
fn percentile_sorts_unsorted_samples() {
    let mut stats = TimingStats::new(vec![9, 1, 5, 3, 7]);
    assert_eq!(stats.percentile(0), Some(1));
    assert_eq!(stats.percentile(40), Some(5));
    assert_eq!(stats.percentile(99), Some(9));
    // the kept value is returned again
    assert_eq!(stats.percentile(40), Some(5));
}

#[test]
fn max_is_the_largest() {
    let mut stats = TimingStats::new(vec![5, 3, 9, 1]);
    assert_eq!(stats.max(), Some(9));
    assert_eq!(stats.percentile(99), Some(9));
    assert_eq!(stats.max(), Some(9));
}

#[test]
fn permicrotile_reads_the_tail() {
    let mut stats = TimingStats::new((0..1000).rev().collect());
    assert_eq!(stats.permicrotile(999_000), Some(999));
    assert_eq!(stats.permicrotile(990_001), Some(990));
    let mut big = TimingStats::new((0..1_000_000).collect());
    assert_eq!(big.permicrotile(999_999), Some(999_999));
    assert_eq!(big.permicrotile(999_990), Some(999_990));
}

#[test]
fn empty_samples_have_no_rank() {
    let mut stats = TimingStats::new(Vec::new());
    assert_eq!(stats.percentile(50), None);
    assert_eq!(stats.permicrotile(999_000), None);
    assert_eq!(stats.max(), None);
    assert_eq!(stats.avg(), Fraction { numerator: 0, denominator: 0 });
    assert_eq!(stats.len(), 0);
}

#[test]
fn sleep_latency_percentiles_are_ordered() {
    // right-skewed latencies around a 10 ms sleep, in cycles at 3 GHz
    let mut samples = Vec::with_capacity(10_000);
    for i in 0..10_000u64 {
        let jitter = (i * 7919) % 100_000;
        let tail = if i % 97 == 0 { 5_000_000 } else { 0 };
        samples.push(30_000_000 + jitter + tail);
    }
    let mut stats = TimingStats::new(samples);
    let p50 = stats.percentile(50).unwrap();
    let p95 = stats.percentile(95).unwrap();
    let p99 = stats.percentile(99).unwrap();
    let max = stats.max().unwrap();
    assert!(p95 >= p50);
    assert!(p99 >= p95);
    assert!(max >= p99);
}

#[test]
fn samples_keep_their_order() {
    let stats = TimingStats::new(vec![3, 1, 2]);
    assert_eq!(stats.samples_as_slice(), &[3, 1, 2]);
    assert_eq!(stats.len(), 3);
}
