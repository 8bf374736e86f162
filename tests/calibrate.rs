use paperexp::calibrate::{average_overhead, Calibration, CalibrationOutcome, CalibrationStep};

#[test]
fn average_rounds_toward_zero() {
    assert_eq!(average_overhead(&[10, -3, 4]), 3);
    assert_eq!(average_overhead(&[-7, 0]), -3);
    assert_eq!(average_overhead(&[]), 0);
    assert_eq!(average_overhead(&[i64::MAX, i64::MAX]), i64::MAX);
    assert_eq!(average_overhead(&[i64::MIN, i64::MIN, i64::MIN]), i64::MIN);
}

#[test]
fn out_of_tolerance_asks_for_adjustment() {
    let mut c = Calibration::new(50, 2, 3);
    assert_eq!(c.step(51), CalibrationStep::Adjust { too_low: true });
    assert_eq!(c.step(-51), CalibrationStep::Adjust { too_low: false });
    assert_eq!(c.retries_left, 1);
    assert_eq!(c.settle_left, 2);
}

#[test]
fn converges_after_settling_rounds() {
    let mut c = Calibration::new(50, 2, 3);
    assert_eq!(c.step(50), CalibrationStep::Settle);
    assert_eq!(c.step(-50), CalibrationStep::Settle);
    assert_eq!(c.step(0), CalibrationStep::Done(CalibrationOutcome::Converged));
}

#[test]
fn never_converging_source_still_halts() {
    let mut c = Calibration::new(50, 50, 100);
    let mut rounds = 0;
    loop {
        rounds += 1;
        match c.step(1_000) {
            CalibrationStep::Done(outcome) => {
                assert_eq!(outcome, CalibrationOutcome::RetriesExhausted);
                break;
            }
            step => assert_eq!(step, CalibrationStep::Adjust { too_low: true }),
        }
        assert!(rounds <= 151);
    }
    assert_eq!(rounds, 101);
}
