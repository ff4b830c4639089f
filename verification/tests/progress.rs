use blockcopy::driver::{Driver, DriverAction, DriverEvent, DriverFailure, DriverPhase};
use blockcopy::progress::{average_rate_tenths, percent, report, ProgressReport};

#[test]
fn percent_is_rounded_down() {
    assert_eq!(percent(0, 10), 0);
    assert_eq!(percent(1, 3), 33);
    assert_eq!(percent(2, 3), 66);
    assert_eq!(percent(999, 1000), 99);
    assert_eq!(percent(10, 10), 100);
    assert_eq!(percent(15, 10), 150);
    assert_eq!(percent(usize::MAX, usize::MAX), 100);
    assert_eq!(percent(usize::MAX, 1), (usize::MAX as u128) * 100);
}

#[test]
fn nothing_of_nothing_is_all() {
    assert_eq!(percent(0, 0), 100);
    assert_eq!(percent(5, 0), 100);
}

#[test]
fn report_holds_sizes_and_rate() {
    let line = report(2_000_000, 7_500_000, 10_000_000, 500);
    assert_eq!(
        line,
        ProgressReport { percent: 75, value_units: 7, total_units: 10, rising: true, rate_tenths: 110 }
    );
    let line = report(7_500_000, 2_000_000, 10_000_000, 1000);
    assert_eq!(
        line,
        ProgressReport { percent: 20, value_units: 2, total_units: 10, rising: false, rate_tenths: 55 }
    );
    let line = report(0, 999_999, 999_999, 100);
    assert_eq!(line.value_units, 0);
    assert_eq!(line.rate_tenths, 99);
}

#[test]
fn average_rate_needs_a_whole_second() {
    assert_eq!(average_rate_tenths(10_000_000, 0), None);
    assert_eq!(average_rate_tenths(10_000_000, 1), Some(100));
    assert_eq!(average_rate_tenths(10_000_000, 4), Some(25));
    assert_eq!(average_rate_tenths(99_999, 1), Some(0));
}

#[test]
fn directory_destination_is_refused_before_anything_is_opened() {
    let mut driver = Driver::new(4096);
    assert_eq!(driver.phase, DriverPhase::Initializing);
    let action = driver.step(DriverEvent::DestinationChecked { is_directory: true });
    assert_eq!(action, DriverAction::RefuseDirectory);
    assert_eq!(driver.phase, DriverPhase::Done);
    assert_eq!(driver.step(DriverEvent::Snapshot { value: 4096 }), DriverAction::Ignore);
    assert_eq!(driver.step(DriverEvent::Polled { signal: Some(0) }), DriverAction::Ignore);
    assert_eq!(driver.phase, DriverPhase::Done);
}

#[test]
fn driver_goes_from_copy_to_flush_on_the_exact_total() {
    let mut driver = Driver::new(3_000_000);
    assert_eq!(driver.step(DriverEvent::DestinationChecked { is_directory: false }), DriverAction::StartCopy);
    assert_eq!(driver.phase, DriverPhase::Copying);
    assert_eq!(
        driver.step(DriverEvent::Snapshot { value: 1_000_000 }),
        DriverAction::ReportCopy {
            wait_ms: 100,
            report: ProgressReport { percent: 33, value_units: 1, total_units: 3, rising: true, rate_tenths: 20 }
        }
    );
    assert_eq!(driver.last_reported, 1_000_000);
    assert_eq!(
        driver.step(DriverEvent::Snapshot { value: 3_000_001 }),
        DriverAction::ReportCopy {
            wait_ms: 100,
            report: ProgressReport { percent: 100, value_units: 3, total_units: 3, rising: true, rate_tenths: 40 }
        }
    );
    assert_eq!(driver.phase, DriverPhase::Copying);
    assert_eq!(
        driver.step(DriverEvent::Snapshot { value: 3_000_000 }),
        DriverAction::ReportAndSync {
            wait_ms: 100,
            report: ProgressReport { percent: 100, value_units: 3, total_units: 3, rising: false, rate_tenths: 0 }
        }
    );
    assert_eq!(driver.phase, DriverPhase::Flushing);
    assert_eq!(driver.last_reported, 0);
    assert_eq!(driver.total, 3_000_000);
}

#[test]
fn flush_phase_reports_the_estimate_until_the_sentinel() {
    let mut driver = Driver::new(3_000_000);
    driver.step(DriverEvent::DestinationChecked { is_directory: false });
    driver.step(DriverEvent::Snapshot { value: 3_000_000 });
    assert_eq!(driver.step(DriverEvent::Polled { signal: None }), DriverAction::Measure);
    assert_eq!(
        driver.step(DriverEvent::Measured { dirty_kb: Some(1000) }),
        DriverAction::ReportFlush {
            wait_ms: 500,
            report: ProgressReport { percent: 65, value_units: 1, total_units: 3, rising: true, rate_tenths: 39 }
        }
    );
    assert_eq!(driver.last_reported, 1_976_000);
    assert_eq!(driver.step(DriverEvent::Polled { signal: Some(3_000_000) }), DriverAction::Measure);
    assert_eq!(
        driver.step(DriverEvent::Measured { dirty_kb: Some(0) }),
        DriverAction::ReportFlush {
            wait_ms: 500,
            report: ProgressReport { percent: 100, value_units: 3, total_units: 3, rising: true, rate_tenths: 20 }
        }
    );
    assert_eq!(driver.step(DriverEvent::Polled { signal: Some(0) }), DriverAction::Summarize { total: 3_000_000 });
    assert_eq!(driver.phase, DriverPhase::Done);
}

#[test]
fn flush_phase_fails_without_a_dirty_figure() {
    let mut driver = Driver::new(2048);
    driver.step(DriverEvent::DestinationChecked { is_directory: false });
    driver.step(DriverEvent::Snapshot { value: 2048 });
    let mut other = driver;
    assert_eq!(
        driver.step(DriverEvent::Measured { dirty_kb: None }),
        DriverAction::Fail { reason: DriverFailure::NoDirtyFigure }
    );
    assert_eq!(driver.phase, DriverPhase::Done);
    assert_eq!(
        other.step(DriverEvent::Measured { dirty_kb: Some(3) }),
        DriverAction::Fail { reason: DriverFailure::EstimateOutOfRange }
    );
    assert_eq!(other.phase, DriverPhase::Done);
}

#[test]
fn copier_that_ends_early_leaves_the_driver_polling() {
    let mut driver = Driver::new(8192);
    driver.step(DriverEvent::DestinationChecked { is_directory: false });
    driver.step(DriverEvent::Snapshot { value: 4096 });
    match driver.step(DriverEvent::Snapshot { value: 0 }) {
        DriverAction::ReportCopy { report, .. } => assert_eq!(report.percent, 0),
        other => panic!("unexpected action {:?}", other),
    }
    assert_eq!(driver.step(DriverEvent::CopierGone), DriverAction::Poll);
    assert_eq!(driver.phase, DriverPhase::Flushing);
    assert_eq!(driver.step(DriverEvent::Polled { signal: None }), DriverAction::Measure);
}

#[test]
fn empty_copy_ends_with_the_first_two_snapshots() {
    let mut driver = Driver::new(0);
    driver.step(DriverEvent::DestinationChecked { is_directory: false });
    match driver.step(DriverEvent::Snapshot { value: 0 }) {
        DriverAction::ReportAndSync { report, .. } => {
            assert_eq!(report.percent, 100);
            assert_eq!(report.value_units, 0);
        }
        other => panic!("unexpected action {:?}", other),
    }
    assert_eq!(driver.step(DriverEvent::Polled { signal: Some(0) }), DriverAction::Summarize { total: 0 });
}
