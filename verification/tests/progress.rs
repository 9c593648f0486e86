use robin_editor::progress::ProgressMonitor;

#[test]
fn fractions_never_decrease() {
    let mut m = ProgressMonitor::new(100);
    let reports = [10u64, 40, 30, 40, 90, 60];
    let mut last = 0u64;
    for r in reports {
        let (num, den) = m.report(r);
        assert_eq!(den, 100);
        assert!(num >= last, "fraction stepped down: {num} after {last}");
        last = num;
    }
    assert_eq!(m.fraction(), (90, 100));
}

#[test]
fn a_report_beyond_the_total_is_clamped() {
    let mut m = ProgressMonitor::new(8);
    let (num, den) = m.report(1000);
    assert_eq!((num, den), (8, 8));
    assert!(m.is_complete());
}

#[test]
fn success_ends_at_exactly_one() {
    let mut m = ProgressMonitor::new(2048);
    m.report(512);
    m.report(1024);
    let (num, den) = m.finish_success();
    assert_eq!(num, den);
    assert_eq!(den, 2048);
    assert!(m.is_complete());
    assert_eq!(num as f64 / den as f64, 1.0);
}

#[test]
fn an_empty_operation_completes() {
    let mut m = ProgressMonitor::new(0);
    let (num, den) = m.finish_success();
    assert_eq!((num, den), (0, 0));
    assert!(m.is_complete());
}

#[test]
fn fresh_monitor_starts_at_zero() {
    let m = ProgressMonitor::new(50);
    assert_eq!(m.fraction(), (0, 50));
    assert!(!m.is_complete());
}
