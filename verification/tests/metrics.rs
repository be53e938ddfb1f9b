use ps_workers::metrics::{current_periods, PeriodType, SnapshotNext, SnapshotTally};

#[test]
fn periods_in_order() {
    assert_eq!(current_periods(), vec![PeriodType::Week, PeriodType::Month, PeriodType::Quarter]);
}

#[test]
fn snapshot_totals_and_failures() {
    let mut t = SnapshotTally::new();
    assert_eq!(t.absorb("week", Ok(12)), SnapshotNext::Continue);
    assert_eq!(t.absorb("month", Ok(30)), SnapshotNext::Continue);
    assert_eq!(t.total, 42);
    assert_eq!(
        t.absorb("quarter", Err("timeout".into())),
        SnapshotNext::Fail("failed to compute quarter snapshots: timeout".into())
    );
    assert_eq!(t.total, 42);
}
