use stacks_network::{
    extraction_report, plan_snapshot, snapshot_ready_marker, ExtractionOutcome, LogLevel,
    SnapshotVerdict,
};

fn compatible() -> SnapshotVerdict {
    SnapshotVerdict::from_diff(Ok(()))
}

fn incompatible() -> SnapshotVerdict {
    SnapshotVerdict::from_diff(Err("bitcoin_node_image_url differs".to_string()))
}

#[test]
fn verdict_from_diff_keeps_reason() {
    let v = compatible();
    assert!(v.compatible);
    assert!(v.reason.is_none());
    let v = incompatible();
    assert!(!v.compatible);
    assert_eq!(v.reason.as_deref(), Some("bitcoin_node_image_url differs"));
}

#[test]
fn ready_marker_name() {
    assert_eq!(snapshot_ready_marker(), "epoch_3_ready");
}

#[test]
fn incompatible_snapshot_warns_once_and_skips_extraction() {
    for ready in [false, true] {
        let plan = plan_snapshot(&incompatible(), true, false, ready, 42);
        assert!(!plan.extract);
        assert_eq!(plan.notices.len(), 1);
        assert_eq!(plan.notices[0].level, LogLevel::Warning);
        assert_eq!(plan.notices[0].message, "Default snapshot can not be used");
        assert_eq!(plan.notices[0].timestamp, 42);
    }
}

#[test]
fn skipped_stage_is_silent_even_when_incompatible() {
    for (start_local, no_snapshot) in [(false, false), (false, true), (true, true)] {
        for ready in [false, true] {
            let plan = plan_snapshot(&incompatible(), start_local, no_snapshot, ready, 42);
            assert!(!plan.extract);
            assert!(plan.notices.is_empty());
        }
    }
}

#[test]
fn missing_cache_triggers_extraction() {
    let plan = plan_snapshot(&compatible(), true, false, false, 7);
    assert!(plan.extract);
    assert_eq!(plan.notices.len(), 1);
    assert_eq!(plan.notices[0].level, LogLevel::Info);
    assert_eq!(
        plan.notices[0].message,
        "No existing snapshot found, extracting embedded snapshot data..."
    );
}

#[test]
fn ready_cache_is_used_silently() {
    let plan = plan_snapshot(&compatible(), true, false, true, 7);
    assert!(!plan.extract);
    assert!(plan.notices.is_empty());
}

#[test]
fn opting_out_or_remote_cluster_skips_cache() {
    let plan = plan_snapshot(&compatible(), true, true, false, 7);
    assert!(!plan.extract);
    assert!(plan.notices.is_empty());
    let plan = plan_snapshot(&compatible(), false, false, false, 7);
    assert!(!plan.extract);
    assert!(plan.notices.is_empty());
}

#[test]
fn extraction_reports() {
    let r = extraction_report(&ExtractionOutcome::Extracted, 1);
    assert_eq!(r.level, LogLevel::Success);
    assert_eq!(r.message, "Embedded snapshot extracted successfully");
    assert_eq!(r.timestamp, 1);
    let r = extraction_report(&ExtractionOutcome::Unavailable, 2);
    assert_eq!(r.level, LogLevel::Warning);
    assert_eq!(r.message, "No embedded snapshot available");
    let r = extraction_report(&ExtractionOutcome::Failed("disk full".to_string()), 3);
    assert_eq!(r.level, LogLevel::Warning);
    assert_eq!(
        r.message,
        "Failed to extract embedded snapshot: disk full. Continuing without snapshot."
    );
    assert_eq!(r.timestamp, 3);
}

#[test]
fn extractor_results_read_as_outcomes() {
    assert!(matches!(ExtractionOutcome::from_result(Ok(true)), ExtractionOutcome::Extracted));
    assert!(matches!(ExtractionOutcome::from_result(Ok(false)), ExtractionOutcome::Unavailable));
    assert!(matches!(
        ExtractionOutcome::from_result(Err("corrupt archive".to_string())),
        ExtractionOutcome::Failed(ref e) if e == "corrupt archive"
    ));
}
