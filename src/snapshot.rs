use vstd::prelude::*;
use vstd::string::StringExecFns;

use crate::event::{LogData, LogLevel};

verus! {

/// Name of the file whose presence in the global snapshot directory marks an
/// extracted, ready-to-use snapshot.
pub fn snapshot_ready_marker() -> (r: &'static str)
    ensures
        r@ == "epoch_3_ready"@,
{
    "epoch_3_ready"
}

/// Whether a cached chain-state snapshot may be used with the requested
/// network configuration, and why not when it may not.
#[derive(Debug, Clone)]
pub struct SnapshotVerdict {
    pub compatible: bool,
    pub reason: Option<String>,
}

/// What became of an attempt to extract the bundled snapshot.
#[derive(Debug, Clone)]
pub enum ExtractionOutcome {
    Extracted,
    Unavailable,
    Failed(String),
}

/// What the snapshot stage decided before any node starts: the log records to
/// put on the bus, in order, and whether the bundled snapshot is to be extracted.
#[derive(Debug)]
pub struct SnapshotPlan {
    pub notices: Vec<LogData>,
    pub extract: bool,
}

pub open spec fn incompatible_message() -> Seq<char> {
    "Default snapshot can not be used"@
}

pub open spec fn extracting_message() -> Seq<char> {
    "No existing snapshot found, extracting embedded snapshot data..."@
}

pub open spec fn extracted_message() -> Seq<char> {
    "Embedded snapshot extracted successfully"@
}

pub open spec fn unavailable_message() -> Seq<char> {
    "No embedded snapshot available"@
}

pub open spec fn extraction_failed_message(detail: Seq<char>) -> Seq<char> {
    "Failed to extract embedded snapshot: "@ + detail + ". Continuing without snapshot."@
}

/// The snapshot stage runs only when local services are being started and
/// snapshots are not opted out of; otherwise it does nothing at all.
pub open spec fn stage_runs(start_local_services: bool, no_snapshot: bool) -> bool {
    start_local_services && !no_snapshot
}

/// When the stage runs, it looks at the cache only if the cached
/// configuration is compatible.
pub open spec fn cache_considered(start_local_services: bool, no_snapshot: bool, compatible: bool) -> bool {
    stage_runs(start_local_services, no_snapshot) && compatible
}

pub open spec fn should_extract(
    start_local_services: bool,
    no_snapshot: bool,
    compatible: bool,
    ready_marker_exists: bool,
) -> bool {
    cache_considered(start_local_services, no_snapshot, compatible) && !ready_marker_exists
}

/// The records that the snapshot stage emits before any extraction, as
/// (level, message): none when the stage does not run.
pub open spec fn snapshot_notices(
    start_local_services: bool,
    no_snapshot: bool,
    compatible: bool,
    ready_marker_exists: bool,
) -> Seq<(LogLevel, Seq<char>)> {
    if !stage_runs(start_local_services, no_snapshot) {
        seq![]
    } else if !compatible {
        seq![(LogLevel::Warning, incompatible_message())]
    } else if should_extract(start_local_services, no_snapshot, compatible, ready_marker_exists) {
        seq![(LogLevel::Info, extracting_message())]
    } else {
        seq![]
    }
}

/// The record that reports an extraction outcome, as (level, message).
pub open spec fn extraction_notice(outcome: ExtractionOutcome) -> (LogLevel, Seq<char>) {
    match outcome {
        ExtractionOutcome::Extracted => (LogLevel::Success, extracted_message()),
        ExtractionOutcome::Unavailable => (LogLevel::Warning, unavailable_message()),
        ExtractionOutcome::Failed(e) => (LogLevel::Warning, extraction_failed_message(e@)),
    }
}

impl SnapshotVerdict {
    /// Reads the outcome of a configuration comparison: `Ok` when the cached
    /// snapshot fits, `Err` with the differences otherwise.
    pub fn from_diff(diff: Result<(), String>) -> (r: SnapshotVerdict)
        ensures
            r.compatible == diff is Ok,
            match diff {
                Ok(_) => r.reason is None,
                Err(e) => r.reason == Some(e),
            },
    {
        match diff {
            Ok(()) => SnapshotVerdict { compatible: true, reason: None },
            Err(e) => SnapshotVerdict { compatible: false, reason: Some(e) },
        }
    }
}

impl ExtractionOutcome {
    /// Reads an extractor's result: `Ok(true)` when a bundled snapshot was
    /// extracted, `Ok(false)` when none is bundled, `Err` with the failure.
    pub fn from_result(result: Result<bool, String>) -> (r: ExtractionOutcome)
        ensures
            match result {
                Ok(true) => r is Extracted,
                Ok(false) => r is Unavailable,
                Err(e) => r == ExtractionOutcome::Failed(e),
            },
    {
        match result {
            Ok(true) => ExtractionOutcome::Extracted,
            Ok(false) => ExtractionOutcome::Unavailable,
            Err(e) => ExtractionOutcome::Failed(e),
        }
    }
}

/// Decides what the snapshot stage reports and whether it extracts the bundled
/// snapshot. It never fails: every snapshot problem degrades to a warning.
pub fn plan_snapshot(
    verdict: &SnapshotVerdict,
    start_local_services: bool,
    no_snapshot: bool,
    ready_marker_exists: bool,
    timestamp: u64,
) -> (r: SnapshotPlan)
    ensures
        r.extract == should_extract(
            start_local_services,
            no_snapshot,
            verdict.compatible,
            ready_marker_exists,
        ),
        r.notices@.len() == snapshot_notices(
            start_local_services,
            no_snapshot,
            verdict.compatible,
            ready_marker_exists,
        ).len(),
        forall|i: int|
            0 <= i < r.notices@.len() ==> ((#[trigger] r.notices@[i]).level, r.notices@[i].message@)
                == snapshot_notices(
                start_local_services,
                no_snapshot,
                verdict.compatible,
                ready_marker_exists,
            )[i],
        forall|i: int| 0 <= i < r.notices@.len() ==> (#[trigger] r.notices@[i]).timestamp == timestamp,
{
    let mut notices: Vec<LogData> = Vec::new();
    let runs = start_local_services && !no_snapshot;
    if runs && !verdict.compatible {
        notices.push(
            LogData::new(
                LogLevel::Warning,
                String::from_str("Default snapshot can not be used"),
                timestamp,
            ),
        );
    }
    let extract = runs && verdict.compatible && !ready_marker_exists;
    if extract {
        notices.push(
            LogData::new(
                LogLevel::Info,
                String::from_str("No existing snapshot found, extracting embedded snapshot data..."),
                timestamp,
            ),
        );
    }
    SnapshotPlan { notices, extract }
}

/// The record that reports how extracting the bundled snapshot went. Neither
/// outcome is fatal: the run continues with or without a snapshot.
pub fn extraction_report(outcome: &ExtractionOutcome, timestamp: u64) -> (r: LogData)
    ensures
        (r.level, r.message@) == extraction_notice(*outcome),
        r.timestamp == timestamp,
{
    match outcome {
        ExtractionOutcome::Extracted => LogData::new(
            LogLevel::Success,
            String::from_str("Embedded snapshot extracted successfully"),
            timestamp,
        ),
        ExtractionOutcome::Unavailable => LogData::new(
            LogLevel::Warning,
            String::from_str("No embedded snapshot available"),
            timestamp,
        ),
        ExtractionOutcome::Failed(e) => {
            let mut message = String::from_str("Failed to extract embedded snapshot: ");
            message.append(e.as_str());
            message.append(". Continuing without snapshot.");
            LogData::new(LogLevel::Warning, message, timestamp)
        },
    }
}

} // verus!
