use vstd::prelude::*;
use vstd::string::StringExecFns;

use crate::event::LogLevel;
use crate::snapshot::{
    incompatible_message, plan_snapshot, should_extract, snapshot_notices, stage_runs, SnapshotPlan,
    SnapshotVerdict,
};
use crate::workers::{cluster_launch, launch_for, ClusterLaunch};

verus! {

/// The part of the resolved network configuration that the session reads.
#[derive(Debug, Clone)]
pub struct DevnetSettings {
    pub working_dir: String,
    pub bitcoin_controller_automining_disabled: bool,
    pub enable_subnet_node: bool,
}

impl DevnetSettings {
    pub open spec fn automining_spec(&self) -> bool {
        !self.bitcoin_controller_automining_disabled
    }

    /// Whether the coordinator mines blocks by itself once boot has completed.
    #[verifier::when_used_as_spec(automining_spec)]
    pub fn automining(&self) -> (r: bool)
        ensures
            r == self.automining_spec(),
    {
        !self.bitcoin_controller_automining_disabled
    }
}

pub open spec fn missing_config_message() -> Seq<char> {
    "Unable to retrieve config"@
}

/// Picks the devnet settings out of the network configuration, which may be
/// absent or lack a devnet section; either way the run cannot start.
pub fn resolve_devnet_config(network: Option<Option<DevnetSettings>>) -> (r: Result<DevnetSettings, String>)
    ensures
        match network {
            Some(Some(d)) => r == Ok::<DevnetSettings, String>(d),
            _ => r matches Err(e) && e@ == missing_config_message(),
        },
{
    match network {
        Some(Some(d)) => Ok(d),
        _ => Err(String::from_str("Unable to retrieve config")),
    }
}

/// Who consumes the event bus.
#[derive(Debug, Clone, Copy, PartialEq, Eq, Structural)]
pub enum SessionMode {
    /// The interactive dashboard.
    Dashboard,
    /// The headless relay loop, which also handles the interrupt signal.
    Headless,
    /// The caller, through the handles returned to it.
    External,
}

pub open spec fn mode_for(display_dashboard: bool, has_log_sink: bool) -> SessionMode {
    if display_dashboard {
        SessionMode::Dashboard
    } else if has_log_sink {
        SessionMode::External
    } else {
        SessionMode::Headless
    }
}

pub fn session_mode(display_dashboard: bool, has_log_sink: bool) -> (r: SessionMode)
    ensures
        r == mode_for(display_dashboard, has_log_sink),
{
    if display_dashboard {
        SessionMode::Dashboard
    } else if has_log_sink {
        SessionMode::External
    } else {
        SessionMode::Headless
    }
}

/// The channel ends that a session hands back to its caller when it returns
/// successfully: the bus receiver, the cluster terminator and the chains
/// coordinator's command sender.
#[derive(Debug, Clone, Copy, PartialEq, Eq, Structural)]
pub struct HandedBack {
    pub events: bool,
    pub terminator: bool,
    pub coordinator_commands: bool,
}

pub open spec fn handed_back_for(mode: SessionMode) -> HandedBack {
    match mode {
        SessionMode::Dashboard => HandedBack { events: false, terminator: false, coordinator_commands: true },
        SessionMode::Headless => HandedBack { events: false, terminator: false, coordinator_commands: false },
        SessionMode::External => HandedBack { events: true, terminator: true, coordinator_commands: true },
    }
}

impl SessionMode {
    /// Only the headless relay loop installs the interrupt handler that runs
    /// the shutdown cascade.
    pub fn installs_interrupt_handler(&self) -> (r: bool)
        ensures
            r == (*self == SessionMode::Headless),
    {
        match self {
            SessionMode::Headless => true,
            _ => false,
        }
    }

    pub fn handed_back(&self) -> (r: HandedBack)
        ensures
            r == handed_back_for(*self),
    {
        match self {
            SessionMode::Dashboard => HandedBack { events: false, terminator: false, coordinator_commands: true },
            SessionMode::Headless => HandedBack { events: false, terminator: false, coordinator_commands: false },
            SessionMode::External => HandedBack { events: true, terminator: true, coordinator_commands: true },
        }
    }
}

/// Where the process's trace output goes.
#[derive(Debug, Clone)]
pub enum LogDestination {
    /// A file that is never rotated.
    File { directory: String, file_name: String },
    /// Standard output.
    Stdout,
}

/// When the session starts every local service, traces go to
/// `networking.log` in the working directory; otherwise to standard output.
pub fn log_destination(settings: &DevnetSettings, start_local_services: bool) -> (r: LogDestination)
    ensures
        start_local_services ==> (r matches LogDestination::File { directory, file_name }
            && directory@ == settings.working_dir@ && file_name@ == "networking.log"@),
        !start_local_services ==> r is Stdout,
{
    if start_local_services {
        LogDestination::File {
            directory: settings.working_dir.clone(),
            file_name: String::from_str("networking.log"),
        }
    } else {
        LogDestination::Stdout
    }
}

/// Everything the session decides before it spawns a worker.
#[derive(Debug)]
pub struct StartupPlan {
    pub snapshot: SnapshotPlan,
    pub launch: ClusterLaunch,
    pub mode: SessionMode,
    pub log: LogDestination,
    /// Whether the chains coordinator may use snapshots.
    pub coordinator_uses_snapshot: bool,
}

/// Plans a session from its settings, the snapshot verdict, whether the ready
/// marker of the snapshot cache exists, and the caller's options.
pub fn plan_startup(
    settings: &DevnetSettings,
    verdict: &SnapshotVerdict,
    start_local_services: bool,
    no_snapshot: bool,
    ready_marker_exists: bool,
    display_dashboard: bool,
    has_log_sink: bool,
    timestamp: u64,
) -> (r: StartupPlan)
    ensures
        r.snapshot.extract == should_extract(
            start_local_services,
            no_snapshot,
            verdict.compatible,
            ready_marker_exists,
        ),
        r.snapshot.notices@.len() == snapshot_notices(
            start_local_services,
            no_snapshot,
            verdict.compatible,
            ready_marker_exists,
        ).len(),
        forall|i: int|
            0 <= i < r.snapshot.notices@.len() ==> ((#[trigger] r.snapshot.notices@[i]).level, r.snapshot.notices@[i].message@)
                == snapshot_notices(
                start_local_services,
                no_snapshot,
                verdict.compatible,
                ready_marker_exists,
            )[i],
        forall|i: int|
            0 <= i < r.snapshot.notices@.len() ==> (#[trigger] r.snapshot.notices@[i]).timestamp
                == timestamp,
        r.launch == launch_for(start_local_services),
        r.mode == mode_for(display_dashboard, has_log_sink),
        start_local_services ==> (r.log matches LogDestination::File { directory, file_name }
            && directory@ == settings.working_dir@ && file_name@ == "networking.log"@),
        !start_local_services ==> r.log is Stdout,
        r.coordinator_uses_snapshot == !no_snapshot,
{
    let snapshot = plan_snapshot(
        verdict,
        start_local_services,
        no_snapshot,
        ready_marker_exists,
        timestamp,
    );
    StartupPlan {
        snapshot,
        launch: cluster_launch(start_local_services),
        mode: session_mode(display_dashboard, has_log_sink),
        log: log_destination(settings, start_local_services),
        coordinator_uses_snapshot: !no_snapshot,
    }
}

/// An incompatible snapshot never stops a run. Where the snapshot stage
/// runs, it reports exactly one warning and extracts nothing; where it does
/// not run, it reports nothing. Either way the cluster is launched as it
/// would be with a compatible snapshot.
pub proof fn lemma_incompatible_snapshot_is_not_fatal(
    start_local_services: bool,
    no_snapshot: bool,
    ready_marker_exists: bool,
)
    ensures
        stage_runs(start_local_services, no_snapshot) ==> snapshot_notices(
            start_local_services,
            no_snapshot,
            false,
            ready_marker_exists,
        ) == seq![(LogLevel::Warning, incompatible_message())],
        !stage_runs(start_local_services, no_snapshot) ==> snapshot_notices(
            start_local_services,
            no_snapshot,
            false,
            ready_marker_exists,
        ) == Seq::<(LogLevel, Seq<char>)>::empty(),
        !should_extract(start_local_services, no_snapshot, false, ready_marker_exists),
        launch_for(start_local_services) == if start_local_services {
            ClusterLaunch::FullCluster
        } else {
            ClusterLaunch::BaseChainOnly
        },
{
    assert(seq![] =~= Seq::<(LogLevel, Seq<char>)>::empty());
}

} // verus!
