pub mod event;
pub mod relay;
pub mod session;
pub mod shutdown;
pub mod snapshot;
pub mod workers;

pub use event::{BitcoinMiningCommand, ChainsCoordinatorCommand, DevnetEvent, LogData, LogLevel};
pub use relay::{log_route, HeadlessRelay, LogRoute, RelayAction};
pub use session::{
    log_destination, plan_startup, resolve_devnet_config, session_mode, DevnetSettings,
    HandedBack, LogDestination, SessionMode, StartupPlan,
};
pub use shutdown::{
    Delivery, InterruptCascade, SessionPhase, ShutdownAction, ShutdownCoordinator,
    TerminationResponse, TerminationTrigger, GRACE_PERIOD_SECS,
};
pub use snapshot::{
    extraction_report, plan_snapshot, snapshot_ready_marker, ExtractionOutcome, SnapshotPlan,
    SnapshotVerdict,
};
pub use workers::{
    cluster_launch, join_outcome, on_cluster_exit, on_coordinator_exit, worker_error,
    ClusterExitPlan, ClusterLaunch, CoordinatorExitPlan, WorkerExit,
};
