use stacks_network::{
    cluster_launch, join_outcome, on_cluster_exit, on_coordinator_exit, worker_error,
    ClusterLaunch, WorkerExit,
};

#[test]
fn launch_depends_on_local_services() {
    assert_eq!(cluster_launch(true), ClusterLaunch::FullCluster);
    assert_eq!(cluster_launch(false), ClusterLaunch::BaseChainOnly);
}

#[test]
fn cluster_success_needs_nothing() {
    let plan = on_cluster_exit(&Ok(()));
    assert!(plan.fatal_error.is_none());
    assert!(!plan.stop_coordinator);
}

#[test]
fn cluster_failure_reports_and_stops_coordinator() {
    let plan = on_cluster_exit(&Err("port in use".to_string()));
    assert_eq!(plan.fatal_error.as_deref(), Some("port in use"));
    assert!(plan.stop_coordinator);
}

#[test]
fn worker_errors() {
    assert_eq!(worker_error(WorkerExit::Completed), None);
    assert_eq!(worker_error(WorkerExit::Failed("bad".to_string())).as_deref(), Some("bad"));
    assert_eq!(
        worker_error(WorkerExit::Panicked(Some("oops".to_string()))).as_deref(),
        Some("oops")
    );
    assert_eq!(
        worker_error(WorkerExit::Panicked(None)).as_deref(),
        Some("worker thread terminated abnormally")
    );
}

#[test]
fn join_reports_first_error() {
    assert_eq!(join_outcome(WorkerExit::Completed, WorkerExit::Completed), Ok(()));
    assert_eq!(
        join_outcome(WorkerExit::Completed, WorkerExit::Failed("cluster".to_string())),
        Err("cluster".to_string())
    );
    assert_eq!(
        join_outcome(
            WorkerExit::Panicked(Some("coordinator".to_string())),
            WorkerExit::Failed("cluster".to_string())
        ),
        Err("coordinator".to_string())
    );
    assert_eq!(
        join_outcome(WorkerExit::Panicked(None), WorkerExit::Completed),
        Err("worker thread terminated abnormally".to_string())
    );
}

#[test]
fn coordinator_success_needs_nothing() {
    let plan = on_coordinator_exit(&Ok(()));
    assert!(plan.fatal_error.is_none());
    assert!(!plan.stop_cluster);
}

#[test]
fn coordinator_failure_reports_and_stops_cluster() {
    let plan = on_coordinator_exit(&Err("observer crashed".to_string()));
    assert_eq!(plan.fatal_error.as_deref(), Some("observer crashed"));
    assert!(plan.stop_cluster);
}
