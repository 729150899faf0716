use vstd::prelude::*;
use vstd::string::StringExecFns;

verus! {

/// Which operation of the node cluster controller the cluster worker runs.
#[derive(Debug, Clone, Copy, PartialEq, Eq, Structural)]
pub enum ClusterLaunch {
    /// Bring up every configured node; runs until terminated.
    FullCluster,
    /// Initialize only the base-chain node, when attaching to an externally
    /// coordinated cluster.
    BaseChainOnly,
}

pub open spec fn launch_for(start_local_services: bool) -> ClusterLaunch {
    if start_local_services {
        ClusterLaunch::FullCluster
    } else {
        ClusterLaunch::BaseChainOnly
    }
}

pub fn cluster_launch(start_local_services: bool) -> (r: ClusterLaunch)
    ensures
        r == launch_for(start_local_services),
{
    if start_local_services {
        ClusterLaunch::FullCluster
    } else {
        ClusterLaunch::BaseChainOnly
    }
}

/// What the cluster worker does after the controller returns: on an error,
/// put a `FatalError` with its message on the bus and tell the chains
/// coordinator to terminate, so that no worker is left running unattended.
#[derive(Debug)]
pub struct ClusterExitPlan {
    pub fatal_error: Option<String>,
    pub stop_coordinator: bool,
}

pub fn on_cluster_exit(result: &Result<(), String>) -> (r: ClusterExitPlan)
    ensures
        match result {
            Ok(_) => r.fatal_error is None && !r.stop_coordinator,
            Err(e) => r.fatal_error == Some(*e) && r.stop_coordinator,
        },
{
    match result {
        Ok(()) => ClusterExitPlan { fatal_error: None, stop_coordinator: false },
        Err(e) => ClusterExitPlan { fatal_error: Some(e.clone()), stop_coordinator: true },
    }
}

/// What the chains coordinator worker does after its run loop returns: on an
/// error, put a `FatalError` with its message on the bus and signal the node
/// cluster to terminate, so that the consumer loop ends and no node is left
/// running unattended.
#[derive(Debug)]
pub struct CoordinatorExitPlan {
    pub fatal_error: Option<String>,
    pub stop_cluster: bool,
}

pub fn on_coordinator_exit(result: &Result<(), String>) -> (r: CoordinatorExitPlan)
    ensures
        match result {
            Ok(_) => r.fatal_error is None && !r.stop_cluster,
            Err(e) => r.fatal_error == Some(*e) && r.stop_cluster,
        },
{
    match result {
        Ok(()) => CoordinatorExitPlan { fatal_error: None, stop_cluster: false },
        Err(e) => CoordinatorExitPlan { fatal_error: Some(e.clone()), stop_cluster: true },
    }
}

/// How a worker thread ended, as seen when it is joined.
#[derive(Debug, Clone)]
pub enum WorkerExit {
    /// It returned `Ok`.
    Completed,
    /// It returned `Err` with this message.
    Failed(String),
    /// It ended abnormally; the message it carried, when one could be recovered.
    Panicked(Option<String>),
}

pub open spec fn join_failure_message() -> Seq<char> {
    "worker thread terminated abnormally"@
}

/// The error a joined worker contributes to the run, if any.
pub open spec fn exit_error(exit: WorkerExit) -> Option<Seq<char>> {
    match exit {
        WorkerExit::Completed => None,
        WorkerExit::Failed(m) => Some(m@),
        WorkerExit::Panicked(Some(m)) => Some(m@),
        WorkerExit::Panicked(None) => Some(join_failure_message()),
    }
}

pub fn worker_error(exit: WorkerExit) -> (r: Option<String>)
    ensures
        match r {
            None => exit_error(exit) is None,
            Some(m) => exit_error(exit) == Some(m@),
        },
{
    match exit {
        WorkerExit::Completed => None,
        WorkerExit::Failed(m) => Some(m),
        WorkerExit::Panicked(Some(m)) => Some(m),
        WorkerExit::Panicked(None) => Some(String::from_str("worker thread terminated abnormally")),
    }
}

/// The run's result once both workers are joined, the chains coordinator
/// first: the first error found, carrying its message; `Ok` when both
/// completed.
pub fn join_outcome(coordinator: WorkerExit, cluster: WorkerExit) -> (r: Result<(), String>)
    ensures
        match exit_error(coordinator) {
            Some(m) => r matches Err(e) && e@ == m,
            None => match exit_error(cluster) {
                Some(m) => r matches Err(e) && e@ == m,
                None => r is Ok,
            },
        },
{
    match worker_error(coordinator) {
        Some(m) => Err(m),
        None => match worker_error(cluster) {
            Some(m) => Err(m),
            None => Ok(()),
        },
    }
}

} // verus!
