use vstd::prelude::*;

verus! {

/// Commands understood by the chains coordinator worker.
#[derive(Debug, Clone, Copy, PartialEq, Eq, Structural)]
pub enum ChainsCoordinatorCommand {
    Terminate,
}

/// Commands sent to the base-chain miner through the mining control handle.
#[derive(Debug, Clone, Copy, PartialEq, Eq, Structural)]
pub enum BitcoinMiningCommand {
    Start,
    Pause,
}

/// Severity of a log record travelling on the event bus.
#[derive(Debug, Clone, Copy, PartialEq, Eq, Structural)]
pub enum LogLevel {
    Debug,
    Info,
    Success,
    Warning,
    Error,
}

/// A log record. `timestamp` is the producer's clock reading, in seconds since
/// the Unix epoch; the library never reads the clock itself.
#[derive(Debug, Clone)]
pub struct LogData {
    pub level: LogLevel,
    pub message: String,
    pub timestamp: u64,
}

/// An event on the devnet event bus. `M` is the mining control handle carried
/// by `BootCompleted`.
#[derive(Debug)]
pub enum DevnetEvent<M> {
    Log(LogData),
    BootCompleted(M),
    FatalError(String),
    Terminate,
}

impl LogData {
    pub fn new(level: LogLevel, message: String, timestamp: u64) -> (r: LogData)
        ensures
            r.level == level,
            r.message@ == message@,
            r.timestamp == timestamp,
    {
        LogData { level, message, timestamp }
    }
}

impl<M> DevnetEvent<M> {
    pub open spec fn is_terminal(&self) -> bool {
        self is FatalError || self is Terminate
    }

    pub fn log(level: LogLevel, message: String, timestamp: u64) -> (r: DevnetEvent<M>)
        ensures
            r matches DevnetEvent::Log(l) && l.level == level && l.message@ == message@
                && l.timestamp == timestamp,
    {
        DevnetEvent::Log(LogData::new(level, message, timestamp))
    }

    pub fn info(message: String, timestamp: u64) -> (r: DevnetEvent<M>)
        ensures
            r matches DevnetEvent::Log(l) && l.level == LogLevel::Info && l.message@ == message@
                && l.timestamp == timestamp,
    {
        Self::log(LogLevel::Info, message, timestamp)
    }

    pub fn success(message: String, timestamp: u64) -> (r: DevnetEvent<M>)
        ensures
            r matches DevnetEvent::Log(l) && l.level == LogLevel::Success && l.message@
                == message@ && l.timestamp == timestamp,
    {
        Self::log(LogLevel::Success, message, timestamp)
    }

    pub fn warning(message: String, timestamp: u64) -> (r: DevnetEvent<M>)
        ensures
            r matches DevnetEvent::Log(l) && l.level == LogLevel::Warning && l.message@
                == message@ && l.timestamp == timestamp,
    {
        Self::log(LogLevel::Warning, message, timestamp)
    }

    pub fn error(message: String, timestamp: u64) -> (r: DevnetEvent<M>)
        ensures
            r matches DevnetEvent::Log(l) && l.level == LogLevel::Error && l.message@
                == message@ && l.timestamp == timestamp,
    {
        Self::log(LogLevel::Error, message, timestamp)
    }
}

} // verus!
