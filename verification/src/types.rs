//! What clients ask of the master, what they are answered, and what the master asks
//! of the command center.
use vstd::prelude::*;

verus! {

/// A request of a client.
#[derive(Debug, PartialEq, Eq)]
pub enum MasterRequest {
    /// Ask whether the master is there.
    Ping,
    /// Start a service.
    Start(String),
    /// Reload a service, letting its workers finish.
    Reload(String),
    /// Reload a service at once.
    Restart(String),
    /// Stop a service.
    Stop(String),
    /// Pause a service.
    Pause(String),
    /// Resume a paused service.
    Resume(String),
    /// Ask for the status of a service.
    Status(String),
    /// Ask for the process ids of a service's workers.
    SPid(String),
    /// Ask for the process id of the master.
    Pid,
    /// Ask for the name and version of the master.
    Version,
    /// Stop the master.
    Quit,
}

/// An answer to a client. `S` is what the command center reports as a service's
/// status, `P` what it reports as the process ids of its workers: both are passed on
/// as they come.
#[derive(Debug, PartialEq, Eq)]
pub enum MasterResponse<S, P> {
    /// The master is there; also its heartbeat.
    Pong,
    /// The request has been carried out.
    Done,
    /// The process id of the master, in decimal.
    Pid(String),
    /// The name and version of the master.
    Version(String),
    /// The service runs.
    ServiceStarted,
    /// The service has been stopped.
    ServiceStopped,
    /// The service did not come up.
    ServiceFailed,
    /// The status of the service.
    ServiceStatus(S),
    /// The process ids of the service's workers.
    ServiceWorkerPids(P),
    /// Refused: the command center is not ready.
    ErrorNotReady,
    /// Refused: there is no such service.
    ErrorUnknownService,
    /// Refused: the service is being started.
    ErrorServiceStarting,
    /// Refused: the service is being reloaded.
    ErrorServiceReloading,
    /// Refused: the service is being stopped.
    ErrorServiceStopping,
    /// Refused: the service runs.
    ErrorServiceRunning,
    /// Refused: the service is stopped.
    ErrorServiceStopped,
    /// Refused: the service has failed.
    ErrorServiceFailed,
}

/// A request to the command center.
#[derive(Debug, PartialEq, Eq)]
pub enum Command {
    /// Start the named service.
    StartService(String),
    /// Reload the named service, gracefully or not.
    ReloadService(String, bool),
    /// Stop the named service, gracefully or not.
    StopService(String, bool),
    /// Pause the named service.
    PauseService(String),
    /// Resume the named service.
    ResumeService(String),
    /// Report the status of the named service.
    StatusService(String),
    /// Report the process ids of the named service's workers.
    ServicePids(String),
    /// Stop all services and the master.
    Stop,
}

/// Why the command center refused a command.
#[derive(Clone, Copy, Debug, PartialEq, Eq)]
pub enum CommandError {
    /// It is not ready.
    NotReady,
    /// It has no such service.
    UnknownService,
    /// The service is stopped.
    ServiceStopped,
    /// The service refused.
    Service(ServiceOperationError),
}

/// The state in which a service refused a command.
#[derive(Clone, Copy, Debug, PartialEq, Eq)]
pub enum ServiceOperationError {
    /// It is being started.
    Starting,
    /// It is being reloaded.
    Reloading,
    /// It is being stopped.
    Stopping,
    /// It runs.
    Running,
    /// It is stopped.
    Stopped,
    /// It has failed.
    Failed,
}

/// How starting a service ended.
#[derive(Clone, Copy, Debug, PartialEq, Eq)]
pub enum StartStatus {
    /// The service runs.
    Success,
    /// The service did not come up.
    Failed,
    /// The service was stopped meanwhile.
    Stopping,
}

/// How reloading a service ended.
#[derive(Clone, Copy, Debug, PartialEq, Eq)]
pub enum ReloadStatus {
    /// The service runs.
    Success,
    /// The service did not come up.
    Failed,
    /// The service was stopped meanwhile.
    Stopping,
}

/// The name and version of the program.
#[derive(Debug, PartialEq, Eq)]
pub struct PkgInfo {
    /// Its name.
    pub name: String,
    /// Its version.
    pub version: String,
}

} // verus!
