//! A session with one client: what is done with its requests, what it is answered
//! when the command center replies, and the heartbeat that keeps it informed.
use vstd::prelude::*;
use vstd::string::StringExecFns;
use crate::process::{decimal, is_own_pid, own_pid, reads_as, to_decimal};
use crate::types::{
    Command, CommandError, MasterRequest, MasterResponse, PkgInfo, ReloadStatus,
    ServiceOperationError, StartStatus,
};

verus! {

/// The time between two heartbeats, in seconds.
pub const HEARTBEAT_SECS: u64 = 1;

/// What a session asks of the program around it.
#[derive(Debug, PartialEq, Eq)]
pub enum ClientAction<S, P> {
    /// Send the answer to the client.
    Send(MasterResponse<S, P>),
    /// Hand the command to the command center, and its reply to the session.
    Call(Command),
    /// Wake the session for its heartbeat in as many seconds.
    Schedule(u64),
    /// End the session.
    Stop,
}

/// The reply of the command center to a command: what it came to or why it was
/// refused, where the reply arrived at all.
pub type Reply<T, E> = Result<Result<T, CommandError>, E>;

/// The reply of the command center, by the command that it answers. What it replies
/// when told to stop does not matter.
#[derive(Debug, PartialEq, Eq)]
pub enum CommandReply<S, P, E> {
    /// The reply to `StartService`.
    Start(Reply<StartStatus, E>),
    /// The reply to `ReloadService`.
    Reload(Reply<ReloadStatus, E>),
    /// The reply to `StopService`.
    Stop(Reply<(), E>),
    /// The reply to `PauseService`.
    Pause(Reply<(), E>),
    /// The reply to `ResumeService`.
    Resume(Reply<(), E>),
    /// The reply to `StatusService`.
    Status(Reply<S, E>),
    /// The reply to `ServicePids`.
    Pids(Reply<P, E>),
    /// The reply to `Stop`.
    Quit,
}

/// What a client is told of a refusal.
pub open spec fn error_response<S, P>(err: CommandError) -> MasterResponse<S, P> {
    match err {
        CommandError::NotReady => MasterResponse::ErrorNotReady,
        CommandError::UnknownService => MasterResponse::ErrorUnknownService,
        CommandError::ServiceStopped => MasterResponse::ErrorServiceStopped,
        CommandError::Service(ServiceOperationError::Starting) => {
            MasterResponse::ErrorServiceStarting
        },
        CommandError::Service(ServiceOperationError::Reloading) => {
            MasterResponse::ErrorServiceReloading
        },
        CommandError::Service(ServiceOperationError::Stopping) => {
            MasterResponse::ErrorServiceStopping
        },
        CommandError::Service(ServiceOperationError::Running) => {
            MasterResponse::ErrorServiceRunning
        },
        CommandError::Service(ServiceOperationError::Stopped) => {
            MasterResponse::ErrorServiceStopped
        },
        CommandError::Service(ServiceOperationError::Failed) => MasterResponse::ErrorServiceFailed,
    }
}

/// The command that carries out a request, where the session does not answer it
/// itself.
pub open spec fn command_for(msg: MasterRequest) -> Option<Command> {
    match msg {
        MasterRequest::Ping | MasterRequest::Pid | MasterRequest::Version => None,
        MasterRequest::Start(name) => Some(Command::StartService(name)),
        MasterRequest::Reload(name) => Some(Command::ReloadService(name, true)),
        MasterRequest::Restart(name) => Some(Command::ReloadService(name, false)),
        MasterRequest::Stop(name) => Some(Command::StopService(name, true)),
        MasterRequest::Pause(name) => Some(Command::PauseService(name)),
        MasterRequest::Resume(name) => Some(Command::ResumeService(name)),
        MasterRequest::Status(name) => Some(Command::StatusService(name)),
        MasterRequest::SPid(name) => Some(Command::ServicePids(name)),
        MasterRequest::Quit => Some(Command::Stop),
    }
}

/// The answer where the reply reports that the command was carried out as `done`
/// says, or was refused. A reply that did not arrive is not answered.
pub open spec fn reply_response<T, S, P, E>(
    res: Reply<T, E>,
    done: spec_fn(T) -> MasterResponse<S, P>,
) -> Option<MasterResponse<S, P>> {
    match res {
        Err(_) => None,
        Ok(Err(err)) => Some(error_response(err)),
        Ok(Ok(value)) => Some(done(value)),
    }
}

/// What a client is told of a start.
pub open spec fn start_status_response<S, P>(status: StartStatus) -> MasterResponse<S, P> {
    match status {
        StartStatus::Success => MasterResponse::ServiceStarted,
        StartStatus::Failed => MasterResponse::ServiceFailed,
        StartStatus::Stopping => MasterResponse::ErrorServiceStopping,
    }
}

/// What a client is told of a reload.
pub open spec fn reload_status_response<S, P>(status: ReloadStatus) -> MasterResponse<S, P> {
    match status {
        ReloadStatus::Success => MasterResponse::ServiceStarted,
        ReloadStatus::Failed => MasterResponse::ServiceFailed,
        ReloadStatus::Stopping => MasterResponse::ErrorServiceStopping,
    }
}

/// The answer to a request to start a service.
pub open spec fn start_response<S, P, E>(res: Reply<StartStatus, E>) -> Option<
    MasterResponse<S, P>,
> {
    reply_response(res, |status: StartStatus| start_status_response(status))
}

/// The answer to a request to reload or restart a service.
pub open spec fn reload_response<S, P, E>(res: Reply<ReloadStatus, E>) -> Option<
    MasterResponse<S, P>,
> {
    reply_response(res, |status: ReloadStatus| reload_status_response(status))
}

/// The answer to a request to stop a service. That the service is stopped already is
/// told as `ServiceStarted`.
pub open spec fn stop_response<S, P, E>(res: Reply<(), E>) -> Option<MasterResponse<S, P>> {
    if res == Ok::<Result<(), CommandError>, E>(Err(CommandError::ServiceStopped)) {
        Some(MasterResponse::ServiceStarted)
    } else {
        reply_response(res, |_value: ()| MasterResponse::ServiceStopped)
    }
}

/// The answer to a request to pause or resume a service.
pub open spec fn done_response<S, P, E>(res: Reply<(), E>) -> Option<MasterResponse<S, P>> {
    reply_response(res, |_value: ()| MasterResponse::Done)
}

/// The answer to a request for the status of a service.
pub open spec fn status_response<S, P, E>(res: Reply<S, E>) -> Option<MasterResponse<S, P>> {
    reply_response(res, |status: S| MasterResponse::ServiceStatus(status))
}

/// The answer to a request for the process ids of a service's workers.
pub open spec fn pids_response<S, P, E>(res: Reply<P, E>) -> Option<MasterResponse<S, P>> {
    reply_response(res, |pids: P| MasterResponse::ServiceWorkerPids(pids))
}

/// The answer to the request whose command got the reply.
pub open spec fn response_to<S, P, E>(reply: CommandReply<S, P, E>) -> Option<
    MasterResponse<S, P>,
> {
    match reply {
        CommandReply::Start(res) => start_response(res),
        CommandReply::Reload(res) => reload_response(res),
        CommandReply::Stop(res) => stop_response(res),
        CommandReply::Pause(res) | CommandReply::Resume(res) => done_response(res),
        CommandReply::Status(res) => status_response(res),
        CommandReply::Pids(res) => pids_response(res),
        CommandReply::Quit => Some(MasterResponse::Done),
    }
}

/// What is done once a heartbeat went out, or did not.
pub open spec fn after_heartbeat<S, P>(sent: bool) -> Option<ClientAction<S, P>> {
    if sent {
        Some(ClientAction::Schedule(HEARTBEAT_SECS))
    } else {
        None
    }
}

/// A session with one client. `C` is the way to reach the command center.
pub struct MasterClient<C> {
    /// The way to reach the command center.
    pub cmd: C,
}

impl<C> MasterClient<C> {
    /// Asks for the next heartbeat.
    pub fn hb<S, P>(&self) -> (r: ClientAction<S, P>)
        ensures
            r == ClientAction::<S, P>::Schedule(HEARTBEAT_SECS),
            r == ClientAction::<S, P>::Schedule(1),
    {
        ClientAction::Schedule(HEARTBEAT_SECS)
    }

    /// The time of a heartbeat has come.
    pub fn hb_elapsed<S, P>(&self) -> (r: ClientAction<S, P>)
        ensures
            r == ClientAction::<S, P>::Send(MasterResponse::Pong),
    {
        ClientAction::Send(MasterResponse::Pong)
    }

    /// A heartbeat went out, or the client is gone and it did not.
    pub fn hb_sent<S, P>(&self, sent: bool) -> (r: Option<ClientAction<S, P>>)
        ensures
            r == after_heartbeat::<S, P>(sent),
            sent ==> r == Some(ClientAction::<S, P>::Schedule(1)),
            !sent ==> r is None,
    {
        if sent {
            Some(self.hb())
        } else {
            None
        }
    }

    /// The session has begun.
    pub fn started<S, P>(&mut self) -> (r: ClientAction<S, P>)
        ensures
            r == ClientAction::<S, P>::Schedule(HEARTBEAT_SECS),
            r == ClientAction::<S, P>::Schedule(1),
            *final(self) == *old(self),
    {
        self.hb()
    }

    /// The client will send no more requests.
    pub fn finished<S, P>(&mut self) -> (r: ClientAction<S, P>)
        ensures
            r == ClientAction::<S, P>::Stop,
            *final(self) == *old(self),
    {
        ClientAction::Stop
    }

    /// Reading from the client failed.
    pub fn error<S, P>(&mut self) -> (r: ClientAction<S, P>)
        ensures
            r == ClientAction::<S, P>::Stop,
            *final(self) == *old(self),
    {
        ClientAction::Stop
    }

    /// The answer to a refusal.
    pub fn handle_error<S, P>(&mut self, err: CommandError) -> (r: MasterResponse<S, P>)
        ensures
            r == error_response::<S, P>(err),
            r is ErrorNotReady <==> err is NotReady,
            r is ErrorUnknownService <==> err is UnknownService,
            r is ErrorServiceStopped <==> err is ServiceStopped || err == CommandError::Service(
                ServiceOperationError::Stopped,
            ),
            r is ErrorServiceStarting <==> err == CommandError::Service(
                ServiceOperationError::Starting,
            ),
            r is ErrorServiceReloading <==> err == CommandError::Service(
                ServiceOperationError::Reloading,
            ),
            r is ErrorServiceStopping <==> err == CommandError::Service(
                ServiceOperationError::Stopping,
            ),
            r is ErrorServiceRunning <==> err == CommandError::Service(
                ServiceOperationError::Running,
            ),
            r is ErrorServiceFailed <==> err == CommandError::Service(
                ServiceOperationError::Failed,
            ),
            *final(self) == *old(self),
    {
        match err {
            CommandError::NotReady => MasterResponse::ErrorNotReady,
            CommandError::UnknownService => MasterResponse::ErrorUnknownService,
            CommandError::ServiceStopped => MasterResponse::ErrorServiceStopped,
            CommandError::Service(err) => match err {
                ServiceOperationError::Starting => MasterResponse::ErrorServiceStarting,
                ServiceOperationError::Reloading => MasterResponse::ErrorServiceReloading,
                ServiceOperationError::Stopping => MasterResponse::ErrorServiceStopping,
                ServiceOperationError::Running => MasterResponse::ErrorServiceRunning,
                ServiceOperationError::Stopped => MasterResponse::ErrorServiceStopped,
                ServiceOperationError::Failed => MasterResponse::ErrorServiceFailed,
            },
        }
    }

    /// Asks for a service to be stopped.
    pub fn stop<S, P>(&mut self, name: String) -> (r: ClientAction<S, P>)
        ensures
            r == ClientAction::<S, P>::Call(Command::StopService(name, true)),
            *final(self) == *old(self),
    {
        ClientAction::Call(Command::StopService(name, true))
    }

    /// The answer to a request to stop a service.
    pub fn stop_reply<S, P, E>(&mut self, res: Reply<(), E>) -> (r: Option<MasterResponse<S, P>>)
        ensures
            r == stop_response::<S, P, E>(res),
            res is Err ==> r is None,
            res matches Ok(Err(err)) ==> r == Some(
                if err is ServiceStopped {
                    MasterResponse::<S, P>::ServiceStarted
                } else {
                    error_response(err)
                },
            ),
            res matches Ok(Ok(_)) ==> r == Some(MasterResponse::<S, P>::ServiceStopped),
            *final(self) == *old(self),
    {
        match res {
            Err(_) => None,
            Ok(Err(err)) => match err {
                CommandError::ServiceStopped => Some(MasterResponse::ServiceStarted),
                _ => Some(self.handle_error(err)),
            },
            Ok(Ok(_)) => Some(MasterResponse::ServiceStopped),
        }
    }

    /// Asks for a service to be reloaded.
    pub fn reload<S, P>(&mut self, name: String, graceful: bool) -> (r: ClientAction<S, P>)
        ensures
            r == ClientAction::<S, P>::Call(Command::ReloadService(name, graceful)),
            *final(self) == *old(self),
    {
        ClientAction::Call(Command::ReloadService(name, graceful))
    }

    /// The answer to a request to reload or restart a service.
    pub fn reload_reply<S, P, E>(&mut self, res: Reply<ReloadStatus, E>) -> (r: Option<
        MasterResponse<S, P>,
    >)
        ensures
            r == reload_response::<S, P, E>(res),
            res is Err ==> r is None,
            res matches Ok(Err(err)) ==> r == Some(error_response::<S, P>(err)),
            res matches Ok(Ok(status)) ==> {
                &&& r == Some(MasterResponse::<S, P>::ServiceStarted) <==> status is Success
                &&& r == Some(MasterResponse::<S, P>::ServiceFailed) <==> status is Failed
                &&& r == Some(MasterResponse::<S, P>::ErrorServiceStopping) <==> status is Stopping
            },
            *final(self) == *old(self),
    {
        match res {
            Err(_) => None,
            Ok(Err(err)) => Some(self.handle_error(err)),
            Ok(Ok(res)) => match res {
                ReloadStatus::Success => Some(MasterResponse::ServiceStarted),
                ReloadStatus::Failed => Some(MasterResponse::ServiceFailed),
                ReloadStatus::Stopping => Some(MasterResponse::ErrorServiceStopping),
            },
        }
    }

    /// Asks for a service to be started.
    pub fn start_service<S, P>(&mut self, name: String) -> (r: ClientAction<S, P>)
        ensures
            r == ClientAction::<S, P>::Call(Command::StartService(name)),
            *final(self) == *old(self),
    {
        ClientAction::Call(Command::StartService(name))
    }

    /// The answer to a request to start a service.
    pub fn start_reply<S, P, E>(&mut self, res: Reply<StartStatus, E>) -> (r: Option<
        MasterResponse<S, P>,
    >)
        ensures
            r == start_response::<S, P, E>(res),
            res is Err ==> r is None,
            res matches Ok(Err(err)) ==> r == Some(error_response::<S, P>(err)),
            res matches Ok(Ok(status)) ==> {
                &&& r == Some(MasterResponse::<S, P>::ServiceStarted) <==> status is Success
                &&& r == Some(MasterResponse::<S, P>::ServiceFailed) <==> status is Failed
                &&& r == Some(MasterResponse::<S, P>::ErrorServiceStopping) <==> status is Stopping
            },
            *final(self) == *old(self),
    {
        match res {
            Err(_) => None,
            Ok(Err(err)) => Some(self.handle_error(err)),
            Ok(Ok(res)) => match res {
                StartStatus::Success => Some(MasterResponse::ServiceStarted),
                StartStatus::Failed => Some(MasterResponse::ServiceFailed),
                StartStatus::Stopping => Some(MasterResponse::ErrorServiceStopping),
            },
        }
    }

    /// The answer to a request to pause or resume a service.
    pub fn done_reply<S, P, E>(&mut self, res: Reply<(), E>) -> (r: Option<MasterResponse<S, P>>)
        ensures
            r == done_response::<S, P, E>(res),
            res is Err ==> r is None,
            res matches Ok(Err(err)) ==> r == Some(error_response::<S, P>(err)),
            res matches Ok(Ok(_)) ==> r == Some(MasterResponse::<S, P>::Done),
            *final(self) == *old(self),
    {
        match res {
            Err(_) => None,
            Ok(Err(err)) => Some(self.handle_error(err)),
            Ok(Ok(_)) => Some(MasterResponse::Done),
        }
    }

    /// The answer to a request for the status of a service.
    pub fn status_reply<S, P, E>(&mut self, res: Reply<S, E>) -> (r: Option<MasterResponse<S, P>>)
        ensures
            r == status_response::<S, P, E>(res),
            res is Err ==> r is None,
            res matches Ok(Err(err)) ==> r == Some(error_response::<S, P>(err)),
            res matches Ok(Ok(status)) ==> r == Some(MasterResponse::<S, P>::ServiceStatus(status)),
            *final(self) == *old(self),
    {
        match res {
            Err(_) => None,
            Ok(Err(err)) => Some(self.handle_error(err)),
            Ok(Ok(status)) => Some(MasterResponse::ServiceStatus(status)),
        }
    }

    /// The answer to a request for the process ids of a service's workers.
    pub fn pids_reply<S, P, E>(&mut self, res: Reply<P, E>) -> (r: Option<MasterResponse<S, P>>)
        ensures
            r == pids_response::<S, P, E>(res),
            res is Err ==> r is None,
            res matches Ok(Err(err)) ==> r == Some(error_response::<S, P>(err)),
            res matches Ok(Ok(pids)) ==> r == Some(MasterResponse::<S, P>::ServiceWorkerPids(pids)),
            *final(self) == *old(self),
    {
        match res {
            Err(_) => None,
            Ok(Err(err)) => Some(self.handle_error(err)),
            Ok(Ok(pids)) => Some(MasterResponse::ServiceWorkerPids(pids)),
        }
    }

    /// The command center has replied: the answer to the request that it was asked
    /// for. A request to stop the master is answered whatever the reply.
    pub fn reply<S, P, E>(&mut self, reply: CommandReply<S, P, E>) -> (r: Option<
        MasterResponse<S, P>,
    >)
        ensures
            r == response_to(reply),
            reply matches CommandReply::Start(Ok(Ok(status))) ==> {
                &&& r == Some(MasterResponse::<S, P>::ServiceStarted) <==> status is Success
                &&& r == Some(MasterResponse::<S, P>::ServiceFailed) <==> status is Failed
                &&& r == Some(MasterResponse::<S, P>::ErrorServiceStopping) <==> status is Stopping
            },
            reply matches CommandReply::Reload(Ok(Ok(status))) ==> {
                &&& r == Some(MasterResponse::<S, P>::ServiceStarted) <==> status is Success
                &&& r == Some(MasterResponse::<S, P>::ServiceFailed) <==> status is Failed
                &&& r == Some(MasterResponse::<S, P>::ErrorServiceStopping) <==> status is Stopping
            },
            reply matches CommandReply::Stop(Ok(Ok(_))) ==> r == Some(
                MasterResponse::<S, P>::ServiceStopped,
            ),
            reply matches CommandReply::Pause(Ok(Ok(_))) ==> r == Some(MasterResponse::<S, P>::Done),
            reply matches CommandReply::Resume(Ok(Ok(_))) ==> r == Some(MasterResponse::<S, P>::Done),
            reply matches CommandReply::Status(Ok(Ok(status))) ==> r == Some(
                MasterResponse::<S, P>::ServiceStatus(status),
            ),
            reply matches CommandReply::Pids(Ok(Ok(pids))) ==> r == Some(
                MasterResponse::<S, P>::ServiceWorkerPids(pids),
            ),
            reply is Quit ==> r == Some(MasterResponse::<S, P>::Done),
            reply matches CommandReply::Stop(Ok(Err(err))) ==> r == Some(
                if err is ServiceStopped {
                    MasterResponse::<S, P>::ServiceStarted
                } else {
                    error_response(err)
                },
            ),
            reply matches CommandReply::Start(Ok(Err(err))) ==> r == Some(
                error_response::<S, P>(err),
            ),
            reply matches CommandReply::Reload(Ok(Err(err))) ==> r == Some(
                error_response::<S, P>(err),
            ),
            reply matches CommandReply::Pause(Ok(Err(err))) ==> r == Some(
                error_response::<S, P>(err),
            ),
            reply matches CommandReply::Resume(Ok(Err(err))) ==> r == Some(
                error_response::<S, P>(err),
            ),
            reply matches CommandReply::Status(Ok(Err(err))) ==> r == Some(
                error_response::<S, P>(err),
            ),
            reply matches CommandReply::Pids(Ok(Err(err))) ==> r == Some(
                error_response::<S, P>(err),
            ),
            reply matches CommandReply::Start(Err(_)) ==> r is None,
            reply matches CommandReply::Reload(Err(_)) ==> r is None,
            reply matches CommandReply::Stop(Err(_)) ==> r is None,
            reply matches CommandReply::Pause(Err(_)) ==> r is None,
            reply matches CommandReply::Resume(Err(_)) ==> r is None,
            reply matches CommandReply::Status(Err(_)) ==> r is None,
            reply matches CommandReply::Pids(Err(_)) ==> r is None,
            *final(self) == *old(self),
    {
        match reply {
            CommandReply::Start(res) => self.start_reply(res),
            CommandReply::Reload(res) => self.reload_reply(res),
            CommandReply::Stop(res) => self.stop_reply(res),
            CommandReply::Pause(res) => self.done_reply(res),
            CommandReply::Resume(res) => self.done_reply(res),
            CommandReply::Status(res) => self.status_reply(res),
            CommandReply::Pids(res) => self.pids_reply(res),
            CommandReply::Quit => Some(MasterResponse::Done),
        }
    }

    /// The answer to a request for the process id, where that is `pid`.
    pub fn pid_response<S, P>(&mut self, pid: i32) -> (r: MasterResponse<S, P>)
        ensures
            r matches MasterResponse::Pid(text) && text@ == decimal(pid as int),
            r matches MasterResponse::Pid(text) && reads_as(text@, pid as int),
            *final(self) == *old(self),
    {
        MasterResponse::Pid(to_decimal(pid))
    }

    /// The answer to a request for the version.
    pub fn version_response<S, P>(&mut self, pkg: &PkgInfo) -> (r: MasterResponse<S, P>)
        ensures
            r matches MasterResponse::Version(text) && text@ == pkg.name@ + seq![' ']
                + pkg.version@,
            *final(self) == *old(self),
    {
        proof {
            reveal_strlit(" ");
        }
        let text = pkg.name.clone().concat(" ").concat(pkg.version.as_str());
        assert(text@ =~= pkg.name@ + seq![' '] + pkg.version@);
        MasterResponse::Version(text)
    }

    /// A request of the client has come. The request for the process id is answered
    /// with that of the process that calls this.
    pub fn handle<S, P>(&mut self, msg: MasterRequest, pkg: &PkgInfo) -> (r: ClientAction<S, P>)
        ensures
            command_for(msg) matches Some(command) ==> r == ClientAction::<S, P>::Call(command),
            msg matches MasterRequest::Start(name) ==> r == ClientAction::<S, P>::Call(
                Command::StartService(name),
            ),
            msg matches MasterRequest::Reload(name) ==> r == ClientAction::<S, P>::Call(
                Command::ReloadService(name, true),
            ),
            msg matches MasterRequest::Restart(name) ==> r == ClientAction::<S, P>::Call(
                Command::ReloadService(name, false),
            ),
            msg matches MasterRequest::Stop(name) ==> r == ClientAction::<S, P>::Call(
                Command::StopService(name, true),
            ),
            msg matches MasterRequest::Pause(name) ==> r == ClientAction::<S, P>::Call(
                Command::PauseService(name),
            ),
            msg matches MasterRequest::Resume(name) ==> r == ClientAction::<S, P>::Call(
                Command::ResumeService(name),
            ),
            msg matches MasterRequest::Status(name) ==> r == ClientAction::<S, P>::Call(
                Command::StatusService(name),
            ),
            msg matches MasterRequest::SPid(name) ==> r == ClientAction::<S, P>::Call(
                Command::ServicePids(name),
            ),
            msg is Quit ==> r == ClientAction::<S, P>::Call(Command::Stop),
            msg is Ping ==> r == ClientAction::<S, P>::Send(MasterResponse::Pong),
            msg is Pid ==> (r matches ClientAction::Send(MasterResponse::Pid(text)) && exists|
                pid: i32,
            |
                #[trigger] is_own_pid(pid) && text@ == decimal(pid as int) && reads_as(
                    text@,
                    pid as int,
                )),
            msg is Version ==> (r matches ClientAction::Send(MasterResponse::Version(text))
                && text@ == pkg.name@ + seq![' '] + pkg.version@),
            *final(self) == *old(self),
    {
        match msg {
            MasterRequest::Ping => ClientAction::Send(MasterResponse::Pong),
            MasterRequest::Start(name) => self.start_service(name),
            MasterRequest::Reload(name) => self.reload(name, true),
            MasterRequest::Restart(name) => self.reload(name, false),
            MasterRequest::Stop(name) => self.stop(name),
            MasterRequest::Pause(name) => ClientAction::Call(Command::PauseService(name)),
            MasterRequest::Resume(name) => ClientAction::Call(Command::ResumeService(name)),
            MasterRequest::Status(name) => ClientAction::Call(Command::StatusService(name)),
            MasterRequest::SPid(name) => ClientAction::Call(Command::ServicePids(name)),
            MasterRequest::Pid => {
                let pid: i32 = own_pid();
                ClientAction::Send(self.pid_response(pid))
            },
            MasterRequest::Version => ClientAction::Send(self.version_response(pkg)),
            MasterRequest::Quit => ClientAction::Call(Command::Stop),
        }
    }
}

} // verus!
