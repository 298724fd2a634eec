//! What holds of a session as a whole.
use vstd::prelude::*;
use crate::client::{
    after_heartbeat, command_for, error_response, reload_response, response_to, start_response,
    ClientAction, CommandReply,
};
use crate::types::{
    Command, CommandError, MasterRequest, MasterResponse, ReloadStatus, ServiceOperationError,
    StartStatus,
};

verus! {

/// The answer tells of a refusal.
pub open spec fn is_refusal<S, P>(response: MasterResponse<S, P>) -> bool {
    ||| response is ErrorNotReady
    ||| response is ErrorUnknownService
    ||| response is ErrorServiceStarting
    ||| response is ErrorServiceReloading
    ||| response is ErrorServiceStopping
    ||| response is ErrorServiceRunning
    ||| response is ErrorServiceStopped
    ||| response is ErrorServiceFailed
}

/// The refusal is that the service is stopped.
pub open spec fn says_stopped(err: CommandError) -> bool {
    err is ServiceStopped || err == CommandError::Service(ServiceOperationError::Stopped)
}

/// `reply` is of the kind that `command` gets.
pub open spec fn replies_to<S, P, E>(reply: CommandReply<S, P, E>, command: Command) -> bool {
    match command {
        Command::StartService(_) => reply is Start,
        Command::ReloadService(_, _) => reply is Reload,
        Command::StopService(_, _) => reply is Stop,
        Command::PauseService(_) => reply is Pause,
        Command::ResumeService(_) => reply is Resume,
        Command::StatusService(_) => reply is Status,
        Command::ServicePids(_) => reply is Pids,
        Command::Stop => reply is Quit,
    }
}

/// The reply arrived, as far as that matters.
pub open spec fn arrived<S, P, E>(reply: CommandReply<S, P, E>) -> bool {
    match reply {
        CommandReply::Start(res) => res is Ok,
        CommandReply::Reload(res) => res is Ok,
        CommandReply::Stop(res) | CommandReply::Pause(res) | CommandReply::Resume(res) => {
            res is Ok
        },
        CommandReply::Status(res) => res is Ok,
        CommandReply::Pids(res) => res is Ok,
        CommandReply::Quit => true,
    }
}

/// Why the command was refused, where it was.
pub open spec fn refusal<S, P, E>(reply: CommandReply<S, P, E>) -> Option<CommandError> {
    match reply {
        CommandReply::Start(Ok(Err(err))) => Some(err),
        CommandReply::Reload(Ok(Err(err))) => Some(err),
        CommandReply::Stop(Ok(Err(err))) => Some(err),
        CommandReply::Pause(Ok(Err(err))) => Some(err),
        CommandReply::Resume(Ok(Err(err))) => Some(err),
        CommandReply::Status(Ok(Err(err))) => Some(err),
        CommandReply::Pids(Ok(Err(err))) => Some(err),
        _ => None,
    }
}

/// A refused request is answered with the error that the refusal stands for, whatever
/// the request. The one exception is a request to stop a service that the command
/// center reports as stopped: that is told as `ServiceStarted`.
pub proof fn refused_request_is_answered<S, P, E>(
    request: MasterRequest,
    reply: CommandReply<S, P, E>,
)
    requires
        command_for(request) is Some,
        replies_to(reply, command_for(request)->0),
        refusal(reply) is Some,
    ensures
        response_to(reply) == Some(
            if request is Stop && refusal(reply)->0 is ServiceStopped {
                MasterResponse::<S, P>::ServiceStarted
            } else {
                error_response(refusal(reply)->0)
            },
        ),
{
}

/// A request that was not refused is never answered with a refusal, but for a start or
/// reload that ended because the service was stopped meanwhile.
pub proof fn granted_request_is_not_told_as_error<S, P, E>(
    request: MasterRequest,
    reply: CommandReply<S, P, E>,
)
    requires
        command_for(request) is Some,
        replies_to(reply, command_for(request)->0),
        refusal(reply) is None,
        response_to(reply) is Some,
    ensures
        is_refusal(response_to(reply)->0) <==> {
            ||| reply == CommandReply::<S, P, E>::Start(Ok(Ok(StartStatus::Stopping)))
            ||| reply == CommandReply::<S, P, E>::Reload(Ok(Ok(ReloadStatus::Stopping)))
        },
{
}

/// A request that was handed to the command center is answered if and only if the
/// reply arrives; a request to stop the master is answered in any case.
pub proof fn request_is_answered_iff_reply_arrives<S, P, E>(
    request: MasterRequest,
    reply: CommandReply<S, P, E>,
)
    requires
        command_for(request) is Some,
        replies_to(reply, command_for(request)->0),
    ensures
        response_to(reply) is Some <==> arrived(reply),
        request is Quit ==> response_to(reply) == Some(MasterResponse::<S, P>::Done),
{
}

/// The answer to a refusal is one of the errors, and never one that tells of success.
pub proof fn refusal_is_told_as_error<S, P>(err: CommandError)
    ensures
        is_refusal(error_response::<S, P>(err)),
{
}

/// Two refusals are told alike only if they are the same, or both say that the service
/// is stopped.
pub proof fn refusals_tell_apart<S, P>(first: CommandError, second: CommandError)
    ensures
        error_response::<S, P>(first) == error_response::<S, P>(second) <==> {
            ||| first == second
            ||| says_stopped(first) && says_stopped(second)
        },
{
}

/// Different requests are different commands: the command center is told what was
/// asked, of which service, and whether a reload is graceful.
pub proof fn requests_tell_apart(first: MasterRequest, second: MasterRequest)
    requires
        command_for(first) is Some,
        command_for(first) == command_for(second),
    ensures
        first == second,
{
}

/// Every request about a service becomes the command of its own kind for the service
/// that the client named, and only such a request does. Stopping is always graceful;
/// reloading is for `Reload` and is not for `Restart`.
pub proof fn command_does_what_was_asked(request: MasterRequest, name: String)
    ensures
        command_for(request) == Some(Command::StartService(name)) <==> request
            == MasterRequest::Start(name),
        command_for(request) == Some(Command::ReloadService(name, true)) <==> request
            == MasterRequest::Reload(name),
        command_for(request) == Some(Command::ReloadService(name, false)) <==> request
            == MasterRequest::Restart(name),
        command_for(request) == Some(Command::StopService(name, true)) <==> request
            == MasterRequest::Stop(name),
        command_for(request) != Some(Command::StopService(name, false)),
        command_for(request) == Some(Command::PauseService(name)) <==> request
            == MasterRequest::Pause(name),
        command_for(request) == Some(Command::ResumeService(name)) <==> request
            == MasterRequest::Resume(name),
        command_for(request) == Some(Command::StatusService(name)) <==> request
            == MasterRequest::Status(name),
        command_for(request) == Some(Command::ServicePids(name)) <==> request
            == MasterRequest::SPid(name),
        command_for(request) == Some(Command::Stop) <==> request is Quit,
        command_for(request) is None <==> request is Ping || request is Pid || request is Version,
{
}

/// A client that asked for a start is told that the service runs if and only if it
/// does, that it failed if and only if it failed, and that it is being stopped if and
/// only if it was stopped meanwhile.
pub proof fn start_is_told_as_it_ended<S, P, E>(status: StartStatus)
    ensures
        ({
            let told = response_to(CommandReply::<S, P, E>::Start(Ok(Ok(status))));
            &&& told == Some(MasterResponse::<S, P>::ServiceStarted) <==> status is Success
            &&& told == Some(MasterResponse::<S, P>::ServiceFailed) <==> status is Failed
            &&& told == Some(MasterResponse::<S, P>::ErrorServiceStopping) <==> status is Stopping
        }),
{
}

/// A client that asked for a reload or restart is told that the service runs if and
/// only if it does, that it failed if and only if it failed, and that it is being
/// stopped if and only if it was stopped meanwhile.
pub proof fn reload_is_told_as_it_ended<S, P, E>(status: ReloadStatus)
    ensures
        ({
            let told = response_to(CommandReply::<S, P, E>::Reload(Ok(Ok(status))));
            &&& told == Some(MasterResponse::<S, P>::ServiceStarted) <==> status is Success
            &&& told == Some(MasterResponse::<S, P>::ServiceFailed) <==> status is Failed
            &&& told == Some(MasterResponse::<S, P>::ErrorServiceStopping) <==> status is Stopping
        }),
{
}

/// From an answer a client knows what happened: each answer is given on the replies
/// that it stands for, and on no others.
pub proof fn answer_tells_what_happened<S, P, E>(reply: CommandReply<S, P, E>, status: S, pids: P)
    ensures
        response_to(reply) == Some(MasterResponse::<S, P>::ServiceStarted) <==> {
            ||| reply matches CommandReply::Start(Ok(Ok(status))) && status is Success
            ||| reply matches CommandReply::Reload(Ok(Ok(status))) && status is Success
            ||| reply matches CommandReply::Stop(Ok(Err(err))) && err is ServiceStopped
        },
        response_to(reply) == Some(MasterResponse::<S, P>::ServiceFailed) <==> {
            ||| reply matches CommandReply::Start(Ok(Ok(status))) && status is Failed
            ||| reply matches CommandReply::Reload(Ok(Ok(status))) && status is Failed
        },
        response_to(reply) == Some(MasterResponse::<S, P>::ServiceStopped) <==> reply matches
            CommandReply::Stop(Ok(Ok(_))),
        response_to(reply) == Some(MasterResponse::<S, P>::Done) <==> {
            ||| reply matches CommandReply::Pause(Ok(Ok(_)))
            ||| reply matches CommandReply::Resume(Ok(Ok(_)))
            ||| reply is Quit
        },
        response_to(reply) == Some(MasterResponse::<S, P>::ServiceStatus(status)) <==> reply
            == CommandReply::<S, P, E>::Status(Ok(Ok(status))),
        response_to(reply) == Some(MasterResponse::<S, P>::ServiceWorkerPids(pids)) <==> reply
            == CommandReply::<S, P, E>::Pids(Ok(Ok(pids))),
        response_to(reply) == Some(MasterResponse::<S, P>::ErrorServiceStopping) <==> {
            ||| reply matches CommandReply::Start(Ok(Ok(status))) && status is Stopping
            ||| reply matches CommandReply::Reload(Ok(Ok(status))) && status is Stopping
            ||| refusal(reply) == Some(CommandError::Service(ServiceOperationError::Stopping))
        },
        response_to(reply) == Some(MasterResponse::<S, P>::ErrorServiceStopped) <==> {
            ||| refusal(reply) == Some(CommandError::ServiceStopped) && !(reply is Stop)
            ||| refusal(reply) == Some(CommandError::Service(ServiceOperationError::Stopped))
        },
        response_to(reply) == Some(MasterResponse::<S, P>::ErrorNotReady) <==> refusal(reply)
            == Some(CommandError::NotReady),
        response_to(reply) == Some(MasterResponse::<S, P>::ErrorUnknownService) <==> refusal(reply)
            == Some(CommandError::UnknownService),
        response_to(reply) == Some(MasterResponse::<S, P>::ErrorServiceStarting) <==> refusal(reply)
            == Some(CommandError::Service(ServiceOperationError::Starting)),
        response_to(reply) == Some(MasterResponse::<S, P>::ErrorServiceReloading) <==> refusal(
            reply,
        ) == Some(CommandError::Service(ServiceOperationError::Reloading)),
        response_to(reply) == Some(MasterResponse::<S, P>::ErrorServiceRunning) <==> refusal(reply)
            == Some(CommandError::Service(ServiceOperationError::Running)),
        response_to(reply) == Some(MasterResponse::<S, P>::ErrorServiceFailed) <==> refusal(reply)
            == Some(CommandError::Service(ServiceOperationError::Failed)),
        response_to(reply) matches Some(answer) ==> !(answer is Pong || answer is Pid
            || answer is Version),
{
}

/// A client cannot tell a start from a reload by what it came to.
pub proof fn reload_is_told_like_start<S, P, E>()
    ensures
        reload_response::<S, P, E>(Ok(Ok(ReloadStatus::Success))) == start_response::<S, P, E>(
            Ok(Ok(StartStatus::Success)),
        ),
        reload_response::<S, P, E>(Ok(Ok(ReloadStatus::Failed))) == start_response::<S, P, E>(
            Ok(Ok(StartStatus::Failed)),
        ),
        reload_response::<S, P, E>(Ok(Ok(ReloadStatus::Stopping))) == start_response::<S, P, E>(
            Ok(Ok(StartStatus::Stopping)),
        ),
{
}

/// The next heartbeat is one second after one that went out.
pub proof fn heartbeat_is_every_second<S, P>(sent: bool, secs: u64)
    ensures
        after_heartbeat::<S, P>(sent) == Some(ClientAction::<S, P>::Schedule(secs)) <==> sent && secs
            == 1,
        after_heartbeat::<S, P>(sent) is None <==> !sent,
{
}

/// The number of heartbeats of a session, where sending them comes to `outcomes` one
/// after the other.
pub open spec fn heartbeats<S, P>(outcomes: Seq<bool>) -> nat
    decreases outcomes.len(),
{
    if outcomes.len() == 0 {
        0
    } else if after_heartbeat::<S, P>(outcomes[0]) is Some {
        1 + heartbeats::<S, P>(outcomes.skip(1))
    } else {
        1
    }
}

/// The heartbeat goes on as long as it goes out, and ends with the first that does
/// not.
pub proof fn heartbeat_ends_with_first_failure<S, P>(outcomes: Seq<bool>, sent: nat)
    requires
        sent <= outcomes.len(),
        forall|i: int| 0 <= i < sent ==> #[trigger] outcomes[i],
        sent < outcomes.len() ==> !outcomes[sent as int],
    ensures
        heartbeats::<S, P>(outcomes) == if sent < outcomes.len() {
            sent + 1
        } else {
            sent
        },
    decreases outcomes.len(),
{
    if outcomes.len() > 0 && sent > 0 {
        let later = outcomes.skip(1);
        assert forall|i: int| 0 <= i < sent - 1 implies #[trigger] later[i] by {
            assert(later[i] == outcomes[i + 1]);
        }
        assert(outcomes[0]);
        heartbeat_ends_with_first_failure::<S, P>(later, (sent - 1) as nat);
    }
}

} // verus!
