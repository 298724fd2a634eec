use fectl::client::{ClientAction, CommandReply, MasterClient};
use fectl::master::Master;
use fectl::process::to_decimal;
use fectl::startup::{Config, MasterConfig};
use fectl::types::{
    Command, CommandError, MasterRequest, MasterResponse, PkgInfo, ReloadStatus,
    ServiceOperationError, StartStatus,
};
use std::rc::Rc;

type Response = MasterResponse<String, Vec<String>>;
type Act = ClientAction<String, Vec<String>>;

fn client() -> MasterClient<u32> {
    MasterClient { cmd: 7 }
}

fn pkg() -> PkgInfo {
    PkgInfo { name: "fectl".to_string(), version: "0.1.0".to_string() }
}

fn web() -> String {
    "web".to_string()
}

fn refusals() -> Vec<(CommandError, Response)> {
    vec![
        (CommandError::NotReady, MasterResponse::ErrorNotReady),
        (CommandError::UnknownService, MasterResponse::ErrorUnknownService),
        (CommandError::ServiceStopped, MasterResponse::ErrorServiceStopped),
        (
            CommandError::Service(ServiceOperationError::Starting),
            MasterResponse::ErrorServiceStarting,
        ),
        (
            CommandError::Service(ServiceOperationError::Reloading),
            MasterResponse::ErrorServiceReloading,
        ),
        (
            CommandError::Service(ServiceOperationError::Stopping),
            MasterResponse::ErrorServiceStopping,
        ),
        (
            CommandError::Service(ServiceOperationError::Running),
            MasterResponse::ErrorServiceRunning,
        ),
        (
            CommandError::Service(ServiceOperationError::Stopped),
            MasterResponse::ErrorServiceStopped,
        ),
        (
            CommandError::Service(ServiceOperationError::Failed),
            MasterResponse::ErrorServiceFailed,
        ),
    ]
}

#[test]
fn requests_become_commands() {
    let cases: Vec<(MasterRequest, Command)> = vec![
        (MasterRequest::Start(web()), Command::StartService(web())),
        (MasterRequest::Reload(web()), Command::ReloadService(web(), true)),
        (MasterRequest::Restart(web()), Command::ReloadService(web(), false)),
        (MasterRequest::Stop(web()), Command::StopService(web(), true)),
        (MasterRequest::Pause(web()), Command::PauseService(web())),
        (MasterRequest::Resume(web()), Command::ResumeService(web())),
        (MasterRequest::Status(web()), Command::StatusService(web())),
        (MasterRequest::SPid(web()), Command::ServicePids(web())),
        (MasterRequest::Quit, Command::Stop),
    ];
    for (request, command) in cases {
        let action: Act = client().handle(request, &pkg());
        assert_eq!(action, ClientAction::Call(command));
    }
}

#[test]
fn ping_is_answered_at_once() {
    let action: Act = client().handle(MasterRequest::Ping, &pkg());
    assert_eq!(action, ClientAction::Send(MasterResponse::Pong));
}

#[test]
fn version_is_name_and_version() {
    let action: Act = client().handle(MasterRequest::Version, &pkg());
    assert_eq!(action, ClientAction::Send(MasterResponse::Version("fectl 0.1.0".to_string())));
}

#[test]
fn pid_is_that_of_this_process() {
    let action: Act = client().handle(MasterRequest::Pid, &pkg());
    let expected = format!("{}", nix::unistd::getpid());
    assert_eq!(action, ClientAction::Send(MasterResponse::Pid(expected)));
}

#[test]
fn pid_is_sent_in_decimal() {
    let response: Response = client().pid_response(40417);
    assert_eq!(response, MasterResponse::Pid("40417".to_string()));
}

#[test]
fn decimal_numbers() {
    for n in [0, 1, 9, 10, 19, 100, 4096, 32768, -1, -10, i32::MAX, i32::MIN] {
        assert_eq!(to_decimal(n), format!("{}", n));
    }
}

#[test]
fn refusals_are_answered_with_their_error() {
    for (err, response) in refusals() {
        let told: Response = client().handle_error(err);
        assert_eq!(told, response);
        let start: Result<Result<StartStatus, CommandError>, ()> = Ok(Err(err));
        let told: Option<Response> = client().start_reply(start);
        assert_eq!(told.as_ref(), Some(&response));
        let reload: Result<Result<ReloadStatus, CommandError>, ()> = Ok(Err(err));
        let told: Option<Response> = client().reload_reply(reload);
        assert_eq!(told.as_ref(), Some(&response));
        let done: Result<Result<(), CommandError>, ()> = Ok(Err(err));
        let told: Option<Response> = client().done_reply(done);
        assert_eq!(told.as_ref(), Some(&response));
        let status: Result<Result<String, CommandError>, ()> = Ok(Err(err));
        let told: Option<Response> = client().status_reply(status);
        assert_eq!(told.as_ref(), Some(&response));
        let pids: Result<Result<Vec<String>, CommandError>, ()> = Ok(Err(err));
        let told: Option<Response> = client().pids_reply(pids);
        assert_eq!(told.as_ref(), Some(&response));
    }
}

#[test]
fn refused_stop_of_a_stopped_service_is_told_as_started() {
    for (err, response) in refusals() {
        let stop: Result<Result<(), CommandError>, ()> = Ok(Err(err));
        let told: Option<Response> = client().stop_reply(stop);
        if err == CommandError::ServiceStopped {
            assert_eq!(told, Some(MasterResponse::ServiceStarted));
        } else {
            assert_eq!(told, Some(response));
        }
    }
}

#[test]
fn success_is_told() {
    let stop: Result<Result<(), CommandError>, ()> = Ok(Ok(()));
    let told: Option<Response> = client().stop_reply(stop);
    assert_eq!(told, Some(MasterResponse::ServiceStopped));
    let told: Option<Response> = client().done_reply(stop);
    assert_eq!(told, Some(MasterResponse::Done));
    let status: Result<Result<String, CommandError>, ()> = Ok(Ok("running".to_string()));
    let told: Option<Response> = client().status_reply(status);
    assert_eq!(told, Some(MasterResponse::ServiceStatus("running".to_string())));
    let pids: Result<Result<Vec<String>, CommandError>, ()> = Ok(Ok(vec!["12".to_string()]));
    let told: Option<Response> = client().pids_reply(pids);
    assert_eq!(told, Some(MasterResponse::ServiceWorkerPids(vec!["12".to_string()])));
}

#[test]
fn start_and_reload_are_told_alike() {
    let cases: Vec<(StartStatus, ReloadStatus, Response)> = vec![
        (StartStatus::Success, ReloadStatus::Success, MasterResponse::ServiceStarted),
        (StartStatus::Failed, ReloadStatus::Failed, MasterResponse::ServiceFailed),
        (StartStatus::Stopping, ReloadStatus::Stopping, MasterResponse::ErrorServiceStopping),
    ];
    for (start, reload, response) in cases {
        let start: Result<Result<StartStatus, CommandError>, ()> = Ok(Ok(start));
        let told: Option<Response> = client().start_reply(start);
        assert_eq!(told.as_ref(), Some(&response));
        let reload: Result<Result<ReloadStatus, CommandError>, ()> = Ok(Ok(reload));
        let told: Option<Response> = client().reload_reply(reload);
        assert_eq!(told.as_ref(), Some(&response));
    }
}

#[test]
fn lost_reply_is_not_answered() {
    let lost: Result<Result<(), CommandError>, ()> = Err(());
    let told: Option<Response> = client().stop_reply(lost);
    assert_eq!(told, None);
    let told: Option<Response> = client().done_reply(lost);
    assert_eq!(told, None);
    let lost: Result<Result<StartStatus, CommandError>, ()> = Err(());
    let told: Option<Response> = client().start_reply(lost);
    assert_eq!(told, None);
    let lost: Result<Result<ReloadStatus, CommandError>, ()> = Err(());
    let told: Option<Response> = client().reload_reply(lost);
    assert_eq!(told, None);
    let lost: Result<Result<String, CommandError>, ()> = Err(());
    let told: Option<Response> = client().status_reply(lost);
    assert_eq!(told, None);
    let lost: Result<Result<Vec<String>, CommandError>, ()> = Err(());
    let told: Option<Response> = client().pids_reply(lost);
    assert_eq!(told, None);
}

#[test]
fn quit_is_answered_whatever_the_reply() {
    let told: Option<Response> = client().reply::<_, _, ()>(CommandReply::Quit);
    assert_eq!(told, Some(MasterResponse::Done));
}

#[test]
fn replies_are_answered_by_their_command() {
    let cases: Vec<(CommandReply<String, Vec<String>, ()>, Option<Response>)> = vec![
        (
            CommandReply::Start(Ok(Ok(StartStatus::Success))),
            Some(MasterResponse::ServiceStarted),
        ),
        (
            CommandReply::Reload(Ok(Ok(ReloadStatus::Failed))),
            Some(MasterResponse::ServiceFailed),
        ),
        (CommandReply::Stop(Ok(Ok(()))), Some(MasterResponse::ServiceStopped)),
        (
            CommandReply::Stop(Ok(Err(CommandError::ServiceStopped))),
            Some(MasterResponse::ServiceStarted),
        ),
        (
            CommandReply::Pause(Ok(Err(CommandError::ServiceStopped))),
            Some(MasterResponse::ErrorServiceStopped),
        ),
        (CommandReply::Pause(Ok(Ok(()))), Some(MasterResponse::Done)),
        (CommandReply::Resume(Ok(Ok(()))), Some(MasterResponse::Done)),
        (CommandReply::Resume(Err(())), None),
        (
            CommandReply::Status(Ok(Ok("up".to_string()))),
            Some(MasterResponse::ServiceStatus("up".to_string())),
        ),
        (
            CommandReply::Pids(Ok(Ok(vec!["1".to_string()]))),
            Some(MasterResponse::ServiceWorkerPids(vec!["1".to_string()])),
        ),
    ];
    for (reply, answer) in cases {
        assert_eq!(client().reply(reply), answer);
    }
}

#[test]
fn heartbeat_goes_on_while_it_is_sent() {
    let mut session = client();
    let mut next: Option<Act> = Some(session.started());
    let mut sent = 0;
    for outcome in [true, true, true, false, true] {
        if next != Some(ClientAction::Schedule(1)) {
            break;
        }
        let beat: Act = session.hb_elapsed();
        assert_eq!(beat, ClientAction::Send(MasterResponse::Pong));
        sent += 1;
        next = session.hb_sent(outcome);
    }
    assert_eq!(sent, 4);
    assert_eq!(next, None);
}

#[test]
fn session_ends_with_the_stream() {
    let action: Act = client().finished();
    assert_eq!(action, ClientAction::Stop);
    let action: Act = client().error();
    assert_eq!(action, ClientAction::Stop);
}

#[test]
fn every_connection_reaches_the_command_center() {
    let cfg = Config {
        master: MasterConfig {
            directory: "/".to_string(),
            sock: "fectl.sock".to_string(),
            pid: "fectl.pid".to_string(),
            uid: None,
            gid: None,
            daemon: false,
            stdout: None,
            stderr: None,
        },
    };
    let mut master = Master { cfg: Rc::new(cfg), cmd: 42u32 };
    assert_eq!(master.handle().cmd, 42);
    assert_eq!(master.handle().cmd, 42);
    assert_eq!(master.cmd, 42);
}
