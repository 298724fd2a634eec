//! The start of the master process, as a sequence of actions: the program performs
//! the action at hand and reports what came of it, and the next action follows.
use std::rc::Rc;
use vstd::prelude::*;
use crate::master::Master;

verus! {

/// The address that is held while a master runs.
pub const HOST: &'static str = "127.0.0.1:57897";

/// The last attempt to bind `HOST`, counted from 0.
pub const LAST_ATTEMPT: u8 = 8;

/// How long to wait between two attempts to bind `HOST`, in seconds.
pub const RETRY_SECS: u64 = 5;

/// The file mode creation mask of a daemon.
pub const DAEMON_UMASK: u32 = 0o22;

/// The configuration of the master.
#[derive(Debug, PartialEq, Eq)]
pub struct MasterConfig {
    /// The working directory.
    pub directory: String,
    /// The path of the control socket.
    pub sock: String,
    /// The path of the file that holds the process id.
    pub pid: String,
    /// The user to run as.
    pub uid: Option<u32>,
    /// The group to run as.
    pub gid: Option<u32>,
    /// Whether to run in the background.
    pub daemon: bool,
    /// The file that takes the standard output of a daemon.
    pub stdout: Option<String>,
    /// The file that takes the standard error of a daemon.
    pub stderr: Option<String>,
}

/// The configuration of the process, as far as its start depends on it.
#[derive(Debug, PartialEq, Eq)]
pub struct Config {
    /// The configuration of the master.
    pub master: MasterConfig,
}

/// Why the master did not start.
#[derive(Clone, Copy, Debug, PartialEq, Eq)]
pub enum StartError {
    /// The working directory cannot be entered.
    DirectoryNotChanged,
    /// `HOST` is held by another process.
    HostInUse,
    /// The control socket may not be created.
    SocketPermissionDenied,
    /// A master answers on the control socket.
    MasterRunning,
    /// A master holds the control socket and does not answer; its process id, where
    /// it could be read.
    MasterNotResponding(Option<i32>),
    /// The control socket cannot be created.
    SocketNotCreated,
    /// The process id cannot be saved.
    PidNotSaved,
    /// The user cannot be set.
    UidNotSet,
    /// The group cannot be set.
    GidNotSet,
    /// The process cannot go to the background.
    NotDaemonized,
    /// The control socket cannot be handed to the event loop.
    ListenerNotCreated,
}

/// What creating the control socket came to.
#[derive(Clone, Copy, Debug, PartialEq, Eq)]
pub enum SockBind {
    /// It is there.
    Bound,
    /// It may not be created.
    PermissionDenied,
    /// There is one already.
    AddrInUse,
    /// It could not be created.
    Failed,
}

/// Whether a master answers on the control socket.
#[derive(Clone, Copy, Debug, PartialEq, Eq)]
pub enum AliveStatus {
    /// It does.
    Alive,
    /// One is there and does not answer.
    NotResponding,
    /// None is there.
    NotAlive,
}

/// One action of the start sequence.
#[derive(Debug, PartialEq, Eq)]
pub enum Action {
    /// Set up logging.
    InitLogging,
    /// Enter the directory.
    ChangeDir(String),
    /// Try to bind `HOST`, for the numbered time, and hold it if that succeeds.
    BindHost(u8),
    /// Wait for as many seconds; the numbered attempt is next.
    Sleep(u64, u8),
    /// Create the control socket.
    BindSock(String),
    /// Find out whether a master answers on the control socket.
    CheckAlive,
    /// Read the process id of the running master.
    LoadPid(String),
    /// Remove the control socket. Whether that succeeds does not matter.
    RemoveSock(String),
    /// Create the control socket once more.
    RebindSock(String),
    /// Save the process id.
    SavePid(String),
    /// Run as the user.
    SetUid(u32),
    /// Run as the group.
    SetGid(u32),
    /// Go to the background: stay in the directory or not, keep the standard streams
    /// open or not.
    Daemonize { nochdir: bool, noclose: bool },
    /// Close the standard input. Whether that succeeds does not matter.
    CloseStdin,
    /// Append the standard output to the file.
    RedirectStdout(String),
    /// Append the standard error to the file.
    RedirectStderr(String),
    /// Set the file mode creation mask.
    SetUmask(u32),
    /// Hand the control socket to the event loop.
    CreateListener,
    /// Start the command center with what `Startup::center_config` gives.
    StartCommandCenter,
    /// Start to serve the control socket.
    CreateMaster,
    /// End the line on the terminal.
    PrintNewline,
    /// Nothing is left to do: the master has started, or has not.
    Finish(Result<(), StartError>),
}

/// What came of an action.
#[derive(Clone, Copy, Debug, PartialEq, Eq)]
pub enum Event {
    /// The action was performed.
    Done,
    /// The action succeeded, or failed.
    Tried(bool),
    /// What creating the control socket came to.
    Sock(SockBind),
    /// What was found out about the running master.
    Master(AliveStatus),
    /// The process id that was read, if one was.
    Pid(Option<i32>),
}

/// `event` is of the kind that `action` comes to.
pub open spec fn answers(event: Event, action: Action) -> bool {
    match action {
        Action::ChangeDir(_) | Action::BindHost(_) | Action::RebindSock(_) | Action::SavePid(_)
        | Action::SetUid(_) | Action::SetGid(_) | Action::Daemonize { .. }
        | Action::RedirectStdout(_) | Action::RedirectStderr(_) | Action::CreateListener => {
            event is Tried
        },
        Action::BindSock(_) => event is Sock,
        Action::CheckAlive => event is Master,
        Action::LoadPid(_) => event is Pid,
        Action::Finish(_) => false,
        _ => event is Done,
    }
}

/// The failed end of the sequence.
pub open spec fn failed(error: StartError) -> Action {
    Action::Finish(Err(error))
}

/// `action` where `ok`, or else the end of the sequence.
pub open spec fn unless_failed(ok: bool, error: StartError, action: Action) -> Action {
    if ok {
        action
    } else {
        failed(error)
    }
}

/// The first action once a daemon's standard output is dealt with.
pub open spec fn redirect_stderr(master: MasterConfig) -> Action {
    match master.stderr {
        Some(path) => Action::RedirectStderr(path),
        None => Action::SetUmask(DAEMON_UMASK),
    }
}

/// The first action once a daemon has closed its standard input.
pub open spec fn redirect_stdout(master: MasterConfig) -> Action {
    match master.stdout {
        Some(path) => Action::RedirectStdout(path),
        None => redirect_stderr(master),
    }
}

/// The first action once the group is set.
pub open spec fn daemonize(master: MasterConfig) -> Action {
    if master.daemon {
        Action::Daemonize { nochdir: true, noclose: false }
    } else {
        Action::CreateListener
    }
}

/// The first action once the user is set.
pub open spec fn set_gid(master: MasterConfig) -> Action {
    match master.gid {
        Some(gid) => Action::SetGid(gid),
        None => daemonize(master),
    }
}

/// The first action once the process id is saved.
pub open spec fn set_uid(master: MasterConfig) -> Action {
    match master.uid {
        Some(uid) => Action::SetUid(uid),
        None => set_gid(master),
    }
}

/// The action that follows `action` when it came to `event`.
pub open spec fn next(master: MasterConfig, action: Action, event: Event) -> Action
    recommends
        answers(event, action),
{
    let ok = event == Event::Tried(true);
    match action {
        Action::InitLogging => Action::ChangeDir(master.directory),
        Action::ChangeDir(_) => unless_failed(
            ok,
            StartError::DirectoryNotChanged,
            Action::BindHost(0),
        ),
        Action::BindHost(attempt) => {
            if ok {
                Action::BindSock(master.sock)
            } else if attempt < LAST_ATTEMPT {
                Action::Sleep(RETRY_SECS, (attempt + 1) as u8)
            } else {
                failed(StartError::HostInUse)
            }
        },
        Action::Sleep(_, attempt) => Action::BindHost(attempt),
        Action::BindSock(_) => match event {
            Event::Sock(SockBind::Bound) => Action::SavePid(master.pid),
            Event::Sock(SockBind::PermissionDenied) => failed(StartError::SocketPermissionDenied),
            Event::Sock(SockBind::AddrInUse) => Action::CheckAlive,
            _ => failed(StartError::SocketNotCreated),
        },
        Action::CheckAlive => match event {
            Event::Master(AliveStatus::Alive) => failed(StartError::MasterRunning),
            Event::Master(AliveStatus::NotResponding) => Action::LoadPid(master.pid),
            _ => Action::RemoveSock(master.sock),
        },
        Action::LoadPid(_) => failed(
            StartError::MasterNotResponding(
                match event {
                    Event::Pid(pid) => pid,
                    _ => None,
                },
            ),
        ),
        Action::RemoveSock(_) => Action::RebindSock(master.sock),
        Action::RebindSock(_) => unless_failed(
            ok,
            StartError::SocketNotCreated,
            Action::SavePid(master.pid),
        ),
        Action::SavePid(_) => unless_failed(ok, StartError::PidNotSaved, set_uid(master)),
        Action::SetUid(_) => unless_failed(ok, StartError::UidNotSet, set_gid(master)),
        Action::SetGid(_) => unless_failed(ok, StartError::GidNotSet, daemonize(master)),
        Action::Daemonize { .. } => unless_failed(
            ok,
            StartError::NotDaemonized,
            Action::CloseStdin,
        ),
        Action::CloseStdin => redirect_stdout(master),
        Action::RedirectStdout(_) => redirect_stderr(master),
        Action::RedirectStderr(_) => Action::SetUmask(DAEMON_UMASK),
        Action::SetUmask(_) => Action::CreateListener,
        Action::CreateListener => unless_failed(
            ok,
            StartError::ListenerNotCreated,
            Action::StartCommandCenter,
        ),
        Action::StartCommandCenter => Action::CreateMaster,
        Action::CreateMaster => if master.daemon {
            Action::Finish(Ok(()))
        } else {
            Action::PrintNewline
        },
        Action::PrintNewline => Action::Finish(Ok(())),
        Action::Finish(result) => Action::Finish(result),
    }
}

/// The start of a master: its configuration, the action at hand and, from its start
/// until the master takes it over, the way `C` to reach the command center.
pub struct Startup<C> {
    /// The configuration.
    pub cfg: Rc<Config>,
    /// The action at hand.
    pub action: Action,
    /// The way to reach the command center.
    pub cmd: Option<C>,
}

/// Start master process
pub fn start<C>(cfg: Config) -> (startup: Startup<C>)
    ensures
        *startup.cfg == cfg,
        startup.action == Action::InitLogging,
        startup.cmd is None,
        startup.wf(),
{
    Startup { cfg: Rc::new(cfg), action: Action::InitLogging, cmd: None }
}

/// `action` where `ok`, or else the end of the sequence.
fn proceed(ok: bool, error: StartError, action: Action) -> (r: Action)
    ensures
        r == unless_failed(ok, error, action),
{
    if ok {
        action
    } else {
        Action::Finish(Err(error))
    }
}

impl MasterConfig {
    /// The first action once a daemon's standard output is dealt with.
    fn to_redirect_stderr(&self) -> (r: Action)
        ensures
            r == redirect_stderr(*self),
    {
        match &self.stderr {
            Some(path) => Action::RedirectStderr(path.clone()),
            None => Action::SetUmask(DAEMON_UMASK),
        }
    }

    /// The first action once a daemon has closed its standard input.
    fn to_redirect_stdout(&self) -> (r: Action)
        ensures
            r == redirect_stdout(*self),
    {
        match &self.stdout {
            Some(path) => Action::RedirectStdout(path.clone()),
            None => self.to_redirect_stderr(),
        }
    }

    /// The first action once the group is set.
    fn to_daemonize(&self) -> (r: Action)
        ensures
            r == daemonize(*self),
    {
        if self.daemon {
            Action::Daemonize { nochdir: true, noclose: false }
        } else {
            Action::CreateListener
        }
    }

    /// The first action once the user is set.
    fn to_set_gid(&self) -> (r: Action)
        ensures
            r == set_gid(*self),
    {
        match self.gid {
            Some(gid) => Action::SetGid(gid),
            None => self.to_daemonize(),
        }
    }

    /// The first action once the process id is saved.
    fn to_set_uid(&self) -> (r: Action)
        ensures
            r == set_uid(*self),
    {
        match self.uid {
            Some(uid) => Action::SetUid(uid),
            None => self.to_set_gid(),
        }
    }
}

impl<C> Startup<C> {
    /// The way to reach the command center is there when the master needs it, and only
    /// then.
    pub open spec fn wf(self) -> bool {
        self.cmd is Some <==> self.action is CreateMaster
    }

    /// The configuration of the master.
    pub open spec fn config(self) -> MasterConfig {
        self.cfg.master
    }

    /// The start once the action at hand came to `event`.
    pub open spec fn advanced(self, event: Event) -> Startup<C> {
        Startup { action: next(self.config(), self.action, event), ..self }
    }

    /// The configuration that a command center is started with now, if one is.
    pub open spec fn center(self) -> Option<Rc<Config>> {
        if self.action is StartCommandCenter {
            Some(self.cfg)
        } else {
            None
        }
    }

    /// The start once the command center was started and can be reached by `cmd`.
    pub open spec fn with_center(self, cmd: C) -> Startup<C> {
        Startup { cmd: Some(cmd), ..self.advanced(Event::Done) }
    }

    /// The master that is handed out now, if one is.
    pub open spec fn master(self) -> Option<Master<C>> {
        match (self.action, self.cmd) {
            (Action::CreateMaster, Some(cmd)) => Some(Master { cfg: self.cfg, cmd }),
            _ => None,
        }
    }

    /// The start once the master was handed out.
    pub open spec fn without_center(self) -> Startup<C> {
        Startup { cmd: None, ..self.advanced(Event::Done) }
    }

    /// Whether the sequence has ended, and if so whether the master has started.
    pub fn finished(&self) -> (r: Option<bool>)
        ensures
            r == match self.action {
                Action::Finish(result) => Some(result is Ok),
                _ => None,
            },
    {
        match &self.action {
            Action::Finish(Ok(_)) => Some(true),
            Action::Finish(Err(_)) => Some(false),
            _ => None,
        }
    }

    /// Goes on to the next action. An event that does not answer the action at hand
    /// is not accepted and changes nothing. `center_started` and `create_master` go on
    /// from the actions that they are named after. Which events answer which action, and
    /// what follows it, is spelled out for each.
    pub fn advance(&mut self, event: Event) -> (accepted: bool)
        ensures
            accepted == (answers(event, old(self).action) && !(old(
                self,
            ).action is StartCommandCenter) && !(old(self).action is CreateMaster)),
            *final(self) == if accepted {
                old(self).advanced(event)
            } else {
                *old(self)
            },
            accepted == match (old(self).action, event) {
                (Action::ChangeDir(_), Event::Tried(_)) => true,
                (Action::BindHost(_), Event::Tried(_)) => true,
                (Action::RebindSock(_), Event::Tried(_)) => true,
                (Action::SavePid(_), Event::Tried(_)) => true,
                (Action::SetUid(_), Event::Tried(_)) => true,
                (Action::SetGid(_), Event::Tried(_)) => true,
                (Action::Daemonize { .. }, Event::Tried(_)) => true,
                (Action::RedirectStdout(_), Event::Tried(_)) => true,
                (Action::RedirectStderr(_), Event::Tried(_)) => true,
                (Action::CreateListener, Event::Tried(_)) => true,
                (Action::BindSock(_), Event::Sock(_)) => true,
                (Action::CheckAlive, Event::Master(_)) => true,
                (Action::LoadPid(_), Event::Pid(_)) => true,
                (Action::InitLogging, Event::Done) => true,
                (Action::Sleep(_, _), Event::Done) => true,
                (Action::RemoveSock(_), Event::Done) => true,
                (Action::CloseStdin, Event::Done) => true,
                (Action::SetUmask(_), Event::Done) => true,
                (Action::PrintNewline, Event::Done) => true,
                _ => false,
            },
            !accepted ==> *final(self) == *old(self),
            final(self).cfg == old(self).cfg,
            final(self).cmd == old(self).cmd,
            accepted ==> final(self).action == next(old(self).cfg.master, old(self).action, event),
            accepted && old(self).action is InitLogging ==> final(self).action == Action::ChangeDir(
                old(self).cfg.master.directory,
            ),
            accepted && old(self).action is ChangeDir ==> final(self).action
                == if event == Event::Tried(true) {
                Action::BindHost(0)
            } else {
                Action::Finish(Err(StartError::DirectoryNotChanged))
            },
            accepted ==> (old(self).action matches Action::BindHost(attempt) ==> final(self).action
                == if event == Event::Tried(true) {
                Action::BindSock(old(self).cfg.master.sock)
            } else if attempt < 8 {
                Action::Sleep(5, (attempt + 1) as u8)
            } else {
                Action::Finish(Err(StartError::HostInUse))
            }),
            accepted ==> (old(self).action matches Action::Sleep(_, attempt) ==> final(self).action
                == Action::BindHost(attempt)),
            accepted && old(self).action is BindSock ==> final(self).action
                == match event {
                Event::Sock(SockBind::Bound) => Action::SavePid(old(self).cfg.master.pid),
                Event::Sock(SockBind::AddrInUse) => Action::CheckAlive,
                Event::Sock(SockBind::PermissionDenied) => Action::Finish(
                    Err(StartError::SocketPermissionDenied),
                ),
                _ => Action::Finish(Err(StartError::SocketNotCreated)),
            },
            accepted && old(self).action is CheckAlive ==> final(self).action
                == match event {
                Event::Master(AliveStatus::NotAlive) => Action::RemoveSock(old(self).cfg.master.sock),
                Event::Master(AliveStatus::NotResponding) => Action::LoadPid(old(self).cfg.master.pid),
                _ => Action::Finish(Err(StartError::MasterRunning)),
            },
            accepted && old(self).action is LoadPid ==> (event matches Event::Pid(pid) && final(self).action
                == Action::Finish(Err(StartError::MasterNotResponding(pid)))),
            accepted && old(self).action is RemoveSock ==> final(self).action == Action::RebindSock(
                old(self).cfg.master.sock,
            ),
            accepted && old(self).action is RebindSock ==> final(self).action
                == if event == Event::Tried(true) {
                Action::SavePid(old(self).cfg.master.pid)
            } else {
                Action::Finish(Err(StartError::SocketNotCreated))
            },
            accepted && old(self).action is SavePid ==> final(self).action
                == if event == Event::Tried(true) {
                match (old(self).cfg.master.uid, old(self).cfg.master.gid, old(self).cfg.master.daemon) {
                    (Some(uid), _, _) => Action::SetUid(uid),
                    (None, Some(gid), _) => Action::SetGid(gid),
                    (None, None, true) => Action::Daemonize { nochdir: true, noclose: false },
                    (None, None, false) => Action::CreateListener,
                }
            } else {
                Action::Finish(Err(StartError::PidNotSaved))
            },
            accepted && old(self).action is SetUid ==> final(self).action
                == if event == Event::Tried(true) {
                match (old(self).cfg.master.gid, old(self).cfg.master.daemon) {
                    (Some(gid), _) => Action::SetGid(gid),
                    (None, true) => Action::Daemonize { nochdir: true, noclose: false },
                    (None, false) => Action::CreateListener,
                }
            } else {
                Action::Finish(Err(StartError::UidNotSet))
            },
            accepted && old(self).action is SetGid ==> final(self).action
                == if event == Event::Tried(true) {
                if old(self).cfg.master.daemon {
                    Action::Daemonize { nochdir: true, noclose: false }
                } else {
                    Action::CreateListener
                }
            } else {
                Action::Finish(Err(StartError::GidNotSet))
            },
            accepted && old(self).action is Daemonize ==> final(self).action
                == if event == Event::Tried(true) {
                Action::CloseStdin
            } else {
                Action::Finish(Err(StartError::NotDaemonized))
            },
            accepted && old(self).action is CloseStdin ==> final(self).action
                == match (old(self).cfg.master.stdout, old(self).cfg.master.stderr) {
                (Some(path), _) => Action::RedirectStdout(path),
                (None, Some(path)) => Action::RedirectStderr(path),
                (None, None) => Action::SetUmask(0o22),
            },
            accepted && old(self).action is RedirectStdout ==> final(self).action
                == match old(self).cfg.master.stderr {
                Some(path) => Action::RedirectStderr(path),
                None => Action::SetUmask(0o22),
            },
            accepted && old(self).action is RedirectStderr ==> final(self).action == Action::SetUmask(0o22),
            accepted && old(self).action is SetUmask ==> final(self).action == Action::CreateListener,
            accepted && old(self).action is CreateListener ==> final(self).action
                == if event == Event::Tried(true) {
                Action::StartCommandCenter
            } else {
                Action::Finish(Err(StartError::ListenerNotCreated))
            },
            accepted && old(self).action is PrintNewline ==> final(self).action == Action::Finish(Ok(())),
            old(self).wf() ==> final(self).wf(),
    {
        let master = &self.cfg.master;
        let following: Action = match (&self.action, event) {
            (Action::InitLogging, Event::Done) => Action::ChangeDir(master.directory.clone()),
            (Action::ChangeDir(_), Event::Tried(ok)) => proceed(
                ok,
                StartError::DirectoryNotChanged,
                Action::BindHost(0),
            ),
            (Action::BindHost(_), Event::Tried(true)) => Action::BindSock(master.sock.clone()),
            (Action::BindHost(attempt), Event::Tried(false)) => {
                if *attempt < LAST_ATTEMPT {
                    Action::Sleep(RETRY_SECS, *attempt + 1)
                } else {
                    Action::Finish(Err(StartError::HostInUse))
                }
            },
            (Action::Sleep(_, attempt), Event::Done) => Action::BindHost(*attempt),
            (Action::BindSock(_), Event::Sock(bind)) => match bind {
                SockBind::Bound => Action::SavePid(master.pid.clone()),
                SockBind::PermissionDenied => Action::Finish(
                    Err(StartError::SocketPermissionDenied),
                ),
                SockBind::AddrInUse => Action::CheckAlive,
                SockBind::Failed => Action::Finish(Err(StartError::SocketNotCreated)),
            },
            (Action::CheckAlive, Event::Master(status)) => match status {
                AliveStatus::Alive => Action::Finish(Err(StartError::MasterRunning)),
                AliveStatus::NotResponding => Action::LoadPid(master.pid.clone()),
                AliveStatus::NotAlive => Action::RemoveSock(master.sock.clone()),
            },
            (Action::LoadPid(_), Event::Pid(pid)) => Action::Finish(
                Err(StartError::MasterNotResponding(pid)),
            ),
            (Action::RemoveSock(_), Event::Done) => Action::RebindSock(master.sock.clone()),
            (Action::RebindSock(_), Event::Tried(ok)) => proceed(
                ok,
                StartError::SocketNotCreated,
                Action::SavePid(master.pid.clone()),
            ),
            (Action::SavePid(_), Event::Tried(ok)) => proceed(
                ok,
                StartError::PidNotSaved,
                master.to_set_uid(),
            ),
            (Action::SetUid(_), Event::Tried(ok)) => proceed(
                ok,
                StartError::UidNotSet,
                master.to_set_gid(),
            ),
            (Action::SetGid(_), Event::Tried(ok)) => proceed(
                ok,
                StartError::GidNotSet,
                master.to_daemonize(),
            ),
            (Action::Daemonize { .. }, Event::Tried(ok)) => proceed(
                ok,
                StartError::NotDaemonized,
                Action::CloseStdin,
            ),
            (Action::CloseStdin, Event::Done) => master.to_redirect_stdout(),
            (Action::RedirectStdout(_), Event::Tried(_)) => master.to_redirect_stderr(),
            (Action::RedirectStderr(_), Event::Tried(_)) => Action::SetUmask(DAEMON_UMASK),
            (Action::SetUmask(_), Event::Done) => Action::CreateListener,
            (Action::CreateListener, Event::Tried(ok)) => proceed(
                ok,
                StartError::ListenerNotCreated,
                Action::StartCommandCenter,
            ),
            (Action::PrintNewline, Event::Done) => Action::Finish(Ok(())),
            _ => {
                return false;
            },
        };
        self.action = following;
        true
    }

    /// What to start the command center with: the configuration of the start. Where
    /// that is not the action at hand, there is none.
    pub fn center_config(&self) -> (r: Option<Rc<Config>>)
        ensures
            r == self.center(),
            r is Some <==> self.action is StartCommandCenter,
            r matches Some(cfg) ==> cfg == self.cfg,
    {
        match &self.action {
            Action::StartCommandCenter => Some(self.cfg.clone()),
            _ => None,
        }
    }

    /// The command center has been started and can be reached by `cmd`. Where that is
    /// not the action at hand, it is not accepted and changes nothing.
    pub fn center_started(&mut self, cmd: C) -> (accepted: bool)
        ensures
            accepted == (old(self).action is StartCommandCenter),
            *final(self) == if accepted {
                old(self).with_center(cmd)
            } else {
                *old(self)
            },
            final(self).cfg == old(self).cfg,
            accepted ==> final(self).action == Action::CreateMaster && final(self).cmd == Some(cmd),
            !accepted ==> *final(self) == *old(self),
            old(self).wf() ==> final(self).wf(),
    {
        match &self.action {
            Action::StartCommandCenter => {
                self.cmd = Some(cmd);
                self.action = Action::CreateMaster;
                true
            },
            _ => false,
        }
    }

    /// Hands out the master, which has the configuration of the start and reaches the
    /// command center that was started. Where that is not the action at hand, there is
    /// none and nothing changes.
    pub fn create_master(&mut self) -> (r: Option<Master<C>>)
        ensures
            r == old(self).master(),
            *final(self) == if r is Some {
                old(self).without_center()
            } else {
                *old(self)
            },
            r is Some <==> old(self).action is CreateMaster && old(self).cmd is Some,
            r matches Some(master) ==> master.cfg == old(self).cfg && Some(master.cmd) == old(
                self,
            ).cmd,
            final(self).cfg == old(self).cfg,
            r is Some ==> final(self).cmd is None && final(self).action == if old(
                self,
            ).cfg.master.daemon {
                Action::Finish(Ok(()))
            } else {
                Action::PrintNewline
            },
            r is None ==> *final(self) == *old(self),
            old(self).wf() ==> final(self).wf(),
    {
        match &self.action {
            Action::CreateMaster => match self.cmd.take() {
                Some(cmd) => {
                    self.action = if self.cfg.master.daemon {
                        Action::Finish(Ok(()))
                    } else {
                        Action::PrintNewline
                    };
                    Some(Master { cfg: self.cfg.clone(), cmd })
                },
                None => None,
            },
            _ => None,
        }
    }
}

} // verus!
