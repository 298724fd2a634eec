//! What holds of a start of the master as a whole, whatever the machine does.
use std::rc::Rc;
use vstd::prelude::*;
use crate::master::Master;
use crate::startup::{
    answers, next, Action, AliveStatus, Config, Event, MasterConfig, SockBind, StartError, Startup,
    DAEMON_UMASK, LAST_ATTEMPT, RETRY_SECS,
};

verus! {

/// What the actions of a start come to on the machine at hand. As no action is
/// performed twice, every way that a start can go is one on some machine.
pub struct Machine {
    /// The working directory can be entered.
    pub directory: bool,
    /// The attempts at which `HOST` is free.
    pub host_free: Set<u8>,
    /// What creating the control socket comes to.
    pub sock: SockBind,
    /// Whether a master answers on it.
    pub master: AliveStatus,
    /// The process id that the running master left.
    pub left_pid: Option<i32>,
    /// The control socket can be created once it was removed.
    pub sock_again: bool,
    /// The process id can be saved.
    pub pid: bool,
    /// The user can be set.
    pub uid: bool,
    /// The group can be set.
    pub gid: bool,
    /// The process can go to the background.
    pub daemon: bool,
    /// The file for the standard output can be opened.
    pub stdout: bool,
    /// The file for the standard error can be opened.
    pub stderr: bool,
    /// The control socket can be handed to the event loop.
    pub listener: bool,
}

impl Machine {
    /// What `action` comes to.
    pub open spec fn event(self, action: Action) -> Event {
        match action {
            Action::ChangeDir(_) => Event::Tried(self.directory),
            Action::BindHost(attempt) => Event::Tried(self.host_free.contains(attempt)),
            Action::BindSock(_) => Event::Sock(self.sock),
            Action::CheckAlive => Event::Master(self.master),
            Action::LoadPid(_) => Event::Pid(self.left_pid),
            Action::RebindSock(_) => Event::Tried(self.sock_again),
            Action::SavePid(_) => Event::Tried(self.pid),
            Action::SetUid(_) => Event::Tried(self.uid),
            Action::SetGid(_) => Event::Tried(self.gid),
            Action::Daemonize { .. } => Event::Tried(self.daemon),
            Action::RedirectStdout(_) => Event::Tried(self.stdout),
            Action::RedirectStderr(_) => Event::Tried(self.stderr),
            Action::CreateListener => Event::Tried(self.listener),
            _ => Event::Done,
        }
    }

    /// Some attempt from `attempt` to the last finds `HOST` free.
    pub open spec fn host_free_from(self, attempt: int) -> bool {
        exists|i: u8| attempt <= i <= LAST_ATTEMPT && self.host_free.contains(i)
    }

    /// A control socket can be had without taking it from a running master.
    pub open spec fn sock_available(self) -> bool {
        ||| self.sock is Bound
        ||| self.sock is AddrInUse && self.master is NotAlive && self.sock_again
    }
}

/// How far `action` is from the end of the sequence, at most. It is also the order
/// of the actions: each is nearer to the end than those before it.
pub open spec fn distance(action: Action) -> nat {
    match action {
        Action::InitLogging => 36,
        Action::ChangeDir(_) => 35,
        Action::BindHost(attempt) => host_distance(attempt),
        Action::Sleep(_, attempt) => host_distance(attempt) + 1,
        Action::BindSock(_) => 16,
        Action::CheckAlive => 15,
        Action::LoadPid(_) => 1,
        Action::RemoveSock(_) => 14,
        Action::RebindSock(_) => 13,
        Action::SavePid(_) => 12,
        Action::SetUid(_) => 11,
        Action::SetGid(_) => 10,
        Action::Daemonize { .. } => 9,
        Action::CloseStdin => 8,
        Action::RedirectStdout(_) => 7,
        Action::RedirectStderr(_) => 6,
        Action::SetUmask(_) => 5,
        Action::CreateListener => 4,
        Action::StartCommandCenter => 3,
        Action::CreateMaster => 2,
        Action::PrintNewline => 1,
        Action::Finish(_) => 0,
    }
}

/// How far the attempt to bind `HOST` is from the end of the sequence, at most.
pub open spec fn host_distance(attempt: u8) -> nat {
    if attempt <= LAST_ATTEMPT {
        (17 + 2 * (LAST_ATTEMPT - attempt)) as nat
    } else {
        17
    }
}

/// The actions from `action` to the end of the sequence, in order.
pub open spec fn performed(cfg: MasterConfig, machine: Machine, action: Action) -> Seq<Action>
    decreases distance(action),
{
    if action is Finish {
        seq![action]
    } else {
        seq![action] + performed(cfg, machine, next(cfg, action, machine.event(action)))
    }
}

/// All actions of a start.
pub open spec fn start_actions(cfg: MasterConfig, machine: Machine) -> Seq<Action> {
    performed(cfg, machine, Action::InitLogging)
}

/// What a start comes to.
pub open spec fn start_result(cfg: MasterConfig, machine: Machine) -> Result<(), StartError> {
    start_actions(cfg, machine).last()->Finish_0
}

/// What a start comes to from the hand-over of the socket on.
pub open spec fn listener_verdict(machine: Machine) -> Result<(), StartError> {
    if machine.listener {
        Ok(())
    } else {
        Err(StartError::ListenerNotCreated)
    }
}

/// What a start comes to once the group is set.
pub open spec fn daemon_verdict(cfg: MasterConfig, machine: Machine) -> Result<(), StartError> {
    if cfg.daemon && !machine.daemon {
        Err(StartError::NotDaemonized)
    } else {
        listener_verdict(machine)
    }
}

/// What a start comes to once the user is set.
pub open spec fn gid_verdict(cfg: MasterConfig, machine: Machine) -> Result<(), StartError> {
    if cfg.gid is Some && !machine.gid {
        Err(StartError::GidNotSet)
    } else {
        daemon_verdict(cfg, machine)
    }
}

/// What a start comes to once the process id is saved.
pub open spec fn uid_verdict(cfg: MasterConfig, machine: Machine) -> Result<(), StartError> {
    if cfg.uid is Some && !machine.uid {
        Err(StartError::UidNotSet)
    } else {
        gid_verdict(cfg, machine)
    }
}

/// What a start comes to once the control socket is there.
pub open spec fn pid_verdict(cfg: MasterConfig, machine: Machine) -> Result<(), StartError> {
    if machine.pid {
        uid_verdict(cfg, machine)
    } else {
        Err(StartError::PidNotSaved)
    }
}

/// What a start comes to once a control socket of another master was found.
pub open spec fn alive_verdict(cfg: MasterConfig, machine: Machine) -> Result<(), StartError> {
    match machine.master {
        AliveStatus::Alive => Err(StartError::MasterRunning),
        AliveStatus::NotResponding => Err(StartError::MasterNotResponding(machine.left_pid)),
        AliveStatus::NotAlive => if machine.sock_again {
            pid_verdict(cfg, machine)
        } else {
            Err(StartError::SocketNotCreated)
        },
    }
}

/// What a start comes to once `HOST` is bound.
pub open spec fn sock_verdict(cfg: MasterConfig, machine: Machine) -> Result<(), StartError> {
    match machine.sock {
        SockBind::Bound => pid_verdict(cfg, machine),
        SockBind::PermissionDenied => Err(StartError::SocketPermissionDenied),
        SockBind::AddrInUse => alive_verdict(cfg, machine),
        SockBind::Failed => Err(StartError::SocketNotCreated),
    }
}

/// What a start comes to: the first of the obstacles, in the order of the sequence.
pub open spec fn verdict(cfg: MasterConfig, machine: Machine) -> Result<(), StartError> {
    if !machine.directory {
        Err(StartError::DirectoryNotChanged)
    } else if !machine.host_free_from(0) {
        Err(StartError::HostInUse)
    } else {
        sock_verdict(cfg, machine)
    }
}

/// What the sequence comes to from `action` on.
spec fn verdict_from(cfg: MasterConfig, machine: Machine, action: Action) -> Result<
    (),
    StartError,
> {
    match action {
        Action::InitLogging | Action::ChangeDir(_) => verdict(cfg, machine),
        Action::BindHost(attempt) | Action::Sleep(_, attempt) => if machine.host_free.contains(
            attempt,
        ) || machine.host_free_from(attempt as int) {
            sock_verdict(cfg, machine)
        } else {
            Err(StartError::HostInUse)
        },
        Action::BindSock(_) => sock_verdict(cfg, machine),
        Action::CheckAlive => alive_verdict(cfg, machine),
        Action::LoadPid(_) => Err(StartError::MasterNotResponding(machine.left_pid)),
        Action::RemoveSock(_) | Action::RebindSock(_) => if machine.sock_again {
            pid_verdict(cfg, machine)
        } else {
            Err(StartError::SocketNotCreated)
        },
        Action::SavePid(_) => pid_verdict(cfg, machine),
        Action::SetUid(_) => if machine.uid {
            gid_verdict(cfg, machine)
        } else {
            Err(StartError::UidNotSet)
        },
        Action::SetGid(_) => if machine.gid {
            daemon_verdict(cfg, machine)
        } else {
            Err(StartError::GidNotSet)
        },
        Action::Daemonize { .. } => if machine.daemon {
            listener_verdict(machine)
        } else {
            Err(StartError::NotDaemonized)
        },
        Action::CloseStdin | Action::RedirectStdout(_) | Action::RedirectStderr(_)
        | Action::SetUmask(_) | Action::CreateListener => listener_verdict(machine),
        Action::StartCommandCenter | Action::CreateMaster | Action::PrintNewline => Ok(()),
        Action::Finish(result) => result,
    }
}

proof fn lemma_verdict_from(cfg: MasterConfig, machine: Machine, action: Action)
    ensures
        performed(cfg, machine, action).len() > 0,
        performed(cfg, machine, action).last() == Action::Finish(
            verdict_from(cfg, machine, action),
        ),
    decreases distance(action),
{
    if !(action is Finish) {
        let following = next(cfg, action, machine.event(action));
        lemma_verdict_from(cfg, machine, following);
        assert(performed(cfg, machine, action).last() == performed(cfg, machine, following).last());
        if let Action::BindHost(attempt) = action {
            if !machine.host_free.contains(attempt) && attempt < LAST_ATTEMPT {
                let later = (attempt + 1) as u8;
                if machine.host_free_from(attempt as int) {
                    let i = choose|i: u8|
                        attempt <= i <= LAST_ATTEMPT && machine.host_free.contains(i);
                    assert(later <= i <= LAST_ATTEMPT && machine.host_free.contains(i));
                }
            }
        }
    }
}

/// A start ends, and comes to the first obstacle that the machine puts in its way:
/// the directory, the address, the socket, the process id, the user, the group, the
/// background, the event loop. It succeeds where there is none.
pub proof fn start_comes_to_first_obstacle(cfg: MasterConfig, machine: Machine)
    ensures
        start_actions(cfg, machine).last() == Action::Finish(verdict(cfg, machine)),
        start_result(cfg, machine) == verdict(cfg, machine),
{
    lemma_verdict_from(cfg, machine, Action::InitLogging);
}

/// A start succeeds if and only if every action that has to succeed does.
pub proof fn start_succeeds_iff_no_obstacle(cfg: MasterConfig, machine: Machine)
    ensures
        start_result(cfg, machine) is Ok <==> {
            &&& machine.directory
            &&& machine.host_free_from(0)
            &&& machine.sock_available()
            &&& machine.pid
            &&& cfg.uid is Some ==> machine.uid
            &&& cfg.gid is Some ==> machine.gid
            &&& cfg.daemon ==> machine.daemon
            &&& machine.listener
        },
{
    lemma_verdict_from(cfg, machine, Action::InitLogging);
}

proof fn lemma_order(cfg: MasterConfig, machine: Machine, action: Action)
    ensures
        performed(cfg, machine, action).len() > 0,
        performed(cfg, machine, action)[0] == action,
        performed(cfg, machine, action).len() <= distance(action) + 1,
        forall|i: int, j: int|
            0 <= i < j < performed(cfg, machine, action).len() ==> distance(
                #[trigger] performed(cfg, machine, action)[i],
            ) > distance(#[trigger] performed(cfg, machine, action)[j]),
    decreases distance(action),
{
    if !(action is Finish) {
        let following = next(cfg, action, machine.event(action));
        lemma_order(cfg, machine, following);
        let all = performed(cfg, machine, action);
        let tail = performed(cfg, machine, following);
        assert forall|i: int, j: int| 0 <= i < j < all.len() implies distance(#[trigger] all[i])
            > distance(#[trigger] all[j]) by {
            assert(all[j] == tail[j - 1]);
            if i > 0 {
                assert(all[i] == tail[i - 1]);
            } else if j > 1 {
                assert(distance(tail[0]) > distance(tail[j - 1]));
            }
        }
    }
}

/// A start performs its actions in the order of the sequence, none of them twice,
/// and at most 37 of them.
pub proof fn start_keeps_order(cfg: MasterConfig, machine: Machine)
    ensures
        start_actions(cfg, machine).len() <= 37,
        forall|i: int, j: int|
            0 <= i < j < start_actions(cfg, machine).len() ==> distance(
                #[trigger] start_actions(cfg, machine)[i],
            ) > distance(#[trigger] start_actions(cfg, machine)[j]),
        start_actions(cfg, machine).no_duplicates(),
{
    lemma_order(cfg, machine, Action::InitLogging);
}

/// A start ends with the first `Finish`: nothing is done after a failure.
pub proof fn start_ends_once(cfg: MasterConfig, machine: Machine)
    ensures
        forall|i: int|
            0 <= i < start_actions(cfg, machine).len() ==> ((#[trigger] start_actions(
                cfg,
                machine,
            )[i] is Finish) <==> i == start_actions(cfg, machine).len() - 1),
{
    lemma_order(cfg, machine, Action::InitLogging);
    lemma_verdict_from(cfg, machine, Action::InitLogging);
    let all = start_actions(cfg, machine);
    assert forall|i: int| 0 <= i < all.len() && #[trigger] all[i] is Finish implies i == all.len()
        - 1 by {
        if i < all.len() - 1 {
            assert(distance(all[i]) > distance(all[all.len() - 1]));
        }
    }
}

/// `HOST` is not free at any attempt before `attempt`.
pub open spec fn host_busy_before(machine: Machine, attempt: u8) -> bool {
    forall|i: u8| i < attempt ==> !#[trigger] machine.host_free.contains(i)
}

/// The directory is entered and `HOST` is held.
pub open spec fn host_held(machine: Machine) -> bool {
    machine.directory && machine.host_free_from(0)
}

/// The process id is saved.
pub open spec fn pid_saved(machine: Machine) -> bool {
    host_held(machine) && machine.sock_available() && machine.pid
}

/// The process runs as the user of the configuration.
pub open spec fn user_set(cfg: MasterConfig, machine: Machine) -> bool {
    pid_saved(machine) && (cfg.uid is Some ==> machine.uid)
}

/// The process runs as the user and the group of the configuration.
pub open spec fn group_set(cfg: MasterConfig, machine: Machine) -> bool {
    user_set(cfg, machine) && (cfg.gid is Some ==> machine.gid)
}

/// The process is in the background.
pub open spec fn in_background(cfg: MasterConfig, machine: Machine) -> bool {
    group_set(cfg, machine) && cfg.daemon && machine.daemon
}

/// The process is ready to hand the control socket to the event loop.
pub open spec fn ready(cfg: MasterConfig, machine: Machine) -> bool {
    group_set(cfg, machine) && (cfg.daemon ==> machine.daemon)
}

/// The start gets as far as `action`.
pub open spec fn reached(cfg: MasterConfig, machine: Machine, action: Action) -> bool {
    match action {
        Action::InitLogging => true,
        Action::ChangeDir(path) => path == cfg.directory,
        Action::BindHost(attempt) => {
            machine.directory && attempt <= LAST_ATTEMPT && host_busy_before(machine, attempt)
        },
        Action::Sleep(secs, attempt) => {
            &&& secs == RETRY_SECS
            &&& machine.directory
            &&& 0 < attempt <= LAST_ATTEMPT
            &&& host_busy_before(machine, attempt)
        },
        Action::BindSock(path) => host_held(machine) && path == cfg.sock,
        Action::CheckAlive => host_held(machine) && machine.sock is AddrInUse,
        Action::LoadPid(path) => {
            &&& host_held(machine)
            &&& machine.sock is AddrInUse
            &&& machine.master is NotResponding
            &&& path == cfg.pid
        },
        Action::RemoveSock(path) | Action::RebindSock(path) => {
            &&& host_held(machine)
            &&& machine.sock is AddrInUse
            &&& machine.master is NotAlive
            &&& path == cfg.sock
        },
        Action::SavePid(path) => {
            host_held(machine) && machine.sock_available() && path == cfg.pid
        },
        Action::SetUid(uid) => pid_saved(machine) && cfg.uid == Some(uid),
        Action::SetGid(gid) => user_set(cfg, machine) && cfg.gid == Some(gid),
        Action::Daemonize { nochdir, noclose } => {
            group_set(cfg, machine) && cfg.daemon && nochdir && !noclose
        },
        Action::CloseStdin => in_background(cfg, machine),
        Action::RedirectStdout(path) => in_background(cfg, machine) && cfg.stdout == Some(path),
        Action::RedirectStderr(path) => in_background(cfg, machine) && cfg.stderr == Some(path),
        Action::SetUmask(mask) => in_background(cfg, machine) && mask == DAEMON_UMASK,
        Action::CreateListener => ready(cfg, machine),
        Action::StartCommandCenter | Action::CreateMaster => {
            ready(cfg, machine) && machine.listener
        },
        Action::PrintNewline => ready(cfg, machine) && machine.listener && !cfg.daemon,
        Action::Finish(result) => result == verdict(cfg, machine),
    }
}

proof fn lemma_all_reached(cfg: MasterConfig, machine: Machine, from: Action, action: Action)
    requires
        reached(cfg, machine, from),
        performed(cfg, machine, from).contains(action),
    ensures
        reached(cfg, machine, action),
    decreases distance(from),
{
    let all = performed(cfg, machine, from);
    if from is Finish {
        assert(action == all[0]);
    } else if action != from {
        let following = next(cfg, from, machine.event(from));
        let tail = performed(cfg, machine, following);
        let i = choose|i: int| 0 <= i < all.len() && all[i] == action;
        assert(all[i] == tail[i - 1]);
        lemma_next_reached(cfg, machine, from);
        lemma_all_reached(cfg, machine, following, action);
    }
}

proof fn lemma_next_reached(cfg: MasterConfig, machine: Machine, action: Action)
    requires
        reached(cfg, machine, action),
        !(action is Finish),
    ensures
        reached(cfg, machine, next(cfg, action, machine.event(action))),
{
    if let Action::BindHost(attempt) = action {
        if machine.host_free.contains(attempt) {
            assert(machine.host_free_from(0));
        }
    }
}

proof fn lemma_goes_on(cfg: MasterConfig, machine: Machine, from: Action, action: Action)
    requires
        performed(cfg, machine, from).contains(action),
        !(action is Finish),
    ensures
        performed(cfg, machine, from).contains(next(cfg, action, machine.event(action))),
    decreases distance(from),
{
    let all = performed(cfg, machine, from);
    if from is Finish {
        assert(action == all[0]);
    } else {
        let following = next(cfg, from, machine.event(from));
        let tail = performed(cfg, machine, following);
        lemma_order(cfg, machine, following);
        if action == from {
            assert(all[1] == tail[0]);
        } else {
            let i = choose|i: int| 0 <= i < all.len() && all[i] == action;
            assert(tail[i - 1] == action);
            lemma_goes_on(cfg, machine, following, action);
            let target = next(cfg, action, machine.event(action));
            let j = choose|j: int| 0 <= j < tail.len() && tail[j] == target;
            assert(all[j + 1] == target);
        }
    }
}

proof fn lemma_first_free(machine: Machine, attempt: u8) -> (first: u8)
    requires
        machine.host_free_from(attempt as int),
        host_busy_before(machine, attempt),
    ensures
        first <= LAST_ATTEMPT,
        machine.host_free.contains(first),
        host_busy_before(machine, first),
    decreases LAST_ATTEMPT - attempt,
{
    if machine.host_free.contains(attempt) {
        attempt
    } else {
        let i = choose|i: u8| attempt <= i <= LAST_ATTEMPT && machine.host_free.contains(i);
        let later = (attempt + 1) as u8;
        assert(later <= i <= LAST_ATTEMPT && machine.host_free.contains(i));
        lemma_first_free(machine, later)
    }
}

/// The action before `action` in a start that gets there.
spec fn previous(cfg: MasterConfig, machine: Machine, action: Action, first: u8) -> Action {
    match action {
        Action::InitLogging | Action::ChangeDir(_) => Action::InitLogging,
        Action::BindHost(attempt) => if attempt == 0 {
            Action::ChangeDir(cfg.directory)
        } else {
            Action::Sleep(RETRY_SECS, attempt)
        },
        Action::Sleep(_, attempt) => Action::BindHost((attempt - 1) as u8),
        Action::BindSock(_) => Action::BindHost(first),
        Action::CheckAlive => Action::BindSock(cfg.sock),
        Action::LoadPid(_) | Action::RemoveSock(_) => Action::CheckAlive,
        Action::RebindSock(_) => Action::RemoveSock(cfg.sock),
        Action::SavePid(_) => if machine.sock is Bound {
            Action::BindSock(cfg.sock)
        } else {
            Action::RebindSock(cfg.sock)
        },
        Action::SetUid(_) => Action::SavePid(cfg.pid),
        Action::SetGid(_) => match cfg.uid {
            Some(uid) => Action::SetUid(uid),
            None => Action::SavePid(cfg.pid),
        },
        Action::Daemonize { .. } => before_daemonize(cfg),
        Action::CloseStdin => Action::Daemonize { nochdir: true, noclose: false },
        Action::RedirectStdout(_) => Action::CloseStdin,
        Action::RedirectStderr(_) => match cfg.stdout {
            Some(path) => Action::RedirectStdout(path),
            None => Action::CloseStdin,
        },
        Action::SetUmask(_) => match (cfg.stdout, cfg.stderr) {
            (_, Some(path)) => Action::RedirectStderr(path),
            (Some(path), None) => Action::RedirectStdout(path),
            (None, None) => Action::CloseStdin,
        },
        Action::CreateListener => if cfg.daemon {
            Action::SetUmask(DAEMON_UMASK)
        } else {
            before_daemonize(cfg)
        },
        Action::StartCommandCenter => Action::CreateListener,
        Action::CreateMaster => Action::StartCommandCenter,
        Action::PrintNewline => Action::CreateMaster,
        Action::Finish(_) => action,
    }
}

spec fn before_daemonize(cfg: MasterConfig) -> Action {
    match (cfg.uid, cfg.gid) {
        (_, Some(gid)) => Action::SetGid(gid),
        (Some(uid), None) => Action::SetUid(uid),
        (None, None) => Action::SavePid(cfg.pid),
    }
}

#[verifier::spinoff_prover]
#[verifier::rlimit(40)]
proof fn lemma_reached_is_performed(cfg: MasterConfig, machine: Machine, action: Action)
    requires
        reached(cfg, machine, action),
    ensures
        start_actions(cfg, machine).contains(action),
    decreases 40 - distance(action),
{
    let all = start_actions(cfg, machine);
    lemma_order(cfg, machine, Action::InitLogging);
    if action is InitLogging {
        assert(all[0] == action);
    } else if action is Finish {
        lemma_verdict_from(cfg, machine, Action::InitLogging);
        assert(all[all.len() - 1] == action);
    } else {
        let first = if action is BindSock {
            lemma_first_free(machine, 0)
        } else {
            0
        };
        let before = previous(cfg, machine, action, first);
        assert(reached(cfg, machine, before));
        assert(next(cfg, before, machine.event(before)) == action);
        lemma_reached_is_performed(cfg, machine, before);
        lemma_goes_on(cfg, machine, Action::InitLogging, before);
    }
}

/// A start performs exactly the actions that it gets to.
pub proof fn start_performs_exactly(cfg: MasterConfig, machine: Machine, action: Action)
    ensures
        start_actions(cfg, machine).contains(action) <==> reached(cfg, machine, action),
{
    if start_actions(cfg, machine).contains(action) {
        lemma_all_reached(cfg, machine, Action::InitLogging, action);
    }
    if reached(cfg, machine, action) {
        lemma_reached_is_performed(cfg, machine, action);
    }
}

/// Whatever an action comes to on a machine answers the action.
pub proof fn machine_answers(machine: Machine, action: Action)
    requires
        !(action is Finish),
    ensures
        answers(machine.event(action), action),
{
}

/// The control socket is removed only where no master answers on it.
pub proof fn running_master_keeps_socket(cfg: MasterConfig, machine: Machine, path: String)
    requires
        !(machine.master is NotAlive),
    ensures
        !start_actions(cfg, machine).contains(Action::RemoveSock(path)),
{
    start_performs_exactly(cfg, machine, Action::RemoveSock(path));
}

/// The command center is started, and the control socket served, if and only if the
/// start succeeds.
pub proof fn master_serves_iff_started(cfg: MasterConfig, machine: Machine)
    ensures
        start_actions(cfg, machine).contains(Action::StartCommandCenter) <==> start_result(
            cfg,
            machine,
        ) is Ok,
        start_actions(cfg, machine).contains(Action::CreateMaster) <==> start_result(
            cfg,
            machine,
        ) is Ok,
{
    start_performs_exactly(cfg, machine, Action::StartCommandCenter);
    start_performs_exactly(cfg, machine, Action::CreateMaster);
    start_succeeds_iff_no_obstacle(cfg, machine);
}

/// The start after the action at hand, on a machine and with a command center that is
/// reached by `cmd`.
pub open spec fn stepped<C>(startup: Startup<C>, machine: Machine, cmd: C) -> Startup<C> {
    if startup.action is StartCommandCenter {
        startup.with_center(cmd)
    } else if startup.action is CreateMaster {
        startup.without_center()
    } else {
        startup.advanced(machine.event(startup.action))
    }
}

/// The actions that are at hand from now on, one after the other, when each is
/// performed and what came of it is reported.
pub open spec fn at_hand<C>(startup: Startup<C>, machine: Machine, cmd: C) -> Seq<Action>
    decreases distance(startup.action),
{
    if startup.action is Finish {
        seq![startup.action]
    } else {
        seq![startup.action] + at_hand(stepped(startup, machine, cmd), machine, cmd)
    }
}

/// The actions at hand are those of the sequence, from wherever a start is: what holds
/// of the sequence holds of what a start really goes through.
pub proof fn start_goes_through_sequence<C>(startup: Startup<C>, machine: Machine, cmd: C)
    ensures
        at_hand(startup, machine, cmd) == performed(startup.config(), machine, startup.action),
    decreases distance(startup.action),
{
    if !(startup.action is Finish) {
        start_goes_through_sequence(stepped(startup, machine, cmd), machine, cmd);
    }
}

/// A daemon appends its standard output and its standard error to the files of the
/// configuration, each whether or not there is one for the other, and to no others. It
/// gets to that as soon as it is in the background.
pub proof fn daemon_redirects_each_stream<C>(
    startup: Startup<C>,
    machine: Machine,
    cmd: C,
    path: String,
)
    requires
        startup.action is InitLogging,
        at_hand(startup, machine, cmd).contains(Action::CloseStdin),
    ensures
        at_hand(startup, machine, cmd).contains(Action::RedirectStdout(path)) <==> (
        startup.cfg.master.stdout matches Some(file) && file == path),
        at_hand(startup, machine, cmd).contains(Action::RedirectStderr(path)) <==> (
        startup.cfg.master.stderr matches Some(file) && file == path),
        at_hand(startup, machine, cmd).contains(Action::SetUmask(0o22)),
        startup.cfg.master.daemon,
{
    start_goes_through_sequence(startup, machine, cmd);
    start_performs_exactly(startup.config(), machine, Action::CloseStdin);
    start_performs_exactly(startup.config(), machine, Action::RedirectStdout(path));
    start_performs_exactly(startup.config(), machine, Action::RedirectStderr(path));
    start_performs_exactly(startup.config(), machine, Action::SetUmask(0o22));
}

/// What a start does on the machine is what its configuration asks for, as far as it
/// gets: where it goes on, it has succeeded in all that came before.
pub proof fn start_does_what_configuration_asks<C>(
    startup: Startup<C>,
    machine: Machine,
    cmd: C,
    path: String,
    id: u32,
    attempt: u8,
    secs: u64,
    nochdir: bool,
    noclose: bool,
)
    requires
        startup.action is InitLogging,
    ensures
        ({
            let cfg = startup.cfg.master;
            let all = at_hand(startup, machine, cmd);
            let host = machine.directory && exists|i: u8|
                i <= 8 && #[trigger] machine.host_free.contains(i);
            let used = host && machine.sock is AddrInUse;
            let stale = used && machine.master is NotAlive;
            let sock = host && machine.sock is Bound || stale && machine.sock_again;
            let user = sock && machine.pid && (cfg.uid is Some ==> machine.uid);
            let group = user && (cfg.gid is Some ==> machine.gid);
            let background = group && cfg.daemon && machine.daemon;
            let ready = group && (cfg.daemon ==> machine.daemon);
            let busy = machine.directory && attempt <= 8 && forall|i: u8|
                i < attempt ==> !#[trigger] machine.host_free.contains(i);
            &&& all.contains(Action::ChangeDir(path)) <==> path == cfg.directory
            &&& all.contains(Action::BindHost(attempt)) <==> busy
            &&& all.contains(Action::Sleep(secs, attempt)) <==> busy && attempt > 0 && secs == 5
            &&& all.contains(Action::BindSock(path)) <==> host && path == cfg.sock
            &&& all.contains(Action::CheckAlive) <==> used
            &&& all.contains(Action::LoadPid(path)) <==> used && machine.master is NotResponding
                && path == cfg.pid
            &&& all.contains(Action::RemoveSock(path)) <==> stale && path == cfg.sock
            &&& all.contains(Action::RebindSock(path)) <==> stale && path == cfg.sock
            &&& all.contains(Action::SavePid(path)) <==> sock && path == cfg.pid
            &&& all.contains(Action::SetUid(id)) <==> sock && machine.pid && cfg.uid == Some(id)
            &&& all.contains(Action::SetGid(id)) <==> user && cfg.gid == Some(id)
            &&& all.contains(Action::Daemonize { nochdir, noclose }) <==> group && cfg.daemon
                && nochdir && !noclose
            &&& all.contains(Action::CloseStdin) <==> background
            &&& all.contains(Action::RedirectStdout(path)) <==> background && cfg.stdout == Some(
                path,
            )
            &&& all.contains(Action::RedirectStderr(path)) <==> background && cfg.stderr == Some(
                path,
            )
            &&& all.contains(Action::SetUmask(id)) <==> background && id == 0o22
            &&& all.contains(Action::CreateListener) <==> ready
            &&& all.contains(Action::StartCommandCenter) <==> ready && machine.listener
            &&& all.contains(Action::CreateMaster) <==> ready && machine.listener
            &&& all.contains(Action::PrintNewline) <==> ready && machine.listener && !cfg.daemon
            &&& all.contains(Action::Finish(Ok(()))) <==> ready && machine.listener
        }),
{
    start_goes_through_sequence(startup, machine, cmd);
    assert forall|action: Action|
        #[trigger] at_hand(startup, machine, cmd).contains(action) <==> reached(
            startup.config(),
            machine,
            action,
        ) by {
        start_performs_exactly(startup.config(), machine, action);
    }
}

/// A start that fails says why: each reason is given if and only if it is the first
/// thing that went wrong.
pub proof fn failed_start_says_why<C>(
    startup: Startup<C>,
    machine: Machine,
    cmd: C,
    left: Option<i32>,
)
    requires
        startup.action is InitLogging,
    ensures
        ({
            let cfg = startup.cfg.master;
            let end = at_hand(startup, machine, cmd).last();
            let host = machine.directory && exists|i: u8|
                i <= 8 && #[trigger] machine.host_free.contains(i);
            let used = host && machine.sock is AddrInUse;
            let stale = used && machine.master is NotAlive;
            let sock = host && machine.sock is Bound || stale && machine.sock_again;
            let user = sock && machine.pid && (cfg.uid is Some ==> machine.uid);
            let group = user && (cfg.gid is Some ==> machine.gid);
            let ready = group && (cfg.daemon ==> machine.daemon);
            &&& end is Finish
            &&& end == Action::Finish(Err(StartError::DirectoryNotChanged))
                <==> !machine.directory
            &&& end == Action::Finish(Err(StartError::HostInUse)) <==> machine.directory && !host
            &&& end == Action::Finish(Err(StartError::SocketPermissionDenied)) <==> host
                && machine.sock is PermissionDenied
            &&& end == Action::Finish(Err(StartError::MasterRunning)) <==> used
                && machine.master is Alive
            &&& end == Action::Finish(Err(StartError::MasterNotResponding(left))) <==> used
                && machine.master is NotResponding && left == machine.left_pid
            &&& end == Action::Finish(Err(StartError::SocketNotCreated)) <==> host
                && machine.sock is Failed || stale && !machine.sock_again
            &&& end == Action::Finish(Err(StartError::PidNotSaved)) <==> sock && !machine.pid
            &&& end == Action::Finish(Err(StartError::UidNotSet)) <==> sock && machine.pid
                && cfg.uid is Some && !machine.uid
            &&& end == Action::Finish(Err(StartError::GidNotSet)) <==> user && cfg.gid is Some
                && !machine.gid
            &&& end == Action::Finish(Err(StartError::NotDaemonized)) <==> group && cfg.daemon
                && !machine.daemon
            &&& end == Action::Finish(Err(StartError::ListenerNotCreated)) <==> ready
                && !machine.listener
            &&& end == Action::Finish(Ok(())) <==> ready && machine.listener
        }),
{
    start_goes_through_sequence(startup, machine, cmd);
    start_comes_to_first_obstacle(startup.config(), machine);
}

/// The attempts to bind `HOST` from `attempt` to the first that finds it free, with a
/// wait between any two.
spec fn attempts(attempt: u8, first: u8) -> Seq<Action> {
    Seq::new(
        (2 * (first - attempt) + 1) as nat,
        |i: int|
            if i % 2 == 0 {
                Action::BindHost((attempt + i / 2) as u8)
            } else {
                Action::Sleep(5, (attempt + i / 2 + 1) as u8)
            },
    )
}

#[verifier::spinoff_prover]
#[verifier::rlimit(40)]
proof fn lemma_attempts(cfg: MasterConfig, machine: Machine, attempt: u8, first: u8)
    requires
        attempt <= first <= 8,
        machine.host_free.contains(first),
        forall|i: u8| attempt <= i < first ==> !#[trigger] machine.host_free.contains(i),
    ensures
        performed(cfg, machine, Action::BindHost(attempt)) == attempts(attempt, first) + performed(
            cfg,
            machine,
            Action::BindSock(cfg.sock),
        ),
    decreases first - attempt,
{
    let all = performed(cfg, machine, Action::BindHost(attempt));
    let later = performed(cfg, machine, Action::BindSock(cfg.sock));
    if attempt == first {
        assert(all =~= attempts(attempt, first) + later);
    } else {
        let following = (attempt + 1) as u8;
        lemma_attempts(cfg, machine, following, first);
        let tail = performed(cfg, machine, Action::BindHost(following));
        assert(performed(cfg, machine, Action::Sleep(5, following)) == seq![
            Action::Sleep(5, following),
        ] + tail);
        assert(all == seq![Action::BindHost(attempt)] + (seq![Action::Sleep(5, following)] + tail));
        assert(attempts(attempt, first) =~= seq![
            Action::BindHost(attempt),
            Action::Sleep(5, following),
        ] + attempts(following, first));
        assert(all =~= attempts(attempt, first) + later);
    }
}

proof fn lemma_from_listener(cfg: MasterConfig, machine: Machine)
    requires
        machine.listener,
    ensures
        performed(cfg, machine, Action::CreateListener) == seq![
            Action::CreateListener,
            Action::StartCommandCenter,
            Action::CreateMaster,
        ] + (if cfg.daemon {
            Seq::empty()
        } else {
            seq![Action::PrintNewline]
        }) + seq![Action::Finish(Ok(()))],
{
    reveal_with_fuel(performed, 6);
    assert(performed(cfg, machine, Action::CreateListener) =~= seq![
        Action::CreateListener,
        Action::StartCommandCenter,
        Action::CreateMaster,
    ] + (if cfg.daemon {
        Seq::empty()
    } else {
        seq![Action::PrintNewline]
    }) + seq![Action::Finish(Ok(()))]);
}

proof fn lemma_from_background(cfg: MasterConfig, machine: Machine)
    ensures
        performed(cfg, machine, Action::CloseStdin) == seq![Action::CloseStdin] + (
        match cfg.stdout {
            Some(path) => seq![Action::RedirectStdout(path)],
            None => Seq::empty(),
        }) + (match cfg.stderr {
            Some(path) => seq![Action::RedirectStderr(path)],
            None => Seq::empty(),
        }) + seq![Action::SetUmask(0o22)] + performed(cfg, machine, Action::CreateListener),
{
    reveal_with_fuel(performed, 4);
    assert(performed(cfg, machine, Action::CloseStdin) =~= seq![Action::CloseStdin] + (
    match cfg.stdout {
        Some(path) => seq![Action::RedirectStdout(path)],
        None => Seq::empty(),
    }) + (match cfg.stderr {
        Some(path) => seq![Action::RedirectStderr(path)],
        None => Seq::empty(),
    }) + seq![Action::SetUmask(0o22)] + performed(cfg, machine, Action::CreateListener));
}

proof fn lemma_to_host(cfg: MasterConfig, machine: Machine)
    requires
        machine.directory,
    ensures
        start_actions(cfg, machine) == seq![Action::InitLogging, Action::ChangeDir(cfg.directory)]
            + performed(cfg, machine, Action::BindHost(0)),
{
    reveal_with_fuel(performed, 3);
    assert(start_actions(cfg, machine) =~= seq![
        Action::InitLogging,
        Action::ChangeDir(cfg.directory),
    ] + performed(cfg, machine, Action::BindHost(0)));
}

proof fn lemma_from_sock(cfg: MasterConfig, machine: Machine)
    requires
        machine.sock_available(),
    ensures
        performed(cfg, machine, Action::BindSock(cfg.sock)) == seq![Action::BindSock(cfg.sock)] + (
        if machine.sock is Bound {
            Seq::empty()
        } else {
            seq![Action::CheckAlive, Action::RemoveSock(cfg.sock), Action::RebindSock(cfg.sock)]
        }) + performed(cfg, machine, Action::SavePid(cfg.pid)),
{
    reveal_with_fuel(performed, 5);
    assert(performed(cfg, machine, Action::BindSock(cfg.sock)) =~= seq![
        Action::BindSock(cfg.sock),
    ] + (if machine.sock is Bound {
        Seq::empty()
    } else {
        seq![Action::CheckAlive, Action::RemoveSock(cfg.sock), Action::RebindSock(cfg.sock)]
    }) + performed(cfg, machine, Action::SavePid(cfg.pid)));
}

proof fn lemma_from_pid(cfg: MasterConfig, machine: Machine)
    requires
        machine.pid,
        cfg.uid is Some ==> machine.uid,
        cfg.gid is Some ==> machine.gid,
        cfg.daemon ==> machine.daemon,
    ensures
        performed(cfg, machine, Action::SavePid(cfg.pid)) == seq![Action::SavePid(cfg.pid)] + (
        match cfg.uid {
            Some(uid) => seq![Action::SetUid(uid)],
            None => Seq::empty(),
        }) + (match cfg.gid {
            Some(gid) => seq![Action::SetGid(gid)],
            None => Seq::empty(),
        }) + (if cfg.daemon {
            seq![Action::Daemonize { nochdir: true, noclose: false }] + performed(
                cfg,
                machine,
                Action::CloseStdin,
            )
        } else {
            performed(cfg, machine, Action::CreateListener)
        }),
{
    reveal_with_fuel(performed, 4);
    assert(performed(cfg, machine, Action::SavePid(cfg.pid)) =~= seq![Action::SavePid(cfg.pid)] + (
    match cfg.uid {
        Some(uid) => seq![Action::SetUid(uid)],
        None => Seq::empty(),
    }) + (match cfg.gid {
        Some(gid) => seq![Action::SetGid(gid)],
        None => Seq::empty(),
    }) + (if cfg.daemon {
        seq![Action::Daemonize { nochdir: true, noclose: false }] + performed(
            cfg,
            machine,
            Action::CloseStdin,
        )
    } else {
        performed(cfg, machine, Action::CreateListener)
    }));
}

proof fn lemma_joined(
    enter: Seq<Action>,
    host: Seq<Action>,
    bind: Seq<Action>,
    stale: Seq<Action>,
    save: Seq<Action>,
    user: Seq<Action>,
    group: Seq<Action>,
    background: Seq<Action>,
    listen: Seq<Action>,
    newline: Seq<Action>,
)
    ensures
        enter + (host + (bind + stale + (save + user + group + (background + (listen + newline
            + seq![Action::Finish(Ok(()))]))))) == enter + host + bind + stale + save + user + group
            + background + listen + newline + seq![Action::Finish(Ok(()))],
{
    let end = seq![Action::Finish(Ok(()))];
    let front = enter + host + bind + stale;
    let middle = save + user + group;
    assert(listen + newline + end =~= listen + (newline + end));
    assert(background + (listen + newline + end) =~= background + listen + newline + end);
    assert(middle + (background + listen + newline + end) =~= middle + background + listen + newline
        + end);
    assert(front + (middle + background + listen + newline + end) =~= front + middle + background
        + listen + newline + end);
    assert(front + middle =~= front + save + user + group);
    let later = middle + background + listen + newline + end;
    assert(enter + (host + (bind + stale + later)) =~= front + later);
}

/// A start that nothing stops goes through these actions, in this order: it enters the
/// directory, tries `HOST` until it is free with five seconds between two attempts,
/// creates the control socket, in place of a stale one where there is one, saves the
/// process id, takes on the user and then the group, goes to the background with its
/// streams redirected where it is a daemon, and serves.
#[verifier::spinoff_prover]
#[verifier::rlimit(40)]
pub proof fn undisturbed_start<C>(startup: Startup<C>, machine: Machine, cmd: C, first: u8)
    requires
        startup.action is InitLogging,
        machine.directory,
        first <= 8,
        machine.host_free.contains(first),
        forall|i: u8| i < first ==> !#[trigger] machine.host_free.contains(i),
        machine.sock is Bound || machine.sock is AddrInUse && machine.master is NotAlive
            && machine.sock_again,
        machine.pid,
        startup.cfg.master.uid is Some ==> machine.uid,
        startup.cfg.master.gid is Some ==> machine.gid,
        startup.cfg.master.daemon ==> machine.daemon,
        machine.listener,
    ensures
        ({
            let cfg = startup.cfg.master;
            let nothing = Seq::<Action>::empty();
            let host = Seq::new(
                (2 * first + 1) as nat,
                |i: int|
                    if i % 2 == 0 {
                        Action::BindHost((i / 2) as u8)
                    } else {
                        Action::Sleep(5, (i / 2 + 1) as u8)
                    },
            );
            let stale = if machine.sock is Bound {
                nothing
            } else {
                seq![Action::CheckAlive, Action::RemoveSock(cfg.sock), Action::RebindSock(cfg.sock)]
            };
            let user = match cfg.uid {
                Some(uid) => seq![Action::SetUid(uid)],
                None => nothing,
            };
            let group = match cfg.gid {
                Some(gid) => seq![Action::SetGid(gid)],
                None => nothing,
            };
            let stdout = match cfg.stdout {
                Some(path) => seq![Action::RedirectStdout(path)],
                None => nothing,
            };
            let stderr = match cfg.stderr {
                Some(path) => seq![Action::RedirectStderr(path)],
                None => nothing,
            };
            let background = if cfg.daemon {
                seq![Action::Daemonize { nochdir: true, noclose: false }, Action::CloseStdin]
                    + stdout + stderr + seq![Action::SetUmask(0o22)]
            } else {
                nothing
            };
            let newline = if cfg.daemon {
                nothing
            } else {
                seq![Action::PrintNewline]
            };
            at_hand(startup, machine, cmd) == seq![
                Action::InitLogging,
                Action::ChangeDir(cfg.directory),
            ] + host + seq![Action::BindSock(cfg.sock)] + stale + seq![Action::SavePid(cfg.pid)]
                + user + group + background + seq![
                Action::CreateListener,
                Action::StartCommandCenter,
                Action::CreateMaster,
            ] + newline + seq![Action::Finish(Ok(()))]
        }),
{
    let cfg = startup.config();
    let nothing = Seq::<Action>::empty();
    let host = Seq::new(
        (2 * first + 1) as nat,
        |i: int|
            if i % 2 == 0 {
                Action::BindHost((i / 2) as u8)
            } else {
                Action::Sleep(5, (i / 2 + 1) as u8)
            },
    );
    let stale = if machine.sock is Bound {
        nothing
    } else {
        seq![Action::CheckAlive, Action::RemoveSock(cfg.sock), Action::RebindSock(cfg.sock)]
    };
    let user = match cfg.uid {
        Some(uid) => seq![Action::SetUid(uid)],
        None => nothing,
    };
    let group = match cfg.gid {
        Some(gid) => seq![Action::SetGid(gid)],
        None => nothing,
    };
    let stdout = match cfg.stdout {
        Some(path) => seq![Action::RedirectStdout(path)],
        None => nothing,
    };
    let stderr = match cfg.stderr {
        Some(path) => seq![Action::RedirectStderr(path)],
        None => nothing,
    };
    let daemonize = seq![Action::Daemonize { nochdir: true, noclose: false }];
    let umask = seq![Action::SetUmask(0o22)];
    let newline = if cfg.daemon {
        nothing
    } else {
        seq![Action::PrintNewline]
    };
    let listen = seq![Action::CreateListener, Action::StartCommandCenter, Action::CreateMaster];
    let serve = listen + newline + seq![Action::Finish(Ok(()))];
    let streams = seq![Action::CloseStdin] + stdout + stderr + umask;
    let background = if cfg.daemon {
        seq![Action::Daemonize { nochdir: true, noclose: false }, Action::CloseStdin] + stdout
            + stderr + umask
    } else {
        nothing
    };
    let enter = seq![Action::InitLogging, Action::ChangeDir(cfg.directory)];
    let bind = seq![Action::BindSock(cfg.sock)];
    let save = seq![Action::SavePid(cfg.pid)];
    start_goes_through_sequence(startup, machine, cmd);
    lemma_attempts(cfg, machine, 0, first);
    assert(attempts(0, first) =~= host);
    lemma_to_host(cfg, machine);
    lemma_from_sock(cfg, machine);
    lemma_from_pid(cfg, machine);
    lemma_from_background(cfg, machine);
    lemma_from_listener(cfg, machine);
    let from_group = if cfg.daemon {
        daemonize + performed(cfg, machine, Action::CloseStdin)
    } else {
        performed(cfg, machine, Action::CreateListener)
    };
    assert(from_group == background + serve) by {
        if cfg.daemon {
            assert(daemonize + (streams + serve) =~= (daemonize + streams) + serve);
            assert(daemonize + streams =~= background);
        } else {
            assert(background + serve =~= serve);
        }
    }
    lemma_joined(enter, host, bind, stale, save, user, group, background, listen, newline);
}

/// The masters that the start hands out from now on.
pub open spec fn masters<C>(startup: Startup<C>, machine: Machine, cmd: C) -> Seq<Master<C>>
    decreases distance(startup.action),
{
    if startup.action is Finish {
        Seq::empty()
    } else {
        let later = masters(stepped(startup, machine, cmd), machine, cmd);
        match startup.master() {
            Some(master) => seq![master] + later,
            None => later,
        }
    }
}

#[verifier::spinoff_prover]
#[verifier::rlimit(40)]
proof fn lemma_masters<C>(startup: Startup<C>, machine: Machine, cmd: C)
    requires
        startup.wf(),
        startup.action is CreateMaster ==> startup.cmd == Some(cmd),
    ensures
        masters(startup, machine, cmd) == if distance(startup.action) >= 2 && verdict_from(
            startup.config(),
            machine,
            startup.action,
        ) is Ok {
            seq![Master { cfg: startup.cfg, cmd }]
        } else {
            Seq::empty()
        },
    decreases distance(startup.action),
{
    if !(startup.action is Finish) {
        let after = stepped(startup, machine, cmd);
        lemma_masters(after, machine, cmd);
        assert(masters(startup, machine, cmd) =~= if distance(startup.action) >= 2
            && verdict_from(startup.config(), machine, startup.action) is Ok {
            seq![Master { cfg: startup.cfg, cmd }]
        } else {
            Seq::empty()
        });
    }
}

/// A start that succeeds hands out one master, which has the configuration of the
/// start and reaches the command center that was started. One that fails hands out
/// none.
pub proof fn start_hands_out_one_master<C>(startup: Startup<C>, machine: Machine, cmd: C)
    requires
        startup.action is InitLogging,
        startup.cmd is None,
    ensures
        masters(startup, machine, cmd) == if start_result(startup.config(), machine) is Ok {
            seq![Master { cfg: startup.cfg, cmd }]
        } else {
            Seq::empty()
        },
{
    lemma_masters(startup, machine, cmd);
    lemma_verdict_from(startup.config(), machine, Action::InitLogging);
}

/// The configurations that the start hands to command centers from now on.
pub open spec fn centers<C>(startup: Startup<C>, machine: Machine, cmd: C) -> Seq<Rc<Config>>
    decreases distance(startup.action),
{
    if startup.action is Finish {
        Seq::empty()
    } else {
        let later = centers(stepped(startup, machine, cmd), machine, cmd);
        match startup.center() {
            Some(cfg) => seq![cfg] + later,
            None => later,
        }
    }
}

#[verifier::spinoff_prover]
#[verifier::rlimit(40)]
proof fn lemma_centers<C>(startup: Startup<C>, machine: Machine, cmd: C)
    ensures
        centers(startup, machine, cmd) == if distance(startup.action) >= distance(
            Action::StartCommandCenter,
        ) && verdict_from(startup.config(), machine, startup.action) is Ok {
            seq![startup.cfg]
        } else {
            Seq::empty()
        },
    decreases distance(startup.action),
{
    if !(startup.action is Finish) {
        lemma_centers(stepped(startup, machine, cmd), machine, cmd);
        assert(centers(startup, machine, cmd) =~= if distance(startup.action) >= distance(
            Action::StartCommandCenter,
        ) && verdict_from(startup.config(), machine, startup.action) is Ok {
            seq![startup.cfg]
        } else {
            Seq::empty()
        });
    }
}

/// A start that succeeds starts one command center, with the configuration of the
/// start, which is the one that the master keeps. One that fails starts none.
pub proof fn center_has_configuration_of_master<C>(
    startup: Startup<C>,
    machine: Machine,
    cmd: C,
)
    requires
        startup.action is InitLogging,
        startup.cmd is None,
    ensures
        centers(startup, machine, cmd) == if start_result(startup.config(), machine) is Ok {
            seq![startup.cfg]
        } else {
            Seq::empty()
        },
        centers(startup, machine, cmd) == masters(startup, machine, cmd).map_values(
            |master: Master<C>| master.cfg,
        ),
{
    lemma_centers(startup, machine, cmd);
    start_hands_out_one_master(startup, machine, cmd);
    lemma_verdict_from(startup.config(), machine, Action::InitLogging);
}

/// A start that succeeds has saved the process id, and has set the user and the group
/// that the configuration asks for.
pub proof fn started_master_has_user_and_group(cfg: MasterConfig, machine: Machine)
    requires
        start_result(cfg, machine) is Ok,
    ensures
        start_actions(cfg, machine).contains(Action::SavePid(cfg.pid)),
        cfg.uid matches Some(uid) ==> machine.uid && start_actions(cfg, machine).contains(
            Action::SetUid(uid),
        ),
        cfg.gid matches Some(gid) ==> machine.gid && start_actions(cfg, machine).contains(
            Action::SetGid(gid),
        ),
{
    start_succeeds_iff_no_obstacle(cfg, machine);
    start_performs_exactly(cfg, machine, Action::SavePid(cfg.pid));
    if let Some(uid) = cfg.uid {
        start_performs_exactly(cfg, machine, Action::SetUid(uid));
    }
    if let Some(gid) = cfg.gid {
        start_performs_exactly(cfg, machine, Action::SetGid(gid));
    }
}

/// A master that stays in the foreground leaves its standard streams and its file
/// mode creation mask alone.
pub proof fn foreground_master_keeps_streams(cfg: MasterConfig, machine: Machine, action: Action)
    requires
        !cfg.daemon,
        start_actions(cfg, machine).contains(action),
    ensures
        !(action is Daemonize || action is CloseStdin || action is RedirectStdout
            || action is RedirectStderr || action is SetUmask),
{
    start_performs_exactly(cfg, machine, action);
}

/// `actions` are the actions at hand one after the other, from the beginning on, when
/// they come to `events`.
pub open spec fn is_run(cfg: MasterConfig, actions: Seq<Action>, events: Seq<Event>) -> bool {
    &&& actions.len() == events.len() + 1
    &&& actions[0] == Action::InitLogging
    &&& forall|i: int|
        0 <= i < events.len() ==> {
            &&& answers(#[trigger] events[i], actions[i])
            &&& actions[i + 1] == next(cfg, actions[i], events[i])
        }
}

proof fn lemma_run_order(
    cfg: MasterConfig,
    actions: Seq<Action>,
    events: Seq<Event>,
    i: int,
    j: int,
)
    requires
        is_run(cfg, actions, events),
        0 <= i < j < actions.len(),
    ensures
        distance(actions[i]) > distance(actions[j]),
    decreases j,
{
    assert(answers(events[j - 1], actions[j - 1]));
    assert(distance(actions[j - 1]) > distance(actions[j]));
    if i < j - 1 {
        lemma_run_order(cfg, actions, events, i, j - 1);
    }
}

/// What the action at the distance came to.
spec fn came_to(actions: Seq<Action>, events: Seq<Event>, at: nat) -> Event {
    events[choose|i: int| 0 <= i < events.len() && distance(#[trigger] actions[i]) == at]
}

/// A machine on which the actions come to the events.
spec fn machine_of(actions: Seq<Action>, events: Seq<Event>) -> Machine {
    Machine {
        directory: came_to(actions, events, 35) == Event::Tried(true),
        host_free: Set::new(
            |attempt: u8|
                came_to(actions, events, host_distance(attempt)) == Event::Tried(true),
        ),
        sock: came_to(actions, events, 16)->Sock_0,
        master: came_to(actions, events, 15)->Master_0,
        left_pid: came_to(actions, events, 1)->Pid_0,
        sock_again: came_to(actions, events, 13) == Event::Tried(true),
        pid: came_to(actions, events, 12) == Event::Tried(true),
        uid: came_to(actions, events, 11) == Event::Tried(true),
        gid: came_to(actions, events, 10) == Event::Tried(true),
        daemon: came_to(actions, events, 9) == Event::Tried(true),
        stdout: came_to(actions, events, 7) == Event::Tried(true),
        stderr: came_to(actions, events, 6) == Event::Tried(true),
        listener: came_to(actions, events, 4) == Event::Tried(true),
    }
}

/// Whatever events a start is told of, there is a machine on which its actions come to
/// just these events: what holds on every machine holds of every start.
pub proof fn every_run_is_on_a_machine(
    cfg: MasterConfig,
    actions: Seq<Action>,
    events: Seq<Event>,
) -> (machine: Machine)
    requires
        is_run(cfg, actions, events),
    ensures
        forall|i: int|
            0 <= i < events.len() ==> #[trigger] events[i] == machine.event(actions[i]),
        actions.len() <= start_actions(cfg, machine).len(),
        actions == start_actions(cfg, machine).take(actions.len() as int),
{
    let machine = machine_of(actions, events);
    assert forall|i: int| 0 <= i < events.len() implies #[trigger] events[i] == machine.event(
        actions[i],
    ) by {
        let at = distance(actions[i]);
        let k = choose|k: int| 0 <= k < events.len() && distance(#[trigger] actions[k]) == at;
        if k < i {
            lemma_run_order(cfg, actions, events, k, i);
        } else if i < k {
            lemma_run_order(cfg, actions, events, i, k);
        }
        assert(came_to(actions, events, at) == events[i]);
        assert(answers(events[i], actions[i]));
    }
    let last = actions.len() - 1;
    lemma_run_is_prefix(cfg, machine, actions, events, last);
    lemma_order(cfg, machine, actions[last]);
    assert(actions =~= start_actions(cfg, machine).take(actions.len() as int));
    machine
}

proof fn lemma_run_is_prefix(
    cfg: MasterConfig,
    machine: Machine,
    actions: Seq<Action>,
    events: Seq<Event>,
    i: int,
)
    requires
        is_run(cfg, actions, events),
        forall|k: int|
            0 <= k < events.len() ==> #[trigger] events[k] == machine.event(actions[k]),
        0 <= i < actions.len(),
    ensures
        start_actions(cfg, machine) == actions.take(i) + performed(cfg, machine, actions[i]),
    decreases i,
{
    if i == 0 {
        assert(actions.take(0) + performed(cfg, machine, actions[0]) =~= performed(
            cfg,
            machine,
            actions[0],
        ));
    } else {
        lemma_run_is_prefix(cfg, machine, actions, events, i - 1);
        assert(answers(events[i - 1], actions[i - 1]));
        assert(actions.take(i - 1) + performed(cfg, machine, actions[i - 1]) =~= actions.take(i)
            + performed(cfg, machine, actions[i]));
    }
}

} // verus!
