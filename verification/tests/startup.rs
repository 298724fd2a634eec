use std::rc::Rc;

use fectl::master::Master;
use fectl::startup::{
    start, Action, AliveStatus, Config, Event, MasterConfig, SockBind, StartError, Startup, HOST,
};

struct World {
    directory: bool,
    free_at: Option<u8>,
    sock: SockBind,
    master: AliveStatus,
    left_pid: Option<i32>,
    sock_again: bool,
    pid: bool,
    uid: bool,
    gid: bool,
    daemon: bool,
    streams: bool,
    listener: bool,
}

fn fine() -> World {
    World {
        directory: true,
        free_at: Some(0),
        sock: SockBind::Bound,
        master: AliveStatus::NotAlive,
        left_pid: None,
        sock_again: true,
        pid: true,
        uid: true,
        gid: true,
        daemon: true,
        streams: true,
        listener: true,
    }
}

fn plain() -> Config {
    Config {
        master: MasterConfig {
            directory: "/srv".to_string(),
            sock: "/srv/fectl.sock".to_string(),
            pid: "/srv/fectl.pid".to_string(),
            uid: None,
            gid: None,
            daemon: false,
            stdout: None,
            stderr: None,
        },
    }
}

fn daemon() -> Config {
    let mut cfg = plain();
    cfg.master.uid = Some(33);
    cfg.master.gid = Some(34);
    cfg.master.daemon = true;
    cfg.master.stdout = Some("/var/log/out".to_string());
    cfg.master.stderr = Some("/var/log/err".to_string());
    cfg
}

fn event(world: &World, action: &Action) -> Event {
    match action {
        Action::ChangeDir(_) => Event::Tried(world.directory),
        Action::BindHost(attempt) => Event::Tried(world.free_at == Some(*attempt)),
        Action::BindSock(_) => Event::Sock(world.sock),
        Action::CheckAlive => Event::Master(world.master),
        Action::LoadPid(_) => Event::Pid(world.left_pid),
        Action::RebindSock(_) => Event::Tried(world.sock_again),
        Action::SavePid(_) => Event::Tried(world.pid),
        Action::SetUid(_) => Event::Tried(world.uid),
        Action::SetGid(_) => Event::Tried(world.gid),
        Action::Daemonize { .. } => Event::Tried(world.daemon),
        Action::RedirectStdout(_) | Action::RedirectStderr(_) => Event::Tried(world.streams),
        Action::CreateListener => Event::Tried(world.listener),
        _ => Event::Done,
    }
}

/// The actions in short, and the end.
fn run(cfg: Config, world: &World) -> (Vec<String>, Startup<u32>) {
    let (actions, startup, _, _) = run_with_actors(cfg, world);
    (actions, startup)
}

/// The actions in short, the end, the configurations that were handed to command
/// centers, and the masters that were handed out.
fn run_with_actors(
    cfg: Config,
    world: &World,
) -> (Vec<String>, Startup<u32>, Vec<Rc<Config>>, Vec<Master<u32>>) {
    let mut startup = start(cfg);
    let mut centers = Vec::new();
    let mut masters = Vec::new();
    let mut actions = Vec::new();
    while startup.finished().is_none() {
        actions.push(format!("{:?}", startup.action));
        centers.extend(startup.center_config());
        match startup.action {
            Action::StartCommandCenter => assert!(startup.center_started(42)),
            Action::CreateMaster => masters.push(startup.create_master().unwrap()),
            _ => {
                let e = event(world, &startup.action);
                assert!(startup.advance(e));
            }
        }
        assert!(actions.len() <= 36);
    }
    (actions, startup, centers, masters)
}

fn fails_with(cfg: Config, world: &World, error: StartError) {
    let (_, startup) = run(cfg, world);
    assert_eq!(startup.finished(), Some(false));
    assert_eq!(startup.action, Action::Finish(Err(error)));
}

#[test]
fn host_address() {
    assert_eq!(HOST, "127.0.0.1:57897");
}

#[test]
fn foreground_start() {
    let (actions, startup) = run(plain(), &fine());
    assert_eq!(
        actions,
        vec![
            "InitLogging",
            "ChangeDir(\"/srv\")",
            "BindHost(0)",
            "BindSock(\"/srv/fectl.sock\")",
            "SavePid(\"/srv/fectl.pid\")",
            "CreateListener",
            "StartCommandCenter",
            "CreateMaster",
            "PrintNewline",
        ]
    );
    assert_eq!(startup.finished(), Some(true));
    assert_eq!(startup.action, Action::Finish(Ok(())));
}

#[test]
fn daemon_start() {
    let (actions, startup) = run(daemon(), &fine());
    assert_eq!(
        actions[4..],
        [
            "SavePid(\"/srv/fectl.pid\")",
            "SetUid(33)",
            "SetGid(34)",
            "Daemonize { nochdir: true, noclose: false }",
            "CloseStdin",
            "RedirectStdout(\"/var/log/out\")",
            "RedirectStderr(\"/var/log/err\")",
            "SetUmask(18)",
            "CreateListener",
            "StartCommandCenter",
            "CreateMaster",
        ]
    );
    assert_eq!(startup.finished(), Some(true));
}

#[test]
fn daemon_start_without_redirection() {
    let mut cfg = daemon();
    cfg.master.stdout = None;
    cfg.master.stderr = None;
    let (actions, _) = run(cfg, &fine());
    assert_eq!(actions[8..10], ["CloseStdin", "SetUmask(18)"]);
}

#[test]
fn daemon_start_survives_failed_redirection() {
    let mut world = fine();
    world.streams = false;
    let (_, startup) = run(daemon(), &world);
    assert_eq!(startup.finished(), Some(true));
}

#[test]
fn directory_must_be_entered() {
    let mut world = fine();
    world.directory = false;
    fails_with(plain(), &world, StartError::DirectoryNotChanged);
}

#[test]
fn host_is_tried_nine_times() {
    let mut world = fine();
    world.free_at = None;
    let (actions, startup) = run(plain(), &world);
    assert_eq!(startup.action, Action::Finish(Err(StartError::HostInUse)));
    let tries = actions.iter().filter(|a| a.starts_with("BindHost")).count();
    let sleeps = actions.iter().filter(|a| a.starts_with("Sleep(5, ")).count();
    assert_eq!((tries, sleeps), (9, 8));
    assert_eq!(actions.last().map(|a| a.as_str()), Some("BindHost(8)"));
}

#[test]
fn host_may_become_free() {
    let mut world = fine();
    world.free_at = Some(8);
    let (actions, startup) = run(plain(), &world);
    assert_eq!(startup.finished(), Some(true));
    assert_eq!(actions.iter().filter(|a| a.starts_with("Sleep")).count(), 8);
    world.free_at = Some(9);
    fails_with(plain(), &world, StartError::HostInUse);
}

#[test]
fn socket_may_be_denied() {
    let mut world = fine();
    world.sock = SockBind::PermissionDenied;
    fails_with(plain(), &world, StartError::SocketPermissionDenied);
    world.sock = SockBind::Failed;
    fails_with(plain(), &world, StartError::SocketNotCreated);
}

#[test]
fn running_master_is_left_alone() {
    let mut world = fine();
    world.sock = SockBind::AddrInUse;
    world.master = AliveStatus::Alive;
    let (actions, startup) = run(plain(), &world);
    assert_eq!(startup.action, Action::Finish(Err(StartError::MasterRunning)));
    assert!(!actions.iter().any(|a| a.starts_with("RemoveSock")));
}

#[test]
fn silent_master_is_named() {
    let mut world = fine();
    world.sock = SockBind::AddrInUse;
    world.master = AliveStatus::NotResponding;
    fails_with(plain(), &world, StartError::MasterNotResponding(None));
    world.left_pid = Some(4711);
    fails_with(plain(), &world, StartError::MasterNotResponding(Some(4711)));
    let (actions, _) = run(plain(), &world);
    assert_eq!(
        actions[4..],
        ["CheckAlive", "LoadPid(\"/srv/fectl.pid\")"]
    );
}

#[test]
fn stale_socket_is_replaced() {
    let mut world = fine();
    world.sock = SockBind::AddrInUse;
    let (actions, startup) = run(plain(), &world);
    assert_eq!(
        actions[4..8],
        [
            "CheckAlive",
            "RemoveSock(\"/srv/fectl.sock\")",
            "RebindSock(\"/srv/fectl.sock\")",
            "SavePid(\"/srv/fectl.pid\")",
        ]
    );
    assert_eq!(startup.finished(), Some(true));
    world.sock_again = false;
    fails_with(plain(), &world, StartError::SocketNotCreated);
}

#[test]
fn later_obstacles_end_the_start() {
    let mut world = fine();
    world.pid = false;
    fails_with(daemon(), &world, StartError::PidNotSaved);
    world = fine();
    world.uid = false;
    fails_with(daemon(), &world, StartError::UidNotSet);
    world = fine();
    world.gid = false;
    fails_with(daemon(), &world, StartError::GidNotSet);
    world = fine();
    world.daemon = false;
    fails_with(daemon(), &world, StartError::NotDaemonized);
    world = fine();
    world.listener = false;
    fails_with(daemon(), &world, StartError::ListenerNotCreated);
}

#[test]
fn unused_abilities_are_no_obstacle() {
    let mut world = fine();
    world.uid = false;
    world.gid = false;
    world.daemon = false;
    let (_, startup) = run(plain(), &world);
    assert_eq!(startup.finished(), Some(true));
}

#[test]
fn first_obstacle_counts() {
    let mut world = fine();
    world.listener = false;
    world.uid = false;
    world.sock = SockBind::PermissionDenied;
    fails_with(daemon(), &world, StartError::SocketPermissionDenied);
}

#[test]
fn event_of_another_action_is_not_accepted() {
    let mut startup: Startup<u32> = start(plain());
    assert!(!startup.advance(Event::Tried(true)));
    assert!(!startup.center_started(1));
    assert!(startup.create_master().is_none());
    assert_eq!(startup.cmd, None);
    assert_eq!(startup.action, Action::InitLogging);
    assert!(startup.advance(Event::Done));
    assert!(!startup.advance(Event::Sock(SockBind::Bound)));
    assert!(!startup.advance(Event::Done));
    assert!(startup.advance(Event::Tried(false)));
    assert_eq!(startup.finished(), Some(false));
    assert!(!startup.advance(Event::Done));
    assert!(!startup.advance(Event::Tried(true)));
    assert_eq!(startup.finished(), Some(false));
}

#[test]
fn successful_start_hands_out_one_master() {
    let (_, startup, _, masters) = run_with_actors(daemon(), &fine());
    assert_eq!(masters.len(), 1);
    assert_eq!(masters[0].cmd, 42);
    assert_eq!(*masters[0].cfg, daemon());
    assert_eq!(startup.cmd, None);
    let mut world = fine();
    world.listener = false;
    let (actions, _, _, masters) = run_with_actors(daemon(), &world);
    assert_eq!(masters.len(), 0);
    assert!(!actions.iter().any(|a| a == "StartCommandCenter"));
}

#[test]
fn master_needs_its_command_center() {
    let mut startup: Startup<u32> = start(plain());
    startup.action = Action::StartCommandCenter;
    assert!(!startup.advance(Event::Done));
    assert!(startup.center_started(7));
    assert!(!startup.advance(Event::Done));
    assert!(!startup.center_started(8));
    assert_eq!(startup.create_master().map(|m| m.cmd), Some(7));
    assert!(startup.create_master().is_none());
    assert_eq!(startup.action, Action::PrintNewline);
}

#[test]
fn command_center_has_configuration_of_master() {
    let (_, startup, centers, masters) = run_with_actors(daemon(), &fine());
    assert_eq!(centers.len(), 1);
    assert_eq!(*centers[0], daemon());
    assert!(Rc::ptr_eq(&centers[0], &masters[0].cfg));
    assert!(startup.center_config().is_none());
    let mut world = fine();
    world.listener = false;
    let (_, _, centers, _) = run_with_actors(daemon(), &world);
    assert!(centers.is_empty());
}
