use glintlock::{launch_plan, Phase, StartupError, Supervisor};

/// A stand-in for an OS process handle: its process id.
type Pid = u32;

#[test]
fn launch_plan_serves_on_loopback_at_the_port() {
    let plan = launch_plan(4096, "/srv/plugin");
    assert_eq!(plan.program, "opencode");
    assert_eq!(plan.args, vec!["serve", "--hostname", "127.0.0.1", "--port", "4096"]);
    assert_eq!(plan.working_dir, "/srv/plugin");
}

#[test]
fn spawn_with_allocated_port_then_query() {
    let p: u16 = 23456;
    let mut sv: Supervisor<Pid> = Supervisor::new(p);
    let plan = sv.launch_plan("/srv/plugin");
    assert_eq!(plan.args, vec!["serve", "--hostname", "127.0.0.1", "--port", "23456"]);
    assert_eq!(sv.record_spawn(Ok(4242)), Ok(p));
    assert_eq!(sv.phase(), Phase::Running);
    assert_eq!(sv.current_port(), p);
}

#[test]
fn spawn_failure_aborts_startup() {
    let mut sv: Supervisor<Pid> = Supervisor::new(23456);
    let reason = "working directory /no/such/dir does not exist".to_string();
    let r = sv.record_spawn(Err(reason.clone()));
    assert_eq!(r, Err(StartupError::SpawnFailed { reason }));
    assert_eq!(sv.phase(), Phase::NotStarted);
    assert_eq!(sv.shutdown(), None);
}

#[test]
fn window_destroyed_kills_once() {
    let mut sv: Supervisor<Pid> = Supervisor::new(15001);
    assert_eq!(sv.record_spawn(Ok(4242)), Ok(15001));
    assert_eq!(sv.shutdown(), Some(4242));
    assert_eq!(sv.phase(), Phase::Stopped);
    assert_eq!(sv.shutdown(), None);
    assert_eq!(sv.phase(), Phase::Stopped);
}

#[test]
fn window_destroyed_before_spawn_kills_nothing() {
    let mut sv: Supervisor<Pid> = Supervisor::new(15001);
    assert_eq!(sv.shutdown(), None);
    assert_eq!(sv.phase(), Phase::NotStarted);
}

#[test]
fn port_is_fixed_for_the_whole_run() {
    let mut sv: Supervisor<Pid> = Supervisor::new(40000);
    assert_eq!(sv.current_port(), 40000);
    assert_eq!(sv.current_port(), 40000);
    sv.record_spawn(Ok(1)).unwrap();
    assert_eq!(sv.current_port(), 40000);
    sv.shutdown();
    assert_eq!(sv.current_port(), 40000);
}

#[test]
fn second_shutdown_is_a_no_op() {
    let mut sv: Supervisor<Pid> = Supervisor::new(40000);
    sv.record_spawn(Ok(9)).unwrap();
    sv.shutdown();
    assert_eq!(sv.shutdown(), None);
    assert_eq!(sv.shutdown(), None);
    assert_eq!(sv.phase(), Phase::Stopped);
    assert_eq!(sv.current_port(), 40000);
}
