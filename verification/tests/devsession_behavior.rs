use velox::{
    CpuArch, DevAction, DevProcess, DevSupervisor, Disposition, ErrorKind, ExitOutcome,
    FailureCause, OsFamily, PlatformProfile, VeloxConfig,
};

fn config_with(package_manager: &str) -> VeloxConfig {
    VeloxConfig {
        name: String::from("demo"),
        description: String::from(""),
        debug: true,
        permissions: Vec::new(),
        dev_server_url: String::from("http://localhost:8888"),
        package_manager: String::from(package_manager),
        build_dir: String::from("web/dist/"),
    }
}

fn posix() -> PlatformProfile {
    PlatformProfile { os: OsFamily::Posix, arch: CpuArch::X86_64 }
}

#[test]
fn dev_session_rejects_unknown_package_manager_before_spawning() {
    // No supervisor comes back, so neither invocation exists and nothing
    // can be spawned: zero processes on this path.
    let r = DevSupervisor::new(&config_with("cargo"), &posix());
    match r {
        Err(kind) => assert_eq!(kind, ErrorKind::InvalidConfig),
        Ok(_) => panic!("an unrecognized package manager must be rejected"),
    }
}

#[test]
fn dev_session_plan_resolves_both_invocations() {
    let s = DevSupervisor::new(&config_with("npm"), &posix()).unwrap();
    assert_eq!(s.plan.asset_server.command, "npm run dev");
    assert_eq!(s.plan.asset_server.working_dir, "web/");
    assert_eq!(s.plan.asset_server.program, "sh");
    assert_eq!(s.plan.asset_server.flag, "-c");
    assert_eq!(s.plan.asset_server.stdout, Disposition::Discard);
    assert_eq!(s.plan.asset_server.stderr, Disposition::Inherit);
    assert_eq!(s.plan.watch.command, "cargo-watch -x run");
    assert_eq!(s.plan.watch.working_dir, ".");
    assert_eq!(s.plan.watch.stdout, Disposition::Inherit);
    assert_eq!(s.plan.watch.stderr, Disposition::Inherit);

    let s = DevSupervisor::new(&config_with("yarn"), &posix()).unwrap();
    assert_eq!(s.plan.asset_server.command, "yarn run dev");

    let windows = PlatformProfile { os: OsFamily::Windows, arch: CpuArch::X86 };
    let s = DevSupervisor::new(&config_with("npm"), &windows).unwrap();
    assert_eq!(s.plan.asset_server.program, "cmd");
    assert_eq!(s.plan.asset_server.flag, "/C");
}

#[test]
fn asset_failure_stops_watch_and_surfaces_asset_error() {
    let mut s = DevSupervisor::new(&config_with("npm"), &posix()).unwrap();
    assert!(matches!(s.next_action(), DevAction::WaitAssetServer));
    s.on_asset_exit(ExitOutcome::Failure(FailureCause::NonZeroStatus(2)));
    // The supervisor never waits on the survivor: it stops it, so the
    // session cannot hang on the still-running watch process.
    assert!(matches!(s.next_action(), DevAction::StopWatch));
    s.on_watch_stopped();
    match s.next_action() {
        DevAction::Conclude { result } => {
            let failure = result.unwrap_err();
            assert_eq!(failure.kind, ErrorKind::SubprocessError);
            assert_eq!(failure.process, DevProcess::AssetServer);
            assert_eq!(failure.cause, FailureCause::NonZeroStatus(2));
        },
        other => panic!("expected the session to be over, got {:?}", other),
    }
}

#[test]
fn watch_failure_after_asset_success_is_surfaced() {
    let mut s = DevSupervisor::new(&config_with("yarn"), &posix()).unwrap();
    s.on_asset_exit(ExitOutcome::Success);
    assert!(matches!(s.next_action(), DevAction::WaitWatch));
    s.on_watch_exit(ExitOutcome::Failure(FailureCause::NonZeroStatus(101)));
    match s.next_action() {
        DevAction::Conclude { result } => {
            let failure = result.unwrap_err();
            assert_eq!(failure.kind, ErrorKind::SubprocessError);
            assert_eq!(failure.process, DevProcess::WatchLoop);
            assert_eq!(failure.cause, FailureCause::NonZeroStatus(101));
        },
        other => panic!("expected the session to be over, got {:?}", other),
    }
}

#[test]
fn dev_session_ends_well_when_both_processes_do() {
    let mut s = DevSupervisor::new(&config_with("npm"), &posix()).unwrap();
    s.on_asset_exit(ExitOutcome::Success);
    s.on_watch_exit(ExitOutcome::Success);
    match s.next_action() {
        DevAction::Conclude { result } => assert_eq!(result, Ok(())),
        other => panic!("expected the session to be over, got {:?}", other),
    }
}

#[test]
fn spawn_failure_ends_the_session_as_spawn_error() {
    let mut s = DevSupervisor::new(&config_with("npm"), &posix()).unwrap();
    s.on_spawn_failed(DevProcess::WatchLoop);
    match s.next_action() {
        DevAction::Conclude { result } => {
            let failure = result.unwrap_err();
            assert_eq!(failure.kind, ErrorKind::SpawnError);
            assert_eq!(failure.process, DevProcess::WatchLoop);
            assert_eq!(failure.cause, FailureCause::SpawnFailure);
        },
        other => panic!("expected the session to be over, got {:?}", other),
    }
}
