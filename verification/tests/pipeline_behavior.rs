use velox::{
    BuildAction, BuildOrchestrator, BuildPhase, CpuArch, ErrorKind, ExitOutcome, FailureCause,
    FailurePolicy, OsFamily, PlatformProfile, VeloxConfig,
};

fn config_with(package_manager: &str, build_dir: &str) -> VeloxConfig {
    VeloxConfig {
        name: String::from("demo"),
        description: String::from(""),
        debug: true,
        permissions: Vec::new(),
        dev_server_url: String::from("http://localhost:8888"),
        package_manager: String::from(package_manager),
        build_dir: String::from(build_dir),
    }
}

fn posix() -> PlatformProfile {
    PlatformProfile { os: OsFamily::Posix, arch: CpuArch::X86_64 }
}

fn windows() -> PlatformProfile {
    PlatformProfile { os: OsFamily::Windows, arch: CpuArch::X86_64 }
}

#[test]
fn build_rejects_unknown_package_manager_before_spawning() {
    // No machine comes back, so no stage command can ever be issued: the
    // number of spawned processes on this path is zero by construction.
    let r = BuildOrchestrator::new(config_with("pnpm", "build/"), posix());
    match r {
        Err(kind) => assert_eq!(kind, ErrorKind::InvalidConfig),
        Ok(_) => panic!("an unrecognized package manager must be rejected"),
    }
    let r = BuildOrchestrator::new(config_with("", "build/"), windows());
    match r {
        Err(kind) => assert_eq!(kind, ErrorKind::InvalidConfig),
        Ok(_) => panic!("an empty package manager must be rejected"),
    }
}

#[test]
fn successful_posix_build_runs_packager_once_and_removes_build_dir() {
    // End-to-end: npm configuration, build/ output directory, every stage
    // succeeds on a non-Windows profile.
    let mut m = BuildOrchestrator::new(config_with("npm", "build/"), posix()).unwrap();
    let mut packager_invocations = 0;
    let mut removed: Vec<String> = Vec::new();

    match m.next_action() {
        BuildAction::RunStage { stage } => {
            assert_eq!(stage.invocation.command, "npm run build");
            assert_eq!(stage.invocation.working_dir, "web/");
            assert_eq!(stage.invocation.program, "sh");
            assert_eq!(stage.invocation.flag, "-c");
            assert_eq!(stage.failure_policy, FailurePolicy::AbortOnly);
        },
        other => panic!("expected the bundle stage, got {:?}", other),
    }
    m.on_stage_exit(ExitOutcome::Success);

    match m.next_action() {
        BuildAction::RunStage { stage } => {
            assert_eq!(stage.invocation.command, "cargo build --release");
            assert_eq!(stage.invocation.working_dir, ".");
        },
        other => panic!("expected the compile stage, got {:?}", other),
    }
    m.on_stage_exit(ExitOutcome::Success);

    match m.next_action() {
        BuildAction::InvokeNativeBundler => {
            packager_invocations += 1;
        },
        other => panic!("expected the native bundler, got {:?}", other),
    }
    m.on_stage_exit(ExitOutcome::Success);

    match m.next_action() {
        BuildAction::RemovePaths { paths } => {
            removed.extend(paths);
        },
        other => panic!("expected the final cleanup, got {:?}", other),
    }
    m.on_paths_removed(true);

    assert_eq!(packager_invocations, 1);
    assert_eq!(removed, vec![String::from("build/")]);
    match m.next_action() {
        BuildAction::Conclude { result } => assert_eq!(result, Ok(())),
        other => panic!("expected the build to be over, got {:?}", other),
    }
}

#[test]
fn bundle_failure_is_fatal_without_cleanup() {
    let mut m = BuildOrchestrator::new(config_with("yarn", "build/"), posix()).unwrap();
    match m.next_action() {
        BuildAction::RunStage { stage } => {
            assert_eq!(stage.invocation.command, "yarn run build");
        },
        other => panic!("expected the bundle stage, got {:?}", other),
    }
    m.on_stage_exit(ExitOutcome::Failure(FailureCause::NonZeroStatus(1)));
    // The machine is over at once: the next action concludes, no removal
    // is ever scheduled on this path.
    match m.next_action() {
        BuildAction::Conclude { result } => {
            let err = result.unwrap_err();
            assert_eq!(err.primary, ErrorKind::AssetBuildFailed);
            assert_eq!(err.cause, Some(FailureCause::NonZeroStatus(1)));
            assert!(!err.cleanup_failed);
        },
        other => panic!("a bundle failure must end the build, got {:?}", other),
    }
}

#[test]
fn compile_failure_cleans_build_dir_exactly_once() {
    let mut m = BuildOrchestrator::new(config_with("npm", "build/"), posix()).unwrap();
    m.on_stage_exit(ExitOutcome::Success);
    m.on_stage_exit(ExitOutcome::Failure(FailureCause::NonZeroStatus(101)));
    let mut removals = 0;
    loop {
        match m.next_action() {
            BuildAction::RemovePaths { paths } => {
                removals += 1;
                assert_eq!(paths, vec![String::from("build/")]);
                m.on_paths_removed(true);
            },
            BuildAction::Conclude { result } => {
                let err = result.unwrap_err();
                assert_eq!(err.primary, ErrorKind::CompileFailed);
                assert!(!err.cleanup_failed);
                break;
            },
            other => panic!("unexpected action {:?}", other),
        }
    }
    assert_eq!(removals, 1);
}

#[test]
fn compile_failure_reports_compile_failed_even_if_cleanup_fails() {
    let mut m = BuildOrchestrator::new(config_with("npm", "build/"), posix()).unwrap();
    m.on_stage_exit(ExitOutcome::Success);
    m.on_stage_exit(ExitOutcome::Failure(FailureCause::IoFailure));
    match m.next_action() {
        BuildAction::RemovePaths { paths } => {
            assert_eq!(paths, vec![String::from("build/")]);
        },
        other => panic!("expected the cleanup, got {:?}", other),
    }
    m.on_paths_removed(false);
    match m.next_action() {
        BuildAction::Conclude { result } => {
            let err = result.unwrap_err();
            assert_eq!(err.primary, ErrorKind::CompileFailed);
            assert!(err.cleanup_failed);
        },
        other => panic!("expected the build to be over, got {:?}", other),
    }
}

#[test]
fn windows_build_places_artifacts_writes_script_and_cleans_both() {
    let mut m = BuildOrchestrator::new(config_with("npm", "build/"), windows()).unwrap();
    match m.next_action() {
        BuildAction::RunStage { stage } => {
            assert_eq!(stage.invocation.program, "cmd");
            assert_eq!(stage.invocation.flag, "/C");
        },
        other => panic!("expected the bundle stage, got {:?}", other),
    }
    m.on_stage_exit(ExitOutcome::Success);
    m.on_stage_exit(ExitOutcome::Success);
    assert!(matches!(m.next_action(), BuildAction::PlaceArtifacts));
    m.on_artifacts_placed(Ok(()));
    match m.next_action() {
        BuildAction::WriteBundleScript { path } => assert_eq!(path, "./create_msi.py"),
        other => panic!("expected the script write, got {:?}", other),
    }
    m.on_script_written(true);
    match m.next_action() {
        BuildAction::RunStage { stage } => {
            assert_eq!(stage.invocation.command, "python create_msi.py velox.conf.json");
            match stage.failure_policy {
                FailurePolicy::AbortAndCleanup { paths } => assert_eq!(
                    paths,
                    vec![String::from("./create_msi.py"), String::from("build/")]
                ),
                FailurePolicy::AbortOnly => panic!("the Windows packaging stage declares cleanup"),
            }
        },
        other => panic!("expected the packaging stage, got {:?}", other),
    }
    m.on_stage_exit(ExitOutcome::Success);
    // On success both intermediates are removed: the script, then the
    // build output directory.
    match m.next_action() {
        BuildAction::RemovePaths { paths } => assert_eq!(
            paths,
            vec![String::from("./create_msi.py"), String::from("build/")]
        ),
        other => panic!("expected the final cleanup, got {:?}", other),
    }
    m.on_paths_removed(true);
    match m.next_action() {
        BuildAction::Conclude { result } => assert_eq!(result, Ok(())),
        other => panic!("expected the build to be over, got {:?}", other),
    }
}

#[test]
fn windows_package_failure_cleans_script_and_build_dir() {
    let mut m = BuildOrchestrator::new(config_with("yarn", "out/"), windows()).unwrap();
    m.on_stage_exit(ExitOutcome::Success);
    m.on_stage_exit(ExitOutcome::Success);
    m.on_artifacts_placed(Ok(()));
    m.on_script_written(true);
    m.on_stage_exit(ExitOutcome::Failure(FailureCause::NonZeroStatus(2)));
    match m.next_action() {
        BuildAction::RemovePaths { paths } => assert_eq!(
            paths,
            vec![String::from("./create_msi.py"), String::from("out/")]
        ),
        other => panic!("expected the failure cleanup, got {:?}", other),
    }
    m.on_paths_removed(true);
    match m.next_action() {
        BuildAction::Conclude { result } => {
            let err = result.unwrap_err();
            assert_eq!(err.primary, ErrorKind::PackageFailed);
            assert_eq!(err.cause, Some(FailureCause::NonZeroStatus(2)));
            assert!(!err.cleanup_failed);
        },
        other => panic!("expected the build to be over, got {:?}", other),
    }
}

#[test]
fn posix_package_failure_is_fatal_without_cleanup() {
    let mut m = BuildOrchestrator::new(config_with("npm", "build/"), posix()).unwrap();
    m.on_stage_exit(ExitOutcome::Success);
    m.on_stage_exit(ExitOutcome::Success);
    assert!(matches!(m.next_action(), BuildAction::InvokeNativeBundler));
    m.on_stage_exit(ExitOutcome::Failure(FailureCause::IoFailure));
    match m.next_action() {
        BuildAction::Conclude { result } => {
            let err = result.unwrap_err();
            assert_eq!(err.primary, ErrorKind::PackageFailed);
            assert!(!err.cleanup_failed);
        },
        other => panic!("a packaging failure must end the build, got {:?}", other),
    }
}

#[test]
fn unsupported_architecture_ends_the_windows_build() {
    let profile = PlatformProfile { os: OsFamily::Windows, arch: CpuArch::Other };
    let mut m = BuildOrchestrator::new(config_with("npm", "build/"), profile).unwrap();
    m.on_stage_exit(ExitOutcome::Success);
    m.on_stage_exit(ExitOutcome::Success);
    assert!(matches!(m.next_action(), BuildAction::PlaceArtifacts));
    m.on_artifacts_placed(Err(ErrorKind::UnsupportedPlatform));
    match m.next_action() {
        BuildAction::Conclude { result } => {
            let err = result.unwrap_err();
            assert_eq!(err.primary, ErrorKind::UnsupportedPlatform);
            assert!(!err.cleanup_failed);
        },
        other => panic!("expected the build to be over, got {:?}", other),
    }
}

#[test]
fn failed_final_cleanup_surfaces_cleanup_failed() {
    let mut m = BuildOrchestrator::new(config_with("npm", "build/"), posix()).unwrap();
    m.on_stage_exit(ExitOutcome::Success);
    m.on_stage_exit(ExitOutcome::Success);
    m.on_stage_exit(ExitOutcome::Success);
    m.on_paths_removed(false);
    match m.next_action() {
        BuildAction::Conclude { result } => {
            let err = result.unwrap_err();
            assert_eq!(err.primary, ErrorKind::CleanupFailed);
        },
        other => panic!("expected the build to be over, got {:?}", other),
    }
}

#[test]
fn script_write_failure_fails_packaging_without_cleanup() {
    let mut m = BuildOrchestrator::new(config_with("npm", "build/"), windows()).unwrap();
    m.on_stage_exit(ExitOutcome::Success);
    m.on_stage_exit(ExitOutcome::Success);
    m.on_artifacts_placed(Ok(()));
    m.on_script_written(false);
    match m.next_action() {
        BuildAction::Conclude { result } => {
            let err = result.unwrap_err();
            assert_eq!(err.primary, ErrorKind::PackageFailed);
            assert_eq!(err.cause, Some(FailureCause::IoFailure));
            assert!(!err.cleanup_failed);
        },
        other => panic!("expected the build to be over, got {:?}", other),
    }
}

#[test]
fn finished_machine_reports_its_result() {
    let mut m = BuildOrchestrator::new(config_with("npm", "build/"), posix()).unwrap();
    assert!(!m.is_finished());
    m.on_stage_exit(ExitOutcome::Failure(FailureCause::SpawnFailure));
    assert!(m.is_finished());
    let err = m.result().unwrap_err();
    assert_eq!(err.primary, ErrorKind::AssetBuildFailed);
    assert_eq!(err.cause, Some(FailureCause::SpawnFailure));
    assert!(matches!(m.phase, BuildPhase::Finished { .. }));
}
