//! The development-session supervisor: two long-lived child processes — an
//! asset server in the web-asset directory and a native watch-and-rebuild
//! loop in the project root — run side by side until one of them ends. The
//! supervisor is a state machine over plain data; an unverified runner
//! spawns the processes and reports every observed exit back into it.
//!
//! Both processes are spawned before either is waited on. The first failure
//! observed wins: when the asset server fails first, the surviving watch
//! process is stopped and reaped rather than waited on indefinitely, and
//! its own outcome is suppressed.

use vstd::prelude::*;
use crate::config::{dev_command_of, valid_package_manager, VeloxConfig};
use crate::errors::ErrorKind;
use crate::platform::PlatformProfile;
use crate::process::{shell_invocation, obeys_shell_form, Disposition, ExitOutcome, FailureCause,
    Invocation};

verus! {

/// The two child processes of a development session.
#[derive(Clone, Copy, PartialEq, Eq, Structural, Debug)]
pub enum DevProcess {
    AssetServer,
    WatchLoop,
}

/// The two invocations of a session, fully resolved before either process
/// is spawned.
#[derive(Clone, PartialEq, Eq, Debug)]
pub struct DevPlan {
    pub asset_server: Invocation,
    pub watch: Invocation,
}

/// How a development session failed: which error class, which of the two
/// processes it came from, and the original cause.
#[derive(Clone, Copy, PartialEq, Eq, Structural, Debug)]
pub struct DevFailure {
    pub kind: ErrorKind,
    pub process: DevProcess,
    pub cause: FailureCause,
}

/// Where a session stands between two reported events.
#[derive(Clone, Copy, PartialEq, Eq, Debug)]
pub enum DevPhase {
    /// Both processes run; the supervisor waits on the asset server first.
    WaitingAsset,
    /// The asset server ended well; the watch process is waited on.
    WaitingWatch,
    /// The asset server failed; the surviving watch process is being
    /// stopped, and the recorded cause will be the surfaced one.
    StoppingWatch { cause: FailureCause },
    Finished { result: Result<(), DevFailure> },
}

/// What the runner is to do next.
#[derive(Clone, Copy, PartialEq, Eq, Debug)]
pub enum DevAction {
    /// Block until the asset-server process exits and report its outcome.
    WaitAssetServer,
    /// Block until the watch process exits and report its outcome.
    WaitWatch,
    /// Terminate the still-running watch process, reap it, and report.
    StopWatch,
    /// The session is over; surface this result to the caller.
    Conclude { result: Result<(), DevFailure> },
}

/// The supervisor: the resolved plan and the current phase.
pub struct DevSupervisor {
    pub plan: DevPlan,
    pub phase: DevPhase,
}

/// The plan a configuration and a platform resolve to: the asset server
/// runs the package manager's development command in the web-asset
/// directory with its standard output discarded and errors inherited; the
/// watch loop runs in the project root and inherits both streams.
pub open spec fn plan_matches(plan: DevPlan, config: VeloxConfig, platform: PlatformProfile) -> bool {
    &&& obeys_shell_form(plan.asset_server, platform.os)
    &&& plan.asset_server.command@ == dev_command_of(config.package_manager@)
    &&& plan.asset_server.working_dir@ == "web/"@
    &&& plan.asset_server.stdout is Discard
    &&& plan.asset_server.stderr is Inherit
    &&& obeys_shell_form(plan.watch, platform.os)
    &&& plan.watch.command@ == "cargo-watch -x run"@
    &&& plan.watch.working_dir@ == "."@
    &&& plan.watch.stdout is Inherit
    &&& plan.watch.stderr is Inherit
}

/// What the runner is to do in a given phase.
pub open spec fn spec_next_action(s: DevSupervisor) -> DevAction {
    match s.phase {
        DevPhase::WaitingAsset => DevAction::WaitAssetServer,
        DevPhase::WaitingWatch => DevAction::WaitWatch,
        DevPhase::StoppingWatch { cause } => DevAction::StopWatch,
        DevPhase::Finished { result } => DevAction::Conclude { result },
    }
}

/// The transition taken when a spawn fails: no session runs, the failure
/// is surfaced as a `SpawnError` of the process that could not start.
pub open spec fn spec_after_spawn_failed(s: DevSupervisor, process: DevProcess) -> DevSupervisor {
    DevSupervisor {
        phase: DevPhase::Finished {
            result: Err(
                DevFailure {
                    kind: ErrorKind::SpawnError,
                    process,
                    cause: FailureCause::SpawnFailure,
                },
            ),
        },
        ..s
    }
}

/// The transition taken when the asset server exits: success hands the
/// wait over to the watch process; failure stops the survivor.
pub open spec fn spec_after_asset_exit(s: DevSupervisor, outcome: ExitOutcome) -> DevSupervisor {
    match outcome {
        ExitOutcome::Success => DevSupervisor { phase: DevPhase::WaitingWatch, ..s },
        ExitOutcome::Failure(cause) => DevSupervisor {
            phase: DevPhase::StoppingWatch { cause },
            ..s
        },
    }
}

/// The transition taken once the stopped watch process is reaped: the
/// asset server's failure is surfaced, whatever the watch process itself
/// reported on the way down.
pub open spec fn spec_after_watch_stopped(s: DevSupervisor) -> DevSupervisor {
    match s.phase {
        DevPhase::StoppingWatch { cause } => DevSupervisor {
            phase: DevPhase::Finished {
                result: Err(
                    DevFailure {
                        kind: ErrorKind::SubprocessError,
                        process: DevProcess::AssetServer,
                        cause,
                    },
                ),
            },
            ..s
        },
        _ => s,
    }
}

/// The transition taken when the watch process exits after the asset
/// server already ended well.
pub open spec fn spec_after_watch_exit(s: DevSupervisor, outcome: ExitOutcome) -> DevSupervisor {
    match outcome {
        ExitOutcome::Success => DevSupervisor {
            phase: DevPhase::Finished { result: Ok(()) },
            ..s
        },
        ExitOutcome::Failure(cause) => DevSupervisor {
            phase: DevPhase::Finished {
                result: Err(
                    DevFailure {
                        kind: ErrorKind::SubprocessError,
                        process: DevProcess::WatchLoop,
                        cause,
                    },
                ),
            },
            ..s
        },
    }
}

impl DevSupervisor {
    /// Resolves the session plan from the configuration. An unrecognized
    /// package manager is rejected with `InvalidConfig` before anything is
    /// spawned: an `Err` here carries no plan, so no process can start.
    pub fn new(config: &VeloxConfig, platform: &PlatformProfile) -> (r: Result<
        DevSupervisor,
        ErrorKind,
    >)
        ensures
            !valid_package_manager(config.package_manager@) ==> (r matches Err(e) && e
                == ErrorKind::InvalidConfig),
            valid_package_manager(config.package_manager@) ==> (r matches Ok(s)
                && plan_matches(s.plan, *config, *platform) && s.phase is WaitingAsset),
    {
        let command = match config.resolve_dev_command() {
            Ok(c) => c,
            Err(e) => {
                return Err(e);
            },
        };
        let asset_server = shell_invocation(
            platform.os,
            command,
            "web/".to_owned(),
            Disposition::Discard,
            Disposition::Inherit,
        );
        let watch = shell_invocation(
            platform.os,
            "cargo-watch -x run".to_owned(),
            ".".to_owned(),
            Disposition::Inherit,
            Disposition::Inherit,
        );
        Ok(DevSupervisor { plan: DevPlan { asset_server, watch }, phase: DevPhase::WaitingAsset })
    }

    /// What the runner is to do next.
    pub fn next_action(&self) -> (a: DevAction)
        ensures
            a == spec_next_action(*self),
    {
        match &self.phase {
            DevPhase::WaitingAsset => DevAction::WaitAssetServer,
            DevPhase::WaitingWatch => DevAction::WaitWatch,
            DevPhase::StoppingWatch { cause: _ } => DevAction::StopWatch,
            DevPhase::Finished { result } => DevAction::Conclude { result: *result },
        }
    }

    /// Reports that one of the two processes could not be spawned.
    pub fn on_spawn_failed(&mut self, process: DevProcess)
        requires
            old(self).phase is WaitingAsset,
        ensures
            *final(self) == spec_after_spawn_failed(*old(self), process),
    {
        self.phase = DevPhase::Finished {
            result: Err(
                DevFailure {
                    kind: ErrorKind::SpawnError,
                    process,
                    cause: FailureCause::SpawnFailure,
                },
            ),
        };
    }

    /// Reports the asset server's exit.
    pub fn on_asset_exit(&mut self, outcome: ExitOutcome)
        requires
            old(self).phase is WaitingAsset,
        ensures
            *final(self) == spec_after_asset_exit(*old(self), outcome),
    {
        match outcome {
            ExitOutcome::Success => {
                self.phase = DevPhase::WaitingWatch;
            },
            ExitOutcome::Failure(cause) => {
                self.phase = DevPhase::StoppingWatch { cause };
            },
        }
    }

    /// Reports that the stopped watch process has been reaped. Its own
    /// outcome is deliberately not taken: the asset server's earlier
    /// failure is the one surfaced.
    pub fn on_watch_stopped(&mut self)
        requires
            old(self).phase is StoppingWatch,
        ensures
            *final(self) == spec_after_watch_stopped(*old(self)),
    {
        match self.phase {
            DevPhase::StoppingWatch { cause } => {
                self.phase = DevPhase::Finished {
                    result: Err(
                        DevFailure {
                            kind: ErrorKind::SubprocessError,
                            process: DevProcess::AssetServer,
                            cause,
                        },
                    ),
                };
            },
            _ => {},
        }
    }

    /// Reports the watch process's exit after the asset server ended well.
    pub fn on_watch_exit(&mut self, outcome: ExitOutcome)
        requires
            old(self).phase is WaitingWatch,
        ensures
            *final(self) == spec_after_watch_exit(*old(self), outcome),
    {
        match outcome {
            ExitOutcome::Success => {
                self.phase = DevPhase::Finished { result: Ok(()) };
            },
            ExitOutcome::Failure(cause) => {
                self.phase = DevPhase::Finished {
                    result: Err(
                        DevFailure {
                            kind: ErrorKind::SubprocessError,
                            process: DevProcess::WatchLoop,
                            cause,
                        },
                    ),
                };
            },
        }
    }
}

/// If the asset-server process fails while the watch process is still
/// running, the supervisor's next step is to stop the watch process — it
/// never waits on it — and the session's result is a `SubprocessError`
/// carrying the asset server's own failure cause, whatever the stopped
/// watch process reported.
pub proof fn lemma_first_failure_wins(s: DevSupervisor, cause: FailureCause)
    requires
        s.phase is WaitingAsset,
    ensures
        spec_next_action(spec_after_asset_exit(s, ExitOutcome::Failure(cause))) is StopWatch,
        spec_after_watch_stopped(spec_after_asset_exit(s, ExitOutcome::Failure(cause))).phase
            == (DevPhase::Finished {
            result: Err(
                DevFailure {
                    kind: ErrorKind::SubprocessError,
                    process: DevProcess::AssetServer,
                    cause,
                },
            ),
        }),
{
}

} // verus!
