//! The one-shot build pipeline: asset bundling, native compilation,
//! platform-conditional artifact relocation, packaging, and cleanup, run
//! strictly in that order with well-defined partial-failure cleanup.
//!
//! The pipeline is a state machine over plain data. Each command stage
//! declares, as data, the set of paths to remove when it fails; the
//! machine applies that policy uniformly, so the failure behaviour can be
//! audited and tested independently of the commands themselves. An
//! unverified runner executes one pending action at a time — spawn and
//! wait, move artifacts, write the bundling script, remove paths — and
//! reports what it observed back into the machine. No stage starts before
//! the previous stage's outcome is known.

use vstd::prelude::*;
use crate::config::{bundle_command_of, valid_package_manager, VeloxConfig};
use crate::errors::{ErrorKind, PipelineError};
use crate::platform::PlatformProfile;
use crate::process::{shell_invocation, obeys_shell_form, Disposition, ExitOutcome, FailureCause,
    Invocation};

verus! {

/// What a stage asks for when it fails: abort the build, or abort it after
/// removing the listed paths.
#[derive(Clone, PartialEq, Eq, Debug)]
pub enum FailurePolicy {
    AbortOnly,
    AbortAndCleanup { paths: Vec<String> },
}

/// One command stage of the build: its name, the command it executes, and
/// its failure policy as declared data.
#[derive(Clone, PartialEq, Eq, Debug)]
pub struct PipelineStage {
    pub name: String,
    pub invocation: Invocation,
    pub failure_policy: FailurePolicy,
    /// The error class reported when this stage fails.
    pub failure_error: ErrorKind,
}

/// Where a build stands between two reported events.
#[derive(Clone, Copy, PartialEq, Eq, Debug)]
pub enum BuildPhase {
    /// The asset-bundling stage runs. Nothing has been produced yet, so a
    /// failure here triggers no cleanup.
    Bundling,
    /// The native release compile runs. The build output directory now
    /// exists on disk, so a failure here must remove it.
    Compiling,
    /// Windows only: the compiled binary is moved into the distribution
    /// directory and the runtime loader is injected.
    Relocating,
    /// Windows only: the packaging script is materialized to disk.
    WritingScript,
    /// The platform packager runs.
    Packaging,
    /// The compile stage failed; its declared paths are being removed.
    CleaningAfterCompileFailure { cause: FailureCause },
    /// The Windows packaging stage failed; its declared paths are being
    /// removed.
    CleaningAfterPackageFailure { cause: FailureCause },
    /// Packaging succeeded; the intermediate artifacts are being removed.
    FinalCleanup,
    Finished { result: Result<(), PipelineError> },
}

/// What the runner is to do next.
#[derive(PartialEq, Eq, Debug)]
pub enum BuildAction {
    /// Spawn the stage's command, wait for it, and report the outcome.
    RunStage { stage: PipelineStage },
    /// Carry out the artifact placement plan and report how it went.
    PlaceArtifacts,
    /// Write the packaging script to the given path and report whether the
    /// write succeeded.
    WriteBundleScript { path: String },
    /// Invoke the native bundler directly and report its outcome; no
    /// temporary script is involved.
    InvokeNativeBundler,
    /// Remove each listed path and report whether every removal succeeded.
    RemovePaths { paths: Vec<String> },
    /// The build is over; surface this result to the caller.
    Conclude { result: Result<(), PipelineError> },
}

/// The build pipeline: the settings of the run and the current phase.
pub struct BuildOrchestrator {
    pub config: VeloxConfig,
    pub platform: PlatformProfile,
    pub phase: BuildPhase,
}

/// The fixed relative path the Windows packaging script is materialized
/// to, and removed from again before the pipeline ends.
pub open spec fn script_path() -> Seq<char> {
    "./create_msi.py"@
}

/// The contents of a list of paths.
pub open spec fn paths_view(paths: Seq<String>) -> Seq<Seq<char>> {
    paths.map_values(|p: String| p@)
}

/// The paths removed when the compile stage fails: only the build output
/// directory, which may hold partially bundled assets.
pub open spec fn compile_failure_paths(config: VeloxConfig) -> Seq<Seq<char>> {
    seq![config.build_dir@]
}

/// The paths removed when the Windows packaging stage fails: the
/// temporary script, then the build output directory.
pub open spec fn package_failure_paths(config: VeloxConfig) -> Seq<Seq<char>> {
    seq![script_path(), config.build_dir@]
}

/// The intermediate artifacts removed after successful packaging: the
/// build output directory always, preceded on Windows by the temporary
/// script.
pub open spec fn final_cleanup_paths(config: VeloxConfig, platform: PlatformProfile) -> Seq<
    Seq<char>,
> {
    if platform.os is Windows {
        seq![script_path(), config.build_dir@]
    } else {
        seq![config.build_dir@]
    }
}

/// The asset-bundling stage: the package manager's build command in the
/// web-asset directory, aborting without cleanup on failure.
pub open spec fn bundle_stage_matches(
    stage: PipelineStage,
    config: VeloxConfig,
    platform: PlatformProfile,
) -> bool {
    &&& stage.name@ == "bundle assets"@
    &&& obeys_shell_form(stage.invocation, platform.os)
    &&& stage.invocation.command@ == bundle_command_of(config.package_manager@)
    &&& stage.invocation.working_dir@ == "web/"@
    &&& stage.invocation.stdout is Inherit
    &&& stage.invocation.stderr is Inherit
    &&& stage.failure_policy is AbortOnly
    &&& stage.failure_error == ErrorKind::AssetBuildFailed
}

/// The native compile stage: the release build in the project root,
/// removing the build output directory on failure.
pub open spec fn compile_stage_matches(
    stage: PipelineStage,
    config: VeloxConfig,
    platform: PlatformProfile,
) -> bool {
    &&& stage.name@ == "compile binary"@
    &&& obeys_shell_form(stage.invocation, platform.os)
    &&& stage.invocation.command@ == "cargo build --release"@
    &&& stage.invocation.working_dir@ == "."@
    &&& stage.invocation.stdout is Inherit
    &&& stage.invocation.stderr is Inherit
    &&& (stage.failure_policy matches FailurePolicy::AbortAndCleanup { paths } && paths_view(
        paths@,
    ) == compile_failure_paths(config))
    &&& stage.failure_error == ErrorKind::CompileFailed
}

/// The Windows packaging stage: the materialized script is executed
/// against the project's configuration file, and both the script and the
/// build output directory are removed on failure.
pub open spec fn package_stage_matches(
    stage: PipelineStage,
    config: VeloxConfig,
    platform: PlatformProfile,
) -> bool {
    &&& stage.name@ == "package installer"@
    &&& obeys_shell_form(stage.invocation, platform.os)
    &&& stage.invocation.command@ == "python create_msi.py velox.conf.json"@
    &&& stage.invocation.working_dir@ == "."@
    &&& stage.invocation.stdout is Inherit
    &&& stage.invocation.stderr is Inherit
    &&& (stage.failure_policy matches FailurePolicy::AbortAndCleanup { paths } && paths_view(
        paths@,
    ) == package_failure_paths(config))
    &&& stage.failure_error == ErrorKind::PackageFailed
}

/// The action a phase asks of the runner.
pub open spec fn action_expected(m: BuildOrchestrator, a: BuildAction) -> bool {
    match m.phase {
        BuildPhase::Bundling => a matches BuildAction::RunStage { stage }
            && bundle_stage_matches(stage, m.config, m.platform),
        BuildPhase::Compiling => a matches BuildAction::RunStage { stage }
            && compile_stage_matches(stage, m.config, m.platform),
        BuildPhase::Relocating => a is PlaceArtifacts,
        BuildPhase::WritingScript => a matches BuildAction::WriteBundleScript { path } && path@
            == script_path(),
        BuildPhase::Packaging => if m.platform.os is Windows {
            a matches BuildAction::RunStage { stage } && package_stage_matches(
                stage,
                m.config,
                m.platform,
            )
        } else {
            a is InvokeNativeBundler
        },
        BuildPhase::CleaningAfterCompileFailure { cause } => a matches BuildAction::RemovePaths {
            paths,
        } && paths_view(paths@) == compile_failure_paths(m.config),
        BuildPhase::CleaningAfterPackageFailure { cause } => a matches BuildAction::RemovePaths {
            paths,
        } && paths_view(paths@) == package_failure_paths(m.config),
        BuildPhase::FinalCleanup => a matches BuildAction::RemovePaths { paths } && paths_view(
            paths@,
        ) == final_cleanup_paths(m.config, m.platform),
        BuildPhase::Finished { result } => a == (BuildAction::Conclude { result }),
    }
}

/// The machine with the given failure as its final result.
pub open spec fn finished_err(
    m: BuildOrchestrator,
    primary: ErrorKind,
    cause: Option<FailureCause>,
    cleanup_failed: bool,
) -> BuildOrchestrator {
    BuildOrchestrator {
        phase: BuildPhase::Finished {
            result: Err(PipelineError { primary, cause, cleanup_failed }),
        },
        ..m
    }
}

/// The transition taken when a command stage's outcome is known. A
/// bundling failure is final at once — nothing has been produced, nothing
/// is cleaned up. A compile failure schedules the removal of the build
/// output directory. A packaging success schedules the final cleanup; a
/// packaging failure schedules the Windows stage's declared removals, and
/// is final at once elsewhere.
pub open spec fn spec_after_stage_exit(m: BuildOrchestrator, outcome: ExitOutcome) -> BuildOrchestrator {
    match m.phase {
        BuildPhase::Bundling => match outcome {
            ExitOutcome::Success => BuildOrchestrator { phase: BuildPhase::Compiling, ..m },
            ExitOutcome::Failure(c) => finished_err(
                m,
                ErrorKind::AssetBuildFailed,
                Some(c),
                false,
            ),
        },
        BuildPhase::Compiling => match outcome {
            ExitOutcome::Success => if m.platform.os is Windows {
                BuildOrchestrator { phase: BuildPhase::Relocating, ..m }
            } else {
                BuildOrchestrator { phase: BuildPhase::Packaging, ..m }
            },
            ExitOutcome::Failure(c) => BuildOrchestrator {
                phase: BuildPhase::CleaningAfterCompileFailure { cause: c },
                ..m
            },
        },
        BuildPhase::Packaging => match outcome {
            ExitOutcome::Success => BuildOrchestrator { phase: BuildPhase::FinalCleanup, ..m },
            ExitOutcome::Failure(c) => if m.platform.os is Windows {
                BuildOrchestrator {
                    phase: BuildPhase::CleaningAfterPackageFailure { cause: c },
                    ..m
                }
            } else {
                finished_err(m, ErrorKind::PackageFailed, Some(c), false)
            },
        },
        _ => m,
    }
}

/// The transition taken when the artifact placement reports back: success
/// moves on to materializing the packaging script; any placement error is
/// fatal, with nothing to clean up, since the move is the first write into
/// the distribution directory.
pub open spec fn spec_after_artifacts_placed(
    m: BuildOrchestrator,
    result: Result<(), ErrorKind>,
) -> BuildOrchestrator {
    match result {
        Ok(_) => BuildOrchestrator { phase: BuildPhase::WritingScript, ..m },
        Err(e) => finished_err(m, e, None, false),
    }
}

/// The transition taken when the script write reports back: on failure the
/// packaging stage never ran, so nothing is cleaned up.
pub open spec fn spec_after_script_written(m: BuildOrchestrator, ok: bool) -> BuildOrchestrator {
    if ok {
        BuildOrchestrator { phase: BuildPhase::Packaging, ..m }
    } else {
        finished_err(m, ErrorKind::PackageFailed, Some(FailureCause::IoFailure), false)
    }
}

/// The transition taken when a scheduled removal reports back. A cleanup
/// failure never masks the primary failure that triggered it: it is only
/// recorded as a secondary note. Only the final cleanup of a successful
/// build turns a failed removal into the primary error.
pub open spec fn spec_after_paths_removed(m: BuildOrchestrator, ok: bool) -> BuildOrchestrator {
    match m.phase {
        BuildPhase::CleaningAfterCompileFailure { cause } => finished_err(
            m,
            ErrorKind::CompileFailed,
            Some(cause),
            !ok,
        ),
        BuildPhase::CleaningAfterPackageFailure { cause } => finished_err(
            m,
            ErrorKind::PackageFailed,
            Some(cause),
            !ok,
        ),
        BuildPhase::FinalCleanup => if ok {
            BuildOrchestrator { phase: BuildPhase::Finished { result: Ok(()) }, ..m }
        } else {
            finished_err(m, ErrorKind::CleanupFailed, None, true)
        },
        _ => m,
    }
}

impl BuildOrchestrator {
    /// A machine only drives builds of a validated configuration.
    pub open spec fn wf(self) -> bool {
        valid_package_manager(self.config.package_manager@)
    }

    /// Validates the configuration and sets the pipeline before its first
    /// stage. An unrecognized package manager is rejected with
    /// `InvalidConfig` before anything is spawned: an `Err` here carries no
    /// machine, so no stage can run.
    pub fn new(config: VeloxConfig, platform: PlatformProfile) -> (r: Result<
        BuildOrchestrator,
        ErrorKind,
    >)
        ensures
            !valid_package_manager(config.package_manager@) ==> (r matches Err(e) && e
                == ErrorKind::InvalidConfig),
            valid_package_manager(config.package_manager@) ==> (r matches Ok(m) && m.config
                == config && m.platform == platform && m.phase is Bundling && m.wf()),
    {
        if config.package_manager_is_valid() {
            Ok(BuildOrchestrator { config, platform, phase: BuildPhase::Bundling })
        } else {
            Err(ErrorKind::InvalidConfig)
        }
    }

    /// What the runner is to do next.
    pub fn next_action(&self) -> (a: BuildAction)
        requires
            self.wf(),
        ensures
            action_expected(*self, a),
    {
        match &self.phase {
            BuildPhase::Bundling => {
                let command = match self.config.resolve_bundle_command() {
                    Ok(c) => c,
                    Err(_) => {
                        return vstd::pervasive::unreached();
                    },
                };
                let invocation = shell_invocation(
                    self.platform.os,
                    command,
                    "web/".to_owned(),
                    Disposition::Inherit,
                    Disposition::Inherit,
                );
                BuildAction::RunStage {
                    stage: PipelineStage {
                        name: "bundle assets".to_owned(),
                        invocation,
                        failure_policy: FailurePolicy::AbortOnly,
                        failure_error: ErrorKind::AssetBuildFailed,
                    },
                }
            },
            BuildPhase::Compiling => {
                let invocation = shell_invocation(
                    self.platform.os,
                    "cargo build --release".to_owned(),
                    ".".to_owned(),
                    Disposition::Inherit,
                    Disposition::Inherit,
                );
                let paths = vec![self.config.build_dir.clone()];
                proof {
                    assert(paths_view(paths@) =~= compile_failure_paths(self.config));
                }
                BuildAction::RunStage {
                    stage: PipelineStage {
                        name: "compile binary".to_owned(),
                        invocation,
                        failure_policy: FailurePolicy::AbortAndCleanup { paths },
                        failure_error: ErrorKind::CompileFailed,
                    },
                }
            },
            BuildPhase::Relocating => BuildAction::PlaceArtifacts,
            BuildPhase::WritingScript => BuildAction::WriteBundleScript {
                path: "./create_msi.py".to_owned(),
            },
            BuildPhase::Packaging => {
                if self.platform.is_windows() {
                    let invocation = shell_invocation(
                        self.platform.os,
                        "python create_msi.py velox.conf.json".to_owned(),
                        ".".to_owned(),
                        Disposition::Inherit,
                        Disposition::Inherit,
                    );
                    let paths = vec![
                        "./create_msi.py".to_owned(),
                        self.config.build_dir.clone(),
                    ];
                    proof {
                        assert(paths_view(paths@) =~= package_failure_paths(self.config));
                    }
                    BuildAction::RunStage {
                        stage: PipelineStage {
                            name: "package installer".to_owned(),
                            invocation,
                            failure_policy: FailurePolicy::AbortAndCleanup { paths },
                            failure_error: ErrorKind::PackageFailed,
                        },
                    }
                } else {
                    BuildAction::InvokeNativeBundler
                }
            },
            BuildPhase::CleaningAfterCompileFailure { cause: _ } => {
                let paths = vec![self.config.build_dir.clone()];
                proof {
                    assert(paths_view(paths@) =~= compile_failure_paths(self.config));
                }
                BuildAction::RemovePaths { paths }
            },
            BuildPhase::CleaningAfterPackageFailure { cause: _ } => {
                let paths = vec![
                    "./create_msi.py".to_owned(),
                    self.config.build_dir.clone(),
                ];
                proof {
                    assert(paths_view(paths@) =~= package_failure_paths(self.config));
                }
                BuildAction::RemovePaths { paths }
            },
            BuildPhase::FinalCleanup => {
                if self.platform.is_windows() {
                    let paths = vec![
                        "./create_msi.py".to_owned(),
                        self.config.build_dir.clone(),
                    ];
                    proof {
                        assert(paths_view(paths@) =~= final_cleanup_paths(
                            self.config,
                            self.platform,
                        ));
                    }
                    BuildAction::RemovePaths { paths }
                } else {
                    let paths = vec![self.config.build_dir.clone()];
                    proof {
                        assert(paths_view(paths@) =~= final_cleanup_paths(
                            self.config,
                            self.platform,
                        ));
                    }
                    BuildAction::RemovePaths { paths }
                }
            },
            BuildPhase::Finished { result } => BuildAction::Conclude { result: *result },
        }
    }

    /// Reports the outcome of the pending command stage, or of the native
    /// bundler where packaging runs without a temporary script.
    pub fn on_stage_exit(&mut self, outcome: ExitOutcome)
        requires
            old(self).phase is Bundling || old(self).phase is Compiling || old(
                self,
            ).phase is Packaging,
        ensures
            *final(self) == spec_after_stage_exit(*old(self), outcome),
    {
        match (&self.phase, outcome) {
            (BuildPhase::Bundling, ExitOutcome::Success) => {
                self.phase = BuildPhase::Compiling;
            },
            (BuildPhase::Bundling, ExitOutcome::Failure(c)) => {
                self.phase = BuildPhase::Finished {
                    result: Err(
                        PipelineError {
                            primary: ErrorKind::AssetBuildFailed,
                            cause: Some(c),
                            cleanup_failed: false,
                        },
                    ),
                };
            },
            (BuildPhase::Compiling, ExitOutcome::Success) => {
                if self.platform.is_windows() {
                    self.phase = BuildPhase::Relocating;
                } else {
                    self.phase = BuildPhase::Packaging;
                }
            },
            (BuildPhase::Compiling, ExitOutcome::Failure(c)) => {
                self.phase = BuildPhase::CleaningAfterCompileFailure { cause: c };
            },
            (BuildPhase::Packaging, ExitOutcome::Success) => {
                self.phase = BuildPhase::FinalCleanup;
            },
            (BuildPhase::Packaging, ExitOutcome::Failure(c)) => {
                if self.platform.is_windows() {
                    self.phase = BuildPhase::CleaningAfterPackageFailure { cause: c };
                } else {
                    self.phase = BuildPhase::Finished {
                        result: Err(
                            PipelineError {
                                primary: ErrorKind::PackageFailed,
                                cause: Some(c),
                                cleanup_failed: false,
                            },
                        ),
                    };
                }
            },
            _ => {},
        }
    }

    /// Reports how the artifact placement went.
    pub fn on_artifacts_placed(&mut self, result: Result<(), ErrorKind>)
        requires
            old(self).phase is Relocating,
        ensures
            *final(self) == spec_after_artifacts_placed(*old(self), result),
    {
        match result {
            Ok(_) => {
                self.phase = BuildPhase::WritingScript;
            },
            Err(e) => {
                self.phase = BuildPhase::Finished {
                    result: Err(
                        PipelineError { primary: e, cause: None, cleanup_failed: false },
                    ),
                };
            },
        }
    }

    /// Reports whether the packaging script reached the disk.
    pub fn on_script_written(&mut self, ok: bool)
        requires
            old(self).phase is WritingScript,
        ensures
            *final(self) == spec_after_script_written(*old(self), ok),
    {
        if ok {
            self.phase = BuildPhase::Packaging;
        } else {
            self.phase = BuildPhase::Finished {
                result: Err(
                    PipelineError {
                        primary: ErrorKind::PackageFailed,
                        cause: Some(FailureCause::IoFailure),
                        cleanup_failed: false,
                    },
                ),
            };
        }
    }

    /// Reports whether every scheduled removal succeeded.
    pub fn on_paths_removed(&mut self, ok: bool)
        requires
            old(self).phase is CleaningAfterCompileFailure || old(
                self,
            ).phase is CleaningAfterPackageFailure || old(self).phase is FinalCleanup,
        ensures
            *final(self) == spec_after_paths_removed(*old(self), ok),
    {
        match self.phase {
            BuildPhase::CleaningAfterCompileFailure { cause } => {
                self.phase = BuildPhase::Finished {
                    result: Err(
                        PipelineError {
                            primary: ErrorKind::CompileFailed,
                            cause: Some(cause),
                            cleanup_failed: !ok,
                        },
                    ),
                };
            },
            BuildPhase::CleaningAfterPackageFailure { cause } => {
                self.phase = BuildPhase::Finished {
                    result: Err(
                        PipelineError {
                            primary: ErrorKind::PackageFailed,
                            cause: Some(cause),
                            cleanup_failed: !ok,
                        },
                    ),
                };
            },
            BuildPhase::FinalCleanup => {
                if ok {
                    self.phase = BuildPhase::Finished { result: Ok(()) };
                } else {
                    self.phase = BuildPhase::Finished {
                        result: Err(
                            PipelineError {
                                primary: ErrorKind::CleanupFailed,
                                cause: None,
                                cleanup_failed: true,
                            },
                        ),
                    };
                }
            },
            _ => {},
        }
    }

    /// Whether the build is over.
    pub fn is_finished(&self) -> (r: bool)
        ensures
            r == (self.phase is Finished),
    {
        match &self.phase {
            BuildPhase::Finished { result: _ } => true,
            _ => false,
        }
    }

    /// The result of a finished build.
    pub fn result(&self) -> (r: Result<(), PipelineError>)
        requires
            self.phase is Finished,
        ensures
            self.phase matches BuildPhase::Finished { result } && r == result,
    {
        match &self.phase {
            BuildPhase::Finished { result } => *result,
            _ => vstd::pervasive::unreached(),
        }
    }
}

/// If the asset-bundling stage fails, the pipeline is over at once with
/// `AssetBuildFailed`: no cleanup is scheduled on this path, because
/// nothing has been produced yet, and a finished machine issues no further
/// removal.
pub proof fn lemma_asset_failure_triggers_no_cleanup(m: BuildOrchestrator, cause: FailureCause)
    requires
        m.phase is Bundling,
    ensures
        spec_after_stage_exit(m, ExitOutcome::Failure(cause)).phase == (BuildPhase::Finished {
            result: Err(
                PipelineError {
                    primary: ErrorKind::AssetBuildFailed,
                    cause: Some(cause),
                    cleanup_failed: false,
                },
            ),
        }),
{
}

/// If the compile stage fails, exactly one removal is scheduled and it
/// targets exactly the build output directory; and whether that removal
/// succeeds or not, the build's primary error is `CompileFailed` — the
/// cleanup's own outcome is only recorded as a secondary note.
pub proof fn lemma_compile_failure_cleans_once(
    m: BuildOrchestrator,
    cause: FailureCause,
    cleanup_ok: bool,
)
    requires
        m.phase is Compiling,
    ensures
        spec_after_stage_exit(m, ExitOutcome::Failure(cause)).phase
            == (BuildPhase::CleaningAfterCompileFailure { cause }),
        compile_failure_paths(m.config) == seq![m.config.build_dir@],
        spec_after_paths_removed(spec_after_stage_exit(m, ExitOutcome::Failure(cause)), cleanup_ok)
            .phase == (BuildPhase::Finished {
            result: Err(
                PipelineError {
                    primary: ErrorKind::CompileFailed,
                    cause: Some(cause),
                    cleanup_failed: !cleanup_ok,
                },
            ),
        }),
{
}

/// After successful packaging the final cleanup removes the build output
/// directory — on the Windows profile together with the temporary
/// packaging script — and only then is the build successfully over.
pub proof fn lemma_packaging_success_removes_intermediates(m: BuildOrchestrator)
    requires
        m.phase is Packaging,
    ensures
        spec_after_stage_exit(m, ExitOutcome::Success).phase is FinalCleanup,
        m.platform.os is Windows ==> final_cleanup_paths(m.config, m.platform) == seq![
            script_path(),
            m.config.build_dir@,
        ],
        !(m.platform.os is Windows) ==> final_cleanup_paths(m.config, m.platform) == seq![
            m.config.build_dir@,
        ],
        spec_after_paths_removed(spec_after_stage_exit(m, ExitOutcome::Success), true).phase == (
        BuildPhase::Finished { result: Ok(()) }),
{
}

/// A build whose stages all succeed ends successfully: off the Windows
/// profile the machine runs asset bundling, the compile, and the packager
/// — no relocation, no script — then removes exactly the build output
/// directory and concludes `Ok`.
pub proof fn lemma_successful_posix_build(m: BuildOrchestrator)
    requires
        m.phase is Bundling,
        !(m.platform.os is Windows),
    ensures
        spec_after_stage_exit(m, ExitOutcome::Success).phase is Compiling,
        spec_after_stage_exit(spec_after_stage_exit(m, ExitOutcome::Success), ExitOutcome::Success)
            .phase is Packaging,
        spec_after_stage_exit(
            spec_after_stage_exit(spec_after_stage_exit(m, ExitOutcome::Success), ExitOutcome::Success),
            ExitOutcome::Success,
        ).phase is FinalCleanup,
        final_cleanup_paths(m.config, m.platform) == seq![m.config.build_dir@],
        spec_after_paths_removed(
            spec_after_stage_exit(
                spec_after_stage_exit(
                    spec_after_stage_exit(m, ExitOutcome::Success),
                    ExitOutcome::Success,
                ),
                ExitOutcome::Success,
            ),
            true,
        ).phase == (BuildPhase::Finished { result: Ok::<(), PipelineError>(()) }),
{
}

/// The Windows counterpart: after bundling and compiling, the binary is
/// relocated, the packaging script is materialized and executed, and the
/// final cleanup removes the script together with the build output
/// directory before the build concludes `Ok`.
pub proof fn lemma_successful_windows_build(m: BuildOrchestrator)
    requires
        m.phase is Bundling,
        m.platform.os is Windows,
    ensures
        ({
            let compiled = spec_after_stage_exit(
                spec_after_stage_exit(m, ExitOutcome::Success),
                ExitOutcome::Success,
            );
            let scripted = spec_after_script_written(
                spec_after_artifacts_placed(compiled, Ok(())),
                true,
            );
            let packaged = spec_after_stage_exit(scripted, ExitOutcome::Success);
            &&& compiled.phase is Relocating
            &&& spec_after_artifacts_placed(compiled, Ok(())).phase is WritingScript
            &&& scripted.phase is Packaging
            &&& packaged.phase is FinalCleanup
            &&& final_cleanup_paths(m.config, m.platform) == seq![
                script_path(),
                m.config.build_dir@,
            ]
            &&& spec_after_paths_removed(packaged, true).phase == (BuildPhase::Finished {
                result: Ok::<(), PipelineError>(()),
            })
        }),
{
}

/// A finished build is over for good: no stage outcome and no removal
/// report moves the machine again, so in particular no removal is ever
/// scheduled after a failure that ended the build at once.
pub proof fn lemma_finished_is_terminal(m: BuildOrchestrator, outcome: ExitOutcome, ok: bool)
    requires
        m.phase is Finished,
    ensures
        spec_after_stage_exit(m, outcome) == m,
        spec_after_paths_removed(m, ok) == m,
{
}

/// Failure behaviour is driven by the stage's declared policy: when a
/// stage that declared `AbortOnly` fails, the pipeline is over at once;
/// when a stage that declared `AbortAndCleanup` fails, the removal the
/// machine schedules next lists exactly the declared paths.
pub proof fn lemma_cleanup_follows_declared_policy(
    m: BuildOrchestrator,
    stage: PipelineStage,
    next: BuildAction,
    cause: FailureCause,
)
    requires
        m.phase is Bundling || m.phase is Compiling || m.phase is Packaging,
        action_expected(m, BuildAction::RunStage { stage }),
        action_expected(spec_after_stage_exit(m, ExitOutcome::Failure(cause)), next),
    ensures
        stage.failure_policy is AbortOnly ==> spec_after_stage_exit(
            m,
            ExitOutcome::Failure(cause),
        ).phase is Finished,
        stage.failure_policy matches FailurePolicy::AbortAndCleanup { paths } ==> (
        next matches BuildAction::RemovePaths { paths: removed } && paths_view(removed@)
            == paths_view(paths@)),
{
}

} // verus!
