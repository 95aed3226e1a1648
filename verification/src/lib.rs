//! Process orchestration for a hybrid web/native application project.
//!
//! The crate models the decisions of the two execution modes — the
//! interactive development session and the one-shot build pipeline — as
//! verified state machines over plain data: which external command is run
//! in which working directory, how each exit status is classified, which
//! intermediate paths are removed on each failure path, and how the host
//! platform profile selects the shell form, the artifact relocation and the
//! packaging branch. A thin unverified shell spawns the processes, performs
//! the file removals, and feeds every observed outcome back into these
//! machines.

pub mod cleanup;
pub mod config;
pub mod devsession;
pub mod errors;
pub mod pipeline;
pub mod placer;
pub mod platform;
pub mod process;
pub mod setup;

pub use cleanup::RemovalKind;
pub use config::VeloxConfig;
pub use devsession::{DevAction, DevFailure, DevPhase, DevPlan, DevProcess, DevSupervisor};
pub use errors::{ErrorKind, PipelineError};
pub use pipeline::{BuildAction, BuildOrchestrator, BuildPhase, FailurePolicy, PipelineStage};
pub use placer::{PlacementPlan, RuntimeLibrary};
pub use platform::{arch_supported, CpuArch, OsFamily, PlatformProfile};
pub use process::{Disposition, ExitOutcome, FailureCause, Invocation};
pub use setup::{PackageManager, SetupConfig};
