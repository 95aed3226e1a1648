//! The platform profile: the host operating-system family and CPU
//! architecture, resolved once at startup and passed explicitly into every
//! component that branches on it.

use vstd::prelude::*;

verus! {

/// Operating-system family a command is executed on. It selects the shell
/// invocation form and the packaging branch of the build pipeline.
#[derive(Clone, Copy, PartialEq, Eq, Structural, Debug)]
pub enum OsFamily {
    Windows,
    Posix,
}

/// CPU architecture of the host. Exactly three architectures are supported
/// by the artifact placer; `Other` stands for every remaining one.
#[derive(Clone, Copy, PartialEq, Eq, Structural, Debug)]
pub enum CpuArch {
    X86,
    X86_64,
    Arm64,
    Other,
}

/// The resolved (OS family, CPU architecture) pair governing all
/// platform-conditional logic. Read-only for the remainder of a run.
#[derive(Clone, Copy, PartialEq, Eq, Structural, Debug)]
pub struct PlatformProfile {
    pub os: OsFamily,
    pub arch: CpuArch,
}

/// An architecture the artifact placer can inject a runtime loader for.
pub open spec fn arch_supported(arch: CpuArch) -> bool {
    arch is X86 || arch is X86_64 || arch is Arm64
}

impl PlatformProfile {
    /// Whether the profile's architecture is one of the three supported ones.
    pub fn arch_is_supported(&self) -> (r: bool)
        ensures
            r == arch_supported(self.arch),
    {
        match self.arch {
            CpuArch::X86 => true,
            CpuArch::X86_64 => true,
            CpuArch::Arm64 => true,
            CpuArch::Other => false,
        }
    }

    /// Whether the Windows-specific pipeline branches (artifact relocation,
    /// script-driven packaging) apply.
    pub fn is_windows(&self) -> (r: bool)
        ensures
            r == (self.os is Windows),
    {
        match self.os {
            OsFamily::Windows => true,
            OsFamily::Posix => false,
        }
    }
}

} // verus!
