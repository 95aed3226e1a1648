//! The artifact placer: on the Windows profile, the compiled binary is
//! moved from the toolchain's output path into the distribution directory,
//! and the runtime-loader library matching the CPU architecture is written
//! next to it. Which files are touched is decided here, as a verified
//! plan over plain paths; an unverified runner performs the two writes.

use vstd::prelude::*;
use vstd::string::StringExecFns;
use crate::config::VeloxConfig;
use crate::errors::ErrorKind;
use crate::platform::{arch_supported, PlatformProfile};

verus! {

/// The runtime-loader library injected beside the binary, one per
/// supported CPU architecture.
#[derive(Clone, Copy, PartialEq, Eq, Structural, Debug)]
pub enum RuntimeLibrary {
    LoaderX86,
    LoaderX64,
    LoaderArm64,
}

impl RuntimeLibrary {
    /// Where the loader library for this architecture is kept.
    pub fn source_path(&self) -> (r: String)
        ensures
            *self is LoaderX86 ==> r@ == "dll/x86/WebView2Loader.dll"@,
            *self is LoaderX64 ==> r@ == "dll/x64/WebView2Loader.dll"@,
            *self is LoaderArm64 ==> r@ == "dll/arm64/WebView2Loader.dll"@,
    {
        match self {
            RuntimeLibrary::LoaderX86 => "dll/x86/WebView2Loader.dll".to_owned(),
            RuntimeLibrary::LoaderX64 => "dll/x64/WebView2Loader.dll".to_owned(),
            RuntimeLibrary::LoaderArm64 => "dll/arm64/WebView2Loader.dll".to_owned(),
        }
    }
}

/// The two writes of one placement: move the binary, inject the loader.
/// Placement is not idempotent: it is run at most once per build, and a
/// destination that already exists is a conflict that must fail loudly
/// rather than be overwritten, so `fail_if_exists` is always set.
#[derive(Clone, PartialEq, Eq, Debug)]
pub struct PlacementPlan {
    /// The compiled binary at the toolchain's default output location.
    pub move_from: String,
    /// Its place in the distribution directory.
    pub move_to: String,
    /// Which loader library is injected.
    pub runtime_library: RuntimeLibrary,
    /// Where the loader library is written.
    pub library_destination: String,
    /// The writes must fail if their destination already exists.
    pub fail_if_exists: bool,
}

/// The toolchain's release output path of the project's binary.
pub open spec fn binary_source_path(name: Seq<char>) -> Seq<char> {
    "./target/release/"@ + name + ".exe"@
}

/// The binary's place in the distribution directory.
pub open spec fn binary_dest_path(name: Seq<char>) -> Seq<char> {
    "./dist/"@ + name + ".exe"@
}

/// The plan a configuration and a platform resolve to.
pub open spec fn plan_matches(plan: PlacementPlan, config: VeloxConfig, platform: PlatformProfile) -> bool {
    &&& plan.move_from@ == binary_source_path(config.name@)
    &&& plan.move_to@ == binary_dest_path(config.name@)
    &&& plan.library_destination@ == "./dist/WebView2Loader.dll"@
    &&& plan.fail_if_exists == true
    &&& (platform.arch is X86 ==> plan.runtime_library is LoaderX86)
    &&& (platform.arch is X86_64 ==> plan.runtime_library is LoaderX64)
    &&& (platform.arch is Arm64 ==> plan.runtime_library is LoaderArm64)
}

/// Resolves the placement for the given configuration and platform. An
/// architecture outside the three supported ones fails with
/// `UnsupportedPlatform`, if and only if; the `Err` carries no plan, so no
/// file is written into the distribution directory on that path.
pub fn placement_plan(config: &VeloxConfig, platform: &PlatformProfile) -> (r: Result<
    PlacementPlan,
    ErrorKind,
>)
    ensures
        !arch_supported(platform.arch) ==> (r matches Err(e) && e
            == ErrorKind::UnsupportedPlatform),
        arch_supported(platform.arch) ==> (r matches Ok(plan) && plan_matches(
            plan,
            *config,
            *platform,
        )),
{
    let runtime_library = match platform.arch {
        crate::platform::CpuArch::X86 => RuntimeLibrary::LoaderX86,
        crate::platform::CpuArch::X86_64 => RuntimeLibrary::LoaderX64,
        crate::platform::CpuArch::Arm64 => RuntimeLibrary::LoaderArm64,
        crate::platform::CpuArch::Other => {
            return Err(ErrorKind::UnsupportedPlatform);
        },
    };
    let mut move_from = "./target/release/".to_owned();
    move_from.append(config.name.as_str());
    move_from.append(".exe");
    let mut move_to = "./dist/".to_owned();
    move_to.append(config.name.as_str());
    move_to.append(".exe");
    Ok(
        PlacementPlan {
            move_from,
            move_to,
            runtime_library,
            library_destination: "./dist/WebView2Loader.dll".to_owned(),
            fail_if_exists: true,
        },
    )
}

} // verus!
