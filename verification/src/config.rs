//! The immutable snapshot of project settings the orchestrator consumes,
//! and the package-manager validation and command resolution both execution
//! modes share. A collaborator loads the snapshot before a run starts; it
//! is never mutated during one.

use vstd::prelude::*;
use crate::errors::ErrorKind;

verus! {

/// Project settings, loaded once per invocation.
#[derive(Clone, PartialEq, Eq, Debug)]
pub struct VeloxConfig {
    /// Title of the app; also derives the compiled binary's file name.
    pub name: String,
    pub description: String,
    pub debug: bool,
    pub permissions: Vec<String>,
    pub dev_server_url: String,
    /// Selected package manager identifier; only `npm` and `yarn` are
    /// recognized.
    pub package_manager: String,
    /// The build output directory, removed again on every path that has to
    /// leave no partial build state behind.
    pub build_dir: String,
}

impl Default for VeloxConfig {
    fn default() -> (r: Self)
        ensures
            r.name@ == Seq::<char>::empty(),
            r.description@ == Seq::<char>::empty(),
            r.debug == true,
            r.permissions@.len() == 0,
            r.dev_server_url@ == "http://localhost:8888"@,
            r.package_manager@ == "npm"@,
            r.build_dir@ == "web/dist/"@,
            valid_package_manager(r.package_manager@),
    {
        VeloxConfig {
            name: String::new(),
            description: String::new(),
            debug: true,
            permissions: Vec::new(),
            dev_server_url: "http://localhost:8888".to_owned(),
            package_manager: "npm".to_owned(),
            build_dir: "web/dist/".to_owned(),
        }
    }
}

/// The package managers the orchestrator recognizes. Any other selection is
/// rejected with `InvalidConfig` before a single process is spawned.
pub open spec fn valid_package_manager(pm: Seq<char>) -> bool {
    pm == "npm"@ || pm == "yarn"@
}

/// The asset-server command of the development session, per package
/// manager. Meaningful only for a valid package manager.
pub open spec fn dev_command_of(pm: Seq<char>) -> Seq<char> {
    if pm == "npm"@ {
        "npm run dev"@
    } else {
        "yarn run dev"@
    }
}

/// The asset-bundler command of the build pipeline, per package manager.
/// Meaningful only for a valid package manager.
pub open spec fn bundle_command_of(pm: Seq<char>) -> Seq<char> {
    if pm == "npm"@ {
        "npm run build"@
    } else {
        "yarn run build"@
    }
}

/// Compares a string against a literal by contents.
fn string_is(s: &String, lit: &str) -> (r: bool)
    ensures
        r == (s@ == lit@),
{
    let other: String = lit.to_owned();
    *s == other
}

impl VeloxConfig {
    /// Whether the configured package manager is a recognized one.
    pub fn package_manager_is_valid(&self) -> (r: bool)
        ensures
            r == valid_package_manager(self.package_manager@),
    {
        string_is(&self.package_manager, "npm") || string_is(&self.package_manager, "yarn")
    }

    /// Resolves the development asset-server command, or rejects the
    /// configuration. No fallback command exists: an unrecognized package
    /// manager is `InvalidConfig`, if and only if.
    pub fn resolve_dev_command(&self) -> (r: Result<String, ErrorKind>)
        ensures
            valid_package_manager(self.package_manager@) ==> (r matches Ok(c) && c@
                == dev_command_of(self.package_manager@)),
            !valid_package_manager(self.package_manager@) ==> r == Err::<String, ErrorKind>(
                ErrorKind::InvalidConfig,
            ),
    {
        if string_is(&self.package_manager, "npm") {
            Ok("npm run dev".to_owned())
        } else if string_is(&self.package_manager, "yarn") {
            Ok("yarn run dev".to_owned())
        } else {
            Err(ErrorKind::InvalidConfig)
        }
    }

    /// Resolves the asset-bundler command of the build pipeline, or rejects
    /// the configuration, exactly as the development mode does.
    pub fn resolve_bundle_command(&self) -> (r: Result<String, ErrorKind>)
        ensures
            valid_package_manager(self.package_manager@) ==> (r matches Ok(c) && c@
                == bundle_command_of(self.package_manager@)),
            !valid_package_manager(self.package_manager@) ==> r == Err::<String, ErrorKind>(
                ErrorKind::InvalidConfig,
            ),
    {
        if string_is(&self.package_manager, "npm") {
            Ok("npm run build".to_owned())
        } else if string_is(&self.package_manager, "yarn") {
            Ok("yarn run build".to_owned())
        } else {
            Err(ErrorKind::InvalidConfig)
        }
    }
}

} // verus!
