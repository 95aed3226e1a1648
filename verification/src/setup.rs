//! Data collected when a new project is set up: the chosen package manager
//! and the answers of the initial questionnaire. The questionnaire itself
//! is an external collaborator; only its results and the commands they
//! resolve to are modelled here.

use vstd::prelude::*;
use crate::config::valid_package_manager;

verus! {

/// A recognized package manager.
#[derive(Clone, Copy, PartialEq, Eq, Structural, Debug)]
pub enum PackageManager {
    Npm,
    Yarn,
}

/// The identifier under which a package manager is recorded in the project
/// configuration.
pub open spec fn package_manager_id(pm: PackageManager) -> Seq<char> {
    match pm {
        PackageManager::Npm => "npm"@,
        PackageManager::Yarn => "yarn"@,
    }
}

impl PackageManager {
    /// The configuration identifier of this package manager.
    pub fn id(&self) -> (r: String)
        ensures
            r@ == package_manager_id(*self),
    {
        match self {
            PackageManager::Npm => "npm".to_owned(),
            PackageManager::Yarn => "yarn".to_owned(),
        }
    }

    /// The command whose success shows that this package manager is
    /// installed on the host.
    pub fn version_check_command(&self) -> (r: String)
        ensures
            *self is Npm ==> r@ == "npm --version"@,
            *self is Yarn ==> r@ == "yarn --version"@,
    {
        match self {
            PackageManager::Npm => "npm --version".to_owned(),
            PackageManager::Yarn => "yarn --version".to_owned(),
        }
    }

    /// The command that installs the web dependencies of a fresh project.
    pub fn install_command(&self) -> (r: String)
        ensures
            *self is Npm ==> r@ == "npm install"@,
            *self is Yarn ==> r@ == "yarn"@,
    {
        match self {
            PackageManager::Npm => "npm install".to_owned(),
            PackageManager::Yarn => "yarn".to_owned(),
        }
    }
}

/// A recorded package-manager choice always passes the orchestrator's
/// configuration validation: the questionnaire cannot produce a selection
/// that `run` or `build` would later reject.
pub proof fn lemma_package_manager_id_valid(pm: PackageManager)
    ensures
        valid_package_manager(package_manager_id(pm)),
{
}

/// The answers of the initial project questionnaire.
#[derive(Clone, PartialEq, Eq, Debug)]
pub struct SetupConfig {
    pub title: String,
    pub description: String,
    pub package_manager: PackageManager,
    pub install_dependencies: bool,
}

impl Default for SetupConfig {
    fn default() -> (r: Self)
        ensures
            r.title@ == "hello-world"@,
            r.description@ == Seq::<char>::empty(),
            r.package_manager is Npm,
            r.install_dependencies == true,
    {
        SetupConfig {
            title: "hello-world".to_owned(),
            description: String::new(),
            package_manager: PackageManager::Npm,
            install_dependencies: true,
        }
    }
}

} // verus!
