//! The collaborators around the core: environment, PATH, shell and link
//! managers, the installer's parts and version handling. Only what they
//! decide themselves stands here; what they do to the system is outside.
use vstd::prelude::*;
use crate::error::{CudaMgrError, VersionError};
use crate::text::chars_of;

verus! {

/// The environment a toolkit version needs.
#[derive(Debug, Clone, PartialEq)]
pub struct EnvironmentConfig {
    pub cuda_home: String,
    pub cuda_path: String,
    pub library_path: String,
    pub bin_path: String,
}

/// An installation to carry out.
#[derive(Debug, Clone, PartialEq)]
pub struct InstallationPlan {
    pub cuda_version: String,
    pub download_url: String,
    pub install_path: String,
    pub required_driver: Option<String>,
    pub dependencies: Vec<Dependency>,
}

/// Something an installation needs.
#[derive(Debug, Clone, PartialEq)]
pub struct Dependency {
    pub name: String,
    pub version: Option<String>,
    pub required: bool,
}

/// Sets and clears the toolkit's environment variables.
pub struct EnvironmentManager;

/// Edits the PATH.
pub struct PathManager;

/// Edits shell start-up files.
pub struct ShellConfigManager;

/// Manages the version link.
pub struct SymlinkManager;

/// Cleans up after failed installations.
pub struct InstallationCleanup;

/// Installs on a given platform.
pub struct PlatformInstaller;

/// Checks a finished installation.
pub struct InstallationValidator;

/// Resolves version requests.
pub struct VersionResolver;

/// Switches the active version.
pub struct VersionSwitcher;

/// Applies environment configurations.
pub struct DefaultConfigManager;

/// Plans and runs installations.
pub struct DefaultInstaller;

/// Lists and switches versions.
pub struct DefaultVersionManager;

impl EnvironmentManager {
    pub fn new() -> Self {
        EnvironmentManager
    }
}

impl PathManager {
    pub fn new() -> Self {
        PathManager
    }
}

impl ShellConfigManager {
    pub fn new() -> Self {
        ShellConfigManager
    }
}

impl SymlinkManager {
    pub fn new() -> Self {
        SymlinkManager
    }
}

impl InstallationCleanup {
    pub fn new() -> Self {
        InstallationCleanup
    }
}

impl PlatformInstaller {
    pub fn new() -> Self {
        PlatformInstaller
    }
}

impl InstallationValidator {
    pub fn new() -> Self {
        InstallationValidator
    }
}

impl VersionSwitcher {
    pub fn new() -> Self {
        VersionSwitcher
    }
}

impl VersionResolver {
    pub fn new() -> Self {
        VersionResolver
    }

    /// A request that starts with a digit is taken as the version itself;
    /// others (`latest`, patterns) cannot be resolved yet.
    pub fn resolve_version(&self, version_spec: &str) -> (r: Result<String, CudaMgrError>)
        ensures
            version_spec@.len() > 0 && '0' <= version_spec@[0] <= '9' ==> r is Ok && r.unwrap()@
                == version_spec@,
            version_spec@.len() == 0 ==> r is Ok && r.unwrap()@ == version_spec@,
            version_spec@.len() > 0 && !('0' <= version_spec@[0] <= '9') ==> r is Err
                && r->Err_0 is Version,
    {
        let cs = chars_of(version_spec);
        let first = if cs.len() > 0 {
            cs[0]
        } else {
            '0'
        };
        if '0' <= first && first <= '9' {
            Ok(String::from_str(version_spec))
        } else {
            let mut m = String::from_str("Version resolution not yet implemented for: ");
            m.append(version_spec);
            Err(CudaMgrError::Version(VersionError::Resolution(m)))
        }
    }
}

} // verus!
