//! The library's error types, one per subsystem, each carrying a message.
use vstd::prelude::*;

verus! {

/// Detection and analysis failures.
#[derive(Debug, Clone, PartialEq)]
pub enum SystemError {
    GpuDetection(String),
    DriverDetection(String),
    CompilerDetection(String),
    DistroDetection(String),
    StorageCheck(String),
    SecurityCheck(String),
    CompatibilityCheck(String),
    Incompatible(String),
    CommandExecution(String),
    ParseError(String),
    UnsupportedPlatform(String),
}

/// Installation failures.
#[derive(Debug, Clone, PartialEq)]
pub enum InstallError {
    Download(String),
    Installation(String),
    Validation(String),
    Cleanup(String),
    PackageNotFound(String),
}

/// Version management failures.
#[derive(Debug, Clone, PartialEq)]
pub enum VersionError {
    NotFound(String),
    SwitchFailed(String),
    Registry(String),
    Resolution(String),
}

/// Configuration failures.
#[derive(Debug, Clone, PartialEq)]
pub enum ConfigError {
    Environment(String),
    Path(String),
    Symlink(String),
    Backup(String),
    Shell(String),
}

/// Any failure of the library.
#[derive(Debug, Clone, PartialEq)]
pub enum CudaMgrError {
    System(SystemError),
    Install(InstallError),
    Version(VersionError),
    Config(ConfigError),
    Cli(String),
}

/// The platform a probe's output came from.
#[derive(Debug, Clone, Copy, PartialEq, Eq, Structural)]
pub enum Platform {
    Linux,
    Windows,
    Other,
}

} // verus!
