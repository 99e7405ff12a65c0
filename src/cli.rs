//! The command surface's arguments and the rules they must meet.
use vstd::prelude::*;
use crate::error::CudaMgrError;
use crate::text::chars_of;

verus! {

/// A toolkit version as a command takes it: non-empty, digits and dots only.
pub open spec fn version_arg_ok(v: Seq<char>) -> bool {
    v.len() > 0 && forall|i: int| 0 <= i < v.len() ==> (('0' <= #[trigger] v[i] && v[i] <= '9') || v[i] == '.')
}

/// The most log lines a command shows.
pub const MAX_LOG_LINES: usize = 10000;

fn validate_version(version: &String) -> (r: Result<(), CudaMgrError>)
    ensures
        r is Ok <==> version_arg_ok(version@),
        r is Err ==> r->Err_0 is Cli,
{
    let cs = chars_of(version.as_str());
    if cs.len() == 0 {
        return Err(CudaMgrError::Cli(String::from_str("Version cannot be empty")));
    }
    let mut i: usize = 0;
    while i < cs.len()
        invariant
            i <= cs@.len(),
            cs@ == version@,
            forall|j: int| 0 <= j < i ==> (('0' <= #[trigger] cs@[j] && cs@[j] <= '9') || cs@[j] == '.'),
        decreases cs.len() - i,
    {
        let c = cs[i];
        if !(('0' <= c && c <= '9') || c == '.') {
            return Err(
                CudaMgrError::Cli(
                    String::from_str("Invalid version format. Use format like '11.8' or '12.0'"),
                ),
            );
        }
        i += 1;
    }
    Ok(())
}

/// Arguments of the compatibility check.
#[derive(Debug, Clone, PartialEq)]
pub struct DoctorArgs {
    pub verbose: bool,
}

/// Arguments of an installation.
#[derive(Debug, Clone, PartialEq)]
pub struct InstallArgs {
    pub version: String,
    pub force: bool,
    pub skip_driver: bool,
}

/// Arguments of a version switch.
#[derive(Debug, Clone, PartialEq)]
pub struct UseArgs {
    pub version: String,
    pub install: bool,
}

/// Arguments of a listing.
#[derive(Debug, Clone, PartialEq)]
pub struct ListArgs {
    pub available: bool,
    pub verbose: bool,
}

/// Arguments of an uninstallation.
#[derive(Debug, Clone, PartialEq)]
pub struct UninstallArgs {
    pub version: String,
    pub yes: bool,
}

/// Arguments of the log viewer.
#[derive(Debug, Clone, PartialEq)]
pub struct LogsArgs {
    pub lines: usize,
    pub follow: bool,
}

/// Arguments of a refresh of the compatibility table.
#[derive(Debug, Clone, PartialEq)]
pub struct RefreshArgs {
    pub url: String,
}

/// A command with its arguments.
#[derive(Debug, Clone, PartialEq)]
pub enum Command {
    Doctor(DoctorArgs),
    Install(InstallArgs),
    Use(UseArgs),
    List(ListArgs),
    Uninstall(UninstallArgs),
    Logs(LogsArgs),
    RefreshRegistry(RefreshArgs),
}

/// The command line: one command.
#[derive(Debug, Clone, PartialEq)]
pub struct Cli {
    pub command: Command,
}

/// Dispatches commands to their handlers.
pub struct CommandRouter;

impl DoctorArgs {
    /// Always valid.
    pub fn validate(&self) -> (r: Result<(), CudaMgrError>)
        ensures
            r is Ok,
    {
        Ok(())
    }
}

impl InstallArgs {
    /// The version must be non-empty, digits and dots only.
    pub fn validate(&self) -> (r: Result<(), CudaMgrError>)
        ensures
            r is Ok <==> version_arg_ok(self.version@),
            r is Err ==> r->Err_0 is Cli,
    {
        validate_version(&self.version)
    }
}

impl UseArgs {
    /// The version must be non-empty, digits and dots only.
    pub fn validate(&self) -> (r: Result<(), CudaMgrError>)
        ensures
            r is Ok <==> version_arg_ok(self.version@),
            r is Err ==> r->Err_0 is Cli,
    {
        validate_version(&self.version)
    }
}

impl ListArgs {
    /// Always valid.
    pub fn validate(&self) -> (r: Result<(), CudaMgrError>)
        ensures
            r is Ok,
    {
        Ok(())
    }
}

impl UninstallArgs {
    /// The version must be non-empty, digits and dots only.
    pub fn validate(&self) -> (r: Result<(), CudaMgrError>)
        ensures
            r is Ok <==> version_arg_ok(self.version@),
            r is Err ==> r->Err_0 is Cli,
    {
        validate_version(&self.version)
    }
}

impl LogsArgs {
    /// Between 1 and `MAX_LOG_LINES` lines.
    pub fn validate(&self) -> (r: Result<(), CudaMgrError>)
        ensures
            r is Ok <==> (1 <= self.lines <= MAX_LOG_LINES),
            r is Err ==> r->Err_0 is Cli,
    {
        if self.lines == 0 {
            return Err(CudaMgrError::Cli(String::from_str("Number of lines must be greater than 0")));
        }
        if self.lines > MAX_LOG_LINES {
            return Err(CudaMgrError::Cli(String::from_str("Number of lines cannot exceed 10000")));
        }
        Ok(())
    }
}

impl Command {
    /// The command's own arguments' rule.
    pub fn validate(&self) -> (r: Result<(), CudaMgrError>)
        ensures
            r is Ok <==> match self {
                Command::Doctor(_) => true,
                Command::Install(a) => version_arg_ok(a.version@),
                Command::Use(a) => version_arg_ok(a.version@),
                Command::List(_) => true,
                Command::Uninstall(a) => version_arg_ok(a.version@),
                Command::Logs(a) => 1 <= a.lines <= MAX_LOG_LINES,
                Command::RefreshRegistry(a) => a.url@.len() > 0,
            },
    {
        match self {
            Command::Doctor(a) => a.validate(),
            Command::Install(a) => a.validate(),
            Command::Use(a) => a.validate(),
            Command::List(a) => a.validate(),
            Command::Uninstall(a) => a.validate(),
            Command::Logs(a) => a.validate(),
            Command::RefreshRegistry(a) => {
                if a.url.unicode_len() == 0 {
                    Err(CudaMgrError::Cli(String::from_str("A registry address is needed")))
                } else {
                    Ok(())
                }
            },
        }
    }
}

/// Runs the compatibility check.
pub struct DoctorHandler {
    pub args: DoctorArgs,
}

/// Runs an installation.
pub struct InstallHandler {
    pub args: InstallArgs,
}

/// Runs a version switch.
pub struct UseHandler {
    pub args: UseArgs,
}

/// Runs a listing.
pub struct ListHandler {
    pub args: ListArgs,
}

/// Runs an uninstallation.
pub struct UninstallHandler {
    pub args: UninstallArgs,
}

/// Shows logs.
pub struct LogsHandler {
    pub args: LogsArgs,
}

impl DoctorHandler {
    pub fn new(args: DoctorArgs) -> (r: Self)
        ensures
            r.args == args,
    {
        DoctorHandler { args }
    }
}

impl InstallHandler {
    pub fn new(args: InstallArgs) -> (r: Self)
        ensures
            r.args == args,
    {
        InstallHandler { args }
    }
}

impl UseHandler {
    pub fn new(args: UseArgs) -> (r: Self)
        ensures
            r.args == args,
    {
        UseHandler { args }
    }
}

impl ListHandler {
    pub fn new(args: ListArgs) -> (r: Self)
        ensures
            r.args == args,
    {
        ListHandler { args }
    }
}

impl UninstallHandler {
    pub fn new(args: UninstallArgs) -> (r: Self)
        ensures
            r.args == args,
    {
        UninstallHandler { args }
    }
}

impl LogsHandler {
    pub fn new(args: LogsArgs) -> (r: Self)
        ensures
            r.args == args,
    {
        LogsHandler { args }
    }
}

} // verus!
