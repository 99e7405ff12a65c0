//! The user's settings, with their defaults under the home directory.
use vstd::prelude::*;
use crate::cuda::{join_path, joined};
use crate::error::Platform;

verus! {

/// How much is logged.
#[derive(Debug, Clone, Copy, PartialEq, Eq, Structural)]
pub enum LogLevel {
    Error,
    Warn,
    Info,
    Debug,
    Trace,
}

/// Proxy settings for downloads.
#[derive(Debug, Clone, PartialEq)]
pub struct ProxyConfig {
    pub http_proxy: Option<String>,
    pub https_proxy: Option<String>,
    pub no_proxy: Vec<String>,
}

/// The user's settings.
#[derive(Debug, Clone, PartialEq)]
pub struct CudaMgrConfig {
    pub install_dir: String,
    pub cache_dir: String,
    pub log_level: LogLevel,
    pub auto_cleanup: bool,
    pub verify_downloads: bool,
    pub parallel_downloads: bool,
    pub max_concurrent_downloads: usize,
    pub default_cuda_version: Option<String>,
    pub proxy_settings: Option<ProxyConfig>,
}

/// Where a platform with `sep` as path separator is taken to be Windows.
pub open spec fn platform_of_separator(sep: char) -> Platform {
    if sep == '\\' {
        Platform::Windows
    } else {
        Platform::Linux
    }
}

/// The settings directory under `home`.
pub open spec fn settings_dir(home: Seq<char>, p: Platform) -> Seq<char> {
    joined(home, ".cudamgr"@, p)
}

/// Relies on `dirs::home_dir`: the user's home directory, if one is known;
/// it depends on the environment, so nothing is promised of it.
#[verifier::external_body]
fn home_dir_text() -> Option<String> {
    dirs::home_dir().map(|p| p.to_string_lossy().to_string())
}

/// Relies on `std::path::MAIN_SEPARATOR`: this platform's path separator.
#[verifier::external_body]
fn main_separator() -> char {
    std::path::MAIN_SEPARATOR
}

impl CudaMgrConfig {
    /// The default settings for a user whose home directory is `home`:
    /// versions and cache under `<home>/.cudamgr`, info logging, cleanup,
    /// verification and parallel downloads on, three at a time, no default
    /// version and no proxy.
    pub fn with_home(home: &str, platform: Platform) -> (r: Self)
        ensures
            r.install_dir@ == joined(settings_dir(home@, platform), "versions"@, platform),
            r.cache_dir@ == joined(settings_dir(home@, platform), "cache"@, platform),
            r.log_level == LogLevel::Info,
            r.auto_cleanup,
            r.verify_downloads,
            r.parallel_downloads,
            r.max_concurrent_downloads == 3,
            r.default_cuda_version is None,
            r.proxy_settings is None,
    {
        let dir = join_path(home, ".cudamgr", platform);
        CudaMgrConfig {
            install_dir: join_path(dir.as_str(), "versions", platform),
            cache_dir: join_path(dir.as_str(), "cache", platform),
            log_level: LogLevel::Info,
            auto_cleanup: true,
            verify_downloads: true,
            parallel_downloads: true,
            max_concurrent_downloads: 3,
            default_cuda_version: None,
            proxy_settings: None,
        }
    }

    /// Where the settings file of a user whose home is `home` lies.
    pub fn config_path_in(home: &str, platform: Platform) -> (r: String)
        ensures
            r@ == joined(settings_dir(home@, platform), "config.json"@, platform),
    {
        let dir = join_path(home, ".cudamgr", platform);
        join_path(dir.as_str(), "config.json", platform)
    }

    /// The home directory, or `.` where none is known.
    pub fn home_or_current() -> (r: String) {
        match home_dir_text() {
            Some(h) => h,
            None => String::from_str("."),
        }
    }

    /// This platform, as its path separator tells it.
    pub fn host_platform() -> (r: Platform)
        ensures
            r == Platform::Windows || r == Platform::Linux,
    {
        if main_separator() == '\\' {
            Platform::Windows
        } else {
            Platform::Linux
        }
    }
}

impl Default for CudaMgrConfig {
    /// The default settings under the user's home directory.
    fn default() -> (r: Self)
        ensures
            r.log_level == LogLevel::Info,
            r.auto_cleanup,
            r.verify_downloads,
            r.parallel_downloads,
            r.max_concurrent_downloads == 3,
            r.default_cuda_version is None,
            r.proxy_settings is None,
            exists|home: Seq<char>, p: Platform|
                r.install_dir@ == joined(settings_dir(home, p), "versions"@, p) && r.cache_dir@
                    == joined(settings_dir(home, p), "cache"@, p),
    {
        let home = Self::home_or_current();
        let p = Self::host_platform();
        Self::with_home(home.as_str(), p)
    }
}

} // verus!
