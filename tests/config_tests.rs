use cudamgr::config::{CudaMgrConfig, LogLevel};
use cudamgr::error::Platform;

#[test]
fn test_config_default() {
    let config = CudaMgrConfig::default();

    assert!(config.install_dir.contains(".cudamgr"));
    assert!(config.cache_dir.contains("cache"));
    assert_eq!(config.max_concurrent_downloads, 3);
    assert!(config.auto_cleanup);
    assert!(config.verify_downloads);
    assert!(config.parallel_downloads);
    assert!(config.proxy_settings.is_none());
}

#[test]
fn settings_live_under_the_home_directory() {
    let c = CudaMgrConfig::with_home("/home/ann", Platform::Linux);
    assert_eq!(c.install_dir, "/home/ann/.cudamgr/versions");
    assert_eq!(c.cache_dir, "/home/ann/.cudamgr/cache");
    assert_eq!(c.log_level, LogLevel::Info);
    let w = CudaMgrConfig::with_home("C:\\Users\\ann", Platform::Windows);
    assert_eq!(w.cache_dir, "C:\\Users\\ann\\.cudamgr\\cache");
    assert_eq!(
        CudaMgrConfig::config_path_in("/root/", Platform::Linux),
        "/root/.cudamgr/config.json"
    );
}
