use cudamgr::error::{CudaMgrError, VersionError};
use cudamgr::versions::{VersionInfo, VersionRegistry};

fn info(v: &str) -> VersionInfo {
    VersionInfo {
        version: v.to_string(),
        install_path: format!("/opt/cuda-{}", v),
        is_active: false,
        install_date: 0,
        size_bytes: 1,
    }
}

#[test]
fn activate_then_remove() {
    let mut r = VersionRegistry::new("/tmp/registry.json".to_string());
    r.add_version(info("11.8"));
    r.add_version(info("12.0"));
    assert!(r.set_active_version("12.0").is_ok());
    assert_eq!(r.active_version, Some("12.0".to_string()));
    assert!(!r.versions[0].is_active);
    assert!(r.versions[1].is_active);
    assert_eq!(r.get_version("11.8").unwrap().install_path, "/opt/cuda-11.8");
    assert!(r.remove_version("12.0").is_ok());
    assert_eq!(r.active_version, None);
    assert_eq!(r.versions.len(), 1);
    assert!(r.get_version("12.0").is_none());
}

#[test]
fn unknown_version_is_not_found() {
    let mut r = VersionRegistry::new("/tmp/registry.json".to_string());
    r.add_version(info("11.8"));
    assert!(matches!(
        r.remove_version("9.0"),
        Err(CudaMgrError::Version(VersionError::NotFound(_)))
    ));
    assert!(matches!(
        r.set_active_version("9.0"),
        Err(CudaMgrError::Version(VersionError::NotFound(_)))
    ));
    assert_eq!(r.versions.len(), 1);
}
