use cudamgr::registry::{
    load_registry, validate, CompatibilityRegistry, DriverToolkitEntry, RegistryError,
    CACHE_MAX_AGE_SECS, SUPPORTED_SCHEMA_VERSION,
};
use cudamgr::version::compare_versions;

fn table(updated: i64) -> CompatibilityRegistry {
    let mut r = CompatibilityRegistry::new();
    r.last_updated = updated;
    r.source = "cache".to_string();
    r.driver_cuda_map = vec![
        DriverToolkitEntry { min_driver: 580, max_toolkit: (13, 0) },
        DriverToolkitEntry { min_driver: 450, max_toolkit: (11, 0) },
    ];
    r
}

#[test]
fn version_order_examples() {
    assert_eq!(compare_versions("11.4", "11.4"), 0);
    assert!(compare_versions("11.0", "11.4") < 0);
    assert!(compare_versions("12.0", "11.8") > 0);
    assert_eq!(compare_versions("11", "11.0.0"), 0);
    assert_eq!(compare_versions("12.0.0-1ubuntu1", "12.0"), 0);
    assert_eq!(compare_versions("", "0"), 0);
}

#[test]
fn toolkit_never_falls_as_driver_rises() {
    let r = CompatibilityRegistry::new();
    let drivers = ["100", "449.9", "450.80", "470.86", "515", "520.61.05", "525.60.13", "530",
        "545.1", "551", "565.2", "570.10", "999.1"];
    let mut last: Option<(u32, u32)> = None;
    for d in drivers {
        let major: u64 = d.split('.').next().unwrap().parse().unwrap();
        let now = r.max_toolkit_for_major(major);
        if let Some(prev) = last {
            let cur = now.unwrap();
            assert!(prev <= cur);
        }
        if now.is_some() {
            last = now;
        }
    }
    assert_eq!(r.get_max_cuda_version("999.1"), Some("12.8".to_string()));
    assert_eq!(r.get_max_cuda_version("565.2"), Some("12.6".to_string()));
    assert_eq!(r.get_max_cuda_version("garbage"), None);
}

#[test]
fn substring_key_matches_exact_key() {
    let r = CompatibilityRegistry::new();
    assert_eq!(r.get_compute_capability("GeForce RTX 3080"), r.get_compute_capability("rtx 3080"));
    assert_eq!(r.get_compute_capability("NVIDIA GeForce GTX 1660 SUPER"), Some((7, 5)));
    assert_eq!(r.lookup_lowered("quadro rtx 4000"), Some((7, 5)));
    assert_eq!(r.lookup_lowered("QUADRO RTX 4000"), None);
}

#[test]
fn stale_cache_falls_back_to_builtin() {
    let cached = table(1_800_000_000);
    let fresh = load_registry(Some(cached.clone()), 3600);
    assert_eq!(fresh.source, "cache");
    let stale = load_registry(Some(cached.clone()), CACHE_MAX_AGE_SECS);
    assert_eq!(stale.source, "built-in");
    assert_eq!(stale, CompatibilityRegistry::new());
    let none = load_registry(None, 0);
    assert_eq!(none.source, "built-in");
}

#[test]
fn invalid_cache_falls_back_to_builtin() {
    let mut bad = table(1_800_000_000);
    bad.schema_version = 2;
    assert_eq!(load_registry(Some(bad), 10).source, "built-in");
}

#[test]
fn validation_errors() {
    let mut r = table(1);
    r.schema_version = 7;
    assert_eq!(validate(r), Err(RegistryError::UnsupportedSchema(7)));
    let mut r = table(1);
    r.gpu_architectures.clear();
    assert_eq!(validate(r), Err(RegistryError::Empty));
    let mut r = table(1);
    r.driver_cuda_map.reverse();
    assert_eq!(validate(r), Err(RegistryError::Unordered));
    let r = table(1);
    assert_eq!(validate(r.clone()), Ok(r));
    assert_eq!(SUPPORTED_SCHEMA_VERSION, 1);
}

#[test]
fn remote_update_only_when_newer_and_valid() {
    let mut current = CompatibilityRegistry::new();
    let older = table(1);
    assert_eq!(current.apply_remote_update(older), Ok(false));
    assert_eq!(current.source, "built-in");
    let mut bad = table(2_000_000_000);
    bad.driver_cuda_map.clear();
    assert_eq!(current.apply_remote_update(bad), Err(RegistryError::Empty));
    assert_eq!(current.source, "built-in");
    let newer = table(2_000_000_000);
    assert_eq!(current.apply_remote_update(newer), Ok(true));
    assert_eq!(current.source, "cache");
    assert_eq!(current.get_max_cuda_version("590.1"), Some("13.0".to_string()));
}
