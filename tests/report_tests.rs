use cudamgr::compiler::{CompilerFamily, CompilerInfo};
use cudamgr::cuda::{ConflictType, CudaConflict, CudaDetectionResult, CudaInstallation};
use cudamgr::distro::{DistroInfo, LinuxDistro, OsType, PackageManager};
use cudamgr::driver::DriverInfo;
use cudamgr::error::Platform;
use cudamgr::gpu::{GpuInfo, GpuVendor};
use cudamgr::report::{
    CompatibilityStatus, DefaultSystemChecker, SystemInfo, SystemReport, SystemReportGenerator,
};
use cudamgr::security::{PathConfigInfo, SecurityInfo};
use cudamgr::storage::StorageInfo;
use cudamgr::wsl::WslInfo;

fn clean_security() -> SecurityInfo {
    SecurityInfo::new(
        false,
        true,
        true,
        true,
        None,
        PathConfigInfo::from_entries(
            vec!["/usr/local/cuda/bin".to_string()],
            &vec![true],
            Some("/usr/local/cuda".to_string()),
        ),
    )
}

fn good_gpu() -> GpuInfo {
    let mut g = GpuInfo::new("GeForce RTX 3080".to_string(), GpuVendor::Nvidia);
    g.compute_capability = Some((8, 6));
    g
}

fn system(gpu: Option<GpuInfo>, driver: Option<DriverInfo>, compiler: Option<CompilerInfo>) -> SystemInfo {
    SystemInfo {
        gpu,
        driver,
        compiler,
        distro: DistroInfo::detect_windows(),
        storage: StorageInfo::new(100, 200, "/usr/local/cuda".to_string(), 6),
        security: clean_security(),
        wsl: None,
        visual_studio: None,
    }
}

fn empty_scan() -> CudaDetectionResult {
    CudaDetectionResult { installations: vec![], conflicts: vec![], system_cuda: None }
}

fn driver() -> DriverInfo {
    DriverInfo::new("470.86".to_string(), true, true, Some("11.4".to_string()))
}

fn gcc() -> CompilerInfo {
    CompilerInfo::detected(CompilerFamily::Gcc, "9.4.0".to_string(), None)
}

#[test]
fn nothing_detected_is_incompatible() {
    let r = SystemReportGenerator::generate_report(system(None, None, None), empty_scan(), Platform::Linux);
    assert_eq!(r.compatibility_status, CompatibilityStatus::Incompatible);
    assert_eq!(r.errors[0], "No GPU detected");
    assert_eq!(r.errors[1], "No NVIDIA driver detected");
    assert_eq!(r.errors[2], "No compatible compiler detected");
}

#[test]
fn only_compiler_missing_is_prerequisites() {
    let r = SystemReportGenerator::generate_report(
        system(Some(good_gpu()), Some(driver()), None),
        empty_scan(),
        Platform::Linux,
    );
    assert_eq!(r.errors, vec!["No compatible compiler detected".to_string()]);
    assert_eq!(r.compatibility_status, CompatibilityStatus::PrerequisitesMissing);
}

#[test]
fn everything_present_is_compatible() {
    let r = SystemReportGenerator::generate_report(
        system(Some(good_gpu()), Some(driver()), Some(gcc())),
        empty_scan(),
        Platform::Linux,
    );
    assert!(r.errors.is_empty());
    assert!(r.warnings.is_empty());
    assert_eq!(r.compatibility_status, CompatibilityStatus::Compatible);
    assert_eq!(
        r.recommendations,
        vec![
            "GPU GeForce RTX 3080 detected with compute capability 8.6".to_string(),
            "NVIDIA driver 470.86 detected".to_string(),
            "Compatible compiler GCC 9.4.0 detected".to_string(),
            "Sufficient disk space available: 100 GB".to_string(),
        ]
    );
}

#[test]
fn windows_without_ide_warns() {
    let r = SystemReportGenerator::generate_report(
        system(Some(good_gpu()), Some(driver()), Some(gcc())),
        empty_scan(),
        Platform::Windows,
    );
    assert_eq!(r.compatibility_status, CompatibilityStatus::CompatibleWithWarnings);
    assert_eq!(
        r.warnings[0],
        "Visual Studio C++ Build Tools not found (Required for compiling CUDA kernels)"
    );
}

#[test]
fn low_space_and_no_admin() {
    let mut info = system(Some(good_gpu()), Some(driver()), Some(gcc()));
    info.storage = StorageInfo::new(2, 200, "/".to_string(), 6);
    info.security.has_admin_privileges = false;
    info.security.can_install_drivers = false;
    let r = SystemReportGenerator::generate_report(info, empty_scan(), Platform::Linux);
    assert_eq!(
        r.errors,
        vec![
            "Insufficient disk space. Available: 2 GB".to_string(),
            "Administrator/root privileges required for CUDA installation".to_string(),
            "Cannot install drivers on this system".to_string(),
        ]
    );
    assert_eq!(r.compatibility_status, CompatibilityStatus::Incompatible);
}

#[test]
fn admin_missing_alone_is_prerequisites() {
    let mut info = system(Some(good_gpu()), Some(driver()), Some(gcc()));
    info.security.has_admin_privileges = false;
    let r = SystemReportGenerator::generate_report(info, empty_scan(), Platform::Linux);
    assert_eq!(r.compatibility_status, CompatibilityStatus::PrerequisitesMissing);
    assert!(r.recommendations.contains(&"Run as administrator/root for CUDA installation".to_string()));
}

#[test]
fn wsl_installations_and_conflicts() {
    let mut info = system(Some(good_gpu()), Some(driver()), Some(gcc()));
    info.wsl = Some(WslInfo::detect(Some("Linux version 5.15 microsoft-standard-WSL2"), None));
    let mut inst = CudaInstallation::new("11.8".to_string(), "/nonexistent/cuda-11.8".to_string(), Platform::Linux, 0);
    inst.components = CudaInstallation::detect_components("/nonexistent/cuda-11.8", Platform::Linux);
    let scan = CudaDetectionResult {
        installations: vec![inst],
        conflicts: vec![CudaConflict {
            conflict_type: ConflictType::EnvironmentVariableMismatch,
            description: "home differs".to_string(),
            affected_installations: vec!["CUDA_HOME".to_string()],
            resolution_suggestion: "fix home".to_string(),
        }],
        system_cuda: None,
    };
    let r = SystemReportGenerator::generate_report(info, scan, Platform::Linux);
    assert_eq!(r.recommendations[0], "WSL Environment detected (Wsl2)");
    assert!(r.recommendations.contains(&"1 existing CUDA installation(s) detected".to_string()));
    assert_eq!(r.recommendations.last().unwrap(), "fix home");
    assert_eq!(
        r.warnings,
        vec![
            "CUDA 11.8 installation at /nonexistent/cuda-11.8 appears to be incomplete".to_string(),
            "Conflict detected: home differs".to_string(),
        ]
    );
    assert_eq!(r.compatibility_status, CompatibilityStatus::CompatibleWithWarnings);
}

#[test]
fn checker_needs_every_part() {
    let checker = DefaultSystemChecker;
    let info = system(Some(good_gpu()), Some(driver()), Some(gcc()));
    assert!(checker.validate_compatibility(&info, "11.2"));
    assert!(!checker.validate_compatibility(&info, "12.0"));
    let info = system(Some(good_gpu()), Some(driver()), None);
    assert!(!checker.validate_compatibility(&info, "11.2"));
}

#[test]
fn test_system_report_display() {
    let system_info = SystemInfo {
        gpu: None,
        driver: None,
        compiler: None,
        distro: DistroInfo {
            os_type: OsType::Linux(LinuxDistro::Generic("Test".to_string())),
            name: "Test OS".to_string(),
            version: "1.0".to_string(),
            kernel_version: Some("5.0.0".to_string()),
            package_manager: PackageManager::Apt,
        },
        storage: StorageInfo {
            available_space_gb: 100,
            total_space_gb: 200,
            install_path: "/tmp".to_string(),
            has_sufficient_space: true,
        },
        security: SecurityInfo {
            secure_boot_enabled: false,
            has_admin_privileges: false,
            can_install_drivers: false,
            uefi_mode: false,
            secure_boot_details: None,
            path_configuration: PathConfigInfo {
                cuda_in_path: false,
                conflicting_cuda_paths: Vec::new(),
                path_entries: Vec::new(),
                cuda_home_set: false,
                cuda_home_path: None,
            },
        },
        wsl: None,
        visual_studio: None,
    };

    let cuda_detection =
        CudaDetectionResult { installations: Vec::new(), conflicts: Vec::new(), system_cuda: None };

    let report = SystemReport {
        system_info,
        cuda_detection,
        compatibility_status: CompatibilityStatus::Incompatible,
        recommendations: vec!["Test recommendation".to_string()],
        warnings: vec!["Test warning".to_string()],
        errors: vec!["Test error".to_string()],
    };

    let output = report.render();

    assert!(output.contains("CUDA System Compatibility Report"));
    assert!(output.contains("System Information"));
    assert!(output.contains("Test recommendation"));
    assert!(output.contains("Test warning"));
    assert!(output.contains("Test error"));
}

#[test]
fn rendered_report_lines() {
    let r = SystemReportGenerator::generate_report(
        system(Some(good_gpu()), Some(driver()), Some(gcc())),
        empty_scan(),
        Platform::Linux,
    );
    let text = r.render();
    assert!(text.starts_with("=== CUDA System Compatibility Report ===\n\nOverall Status: ✅ Compatible\n\n"));
    assert!(text.contains("OS: Windows 10\n"));
    assert!(text.contains("GPU: GeForce RTX 3080 (Unknown, Compute 8.6)\n"));
    assert!(text.contains("Driver: NVIDIA 470.86 (Max CUDA 11.4)\n"));
    assert!(text.contains("Compiler: GCC 9.4.0 (Compatible: true)\n"));
    assert!(text.contains("Admin Privileges: true\nSecure Boot: Disabled\n"));
    assert!(!text.contains("=== Errors ==="));
    assert!(text.ends_with("  💡 Sufficient disk space available: 100 GB\n"));
}
