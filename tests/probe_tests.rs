use cudamgr::compiler::{CompilerFamily, CompilerInfo};
use cudamgr::cuda::{ConflictType, CudaInstallation, CudaVersion, SystemCudaInfo};
use cudamgr::distro::{DistroInfo, LinuxDistro, OsType, PackageManager};
use cudamgr::driver::{decode_windows_driver_version, DriverInfo};
use cudamgr::error::Platform;
use cudamgr::registry::CompatibilityRegistry;
use cudamgr::security::{is_path_within, split_path_list, PathConfigInfo, SecureBootInfo, SecurityInfo};
use cudamgr::visual_studio::VisualStudioInfo;
use cudamgr::wsl::{WslInfo, WslVersion};

#[test]
fn driver_from_status_table() {
    let reg = CompatibilityRegistry::new();
    let out = "| NVIDIA-SMI 535.104.05   Driver Version: 535.104.05   CUDA Version: 12.2     |\n";
    let d = DriverInfo::from_smi_status(&reg, out).unwrap();
    assert_eq!(d.version, "535.104.05");
    assert_eq!(d.max_cuda_version, Some("12.2".to_string()));
    let d = DriverInfo::from_smi_status(&reg, "Driver Version: 525.60.13\n").unwrap();
    assert_eq!(d.max_cuda_version, Some("12.0".to_string()));
    assert!(DriverInfo::from_smi_status(&reg, "no driver here").is_none());
}

#[test]
fn driver_from_module_info() {
    let reg = CompatibilityRegistry::new();
    let out = "filename: /lib/modules/nvidia.ko\nversion:        470.86\nlicense: NVIDIA\n";
    let d = DriverInfo::from_modinfo(&reg, out).unwrap();
    assert_eq!(d.version, "470.86");
    assert_eq!(d.max_cuda_version, Some("11.4".to_string()));
    assert!(DriverInfo::from_modinfo(&reg, "srcversion: ABC\n").is_none());
}

#[test]
fn packed_windows_versions() {
    assert_eq!(decode_windows_driver_version("31.0.15.3623"), Some("536.23".to_string()));
    assert_eq!(decode_windows_driver_version("30.0.14.7141"), Some("471.41".to_string()));
    assert_eq!(decode_windows_driver_version("27.21.14.5671"), Some("456.71".to_string()));
    assert_eq!(decode_windows_driver_version("1.2.3"), None);
}

#[test]
fn msvc_banner_and_detected_compiler() {
    let out = "Microsoft (R) C/C++ Optimizing Compiler Version 19.29.30133 for x64\nCopyright";
    assert_eq!(CompilerInfo::parse_msvc_version(out), "19.29.30133");
    assert_eq!(CompilerInfo::parse_msvc_version("nothing"), "unknown");
    let c = CompilerInfo::detected(CompilerFamily::Msvc, "19.29.30133".to_string(), None);
    assert_eq!(c.name, "MSVC");
    assert!(c.is_compatible);
    assert!(CompilerInfo::parse_gcc_version("").is_err());
    assert!(CompilerInfo::parse_clang_version("Apple LLVM\n").is_err());
}

#[test]
fn nvcc_release_and_components() {
    let out = "nvcc: NVIDIA (R) Cuda compiler driver\nCuda compilation tools, release 11.8, V11.8.89\n";
    assert_eq!(CudaInstallation::parse_nvcc_version_output(out).unwrap(), "11.8");
    assert!(CudaInstallation::parse_nvcc_version_output("nvcc").is_err());
    let inst = CudaInstallation::detected("/opt/cuda".to_string(), out, 42, 7, Platform::Linux).unwrap();
    assert_eq!(inst.version, "11.8");
    assert_eq!(inst.toolkit_path, "/opt/cuda/bin");
    assert_eq!(inst.components.len(), 8);
    assert_eq!(inst.components[1].path, "/opt/cuda/lib64/libcudart.so");
    assert!(inst.components[1].required);
    assert!(!inst.components[2].required);
    assert_eq!(inst.get_lib_path(Platform::Linux), "/opt/cuda/lib64");
    assert!(CudaInstallation::detected("/opt/cuda".to_string(), "", 0, 0, Platform::Linux).is_none());
}

#[test]
fn validity_given_what_exists() {
    let mut inst = CudaInstallation::new("12.0".to_string(), "/x".to_string(), Platform::Linux, 0);
    inst.components = CudaInstallation::detect_components("/x", Platform::Linux);
    let all = vec![true; 8];
    assert!(inst.is_valid_given(true, true, &all));
    let mut optional_missing = vec![true; 8];
    optional_missing[3] = false;
    assert!(inst.is_valid_given(true, true, &optional_missing));
    let mut required_missing = vec![true; 8];
    required_missing[1] = false;
    assert!(!inst.is_valid_given(true, true, &required_missing));
    assert!(!inst.is_valid_given(false, true, &all));
}

#[test]
fn validity_on_disk() {
    let mut inst = CudaInstallation::new("12.0".to_string(), "/".to_string(), Platform::Linux, 0);
    inst.toolkit_path = "/".to_string();
    inst.components = vec![];
    assert!(inst.is_valid());
    inst.components = CudaInstallation::detect_components("/nonexistent-root", Platform::Linux);
    assert!(!inst.is_valid());
}

#[test]
fn conflicts_between_installations() {
    let a = CudaInstallation::new("11.8".to_string(), "/usr/local/cuda-11.8".to_string(), Platform::Linux, 0);
    let b = CudaInstallation::new("12.0".to_string(), "/usr/local/cuda-12.0".to_string(), Platform::Linux, 0);
    let c = CudaInstallation::detect_conflicts(&vec![a.clone(), b.clone()], true, &Some("/opt/cuda".to_string()));
    assert_eq!(c.len(), 2);
    assert_eq!(c[0].conflict_type, ConflictType::MultipleVersionsInPath);
    assert_eq!(c[0].affected_installations, vec!["11.8".to_string(), "12.0".to_string()]);
    assert_eq!(c[1].conflict_type, ConflictType::EnvironmentVariableMismatch);
    let c = CudaInstallation::detect_conflicts(&vec![a.clone()], true, &Some("/usr/local/cuda-11.8/".to_string()));
    assert!(c.is_empty());
    let c = CudaInstallation::detect_conflicts(&vec![], false, &Some("/opt/cuda".to_string()));
    assert_eq!(c.len(), 1);
    assert_eq!(c[0].conflict_type, ConflictType::EnvironmentVariableMismatch);
    assert!(CudaInstallation::detect_conflicts(&vec![], true, &None).is_empty());
    assert_eq!(ConflictType::SymlinkConflict.label(), "Symlink Conflict");
    assert_eq!(CudaVersion::LatestLts.to_display_string(), "latest-lts");
}

#[test]
fn toolkit_in_path_probe() {
    let out = "Cuda compilation tools, release 12.2, V12.2.140";
    let s = SystemCudaInfo::from_probe(Some(out), Some("/usr/local/cuda/bin/nvcc\n")).unwrap();
    assert_eq!(s.nvcc_version, Some("12.2".to_string()));
    assert_eq!(s.nvcc_path, Some("/usr/local/cuda/bin/nvcc".to_string()));
    assert!(SystemCudaInfo::from_probe(None, None).is_none());
}

#[test]
fn path_analysis() {
    let entries = split_path_list("/usr/bin:/usr/local/cuda-12/bin:/opt/cuda/bin", ':');
    assert_eq!(entries.len(), 3);
    let p = PathConfigInfo::from_entries(entries, &vec![false, true, true], Some("/opt/cuda".to_string()));
    assert!(p.cuda_in_path);
    assert_eq!(p.conflicting_cuda_paths, vec!["/usr/local/cuda-12/bin".to_string()]);
    assert!(!p.is_optimal());
    assert_eq!(p.get_recommendations(), vec!["Remove conflicting CUDA paths from PATH".to_string()]);
    assert!(is_path_within("/opt/cuda/bin", "/opt/cuda/"));
    assert!(!is_path_within("/opt/cudabin", "/opt/cuda"));
    let q = SecurityInfo::detect_path_configuration("/usr/bin:/usr/local/cuda/bin", ':', None);
    assert!(q.cuda_in_path);
    assert_eq!(q.conflicting_cuda_paths.len(), 1);
}

#[test]
fn test_security_info_detection() {
    let path = SecurityInfo::detect_path_configuration("/usr/bin:/bin", ':', None);
    let security_info = SecurityInfo::from_probes(false, None, true, true, path);
    let _issues = security_info.get_security_issues();
    let _recommendations = security_info.path_configuration.get_recommendations();
}

#[test]
fn security_issues_in_order() {
    let path = PathConfigInfo::from_entries(vec!["/usr/local/cuda/bin".to_string()], &vec![true], None);
    let sb = SecureBootInfo::from_efi_vars(&Some(vec![6, 0, 0, 0, 1]), &None, &Some(vec![0]), true);
    assert!(sb.enabled);
    assert!(!sb.allows_driver_installation());
    assert_eq!(sb.get_status_description(), "Enabled (User Mode)");
    let s = SecurityInfo::from_probes(true, Some(sb), false, true, path);
    assert!(!s.can_install_drivers);
    assert_eq!(
        s.get_security_issues(),
        vec![
            "Administrator/root privileges required for CUDA installation".to_string(),
            "Cannot install drivers on this system".to_string(),
            "Secure Boot is enabled - may prevent unsigned driver installation".to_string(),
            "Conflicting CUDA paths found in PATH: 1".to_string(),
            "CUDA found in PATH but CUDA_HOME not set".to_string(),
        ]
    );
}

#[test]
fn distro_cascade_and_kernel() {
    let d = DistroInfo::detect(Platform::Linux, Some("ID=fedora\nNAME=Fedora\nVERSION=39\n"), None, Some(" 6.5.0\n")).unwrap();
    assert!(matches!(d.os_type, OsType::Linux(LinuxDistro::Fedora(_))));
    assert_eq!(d.package_manager, PackageManager::Dnf);
    assert_eq!(d.kernel_version, Some("6.5.0".to_string()));
    let g = DistroInfo::detect(Platform::Linux, None, None, Some("")).unwrap();
    assert_eq!(g.name, "Linux");
    assert_eq!(g.kernel_version, None);
    assert!(DistroInfo::detect(Platform::Other, None, None, None).is_err());
    let u = DistroInfo::parse_os_release("ID=mint\nNAME=\"Linux Mint\"").unwrap();
    assert!(matches!(u.os_type, OsType::Linux(LinuxDistro::Generic(ref g)) if g == "mint"));
}

#[test]
fn wsl_classification() {
    let w = WslInfo::detect(Some("Linux version 4.4.0-19041-Microsoft"), None);
    assert!(w.is_wsl);
    assert_eq!(w.version, WslVersion::Wsl1);
    let w = WslInfo::detect(Some("Linux version 6.1 generic"), Some("Ubuntu".to_string()));
    assert_eq!(w.version, WslVersion::Wsl2);
    assert_eq!(w.distribution, "Ubuntu");
    let w = WslInfo::detect(None, None);
    assert!(!w.is_wsl);
}

#[test]
fn installer_entry_defaults() {
    let v = VisualStudioInfo::from_installer_entry(None, Some("17.8".to_string()), None);
    assert_eq!(v.name, "Visual Studio");
    assert_eq!(v.version, "17.8");
    assert_eq!(v.install_path, "");
    assert!(v.has_cpp_tools);
}

#[test]
fn driver_from_windows_registry() {
    let reg = CompatibilityRegistry::new();
    let adapters = vec![
        ("Intel Corporation".to_string(), Some("31.0.101.4502".to_string())),
        ("NVIDIA".to_string(), Some("1.2".to_string())),
        ("NVIDIA".to_string(), Some("31.0.15.3623".to_string())),
    ];
    let d = DriverInfo::from_registry(&reg, &adapters, Some("999.99".to_string())).unwrap();
    assert_eq!(d.version, "536.23");
    assert_eq!(d.max_cuda_version, Some("12.2".to_string()));
    let d = DriverInfo::from_registry(&reg, &vec![], Some("470.05".to_string())).unwrap();
    assert_eq!(d.version, "470.05");
    assert!(DriverInfo::from_registry(&reg, &vec![], None).is_none());
}

#[test]
fn windows_firmware_mode() {
    assert!(SecurityInfo::windows_uefi_mode(Some("uefi".to_string()), false));
    assert!(!SecurityInfo::windows_uefi_mode(Some("Legacy".to_string()), true));
    assert!(SecurityInfo::windows_uefi_mode(None, true));
}

#[test]
fn compiler_paths_in_a_path_entry() {
    let (a, b) = SecurityInfo::nvcc_candidates("/opt/tools/bin");
    assert_eq!(a, "/opt/tools/bin/nvcc");
    assert_eq!(b, "/opt/tools/bin/nvcc.exe");
    let (a, _) = SecurityInfo::nvcc_candidates("C:\\Tools");
    assert_eq!(a, "C:\\Tools\\nvcc");
    assert!(SecurityInfo::is_cuda_path_given("/opt/tools/bin", false, true));
    assert!(!SecurityInfo::is_cuda_path_given("/opt/tools/bin", false, false));
    assert!(SecurityInfo::is_cuda_path_given("/usr/local/CUDA/bin", false, false));
    assert!(SecurityInfo::is_cuda_path("/usr/local/cuda/bin"));
    assert!(!SecurityInfo::is_cuda_path("/nonexistent/dir"));
}
