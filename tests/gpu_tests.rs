use cudamgr::gpu::{DefaultGpuDetector, GpuInfo, GpuVendor};
use cudamgr::registry::CompatibilityRegistry;

#[test]
fn test_gpu_info_creation() {
    let gpu = GpuInfo::new("GeForce RTX 3080".to_string(), GpuVendor::Nvidia);

    assert_eq!(gpu.name, "GeForce RTX 3080");
    assert_eq!(gpu.vendor, GpuVendor::Nvidia);
    assert_eq!(gpu.memory_mb, None);
    assert_eq!(gpu.compute_capability, None);
    assert_eq!(gpu.driver_version, None);
    assert_eq!(gpu.pci_id, None);
}

#[test]
fn test_gpu_cuda_compatibility() {
    let mut nvidia_gpu = GpuInfo::new("GeForce RTX 3080".to_string(), GpuVendor::Nvidia);
    nvidia_gpu.compute_capability = Some((8, 6));

    let amd_gpu = GpuInfo::new("Radeon RX 6800".to_string(), GpuVendor::Amd);

    let nvidia_no_compute = GpuInfo::new("GeForce GTX 750".to_string(), GpuVendor::Nvidia);

    assert!(nvidia_gpu.is_cuda_compatible());
    assert!(!amd_gpu.is_cuda_compatible());
    assert!(!nvidia_no_compute.is_cuda_compatible());
}

#[test]
fn test_compute_capability_support() {
    let gpu = GpuInfo {
        name: "GeForce RTX 3080".to_string(),
        vendor: GpuVendor::Nvidia,
        memory_mb: Some(10240),
        compute_capability: Some((8, 6)),
        driver_version: Some("470.57.02".to_string()),
        pci_id: Some("01:00.0".to_string()),
    };

    assert!(gpu.supports_compute_capability((8, 6)));
    assert!(gpu.supports_compute_capability((7, 5)));
    assert!(gpu.supports_compute_capability((8, 0)));
    assert!(!gpu.supports_compute_capability((8, 7)));
    assert!(!gpu.supports_compute_capability((9, 0)));

    let gpu_no_compute =
        GpuInfo::new("Unknown GPU".to_string(), GpuVendor::Unknown("Test".to_string()));
    assert!(!gpu_no_compute.supports_compute_capability((3, 0)));
}

#[test]
fn test_gpu_vendor_variants() {
    let nvidia = GpuVendor::Nvidia;
    let amd = GpuVendor::Amd;
    let intel = GpuVendor::Intel;
    let unknown = GpuVendor::Unknown("Custom".to_string());

    assert_eq!(format!("{:?}", nvidia), "Nvidia");
    assert_eq!(format!("{:?}", amd), "Amd");
    assert_eq!(format!("{:?}", intel), "Intel");
    assert_eq!(format!("{:?}", unknown), "Unknown(\"Custom\")");
}

#[test]
fn test_parse_lspci_line() {
    let detector = DefaultGpuDetector::new();

    let nvidia_line = "01:00.0 VGA compatible controller [0300]: NVIDIA Corporation GeForce RTX 3080 [10de:2206] (rev a1)";
    let result = detector.parse_lspci_line(nvidia_line);

    match result {
        Some(gpu) => {
            assert!(!gpu.name.is_empty());
            assert_eq!(gpu.pci_id, Some("01:00.0".to_string()));
        }
        None => {}
    }

    let invalid_line = "invalid line format";
    assert!(detector.parse_lspci_line(invalid_line).is_none());
}

#[test]
fn test_compute_capability_mapping() {
    let detector = DefaultGpuDetector::new();

    assert_eq!(detector.get_compute_capability("GeForce RTX 4090"), Some((8, 9)));
    assert_eq!(detector.get_compute_capability("GeForce RTX 4080"), Some((8, 9)));
    assert_eq!(detector.get_compute_capability("GeForce RTX 3080"), Some((8, 6)));
    assert_eq!(detector.get_compute_capability("GeForce RTX 3070"), Some((8, 6)));
    assert_eq!(detector.get_compute_capability("GeForce RTX 2080 Ti"), Some((7, 5)));
    assert_eq!(detector.get_compute_capability("GeForce GTX 1080"), Some((6, 1)));
    assert_eq!(detector.get_compute_capability("Tesla V100"), Some((7, 0)));
    assert_eq!(detector.get_compute_capability("Unknown GPU Model"), None);
}

#[test]
fn test_compatibility_registry_completeness() {
    let registry = CompatibilityRegistry::new();

    assert!(registry.get_compute_capability("rtx 4090").is_some());
    assert!(registry.get_compute_capability("rtx 3080").is_some());
    assert!(registry.get_compute_capability("gtx 1080").is_some());
    assert!(registry.get_compute_capability("tesla v100").is_some());

    assert_eq!(registry.get_compute_capability("rtx 4090"), Some((8, 9)));
    assert_eq!(registry.get_compute_capability("rtx 3080"), Some((8, 6)));
    assert_eq!(registry.get_compute_capability("gtx 1080"), Some((6, 1)));
}

#[test]
fn test_mock_nvidia_smi_parsing() {
    let detector = DefaultGpuDetector::new();
    let nvidia_output = "GeForce RTX 3080, 10240, 470.57.02, 00000000:01:00.0\nGeForce GTX 1080, 8192, 470.57.02, 00000000:02:00.0";

    let gpus = detector.parse_nvidia_smi_output(nvidia_output);

    assert_eq!(gpus.len(), 2);

    assert_eq!(gpus[0].name, "GeForce RTX 3080");
    assert_eq!(gpus[0].memory_mb, Some(10240));
    assert_eq!(gpus[0].driver_version, Some("470.57.02".to_string()));

    assert_eq!(gpus[1].name, "GeForce GTX 1080");
    assert_eq!(gpus[1].memory_mb, Some(8192));
}

#[test]
fn test_mock_empty_nvidia_smi() {
    let detector = DefaultGpuDetector::new();
    let empty_output = "";

    let gpus = detector.parse_nvidia_smi_output(empty_output);
    assert_eq!(gpus.len(), 0);
}

#[test]
fn test_mock_malformed_nvidia_smi() {
    let detector = DefaultGpuDetector::new();
    let malformed_output = "Invalid line\nAnother invalid line";

    let gpus = detector.parse_nvidia_smi_output(malformed_output);
    assert_eq!(gpus.len(), 0);
}

#[test]
fn smi_rows_carry_capability_and_bus_id() {
    let detector = DefaultGpuDetector::new();
    let gpus = detector.parse_nvidia_smi_output(
        "  GeForce RTX 3080 , abc , 470.57.02 , 00000000:01:00.0 \n\nTesla V100, 16384, 525.60.13, 0000:3b:00.0\n",
    );
    assert_eq!(gpus.len(), 2);
    assert_eq!(gpus[0].name, "GeForce RTX 3080");
    assert_eq!(gpus[0].memory_mb, Some(0));
    assert_eq!(gpus[0].compute_capability, Some((8, 6)));
    assert_eq!(gpus[0].pci_id, Some("00000000:01:00.0".to_string()));
    assert_eq!(gpus[1].compute_capability, Some((7, 0)));
    assert_eq!(gpus[1].vendor, GpuVendor::Nvidia);
}

#[test]
fn lspci_line_name_vendor_and_capability() {
    let detector = DefaultGpuDetector::new();
    let gpu = detector
        .parse_lspci_line("01:00.0 VGA compatible controller [0300]: NVIDIA Corporation GeForce RTX 3080 [10de:2206] (rev a1)")
        .unwrap();
    assert_eq!(gpu.name, "GeForce RTX 3080");
    assert_eq!(gpu.vendor, GpuVendor::Nvidia);
    assert_eq!(gpu.compute_capability, Some((8, 6)));
    assert_eq!(gpu.memory_mb, None);

    let intel = detector
        .parse_lspci_line("00:02.0 VGA compatible controller: Intel Corporation UHD Graphics 630 (rev 02)")
        .unwrap();
    assert_eq!(intel.vendor, GpuVendor::Intel);
    assert_eq!(intel.name, "UHD Graphics 630 (rev 02)");
    assert_eq!(intel.compute_capability, None);

    let amd = detector
        .parse_lspci_line("03:00.0 VGA compatible controller: Advanced Micro Devices, Inc. [AMD/ATI] Navi 21 [Radeon RX 6800]")
        .unwrap();
    assert_eq!(amd.vendor, GpuVendor::Amd);
}

#[test]
fn lspci_output_keeps_display_controllers_only() {
    let detector = DefaultGpuDetector::new();
    let out = "00:00.0 Host bridge: Intel Corporation Device 3e30\n\
               00:02.0 VGA compatible controller: Intel Corporation UHD Graphics 630\n\
               01:00.0 3D controller: NVIDIA Corporation Tesla V100 [10de:1db4]\n";
    let gpus = detector.parse_lspci_output(out);
    assert_eq!(gpus.len(), 2);
    assert_eq!(gpus[0].vendor, GpuVendor::Intel);
    assert_eq!(gpus[1].name, "Tesla V100");
    assert_eq!(gpus[1].compute_capability, Some((7, 0)));
}

#[test]
fn wmic_output_skips_header_and_converts_memory() {
    let detector = DefaultGpuDetector::new();
    let out = "Node,AdapterRAM,DriverVersion,Name\r\n\r\nPC,4293918720,31.0.15.3623,NVIDIA GeForce RTX 3080\r\nPC,1073741824,,Intel(R) UHD Graphics\r\nPC,0,1.0,\r\n";
    let gpus = detector.parse_wmic_output(out);
    assert_eq!(gpus.len(), 2);
    assert_eq!(gpus[0].memory_mb, Some(4095));
    assert_eq!(gpus[0].driver_version, Some("31.0.15.3623".to_string()));
    assert_eq!(gpus[0].compute_capability, Some((8, 6)));
    assert_eq!(gpus[1].vendor, GpuVendor::Intel);
    assert_eq!(gpus[1].driver_version, None);
}

#[test]
fn gpu_description_vendor_and_text_after_colon() {
    let (v, name) = DefaultGpuDetector::parse_gpu_description("VGA: AMD Radeon Pro");
    assert_eq!(v, GpuVendor::Amd);
    assert_eq!(name, "AMD Radeon Pro");
    let (v, name) = DefaultGpuDetector::parse_gpu_description("Matrox G200");
    assert_eq!(v, GpuVendor::Unknown("Unknown".to_string()));
    assert_eq!(name, "");
}

#[test]
fn primary_gpu_prefers_cuda_capable() {
    let intel = GpuInfo::new("UHD".to_string(), GpuVendor::Intel);
    let mut nv = GpuInfo::new("RTX".to_string(), GpuVendor::Nvidia);
    nv.compute_capability = Some((8, 6));
    let chosen = GpuInfo::select_primary(&vec![intel.clone(), nv.clone()]).unwrap();
    assert_eq!(chosen.name, "RTX");
    let chosen = GpuInfo::select_primary(&vec![intel.clone()]).unwrap();
    assert_eq!(chosen.name, "UHD");
    assert!(GpuInfo::select_primary(&vec![]).is_none());
}

#[test]
fn only_nvidia_gpus_are_kept() {
    let gpus = vec![
        GpuInfo::new("UHD".to_string(), GpuVendor::Intel),
        GpuInfo::new("RTX".to_string(), GpuVendor::Nvidia),
        GpuInfo::new("RX".to_string(), GpuVendor::Amd),
    ];
    let kept = DefaultGpuDetector::nvidia_only(gpus);
    assert_eq!(kept.len(), 1);
    assert_eq!(kept[0].name, "RTX");
}
