use cudamgr::config::CudaMgrConfig;
use cudamgr::cuda::CudaInstallation;
use cudamgr::error::Platform;
use cudamgr::gpu::{GpuInfo, GpuVendor};

#[test]
fn test_data_model_integration() {
    let gpu = GpuInfo::new("RTX 3080".to_string(), GpuVendor::Nvidia);
    assert!(matches!(gpu.vendor, GpuVendor::Nvidia));

    let install_path = "/usr/local/cuda-11.8".to_string();
    let installation =
        CudaInstallation::new("11.8".to_string(), install_path.clone(), Platform::Linux, 0);
    assert_eq!(installation.version, "11.8");
    let expected_path = format!("{}/bin/{}", install_path, "nvcc");

    assert_eq!(installation.get_nvcc_path(Platform::Linux), expected_path);

    let win_path = "C:\\Program Files\\NVIDIA GPU Computing Toolkit\\CUDA\\v11.8".to_string();
    let win = CudaInstallation::new("11.8".to_string(), win_path.clone(), Platform::Windows, 0);
    assert_eq!(win.get_nvcc_path(Platform::Windows), format!("{}\\bin\\{}", win_path, "nvcc.exe"));

    let config = CudaMgrConfig::default();
    assert!(config.auto_cleanup);
    assert!(config.verify_downloads);
}
