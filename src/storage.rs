//! Disk space at the install location, against the toolkit's fixed need.
use vstd::prelude::*;
use crate::error::Platform;
use crate::text::{decimal, push_decimal};

verus! {

/// The space the toolkit needs, in GB.
pub const REQUIRED_SPACE_GB: u64 = 6;

/// Bytes in a GB (binary).
pub const BYTES_PER_GB: u64 = 1073741824;

/// Free and total space at the install location.
#[derive(Debug, Clone, PartialEq)]
pub struct StorageInfo {
    pub available_space_gb: u64,
    pub total_space_gb: u64,
    pub install_path: String,
    pub has_sufficient_space: bool,
}

/// Where the toolkit is installed by default.
pub open spec fn default_cuda_path(p: Platform) -> Seq<char> {
    match p {
        Platform::Windows => "C:\\Program Files\\NVIDIA GPU Computing Toolkit\\CUDA"@,
        _ => "/usr/local/cuda"@,
    }
}

/// `a.0 GB available / t.0 GB total`.
pub open spec fn space_text(available: u64, total: u64) -> Seq<char> {
    decimal(available as nat) + ".0 GB available / "@ + decimal(total as nat) + ".0 GB total"@
}

impl StorageInfo {
    /// A record whose sufficiency is `available_space_gb >= required_space_gb`.
    pub fn new(
        available_space_gb: u64,
        total_space_gb: u64,
        install_path: String,
        required_space_gb: u64,
    ) -> (r: Self)
        ensures
            r.available_space_gb == available_space_gb,
            r.total_space_gb == total_space_gb,
            r.install_path == install_path,
            r.has_sufficient_space == (available_space_gb >= required_space_gb),
    {
        StorageInfo {
            available_space_gb,
            total_space_gb,
            install_path,
            has_sufficient_space: available_space_gb >= required_space_gb,
        }
    }

    /// The record for free and total bytes at `install_path`: whole GB,
    /// sufficient from `REQUIRED_SPACE_GB` on.
    pub fn from_disk_space(install_path: String, available_bytes: u64, total_bytes: u64) -> (r:
        Self)
        ensures
            r.available_space_gb == available_bytes / BYTES_PER_GB,
            r.total_space_gb == total_bytes / BYTES_PER_GB,
            r.install_path == install_path,
            r.has_sufficient_space == (available_bytes / BYTES_PER_GB >= REQUIRED_SPACE_GB),
    {
        Self::new(
            available_bytes / BYTES_PER_GB,
            total_bytes / BYTES_PER_GB,
            install_path,
            REQUIRED_SPACE_GB,
        )
    }

    /// Where the toolkit is installed by default on `platform`.
    pub fn get_default_cuda_path(platform: Platform) -> (r: String)
        ensures
            r@ == default_cuda_path(platform),
    {
        match platform {
            Platform::Windows => String::from_str(
                "C:\\Program Files\\NVIDIA GPU Computing Toolkit\\CUDA",
            ),
            _ => String::from_str("/usr/local/cuda"),
        }
    }

    /// At least `required_gb` is free.
    pub fn check_space_requirement(&self, required_gb: u64) -> (r: bool)
        ensures
            r == (self.available_space_gb >= required_gb),
    {
        self.available_space_gb >= required_gb
    }

    /// `<available>.0 GB available / <total>.0 GB total`.
    pub fn format_space_info(&self) -> (r: String)
        ensures
            r@ == space_text(self.available_space_gb, self.total_space_gb),
    {
        let mut s = String::new();
        push_decimal(&mut s, self.available_space_gb);
        s.append(".0 GB available / ");
        push_decimal(&mut s, self.total_space_gb);
        s.append(".0 GB total");
        assert(s@ =~= space_text(self.available_space_gb, self.total_space_gb));
        s
    }
}

} // verus!
