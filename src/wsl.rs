//! The virtualization probe: telling WSL 1 and 2 apart from a native system.
use vstd::prelude::*;
use crate::text::{chars_of, contains_spec, contains_str, lower_of, lowercase};

verus! {

/// Which WSL a system runs in, if any.
#[derive(Debug, Clone, Copy, PartialEq, Eq, Structural)]
pub enum WslVersion {
    Wsl1,
    Wsl2,
    NotWsl,
}

/// What the probe found.
#[derive(Debug, Clone, PartialEq)]
pub struct WslInfo {
    pub is_wsl: bool,
    pub version: WslVersion,
    pub distribution: String,
}

impl WslVersion {
    /// The variant's name, as `Debug` writes it.
    pub fn name(&self) -> (r: &'static str)
        ensures
            r@ == wsl_name(*self),
    {
        match self {
            WslVersion::Wsl1 => "Wsl1",
            WslVersion::Wsl2 => "Wsl2",
            WslVersion::NotWsl => "NotWsl",
        }
    }
}

pub open spec fn wsl_name(v: WslVersion) -> Seq<char> {
    match v {
        WslVersion::Wsl1 => "Wsl1"@,
        WslVersion::Wsl2 => "Wsl2"@,
        WslVersion::NotWsl => "NotWsl"@,
    }
}

/// The version that the kernel version text shows.
pub open spec fn kernel_wsl(proc_version: Option<Seq<char>>) -> WslVersion {
    match proc_version {
        Some(p) => if contains_spec(lower_of(p), "microsoft"@) {
            if contains_spec(lower_of(p), "wsl2"@) {
                WslVersion::Wsl2
            } else {
                WslVersion::Wsl1
            }
        } else {
            WslVersion::NotWsl
        },
        None => WslVersion::NotWsl,
    }
}

impl WslInfo {
    /// Classifies from the kernel version text (a Microsoft kernel is WSL,
    /// version 2 where it says so) and the distribution variable (set only
    /// inside WSL; version 2 where the kernel did not tell).
    pub fn detect(proc_version: Option<&str>, distro_name: Option<String>) -> (r: Self)
        ensures
            ({
                let k = kernel_wsl(
                    match proc_version {
                        Some(p) => Some(p@),
                        None => None,
                    },
                );
                &&& r.is_wsl == (k != WslVersion::NotWsl || distro_name is Some)
                &&& r.version == (if k == WslVersion::NotWsl && distro_name is Some {
                    WslVersion::Wsl2
                } else {
                    k
                })
                &&& r.distribution@ == match distro_name {
                    Some(d) => d@,
                    None => Seq::<char>::empty(),
                }
            }),
    {
        let mut version = WslVersion::NotWsl;
        let mut is_wsl = false;
        match proc_version {
            Some(p) => {
                let l = lowercase(p);
                let lc = chars_of(l.as_str());
                if contains_str(&lc, "microsoft") {
                    is_wsl = true;
                    if contains_str(&lc, "wsl2") {
                        version = WslVersion::Wsl2;
                    } else {
                        version = WslVersion::Wsl1;
                    }
                }
            },
            None => {},
        }
        let distribution = match distro_name {
            Some(d) => {
                is_wsl = true;
                if version == WslVersion::NotWsl {
                    version = WslVersion::Wsl2;
                }
                d
            },
            None => String::new(),
        };
        WslInfo { is_wsl, version, distribution }
    }
}

} // verus!
