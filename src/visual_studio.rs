//! The IDE probe's record: the newest Visual Studio with native C++ tools.
use vstd::prelude::*;

verus! {

/// A Visual Studio installation with the C++ build tools.
#[derive(Debug, Clone, PartialEq)]
pub struct VisualStudioInfo {
    pub is_installed: bool,
    pub name: String,
    pub version: String,
    pub install_path: String,
    pub has_cpp_tools: bool,
}

impl VisualStudioInfo {
    /// The record for the installer locator's first entry, queried for the
    /// C++ tools: its display name (else `Visual Studio`), product version
    /// (else `Unknown`) and install path (else empty).
    pub fn from_installer_entry(
        display_name: Option<String>,
        product_version: Option<String>,
        installation_path: Option<String>,
    ) -> (r: Self)
        ensures
            r.is_installed,
            r.has_cpp_tools,
            r.name@ == match display_name {
                Some(n) => n@,
                None => "Visual Studio"@,
            },
            r.version@ == match product_version {
                Some(v) => v@,
                None => "Unknown"@,
            },
            r.install_path@ == match installation_path {
                Some(p) => p@,
                None => Seq::<char>::empty(),
            },
    {
        VisualStudioInfo {
            is_installed: true,
            name: match display_name {
                Some(n) => n,
                None => String::from_str("Visual Studio"),
            },
            version: match product_version {
                Some(v) => v,
                None => String::from_str("Unknown"),
            },
            install_path: match installation_path {
                Some(p) => p,
                None => String::new(),
            },
            has_cpp_tools: true,
        }
    }
}

} // verus!
