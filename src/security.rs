//! Privileges, firmware boot state and the PATH analysis, and the issues and
//! recommendations that follow from them.
use vstd::prelude::*;
use crate::registry::opt_view;
use crate::text::{
    upper_of, uppercase,
    chars_of, concat_str, contains_spec, contains_str, decimal, lower_of, lowercase,
    push_decimal, split_chars, split_spec, starts_with_spec, string_from, views,
};

verus! {

/// Detailed boot-firmware state.
#[derive(Debug, Clone, Copy, PartialEq, Eq, Structural)]
pub struct SecureBootInfo {
    pub enabled: bool,
    pub setup_mode: bool,
    pub vendor_keys: bool,
    pub platform_key_present: bool,
}

/// What the PATH says about the toolkit.
#[derive(Debug, Clone, PartialEq)]
pub struct PathConfigInfo {
    pub cuda_in_path: bool,
    pub conflicting_cuda_paths: Vec<String>,
    pub path_entries: Vec<String>,
    pub cuda_home_set: bool,
    pub cuda_home_path: Option<String>,
}

/// The security posture of the machine.
#[derive(Debug, Clone, PartialEq)]
pub struct SecurityInfo {
    pub secure_boot_enabled: bool,
    pub has_admin_privileges: bool,
    pub can_install_drivers: bool,
    pub uefi_mode: bool,
    pub secure_boot_details: Option<SecureBootInfo>,
    pub path_configuration: PathConfigInfo,
}

pub open spec fn str_views(v: Seq<String>) -> Seq<Seq<char>> {
    v.map_values(|s: String| s@)
}

pub open spec fn msg_admin_required() -> Seq<char> {
    "Administrator/root privileges required for CUDA installation"@
}

pub open spec fn msg_cannot_install() -> Seq<char> {
    "Cannot install drivers on this system"@
}

pub open spec fn msg_secure_boot() -> Seq<char> {
    "Secure Boot is enabled - may prevent unsigned driver installation"@
}

pub open spec fn msg_home_unset() -> Seq<char> {
    "CUDA found in PATH but CUDA_HOME not set"@
}

pub open spec fn msg_conflicts(n: nat) -> Seq<char> {
    "Conflicting CUDA paths found in PATH: "@ + decimal(n)
}

/// A sequence of one item where `c` holds, none otherwise.
pub open spec fn only_if(c: bool, s: Seq<char>) -> Seq<Seq<char>> {
    if c {
        seq![s]
    } else {
        Seq::<Seq<char>>::empty()
    }
}

/// The issues, in order: no privileges, no driver installation, Secure Boot
/// on, conflicting PATH entries (with their count), toolkit in PATH without
/// its home variable.
pub open spec fn security_issues(s: SecurityInfo) -> Seq<Seq<char>> {
    only_if(!s.has_admin_privileges, msg_admin_required()) + only_if(
        !s.can_install_drivers,
        msg_cannot_install(),
    ) + only_if(s.secure_boot_enabled, msg_secure_boot()) + only_if(
        s.path_configuration.conflicting_cuda_paths@.len() > 0,
        msg_conflicts(s.path_configuration.conflicting_cuda_paths@.len()),
    ) + only_if(
        !s.path_configuration.cuda_home_set && s.path_configuration.cuda_in_path,
        msg_home_unset(),
    )
}

/// The PATH recommendations, in order.
pub open spec fn path_recommendations(p: PathConfigInfo) -> Seq<Seq<char>> {
    only_if(!p.cuda_home_set, "Set CUDA_HOME environment variable"@) + only_if(
        p.conflicting_cuda_paths@.len() > 0,
        "Remove conflicting CUDA paths from PATH"@,
    ) + only_if(p.cuda_home_set && !p.cuda_in_path, "Add CUDA bin directory to PATH"@)
}

/// A PATH entry names the toolkit: its lower-cased text mentions it or its
/// compiler.
pub open spec fn toolkit_named(entry: Seq<char>) -> bool {
    contains_spec(lower_of(entry), "cuda"@) || contains_spec(lower_of(entry), "nvcc"@)
}

/// The path of `name` in the PATH entry `p`, as the compiler probe forms it.
pub open spec fn nvcc_probe_path(p: Seq<char>, name: Seq<char>) -> Seq<char> {
    p + (if contains_spec(lower_of(p), "\\"@) {
        "\\"@
    } else {
        "/"@
    }) + name
}

pub open spec fn is_sep(c: char) -> bool {
    c == '/' || c == '\\'
}

/// `h` without trailing separators.
pub open spec fn strip_trailing_seps(h: Seq<char>) -> Seq<char>
    decreases h.len(),
{
    if h.len() > 0 && is_sep(h.last()) {
        strip_trailing_seps(h.drop_last())
    } else {
        h
    }
}

/// The path `e` lies at or under the directory `h`, compared by whole
/// components.
pub open spec fn path_within(e: Seq<char>, h: Seq<char>) -> bool {
    let h2 = strip_trailing_seps(h);
    starts_with_spec(e, h2) && (e.len() == h2.len() || is_sep(e[h2.len() as int]))
}

/// A toolkit entry conflicts unless it lies under the toolkit home.
pub open spec fn conflicting(entry: Seq<char>, home: Option<Seq<char>>) -> bool {
    match home {
        Some(h) => !path_within(entry, h),
        None => true,
    }
}

/// The toolkit entries among `entries[0..i]` (by `flags`) that conflict with `home`.
pub open spec fn conflicts_among(
    entries: Seq<Seq<char>>,
    flags: Seq<bool>,
    home: Option<Seq<char>>,
    i: nat,
) -> Seq<Seq<char>>
    decreases i,
{
    if i == 0 || i > entries.len() {
        Seq::<Seq<char>>::empty()
    } else {
        let prev = conflicts_among(entries, flags, home, (i - 1) as nat);
        if flags[i - 1] && conflicting(entries[i - 1], home) {
            prev.push(entries[i - 1])
        } else {
            prev
        }
    }
}

/// `r` is the analysis of `entries`, of which those marked in `flags` are the
/// toolkit's, against the toolkit home `home`.
pub open spec fn path_config_of(
    r: PathConfigInfo,
    entries: Seq<Seq<char>>,
    flags: Seq<bool>,
    home: Option<Seq<char>>,
) -> bool {
    &&& str_views(r.path_entries@) == entries
    &&& r.cuda_home_set == (home is Some)
    &&& opt_view(r.cuda_home_path) == home
    &&& r.cuda_in_path == (exists|i: int| 0 <= i < flags.len() && flags[i])
    &&& str_views(r.conflicting_cuda_paths@) == conflicts_among(entries, flags, home, entries.len())
}

/// Relies on `std::path::Path::exists`: what is on disk can change, so
/// nothing is promised of the answer.
#[verifier::external_body]
pub(crate) fn path_exists(p: &str) -> bool {
    std::path::Path::new(p).exists()
}

pub(crate) fn strip_seps_len(h: &Vec<char>) -> (r: usize)
    ensures
        r <= h@.len(),
        h@.subrange(0, r as int) == strip_trailing_seps(h@),
{
    let mut n = h.len();
    assert(h@.subrange(0, n as int) =~= h@);
    while n > 0 && (h[n - 1] == '/' || h[n - 1] == '\\')
        invariant
            n <= h@.len(),
            strip_trailing_seps(h@) == strip_trailing_seps(h@.subrange(0, n as int)),
        decreases n,
    {
        assert(h@.subrange(0, n as int).drop_last() =~= h@.subrange(0, n - 1));
        n -= 1;
    }
    n
}

/// The path `e` lies at or under the directory `h`.
pub fn is_path_within(e: &str, h: &str) -> (r: bool)
    ensures
        r == path_within(e@, h@),
{
    let ec = chars_of(e);
    let hc = chars_of(h);
    let n = strip_seps_len(&hc);
    assert(strip_trailing_seps(h@).len() == n);
    if n > ec.len() {
        return false;
    }
    let mut i: usize = 0;
    while i < n
        invariant
            n <= ec@.len(),
            n <= hc@.len(),
            ec@ == e@,
            hc@ == h@,
            hc@.subrange(0, n as int) == strip_trailing_seps(h@),
            i <= n,
            forall|j: int| 0 <= j < i ==> ec@[j] == hc@[j],
        decreases n - i,
    {
        if ec[i] != hc[i] {
            assert(ec@.take(n as int)[i as int] != hc@.subrange(0, n as int)[i as int]);
            assert(ec@.take(n as int) != strip_trailing_seps(h@));
            return false;
        }
        i += 1;
    }
    assert(ec@.take(n as int) =~= hc@.subrange(0, n as int));
    n == ec.len() || ec[n] == '/' || ec[n] == '\\'
}

/// Splits a PATH value at `separator`.
pub fn split_path_list(path_env: &str, separator: char) -> (r: Vec<String>)
    ensures
        str_views(r@) == split_spec(path_env@, separator),
{
    let cs = chars_of(path_env);
    let pieces = split_chars(&cs, separator);
    let mut out: Vec<String> = Vec::new();
    let mut i: usize = 0;
    while i < pieces.len()
        invariant
            i <= pieces@.len(),
            views(pieces@) == split_spec(path_env@, separator),
            str_views(out@) == views(pieces@).take(i as int),
        decreases pieces.len() - i,
    {
        let s = string_from(&pieces[i]);
        let ghost before = str_views(out@);
        out.push(s);
        assert(str_views(out@) =~= before.push(pieces@[i as int]@));
        assert(views(pieces@).take(i + 1) =~= views(pieces@).take(i as int).push(
            pieces@[i as int]@,
        ));
        i += 1;
    }
    assert(views(pieces@).take(pieces@.len() as int) =~= views(pieces@));
    out
}

pub(crate) fn push_when(v: &mut Vec<String>, c: bool, s: &str)
    ensures
        str_views(final(v)@) == str_views(old(v)@) + only_if(c, s@),
{
    let ghost before = str_views(v@);
    if c {
        v.push(String::from_str(s));
        assert(str_views(v@) =~= before + only_if(c, s@));
    } else {
        assert(str_views(v@) =~= before + only_if(c, s@));
    }
}

impl SecureBootInfo {
    /// Driver installation is possible: Secure Boot is off or in setup mode.
    pub fn allows_driver_installation(&self) -> (r: bool)
        ensures
            r == (!self.enabled || self.setup_mode),
    {
        !self.enabled || self.setup_mode
    }

    /// `Disabled`, `Enabled (Setup Mode)` or `Enabled (User Mode)`.
    pub fn get_status_description(&self) -> (r: String)
        ensures
            r@ == if !self.enabled {
                "Disabled"@
            } else if self.setup_mode {
                "Enabled (Setup Mode)"@
            } else {
                "Enabled (User Mode)"@
            },
    {
        if !self.enabled {
            String::from_str("Disabled")
        } else if self.setup_mode {
            String::from_str("Enabled (Setup Mode)")
        } else {
            String::from_str("Enabled (User Mode)")
        }
    }

    /// A firmware flag variable is set: its fifth byte (after the four bytes
    /// of attributes) is 1.
    pub fn efi_flag(data: &Option<Vec<u8>>) -> (r: bool)
        ensures
            r == match data {
                Some(d) => d@.len() > 4 && d@[4] == 1,
                None => false,
            },
    {
        match data {
            Some(d) => d.len() > 4 && d[4] == 1,
            None => false,
        }
    }

    /// The state read from the firmware's variables.
    pub fn from_efi_vars(
        secure_boot: &Option<Vec<u8>>,
        setup_mode: &Option<Vec<u8>>,
        vendor_keys: &Option<Vec<u8>>,
        platform_key_present: bool,
    ) -> (r: Self)
        ensures
            r.enabled == Self::efi_flag_spec(secure_boot),
            r.setup_mode == Self::efi_flag_spec(setup_mode),
            r.vendor_keys == Self::efi_flag_spec(vendor_keys),
            r.platform_key_present == platform_key_present,
    {
        SecureBootInfo {
            enabled: Self::efi_flag(secure_boot),
            setup_mode: Self::efi_flag(setup_mode),
            vendor_keys: Self::efi_flag(vendor_keys),
            platform_key_present,
        }
    }

    pub open spec fn efi_flag_spec(data: &Option<Vec<u8>>) -> bool {
        match data {
            Some(d) => d@.len() > 4 && d@[4] == 1,
            None => false,
        }
    }
}

impl PathConfigInfo {
    /// The home variable is set, nothing conflicts, and the toolkit is in PATH.
    pub fn is_optimal(&self) -> (r: bool)
        ensures
            r == (self.cuda_home_set && self.conflicting_cuda_paths@.len() == 0 && (
            self.cuda_in_path || !self.cuda_home_set)),
    {
        self.cuda_home_set && self.conflicting_cuda_paths.len() == 0 && (self.cuda_in_path
            || !self.cuda_home_set)
    }

    /// What to change in the PATH setup.
    pub fn get_recommendations(&self) -> (r: Vec<String>)
        ensures
            str_views(r@) == path_recommendations(*self),
    {
        let mut v: Vec<String> = Vec::new();
        push_when(&mut v, !self.cuda_home_set, "Set CUDA_HOME environment variable");
        push_when(
            &mut v,
            self.conflicting_cuda_paths.len() > 0,
            "Remove conflicting CUDA paths from PATH",
        );
        push_when(
            &mut v,
            self.cuda_home_set && !self.cuda_in_path,
            "Add CUDA bin directory to PATH",
        );
        assert(str_views(v@) =~= path_recommendations(*self));
        v
    }

    /// The analysis of `path_entries`, of which those marked in
    /// `is_toolkit` are the toolkit's: the toolkit is in PATH where any is
    /// marked, and a marked entry conflicts unless it lies under `cuda_home`.
    pub fn from_entries(
        path_entries: Vec<String>,
        is_toolkit: &Vec<bool>,
        cuda_home: Option<String>,
    ) -> (r: Self)
        requires
            is_toolkit@.len() == path_entries@.len(),
        ensures
            path_config_of(r, str_views(path_entries@), is_toolkit@, opt_view(cuda_home)),
    {
        let ghost entries = str_views(path_entries@);
        let ghost home = opt_view(cuda_home);
        let mut in_path = false;
        let mut conflicts: Vec<String> = Vec::new();
        let mut i: usize = 0;
        while i < path_entries.len()
            invariant
                i <= path_entries@.len(),
                is_toolkit@.len() == path_entries@.len(),
                entries == str_views(path_entries@),
                home == opt_view(cuda_home),
                in_path == (exists|j: int| 0 <= j < i && is_toolkit@[j]),
                str_views(conflicts@) == conflicts_among(entries, is_toolkit@, home, i as nat),
            decreases path_entries.len() - i,
        {
            assert(entries[i as int] == path_entries@[i as int]@);
            if is_toolkit[i] {
                in_path = true;
                let c = match &cuda_home {
                    Some(h) => !is_path_within(path_entries[i].as_str(), h.as_str()),
                    None => true,
                };
                if c {
                    let ghost before = str_views(conflicts@);
                    conflicts.push(path_entries[i].clone());
                    assert(str_views(conflicts@) =~= before.push(entries[i as int]));
                }
            }
            i += 1;
        }
        PathConfigInfo {
            cuda_in_path: in_path,
            conflicting_cuda_paths: conflicts,
            cuda_home_set: cuda_home.is_some(),
            path_entries,
            cuda_home_path: cuda_home,
        }
    }
}

impl SecurityInfo {
    pub fn new(
        secure_boot_enabled: bool,
        has_admin_privileges: bool,
        can_install_drivers: bool,
        uefi_mode: bool,
        secure_boot_details: Option<SecureBootInfo>,
        path_configuration: PathConfigInfo,
    ) -> (r: Self)
        ensures
            r.secure_boot_enabled == secure_boot_enabled,
            r.has_admin_privileges == has_admin_privileges,
            r.can_install_drivers == can_install_drivers,
            r.uefi_mode == uefi_mode,
            r.secure_boot_details == secure_boot_details,
            r.path_configuration == path_configuration,
    {
        SecurityInfo {
            secure_boot_enabled,
            has_admin_privileges,
            can_install_drivers,
            uefi_mode,
            secure_boot_details,
            path_configuration,
        }
    }

    /// The posture from the probes' findings: boot details count only in
    /// UEFI mode, and drivers can be installed with privileges where the
    /// kernel's module directories are there.
    pub fn from_probes(
        uefi_mode: bool,
        secure_boot_details: Option<SecureBootInfo>,
        has_admin_privileges: bool,
        kernel_modules_present: bool,
        path_configuration: PathConfigInfo,
    ) -> (r: Self)
        ensures
            r.uefi_mode == uefi_mode,
            r.secure_boot_details == (if uefi_mode {
                secure_boot_details
            } else {
                None
            }),
            r.secure_boot_enabled == (uefi_mode && match secure_boot_details {
                Some(d) => d.enabled,
                None => false,
            }),
            r.has_admin_privileges == has_admin_privileges,
            r.can_install_drivers == (has_admin_privileges && kernel_modules_present),
            r.path_configuration == path_configuration,
    {
        let details = if uefi_mode {
            secure_boot_details
        } else {
            None
        };
        let enabled = match details {
            Some(d) => d.enabled,
            None => false,
        };
        Self::new(
            enabled,
            has_admin_privileges,
            has_admin_privileges && kernel_modules_present,
            uefi_mode,
            details,
            path_configuration,
        )
    }

    /// UEFI mode on Windows: the firmware-type variable says `UEFI` (in any
    /// letter case), or, where it is not set, the Secure Boot state key exists.
    pub fn windows_uefi_mode(firmware_type: Option<String>, secure_boot_key_present: bool) -> (r:
        bool)
        ensures
            r == match firmware_type {
                Some(f) => upper_of(f@) == "UEFI"@,
                None => secure_boot_key_present,
            },
    {
        match firmware_type {
            Some(f) => uppercase(f.as_str()) == String::from_str("UEFI"),
            None => secure_boot_key_present,
        }
    }

    /// Whether a PATH entry names the toolkit or its compiler, by its
    /// lower-cased text.
    pub fn names_toolkit(path: &str) -> (r: bool)
        ensures
            r == toolkit_named(path@),
    {
        let l = lowercase(path);
        let lc = chars_of(l.as_str());
        contains_str(&lc, "cuda") || contains_str(&lc, "nvcc")
    }

    /// Where the compiler would be in a PATH entry: the entry, a separator
    /// (`\` where its lower-cased text has one, else `/`), then `nvcc` and
    /// `nvcc.exe`.
    pub fn nvcc_candidates(path: &str) -> (r: (String, String))
        ensures
            r.0@ == nvcc_probe_path(path@, "nvcc"@),
            r.1@ == nvcc_probe_path(path@, "nvcc.exe"@),
    {
        let l = lowercase(path);
        let lc = chars_of(l.as_str());
        let sep = if contains_str(&lc, "\\") {
            "\\"
        } else {
            "/"
        };
        let base = concat_str(path, sep);
        (concat_str(base.as_str(), "nvcc"), concat_str(base.as_str(), "nvcc.exe"))
    }

    /// A PATH entry is the toolkit's: it names the toolkit or its compiler,
    /// or the compiler was found in it (`nvcc_found`, `nvcc_exe_found`: the
    /// answers for the two paths of `nvcc_candidates`).
    pub fn is_cuda_path_given(path: &str, nvcc_found: bool, nvcc_exe_found: bool) -> (r: bool)
        ensures
            r == (toolkit_named(path@) || nvcc_found || nvcc_exe_found),
    {
        Self::names_toolkit(path) || nvcc_found || nvcc_exe_found
    }

    /// Whether a PATH entry looks like the toolkit's: its text mentions the
    /// toolkit or its compiler, or the compiler is in that directory (the
    /// paths of `nvcc_candidates`, asked of the disk now).
    pub fn is_cuda_path(path: &str) -> (r: bool)
        ensures
            toolkit_named(path@) ==> r,
    {
        if Self::names_toolkit(path) {
            return Self::is_cuda_path_given(path, false, false);
        }
        let (unix, windows) = Self::nvcc_candidates(path);
        let a = path_exists(unix.as_str());
        let b = a || path_exists(windows.as_str());
        Self::is_cuda_path_given(path, a, b)
    }

    /// The PATH analysis of `path_env` split at `separator`, against the
    /// toolkit home `cuda_home`.
    pub fn detect_path_configuration(path_env: &str, separator: char, cuda_home: Option<String>) -> (r:
        PathConfigInfo)
        ensures
            exists|flags: Seq<bool>|
                flags.len() == split_spec(path_env@, separator).len() && (forall|i: int|
                    0 <= i < flags.len() && toolkit_named(
                        #[trigger] split_spec(path_env@, separator)[i],
                    ) ==> flags[i]) && path_config_of(
                    r,
                    split_spec(path_env@, separator),
                    flags,
                    opt_view(cuda_home),
                ),
    {
        let entries = split_path_list(path_env, separator);
        let mut flags: Vec<bool> = Vec::new();
        let mut i: usize = 0;
        while i < entries.len()
            invariant
                i <= entries@.len(),
                flags@.len() == i,
                forall|j: int| 0 <= j < i && toolkit_named(entries@[j]@) ==> flags@[j],
            decreases entries.len() - i,
        {
            flags.push(Self::is_cuda_path(entries[i].as_str()));
            i += 1;
        }
        let ghost ev = str_views(entries@);
        assert forall|j: int| 0 <= j < flags@.len() && toolkit_named(#[trigger] ev[j]) implies flags@[j] by {
            assert(ev[j] == entries@[j]@);
        }
        let r = PathConfigInfo::from_entries(entries, &flags, cuda_home);
        r
    }

    /// Drivers can be installed: privileges and a system that allows it.
    pub fn allows_driver_installation(&self) -> (r: bool)
        ensures
            r == (self.has_admin_privileges && self.can_install_drivers),
    {
        self.has_admin_privileges && self.can_install_drivers
    }

    /// Some PATH entry of the toolkit lies outside its home.
    pub fn has_path_conflicts(&self) -> (r: bool)
        ensures
            r == (self.path_configuration.conflicting_cuda_paths@.len() > 0),
    {
        self.path_configuration.conflicting_cuda_paths.len() > 0
    }

    /// The security issues, in order.
    pub fn get_security_issues(&self) -> (r: Vec<String>)
        ensures
            str_views(r@) == security_issues(*self),
    {
        let mut v: Vec<String> = Vec::new();
        push_when(
            &mut v,
            !self.has_admin_privileges,
            "Administrator/root privileges required for CUDA installation",
        );
        push_when(&mut v, !self.can_install_drivers, "Cannot install drivers on this system");
        push_when(
            &mut v,
            self.secure_boot_enabled,
            "Secure Boot is enabled - may prevent unsigned driver installation",
        );
        let n = self.path_configuration.conflicting_cuda_paths.len();
        let ghost before = str_views(v@);
        if n > 0 {
            let mut m = String::from_str("Conflicting CUDA paths found in PATH: ");
            push_decimal(&mut m, n as u64);
            v.push(m);
            assert(str_views(v@) =~= before + only_if(n > 0, msg_conflicts(n as nat)));
        } else {
            assert(str_views(v@) =~= before + only_if(n > 0, msg_conflicts(n as nat)));
        }
        push_when(
            &mut v,
            !self.path_configuration.cuda_home_set && self.path_configuration.cuda_in_path,
            "CUDA found in PATH but CUDA_HOME not set",
        );
        assert(str_views(v@) =~= security_issues(*self));
        v
    }
}

} // verus!
