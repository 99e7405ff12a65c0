//! The operating system record: reading the distribution's metadata files.
use vstd::prelude::*;
use crate::error::{Platform, SystemError};
use crate::text::{
    chars_of, first_index, lines_of, lines_spec, slice, string_from, trim_spec, trimmed, views,
};

verus! {

/// Linux distributions, each with its version.
#[derive(Debug, Clone, PartialEq)]
pub enum LinuxDistro {
    Ubuntu(String),
    Debian(String),
    CentOS(String),
    Fedora(String),
    Arch(String),
    SUSE(String),
    Generic(String),
}

/// A Windows version and build.
#[derive(Debug, Clone, PartialEq)]
pub struct WindowsVersion {
    pub version: String,
    pub build: String,
}

/// The operating system.
#[derive(Debug, Clone, PartialEq)]
pub enum OsType {
    Linux(LinuxDistro),
    Windows(WindowsVersion),
}

/// The system's package manager.
#[derive(Debug, Clone, Copy, PartialEq, Eq, Structural)]
pub enum PackageManager {
    Apt,
    Yum,
    Dnf,
    Pacman,
    Zypper,
    Chocolatey,
    Winget,
    Unknown,
}

/// The operating system record.
#[derive(Debug, Clone, PartialEq)]
pub struct DistroInfo {
    pub os_type: OsType,
    pub name: String,
    pub version: String,
    pub kernel_version: Option<String>,
    pub package_manager: PackageManager,
}

/// What a platform must offer to install the toolkit.
pub trait PlatformHandler {
    fn get_install_command(&self, package: &str) -> Vec<String>;

    fn get_cuda_install_path(&self) -> String;

    fn get_driver_install_command(&self, version: &str) -> Vec<String>;

    fn requires_sudo(&self) -> bool;
}

/// `s` without leading and trailing double quotes, as `trim_matches('"')`.
pub open spec fn trim_quotes(s: Seq<char>) -> Seq<char> {
    trim_quotes_end(trim_quotes_start(s))
}

pub open spec fn trim_quotes_start(s: Seq<char>) -> Seq<char>
    decreases s.len(),
{
    if s.len() > 0 && s[0] == '"' {
        trim_quotes_start(s.drop_first())
    } else {
        s
    }
}

pub open spec fn trim_quotes_end(s: Seq<char>) -> Seq<char>
    decreases s.len(),
{
    if s.len() > 0 && s.last() == '"' {
        trim_quotes_end(s.drop_last())
    } else {
        s
    }
}

/// A `key=value` line, split at its first `=`.
pub open spec fn key_value(line: Seq<char>) -> Option<(Seq<char>, Seq<char>)> {
    match first_index(line, seq!['=']) {
        Some(i) => Some((line.subrange(0, i), line.subrange(i + 1, line.len() as int))),
        None => None,
    }
}

/// The value of the last line of `ls` that sets `key`.
pub open spec fn last_value(ls: Seq<Seq<char>>, key: Seq<char>) -> Option<Seq<char>>
    decreases ls.len(),
{
    if ls.len() == 0 {
        None
    } else {
        match key_value(ls.last()) {
            Some(kv) => if kv.0 == key {
                Some(kv.1)
            } else {
                last_value(ls.drop_last(), key)
            },
            None => last_value(ls.drop_last(), key),
        }
    }
}

/// A setting's value, or empty where it is not set.
pub open spec fn value_or_empty(v: Option<Seq<char>>) -> Seq<char> {
    match v {
        Some(s) => s,
        None => Seq::<char>::empty(),
    }
}

/// The distribution and package manager for an `ID`, with the version.
pub open spec fn distro_for(id: Seq<char>, version: Seq<char>, os: OsType, pm: PackageManager) -> bool {
    if id == "ubuntu"@ {
        (os matches OsType::Linux(LinuxDistro::Ubuntu(v)) && v@ == version) && pm == PackageManager::Apt
    } else if id == "debian"@ {
        (os matches OsType::Linux(LinuxDistro::Debian(v)) && v@ == version) && pm == PackageManager::Apt
    } else if id == "centos"@ {
        (os matches OsType::Linux(LinuxDistro::CentOS(v)) && v@ == version) && pm == PackageManager::Yum
    } else if id == "fedora"@ {
        (os matches OsType::Linux(LinuxDistro::Fedora(v)) && v@ == version) && pm == PackageManager::Dnf
    } else if id == "arch"@ {
        (os matches OsType::Linux(LinuxDistro::Arch(v)) && v@ == version) && pm == PackageManager::Pacman
    } else if id == "opensuse"@ || id == "suse"@ {
        (os matches OsType::Linux(LinuxDistro::SUSE(v)) && v@ == version) && pm == PackageManager::Zypper
    } else {
        (os matches OsType::Linux(LinuxDistro::Generic(g)) && g@ == id) && pm == PackageManager::Unknown
    }
}

/// The trimmed output of the kernel version command, if not empty.
pub open spec fn kernel_of(output: Option<Seq<char>>) -> Option<Seq<char>> {
    match output {
        Some(o) => if trim_spec(o).len() > 0 {
            Some(trim_spec(o))
        } else {
            None
        },
        None => None,
    }
}

/// `d` is the record that the primary metadata file `content` describes.
pub open spec fn os_release_record(d: DistroInfo, content: Seq<char>) -> bool {
    let ls = lines_spec(content);
    let name = trim_quotes(value_or_empty(last_value(ls, "NAME"@)));
    let version = trim_quotes(value_or_empty(last_value(ls, "VERSION"@)));
    let id = trim_quotes(value_or_empty(last_value(ls, "ID"@)));
    d.name@ == name && d.version@ == version && distro_for(id, version, d.os_type, d.package_manager)
}

/// `d` is the record that the legacy metadata file `content` describes.
pub open spec fn lsb_release_record(d: DistroInfo, content: Seq<char>) -> bool {
    let ls = lines_spec(content);
    let name = trim_quotes(value_or_empty(last_value(ls, "DISTRIB_DESCRIPTION"@)));
    let version = value_or_empty(last_value(ls, "DISTRIB_RELEASE"@));
    d.name@ == name && d.version@ == version && d.package_manager == PackageManager::Unknown && (
    d.os_type matches OsType::Linux(LinuxDistro::Generic(g)) && g@ == name)
}

/// `d` is the generic Linux record.
pub open spec fn generic_linux_record(d: DistroInfo) -> bool {
    d.name@ == "Linux"@ && d.version@ == "unknown"@ && d.package_manager == PackageManager::Unknown
        && (d.os_type matches OsType::Linux(LinuxDistro::Generic(g)) && g@ == "unknown"@)
}

fn trim_quotes_of(s: &Vec<char>) -> (r: Vec<char>)
    ensures
        r@ == trim_quotes(s@),
{
    let mut a: usize = 0;
    assert(s@.subrange(0, s@.len() as int) =~= s@);
    while a < s.len() && s[a] == '"'
        invariant
            a <= s@.len(),
            trim_quotes_start(s@) == trim_quotes_start(s@.subrange(a as int, s@.len() as int)),
        decreases s.len() - a,
    {
        assert(s@.subrange(a as int, s@.len() as int).drop_first() =~= s@.subrange(
            a + 1,
            s@.len() as int,
        ));
        a += 1;
    }
    let mut b = s.len();
    while b > a && s[b - 1] == '"'
        invariant
            a <= b <= s@.len(),
            trim_quotes(s@) == trim_quotes_end(s@.subrange(a as int, b as int)),
        decreases b - a,
    {
        assert(s@.subrange(a as int, b as int).drop_last() =~= s@.subrange(a as int, b - 1));
        b -= 1;
    }
    slice(s, a, b)
}

fn key_value_of(line: &Vec<char>) -> (r: Option<(Vec<char>, Vec<char>)>)
    ensures
        match r {
            Some(kv) => key_value(line@) == Some((kv.0@, kv.1@)),
            None => key_value(line@) is None,
        },
{
    let eq = chars_of("=");
    proof {
        reveal_strlit("=");
        assert("="@ =~= seq!['=']);
    }
    match crate::text::find(line, &eq) {
        Some(i) => {
            assert(i + 1 <= line.len());
            Some((slice(line, 0, i), slice(line, i + 1, line.len())))
        },
        None => None,
    }
}

/// The values of three keys in `key=value` lines: the last setting of each.
fn three_values(
    ls: &Vec<Vec<char>>,
    k1: &Vec<char>,
    k2: &Vec<char>,
    k3: &Vec<char>,
) -> (r: (Vec<char>, Vec<char>, Vec<char>))
    ensures
        r.0@ == value_or_empty(last_value(views(ls@), k1@)),
        r.1@ == value_or_empty(last_value(views(ls@), k2@)),
        r.2@ == value_or_empty(last_value(views(ls@), k3@)),
{
    let mut v1: Vec<char> = Vec::new();
    let mut v2: Vec<char> = Vec::new();
    let mut v3: Vec<char> = Vec::new();
    let mut i: usize = 0;
    while i < ls.len()
        invariant
            i <= ls@.len(),
            v1@ == value_or_empty(last_value(views(ls@).take(i as int), k1@)),
            v2@ == value_or_empty(last_value(views(ls@).take(i as int), k2@)),
            v3@ == value_or_empty(last_value(views(ls@).take(i as int), k3@)),
        decreases ls.len() - i,
    {
        assert(views(ls@).take(i + 1).drop_last() =~= views(ls@).take(i as int));
        assert(views(ls@).take(i + 1).last() == ls@[i as int]@);
        match key_value_of(&ls[i]) {
            Some((k, v)) => {
                if crate::text::same_chars(&k, k1) {
                    v1 = v.clone();
                }
                if crate::text::same_chars(&k, k2) {
                    v2 = v.clone();
                }
                if crate::text::same_chars(&k, k3) {
                    v3 = v;
                }
            },
            None => {},
        }
        i += 1;
    }
    assert(views(ls@).take(ls@.len() as int) =~= views(ls@));
    (v1, v2, v3)
}

impl DistroInfo {
    pub fn new(
        os_type: OsType,
        name: String,
        version: String,
        kernel_version: Option<String>,
        package_manager: PackageManager,
    ) -> (r: Self)
        ensures
            r.os_type == os_type,
            r.name == name,
            r.version == version,
            r.kernel_version == kernel_version,
            r.package_manager == package_manager,
    {
        DistroInfo { os_type, name, version, kernel_version, package_manager }
    }

    /// Reads the primary metadata file (`key=value` lines, values possibly
    /// quoted): `NAME`, `VERSION` and `ID`, the last setting of each; the
    /// `ID` picks the distribution and package manager.
    pub fn parse_os_release(content: &str) -> (r: Result<Self, SystemError>)
        ensures
            r is Ok,
            os_release_record(r.unwrap(), content@),
            r.unwrap().kernel_version is None,
    {
        let cs = chars_of(content);
        let ls = lines_of(&cs);
        let (n, v, i) = three_values(&ls, &chars_of("NAME"), &chars_of("VERSION"), &chars_of("ID"));
        let name = string_from(&trim_quotes_of(&n));
        let vc = trim_quotes_of(&v);
        let id = string_from(&trim_quotes_of(&i));
        let ver = string_from(&vc);
        let (distro, pm) = if id == String::from_str("ubuntu") {
            (LinuxDistro::Ubuntu(ver.clone()), PackageManager::Apt)
        } else if id == String::from_str("debian") {
            (LinuxDistro::Debian(ver.clone()), PackageManager::Apt)
        } else if id == String::from_str("centos") {
            (LinuxDistro::CentOS(ver.clone()), PackageManager::Yum)
        } else if id == String::from_str("fedora") {
            (LinuxDistro::Fedora(ver.clone()), PackageManager::Dnf)
        } else if id == String::from_str("arch") {
            (LinuxDistro::Arch(ver.clone()), PackageManager::Pacman)
        } else if id == String::from_str("opensuse") || id == String::from_str("suse") {
            (LinuxDistro::SUSE(ver.clone()), PackageManager::Zypper)
        } else {
            (LinuxDistro::Generic(id), PackageManager::Unknown)
        };
        Ok(DistroInfo {
            os_type: OsType::Linux(distro),
            name,
            version: ver,
            kernel_version: None,
            package_manager: pm,
        })
    }

    /// Reads the legacy metadata file: `DISTRIB_DESCRIPTION` (unquoted) as
    /// name, `DISTRIB_RELEASE` as version; a generic distribution.
    pub fn parse_lsb_release(content: &str) -> (r: Result<Self, SystemError>)
        ensures
            r is Ok,
            lsb_release_record(r.unwrap(), content@),
            r.unwrap().kernel_version is None,
    {
        let cs = chars_of(content);
        let ls = lines_of(&cs);
        let (n, v, _) = three_values(
            &ls,
            &chars_of("DISTRIB_DESCRIPTION"),
            &chars_of("DISTRIB_RELEASE"),
            &chars_of("DISTRIB_ID"),
        );
        let name = string_from(&trim_quotes_of(&n));
        Ok(DistroInfo {
            os_type: OsType::Linux(LinuxDistro::Generic(name.clone())),
            name,
            version: string_from(&v),
            kernel_version: None,
            package_manager: PackageManager::Unknown,
        })
    }

    /// The fixed Windows record.
    pub fn detect_windows() -> (r: Self)
        ensures
            r.name@ == "Windows"@,
            r.version@ == "10"@,
            r.kernel_version is None,
            r.package_manager == PackageManager::Winget,
            (r.os_type matches OsType::Windows(w) && w.version@ == "10"@ && w.build@ == "unknown"@),
    {
        DistroInfo {
            os_type: OsType::Windows(
                WindowsVersion {
                    version: String::from_str("10"),
                    build: String::from_str("unknown"),
                },
            ),
            name: String::from_str("Windows"),
            version: String::from_str("10"),
            kernel_version: None,
            package_manager: PackageManager::Winget,
        }
    }

    /// The record for `platform` from its sources: on Linux the primary
    /// metadata file, else the legacy one, else a generic record, each with
    /// the kernel version command's output; the fixed record on Windows; an
    /// error elsewhere.
    pub fn detect(
        platform: Platform,
        os_release: Option<&str>,
        lsb_release: Option<&str>,
        kernel_output: Option<&str>,
    ) -> (r: Result<Self, SystemError>)
        ensures
            platform == Platform::Other <==> r is Err,
            platform == Platform::Linux ==> crate::registry::opt_view(r.unwrap().kernel_version) == kernel_of(
                match kernel_output {
                    Some(o) => Some(o@),
                    None => None,
                },
            ),
            platform == Platform::Linux && os_release is Some ==> os_release_record(
                r.unwrap(),
                os_release.unwrap()@,
            ),
            platform == Platform::Linux && os_release is None && lsb_release is Some
                ==> lsb_release_record(r.unwrap(), lsb_release.unwrap()@),
            platform == Platform::Linux && os_release is None && lsb_release is None
                ==> generic_linux_record(r.unwrap()),
            platform == Platform::Windows ==> r.unwrap().name@ == "Windows"@ && (r.unwrap().os_type
                matches OsType::Windows(w) && w.version@ == "10"@ && w.build@ == "unknown"@)
                && r.unwrap().version@ == "10"@ && r.unwrap().kernel_version is None && r.unwrap().package_manager
                == PackageManager::Winget,
    {
        match platform {
            Platform::Windows => Ok(Self::detect_windows()),
            Platform::Other => Err(
                SystemError::DistroDetection(String::from_str("Unsupported operating system")),
            ),
            Platform::Linux => {
                let kernel = match kernel_output {
                    Some(o) => {
                        let t = trimmed(&chars_of(o));
                        if t.len() > 0 {
                            Some(string_from(&t))
                        } else {
                            None
                        }
                    },
                    None => None,
                };
                let mut d = match os_release {
                    Some(c) => match Self::parse_os_release(c) {
                        Ok(d) => d,
                        Err(e) => {
                            return Err(e);
                        },
                    },
                    None => match lsb_release {
                        Some(c) => match Self::parse_lsb_release(c) {
                            Ok(d) => d,
                            Err(e) => {
                                return Err(e);
                            },
                        },
                        None => DistroInfo {
                            os_type: OsType::Linux(LinuxDistro::Generic(String::from_str("unknown"))),
                            name: String::from_str("Linux"),
                            version: String::from_str("unknown"),
                            kernel_version: None,
                            package_manager: PackageManager::Unknown,
                        },
                    },
                };
                d.kernel_version = kernel;
                Ok(d)
            },
        }
    }
}

} // verus!
