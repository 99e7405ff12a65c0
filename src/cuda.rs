//! The installation scanner's rules: candidate install roots, the components
//! an installation should have, reading the compiler's release, validity and
//! conflicts between installations.
use vstd::prelude::*;
use crate::error::{Platform, SystemError};
use crate::registry::opt_view;
use crate::security::{path_exists, str_views};
use crate::text::{
    after_first, after_first_of, chars_of, concat_str, find, first_index,
    lines_of, lines_spec, slice, string_from, trim_spec, trimmed, views,
};
use crate::driver::first_line_with;

verus! {

/// A part of an installation and where it should be.
#[derive(Debug, Clone, PartialEq)]
pub struct CudaComponent {
    pub name: String,
    pub version: String,
    pub path: String,
    pub required: bool,
}

/// An installation found on disk. `install_date` is in seconds since the
/// Unix epoch.
#[derive(Debug, Clone, PartialEq)]
pub struct CudaInstallation {
    pub version: String,
    pub install_path: String,
    pub toolkit_path: String,
    pub runtime_version: Option<String>,
    pub driver_version: Option<String>,
    pub install_date: i64,
    pub size_bytes: u64,
    pub is_active: bool,
    pub components: Vec<CudaComponent>,
}

/// A toolkit version to install or use.
#[derive(Debug, Clone, PartialEq)]
pub enum CudaVersion {
    Specific(String),
    Latest,
    LatestLts,
}

/// The toolkit found through PATH.
#[derive(Debug, Clone, PartialEq)]
pub struct SystemCudaInfo {
    pub nvcc_version: Option<String>,
    pub nvcc_path: Option<String>,
    pub runtime_version: Option<String>,
    pub driver_version: Option<String>,
}

/// The kinds of conflict between installations.
#[derive(Debug, Clone, Copy, PartialEq, Eq, Structural)]
pub enum ConflictType {
    MultipleVersionsInPath,
    EnvironmentVariableMismatch,
    SystemPackageConflict,
    SymlinkConflict,
}

/// A conflict between installations.
#[derive(Debug, Clone, PartialEq)]
pub struct CudaConflict {
    pub conflict_type: ConflictType,
    pub description: String,
    pub affected_installations: Vec<String>,
    pub resolution_suggestion: String,
}

/// What the scan found.
#[derive(Debug, Clone, PartialEq)]
pub struct CudaDetectionResult {
    pub installations: Vec<CudaInstallation>,
    pub conflicts: Vec<CudaConflict>,
    pub system_cuda: Option<SystemCudaInfo>,
}

/// The separator of paths on `p`.
pub open spec fn sep_of(p: Platform) -> char {
    if p == Platform::Windows {
        '\\'
    } else {
        '/'
    }
}

/// `base` joined with `part`, as `Path::join` does for a relative part.
pub open spec fn joined(base: Seq<char>, part: Seq<char>, p: Platform) -> Seq<char> {
    if base.len() == 0 {
        part
    } else if base.last() == '/' || base.last() == sep_of(p) {
        base + part
    } else {
        base.push(sep_of(p)) + part
    }
}

/// Joins `part` to `base` with the separator of `platform`.
pub fn join_path(base: &str, part: &str, platform: Platform) -> (r: String)
    ensures
        r@ == joined(base@, part@, platform),
{
    let bc = chars_of(base);
    let sep = match platform {
        Platform::Windows => '\\',
        _ => '/',
    };
    if bc.len() == 0 {
        return String::from_str(part);
    }
    let last = bc[bc.len() - 1];
    let mut s = String::from_str(base);
    if !(last == '/' || last == sep) {
        crate::text::push_char(&mut s, sep);
    }
    s.append(part);
    s
}

/// The compiler's file name on `p`.
pub open spec fn nvcc_name(p: Platform) -> Seq<char> {
    if p == Platform::Windows {
        "nvcc.exe"@
    } else {
        "nvcc"@
    }
}

/// A component to look for: its name, its usual path under the root, the
/// paths tried in turn where that one is missing (other versioned or
/// platform file names), and whether it is required.
pub struct ComponentRow {
    pub name: Seq<char>,
    pub path: Seq<char>,
    pub fallbacks: Seq<Seq<char>>,
    pub required: bool,
}

/// The views of string literals.
pub open spec fn lit_views(v: Seq<&str>) -> Seq<Seq<char>> {
    v.map_values(|f: &str| f@)
}

/// The fallbacks of a component on `p`.
pub open spec fn row_fallbacks(linux: Seq<Seq<char>>, windows: Seq<Seq<char>>, p: Platform) -> Seq<
    Seq<char>,
> {
    if p == Platform::Windows {
        windows
    } else {
        linux
    }
}

/// The components an installation is checked for on `p`, in order.
pub open spec fn component_table(p: Platform) -> Seq<ComponentRow> {
    seq![
        ComponentRow {
            name: "NVCC Compiler"@,
            path: "bin/nvcc"@,
            fallbacks: row_fallbacks(seq![], seq!["bin/nvcc.exe"@], p),
            required: true,
        },
        ComponentRow {
            name: "CUDA Runtime"@,
            path: "lib64/libcudart.so"@,
            fallbacks: row_fallbacks(
                seq!["lib64/libcudart.so.12"@, "lib64/libcudart.so.11.0"@],
                seq!["lib64/libcudart.dll"@, "bin/cudart64_12.dll"@, "bin/cudart64_110.dll"@],
                p,
            ),
            required: true,
        },
        ComponentRow {
            name: "CUDA Driver API"@,
            path: "lib64/libcuda.so"@,
            fallbacks: row_fallbacks(seq![], seq!["lib64/libcuda.dll"@], p),
            required: false,
        },
        ComponentRow {
            name: "cuBLAS"@,
            path: "lib64/libcublas.so"@,
            fallbacks: row_fallbacks(seq![], seq!["lib64/libcublas.dll"@], p),
            required: false,
        },
        ComponentRow {
            name: "cuFFT"@,
            path: "lib64/libcufft.so"@,
            fallbacks: row_fallbacks(seq![], seq!["lib64/libcufft.dll"@], p),
            required: false,
        },
        ComponentRow {
            name: "cuRAND"@,
            path: "lib64/libcurand.so"@,
            fallbacks: row_fallbacks(seq![], seq!["lib64/libcurand.dll"@], p),
            required: false,
        },
        ComponentRow {
            name: "cuSPARSE"@,
            path: "lib64/libcusparse.so"@,
            fallbacks: row_fallbacks(seq![], seq!["lib64/libcusparse.dll"@], p),
            required: false,
        },
        ComponentRow {
            name: "NPP"@,
            path: "lib64/libnpp.so"@,
            fallbacks: row_fallbacks(seq![], seq!["lib64/libnpp.dll"@], p),
            required: false,
        },
    ]
}

/// `c` is the component `row` for an installation at `root`: its path is the
/// usual one or one of the fallbacks.
pub open spec fn component_matches(c: CudaComponent, row: ComponentRow, root: Seq<char>, p: Platform) -> bool {
    &&& c.name@ == row.name
    &&& c.version@ == "unknown"@
    &&& c.required == row.required
    &&& (c.path@ == joined(root, row.path, p) || exists|k: int|
        0 <= k < row.fallbacks.len() && c.path@ == joined(root, #[trigger] row.fallbacks[k], p))
}

/// Every required component's path exists where `exists` says so.
pub open spec fn valid_given(
    inst: CudaInstallation,
    install_exists: bool,
    toolkit_exists: bool,
    exists: Seq<bool>,
) -> bool {
    install_exists && toolkit_exists && forall|i: int|
        0 <= i < inst.components@.len() && #[trigger] inst.components@[i].required ==> exists[i]
}

/// The release in the compiler's `--version` output: on the first line with
/// `release `, the text after it up to a comma, trimmed.
pub open spec fn nvcc_release(output: Seq<char>) -> Option<Seq<char>> {
    match first_line_with(lines_spec(output), "release "@, 0) {
        None => None,
        Some(l) => {
            let rest = after_first(l, "release "@).unwrap();
            let seg = match first_index(rest, "release "@) {
                Some(e) => rest.subrange(0, e),
                None => rest,
            };
            Some(
                trim_spec(
                    match first_index(seg, seq![',']) {
                        Some(c) => seg.subrange(0, c),
                        None => seg,
                    },
                ),
            )
        },
    }
}

/// `a` and `b` name the same directory, trailing separators aside.
pub open spec fn same_dir(a: Seq<char>, b: Seq<char>) -> bool {
    crate::security::strip_trailing_seps(a) == crate::security::strip_trailing_seps(b)
}

pub open spec fn install_views(v: Seq<CudaInstallation>) -> Seq<Seq<char>> {
    v.map_values(|i: CudaInstallation| i.version@)
}

/// The conflicts, in order: several installations besides one in PATH; the
/// toolkit home naming none of the installations found (also where none was
/// found).
pub open spec fn conflict_kinds(
    insts: Seq<CudaInstallation>,
    system_cuda: bool,
    home: Option<Seq<char>>,
) -> Seq<ConflictType> {
    (if insts.len() > 1 && system_cuda {
        seq![ConflictType::MultipleVersionsInPath]
    } else {
        Seq::<ConflictType>::empty()
    }) + (match home {
        Some(h) => if !(exists|i: int|
            0 <= i < insts.len() && same_dir(#[trigger] insts[i].install_path@, h)) {
            seq![ConflictType::EnvironmentVariableMismatch]
        } else {
            Seq::<ConflictType>::empty()
        },
        None => Seq::<ConflictType>::empty(),
    })
}

fn component_row(
    root: &str,
    platform: Platform,
    name: &str,
    rel: &str,
    fallbacks: Vec<&str>,
    required: bool,
) -> (r: CudaComponent)
    ensures
        component_matches(
            r,
            ComponentRow { name: name@, path: rel@, fallbacks: lit_views(fallbacks@), required },
            root@,
            platform,
        ),
{
    let primary = join_path(root, rel, platform);
    let ghost fb = lit_views(fallbacks@);
    let mut path = primary;
    if !path_exists(path.as_str()) {
        let mut k: usize = 0;
        while k < fallbacks.len()
            invariant
                k <= fallbacks@.len(),
                fb == lit_views(fallbacks@),
                path@ == joined(root@, rel@, platform),
            decreases fallbacks.len() - k,
        {
            let candidate = join_path(root, fallbacks[k], platform);
            if path_exists(candidate.as_str()) {
                assert(fb[k as int] == fallbacks@[k as int]@);
                let ghost row = ComponentRow {
                    name: name@,
                    path: rel@,
                    fallbacks: lit_views(fallbacks@),
                    required,
                };
                assert(row.fallbacks[k as int] == fb[k as int]);
                assert(0 <= k < row.fallbacks.len() && candidate@ == joined(
                    root@,
                    row.fallbacks[k as int],
                    platform,
                ));
                let c = CudaComponent {
                    name: String::from_str(name),
                    version: String::from_str("unknown"),
                    path: candidate,
                    required,
                };
                assert(component_matches(c, row, root@, platform));
                return c;
            }
            k += 1;
        }
    }
    CudaComponent {
        name: String::from_str(name),
        version: String::from_str("unknown"),
        path,
        required,
    }
}

fn same_dir_exec(a: &str, b: &str) -> (r: bool)
    ensures
        r == same_dir(a@, b@),
{
    let ac = chars_of(a);
    let bc = chars_of(b);
    let na = crate::security::strip_seps_len(&ac);
    let nb = crate::security::strip_seps_len(&bc);
    if na != nb {
        assert(crate::security::strip_trailing_seps(a@).len()
            != crate::security::strip_trailing_seps(b@).len());
        return false;
    }
    let mut i: usize = 0;
    while i < na
        invariant
            na == nb,
            na <= ac@.len(),
            nb <= bc@.len(),
            ac@ == a@,
            bc@ == b@,
            ac@.subrange(0, na as int) == crate::security::strip_trailing_seps(a@),
            bc@.subrange(0, nb as int) == crate::security::strip_trailing_seps(b@),
            i <= na,
            forall|j: int| 0 <= j < i ==> ac@[j] == bc@[j],
        decreases na - i,
    {
        if ac[i] != bc[i] {
            assert(ac@.subrange(0, na as int)[i as int] != bc@.subrange(0, nb as int)[i as int]);
            assert(crate::security::strip_trailing_seps(a@)
                != crate::security::strip_trailing_seps(b@));
            return false;
        }
        i += 1;
    }
    assert(ac@.subrange(0, na as int) =~= bc@.subrange(0, nb as int));
    true
}

impl CudaVersion {
    /// The version as text: the version itself, `latest` or `latest-lts`.
    pub fn to_display_string(&self) -> (r: String)
        ensures
            r@ == match self {
                CudaVersion::Specific(v) => v@,
                CudaVersion::Latest => "latest"@,
                CudaVersion::LatestLts => "latest-lts"@,
            },
    {
        match self {
            CudaVersion::Specific(v) => v.clone(),
            CudaVersion::Latest => String::from_str("latest"),
            CudaVersion::LatestLts => String::from_str("latest-lts"),
        }
    }
}

/// How a kind of conflict is shown.
pub open spec fn conflict_label(t: ConflictType) -> Seq<char> {
    match t {
        ConflictType::MultipleVersionsInPath => "Multiple Versions in PATH"@,
        ConflictType::EnvironmentVariableMismatch => "Environment Variable Mismatch"@,
        ConflictType::SystemPackageConflict => "System Package Conflict"@,
        ConflictType::SymlinkConflict => "Symlink Conflict"@,
    }
}

impl ConflictType {
    /// How the kind of conflict is shown.
    pub fn label(&self) -> (r: &'static str)
        ensures
            r@ == conflict_label(*self),
    {
        match self {
            ConflictType::MultipleVersionsInPath => "Multiple Versions in PATH",
            ConflictType::EnvironmentVariableMismatch => "Environment Variable Mismatch",
            ConflictType::SystemPackageConflict => "System Package Conflict",
            ConflictType::SymlinkConflict => "Symlink Conflict",
        }
    }
}

impl CudaInstallation {
    /// An installation of `version` at `install_path`, with its compiler
    /// directory `bin` under it, installed at `install_date` (seconds since
    /// the Unix epoch), and nothing else known.
    pub fn new(version: String, install_path: String, platform: Platform, install_date: i64) -> (r:
        Self)
        ensures
            r.version == version,
            r.install_date == install_date,
            r.install_path == install_path,
            r.toolkit_path@ == joined(install_path@, "bin"@, platform),
            r.runtime_version is None,
            r.driver_version is None,
            r.size_bytes == 0,
            !r.is_active,
            r.components@.len() == 0,
    {
        let toolkit_path = join_path(install_path.as_str(), "bin", platform);
        CudaInstallation {
            version,
            install_path,
            toolkit_path,
            runtime_version: None,
            driver_version: None,
            install_date,
            size_bytes: 0,
            is_active: false,
            components: Vec::new(),
        }
    }

    /// The components of an installation at `install_path`, in the order of
    /// `component_table`; a component missing under its usual name is
    /// looked for under its other names.
    pub fn detect_components(install_path: &str, platform: Platform) -> (r: Vec<CudaComponent>)
        ensures
            r@.len() == component_table(platform).len(),
            forall|i: int|
                0 <= i < r@.len() ==> component_matches(
                    #[trigger] r@[i],
                    component_table(platform)[i],
                    install_path@,
                    platform,
                ),
    {
        let win = platform == Platform::Windows;
        let root = install_path;
        let c0 = if win {
            let fb: Vec<&str> = vec!["bin/nvcc.exe"];
            assert(lit_views(fb@) =~= seq!["bin/nvcc.exe"@]);
            component_row(root, platform, "NVCC Compiler", "bin/nvcc", fb, true)
        } else {
            let fb: Vec<&str> = vec![];
            assert(lit_views(fb@) =~= seq![]);
            component_row(root, platform, "NVCC Compiler", "bin/nvcc", fb, true)
        };
        assert(component_matches(c0, component_table(platform)[0], install_path@, platform));
        let c1 = if win {
            let fb: Vec<&str> = vec!["lib64/libcudart.dll", "bin/cudart64_12.dll", "bin/cudart64_110.dll"];
            assert(lit_views(fb@) =~= seq!["lib64/libcudart.dll"@, "bin/cudart64_12.dll"@, "bin/cudart64_110.dll"@]);
            component_row(root, platform, "CUDA Runtime", "lib64/libcudart.so", fb, true)
        } else {
            let fb: Vec<&str> = vec!["lib64/libcudart.so.12", "lib64/libcudart.so.11.0"];
            assert(lit_views(fb@) =~= seq!["lib64/libcudart.so.12"@, "lib64/libcudart.so.11.0"@]);
            component_row(root, platform, "CUDA Runtime", "lib64/libcudart.so", fb, true)
        };
        assert(component_matches(c1, component_table(platform)[1], install_path@, platform));
        let c2 = if win {
            let fb: Vec<&str> = vec!["lib64/libcuda.dll"];
            assert(lit_views(fb@) =~= seq!["lib64/libcuda.dll"@]);
            component_row(root, platform, "CUDA Driver API", "lib64/libcuda.so", fb, false)
        } else {
            let fb: Vec<&str> = vec![];
            assert(lit_views(fb@) =~= seq![]);
            component_row(root, platform, "CUDA Driver API", "lib64/libcuda.so", fb, false)
        };
        assert(component_matches(c2, component_table(platform)[2], install_path@, platform));
        let c3 = if win {
            let fb: Vec<&str> = vec!["lib64/libcublas.dll"];
            assert(lit_views(fb@) =~= seq!["lib64/libcublas.dll"@]);
            component_row(root, platform, "cuBLAS", "lib64/libcublas.so", fb, false)
        } else {
            let fb: Vec<&str> = vec![];
            assert(lit_views(fb@) =~= seq![]);
            component_row(root, platform, "cuBLAS", "lib64/libcublas.so", fb, false)
        };
        assert(component_matches(c3, component_table(platform)[3], install_path@, platform));
        let c4 = if win {
            let fb: Vec<&str> = vec!["lib64/libcufft.dll"];
            assert(lit_views(fb@) =~= seq!["lib64/libcufft.dll"@]);
            component_row(root, platform, "cuFFT", "lib64/libcufft.so", fb, false)
        } else {
            let fb: Vec<&str> = vec![];
            assert(lit_views(fb@) =~= seq![]);
            component_row(root, platform, "cuFFT", "lib64/libcufft.so", fb, false)
        };
        assert(component_matches(c4, component_table(platform)[4], install_path@, platform));
        let c5 = if win {
            let fb: Vec<&str> = vec!["lib64/libcurand.dll"];
            assert(lit_views(fb@) =~= seq!["lib64/libcurand.dll"@]);
            component_row(root, platform, "cuRAND", "lib64/libcurand.so", fb, false)
        } else {
            let fb: Vec<&str> = vec![];
            assert(lit_views(fb@) =~= seq![]);
            component_row(root, platform, "cuRAND", "lib64/libcurand.so", fb, false)
        };
        assert(component_matches(c5, component_table(platform)[5], install_path@, platform));
        let c6 = if win {
            let fb: Vec<&str> = vec!["lib64/libcusparse.dll"];
            assert(lit_views(fb@) =~= seq!["lib64/libcusparse.dll"@]);
            component_row(root, platform, "cuSPARSE", "lib64/libcusparse.so", fb, false)
        } else {
            let fb: Vec<&str> = vec![];
            assert(lit_views(fb@) =~= seq![]);
            component_row(root, platform, "cuSPARSE", "lib64/libcusparse.so", fb, false)
        };
        assert(component_matches(c6, component_table(platform)[6], install_path@, platform));
        let c7 = if win {
            let fb: Vec<&str> = vec!["lib64/libnpp.dll"];
            assert(lit_views(fb@) =~= seq!["lib64/libnpp.dll"@]);
            component_row(root, platform, "NPP", "lib64/libnpp.so", fb, false)
        } else {
            let fb: Vec<&str> = vec![];
            assert(lit_views(fb@) =~= seq![]);
            component_row(root, platform, "NPP", "lib64/libnpp.so", fb, false)
        };
        assert(component_matches(c7, component_table(platform)[7], install_path@, platform));
        let v = vec![c0, c1, c2, c3, c4, c5, c6, c7];
        v
    }

    /// The installation at `install_path` whose compiler printed
    /// `nvcc_output`: its release as version, its components, size and date.
    /// `None` where the output shows no release.
    pub fn detected(
        install_path: String,
        nvcc_output: &str,
        size_bytes: u64,
        install_date: i64,
        platform: Platform,
    ) -> (r: Option<Self>)
        ensures
            match nvcc_release(nvcc_output@) {
                Some(v) => r is Some && r.unwrap().version@ == v && r.unwrap().install_path
                    == install_path && r.unwrap().toolkit_path@ == joined(
                    install_path@,
                    "bin"@,
                    platform,
                ) && r.unwrap().size_bytes == size_bytes && r.unwrap().install_date
                    == install_date && !r.unwrap().is_active && r.unwrap().components@.len()
                    == component_table(platform).len() && forall|i: int|
                    0 <= i < component_table(platform).len() ==> component_matches(
                        #[trigger] r.unwrap().components@[i],
                        component_table(platform)[i],
                        install_path@,
                        platform,
                    ),
                None => r is None,
            },
    {
        let version = match Self::parse_nvcc_version_output(nvcc_output) {
            Ok(v) => v,
            Err(_) => {
                return None;
            },
        };
        let components = Self::detect_components(install_path.as_str(), platform);
        let toolkit_path = join_path(install_path.as_str(), "bin", platform);
        Some(
            CudaInstallation {
                version,
                install_path,
                toolkit_path,
                runtime_version: None,
                driver_version: None,
                install_date,
                size_bytes,
                is_active: false,
                components,
            },
        )
    }

    /// The release in the compiler's `--version` output, such as `11.8` in
    /// `Cuda compilation tools, release 11.8, V11.8.89`. A parse error where
    /// no line has one.
    pub fn parse_nvcc_version_output(output: &str) -> (r: Result<String, SystemError>)
        ensures
            match nvcc_release(output@) {
                Some(v) => r is Ok && r.unwrap()@ == v,
                None => r is Err && r->Err_0 is ParseError,
            },
    {
        let cs = chars_of(output);
        let ls = lines_of(&cs);
        let mut i: usize = 0;
        while i < ls.len()
            invariant
                i <= ls@.len(),
                views(ls@) == lines_spec(output@),
                first_line_with(views(ls@), "release "@, 0) == first_line_with(
                    views(ls@),
                    "release "@,
                    i as nat,
                ),
            decreases ls.len() - i,
        {
            assert(views(ls@)[i as int] == ls@[i as int]@);
            proof {
                crate::text::lemma_contains_first_index(ls@[i as int]@, "release "@);
            }
            match after_first_of(&ls[i], "release ") {
                Some(rest) => {
                    let mark = chars_of("release ");
                    let seg = match find(&rest, &mark) {
                        Some(e) => slice(&rest, 0, e),
                        None => rest,
                    };
                    let comma = chars_of(",");
                    proof {
                        reveal_strlit(",");
                        assert(","@ =~= seq![',']);
                    }
                    let part = match find(&seg, &comma) {
                        Some(c) => slice(&seg, 0, c),
                        None => seg,
                    };
                    return Ok(string_from(&trimmed(&part)));
                },
                None => {},
            }
            i += 1;
        }
        Err(SystemError::ParseError(String::from_str("Could not parse NVCC version from output")))
    }

    /// Whether the installation is complete given what exists on disk: its
    /// root, its compiler directory, and (by `component_exists`, one per
    /// component) every required component.
    pub fn is_valid_given(
        &self,
        install_exists: bool,
        toolkit_exists: bool,
        component_exists: &Vec<bool>,
    ) -> (r: bool)
        requires
            component_exists@.len() == self.components@.len(),
        ensures
            r == valid_given(*self, install_exists, toolkit_exists, component_exists@),
    {
        if !install_exists || !toolkit_exists {
            return false;
        }
        let mut i: usize = 0;
        while i < self.components.len()
            invariant
                i <= self.components@.len(),
                component_exists@.len() == self.components@.len(),
                forall|j: int|
                    0 <= j < i && #[trigger] self.components@[j].required ==> component_exists@[j],
            decreases self.components.len() - i,
        {
            if self.components[i].required && !component_exists[i] {
                return false;
            }
            i += 1;
        }
        true
    }

    /// Whether the installation is complete now: its root, its compiler
    /// directory and every required component exist on disk.
    pub fn is_valid(&self) -> (r: bool)
        ensures
            exists|a: bool, b: bool, e: Seq<bool>|
                e.len() == self.components@.len() && r == valid_given(*self, a, b, e),
    {
        let a = path_exists(self.install_path.as_str());
        let b = path_exists(self.toolkit_path.as_str());
        let mut e: Vec<bool> = Vec::new();
        let mut i: usize = 0;
        while i < self.components.len()
            invariant
                i <= self.components@.len(),
                e@.len() == i,
            decreases self.components.len() - i,
        {
            e.push(path_exists(self.components[i].path.as_str()));
            i += 1;
        }
        let r = self.is_valid_given(a, b, &e);
        assert(e@.len() == self.components@.len() && r == valid_given(*self, a, b, e@));
        r
    }

    /// Where the compiler is.
    pub fn get_nvcc_path(&self, platform: Platform) -> (r: String)
        ensures
            r@ == joined(self.toolkit_path@, nvcc_name(platform), platform),
    {
        let name = match platform {
            Platform::Windows => "nvcc.exe",
            _ => "nvcc",
        };
        join_path(self.toolkit_path.as_str(), name, platform)
    }

    /// Where the libraries are: `lib/x64` on Windows, `lib64` elsewhere.
    pub fn get_lib_path(&self, platform: Platform) -> (r: String)
        ensures
            r@ == if platform == Platform::Windows {
                joined(joined(self.install_path@, "lib"@, platform), "x64"@, platform)
            } else {
                joined(self.install_path@, "lib64"@, platform)
            },
    {
        match platform {
            Platform::Windows => {
                let lib = join_path(self.install_path.as_str(), "lib", platform);
                join_path(lib.as_str(), "x64", platform)
            },
            _ => join_path(self.install_path.as_str(), "lib64", platform),
        }
    }

    /// The conflicts among the installations found: several of them beside
    /// one in PATH; the toolkit home `cuda_home` naming none of them.
    pub fn detect_conflicts(
        installations: &Vec<CudaInstallation>,
        system_cuda_found: bool,
        cuda_home: &Option<String>,
    ) -> (r: Vec<CudaConflict>)
        ensures
            r@.map_values(|c: CudaConflict| c.conflict_type) == conflict_kinds(
                installations@,
                system_cuda_found,
                opt_view(*cuda_home),
            ),
            forall|i: int|
                0 <= i < r@.len() && #[trigger] r@[i].conflict_type
                    == ConflictType::MultipleVersionsInPath ==> str_views(
                    r@[i].affected_installations@,
                ) == install_views(installations@) && r@[i].description@
                    == "Multiple CUDA versions detected on system"@
                    && r@[i].resolution_suggestion@
                    == "Use cudamgr to manage CUDA versions and ensure only one is active"@,
            forall|i: int|
                0 <= i < r@.len() && #[trigger] r@[i].conflict_type
                    == ConflictType::EnvironmentVariableMismatch ==> str_views(
                    r@[i].affected_installations@,
                ) == seq!["CUDA_HOME"@] && r@[i].description@
                    == "CUDA_HOME points to different installation than detected versions"@
                    && r@[i].resolution_suggestion@
                    == "Update CUDA_HOME to point to desired CUDA installation"@,
    {
        let mut out: Vec<CudaConflict> = Vec::new();
        let ghost first = if installations@.len() > 1 && system_cuda_found {
            seq![ConflictType::MultipleVersionsInPath]
        } else {
            Seq::<ConflictType>::empty()
        };
        if installations.len() > 1 && system_cuda_found {
            let mut versions: Vec<String> = Vec::new();
            let mut i: usize = 0;
            while i < installations.len()
                invariant
                    i <= installations@.len(),
                    str_views(versions@) == install_views(installations@).take(i as int),
                decreases installations.len() - i,
            {
                let ghost before = str_views(versions@);
                versions.push(installations[i].version.clone());
                assert(str_views(versions@) =~= before.push(installations@[i as int].version@));
                assert(install_views(installations@).take(i + 1) =~= install_views(
                    installations@,
                ).take(i as int).push(installations@[i as int].version@));
                i += 1;
            }
            assert(install_views(installations@).take(installations@.len() as int)
                =~= install_views(installations@));
            out.push(
                CudaConflict {
                    conflict_type: ConflictType::MultipleVersionsInPath,
                    description: String::from_str("Multiple CUDA versions detected on system"),
                    affected_installations: versions,
                    resolution_suggestion: String::from_str(
                        "Use cudamgr to manage CUDA versions and ensure only one is active",
                    ),
                },
            );
        }
        assert(out@.map_values(|c: CudaConflict| c.conflict_type) =~= first);
        let ghost mid = out@;
        match cuda_home {
            Some(h) => {
                let mut found = false;
                let mut i: usize = 0;
                while i < installations.len()
                    invariant
                        i <= installations@.len(),
                        found == (exists|j: int|
                            0 <= j < i && same_dir(#[trigger] installations@[j].install_path@, h@)),
                    decreases installations.len() - i,
                {
                    if same_dir_exec(installations[i].install_path.as_str(), h.as_str()) {
                        found = true;
                    }
                    i += 1;
                }
                if !found {
                    let mut affected: Vec<String> = Vec::new();
                    affected.push(String::from_str("CUDA_HOME"));
                    assert(str_views(affected@) =~= seq!["CUDA_HOME"@]);
                    out.push(
                        CudaConflict {
                            conflict_type: ConflictType::EnvironmentVariableMismatch,
                            description: String::from_str(
                                "CUDA_HOME points to different installation than detected versions",
                            ),
                            affected_installations: affected,
                            resolution_suggestion: String::from_str(
                                "Update CUDA_HOME to point to desired CUDA installation",
                            ),
                        },
                    );
                }
            },
            None => {},
        }
        assert(out@.map_values(|c: CudaConflict| c.conflict_type) =~= conflict_kinds(
            installations@,
            system_cuda_found,
            opt_view(*cuda_home),
        ));
        out
    }
}

impl SystemCudaInfo {
    /// The toolkit found through PATH: the release that its compiler printed
    /// (`None` where it ran but showed none, or did not run) and where the
    /// path lookup found it (trimmed). Nothing where neither is known.
    pub fn from_probe(nvcc_output: Option<&str>, lookup_output: Option<&str>) -> (r: Option<Self>)
        ensures
            ({
                let v = match nvcc_output {
                    Some(o) => nvcc_release(o@),
                    None => None,
                };
                let p = match lookup_output {
                    Some(o) => Some(trim_spec(o@)),
                    None => None,
                };
                if v is None && p is None {
                    r is None
                } else {
                    r is Some && opt_view(r.unwrap().nvcc_version) == v && opt_view(
                        r.unwrap().nvcc_path,
                    ) == p && r.unwrap().runtime_version is None
                        && r.unwrap().driver_version is None
                }
            }),
    {
        let v = match nvcc_output {
            Some(o) => match CudaInstallation::parse_nvcc_version_output(o) {
                Ok(s) => Some(s),
                Err(_) => None,
            },
            None => None,
        };
        let p = match lookup_output {
            Some(o) => {
                let oc = chars_of(o);
                Some(string_from(&trimmed(&oc)))
            },
            None => None,
        };
        if v.is_none() && p.is_none() {
            return None;
        }
        Some(SystemCudaInfo { nvcc_version: v, nvcc_path: p, runtime_version: None, driver_version: None })
    }
}


/// Only required components decide validity: with the root and compiler
/// directory present, an installation is valid when every required
/// component exists, however many optional ones are missing, and invalid
/// when any required one is missing.
pub proof fn lemma_required_components_decide(
    inst: CudaInstallation,
    exists: Seq<bool>,
    missing: int,
)
    requires
        exists.len() == inst.components@.len(),
    ensures
        (forall|i: int| 0 <= i < exists.len() && #[trigger] inst.components@[i].required ==> exists[i])
            ==> valid_given(inst, true, true, exists),
        0 <= missing < exists.len() && inst.components@[missing].required && !exists[missing]
            ==> !valid_given(inst, true, true, exists),
{
}


/// The toolkit versions whose versioned install roots are looked at.
pub open spec fn known_versions() -> Seq<Seq<char>> {
    seq![
        "12.3"@, "12.2"@, "12.1"@, "12.0"@, "11.8"@, "11.7"@, "11.6"@, "11.5"@, "11.4"@, "11.3"@,
        "11.2"@, "11.1"@, "11.0"@,
    ]
}

/// The Linux roots for versions `vs`: `/usr/local/cuda-<v>` and `/opt/cuda-<v>`.
pub open spec fn linux_versioned(vs: Seq<Seq<char>>) -> Seq<Seq<char>>
    decreases vs.len(),
{
    if vs.len() == 0 {
        Seq::<Seq<char>>::empty()
    } else {
        linux_versioned(vs.drop_last()) + seq!["/usr/local/cuda-"@ + vs.last(), "/opt/cuda-"@ + vs.last()]
    }
}

/// The Windows roots for versions `vs` under `base`: `<base>\v<v>`.
pub open spec fn windows_versioned(base: Seq<char>, vs: Seq<Seq<char>>) -> Seq<Seq<char>>
    decreases vs.len(),
{
    if vs.len() == 0 {
        Seq::<Seq<char>>::empty()
    } else {
        windows_versioned(base, vs.drop_last()).push(
            joined(base, seq!['v'] + vs.last(), Platform::Windows),
        )
    }
}

/// The toolkit's directory under Windows' program files.
pub open spec fn windows_base(program_files: Seq<char>) -> Seq<char> {
    joined(joined(program_files, "NVIDIA GPU Computing Toolkit"@, Platform::Windows), "CUDA"@, Platform::Windows)
}

/// The install roots looked at, in order: the platform's standard and
/// versioned roots, then the toolkit home and toolkit path variables.
pub open spec fn candidate_roots_spec(
    p: Platform,
    program_files: Option<Seq<char>>,
    cuda_home: Option<Seq<char>>,
    cuda_path: Option<Seq<char>>,
) -> Seq<Seq<char>> {
    (if p == Platform::Linux {
        seq!["/usr/local/cuda"@, "/opt/cuda"@, "/usr/cuda"@] + linux_versioned(known_versions())
    } else if p == Platform::Windows {
        match program_files {
            Some(pf) => seq![windows_base(pf)] + windows_versioned(windows_base(pf), known_versions()),
            None => Seq::<Seq<char>>::empty(),
        }
    } else {
        Seq::<Seq<char>>::empty()
    }) + match cuda_home {
        Some(h) => seq![h],
        None => Seq::<Seq<char>>::empty(),
    } + match cuda_path {
        Some(c) => seq![c],
        None => Seq::<Seq<char>>::empty(),
    }
}

impl CudaInstallation {
    /// Where installations are looked for on `platform`, given the program
    /// files directory and the toolkit home and path variables.
    pub fn candidate_roots(
        platform: Platform,
        program_files: Option<String>,
        cuda_home: Option<String>,
        cuda_path: Option<String>,
    ) -> (r: Vec<String>)
        ensures
            str_views(r@) == candidate_roots_spec(
                platform,
                opt_view(program_files),
                opt_view(cuda_home),
                opt_view(cuda_path),
            ),
    {
        let versions: Vec<&str> = vec![
            "12.3", "12.2", "12.1", "12.0", "11.8", "11.7", "11.6", "11.5", "11.4", "11.3", "11.2",
            "11.1", "11.0",
        ];
        let ghost vs = versions@.map_values(|v: &str| v@);
        assert(vs =~= known_versions());
        let mut out: Vec<String> = Vec::new();
        match platform {
            Platform::Linux => {
                out.push(String::from_str("/usr/local/cuda"));
                out.push(String::from_str("/opt/cuda"));
                out.push(String::from_str("/usr/cuda"));
                let ghost start = str_views(out@);
                let mut i: usize = 0;
                while i < versions.len()
                    invariant
                        i <= versions@.len(),
                        vs == versions@.map_values(|v: &str| v@),
                        str_views(out@) == start + linux_versioned(vs.take(i as int)),
                    decreases versions.len() - i,
                {
                    let ghost before = str_views(out@);
                    out.push(concat_str("/usr/local/cuda-", versions[i]));
                    out.push(concat_str("/opt/cuda-", versions[i]));
                    assert(vs.take(i + 1).drop_last() =~= vs.take(i as int));
                    assert(vs.take(i + 1).last() == versions@[i as int]@);
                    assert(str_views(out@) =~= before + seq![
                        "/usr/local/cuda-"@ + versions@[i as int]@,
                        "/opt/cuda-"@ + versions@[i as int]@,
                    ]);
                    i += 1;
                }
                assert(vs.take(versions@.len() as int) =~= vs);
            },
            Platform::Windows => {
                match &program_files {
                    Some(pf) => {
                        let toolkit = join_path(pf.as_str(), "NVIDIA GPU Computing Toolkit", platform);
                        let base = join_path(toolkit.as_str(), "CUDA", platform);
                        out.push(base.clone());
                        let ghost start = str_views(out@);
                        let mut i: usize = 0;
                        while i < versions.len()
                            invariant
                                i <= versions@.len(),
                                platform == Platform::Windows,
                                vs == versions@.map_values(|v: &str| v@),
                                str_views(out@) == start + windows_versioned(base@, vs.take(i as int)),
                            decreases versions.len() - i,
                        {
                            let ghost before = str_views(out@);
                            let name = concat_str("v", versions[i]);
                            proof {
                                reveal_strlit("v");
                                assert("v"@ =~= seq!['v']);
                            }
                            assert(name@ =~= seq!['v'] + versions@[i as int]@);
                            let item = join_path(base.as_str(), name.as_str(), platform);
                            out.push(item);
                            assert(str_views(out@) =~= before.push(item@));
                            assert(vs.take(i + 1).drop_last() =~= vs.take(i as int));
                            assert(vs.take(i + 1).last() == versions@[i as int]@);
                            assert(str_views(out@) =~= start + windows_versioned(base@, vs.take(i + 1)));
                            i += 1;
                        }
                        assert(vs.take(versions@.len() as int) =~= vs);
                    },
                    None => {},
                }
            },
            Platform::Other => {},
        }
        let ghost mid = str_views(out@);
        match cuda_home {
            Some(h) => {
                let ghost hv = h@;
                out.push(h);
                assert(str_views(out@) =~= mid.push(hv));
            },
            None => {},
        }
        let ghost mid2 = str_views(out@);
        match cuda_path {
            Some(c) => {
                let ghost cv = c@;
                out.push(c);
                assert(str_views(out@) =~= mid2.push(cv));
            },
            None => {},
        }
        assert(str_views(out@) =~= candidate_roots_spec(
            platform,
            opt_view(program_files),
            opt_view(cuda_home),
            opt_view(cuda_path),
        ));
        out
    }
}

} // verus!
