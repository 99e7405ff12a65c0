//! The analyzer: all probe records and the installation scan in, one verdict
//! with ordered errors, warnings and recommendations out.
use vstd::prelude::*;
use crate::compiler::CompilerInfo;
use crate::cuda::{CudaDetectionResult, CudaInstallation, CudaConflict};
use crate::distro::DistroInfo;
use crate::driver::DriverInfo;
use crate::error::Platform;
use crate::gpu::GpuInfo;
use crate::security::{only_if, path_recommendations, push_when, security_issues, str_views, SecurityInfo};
use crate::storage::StorageInfo;
use crate::text::{contains_spec, contains_str, chars_of, decimal, push_decimal};
use crate::visual_studio::VisualStudioInfo;
use crate::wsl::{wsl_name, WslInfo};

verus! {

/// Everything the probes found.
#[derive(Debug, Clone)]
pub struct SystemInfo {
    pub gpu: Option<GpuInfo>,
    pub driver: Option<DriverInfo>,
    pub compiler: Option<CompilerInfo>,
    pub distro: DistroInfo,
    pub storage: StorageInfo,
    pub security: SecurityInfo,
    pub wsl: Option<WslInfo>,
    pub visual_studio: Option<VisualStudioInfo>,
}

/// The verdict.
#[derive(Debug, Clone, Copy, PartialEq, Eq, Structural)]
pub enum CompatibilityStatus {
    Compatible,
    CompatibleWithWarnings,
    Incompatible,
    PrerequisitesMissing,
    Unknown,
}

/// The analysis of one system.
#[derive(Debug, Clone)]
pub struct SystemReport {
    pub system_info: SystemInfo,
    pub cuda_detection: CudaDetectionResult,
    pub compatibility_status: CompatibilityStatus,
    pub recommendations: Vec<String>,
    pub warnings: Vec<String>,
    pub errors: Vec<String>,
}

/// Produces reports.
pub struct SystemReportGenerator;

pub open spec fn wsl_recs(i: SystemInfo) -> Seq<Seq<char>> {
    match i.wsl {
        Some(w) => if w.is_wsl {
            seq![
                "WSL Environment detected ("@ + wsl_name(w.version) + ")"@,
                "Ensure NVIDIA Drivers are installed on the Windows HOST, not inside WSL"@,
            ]
        } else {
            Seq::<Seq<char>>::empty()
        },
        None => Seq::<Seq<char>>::empty(),
    }
}

pub open spec fn vs_recs(i: SystemInfo, p: Platform) -> Seq<Seq<char>> {
    if p != Platform::Windows {
        Seq::<Seq<char>>::empty()
    } else {
        match i.visual_studio {
            Some(vs) => only_if(
                vs.is_installed,
                "Visual Studio detected: "@ + vs.name@ + " ("@ + vs.version@ + ")"@,
            ),
            None => seq!["Install Visual Studio with 'Desktop development with C++' workload"@],
        }
    }
}

pub open spec fn vs_warns(i: SystemInfo, p: Platform) -> Seq<Seq<char>> {
    only_if(
        p == Platform::Windows && i.visual_studio is None,
        "Visual Studio C++ Build Tools not found (Required for compiling CUDA kernels)"@,
    )
}

pub open spec fn gpu_errors(i: SystemInfo) -> Seq<Seq<char>> {
    match i.gpu {
        Some(g) => only_if(!g.cuda_compatible(), "No CUDA-compatible GPU detected"@),
        None => seq!["No GPU detected"@],
    }
}

pub open spec fn gpu_recs(i: SystemInfo) -> Seq<Seq<char>> {
    match i.gpu {
        Some(g) => if !g.cuda_compatible() {
            Seq::<Seq<char>>::empty()
        } else {
            match g.compute_capability {
                Some(cc) => seq![
                    "GPU "@ + g.name@ + " detected with compute capability "@ + decimal(
                        cc.0 as nat,
                    ) + "."@ + decimal(cc.1 as nat),
                ],
                None => seq!["GPU "@ + g.name@ + " detected"@],
            }
        },
        None => Seq::<Seq<char>>::empty(),
    }
}

pub open spec fn driver_errors(i: SystemInfo) -> Seq<Seq<char>> {
    only_if(i.driver is None, "No NVIDIA driver detected"@)
}

pub open spec fn driver_warns(i: SystemInfo) -> Seq<Seq<char>> {
    match i.driver {
        Some(d) => only_if(d.version@.len() == 0, "NVIDIA driver version could not be determined"@),
        None => Seq::<Seq<char>>::empty(),
    }
}

pub open spec fn driver_recs(i: SystemInfo) -> Seq<Seq<char>> {
    match i.driver {
        Some(d) => only_if(d.version@.len() > 0, "NVIDIA driver "@ + d.version@ + " detected"@),
        None => seq!["Install NVIDIA drivers before installing CUDA"@],
    }
}

pub open spec fn compiler_errors(i: SystemInfo) -> Seq<Seq<char>> {
    only_if(i.compiler is None, "No compatible compiler detected"@)
}

pub open spec fn compiler_warns(i: SystemInfo) -> Seq<Seq<char>> {
    match i.compiler {
        Some(c) => only_if(
            !c.is_compatible,
            "Compiler "@ + c.name@ + " "@ + c.version@ + " may not be compatible with CUDA"@,
        ),
        None => Seq::<Seq<char>>::empty(),
    }
}

pub open spec fn compiler_recs(i: SystemInfo) -> Seq<Seq<char>> {
    match i.compiler {
        Some(c) => only_if(
            c.is_compatible,
            "Compatible compiler "@ + c.name@ + " "@ + c.version@ + " detected"@,
        ),
        None => seq!["Install a compatible compiler (GCC on Linux, MSVC on Windows)"@],
    }
}

pub open spec fn storage_errors(i: SystemInfo) -> Seq<Seq<char>> {
    only_if(
        !i.storage.has_sufficient_space,
        "Insufficient disk space. Available: "@ + decimal(i.storage.available_space_gb as nat)
            + " GB"@,
    )
}

pub open spec fn storage_recs(i: SystemInfo) -> Seq<Seq<char>> {
    only_if(
        i.storage.has_sufficient_space,
        "Sufficient disk space available: "@ + decimal(i.storage.available_space_gb as nat)
            + " GB"@,
    )
}

/// A security issue that blocks installation.
pub open spec fn is_blocking(issue: Seq<char>) -> bool {
    contains_spec(issue, "required"@) || contains_spec(issue, "Cannot"@)
}

pub open spec fn blocking(issues: Seq<Seq<char>>) -> Seq<Seq<char>>
    decreases issues.len(),
{
    if issues.len() == 0 {
        issues
    } else if is_blocking(issues.last()) {
        blocking(issues.drop_last()).push(issues.last())
    } else {
        blocking(issues.drop_last())
    }
}

pub open spec fn nonblocking(issues: Seq<Seq<char>>) -> Seq<Seq<char>>
    decreases issues.len(),
{
    if issues.len() == 0 {
        issues
    } else if !is_blocking(issues.last()) {
        nonblocking(issues.drop_last()).push(issues.last())
    } else {
        nonblocking(issues.drop_last())
    }
}

pub open spec fn security_recs(s: SecurityInfo) -> Seq<Seq<char>> {
    only_if(!s.has_admin_privileges, "Run as administrator/root for CUDA installation"@) + only_if(
        s.secure_boot_enabled,
        "Consider disabling Secure Boot if driver installation fails"@,
    ) + path_recommendations(s.path_configuration)
}

pub open spec fn path_conflict_warns(s: SecurityInfo) -> Seq<Seq<char>> {
    only_if(
        s.path_configuration.conflicting_cuda_paths@.len() > 0,
        "Conflicting CUDA paths detected in PATH environment variable"@,
    )
}

pub open spec fn install_recs(d: CudaDetectionResult) -> Seq<Seq<char>> {
    only_if(
        d.installations@.len() > 0,
        decimal(d.installations@.len()) + " existing CUDA installation(s) detected"@,
    )
}

pub open spec fn incomplete_msg(inst: CudaInstallation) -> Seq<char> {
    "CUDA "@ + inst.version@ + " installation at "@ + inst.install_path@
        + " appears to be incomplete"@
}

/// A warning for each of `insts[0..n]` that `valid` marks incomplete.
pub open spec fn incomplete_warns(insts: Seq<CudaInstallation>, valid: Seq<bool>, n: nat) -> Seq<
    Seq<char>,
>
    decreases n,
{
    if n == 0 || n > insts.len() {
        Seq::<Seq<char>>::empty()
    } else {
        incomplete_warns(insts, valid, (n - 1) as nat) + only_if(
            !valid[n - 1],
            incomplete_msg(insts[n - 1]),
        )
    }
}

pub open spec fn conflict_warns(c: Seq<CudaConflict>) -> Seq<Seq<char>> {
    c.map_values(|x: CudaConflict| "Conflict detected: "@ + x.description@)
}

pub open spec fn conflict_recs(c: Seq<CudaConflict>) -> Seq<Seq<char>> {
    c.map_values(|x: CudaConflict| x.resolution_suggestion@)
}

/// The errors, in order: GPU, driver, compiler, storage, blocking security issues.
pub open spec fn errors_of(i: SystemInfo) -> Seq<Seq<char>> {
    gpu_errors(i) + driver_errors(i) + compiler_errors(i) + storage_errors(i) + blocking(
        security_issues(i.security),
    )
}

/// The warnings, in order: IDE, driver, compiler, other security issues,
/// PATH conflicts, incomplete installations, conflicts between installations.
pub open spec fn warnings_of(
    i: SystemInfo,
    d: CudaDetectionResult,
    valid: Seq<bool>,
    p: Platform,
) -> Seq<Seq<char>> {
    vs_warns(i, p) + driver_warns(i) + compiler_warns(i) + nonblocking(security_issues(i.security))
        + path_conflict_warns(i.security) + incomplete_warns(
        d.installations@,
        valid,
        d.installations@.len(),
    ) + conflict_warns(d.conflicts@)
}

/// The recommendations, in order: virtualization, IDE, GPU, driver,
/// compiler, storage, security and PATH, installations, conflicts.
pub open spec fn recommendations_of(i: SystemInfo, d: CudaDetectionResult, p: Platform) -> Seq<
    Seq<char>,
> {
    wsl_recs(i) + vs_recs(i, p) + gpu_recs(i) + driver_recs(i) + compiler_recs(i) + storage_recs(i)
        + security_recs(i.security) + install_recs(d) + conflict_recs(d.conflicts@)
}

/// An error that only asks for setup: it mentions `required`, `compiler` or
/// `Cannot install`.
pub open spec fn setup_only(e: Seq<char>) -> bool {
    contains_spec(e, "required"@) || contains_spec(e, "compiler"@) || contains_spec(
        e,
        "Cannot install"@,
    )
}

/// The verdict on lists of errors and warnings: none of either is
/// compatible; warnings alone, compatible with warnings; errors that all only
/// ask for setup, with GPU and driver present, prerequisites missing; any
/// other errors, incompatible.
pub open spec fn classify(hardware: bool, errors: Seq<Seq<char>>, warnings: Seq<Seq<char>>) -> CompatibilityStatus {
    if errors.len() > 0 {
        if hardware && forall|k: int| 0 <= k < errors.len() ==> setup_only(#[trigger] errors[k]) {
            CompatibilityStatus::PrerequisitesMissing
        } else {
            CompatibilityStatus::Incompatible
        }
    } else if warnings.len() > 0 {
        CompatibilityStatus::CompatibleWithWarnings
    } else {
        CompatibilityStatus::Compatible
    }
}

/// The verdict on a system.
pub open spec fn status_of(
    i: SystemInfo,
    d: CudaDetectionResult,
    valid: Seq<bool>,
    p: Platform,
) -> CompatibilityStatus {
    classify(i.gpu is Some && i.driver is Some, errors_of(i), warnings_of(i, d, valid, p))
}

fn push_str(v: &mut Vec<String>, s: String)
    ensures
        str_views(final(v)@) == str_views(old(v)@).push(s@),
{
    let ghost before = str_views(v@);
    v.push(s);
    assert(str_views(v@) =~= before.push(s@));
}

fn is_blocking_exec(issue: &String) -> (r: bool)
    ensures
        r == is_blocking(issue@),
{
    let c = chars_of(issue.as_str());
    contains_str(&c, "required") || contains_str(&c, "Cannot")
}

fn is_setup_only(e: &String) -> (r: bool)
    ensures
        r == setup_only(e@),
{
    let c = chars_of(e.as_str());
    contains_str(&c, "required") || contains_str(&c, "compiler") || contains_str(&c, "Cannot install")
}

impl SystemReportGenerator {
    fn wsl_section(info: &SystemInfo, recs: &mut Vec<String>)
        ensures
            str_views(final(recs)@) == str_views(old(recs)@) + wsl_recs(*info),
    {
        let ghost before = str_views(recs@);
        match &info.wsl {
            Some(w) => {
                if w.is_wsl {
                    let mut m = String::from_str("WSL Environment detected (");
                    m.append(w.version.name());
                    m.append(")");
                    push_str(recs, m);
                    push_str(
                        recs,
                        String::from_str(
                            "Ensure NVIDIA Drivers are installed on the Windows HOST, not inside WSL",
                        ),
                    );
                }
            },
            None => {},
        }
        assert(str_views(recs@) =~= before + wsl_recs(*info));
    }

    fn vs_section(info: &SystemInfo, platform: Platform, recs: &mut Vec<String>, warns: &mut Vec<String>)
        ensures
            str_views(final(recs)@) == str_views(old(recs)@) + vs_recs(*info, platform),
            str_views(final(warns)@) == str_views(old(warns)@) + vs_warns(*info, platform),
    {
        let ghost r0 = str_views(recs@);
        let ghost w0 = str_views(warns@);
        if platform == Platform::Windows {
            match &info.visual_studio {
                Some(vs) => {
                    if vs.is_installed {
                        let mut m = String::from_str("Visual Studio detected: ");
                        m.append(vs.name.as_str());
                        m.append(" (");
                        m.append(vs.version.as_str());
                        m.append(")");
                        push_str(recs, m);
                    }
                },
                None => {
                    push_str(
                        warns,
                        String::from_str(
                            "Visual Studio C++ Build Tools not found (Required for compiling CUDA kernels)",
                        ),
                    );
                    push_str(
                        recs,
                        String::from_str(
                            "Install Visual Studio with 'Desktop development with C++' workload",
                        ),
                    );
                },
            }
        }
        assert(str_views(recs@) =~= r0 + vs_recs(*info, platform));
        assert(str_views(warns@) =~= w0 + vs_warns(*info, platform));
    }

    fn hardware_section(
        info: &SystemInfo,
        recs: &mut Vec<String>,
        warns: &mut Vec<String>,
        errs: &mut Vec<String>,
    )
        ensures
            str_views(final(recs)@) == str_views(old(recs)@) + gpu_recs(*info) + driver_recs(*info)
                + compiler_recs(*info) + storage_recs(*info),
            str_views(final(warns)@) == str_views(old(warns)@) + driver_warns(*info)
                + compiler_warns(*info),
            str_views(final(errs)@) == str_views(old(errs)@) + gpu_errors(*info) + driver_errors(
                *info,
            ) + compiler_errors(*info) + storage_errors(*info),
    {
        let ghost r0 = str_views(recs@);
        let ghost w0 = str_views(warns@);
        let ghost e0 = str_views(errs@);
        match &info.gpu {
            Some(g) => {
                if !g.supports_cuda() {
                    push_str(errs, String::from_str("No CUDA-compatible GPU detected"));
                } else {
                    match g.compute_capability {
                        Some(cc) => {
                            let mut m = String::from_str("GPU ");
                            m.append(g.name.as_str());
                            m.append(" detected with compute capability ");
                            push_decimal(&mut m, cc.0 as u64);
                            m.append(".");
                            push_decimal(&mut m, cc.1 as u64);
                            push_str(recs, m);
                        },
                        None => {
                            let mut m = String::from_str("GPU ");
                            m.append(g.name.as_str());
                            m.append(" detected");
                            push_str(recs, m);
                        },
                    }
                }
            },
            None => {
                push_str(errs, String::from_str("No GPU detected"));
            },
        }
        assert(str_views(errs@) =~= e0 + gpu_errors(*info));
        assert(str_views(recs@) =~= r0 + gpu_recs(*info));
        let ghost r1 = str_views(recs@);
        let ghost e1 = str_views(errs@);
        match &info.driver {
            Some(d) => {
                if d.version.unicode_len() == 0 {
                    push_str(warns, String::from_str("NVIDIA driver version could not be determined"));
                } else {
                    let mut m = String::from_str("NVIDIA driver ");
                    m.append(d.version.as_str());
                    m.append(" detected");
                    push_str(recs, m);
                }
            },
            None => {
                push_str(errs, String::from_str("No NVIDIA driver detected"));
                push_str(recs, String::from_str("Install NVIDIA drivers before installing CUDA"));
            },
        }
        assert(str_views(errs@) =~= e1 + driver_errors(*info));
        assert(str_views(recs@) =~= r1 + driver_recs(*info));
        assert(str_views(warns@) =~= w0 + driver_warns(*info));
        let ghost r2 = str_views(recs@);
        let ghost e2 = str_views(errs@);
        let ghost w2 = str_views(warns@);
        match &info.compiler {
            Some(c) => {
                if c.is_compatible {
                    let mut m = String::from_str("Compatible compiler ");
                    m.append(c.name.as_str());
                    m.append(" ");
                    m.append(c.version.as_str());
                    m.append(" detected");
                    push_str(recs, m);
                } else {
                    let mut m = String::from_str("Compiler ");
                    m.append(c.name.as_str());
                    m.append(" ");
                    m.append(c.version.as_str());
                    m.append(" may not be compatible with CUDA");
                    push_str(warns, m);
                }
            },
            None => {
                push_str(errs, String::from_str("No compatible compiler detected"));
                push_str(
                    recs,
                    String::from_str("Install a compatible compiler (GCC on Linux, MSVC on Windows)"),
                );
            },
        }
        assert(str_views(errs@) =~= e2 + compiler_errors(*info));
        assert(str_views(recs@) =~= r2 + compiler_recs(*info));
        assert(str_views(warns@) =~= w2 + compiler_warns(*info));
        let ghost r3 = str_views(recs@);
        let ghost e3 = str_views(errs@);
        if !info.storage.has_sufficient_space {
            let mut m = String::from_str("Insufficient disk space. Available: ");
            push_decimal(&mut m, info.storage.available_space_gb);
            m.append(" GB");
            push_str(errs, m);
        } else {
            let mut m = String::from_str("Sufficient disk space available: ");
            push_decimal(&mut m, info.storage.available_space_gb);
            m.append(" GB");
            push_str(recs, m);
        }
        assert(str_views(errs@) =~= e3 + storage_errors(*info));
        assert(str_views(recs@) =~= r3 + storage_recs(*info));
        assert(str_views(errs@) =~= e0 + gpu_errors(*info) + driver_errors(*info) + compiler_errors(
            *info,
        ) + storage_errors(*info));
        assert(str_views(recs@) =~= r0 + gpu_recs(*info) + driver_recs(*info) + compiler_recs(
            *info,
        ) + storage_recs(*info));
        assert(str_views(warns@) =~= w0 + driver_warns(*info) + compiler_warns(*info));
    }

    fn security_section(
        info: &SystemInfo,
        recs: &mut Vec<String>,
        warns: &mut Vec<String>,
        errs: &mut Vec<String>,
    )
        ensures
            str_views(final(recs)@) == str_views(old(recs)@) + security_recs(info.security),
            str_views(final(warns)@) == str_views(old(warns)@) + nonblocking(
                security_issues(info.security),
            ) + path_conflict_warns(info.security),
            str_views(final(errs)@) == str_views(old(errs)@) + blocking(
                security_issues(info.security),
            ),
    {
        let ghost r0 = str_views(recs@);
        let ghost w0 = str_views(warns@);
        let ghost e0 = str_views(errs@);
        let issues = info.security.get_security_issues();
        let ghost iv = str_views(issues@);
        let mut i: usize = 0;
        while i < issues.len()
            invariant
                i <= issues@.len(),
                iv == str_views(issues@),
                str_views(errs@) == e0 + blocking(iv.take(i as int)),
                str_views(warns@) == w0 + nonblocking(iv.take(i as int)),
            decreases issues.len() - i,
        {
            assert(iv.take(i + 1).drop_last() =~= iv.take(i as int));
            assert(iv.take(i + 1).last() == issues@[i as int]@);
            let ghost eb = str_views(errs@);
            let ghost wb = str_views(warns@);
            if is_blocking_exec(&issues[i]) {
                push_str(errs, issues[i].clone());
                assert(str_views(errs@) =~= e0 + blocking(iv.take(i + 1)));
                assert(str_views(warns@) =~= w0 + nonblocking(iv.take(i + 1)));
            } else {
                push_str(warns, issues[i].clone());
                assert(str_views(errs@) =~= e0 + blocking(iv.take(i + 1)));
                assert(str_views(warns@) =~= w0 + nonblocking(iv.take(i + 1)));
            }
            i += 1;
        }
        assert(iv.take(issues@.len() as int) =~= iv);
        push_when(
            recs,
            !info.security.has_admin_privileges,
            "Run as administrator/root for CUDA installation",
        );
        push_when(
            recs,
            info.security.secure_boot_enabled,
            "Consider disabling Secure Boot if driver installation fails",
        );
        let ghost r2 = str_views(recs@);
        let pr = info.security.path_configuration.get_recommendations();
        let mut k: usize = 0;
        while k < pr.len()
            invariant
                k <= pr@.len(),
                str_views(recs@) == r2 + str_views(pr@).take(k as int),
            decreases pr.len() - k,
        {
            push_str(recs, pr[k].clone());
            assert(str_views(pr@).take(k + 1) =~= str_views(pr@).take(k as int).push(pr@[k as int]@));
            k += 1;
        }
        assert(str_views(pr@).take(pr@.len() as int) =~= str_views(pr@));
        push_when(
            warns,
            info.security.has_path_conflicts(),
            "Conflicting CUDA paths detected in PATH environment variable",
        );
        assert(str_views(recs@) =~= r0 + security_recs(info.security));
        assert(str_views(warns@) =~= w0 + nonblocking(security_issues(info.security))
            + path_conflict_warns(info.security));
    }

    fn installation_section(
        detection: &CudaDetectionResult,
        valid: &Vec<bool>,
        recs: &mut Vec<String>,
        warns: &mut Vec<String>,
    )
        requires
            valid@.len() == detection.installations@.len(),
        ensures
            str_views(final(recs)@) == str_views(old(recs)@) + install_recs(*detection)
                + conflict_recs(detection.conflicts@),
            str_views(final(warns)@) == str_views(old(warns)@) + incomplete_warns(
                detection.installations@,
                valid@,
                detection.installations@.len(),
            ) + conflict_warns(detection.conflicts@),
    {
        let ghost r0 = str_views(recs@);
        let ghost w0 = str_views(warns@);
        let insts = &detection.installations;
        if insts.len() > 0 {
            let mut m = String::new();
            push_decimal(&mut m, insts.len() as u64);
            m.append(" existing CUDA installation(s) detected");
            push_str(recs, m);
        }
        assert(str_views(recs@) =~= r0 + install_recs(*detection));
        let mut i: usize = 0;
        while i < insts.len()
            invariant
                i <= insts@.len(),
                insts@ == detection.installations@,
                valid@.len() == insts@.len(),
                str_views(warns@) == w0 + incomplete_warns(insts@, valid@, i as nat),
            decreases insts.len() - i,
        {
            let ghost wb = str_views(warns@);
            if !valid[i] {
                let mut m = String::from_str("CUDA ");
                m.append(insts[i].version.as_str());
                m.append(" installation at ");
                m.append(insts[i].install_path.as_str());
                m.append(" appears to be incomplete");
                push_str(warns, m);
            }
            assert(str_views(warns@) =~= wb + only_if(!valid@[i as int], incomplete_msg(insts@[i as int])));
            i += 1;
        }
        let ghost r1 = str_views(recs@);
        let ghost w1 = str_views(warns@);
        let cs = &detection.conflicts;
        let mut k: usize = 0;
        while k < cs.len()
            invariant
                k <= cs@.len(),
                cs@ == detection.conflicts@,
                str_views(recs@) == r1 + conflict_recs(cs@.take(k as int)),
                str_views(warns@) == w1 + conflict_warns(cs@.take(k as int)),
            decreases cs.len() - k,
        {
            let mut m = String::from_str("Conflict detected: ");
            m.append(cs[k].description.as_str());
            push_str(warns, m);
            push_str(recs, cs[k].resolution_suggestion.clone());
            assert(conflict_recs(cs@.take(k + 1)) =~= conflict_recs(cs@.take(k as int)).push(
                cs@[k as int].resolution_suggestion@,
            ));
            assert(conflict_warns(cs@.take(k + 1)) =~= conflict_warns(cs@.take(k as int)).push(
                "Conflict detected: "@ + cs@[k as int].description@,
            ));
            k += 1;
        }
        assert(cs@.take(cs@.len() as int) =~= cs@);
        assert(str_views(recs@) =~= r0 + install_recs(*detection) + conflict_recs(
            detection.conflicts@,
        ));
        assert(str_views(warns@) =~= w0 + incomplete_warns(
            detection.installations@,
            valid@,
            detection.installations@.len(),
        ) + conflict_warns(detection.conflicts@));
    }

    fn classify_exec(hardware: bool, errors: &Vec<String>, warnings: &Vec<String>) -> (r:
        CompatibilityStatus)
        ensures
            r == classify(hardware, str_views(errors@), str_views(warnings@)),
    {
        if errors.len() > 0 {
            if hardware {
                let mut k: usize = 0;
                while k < errors.len()
                    invariant
                        k <= errors@.len(),
                        forall|j: int| 0 <= j < k ==> setup_only(#[trigger] str_views(errors@)[j]),
                    decreases errors.len() - k,
                {
                    if !is_setup_only(&errors[k]) {
                        assert(!setup_only(str_views(errors@)[k as int]));
                        return CompatibilityStatus::Incompatible;
                    }
                    k += 1;
                }
                CompatibilityStatus::PrerequisitesMissing
            } else {
                CompatibilityStatus::Incompatible
            }
        } else if warnings.len() > 0 {
            CompatibilityStatus::CompatibleWithWarnings
        } else {
            CompatibilityStatus::Compatible
        }
    }

    /// Analyzes a system: appends its recommendations, warnings and errors
    /// (in the order of `recommendations_of`, `warnings_of` and `errors_of`)
    /// and returns the verdict on them. `valid` says, per installation found,
    /// whether it is complete; `platform` is where the probes ran.
    pub fn analyze_compatibility(
        system_info: &SystemInfo,
        cuda_detection: &CudaDetectionResult,
        valid: &Vec<bool>,
        platform: Platform,
        recommendations: &mut Vec<String>,
        warnings: &mut Vec<String>,
        errors: &mut Vec<String>,
    ) -> (r: CompatibilityStatus)
        requires
            valid@.len() == cuda_detection.installations@.len(),
        ensures
            str_views(final(recommendations)@) == str_views(old(recommendations)@)
                + recommendations_of(*system_info, *cuda_detection, platform),
            str_views(final(warnings)@) == str_views(old(warnings)@) + warnings_of(
                *system_info,
                *cuda_detection,
                valid@,
                platform,
            ),
            str_views(final(errors)@) == str_views(old(errors)@) + errors_of(*system_info),
            r == status_of(*system_info, *cuda_detection, valid@, platform),
    {
        let mut recs: Vec<String> = Vec::new();
        let mut warns: Vec<String> = Vec::new();
        let mut errs: Vec<String> = Vec::new();
        Self::wsl_section(system_info, &mut recs);
        Self::vs_section(system_info, platform, &mut recs, &mut warns);
        Self::hardware_section(system_info, &mut recs, &mut warns, &mut errs);
        Self::security_section(system_info, &mut recs, &mut warns, &mut errs);
        Self::installation_section(cuda_detection, valid, &mut recs, &mut warns);
        assert(str_views(recs@) =~= recommendations_of(*system_info, *cuda_detection, platform));
        assert(str_views(warns@) =~= warnings_of(*system_info, *cuda_detection, valid@, platform));
        assert(str_views(errs@) =~= errors_of(*system_info));
        let hardware = system_info.gpu.is_some() && system_info.driver.is_some();
        let status = Self::classify_exec(hardware, &errs, &warns);
        append_all(recommendations, recs);
        append_all(warnings, warns);
        append_all(errors, errs);
        status
    }

    /// The report on a system: the analysis of what the probes and the
    /// installation scan found, each installation's completeness checked now.
    pub fn generate_report(
        system_info: SystemInfo,
        cuda_detection: CudaDetectionResult,
        platform: Platform,
    ) -> (r: SystemReport)
        ensures
            r.system_info == system_info,
            r.cuda_detection == cuda_detection,
            exists|valid: Seq<bool>|
                valid.len() == cuda_detection.installations@.len() && r.compatibility_status
                    == status_of(system_info, cuda_detection, valid, platform) && str_views(
                    r.errors@,
                ) == errors_of(system_info) && str_views(r.warnings@) == warnings_of(
                    system_info,
                    cuda_detection,
                    valid,
                    platform,
                ) && str_views(r.recommendations@) == recommendations_of(
                    system_info,
                    cuda_detection,
                    platform,
                ),
    {
        let mut valid: Vec<bool> = Vec::new();
        let mut i: usize = 0;
        while i < cuda_detection.installations.len()
            invariant
                i <= cuda_detection.installations@.len(),
                valid@.len() == i,
            decreases cuda_detection.installations.len() - i,
        {
            valid.push(cuda_detection.installations[i].is_valid());
            i += 1;
        }
        let mut recommendations: Vec<String> = Vec::new();
        let mut warnings: Vec<String> = Vec::new();
        let mut errors: Vec<String> = Vec::new();
        assert(str_views(recommendations@) =~= Seq::<Seq<char>>::empty());
        assert(str_views(warnings@) =~= Seq::<Seq<char>>::empty());
        assert(str_views(errors@) =~= Seq::<Seq<char>>::empty());
        let status = Self::analyze_compatibility(
            &system_info,
            &cuda_detection,
            &valid,
            platform,
            &mut recommendations,
            &mut warnings,
            &mut errors,
        );
        assert(str_views(errors@) =~= errors_of(system_info));
        assert(str_views(warnings@) =~= warnings_of(system_info, cuda_detection, valid@, platform));
        assert(str_views(recommendations@) =~= recommendations_of(system_info, cuda_detection, platform));
        SystemReport {
            system_info,
            cuda_detection,
            compatibility_status: status,
            recommendations,
            warnings,
            errors,
        }
    }
}

fn append_all(dst: &mut Vec<String>, src: Vec<String>)
    ensures
        str_views(final(dst)@) == str_views(old(dst)@) + str_views(src@),
{
    let ghost d0 = str_views(dst@);
    let mut i: usize = 0;
    while i < src.len()
        invariant
            i <= src@.len(),
            str_views(dst@) == d0 + str_views(src@).take(i as int),
        decreases src.len() - i,
    {
        push_str(dst, src[i].clone());
        assert(str_views(src@).take(i + 1) =~= str_views(src@).take(i as int).push(src@[i as int]@));
        i += 1;
    }
    assert(str_views(src@).take(src@.len() as int) =~= str_views(src@));
}


/// With neither a GPU nor a driver detected, the verdict is incompatible and
/// the first two errors say that no GPU and no driver were detected.
pub proof fn lemma_no_gpu_no_driver(
    i: SystemInfo,
    d: CudaDetectionResult,
    valid: Seq<bool>,
    p: Platform,
)
    requires
        i.gpu is None,
        i.driver is None,
    ensures
        status_of(i, d, valid, p) == CompatibilityStatus::Incompatible,
        errors_of(i).len() >= 2,
        errors_of(i)[0] == "No GPU detected"@,
        errors_of(i)[1] == "No NVIDIA driver detected"@,
{
    let e = errors_of(i);
    let head = gpu_errors(i) + driver_errors(i);
    assert(head =~= seq!["No GPU detected"@, "No NVIDIA driver detected"@]);
    assert(e =~= head + (compiler_errors(i) + storage_errors(i) + blocking(
        security_issues(i.security),
    )));
}

/// The compiler's missing-compiler message only asks for setup.
proof fn lemma_compiler_message_is_setup()
    ensures
        setup_only("No compatible compiler detected"@),
{
    reveal(contains_spec);
    reveal_strlit("No compatible compiler detected");
    reveal_strlit("compiler");
    let h = "No compatible compiler detected"@;
    let n = "compiler"@;
    assert(h.subrange(14, 22) =~= n);
    assert(crate::text::occurs_at(h, n, 14));
}

/// With a CUDA-capable GPU and a driver, enough space and no security issue,
/// a missing compiler alone leaves the prerequisites missing: the hardware
/// is capable and the only error asks for setup.
pub proof fn lemma_only_compiler_missing(
    i: SystemInfo,
    d: CudaDetectionResult,
    valid: Seq<bool>,
    p: Platform,
)
    requires
        i.gpu is Some,
        i.gpu.unwrap().cuda_compatible(),
        i.driver is Some,
        i.compiler is None,
        i.storage.has_sufficient_space,
        security_issues(i.security).len() == 0,
    ensures
        status_of(i, d, valid, p) == CompatibilityStatus::PrerequisitesMissing,
{
    let e = errors_of(i);
    assert(blocking(security_issues(i.security)) =~= Seq::<Seq<char>>::empty());
    assert(e =~= seq!["No compatible compiler detected"@]);
    lemma_compiler_message_is_setup();
    assert forall|k: int| 0 <= k < e.len() implies setup_only(#[trigger] e[k]) by {
        assert(e[k] == "No compatible compiler detected"@);
    }
}


/// Checks a system against one toolkit version.
pub struct DefaultSystemChecker;

impl DefaultSystemChecker {
    /// The system can take toolkit `cuda_version`: a CUDA-capable GPU, a
    /// driver that runs that version, a compatible compiler and enough space.
    pub fn validate_compatibility(&self, system_info: &SystemInfo, cuda_version: &str) -> (r: bool)
        ensures
            r == (match system_info.gpu {
                Some(g) => g.cuda_compatible(),
                None => false,
            } && match system_info.driver {
                Some(d) => d.supports_cuda && match d.max_cuda_version {
                    Some(m) => crate::version::compare_spec(cuda_version@, m@) <= 0,
                    None => false,
                },
                None => false,
            } && system_info.compiler is Some && system_info.storage.has_sufficient_space),
    {
        match &system_info.gpu {
            Some(g) => {
                if !g.supports_cuda() {
                    return false;
                }
            },
            None => {
                return false;
            },
        }
        match &system_info.driver {
            Some(d) => {
                if !d.supports_cuda_version(cuda_version) {
                    return false;
                }
            },
            None => {
                return false;
            },
        }
        if system_info.compiler.is_none() {
            return false;
        }
        system_info.storage.has_sufficient_space
    }
}

} // verus!
