//! The human-readable report: a status line, the system block, the
//! installations, conflicts, errors, warnings and recommendations.
use vstd::prelude::*;
use crate::cuda::{CudaConflict, CudaInstallation};
use crate::registry::opt_view;
use crate::report::{CompatibilityStatus, SystemInfo, SystemReport};
use crate::security::str_views;
use crate::storage::BYTES_PER_GB;
use crate::text::{chars_of, decimal, push_decimal, starts_with, starts_with_spec};
use crate::wsl::wsl_name;

verus! {

/// How a verdict is shown.
pub open spec fn status_text(s: CompatibilityStatus) -> Seq<char> {
    match s {
        CompatibilityStatus::Compatible => "✅ Compatible"@,
        CompatibilityStatus::CompatibleWithWarnings => "⚠️  Compatible (with warnings)"@,
        CompatibilityStatus::Incompatible => "❌ Incompatible"@,
        CompatibilityStatus::PrerequisitesMissing => "⚠️  Compatible (Prerequisites Missing)"@,
        CompatibilityStatus::Unknown => "❓ Unknown"@,
    }
}

pub open spec fn bool_text(b: bool) -> Seq<char> {
    if b {
        "true"@
    } else {
        "false"@
    }
}

/// One line per item: `prefix`, the item, a newline.
pub open spec fn bullets(prefix: Seq<char>, items: Seq<Seq<char>>) -> Seq<char>
    decreases items.len(),
{
    if items.len() == 0 {
        Seq::<char>::empty()
    } else {
        bullets(prefix, items.drop_last()) + prefix + items.last() + "\n"@
    }
}

/// A titled block of bullets followed by an empty line (or none at the end);
/// nothing for no items.
pub open spec fn block(title: Seq<char>, prefix: Seq<char>, items: Seq<Seq<char>>, spaced: bool) -> Seq<
    char,
> {
    if items.len() == 0 {
        Seq::<char>::empty()
    } else {
        title + bullets(prefix, items) + if spaced {
            "\n"@
        } else {
            Seq::<char>::empty()
        }
    }
}

pub open spec fn os_line(i: SystemInfo) -> Seq<char> {
    if starts_with_spec(i.distro.version@, i.distro.name@) {
        "OS: "@ + i.distro.version@ + "\n"@
    } else {
        "OS: "@ + i.distro.name@ + " "@ + i.distro.version@ + "\n"@
    }
}

pub open spec fn gpu_line(i: SystemInfo) -> Seq<char> {
    match i.gpu {
        Some(g) => "GPU: "@ + g.name@ + " ("@ + match g.memory_mb {
            Some(m) => decimal(m as nat) + " MB"@,
            None => "Unknown"@,
        } + ", "@ + match g.compute_capability {
            Some(cc) => "Compute "@ + decimal(cc.0 as nat) + "."@ + decimal(cc.1 as nat),
            None => "Unknown"@,
        } + ")\n"@,
        None => "GPU: Not detected\n"@,
    }
}

pub open spec fn driver_line(i: SystemInfo) -> Seq<char> {
    match i.driver {
        Some(d) => "Driver: NVIDIA "@ + d.version@ + " (Max CUDA "@ + match opt_view(
            d.max_cuda_version,
        ) {
            Some(m) => m,
            None => "Unknown"@,
        } + ")\n"@,
        None => "Driver: Not detected\n"@,
    }
}

pub open spec fn compiler_line(i: SystemInfo) -> Seq<char> {
    match i.compiler {
        Some(c) => "Compiler: "@ + c.name@ + " "@ + c.version@ + " (Compatible: "@ + bool_text(
            c.is_compatible,
        ) + ")\n"@,
        None => "Compiler: Not detected\n"@,
    }
}

pub open spec fn environment_lines(i: SystemInfo) -> Seq<char> {
    (match i.wsl {
        Some(w) => if w.is_wsl {
            "Environment: WSL ("@ + wsl_name(w.version) + ") - "@ + w.distribution@ + "\n"@
        } else {
            Seq::<char>::empty()
        },
        None => Seq::<char>::empty(),
    }) + match i.visual_studio {
        Some(vs) => "Visual Studio: "@ + vs.name@ + " (v"@ + vs.version@ + ")\n"@,
        None => Seq::<char>::empty(),
    }
}

/// The system information block.
pub open spec fn system_block(i: SystemInfo) -> Seq<char> {
    "=== System Information ===\n"@ + os_line(i) + gpu_line(i) + driver_line(i) + compiler_line(i)
        + "Storage: "@ + decimal(i.storage.available_space_gb as nat) + " GB available\n"@
        + "Admin Privileges: "@ + bool_text(i.security.has_admin_privileges) + "\n"@
        + "Secure Boot: "@ + (if i.security.secure_boot_enabled {
        "Enabled"@
    } else {
        "Disabled"@
    }) + "\n"@ + environment_lines(i) + "\n"@
}

pub open spec fn installation_item(inst: CudaInstallation) -> Seq<char> {
    inst.version@ + " at "@ + inst.install_path@ + " ("@ + decimal(
        (inst.size_bytes / BYTES_PER_GB) as nat,
    ) + " GB)"@
}

pub open spec fn conflict_item(c: CudaConflict) -> Seq<char> {
    crate::cuda::conflict_label(c.conflict_type) + ": "@ + c.description@ + "\n"@
        + "    Resolution: "@ + c.resolution_suggestion@
}

pub open spec fn system_cuda_block(r: SystemReport) -> Seq<char> {
    match r.cuda_detection.system_cuda {
        Some(s) => "=== System CUDA (in PATH) ===\n"@ + match opt_view(s.nvcc_version) {
            Some(v) => "  NVCC Version: "@ + v + "\n"@,
            None => Seq::<char>::empty(),
        } + match opt_view(s.nvcc_path) {
            Some(p) => "  NVCC Path: "@ + p + "\n"@,
            None => Seq::<char>::empty(),
        } + "\n"@,
        None => Seq::<char>::empty(),
    }
}

/// The whole report as text.
pub open spec fn report_text(r: SystemReport) -> Seq<char> {
    "=== CUDA System Compatibility Report ===\n\n"@ + "Overall Status: "@ + status_text(
        r.compatibility_status,
    ) + "\n\n"@ + system_block(r.system_info) + block(
        "=== Existing CUDA Installations ===\n"@,
        "  "@,
        r.cuda_detection.installations@.map_values(|x: CudaInstallation| installation_item(x)),
        true,
    ) + system_cuda_block(r) + block(
        "=== Conflicts Detected ===\n"@,
        "  "@,
        r.cuda_detection.conflicts@.map_values(|c: CudaConflict| conflict_item(c)),
        true,
    ) + block("=== Errors ===\n"@, "  ❌ "@, str_views(r.errors@), true) + block(
        "=== Warnings ===\n"@,
        "  ⚠️  "@,
        str_views(r.warnings@),
        true,
    ) + block("=== Recommendations ===\n"@, "  💡 "@, str_views(r.recommendations@), false)
}

impl CompatibilityStatus {
    /// How the verdict is shown.
    pub fn to_display_string(&self) -> (r: String)
        ensures
            r@ == status_text(*self),
    {
        match self {
            CompatibilityStatus::Compatible => String::from_str("✅ Compatible"),
            CompatibilityStatus::CompatibleWithWarnings => String::from_str(
                "⚠️  Compatible (with warnings)",
            ),
            CompatibilityStatus::Incompatible => String::from_str("❌ Incompatible"),
            CompatibilityStatus::PrerequisitesMissing => String::from_str(
                "⚠️  Compatible (Prerequisites Missing)",
            ),
            CompatibilityStatus::Unknown => String::from_str("❓ Unknown"),
        }
    }
}

fn bool_str(b: bool) -> (r: &'static str)
    ensures
        r@ == bool_text(b),
{
    if b {
        "true"
    } else {
        "false"
    }
}

fn push_block(
    s: &mut String,
    title: &str,
    prefix: &str,
    items: &Vec<String>,
    spaced: bool,
)
    ensures
        final(s)@ == old(s)@ + block(title@, prefix@, str_views(items@), spaced),
{
    if items.len() == 0 {
        assert(final(s)@ =~= old(s)@ + block(title@, prefix@, str_views(items@), spaced));
        return;
    }
    let ghost s0 = s@;
    s.append(title);
    let mut i: usize = 0;
    while i < items.len()
        invariant
            i <= items@.len(),
            s@ == s0 + title@ + bullets(prefix@, str_views(items@).take(i as int)),
        decreases items.len() - i,
    {
        s.append(prefix);
        s.append(items[i].as_str());
        s.append("\n");
        assert(str_views(items@).take(i + 1).drop_last() =~= str_views(items@).take(i as int));
        assert(str_views(items@).take(i + 1).last() == items@[i as int]@);
        i += 1;
    }
    assert(str_views(items@).take(items@.len() as int) =~= str_views(items@));
    if spaced {
        s.append("\n");
    }
    assert(s@ =~= s0 + block(title@, prefix@, str_views(items@), spaced));
}

fn os_part(s: &mut String, i: &SystemInfo)
    ensures
        final(s)@ == old(s)@ + os_line(*i),
{
    let ghost s0 = s@;
    let vc = chars_of(i.distro.version.as_str());
    let nc = chars_of(i.distro.name.as_str());
    if starts_with(&vc, &nc) {
        s.append("OS: ");
        s.append(i.distro.version.as_str());
        s.append("\n");
    } else {
        s.append("OS: ");
        s.append(i.distro.name.as_str());
        s.append(" ");
        s.append(i.distro.version.as_str());
        s.append("\n");
    }
    assert(s@ =~= s0 + os_line(*i));
}

fn gpu_part(s: &mut String, i: &SystemInfo)
    ensures
        final(s)@ == old(s)@ + gpu_line(*i),
{
    let ghost s0 = s@;
    match &i.gpu {
        Some(g) => {
            s.append("GPU: ");
            s.append(g.name.as_str());
            s.append(" (");
            let ghost a = s@;
            match g.memory_mb {
                Some(m) => {
                    push_decimal(s, m);
                    s.append(" MB");
                },
                None => s.append("Unknown"),
            }
            let ghost b = s@;
            s.append(", ");
            match g.compute_capability {
                Some(cc) => {
                    s.append("Compute ");
                    push_decimal(s, cc.0 as u64);
                    s.append(".");
                    push_decimal(s, cc.1 as u64);
                },
                None => s.append("Unknown"),
            }
            s.append(")\n");
            assert(s@ =~= s0 + gpu_line(*i));
        },
        None => {
            s.append("GPU: Not detected\n");
            assert(s@ =~= s0 + gpu_line(*i));
        },
    }
}

fn driver_part(s: &mut String, i: &SystemInfo)
    ensures
        final(s)@ == old(s)@ + driver_line(*i),
{
    let ghost s0 = s@;
    match &i.driver {
        Some(d) => {
            s.append("Driver: NVIDIA ");
            s.append(d.version.as_str());
            s.append(" (Max CUDA ");
            match &d.max_cuda_version {
                Some(m) => s.append(m.as_str()),
                None => s.append("Unknown"),
            }
            s.append(")\n");
        },
        None => s.append("Driver: Not detected\n"),
    }
    assert(s@ =~= s0 + driver_line(*i));
}

fn compiler_part(s: &mut String, i: &SystemInfo)
    ensures
        final(s)@ == old(s)@ + compiler_line(*i),
{
    let ghost s0 = s@;
    match &i.compiler {
        Some(c) => {
            s.append("Compiler: ");
            s.append(c.name.as_str());
            s.append(" ");
            s.append(c.version.as_str());
            s.append(" (Compatible: ");
            s.append(bool_str(c.is_compatible));
            s.append(")\n");
        },
        None => s.append("Compiler: Not detected\n"),
    }
    assert(s@ =~= s0 + compiler_line(*i));
}

fn environment_part(s: &mut String, i: &SystemInfo)
    ensures
        final(s)@ == old(s)@ + environment_lines(*i),
{
    let ghost s0 = s@;
    match &i.wsl {
        Some(w) => {
            if w.is_wsl {
                s.append("Environment: WSL (");
                s.append(w.version.name());
                s.append(") - ");
                s.append(w.distribution.as_str());
                s.append("\n");
            }
        },
        None => {},
    }
    let ghost s1 = s@;
    match &i.visual_studio {
        Some(vs) => {
            s.append("Visual Studio: ");
            s.append(vs.name.as_str());
            s.append(" (v");
            s.append(vs.version.as_str());
            s.append(")\n");
        },
        None => {},
    }
    assert(s@ =~= s0 + environment_lines(*i));
}

fn system_lines(s: &mut String, i: &SystemInfo)
    ensures
        final(s)@ == old(s)@ + system_block(*i),
{
    let ghost s0 = s@;
    s.append("=== System Information ===\n");
    os_part(s, i);
    gpu_part(s, i);
    driver_part(s, i);
    compiler_part(s, i);
    s.append("Storage: ");
    push_decimal(s, i.storage.available_space_gb);
    s.append(" GB available\n");
    s.append("Admin Privileges: ");
    s.append(bool_str(i.security.has_admin_privileges));
    s.append("\n");
    s.append("Secure Boot: ");
    if i.security.secure_boot_enabled {
        s.append("Enabled");
    } else {
        s.append("Disabled");
    }
    s.append("\n");
    environment_part(s, i);
    s.append("\n");
    assert(s@ =~= s0 + system_block(*i));
}

impl SystemReport {
    /// The report as multi-section text, each error, warning and
    /// recommendation on a line of its own with a marker.
    pub fn render(&self) -> (r: String)
        ensures
            r@ == report_text(*self),
    {
        let mut s = String::from_str("=== CUDA System Compatibility Report ===\n\n");
        s.append("Overall Status: ");
        let st = self.compatibility_status.to_display_string();
        s.append(st.as_str());
        s.append("\n\n");
        system_lines(&mut s, &self.system_info);
        let insts = &self.cuda_detection.installations;
        let mut items: Vec<String> = Vec::new();
        let mut k: usize = 0;
        while k < insts.len()
            invariant
                k <= insts@.len(),
                str_views(items@) == insts@.take(k as int).map_values(
                    |x: CudaInstallation| installation_item(x),
                ),
            decreases insts.len() - k,
        {
            let mut m = insts[k].version.clone();
            m.append(" at ");
            m.append(insts[k].install_path.as_str());
            m.append(" (");
            push_decimal(&mut m, insts[k].size_bytes / BYTES_PER_GB);
            m.append(" GB)");
            let ghost before = str_views(items@);
            items.push(m);
            assert(str_views(items@) =~= before.push(installation_item(insts@[k as int])));
            assert(insts@.take(k + 1).map_values(|x: CudaInstallation| installation_item(x))
                =~= insts@.take(k as int).map_values(|x: CudaInstallation| installation_item(x)).push(
                installation_item(insts@[k as int]),
            ));
            k += 1;
        }
        assert(insts@.take(insts@.len() as int) =~= insts@);
        push_block(&mut s, "=== Existing CUDA Installations ===\n", "  ", &items, true);
        let ghost s6 = s@;
        match &self.cuda_detection.system_cuda {
            Some(sc) => {
                s.append("=== System CUDA (in PATH) ===\n");
                match &sc.nvcc_version {
                    Some(v) => {
                        s.append("  NVCC Version: ");
                        s.append(v.as_str());
                        s.append("\n");
                    },
                    None => {},
                }
                match &sc.nvcc_path {
                    Some(p) => {
                        s.append("  NVCC Path: ");
                        s.append(p.as_str());
                        s.append("\n");
                    },
                    None => {},
                }
                s.append("\n");
            },
            None => {},
        }
        assert(s@ =~= s6 + system_cuda_block(*self));
        let cs = &self.cuda_detection.conflicts;
        let mut citems: Vec<String> = Vec::new();
        let mut j: usize = 0;
        while j < cs.len()
            invariant
                j <= cs@.len(),
                str_views(citems@) == cs@.take(j as int).map_values(
                    |c: CudaConflict| conflict_item(c),
                ),
            decreases cs.len() - j,
        {
            let mut m = String::from_str(cs[j].conflict_type.label());
            m.append(": ");
            m.append(cs[j].description.as_str());
            m.append("\n");
            m.append("    Resolution: ");
            m.append(cs[j].resolution_suggestion.as_str());
            let ghost before = str_views(citems@);
            citems.push(m);
            assert(str_views(citems@) =~= before.push(conflict_item(cs@[j as int])));
            assert(cs@.take(j + 1).map_values(|c: CudaConflict| conflict_item(c)) =~= cs@.take(
                j as int,
            ).map_values(|c: CudaConflict| conflict_item(c)).push(conflict_item(cs@[j as int])));
            j += 1;
        }
        assert(cs@.take(cs@.len() as int) =~= cs@);
        push_block(&mut s, "=== Conflicts Detected ===\n", "  ", &citems, true);
        push_block(&mut s, "=== Errors ===\n", "  ❌ ", &self.errors, true);
        push_block(&mut s, "=== Warnings ===\n", "  ⚠️  ", &self.warnings, true);
        push_block(&mut s, "=== Recommendations ===\n", "  💡 ", &self.recommendations, false);
        assert(s@ =~= report_text(*self));
        s
    }
}

} // verus!
