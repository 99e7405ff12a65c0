//! GPU records and the parsers of the GPU probes' output: the status tool's
//! CSV listing, the bus enumeration's lines and the Windows device query.
use vstd::prelude::*;
use crate::registry::{capability_for, clone_opt, opt_view, CompatibilityRegistry, GpuArchitecture};
use crate::text::{
    chars_of, contains_spec, contains_str, find_str, first_index, lines_of, lines_spec,
    lower_of, lowercase, parse_u64, parse_u64_spec, slice, split_chars, split_spec,
    string_from, trim_spec, trimmed, views,
};

verus! {

/// Who made a GPU.
#[derive(Debug, Clone, PartialEq)]
pub enum GpuVendor {
    Nvidia,
    Amd,
    Intel,
    Unknown(String),
}

/// The view of a vendor.
pub enum VendorView {
    Nvidia,
    Amd,
    Intel,
    Unknown(Seq<char>),
}

impl View for GpuVendor {
    type V = VendorView;

    open spec fn view(&self) -> VendorView {
        match self {
            GpuVendor::Nvidia => VendorView::Nvidia,
            GpuVendor::Amd => VendorView::Amd,
            GpuVendor::Intel => VendorView::Intel,
            GpuVendor::Unknown(s) => VendorView::Unknown(s@),
        }
    }
}

/// One detected GPU. A compute capability is only ever recorded for the
/// CUDA-capable maker.
#[derive(Debug, PartialEq)]
pub struct GpuInfo {
    pub name: String,
    pub vendor: GpuVendor,
    pub memory_mb: Option<u64>,
    pub compute_capability: Option<(u32, u32)>,
    pub driver_version: Option<String>,
    pub pci_id: Option<String>,
}

/// The view of a GPU record.
pub struct GpuInfoView {
    pub name: Seq<char>,
    pub vendor: VendorView,
    pub memory_mb: Option<u64>,
    pub compute_capability: Option<(u32, u32)>,
    pub driver_version: Option<Seq<char>>,
    pub pci_id: Option<Seq<char>>,
}

impl View for GpuInfo {
    type V = GpuInfoView;

    open spec fn view(&self) -> GpuInfoView {
        GpuInfoView {
            name: self.name@,
            vendor: self.vendor@,
            memory_mb: self.memory_mb,
            compute_capability: self.compute_capability,
            driver_version: opt_view(self.driver_version),
            pci_id: opt_view(self.pci_id),
        }
    }
}

pub open spec fn gpu_views(v: Seq<GpuInfo>) -> Seq<GpuInfoView> {
    v.map_values(|g: GpuInfo| g@)
}

fn clone_vendor(v: &GpuVendor) -> (r: GpuVendor)
    ensures
        r@ == v@,
{
    match v {
        GpuVendor::Nvidia => GpuVendor::Nvidia,
        GpuVendor::Amd => GpuVendor::Amd,
        GpuVendor::Intel => GpuVendor::Intel,
        GpuVendor::Unknown(s) => GpuVendor::Unknown(s.clone()),
    }
}

impl Clone for GpuInfo {
    fn clone(&self) -> (r: Self)
        ensures
            r@ == self@,
    {
        GpuInfo {
            name: self.name.clone(),
            vendor: clone_vendor(&self.vendor),
            memory_mb: self.memory_mb,
            compute_capability: self.compute_capability,
            driver_version: clone_opt(&self.driver_version),
            pci_id: clone_opt(&self.pci_id),
        }
    }
}

/// The vendor that a lower-cased description names.
pub open spec fn vendor_of(lowered: Seq<char>) -> VendorView {
    if contains_spec(lowered, "nvidia"@) {
        VendorView::Nvidia
    } else if contains_spec(lowered, "amd"@) || contains_spec(lowered, "radeon"@) {
        VendorView::Amd
    } else if contains_spec(lowered, "intel"@) {
        VendorView::Intel
    } else {
        VendorView::Unknown("Unknown"@)
    }
}

/// Classifies a lower-cased description by the maker it names.
pub fn classify_vendor(lowered: &Vec<char>) -> (r: GpuVendor)
    ensures
        r@ == vendor_of(lowered@),
{
    if contains_str(lowered, "nvidia") {
        GpuVendor::Nvidia
    } else if contains_str(lowered, "amd") || contains_str(lowered, "radeon") {
        GpuVendor::Amd
    } else if contains_str(lowered, "intel") {
        GpuVendor::Intel
    } else {
        GpuVendor::Unknown(String::from_str("Unknown"))
    }
}

impl GpuInfo {
    /// A record with a name and a vendor and nothing else known.
    pub fn new(name: String, vendor: GpuVendor) -> (r: Self)
        ensures
            r.name == name,
            r.vendor == vendor,
            r.memory_mb is None,
            r.compute_capability is None,
            r.driver_version is None,
            r.pci_id is None,
    {
        GpuInfo {
            name,
            vendor,
            memory_mb: None,
            compute_capability: None,
            driver_version: None,
            pci_id: None,
        }
    }

    pub open spec fn cuda_compatible(&self) -> bool {
        self.vendor is Nvidia && self.compute_capability is Some
    }

    /// Made by the CUDA-capable maker, with a known compute capability.
    pub fn is_cuda_compatible(&self) -> (r: bool)
        ensures
            r == self.cuda_compatible(),
    {
        match self.vendor {
            GpuVendor::Nvidia => self.compute_capability.is_some(),
            _ => false,
        }
    }

    /// Whether the toolkit can run on this GPU.
    pub fn supports_cuda(&self) -> (r: bool)
        ensures
            r == self.cuda_compatible(),
    {
        self.is_cuda_compatible()
    }

    /// The compute capability is known and at least `required` (major, then minor).
    pub fn supports_compute_capability(&self, required: (u32, u32)) -> (r: bool)
        ensures
            r == match self.compute_capability {
                Some(cap) => cap.0 > required.0 || (cap.0 == required.0 && cap.1 >= required.1),
                None => false,
            },
    {
        match self.compute_capability {
            Some(cap) => cap.0 > required.0 || (cap.0 == required.0 && cap.1 >= required.1),
            None => false,
        }
    }

    /// The GPU to report among those detected: the first CUDA-compatible one,
    /// else the first one.
    pub fn select_primary(gpus: &Vec<GpuInfo>) -> (r: Option<GpuInfo>)
        ensures
            match r {
                Some(g) => exists|i: int|
                    0 <= i < gpus@.len() && g@ == gpus@[i]@ && (g.cuda_compatible() || (i == 0
                        && forall|j: int| 0 <= j < gpus@.len() ==> !gpus@[j].cuda_compatible()))
                        && (g.cuda_compatible() ==> forall|j: int|
                        0 <= j < i ==> !gpus@[j].cuda_compatible()),
                None => gpus@.len() == 0,
            },
    {
        let mut i: usize = 0;
        while i < gpus.len()
            invariant
                i <= gpus@.len(),
                forall|j: int| 0 <= j < i ==> !gpus@[j].cuda_compatible(),
            decreases gpus.len() - i,
        {
            if gpus[i].is_cuda_compatible() {
                let g = gpus[i].clone();
                assert(g.cuda_compatible());
                return Some(g);
            }
            i += 1;
        }
        if gpus.len() > 0 {
            let g = gpus[0].clone();
            assert(!g.cuda_compatible());
            Some(g)
        } else {
            None
        }
    }
}

/// The trimmed comma-separated fields of a status-tool line.
pub open spec fn csv_fields(line: Seq<char>) -> Seq<Seq<char>> {
    split_spec(line, ',').map_values(|p: Seq<char>| trim_spec(p))
}

/// The GPU that one line of `name, memory, driver, bus id` describes, if it has
/// four fields; a memory field that is no number reads as 0.
pub open spec fn smi_row(t: Seq<(String, GpuArchitecture)>, line: Seq<char>) -> Option<
    GpuInfoView,
> {
    let f = csv_fields(line);
    if f.len() < 4 {
        None
    } else {
        Some(
            GpuInfoView {
                name: f[0],
                vendor: VendorView::Nvidia,
                memory_mb: Some(
                    match parse_u64_spec(f[1]) {
                        Some(m) => m,
                        None => 0,
                    },
                ),
                compute_capability: capability_for(t, lower_of(f[0])),
                driver_version: Some(f[2]),
                pci_id: Some(f[3]),
            },
        )
    }
}

pub open spec fn smi_rows(t: Seq<(String, GpuArchitecture)>, lines: Seq<Seq<char>>) -> Seq<
    GpuInfoView,
>
    decreases lines.len(),
{
    if lines.len() == 0 {
        Seq::<GpuInfoView>::empty()
    } else {
        let prev = smi_rows(t, lines.drop_last());
        match smi_row(t, lines.last()) {
            Some(g) => prev.push(g),
            None => prev,
        }
    }
}

/// The bus id, vendor and name that one bus enumeration line describes:
/// `<bus id> <class>: <description>`.
pub open spec fn lspci_row(t: Seq<(String, GpuArchitecture)>, line: Seq<char>) -> Option<
    GpuInfoView,
> {
    match first_index(line, seq![' ']) {
        None => None,
        Some(sp) => {
            let rest = line.subrange(sp + 1, line.len() as int);
            match first_index(rest, seq![':']) {
                None => None,
                Some(c) => {
                    let desc = rest.subrange(c + 1, rest.len() as int);
                    let vendor = vendor_of(lower_of(desc));
                    let name = device_name(desc);
                    Some(
                        GpuInfoView {
                            name,
                            vendor,
                            memory_mb: None,
                            compute_capability: if vendor is Nvidia {
                                capability_for(t, lower_of(name))
                            } else {
                                None
                            },
                            driver_version: None,
                            pci_id: Some(trim_spec(line.subrange(0, sp))),
                        },
                    )
                },
            }
        },
    }
}

/// The text before a ` [` (a bracketed id), trimmed.
pub open spec fn before_bracket(d: Seq<char>) -> Seq<char> {
    match first_index(d, " ["@) {
        Some(e) => trim_spec(d.subrange(0, e)),
        None => trim_spec(d),
    }
}

/// The device name in a description: what follows the maker's
/// `Corporation ` or `Inc. `, up to a bracketed id.
pub open spec fn device_name(desc: Seq<char>) -> Seq<char> {
    match first_index(desc, "Corporation "@) {
        Some(s) => before_bracket(desc.subrange(s + "Corporation "@.len(), desc.len() as int)),
        None => match first_index(desc, "Inc. "@) {
            Some(s) => before_bracket(desc.subrange(s + "Inc. "@.len(), desc.len() as int)),
            None => before_bracket(desc),
        },
    }
}

/// A bus enumeration line that shows a display controller.
pub open spec fn is_display_line(line: Seq<char>) -> bool {
    contains_spec(lower_of(line), "vga"@) || contains_spec(lower_of(line), "3d"@)
}

pub open spec fn lspci_rows(t: Seq<(String, GpuArchitecture)>, lines: Seq<Seq<char>>) -> Seq<
    GpuInfoView,
>
    decreases lines.len(),
{
    if lines.len() == 0 {
        Seq::<GpuInfoView>::empty()
    } else {
        let prev = lspci_rows(t, lines.drop_last());
        if is_display_line(lines.last()) {
            match lspci_row(t, lines.last()) {
                Some(g) => prev.push(g),
                None => prev,
            }
        } else {
            prev
        }
    }
}

/// The GPU that one device-query line `node, adapter RAM, driver, name`
/// describes; none without four fields or without a name.
pub open spec fn wmic_row(t: Seq<(String, GpuArchitecture)>, line: Seq<char>) -> Option<
    GpuInfoView,
> {
    let f = split_spec(line, ',');
    if f.len() < 4 || trim_spec(f[3]).len() == 0 {
        None
    } else {
        let name = trim_spec(f[3]);
        let vendor = vendor_of(lower_of(name));
        let bytes = match parse_u64_spec(trim_spec(f[1])) {
            Some(b) => b,
            None => 0,
        };
        Some(
            GpuInfoView {
                name,
                vendor,
                memory_mb: Some((bytes / 1048576) as u64),
                compute_capability: if vendor is Nvidia {
                    capability_for(t, lower_of(name))
                } else {
                    None
                },
                driver_version: if trim_spec(f[2]).len() == 0 {
                    None
                } else {
                    Some(trim_spec(f[2]))
                },
                pci_id: None,
            },
        )
    }
}

pub open spec fn wmic_rows(t: Seq<(String, GpuArchitecture)>, lines: Seq<Seq<char>>) -> Seq<
    GpuInfoView,
>
    decreases lines.len(),
{
    if lines.len() == 0 {
        Seq::<GpuInfoView>::empty()
    } else {
        let prev = wmic_rows(t, lines.drop_last());
        match wmic_row(t, lines.last()) {
            Some(g) => prev.push(g),
            None => prev,
        }
    }
}

/// The lines after a header line.
pub open spec fn after_header(lines: Seq<Seq<char>>) -> Seq<Seq<char>> {
    if lines.len() == 0 {
        lines
    } else {
        lines.drop_first()
    }
}

/// The GPU probe's parsers, with the knowledge base they look capabilities up in.
pub struct DefaultGpuDetector {
    pub registry: CompatibilityRegistry,
}

impl DefaultGpuDetector {
    /// A detector on the built-in table.
    pub fn new() -> (r: Self)
        ensures
            crate::registry::is_builtin(r.registry),
    {
        DefaultGpuDetector { registry: CompatibilityRegistry::default_builtin() }
    }

    /// A detector on a given table.
    pub fn with_registry(registry: CompatibilityRegistry) -> (r: Self)
        ensures
            r.registry == registry,
    {
        DefaultGpuDetector { registry }
    }

    /// The compute capability that the table gives a GPU name.
    pub fn get_compute_capability(&self, gpu_name: &str) -> (r: Option<(u32, u32)>)
        ensures
            r == capability_for(self.registry.gpu_architectures@, lower_of(gpu_name@)),
    {
        self.registry.get_compute_capability(gpu_name)
    }

    fn smi_line(&self, line: &Vec<char>) -> (r: Option<GpuInfo>)
        ensures
            match r {
                Some(g) => smi_row(self.registry.gpu_architectures@, line@) == Some(g@),
                None => smi_row(self.registry.gpu_architectures@, line@) is None,
            },
    {
        let pieces = split_chars(line, ',');
        if pieces.len() < 4 {
            return None;
        }
        let ghost f = csv_fields(line@);
        let n = trimmed(&pieces[0]);
        let m = trimmed(&pieces[1]);
        let d = trimmed(&pieces[2]);
        let p = trimmed(&pieces[3]);
        assert(n@ == f[0] && m@ == f[1] && d@ == f[2] && p@ == f[3]) by {
            assert(views(pieces@)[0] == pieces@[0]@);
            assert(views(pieces@)[1] == pieces@[1]@);
            assert(views(pieces@)[2] == pieces@[2]@);
            assert(views(pieces@)[3] == pieces@[3]@);
        }
        let name = string_from(&n);
        let cc = self.registry.get_compute_capability(name.as_str());
        Some(
            GpuInfo {
                name,
                vendor: GpuVendor::Nvidia,
                memory_mb: Some(
                    match parse_u64(&m) {
                        Some(v) => v,
                        None => 0,
                    },
                ),
                compute_capability: cc,
                driver_version: Some(string_from(&d)),
                pci_id: Some(string_from(&p)),
            },
        )
    }

    /// The GPUs in the status tool's `name, memory, driver, bus id` listing
    /// (CSV without header or units), one per line with four fields.
    pub fn parse_nvidia_smi_output(&self, output: &str) -> (r: Vec<GpuInfo>)
        ensures
            gpu_views(r@) == smi_rows(self.registry.gpu_architectures@, lines_spec(output@)),
    {
        let cs = chars_of(output);
        let lines = lines_of(&cs);
        let ghost t = self.registry.gpu_architectures@;
        let mut out: Vec<GpuInfo> = Vec::new();
        let mut i: usize = 0;
        while i < lines.len()
            invariant
                i <= lines@.len(),
                t == self.registry.gpu_architectures@,
                views(lines@) == lines_spec(output@),
                gpu_views(out@) == smi_rows(t, views(lines@).take(i as int)),
            decreases lines.len() - i,
        {
            assert(views(lines@).take(i + 1).drop_last() =~= views(lines@).take(i as int));
            assert(views(lines@).take(i + 1).last() == lines@[i as int]@);
            let ghost before = gpu_views(out@);
            match self.smi_line(&lines[i]) {
                Some(g) => {
                    out.push(g);
                    assert(gpu_views(out@) =~= before.push(g@));
                },
                None => {},
            }
            i += 1;
        }
        assert(views(lines@).take(lines@.len() as int) =~= views(lines@));
        out
    }

    /// One bus enumeration line, `<bus id> <class>: <description>`, as a GPU:
    /// the vendor from the description, the name after the maker's
    /// `Corporation ` or `Inc. ` up to a bracketed id. `None` without a space
    /// or without a colon after it.
    pub fn parse_lspci_line(&self, line: &str) -> (r: Option<GpuInfo>)
        ensures
            match r {
                Some(g) => lspci_row(self.registry.gpu_architectures@, line@) == Some(g@),
                None => lspci_row(self.registry.gpu_architectures@, line@) is None,
            },
    {
        let cs = chars_of(line);
        proof {
            reveal_strlit(" ");
            assert(" "@ =~= seq![' ']);
            reveal_strlit(":");
            assert(":"@ =~= seq![':']);
        }
        let sp = match find_str(&cs, " ") {
            Some(sp) => sp,
            None => {
                return None;
            },
        };
        assert(sp + 1 <= cs.len());
        let rest = slice(&cs, sp + 1, cs.len());
        let c = match find_str(&rest, ":") {
            Some(c) => c,
            None => {
                return None;
            },
        };
        let desc = slice(&rest, c + 1, rest.len());
        let desc_s = string_from(&desc);
        let lowered = lowercase(desc_s.as_str());
        let lc = chars_of(lowered.as_str());
        let vendor = classify_vendor(&lc);
        let name_chars = device_name_of(&desc);
        let name = string_from(&name_chars);
        let cc = match vendor {
            GpuVendor::Nvidia => self.registry.get_compute_capability(name.as_str()),
            _ => None,
        };
        let id = trimmed(&slice(&cs, 0, sp));
        Some(
            GpuInfo {
                name,
                vendor,
                memory_mb: None,
                compute_capability: cc,
                driver_version: None,
                pci_id: Some(string_from(&id)),
            },
        )
    }

    /// The GPUs among the bus enumeration's lines: those that mention a VGA
    /// or 3D controller (case-insensitively) and parse.
    pub fn parse_lspci_output(&self, output: &str) -> (r: Vec<GpuInfo>)
        ensures
            gpu_views(r@) == lspci_rows(self.registry.gpu_architectures@, lines_spec(output@)),
    {
        let cs = chars_of(output);
        let lines = lines_of(&cs);
        let ghost t = self.registry.gpu_architectures@;
        let mut out: Vec<GpuInfo> = Vec::new();
        let mut i: usize = 0;
        while i < lines.len()
            invariant
                i <= lines@.len(),
                t == self.registry.gpu_architectures@,
                views(lines@) == lines_spec(output@),
                gpu_views(out@) == lspci_rows(t, views(lines@).take(i as int)),
            decreases lines.len() - i,
        {
            assert(views(lines@).take(i + 1).drop_last() =~= views(lines@).take(i as int));
            assert(views(lines@).take(i + 1).last() == lines@[i as int]@);
            let ghost before = gpu_views(out@);
            let line = string_from(&lines[i]);
            let low = lowercase(line.as_str());
            let lc = chars_of(low.as_str());
            if contains_str(&lc, "vga") || contains_str(&lc, "3d") {
                match self.parse_lspci_line(line.as_str()) {
                    Some(g) => {
                        out.push(g);
                        assert(gpu_views(out@) =~= before.push(g@));
                    },
                    None => {},
                }
            }
            i += 1;
        }
        assert(views(lines@).take(lines@.len() as int) =~= views(lines@));
        out
    }

    fn wmic_line(&self, line: &Vec<char>) -> (r: Option<GpuInfo>)
        ensures
            match r {
                Some(g) => wmic_row(self.registry.gpu_architectures@, line@) == Some(g@),
                None => wmic_row(self.registry.gpu_architectures@, line@) is None,
            },
    {
        let f = split_chars(line, ',');
        if f.len() < 4 {
            return None;
        }
        assert(views(f@)[1] == f@[1]@ && views(f@)[2] == f@[2]@ && views(f@)[3] == f@[3]@);
        let n = trimmed(&f[3]);
        if n.len() == 0 {
            return None;
        }
        let mem = trimmed(&f[1]);
        let bytes = match parse_u64(&mem) {
            Some(b) => b,
            None => 0,
        };
        let d = trimmed(&f[2]);
        let driver_version = if d.len() == 0 {
            None
        } else {
            Some(string_from(&d))
        };
        let name = string_from(&n);
        let lowered = lowercase(name.as_str());
        let lc = chars_of(lowered.as_str());
        let vendor = classify_vendor(&lc);
        let cc = match vendor {
            GpuVendor::Nvidia => self.registry.get_compute_capability(name.as_str()),
            _ => None,
        };
        Some(
            GpuInfo {
                name,
                vendor,
                memory_mb: Some(bytes / 1048576),
                compute_capability: cc,
                driver_version,
                pci_id: None,
            },
        )
    }

    /// The GPUs in the Windows device query's CSV (`node, adapter RAM, driver
    /// version, name`) after its header line; memory is given in MiB.
    pub fn parse_wmic_output(&self, output: &str) -> (r: Vec<GpuInfo>)
        ensures
            gpu_views(r@) == wmic_rows(
                self.registry.gpu_architectures@,
                after_header(lines_spec(output@)),
            ),
    {
        let cs = chars_of(output);
        let lines = lines_of(&cs);
        let ghost t = self.registry.gpu_architectures@;
        let ghost body = if views(lines@).len() == 0 {
            views(lines@)
        } else {
            views(lines@).drop_first()
        };
        let mut out: Vec<GpuInfo> = Vec::new();
        if lines.len() == 0 {
            return out;
        }
        let mut i: usize = 1;
        assert(views(lines@).subrange(1, 1) =~= Seq::<Seq<char>>::empty());
        while i < lines.len()
            invariant
                1 <= i <= lines@.len(),
                t == self.registry.gpu_architectures@,
                views(lines@) == lines_spec(output@),
                gpu_views(out@) == wmic_rows(t, views(lines@).subrange(1, i as int)),
            decreases lines.len() - i,
        {
            assert(views(lines@).subrange(1, i + 1).drop_last() =~= views(lines@).subrange(
                1,
                i as int,
            ));
            assert(views(lines@).subrange(1, i + 1).last() == lines@[i as int]@);
            let ghost before = gpu_views(out@);
            match self.wmic_line(&lines[i]) {
                Some(g) => {
                    out.push(g);
                    assert(gpu_views(out@) =~= before.push(g@));
                },
                None => {},
            }
            i += 1;
        }
        assert(views(lines@).subrange(1, lines@.len() as int) =~= views(lines@).drop_first());
        out
    }

    /// The vendor of a description and the text after its first colon,
    /// trimmed (empty where there is no colon).
    pub fn parse_gpu_description(description: &str) -> (r: (GpuVendor, String))
        ensures
            r.0@ == vendor_of(lower_of(description@)),
            r.1@ == match first_index(description@, seq![':']) {
                Some(c) => trim_spec(description@.subrange(c + 1, description@.len() as int)),
                None => Seq::<char>::empty(),
            },
    {
        let lowered = lowercase(description);
        let lc = chars_of(lowered.as_str());
        let vendor = classify_vendor(&lc);
        let cs = chars_of(description);
        proof {
            reveal_strlit(":");
            assert(":"@ =~= seq![':']);
        }
        let name = match find_str(&cs, ":") {
            Some(c) => {
                assert(c + 1 <= cs.len());
                let after = slice(&cs, c + 1, cs.len());
                string_from(&trimmed(&after))
            },
            None => String::new(),
        };
        (vendor, name)
    }
}

fn before_bracket_of(d: &Vec<char>) -> (r: Vec<char>)
    ensures
        r@ == before_bracket(d@),
{
    match find_str(d, " [") {
        Some(e) => trimmed(&slice(d, 0, e)),
        None => trimmed(d),
    }
}

fn device_name_of(desc: &Vec<char>) -> (r: Vec<char>)
    ensures
        r@ == device_name(desc@),
{
    let corp = chars_of("Corporation ");
    match find_str(desc, "Corporation ") {
        Some(s) => {
            assert(s + corp.len() <= desc.len());
            before_bracket_of(&slice(desc, s + corp.len(), desc.len()))
        },
        None => {
            let inc = chars_of("Inc. ");
            match find_str(desc, "Inc. ") {
                Some(s) => {
                    assert(s + inc.len() <= desc.len());
                    before_bracket_of(&slice(desc, s + inc.len(), desc.len()))
                },
                None => before_bracket_of(desc),
            }
        },
    }
}


/// The GPUs among `gs` made by the CUDA-capable maker, in order.
pub open spec fn nvidia_views(gs: Seq<GpuInfoView>) -> Seq<GpuInfoView>
    decreases gs.len(),
{
    if gs.len() == 0 {
        gs
    } else if gs.last().vendor is Nvidia {
        nvidia_views(gs.drop_last()).push(gs.last())
    } else {
        nvidia_views(gs.drop_last())
    }
}

impl DefaultGpuDetector {
    /// Keeps the GPUs made by the CUDA-capable maker, in order.
    pub fn nvidia_only(gpus: Vec<GpuInfo>) -> (r: Vec<GpuInfo>)
        ensures
            gpu_views(r@) == nvidia_views(gpu_views(gpus@)),
    {
        let mut out: Vec<GpuInfo> = Vec::new();
        let mut i: usize = 0;
        while i < gpus.len()
            invariant
                i <= gpus@.len(),
                gpu_views(out@) == nvidia_views(gpu_views(gpus@).take(i as int)),
            decreases gpus.len() - i,
        {
            assert(gpu_views(gpus@).take(i + 1).drop_last() =~= gpu_views(gpus@).take(i as int));
            assert(gpu_views(gpus@).take(i + 1).last() == gpus@[i as int]@);
            let ghost before = gpu_views(out@);
            match gpus[i].vendor {
                GpuVendor::Nvidia => {
                    let g = gpus[i].clone();
                    out.push(g);
                    assert(gpu_views(out@) =~= before.push(gpus@[i as int]@));
                },
                _ => {},
            }
            i += 1;
        }
        assert(gpu_views(gpus@).take(gpus@.len() as int) =~= gpu_views(gpus@));
        out
    }
}

} // verus!
