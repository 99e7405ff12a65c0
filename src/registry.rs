//! The compatibility knowledge base: GPU models to compute capability, driver
//! versions to the newest toolkit they run, and the cascade that picks the
//! table in use (a fresh cache, else the built-in one).
use vstd::prelude::*;
use crate::version::{compare_from, compare_spec, longer_len, numeric_pieces, part_at, version_parts};
use crate::text::{
    chars_of, contains, contains_spec, decimal, lowercase, lower_of, push_decimal,
    push_char, split_chars, split_spec, unsigned_text, unsigned_value_capped, views,
};

verus! {

/// The only schema version of the table's document that is understood.
pub const SUPPORTED_SCHEMA_VERSION: u32 = 1;

/// A cached table at least this old (in seconds, 30 days) is not used.
pub const CACHE_MAX_AGE_SECS: u64 = 2592000;

/// When the built-in table was last revised, in seconds since the Unix epoch.
pub const BUILTIN_LAST_UPDATED: i64 = 1735689600;

/// What a GPU model family is known to be.
#[derive(Debug, PartialEq)]
pub struct GpuArchitecture {
    pub name: String,
    pub architecture: String,
    pub compute_capability: (u32, u32),
    pub min_driver_version: Option<String>,
}

/// Drivers whose major number is at least `min_driver` run toolkits up to
/// `max_toolkit` (major, minor).
#[derive(Debug, Clone, Copy, PartialEq, Eq)]
pub struct DriverToolkitEntry {
    pub min_driver: u32,
    pub max_toolkit: (u32, u32),
}

/// The knowledge base. `gpu_architectures` maps a lower-cased model substring
/// to its family; `driver_cuda_map` is ordered newest first.
#[derive(Debug, Clone, PartialEq)]
pub struct CompatibilityRegistry {
    pub schema_version: u32,
    pub last_updated: i64,
    pub source: String,
    pub gpu_architectures: Vec<(String, GpuArchitecture)>,
    pub driver_cuda_map: Vec<DriverToolkitEntry>,
}

/// Why a table was refused.
#[derive(Debug, Clone, PartialEq)]
pub enum RegistryError {
    /// The document could not be read or parsed.
    Parse(String),
    /// The document's schema version is not the supported one.
    UnsupportedSchema(u32),
    /// One of the two tables is empty.
    Empty,
    /// The driver table is not ordered newest first.
    Unordered,
    /// The remote table could not be fetched.
    Network(String),
}

pub open spec fn opt_view(o: Option<String>) -> Option<Seq<char>> {
    match o {
        Some(s) => Some(s@),
        None => None,
    }
}

/// A copy of an optional string.
pub fn clone_opt(o: &Option<String>) -> (r: Option<String>)
    ensures
        opt_view(r) == opt_view(*o),
{
    match o {
        Some(s) => Some(s.clone()),
        None => None,
    }
}

impl Clone for GpuArchitecture {
    fn clone(&self) -> (r: Self)
        ensures
            r.name@ == self.name@,
            r.architecture@ == self.architecture@,
            r.compute_capability == self.compute_capability,
            opt_view(r.min_driver_version) == opt_view(self.min_driver_version),
    {
        GpuArchitecture {
            name: self.name.clone(),
            architecture: self.architecture.clone(),
            compute_capability: self.compute_capability,
            min_driver_version: clone_opt(&self.min_driver_version),
        }
    }
}

/// One GPU row: key, name, architecture, capability, minimum driver.
pub open spec fn gpu_row(e: (String, GpuArchitecture)) -> (
    Seq<char>,
    Seq<char>,
    Seq<char>,
    (u32, u32),
    Option<Seq<char>>,
) {
    (e.0@, e.1.name@, e.1.architecture@, e.1.compute_capability, opt_view(e.1.min_driver_version))
}

pub open spec fn gpu_rows(t: Seq<(String, GpuArchitecture)>) -> Seq<
    (Seq<char>, Seq<char>, Seq<char>, (u32, u32), Option<Seq<char>>),
> {
    t.map_values(|e: (String, GpuArchitecture)| gpu_row(e))
}

pub open spec fn driver_rows(t: Seq<DriverToolkitEntry>) -> Seq<(u32, (u32, u32))> {
    t.map_values(|e: DriverToolkitEntry| (e.min_driver, e.max_toolkit))
}

/// The GPU rows of the built-in table.
pub open spec fn builtin_gpu_rows() -> Seq<
    (Seq<char>, Seq<char>, Seq<char>, (u32, u32), Option<Seq<char>>),
> {
    seq![
        ("rtx 4090"@, "rtx 4090"@, "Ada Lovelace"@, (8u32, 9u32), Some("520.00"@)),
        ("rtx 4080"@, "rtx 4080"@, "Ada Lovelace"@, (8u32, 9u32), Some("520.00"@)),
        ("rtx 4070"@, "rtx 4070"@, "Ada Lovelace"@, (8u32, 9u32), Some("520.00"@)),
        ("rtx 4060"@, "rtx 4060"@, "Ada Lovelace"@, (8u32, 9u32), Some("520.00"@)),
        ("rtx 3090"@, "rtx 3090"@, "Ampere"@, (8u32, 6u32), Some("450.00"@)),
        ("rtx 3080"@, "rtx 3080"@, "Ampere"@, (8u32, 6u32), Some("450.00"@)),
        ("rtx 3070"@, "rtx 3070"@, "Ampere"@, (8u32, 6u32), Some("450.00"@)),
        ("rtx 3060"@, "rtx 3060"@, "Ampere"@, (8u32, 6u32), Some("450.00"@)),
        ("rtx 3050"@, "rtx 3050"@, "Ampere"@, (8u32, 6u32), Some("450.00"@)),
        ("rtx 2080"@, "rtx 2080"@, "Turing"@, (7u32, 5u32), Some("410.00"@)),
        ("rtx 2070"@, "rtx 2070"@, "Turing"@, (7u32, 5u32), Some("410.00"@)),
        ("rtx 2060"@, "rtx 2060"@, "Turing"@, (7u32, 5u32), Some("410.00"@)),
        ("quadro rtx"@, "quadro rtx"@, "Turing"@, (7u32, 5u32), Some("410.00"@)),
        ("gtx 1660"@, "gtx 1660"@, "Turing"@, (7u32, 5u32), Some("418.00"@)),
        ("gtx 1650"@, "gtx 1650"@, "Turing"@, (7u32, 5u32), Some("418.00"@)),
        ("gtx 1630"@, "gtx 1630"@, "Turing"@, (7u32, 5u32), Some("418.00"@)),
        ("gtx 1080"@, "gtx 1080"@, "Pascal"@, (6u32, 1u32), Some("367.00"@)),
        ("gtx 1070"@, "gtx 1070"@, "Pascal"@, (6u32, 1u32), Some("367.00"@)),
        ("gtx 1060"@, "gtx 1060"@, "Pascal"@, (6u32, 1u32), Some("367.00"@)),
        ("gtx 1050"@, "gtx 1050"@, "Pascal"@, (6u32, 1u32), Some("367.00"@)),
        ("titan xp"@, "titan xp"@, "Pascal"@, (6u32, 1u32), Some("367.00"@)),
        ("tesla v100"@, "Tesla V100"@, "Volta"@, (7u32, 0u32), None),
    ]
}

/// The driver rows of the built-in table, newest first.
pub open spec fn builtin_driver_rows() -> Seq<(u32, (u32, u32))> {
    seq![
        (570u32, (12u32, 8u32)),
        (560u32, (12u32, 6u32)),
        (550u32, (12u32, 4u32)),
        (545u32, (12u32, 3u32)),
        (535u32, (12u32, 2u32)),
        (530u32, (12u32, 1u32)),
        (525u32, (12u32, 0u32)),
        (520u32, (11u32, 8u32)),
        (515u32, (11u32, 7u32)),
        (470u32, (11u32, 4u32)),
        (460u32, (11u32, 2u32)),
        (450u32, (11u32, 0u32)),
    ]
}

/// `r` holds the built-in table.
pub open spec fn is_builtin(r: CompatibilityRegistry) -> bool {
    &&& r.schema_version == SUPPORTED_SCHEMA_VERSION
    &&& r.last_updated == BUILTIN_LAST_UPDATED
    &&& r.source@ == "built-in"@
    &&& gpu_rows(r.gpu_architectures@) == builtin_gpu_rows()
    &&& driver_rows(r.driver_cuda_map@) == builtin_driver_rows()
}

/// `a` is no newer than `b` (major, then minor).
pub open spec fn pair_le(a: (u32, u32), b: (u32, u32)) -> bool {
    a.0 < b.0 || (a.0 == b.0 && a.1 <= b.1)
}

/// Row `j` has a smaller driver number than row `i` and no newer toolkit.
pub open spec fn rows_ordered(t: Seq<DriverToolkitEntry>, i: int, j: int) -> bool {
    t[j].min_driver < t[i].min_driver && pair_le(t[j].max_toolkit, t[i].max_toolkit)
}

/// Newest first: later rows have smaller driver numbers and no newer toolkit.
pub open spec fn driver_table_ordered(t: Seq<DriverToolkitEntry>) -> bool {
    forall|i: int, j: int| 0 <= i < j < t.len() ==> #[trigger] rows_ordered(t, i, j)
}

/// The first driver row, from `i` on, whose driver number is at most `n`.
pub open spec fn toolkit_index(t: Seq<DriverToolkitEntry>, n: nat, i: nat) -> Option<nat>
    decreases t.len() - i,
{
    if i >= t.len() {
        None
    } else if t[i as int].min_driver <= n {
        Some(i)
    } else {
        toolkit_index(t, n, i + 1)
    }
}

/// The newest toolkit that a driver of major number `n` runs.
pub open spec fn toolkit_for(t: Seq<DriverToolkitEntry>, n: nat) -> Option<(u32, u32)> {
    match toolkit_index(t, n, 0) {
        Some(i) => Some(t[i as int].max_toolkit),
        None => None,
    }
}

/// The leading number of a driver version such as `525.60.13`; zero where it
/// is no number.
pub open spec fn driver_major(d: Seq<char>) -> nat {
    match unsigned_text(split_spec(d, '.')[0]) {
        Some(v) => v,
        None => 0,
    }
}

/// A toolkit version written `major.minor`.
pub open spec fn toolkit_text(v: (u32, u32)) -> Seq<char> {
    decimal(v.0 as nat).push('.') + decimal(v.1 as nat)
}

/// No result, or one no newer than the other.
pub open spec fn toolkit_le(a: Option<(u32, u32)>, b: Option<(u32, u32)>) -> bool {
    match (a, b) {
        (None, _) => true,
        (Some(_), None) => false,
        (Some(x), Some(y)) => pair_le(x, y),
    }
}

/// The first row, from `i` on, whose key is exactly `m`.
pub open spec fn exact_index(t: Seq<(String, GpuArchitecture)>, m: Seq<char>, i: nat) -> Option<
    nat,
>
    decreases t.len() - i,
{
    if i >= t.len() {
        None
    } else if t[i as int].0@ == m {
        Some(i)
    } else {
        exact_index(t, m, i + 1)
    }
}

/// Among rows `0..i`, the first of those with the longest key that occurs in `m`.
pub open spec fn longest_index(t: Seq<(String, GpuArchitecture)>, m: Seq<char>, i: nat) -> Option<
    nat,
>
    decreases i,
{
    if i == 0 {
        None
    } else {
        let prev = longest_index(t, m, (i - 1) as nat);
        let k = (i - 1) as nat;
        if k < t.len() && contains_spec(m, t[k as int].0@) && match prev {
            None => true,
            Some(p) => t[k as int].0@.len() > t[p as int].0@.len(),
        } {
            Some(k)
        } else {
            prev
        }
    }
}

/// The row that a lower-cased model name selects: an exact key first, else the
/// longest key that occurs in it (the first such row on a tie).
pub open spec fn capability_index(t: Seq<(String, GpuArchitecture)>, m: Seq<char>) -> Option<nat> {
    match exact_index(t, m, 0) {
        Some(i) => Some(i),
        None => longest_index(t, m, t.len()),
    }
}

pub open spec fn capability_for(t: Seq<(String, GpuArchitecture)>, m: Seq<char>) -> Option<
    (u32, u32),
> {
    match capability_index(t, m) {
        Some(i) => Some(t[i as int].1.compute_capability),
        None => None,
    }
}

impl CompatibilityRegistry {
    /// A table that lookups may use: the supported schema, both tables
    /// non-empty, the driver table newest first.
    pub open spec fn wf(&self) -> bool {
        &&& self.schema_version == SUPPORTED_SCHEMA_VERSION
        &&& self.gpu_architectures@.len() > 0
        &&& self.driver_cuda_map@.len() > 0
        &&& driver_table_ordered(self.driver_cuda_map@)
    }

    /// The built-in table.
    pub fn new() -> (r: Self)
        ensures
            is_builtin(r),
            r.wf(),
    {
        Self::default_builtin()
    }

    /// The table compiled into the library.
    pub fn default_builtin() -> (r: Self)
        ensures
            is_builtin(r),
            r.wf(),
    {
        let mut g: Vec<(String, GpuArchitecture)> = Vec::new();
        g.push(arch_entry("rtx 4090", "rtx 4090", "Ada Lovelace", 8, 9, Some("520.00")));
        g.push(arch_entry("rtx 4080", "rtx 4080", "Ada Lovelace", 8, 9, Some("520.00")));
        g.push(arch_entry("rtx 4070", "rtx 4070", "Ada Lovelace", 8, 9, Some("520.00")));
        g.push(arch_entry("rtx 4060", "rtx 4060", "Ada Lovelace", 8, 9, Some("520.00")));
        g.push(arch_entry("rtx 3090", "rtx 3090", "Ampere", 8, 6, Some("450.00")));
        g.push(arch_entry("rtx 3080", "rtx 3080", "Ampere", 8, 6, Some("450.00")));
        g.push(arch_entry("rtx 3070", "rtx 3070", "Ampere", 8, 6, Some("450.00")));
        g.push(arch_entry("rtx 3060", "rtx 3060", "Ampere", 8, 6, Some("450.00")));
        g.push(arch_entry("rtx 3050", "rtx 3050", "Ampere", 8, 6, Some("450.00")));
        g.push(arch_entry("rtx 2080", "rtx 2080", "Turing", 7, 5, Some("410.00")));
        g.push(arch_entry("rtx 2070", "rtx 2070", "Turing", 7, 5, Some("410.00")));
        g.push(arch_entry("rtx 2060", "rtx 2060", "Turing", 7, 5, Some("410.00")));
        g.push(arch_entry("quadro rtx", "quadro rtx", "Turing", 7, 5, Some("410.00")));
        g.push(arch_entry("gtx 1660", "gtx 1660", "Turing", 7, 5, Some("418.00")));
        g.push(arch_entry("gtx 1650", "gtx 1650", "Turing", 7, 5, Some("418.00")));
        g.push(arch_entry("gtx 1630", "gtx 1630", "Turing", 7, 5, Some("418.00")));
        g.push(arch_entry("gtx 1080", "gtx 1080", "Pascal", 6, 1, Some("367.00")));
        g.push(arch_entry("gtx 1070", "gtx 1070", "Pascal", 6, 1, Some("367.00")));
        g.push(arch_entry("gtx 1060", "gtx 1060", "Pascal", 6, 1, Some("367.00")));
        g.push(arch_entry("gtx 1050", "gtx 1050", "Pascal", 6, 1, Some("367.00")));
        g.push(arch_entry("titan xp", "titan xp", "Pascal", 6, 1, Some("367.00")));
        g.push(arch_entry("tesla v100", "Tesla V100", "Volta", 7, 0, None));
        assert(gpu_rows(g@) =~= builtin_gpu_rows());
        let mut d: Vec<DriverToolkitEntry> = Vec::new();
        d.push(DriverToolkitEntry { min_driver: 570, max_toolkit: (12, 8) });
        d.push(DriverToolkitEntry { min_driver: 560, max_toolkit: (12, 6) });
        d.push(DriverToolkitEntry { min_driver: 550, max_toolkit: (12, 4) });
        d.push(DriverToolkitEntry { min_driver: 545, max_toolkit: (12, 3) });
        d.push(DriverToolkitEntry { min_driver: 535, max_toolkit: (12, 2) });
        d.push(DriverToolkitEntry { min_driver: 530, max_toolkit: (12, 1) });
        d.push(DriverToolkitEntry { min_driver: 525, max_toolkit: (12, 0) });
        d.push(DriverToolkitEntry { min_driver: 520, max_toolkit: (11, 8) });
        d.push(DriverToolkitEntry { min_driver: 515, max_toolkit: (11, 7) });
        d.push(DriverToolkitEntry { min_driver: 470, max_toolkit: (11, 4) });
        d.push(DriverToolkitEntry { min_driver: 460, max_toolkit: (11, 2) });
        d.push(DriverToolkitEntry { min_driver: 450, max_toolkit: (11, 0) });
        assert(driver_rows(d@) =~= builtin_driver_rows());
        let r = CompatibilityRegistry {
            schema_version: SUPPORTED_SCHEMA_VERSION,
            last_updated: BUILTIN_LAST_UPDATED,
            source: String::from_str("built-in"),
            gpu_architectures: g,
            driver_cuda_map: d,
        };
        assert(driver_table_ordered(r.driver_cuda_map@)) by {
            assert forall|i: int, j: int| 0 <= i < j < r.driver_cuda_map@.len() implies
                #[trigger] rows_ordered(r.driver_cuda_map@, i, j) by {
                assert(driver_rows(r.driver_cuda_map@)[i] == builtin_driver_rows()[i]);
                assert(driver_rows(r.driver_cuda_map@)[j] == builtin_driver_rows()[j]);
            }
        }
        r
    }

    /// The compute capability of the row that the lower-cased name `lowered`
    /// selects: an exact key, else the longest key that occurs in it.
    pub fn lookup_lowered(&self, lowered: &str) -> (r: Option<(u32, u32)>)
        ensures
            r == capability_for(self.gpu_architectures@, lowered@),
    {
        let t = &self.gpu_architectures;
        let m = String::from_str(lowered);
        let mut i: usize = 0;
        while i < t.len()
            invariant
                i <= t@.len(),
                t@ == self.gpu_architectures@,
                m@ == lowered@,
                exact_index(t@, lowered@, 0) == exact_index(t@, lowered@, i as nat),
            decreases t.len() - i,
        {
            if t[i].0 == m {
                assert(t@[i as int].0@ == lowered@);
                assert(exact_index(t@, lowered@, i as nat) == Some(i as nat));
                return Some(t[i].1.compute_capability);
            }
            i += 1;
        }
        let mc = chars_of(lowered);
        let mut best: Option<usize> = None;
        let mut best_len: usize = 0;
        let mut k: usize = 0;
        while k < t.len()
            invariant
                k <= t@.len(),
                t@ == self.gpu_architectures@,
                mc@ == lowered@,
                exact_index(t@, lowered@, 0) is None,
                match best {
                    Some(b) => longest_index(t@, lowered@, k as nat) == Some(b as nat) && b < k
                        && best_len == t@[b as int].0@.len(),
                    None => longest_index(t@, lowered@, k as nat) is None,
                },
            decreases t.len() - k,
        {
            let key = chars_of(t[k].0.as_str());
            let hit = contains(&mc, &key);
            let longer = match best {
                None => true,
                Some(_) => key.len() > best_len,
            };
            if hit && longer {
                best = Some(k);
                best_len = key.len();
            }
            k += 1;
        }
        match best {
            Some(b) => Some(t[b].1.compute_capability),
            None => None,
        }
    }

    /// The compute capability of a GPU model, matched case-insensitively: an
    /// exact key first, else the longest key that occurs in the name.
    pub fn get_compute_capability(&self, model: &str) -> (r: Option<(u32, u32)>)
        ensures
            r == capability_for(self.gpu_architectures@, lower_of(model@)),
    {
        let l = lowercase(model);
        self.lookup_lowered(l.as_str())
    }

    /// The newest toolkit that a driver of major number `major` runs: the
    /// first row (newest first) whose driver number is at most `major`.
    pub fn max_toolkit_for_major(&self, major: u64) -> (r: Option<(u32, u32)>)
        ensures
            r == toolkit_for(self.driver_cuda_map@, major as nat),
    {
        let t = &self.driver_cuda_map;
        let mut i: usize = 0;
        while i < t.len()
            invariant
                i <= t@.len(),
                t@ == self.driver_cuda_map@,
                toolkit_index(t@, major as nat, 0) == toolkit_index(t@, major as nat, i as nat),
            decreases t.len() - i,
        {
            if t[i].min_driver as u64 <= major {
                assert(toolkit_index(t@, major as nat, i as nat) == Some(i as nat));
                return Some(t[i].max_toolkit);
            }
            i += 1;
        }
        None
    }

    /// The newest toolkit version that a driver version supports, written
    /// `major.minor`; `None` for a driver older than every row.
    pub fn get_max_cuda_version(&self, driver_version: &str) -> (r: Option<String>)
        ensures
            opt_view(r) == match toolkit_for(self.driver_cuda_map@, driver_major(driver_version@)) {
                Some(v) => Some(toolkit_text(v)),
                None => None,
            },
    {
        let major = driver_major_capped(driver_version);
        proof {
            lemma_toolkit_capped(self.driver_cuda_map@, driver_major(driver_version@), 0);
        }
        match self.max_toolkit_for_major(major) {
            Some(v) => Some(toolkit_version_string(v)),
            None => None,
        }
    }
}

/// `major.minor` as text.
pub fn toolkit_version_string(v: (u32, u32)) -> (r: String)
    ensures
        r@ == toolkit_text(v),
{
    let mut s = String::new();
    push_decimal(&mut s, v.0 as u64);
    push_char(&mut s, '.');
    push_decimal(&mut s, v.1 as u64);
    assert(s@ =~= toolkit_text(v));
    s
}

/// The leading number of a driver version, capped at `u64::MAX`.
pub fn driver_major_capped(d: &str) -> (r: u64)
    ensures
        r == if driver_major(d@) > u64::MAX {
            u64::MAX as nat
        } else {
            driver_major(d@)
        },
{
    let cs = chars_of(d);
    let pieces = split_chars(&cs, '.');
    proof {
        crate::text::lemma_split_nonempty(d@, '.');
    }
    assert(views(pieces@)[0] == pieces@[0]@);
    match unsigned_value_capped(&pieces[0]) {
        Some(v) => v,
        None => 0,
    }
}

/// Row thresholds are `u32`, so a capped major number selects the same row.
proof fn lemma_toolkit_capped(t: Seq<DriverToolkitEntry>, n: nat, i: nat)
    ensures
        toolkit_index(t, n, i) == toolkit_index(
            t,
            if n > u64::MAX {
                u64::MAX as nat
            } else {
                n
            },
            i,
        ),
    decreases t.len() - i,
{
    if i < t.len() {
        lemma_toolkit_capped(t, n, i + 1);
    }
}

fn arch_entry(
    key: &str,
    name: &str,
    architecture: &str,
    major: u32,
    minor: u32,
    min_driver: Option<&str>,
) -> (r: (String, GpuArchitecture))
    ensures
        gpu_row(r) == (key@, name@, architecture@, (major, minor), match min_driver {
            Some(s) => Some(s@),
            None => None,
        }),
{
    let md = match min_driver {
        Some(s) => Some(String::from_str(s)),
        None => None,
    };
    (
        String::from_str(key),
        GpuArchitecture {
            name: String::from_str(name),
            architecture: String::from_str(architecture),
            compute_capability: (major, minor),
            min_driver_version: md,
        },
    )
}


/// The driver table is newest first.
pub fn is_driver_table_ordered(t: &Vec<DriverToolkitEntry>) -> (r: bool)
    ensures
        r == driver_table_ordered(t@),
{
    let mut i: usize = 0;
    while i < t.len()
        invariant
            i <= t@.len(),
            forall|a: int, b: int| 0 <= a < i && a < b < t@.len() ==> #[trigger] rows_ordered(t@, a, b),
        decreases t.len() - i,
    {
        let mut j: usize = i + 1;
        while j < t.len()
            invariant
                i < t@.len(),
                i + 1 <= j <= t@.len(),
                forall|a: int, b: int| 0 <= a < i && a < b < t@.len() ==> #[trigger] rows_ordered(t@, a, b),
                forall|b: int| i < b < j ==> #[trigger] rows_ordered(t@, i as int, b),
            decreases t.len() - j,
        {
            let x = t[i];
            let y = t[j];
            let le = y.max_toolkit.0 < x.max_toolkit.0 || (y.max_toolkit.0 == x.max_toolkit.0
                && y.max_toolkit.1 <= x.max_toolkit.1);
            if !(y.min_driver < x.min_driver && le) {
                assert(!rows_ordered(t@, i as int, j as int));
                return false;
            }
            j += 1;
        }
        i += 1;
    }
    true
}

/// Accepts a table only where lookups may use it: `UnsupportedSchema` for
/// another schema version, else `Empty` where a table is empty, else
/// `Unordered` where the driver table is not newest first.
pub fn validate(reg: CompatibilityRegistry) -> (r: Result<CompatibilityRegistry, RegistryError>)
    ensures
        reg.schema_version != SUPPORTED_SCHEMA_VERSION ==> r == Err::<
            CompatibilityRegistry,
            RegistryError,
        >(RegistryError::UnsupportedSchema(reg.schema_version)),
        reg.schema_version == SUPPORTED_SCHEMA_VERSION && (reg.gpu_architectures@.len() == 0
            || reg.driver_cuda_map@.len() == 0) ==> r == Err::<
            CompatibilityRegistry,
            RegistryError,
        >(RegistryError::Empty),
        reg.schema_version == SUPPORTED_SCHEMA_VERSION && reg.gpu_architectures@.len() > 0
            && reg.driver_cuda_map@.len() > 0 && !driver_table_ordered(reg.driver_cuda_map@)
            ==> r == Err::<CompatibilityRegistry, RegistryError>(RegistryError::Unordered),
        reg.wf() ==> r == Ok::<CompatibilityRegistry, RegistryError>(reg),
{
    if reg.schema_version != SUPPORTED_SCHEMA_VERSION {
        return Err(RegistryError::UnsupportedSchema(reg.schema_version));
    }
    if reg.gpu_architectures.len() == 0 || reg.driver_cuda_map.len() == 0 {
        return Err(RegistryError::Empty);
    }
    if !is_driver_table_ordered(&reg.driver_cuda_map) {
        return Err(RegistryError::Unordered);
    }
    Ok(reg)
}

/// A cached table that is well formed and younger than `CACHE_MAX_AGE_SECS` is used.
pub open spec fn cache_usable(cache: CompatibilityRegistry, cache_age_secs: u64) -> bool {
    cache_age_secs < CACHE_MAX_AGE_SECS && cache.wf()
}

/// The table in use: the cached one (read from disk, `cache_age_secs` old)
/// where it is well formed and younger than 30 days, else the built-in one.
pub fn load_registry(cache: Option<CompatibilityRegistry>, cache_age_secs: u64) -> (r:
    CompatibilityRegistry)
    ensures
        r.wf(),
        match cache {
            Some(c) => if cache_usable(c, cache_age_secs) {
                r == c
            } else {
                is_builtin(r)
            },
            None => is_builtin(r),
        },
{
    match cache {
        Some(c) => {
            if cache_age_secs < CACHE_MAX_AGE_SECS {
                match validate(c) {
                    Ok(v) => v,
                    Err(_) => CompatibilityRegistry::default_builtin(),
                }
            } else {
                CompatibilityRegistry::default_builtin()
            }
        },
        None => CompatibilityRegistry::default_builtin(),
    }
}

impl CompatibilityRegistry {
    /// Takes a fetched table in place of this one where it is valid and newer.
    /// Returns whether it was taken (and the cache should be rewritten); a
    /// table that `validate` refuses leaves this one as it was, with that error.
    pub fn apply_remote_update(&mut self, fetched: CompatibilityRegistry) -> (r: Result<
        bool,
        RegistryError,
    >)
        requires
            old(self).wf(),
        ensures
            final(self).wf(),
            !fetched.wf() ==> *final(self) == *old(self) && r is Err && r == validate_error(
                fetched,
            ),
            fetched.wf() && fetched.last_updated > old(self).last_updated ==> *final(self)
                == fetched && r == Ok::<bool, RegistryError>(true),
            fetched.wf() && fetched.last_updated <= old(self).last_updated ==> *final(self)
                == *old(self) && r == Ok::<bool, RegistryError>(false),
    {
        let newer = fetched.last_updated > self.last_updated;
        match validate(fetched) {
            Ok(v) => {
                if newer {
                    *self = v;
                    Ok(true)
                } else {
                    Ok(false)
                }
            },
            Err(e) => Err(e),
        }
    }
}

/// The error that `validate` gives a table that is not well formed.
pub open spec fn validate_error(reg: CompatibilityRegistry) -> Result<bool, RegistryError> {
    if reg.schema_version != SUPPORTED_SCHEMA_VERSION {
        Err(RegistryError::UnsupportedSchema(reg.schema_version))
    } else if reg.gpu_architectures@.len() == 0 || reg.driver_cuda_map@.len() == 0 {
        Err(RegistryError::Empty)
    } else {
        Err(RegistryError::Unordered)
    }
}

proof fn lemma_toolkit_index(t: Seq<DriverToolkitEntry>, n: nat, i: nat)
    ensures
        match toolkit_index(t, n, i) {
            Some(k) => i <= k < t.len() && t[k as int].min_driver <= n && forall|j: int|
                i <= j < k ==> t[j].min_driver > n,
            None => forall|j: int| i <= j < t.len() ==> t[j].min_driver > n,
        },
    decreases t.len() - i,
{
    if i < t.len() {
        lemma_toolkit_index(t, n, i + 1);
    }
}

/// A newer driver never runs an older toolkit: for a well-formed table, the
/// toolkit found for a driver major number does not fall as the number rises,
/// and a driver that finds one keeps finding one.
pub proof fn lemma_toolkit_monotone(reg: CompatibilityRegistry, d1: Seq<char>, d2: Seq<char>)
    requires
        reg.wf(),
        driver_major(d1) <= driver_major(d2),
    ensures
        toolkit_le(
            toolkit_for(reg.driver_cuda_map@, driver_major(d1)),
            toolkit_for(reg.driver_cuda_map@, driver_major(d2)),
        ),
{
    let t = reg.driver_cuda_map@;
    let n1 = driver_major(d1);
    let n2 = driver_major(d2);
    lemma_toolkit_index(t, n1, 0);
    lemma_toolkit_index(t, n2, 0);
    match toolkit_index(t, n1, 0) {
        Some(k1) => {
            match toolkit_index(t, n2, 0) {
                Some(k2) => {
                    assert(k2 <= k1);
                    if k2 < k1 {
                        assert(rows_ordered(t, k2 as int, k1 as int));
                    }
                },
                None => {
                    assert(t[k1 as int].min_driver > n2);
                },
            }
        },
        None => {},
    }
}

proof fn lemma_exact_index(t: Seq<(String, GpuArchitecture)>, m: Seq<char>, i: nat)
    ensures
        match exact_index(t, m, i) {
            Some(k) => i <= k < t.len() && t[k as int].0@ == m && forall|j: int|
                i <= j < k ==> t[j].0@ != m,
            None => forall|j: int| i <= j < t.len() ==> t[j].0@ != m,
        },
    decreases t.len() - i,
{
    if i < t.len() {
        lemma_exact_index(t, m, i + 1);
    }
}

proof fn lemma_longest_index(t: Seq<(String, GpuArchitecture)>, m: Seq<char>, i: nat)
    requires
        i <= t.len(),
    ensures
        match longest_index(t, m, i) {
            Some(b) => b < i && contains_spec(m, t[b as int].0@) && forall|j: int|
                0 <= j < i && contains_spec(m, #[trigger] t[j].0@) ==> t[j].0@.len() <= t[b as int].0@.len(),
            None => forall|j: int| 0 <= j < i ==> !contains_spec(m, #[trigger] t[j].0@),
        },
    decreases i,
{
    if i > 0 {
        lemma_longest_index(t, m, (i - 1) as nat);
    }
}

proof fn lemma_contains_self(m: Seq<char>)
    ensures
        contains_spec(m, m),
{
    reveal(contains_spec);
    assert(m.subrange(0, m.len() as int) =~= m);
    assert(crate::text::occurs_at(m, m, 0));
}

/// A lower-cased name `m` in which the key of row `k` occurs, where every other
/// key that occurs in `m` is shorter, gets the capability of row `k`: the same
/// as the exact lookup of that key.
pub proof fn lemma_longest_key_wins(reg: CompatibilityRegistry, m: Seq<char>, k: int)
    requires
        0 <= k < reg.gpu_architectures@.len(),
        contains_spec(m, reg.gpu_architectures@[k].0@),
        forall|j: int|
            0 <= j < reg.gpu_architectures@.len() && j != k && contains_spec(
                m,
                #[trigger] reg.gpu_architectures@[j].0@,
            ) ==> reg.gpu_architectures@[j].0@.len() < reg.gpu_architectures@[k].0@.len(),
    ensures
        capability_for(reg.gpu_architectures@, m) == Some(
            reg.gpu_architectures@[k].1.compute_capability,
        ),
        capability_for(reg.gpu_architectures@, reg.gpu_architectures@[k].0@) == capability_for(
            reg.gpu_architectures@,
            m,
        ),
{
    let t = reg.gpu_architectures@;
    let key = t[k].0@;
    lemma_exact_index(t, m, 0);
    lemma_exact_index(t, key, 0);
    lemma_longest_index(t, m, t.len());
    lemma_contains_self(m);
    lemma_contains_self(key);
    reveal(contains_spec);
    let w = choose|w: int| crate::text::occurs_at(m, key, w);
    assert(key.len() <= m.len());
    match exact_index(t, m, 0) {
        Some(j) => {
            assert(t[j as int].0@ == m);
            if j != k {
                assert(contains_spec(m, t[j as int].0@));
            }
        },
        None => {
            match longest_index(t, m, t.len()) {
                Some(b) => {
                    if b != k {
                        assert(contains_spec(m, t[b as int].0@));
                    }
                },
                None => {
                    assert(contains_spec(m, t[k].0@));
                },
            }
        },
    }
    match exact_index(t, key, 0) {
        Some(j) => {
            if j != k {
                assert(t[j as int].0@ == key);
                assert(contains_spec(m, t[j as int].0@));
            }
        },
        None => {
            assert(t[k].0@ == key);
        },
    }
}


/// A lower-cased name `m` in which the key of row `k` occurs, where every key
/// that occurs in `m` has the capability of row `k`, gets that capability:
/// the same as the exact lookup of that key, whichever matching key wins.
pub proof fn lemma_contained_keys_agree(reg: CompatibilityRegistry, m: Seq<char>, k: int)
    requires
        0 <= k < reg.gpu_architectures@.len(),
        contains_spec(m, reg.gpu_architectures@[k].0@),
        forall|j: int|
            0 <= j < reg.gpu_architectures@.len() && contains_spec(
                m,
                #[trigger] reg.gpu_architectures@[j].0@,
            ) ==> reg.gpu_architectures@[j].1.compute_capability
                == reg.gpu_architectures@[k].1.compute_capability,
    ensures
        capability_for(reg.gpu_architectures@, m) == Some(
            reg.gpu_architectures@[k].1.compute_capability,
        ),
        capability_for(reg.gpu_architectures@, reg.gpu_architectures@[k].0@) == capability_for(
            reg.gpu_architectures@,
            m,
        ),
{
    let t = reg.gpu_architectures@;
    let key = t[k].0@;
    lemma_exact_index(t, m, 0);
    lemma_exact_index(t, key, 0);
    lemma_longest_index(t, m, t.len());
    lemma_contains_self(m);
    match exact_index(t, m, 0) {
        Some(j) => {
            assert(contains_spec(m, t[j as int].0@));
        },
        None => {
            match longest_index(t, m, t.len()) {
                Some(b) => {},
                None => {
                    assert(contains_spec(m, t[k].0@));
                },
            }
        },
    }
    match exact_index(t, key, 0) {
        Some(j) => {
            assert(t[j as int].0@ == key);
            assert(contains_spec(m, t[j as int].0@));
        },
        None => {
            assert(t[k].0@ == key);
        },
    }
}


proof fn lemma_decimal_digits(n: nat)
    ensures
        decimal(n).len() > 0,
        crate::text::all_digits(decimal(n)),
        crate::text::digits_value(decimal(n)) == n,
    decreases n,
{
    if n >= 10 {
        lemma_decimal_digits(n / 10);
        let p = decimal(n / 10);
        let s = decimal(n);
        assert(s == p.push(crate::text::digit_char(n % 10)));
        assert(s.drop_last() =~= p);
        assert forall|i: int| 0 <= i < s.len() implies crate::text::is_digit(#[trigger] s[i]) by {
            if i < p.len() {
                assert(s[i] == p[i]);
            }
        }
        assert(crate::text::digit_value(crate::text::digit_char(n % 10)) == n % 10);
        assert(s.last() == crate::text::digit_char(n % 10));
        assert(crate::text::digits_value(s) == crate::text::digits_value(p) * 10 + n % 10);
        assert((n / 10) * 10 + n % 10 == n) by (nonlinear_arith);
    } else {
        let s = decimal(n);
        assert(s == seq![crate::text::digit_char(n)]);
        assert(crate::text::digit_value(crate::text::digit_char(n)) == n);
        assert(s.drop_last() =~= Seq::<char>::empty());
        assert(s.last() == crate::text::digit_char(n));
        assert(crate::text::digits_value(s.drop_last()) == 0);
        assert(crate::text::digits_value(s) == crate::text::digits_value(s.drop_last()) * 10
            + crate::text::digit_value(s.last()));
    }
}

proof fn lemma_parse_decimal(n: nat)
    requires
        n <= u32::MAX,
    ensures
        crate::text::parse_u32_spec(decimal(n)) == Some(n as u32),
{
    lemma_decimal_digits(n);
    assert(crate::text::is_digit(decimal(n)[0]));
}

proof fn lemma_split_no_sep(s: Seq<char>)
    requires
        crate::text::all_digits(s),
    ensures
        split_spec(s, '.') == seq![s],
    decreases s.len(),
{
    if s.len() == 0 {
        assert(s =~= Seq::<char>::empty());
        assert(split_spec(s, '.') =~= seq![s]);
    } else {
        assert(crate::text::all_digits(s.drop_last())) by {
            assert forall|i: int| 0 <= i < s.drop_last().len() implies crate::text::is_digit(
                #[trigger] s.drop_last()[i],
            ) by {
                assert(s.drop_last()[i] == s[i]);
            }
        }
        lemma_split_no_sep(s.drop_last());
        assert(crate::text::is_digit(s[s.len() - 1]));
        assert(s.last() != '.');
        let prev = split_spec(s.drop_last(), '.');
        assert(split_spec(s, '.') == prev.update(prev.len() - 1, prev.last().push(s.last())));
        assert(s.drop_last().push(s.last()) =~= s);
        assert(split_spec(s, '.') =~= seq![s]);
    }
}

proof fn lemma_split_pair(x: Seq<char>, y: Seq<char>)
    requires
        crate::text::all_digits(x),
        crate::text::all_digits(y),
    ensures
        split_spec(x.push('.') + y, '.') == seq![x, y],
    decreases y.len(),
{
    if y.len() == 0 {
        lemma_split_no_sep(x);
        assert(x.push('.') + y =~= x.push('.'));
        assert(x.push('.').drop_last() =~= x);
        assert(split_spec(x.push('.'), '.') =~= seq![x, Seq::<char>::empty()]);
        assert(y =~= Seq::<char>::empty());
    } else {
        let y0 = y.drop_last();
        assert(crate::text::all_digits(y0)) by {
            assert forall|i: int| 0 <= i < y0.len() implies crate::text::is_digit(#[trigger] y0[i]) by {
                assert(y0[i] == y[i]);
            }
        }
        lemma_split_pair(x, y0);
        let s = x.push('.') + y;
        assert(s.drop_last() =~= x.push('.') + y0);
        assert(s.last() == y.last());
        assert(crate::text::is_digit(y[y.len() - 1]));
        assert(s.last() != '.');
        let prev = split_spec(s.drop_last(), '.');
        assert(split_spec(s, '.') == prev.update(prev.len() - 1, prev.last().push(s.last())));
        assert(y0.push(y.last()) =~= y);
        assert(split_spec(s, '.') =~= seq![x, y]);
    }
}

/// A toolkit version written `major.minor` reads back as those two components.
pub proof fn lemma_toolkit_text_parts(v: (u32, u32))
    ensures
        version_parts(toolkit_text(v)) == seq![v.0, v.1],
{
    lemma_decimal_digits(v.0 as nat);
    lemma_decimal_digits(v.1 as nat);
    lemma_parse_decimal(v.0 as nat);
    lemma_parse_decimal(v.1 as nat);
    lemma_split_pair(decimal(v.0 as nat), decimal(v.1 as nat));
    let p = seq![decimal(v.0 as nat), decimal(v.1 as nat)];
    assert(p.drop_last() =~= seq![decimal(v.0 as nat)]);
    assert(p.drop_last().drop_last() =~= Seq::<Seq<char>>::empty());
    assert(numeric_pieces(p.drop_last().drop_last()) =~= Seq::<u32>::empty());
    assert(p.drop_last().last() == decimal(v.0 as nat));
    assert(p.last() == decimal(v.1 as nat));
    assert(numeric_pieces(p.drop_last()) =~= seq![v.0]);
    assert(numeric_pieces(p) =~= seq![v.0, v.1]);
    assert(split_spec(toolkit_text(v), '.') == p);
}

/// A newer driver never runs an older toolkit, as the version texts that
/// `get_max_cuda_version` returns compare: for a well-formed table, where the
/// driver with the smaller major number gets a version, the other one gets
/// one too, and `compare_versions` puts the first no later than the second.
pub proof fn lemma_toolkit_text_monotone(reg: CompatibilityRegistry, d1: Seq<char>, d2: Seq<char>)
    requires
        reg.wf(),
        driver_major(d1) <= driver_major(d2),
    ensures
        toolkit_for(reg.driver_cuda_map@, driver_major(d1)) is Some ==> toolkit_for(
            reg.driver_cuda_map@,
            driver_major(d2),
        ) is Some && compare_spec(
            toolkit_text(toolkit_for(reg.driver_cuda_map@, driver_major(d1)).unwrap()),
            toolkit_text(toolkit_for(reg.driver_cuda_map@, driver_major(d2)).unwrap()),
        ) <= 0,
{
    lemma_toolkit_monotone(reg, d1, d2);
    let t = reg.driver_cuda_map@;
    match (toolkit_for(t, driver_major(d1)), toolkit_for(t, driver_major(d2))) {
        (Some(a), Some(b)) => {
            lemma_toolkit_text_parts(a);
            lemma_toolkit_text_parts(b);
            let pa = seq![a.0, a.1];
            let pb = seq![b.0, b.1];
            assert(longer_len(pa, pb) == 2);
            assert(part_at(pa, 0) == a.0 && part_at(pb, 0) == b.0);
            assert(part_at(pa, 1) == a.1 && part_at(pb, 1) == b.1);
            assert(compare_from(pa, pb, 2) == 0);
            assert(pair_le(a, b));
            if a.0 == b.0 {
                assert(compare_from(pa, pb, 1) <= 0);
            }
            assert(compare_from(pa, pb, 0) <= 0);
            assert(compare_spec(toolkit_text(a), toolkit_text(b)) == compare_from(pa, pb, 0));
        },
        _ => {},
    }
}

} // verus!
