//! Driver records and the parsers of the driver probe's three sources: the
//! status tool's table, the kernel module's info and the Windows registry's
//! packed version.
use vstd::prelude::*;
use crate::registry::{
    driver_major, is_builtin, opt_view, toolkit_for, toolkit_text, CompatibilityRegistry,
};
use crate::text::{
    lower_of, lowercase,
    after_first, after_first_of, chars_of, contains_spec, contains_str, first_index, first_word,
    first_word_of, lines_of, lines_spec, starts_with_spec, string_from, views, words, words_of,
};
use crate::version::compare_spec;

verus! {

/// The installed GPU driver. A driver without toolkit support has no maximum
/// toolkit version.
#[derive(Debug, Clone, PartialEq)]
pub struct DriverInfo {
    pub version: String,
    pub is_installed: bool,
    pub supports_cuda: bool,
    pub max_cuda_version: Option<String>,
}

/// The text that `reg` gives as the newest toolkit for driver version `d`.
pub open spec fn max_version_text(reg: CompatibilityRegistry, d: Seq<char>) -> Option<Seq<char>> {
    match toolkit_for(reg.driver_cuda_map@, driver_major(d)) {
        Some(v) => Some(toolkit_text(v)),
        None => None,
    }
}

/// The first line of `ls` that contains `marker`.
pub open spec fn first_line_with(ls: Seq<Seq<char>>, marker: Seq<char>, i: nat) -> Option<
    Seq<char>,
>
    decreases ls.len() - i,
{
    if i >= ls.len() {
        None
    } else if contains_spec(ls[i as int], marker) {
        Some(ls[i as int])
    } else {
        first_line_with(ls, marker, i + 1)
    }
}

/// The value after `marker` on the first line that has it: the first word
/// after the marker (up to a second marker), or empty.
pub open spec fn field_after(ls: Seq<Seq<char>>, marker: Seq<char>) -> Option<Seq<char>> {
    match first_line_with(ls, marker, 0) {
        None => None,
        Some(l) => {
            let rest = after_first(l, marker).unwrap();
            let seg = match first_index(rest, marker) {
                Some(e) => rest.subrange(0, e),
                None => rest,
            };
            match first_word(seg) {
                Some(w) => Some(w),
                None => Some(Seq::<char>::empty()),
            }
        },
    }
}

/// The first line of `ls` that starts with `prefix`.
pub open spec fn first_line_starting(ls: Seq<Seq<char>>, prefix: Seq<char>, i: nat) -> Option<
    Seq<char>,
>
    decreases ls.len() - i,
{
    if i >= ls.len() {
        None
    } else if starts_with_spec(ls[i as int], prefix) {
        Some(ls[i as int])
    } else {
        first_line_starting(ls, prefix, i + 1)
    }
}

/// `s` with its dots removed.
pub open spec fn without_dots(s: Seq<char>) -> Seq<char>
    decreases s.len(),
{
    if s.len() == 0 {
        s
    } else if s.last() == '.' {
        without_dots(s.drop_last())
    } else {
        without_dots(s.drop_last()).push(s.last())
    }
}

/// A packed Windows driver version such as `31.0.15.3623` read as the
/// public one (`536.23`): the last five digits, the first three of them the
/// major number without one leading zero, the last two the minor number.
pub open spec fn decoded_windows_version(raw: Seq<char>) -> Option<Seq<char>> {
    let clean = without_dots(raw);
    if clean.len() < 5 {
        None
    } else {
        let last5 = clean.subrange(clean.len() - 5, clean.len() as int);
        let major = last5.subrange(0, 3);
        let major_trimmed = if major[0] == '0' {
            major.drop_first()
        } else {
            major
        };
        Some(major_trimmed.push('.') + last5.subrange(3, 5))
    }
}

proof fn lemma_line_with_contains(ls: Seq<Seq<char>>, marker: Seq<char>, i: nat)
    ensures
        match first_line_with(ls, marker, i) {
            Some(l) => contains_spec(l, marker),
            None => true,
        },
    decreases ls.len() - i,
{
    if i < ls.len() {
        lemma_line_with_contains(ls, marker, i + 1);
    }
}

/// The public version of the first display adapter, from `i` on, whose
/// provider names the maker and whose packed version decodes.
pub open spec fn adapter_version(a: Seq<(String, Option<String>)>, i: nat) -> Option<Seq<char>>
    decreases a.len() - i,
{
    if i >= a.len() {
        None
    } else if contains_spec(lower_of(a[i as int].0@), "nvidia"@) && match a[i as int].1 {
        Some(raw) => decoded_windows_version(raw@) is Some,
        None => false,
    } {
        decoded_windows_version(a[i as int].1.unwrap()@)
    } else {
        adapter_version(a, i + 1)
    }
}

fn find_line_with(ls: &Vec<Vec<char>>, marker: &str) -> (r: Option<usize>)
    ensures
        match r {
            Some(i) => i < ls@.len() && first_line_with(views(ls@), marker@, 0) == Some(
                ls@[i as int]@,
            ),
            None => first_line_with(views(ls@), marker@, 0) is None,
        },
{
    let mut i: usize = 0;
    while i < ls.len()
        invariant
            i <= ls@.len(),
            first_line_with(views(ls@), marker@, 0) == first_line_with(
                views(ls@),
                marker@,
                i as nat,
            ),
        decreases ls.len() - i,
    {
        assert(views(ls@)[i as int] == ls@[i as int]@);
        if contains_str(&ls[i], marker) {
            return Some(i);
        }
        i += 1;
    }
    None
}

fn field_after_of(ls: &Vec<Vec<char>>, marker: &str) -> (r: Option<Vec<char>>)
    ensures
        match r {
            Some(v) => field_after(views(ls@), marker@) == Some(v@),
            None => field_after(views(ls@), marker@) is None,
        },
{
    match find_line_with(ls, marker) {
        None => None,
        Some(i) => {
            let l = &ls[i];
            proof {
                lemma_line_with_contains(views(ls@), marker@, 0);
                crate::text::lemma_contains_first_index(l@, marker@);
            }
            let rest = match after_first_of(l, marker) {
                Some(a) => a,
                None => {
                    return None;
                },
            };
            let mv = chars_of(marker);
            let seg = match crate::text::find(&rest, &mv) {
                Some(e) => crate::text::slice(&rest, 0, e),
                None => rest,
            };
            match first_word_of(&seg) {
                Some(w) => Some(w),
                None => Some(Vec::new()),
            }
        },
    }
}

impl DriverInfo {
    pub fn new(
        version: String,
        is_installed: bool,
        supports_cuda: bool,
        max_cuda_version: Option<String>,
    ) -> (r: Self)
        ensures
            r.version == version,
            r.is_installed == is_installed,
            r.supports_cuda == supports_cuda,
            r.max_cuda_version == max_cuda_version,
    {
        DriverInfo { version, is_installed, supports_cuda, max_cuda_version }
    }

    /// The newest toolkit version that the built-in table gives a driver version.
    pub fn get_max_cuda_version(driver_version: &str) -> (r: Option<String>)
        ensures
            exists|reg: CompatibilityRegistry|
                is_builtin(reg) && #[trigger] max_version_text(reg, driver_version@) == opt_view(
                    r,
                ),
    {
        let reg = CompatibilityRegistry::new();
        let r = reg.get_max_cuda_version(driver_version);
        assert(max_version_text(reg, driver_version@) == opt_view(r));
        r
    }

    /// An installed driver of a version found by a probe, its maximum toolkit
    /// version taken from `registry`.
    pub fn detected(registry: &CompatibilityRegistry, version: String) -> (r: Self)
        ensures
            r.version == version,
            r.is_installed,
            r.supports_cuda,
            opt_view(r.max_cuda_version) == max_version_text(*registry, version@),
    {
        let max = registry.get_max_cuda_version(version.as_str());
        DriverInfo { version, is_installed: true, supports_cuda: true, max_cuda_version: max }
    }

    /// The driver that the status tool's table shows: the word after
    /// `Driver Version:`, and the word after `CUDA Version:` as the maximum
    /// toolkit (else the one `registry` gives). `None` without a driver line.
    pub fn from_smi_status(registry: &CompatibilityRegistry, output: &str) -> (r: Option<Self>)
        ensures
            match field_after(lines_spec(output@), "Driver Version:"@) {
                None => r is None,
                Some(v) => r is Some && r.unwrap().version@ == v && r.unwrap().is_installed
                    && r.unwrap().supports_cuda && opt_view(r.unwrap().max_cuda_version) == match field_after(
                    lines_spec(output@),
                    "CUDA Version:"@,
                ) {
                    Some(c) => Some(c),
                    None => max_version_text(*registry, v),
                },
            },
    {
        let cs = chars_of(output);
        let ls = lines_of(&cs);
        let v = match field_after_of(&ls, "Driver Version:") {
            Some(v) => string_from(&v),
            None => {
                return None;
            },
        };
        let max = match field_after_of(&ls, "CUDA Version:") {
            Some(c) => Some(string_from(&c)),
            None => registry.get_max_cuda_version(v.as_str()),
        };
        Some(DriverInfo { version: v, is_installed: true, supports_cuda: true, max_cuda_version: max })
    }

    /// The driver that the kernel module's info shows: the second word of
    /// the first line starting with `version:`. `None` without one.
    pub fn from_modinfo(registry: &CompatibilityRegistry, output: &str) -> (r: Option<Self>)
        ensures
            match first_line_starting(lines_spec(output@), "version:"@, 0) {
                Some(l) if words(l).len() >= 2 => r is Some && r.unwrap().version@ == words(l)[1]
                    && r.unwrap().is_installed && r.unwrap().supports_cuda && opt_view(
                    r.unwrap().max_cuda_version,
                ) == max_version_text(*registry, words(l)[1]),
                _ => r is None,
            },
    {
        let cs = chars_of(output);
        let ls = lines_of(&cs);
        let prefix = chars_of("version:");
        let mut i: usize = 0;
        while i < ls.len()
            invariant
                i <= ls@.len(),
                prefix@ == "version:"@,
                views(ls@) == lines_spec(output@),
                first_line_starting(views(ls@), "version:"@, 0) == first_line_starting(
                    views(ls@),
                    "version:"@,
                    i as nat,
                ),
            decreases ls.len() - i,
        {
            assert(views(ls@)[i as int] == ls@[i as int]@);
            if crate::text::starts_with(&ls[i], &prefix) {
                let ws = words_of(&ls[i]);
                if ws.len() >= 2 {
                    assert(views(ws@)[1] == ws@[1]@);
                    let v = string_from(&ws[1]);
                    return Some(Self::detected(registry, v));
                }
                return None;
            }
            i += 1;
        }
        None
    }

    /// The driver that the Windows registry shows: the first display adapter
    /// (provider, packed version) of the maker whose version decodes, else
    /// the version of the maker's own settings key. `None` without either.
    pub fn from_registry(
        registry: &CompatibilityRegistry,
        adapters: &Vec<(String, Option<String>)>,
        settings_version: Option<String>,
    ) -> (r: Option<Self>)
        ensures
            ({
                let v = match adapter_version(adapters@, 0) {
                    Some(v) => Some(v),
                    None => opt_view(settings_version),
                };
                match v {
                    Some(v) => r is Some && r.unwrap().version@ == v && r.unwrap().is_installed
                        && r.unwrap().supports_cuda && opt_view(r.unwrap().max_cuda_version)
                        == max_version_text(*registry, v),
                    None => r is None,
                }
            }),
    {
        let mut i: usize = 0;
        while i < adapters.len()
            invariant
                i <= adapters@.len(),
                adapter_version(adapters@, 0) == adapter_version(adapters@, i as nat),
            decreases adapters.len() - i,
        {
            let provider = lowercase(adapters[i].0.as_str());
            let pc = chars_of(provider.as_str());
            if contains_str(&pc, "nvidia") {
                match &adapters[i].1 {
                    Some(raw) => match decode_windows_driver_version(raw.as_str()) {
                        Some(v) => {
                            return Some(Self::detected(registry, v));
                        },
                        None => {},
                    },
                    None => {},
                }
            }
            i += 1;
        }
        match settings_version {
            Some(v) => Some(Self::detected(registry, v)),
            None => None,
        }
    }

    /// Whether this driver runs toolkit `cuda_version`: it supports the
    /// toolkit and that version is no newer than its maximum.
    pub fn supports_cuda_version(&self, cuda_version: &str) -> (r: bool)
        ensures
            r == (self.supports_cuda && match self.max_cuda_version {
                Some(m) => compare_spec(cuda_version@, m@) <= 0,
                None => false,
            }),
    {
        if !self.supports_cuda {
            return false;
        }
        match &self.max_cuda_version {
            Some(m) => crate::version::compare_versions(cuda_version, m.as_str()) <= 0,
            None => false,
        }
    }

    /// Compares two dotted versions: -1, 0 or 1.
    pub fn compare_versions(version1: &str, version2: &str) -> (r: i32)
        ensures
            r == compare_spec(version1@, version2@),
    {
        crate::version::compare_versions(version1, version2)
    }
}

/// Reads a packed Windows driver version as the public one; `None` with
/// fewer than five digits.
pub fn decode_windows_driver_version(raw: &str) -> (r: Option<String>)
    ensures
        opt_view(r) == decoded_windows_version(raw@),
{
    let cs = chars_of(raw);
    let mut clean: Vec<char> = Vec::new();
    let mut i: usize = 0;
    while i < cs.len()
        invariant
            i <= cs@.len(),
            cs@ == raw@,
            clean@ == without_dots(cs@.take(i as int)),
        decreases cs.len() - i,
    {
        proof {
            assert(cs@.take(i + 1).drop_last() =~= cs@.take(i as int));
            assert(cs@.take(i + 1).last() == cs@[i as int]);
        }
        if cs[i] != '.' {
            clean.push(cs[i]);
        }
        i += 1;
    }
    assert(cs@.take(cs@.len() as int) =~= cs@);
    let n = clean.len();
    if n < 5 {
        return None;
    }
    let mut s = String::new();
    let start = if clean[n - 5] == '0' {
        n - 4
    } else {
        n - 5
    };
    let mut k = start;
    while k < n - 2
        invariant
            n == clean@.len(),
            n >= 5,
            start <= k <= n - 2,
            s@ == clean@.subrange(start as int, k as int),
        decreases n - 2 - k,
    {
        crate::text::push_char(&mut s, clean[k]);
        k += 1;
        assert(s@ =~= clean@.subrange(start as int, k as int));
    }
    crate::text::push_char(&mut s, '.');
    crate::text::push_char(&mut s, clean[n - 2]);
    crate::text::push_char(&mut s, clean[n - 1]);
    let ghost last5 = clean@.subrange(n - 5, n as int);
    assert(s@ =~= decoded_windows_version(raw@).unwrap());
    Some(s)
}

} // verus!
