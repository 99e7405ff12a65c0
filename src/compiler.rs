//! Compiler records: reading a compiler's version from its version banner and
//! deciding whether that version is in the range the toolkit supports.
use vstd::prelude::*;
use crate::error::SystemError;
use crate::text::{
    after_first, after_first_of, chars_of, first_word, first_word_of, has_char,
    is_digit, lines_of, lines_spec, parse_u32, parse_u32_spec, split_chars, split_spec,
    string_from, views, words, words_of,
};
use crate::driver::first_line_with;

verus! {

/// A C/C++ compiler found on the system.
#[derive(Debug, Clone, PartialEq)]
pub struct CompilerInfo {
    pub name: String,
    pub version: String,
    pub is_compatible: bool,
    pub path: Option<String>,
}

/// The leading number of a version, as `u32`, if it is one.
pub open spec fn major_of(version: Seq<char>) -> Option<u32> {
    parse_u32_spec(split_spec(version, '.')[0])
}

/// The major version lies in `lo..=hi`.
pub open spec fn major_in(version: Seq<char>, lo: u32, hi: u32) -> bool {
    match major_of(version) {
        Some(m) => lo <= m <= hi,
        None => false,
    }
}

/// A word that looks like a version: it starts with a digit and has a dot.
pub open spec fn versionish(w: Seq<char>) -> bool {
    w.len() > 0 && is_digit(w[0]) && has_char(w, '.')
}

/// The last version-like word among `ws[0..i]`.
pub open spec fn last_versionish(ws: Seq<Seq<char>>, i: nat) -> Option<Seq<char>>
    decreases i,
{
    if i == 0 || i > ws.len() {
        None
    } else if versionish(ws[i - 1]) {
        Some(ws[i - 1])
    } else {
        last_versionish(ws, (i - 1) as nat)
    }
}

/// The version in a GCC banner: the last version-like word of its first line.
pub open spec fn gcc_version(output: Seq<char>) -> Option<Seq<char>> {
    let ls = lines_spec(output);
    if ls.len() == 0 {
        None
    } else {
        last_versionish(words(ls[0]), words(ls[0]).len())
    }
}

/// The version in a Clang banner: the word after `version ` on its first line.
pub open spec fn clang_version(output: Seq<char>) -> Option<Seq<char>> {
    let ls = lines_spec(output);
    if ls.len() == 0 {
        None
    } else {
        match after_first(ls[0], "version "@) {
            Some(rest) => first_word(rest),
            None => None,
        }
    }
}

/// The version in an MSVC banner: the word after `Version ` on the first line
/// that has it, `unknown` where there is none.
pub open spec fn msvc_version(output: Seq<char>) -> Seq<char> {
    match first_line_with(lines_spec(output), "Version "@, 0) {
        Some(l) => match first_word(after_first(l, "Version "@).unwrap()) {
            Some(w) => w,
            None => "unknown"@,
        },
        None => "unknown"@,
    }
}

fn major_in_range(version: &str, lo: u32, hi: u32) -> (r: bool)
    ensures
        r == major_in(version@, lo, hi),
{
    let cs = chars_of(version);
    let pieces = split_chars(&cs, '.');
    proof {
        crate::text::lemma_split_nonempty(version@, '.');
    }
    assert(views(pieces@)[0] == pieces@[0]@);
    match parse_u32(&pieces[0]) {
        Some(m) => lo <= m && m <= hi,
        None => false,
    }
}

fn is_versionish(w: &Vec<char>) -> (r: bool)
    ensures
        r == versionish(w@),
{
    if w.len() == 0 {
        return false;
    }
    let c = w[0];
    if !('0' <= c && c <= '9') {
        return false;
    }
    let mut i: usize = 0;
    while i < w.len()
        invariant
            i <= w@.len(),
            w@.len() > 0 && is_digit(w@[0]),
            forall|j: int| 0 <= j < i ==> w@[j] != '.',
        decreases w.len() - i,
    {
        if w[i] == '.' {
            assert(w@[i as int] == '.');
            return true;
        }
        i += 1;
    }
    false
}

impl CompilerInfo {
    pub fn new(name: String, version: String, is_compatible: bool, path: Option<String>) -> (r:
        Self)
        ensures
            r.name == name,
            r.version == version,
            r.is_compatible == is_compatible,
            r.path == path,
    {
        CompilerInfo { name, version, is_compatible, path }
    }

    /// The version in `gcc --version` output: the last word of the first
    /// line that starts with a digit and has a dot (not the one in
    /// parentheses). An error where there is no first line or no such word.
    pub fn parse_gcc_version(output: &str) -> (r: Result<String, SystemError>)
        ensures
            match gcc_version(output@) {
                Some(v) => r is Ok && r.unwrap()@ == v,
                None => r is Err && r->Err_0 is CompilerDetection,
            },
    {
        let cs = chars_of(output);
        let ls = lines_of(&cs);
        if ls.len() == 0 {
            return Err(SystemError::CompilerDetection(String::from_str("Empty gcc output")));
        }
        assert(views(ls@)[0] == ls@[0]@);
        let ws = words_of(&ls[0]);
        let mut i = ws.len();
        while i > 0
            invariant
                i <= ws@.len(),
                ls@.len() > 0,
                views(ls@) == lines_spec(output@),
                views(ls@)[0] == ls@[0]@,
                views(ws@) == words(ls@[0]@),
                last_versionish(views(ws@), ws@.len()) == last_versionish(views(ws@), i as nat),
            decreases i,
        {
            assert(views(ws@)[i - 1] == ws@[i - 1]@);
            if is_versionish(&ws[i - 1]) {
                return Ok(string_from(&ws[i - 1]));
            }
            i -= 1;
        }
        Err(SystemError::CompilerDetection(String::from_str("Could not parse gcc version")))
    }

    /// The version in `clang --version` output: the word after `version ` on
    /// the first line. An error where there is none.
    pub fn parse_clang_version(output: &str) -> (r: Result<String, SystemError>)
        ensures
            match clang_version(output@) {
                Some(v) => r is Ok && r.unwrap()@ == v,
                None => r is Err && r->Err_0 is CompilerDetection,
            },
    {
        let cs = chars_of(output);
        let ls = lines_of(&cs);
        if ls.len() == 0 {
            return Err(SystemError::CompilerDetection(String::from_str("Empty clang output")));
        }
        assert(views(ls@)[0] == ls@[0]@);
        match after_first_of(&ls[0], "version ") {
            Some(rest) => match first_word_of(&rest) {
                Some(w) => Ok(string_from(&w)),
                None => Err(
                    SystemError::CompilerDetection(
                        String::from_str("Could not parse clang version"),
                    ),
                ),
            },
            None => Err(
                SystemError::CompilerDetection(String::from_str("Could not find clang version")),
            ),
        }
    }

    /// The version in the MSVC compiler's banner: the word after `Version `
    /// on the first line that has it, else `unknown`.
    pub fn parse_msvc_version(output: &str) -> (r: String)
        ensures
            r@ == msvc_version(output@),
    {
        let cs = chars_of(output);
        let ls = lines_of(&cs);
        let mut i: usize = 0;
        while i < ls.len()
            invariant
                i <= ls@.len(),
                views(ls@) == lines_spec(output@),
                first_line_with(views(ls@), "Version "@, 0) == first_line_with(
                    views(ls@),
                    "Version "@,
                    i as nat,
                ),
            decreases ls.len() - i,
        {
            assert(views(ls@)[i as int] == ls@[i as int]@);
            proof {
                crate::text::lemma_contains_first_index(ls@[i as int]@, "Version "@);
            }
            match after_first_of(&ls[i], "Version ") {
                Some(rest) => {
                    return match first_word_of(&rest) {
                        Some(w) => string_from(&w),
                        None => String::from_str("unknown"),
                    };
                },
                None => {},
            }
            i += 1;
        }
        String::from_str("unknown")
    }

    /// GCC 5 through 12 is supported.
    pub fn is_gcc_compatible(version: &str) -> (r: bool)
        ensures
            r == major_in(version@, 5, 12),
    {
        major_in_range(version, 5, 12)
    }

    /// Clang 6 through 16 is supported.
    pub fn is_clang_compatible(version: &str) -> (r: bool)
        ensures
            r == major_in(version@, 6, 16),
    {
        major_in_range(version, 6, 16)
    }

    /// MSVC 19 (Visual Studio 2017) and later is supported.
    pub fn is_msvc_compatible(version: &str) -> (r: bool)
        ensures
            r == major_in(version@, 19, u32::MAX),
    {
        major_in_range(version, 19, u32::MAX)
    }

    /// A detected compiler: `name` at `version`, compatible where `family`'s
    /// range holds it.
    pub fn detected(family: CompilerFamily, version: String, path: Option<String>) -> (r: Self)
        ensures
            r.version == version,
            r.path == path,
            r.name@ == family_name(family),
            r.is_compatible == match family {
                CompilerFamily::Gcc => major_in(version@, 5, 12),
                CompilerFamily::Clang => major_in(version@, 6, 16),
                CompilerFamily::Msvc => major_in(version@, 19, u32::MAX),
            },
    {
        let (name, ok) = match family {
            CompilerFamily::Gcc => (String::from_str("GCC"), Self::is_gcc_compatible(version.as_str())),
            CompilerFamily::Clang => (
                String::from_str("Clang"),
                Self::is_clang_compatible(version.as_str()),
            ),
            CompilerFamily::Msvc => (
                String::from_str("MSVC"),
                Self::is_msvc_compatible(version.as_str()),
            ),
        };
        CompilerInfo { name, version, is_compatible: ok, path }
    }
}

/// The compiler families the probe knows.
#[derive(Debug, Clone, Copy, PartialEq, Eq, Structural)]
pub enum CompilerFamily {
    Gcc,
    Clang,
    Msvc,
}

pub open spec fn family_name(f: CompilerFamily) -> Seq<char> {
    match f {
        CompilerFamily::Gcc => "GCC"@,
        CompilerFamily::Clang => "Clang"@,
        CompilerFamily::Msvc => "MSVC"@,
    }
}

} // verus!
