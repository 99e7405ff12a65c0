//! Dotted numeric versions: their components and their order.
use vstd::prelude::*;
use crate::text::{chars_of, parse_u32, parse_u32_spec, split_chars, split_spec, views};

verus! {

/// The numeric pieces of `p`, in order; a piece that is no `u32` is skipped.
pub open spec fn numeric_pieces(p: Seq<Seq<char>>) -> Seq<u32>
    decreases p.len(),
{
    if p.len() == 0 {
        Seq::<u32>::empty()
    } else {
        let prev = numeric_pieces(p.drop_last());
        match parse_u32_spec(p.last()) {
            Some(v) => prev.push(v),
            None => prev,
        }
    }
}

/// The components of a dotted version such as `11.8` or `470.57.02`.
pub open spec fn version_parts(s: Seq<char>) -> Seq<u32> {
    numeric_pieces(split_spec(s, '.'))
}

/// The `i`-th component, zero past the end.
pub open spec fn part_at(p: Seq<u32>, i: int) -> u32 {
    if 0 <= i < p.len() {
        p[i]
    } else {
        0
    }
}

pub open spec fn longer_len(a: Seq<u32>, b: Seq<u32>) -> nat {
    if a.len() > b.len() {
        a.len()
    } else {
        b.len()
    }
}

/// Lexicographic comparison of `a` and `b` from component `i` on, missing
/// components counting as zero: -1, 0 or 1.
pub open spec fn compare_from(a: Seq<u32>, b: Seq<u32>, i: nat) -> int
    decreases longer_len(a, b) - i,
{
    if i >= longer_len(a, b) {
        0
    } else if part_at(a, i as int) < part_at(b, i as int) {
        -1
    } else if part_at(a, i as int) > part_at(b, i as int) {
        1
    } else {
        compare_from(a, b, i + 1)
    }
}

/// The order of two version strings: -1, 0 or 1.
pub open spec fn compare_spec(a: Seq<char>, b: Seq<char>) -> int {
    compare_from(version_parts(a), version_parts(b), 0)
}

/// The components of a dotted version string.
pub fn version_numbers(s: &str) -> (r: Vec<u32>)
    ensures
        r@ == version_parts(s@),
{
    let cs = chars_of(s);
    let pieces = split_chars(&cs, '.');
    let mut out: Vec<u32> = Vec::new();
    let mut i: usize = 0;
    while i < pieces.len()
        invariant
            i <= pieces@.len(),
            views(pieces@) == split_spec(s@, '.'),
            out@ == numeric_pieces(views(pieces@).take(i as int)),
        decreases pieces.len() - i,
    {
        assert(views(pieces@).take(i + 1).drop_last() =~= views(pieces@).take(i as int));
        assert(views(pieces@).take(i + 1).last() == pieces@[i as int]@);
        match parse_u32(&pieces[i]) {
            Some(v) => out.push(v),
            None => {},
        }
        i += 1;
    }
    assert(views(pieces@).take(pieces@.len() as int) =~= views(pieces@));
    out
}

/// Compares two dotted versions component by component, missing trailing
/// components counting as zero: -1 when `version1` is older, 1 when newer,
/// 0 when equal. Components that are not numbers are skipped.
pub fn compare_versions(version1: &str, version2: &str) -> (r: i32)
    ensures
        r == compare_spec(version1@, version2@),
{
    let a = version_numbers(version1);
    let b = version_numbers(version2);
    let n = if a.len() > b.len() {
        a.len()
    } else {
        b.len()
    };
    let mut i: usize = 0;
    while i < n
        invariant
            a@ == version_parts(version1@),
            b@ == version_parts(version2@),
            n == longer_len(a@, b@),
            i <= n,
            compare_from(a@, b@, 0) == compare_from(a@, b@, i as nat),
        decreases n - i,
    {
        let x = if i < a.len() {
            a[i]
        } else {
            0
        };
        let y = if i < b.len() {
            b[i]
        } else {
            0
        };
        if x < y {
            return -1;
        }
        if x > y {
            return 1;
        }
        i += 1;
    }
    0
}

} // verus!
