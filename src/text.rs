//! Character-level helpers shared by the probes' parsers: the views of
//! splitting, trimming, searching and decimal numbers that their contracts use.
use vstd::prelude::*;

verus! {

/// Case folding as `str::to_lowercase` performs it.
pub uninterp spec fn lower_of(s: Seq<char>) -> Seq<char>;

/// Relies on `str::to_lowercase`: the folded text depends on the characters alone.
#[verifier::external_body]
pub(crate) fn lowercase(s: &str) -> (r: String)
    ensures
        r@ == lower_of(s@),
{
    s.to_lowercase()
}

/// Case folding as `str::to_uppercase` performs it.
pub uninterp spec fn upper_of(s: Seq<char>) -> Seq<char>;

/// Relies on `str::to_uppercase`: the folded text depends on the characters alone.
#[verifier::external_body]
pub(crate) fn uppercase(s: &str) -> (r: String)
    ensures
        r@ == upper_of(s@),
{
    s.to_uppercase()
}

/// Relies on `String::push`: the character is appended at the end.
#[verifier::external_body]
pub(crate) fn push_char(s: &mut String, c: char)
    ensures
        final(s)@ == old(s)@.push(c),
{
    s.push(c);
}

/// The characters of a string, in order.
pub fn chars_of(s: &str) -> (r: Vec<char>)
    ensures
        r@ == s@,
{
    let n = s.unicode_len();
    let mut v: Vec<char> = Vec::new();
    let mut i: usize = 0;
    while i < n
        invariant
            n == s@.len(),
            i <= n,
            v@ == s@.subrange(0, i as int),
        decreases n - i,
    {
        let c = s.get_char(i);
        v.push(c);
        i += 1;
        assert(v@ =~= s@.subrange(0, i as int));
    }
    assert(v@ =~= s@);
    v
}

/// The characters `lo..hi` of `v` as a string.
pub fn string_of(v: &Vec<char>, lo: usize, hi: usize) -> (r: String)
    requires
        lo <= hi <= v@.len(),
    ensures
        r@ == v@.subrange(lo as int, hi as int),
{
    let mut s = String::new();
    let mut i: usize = lo;
    while i < hi
        invariant
            lo <= i <= hi <= v@.len(),
            s@ == v@.subrange(lo as int, i as int),
        decreases hi - i,
    {
        push_char(&mut s, v[i]);
        i += 1;
        assert(s@ =~= v@.subrange(lo as int, i as int));
    }
    s
}

/// The string whose characters are `v`.
pub fn string_from(v: &Vec<char>) -> (r: String)
    ensures
        r@ == v@,
{
    let r = string_of(v, 0, v.len());
    assert(v@.subrange(0, v@.len() as int) =~= v@);
    r
}

/// `a` followed by `b`.
pub fn concat_str(a: &str, b: &str) -> (r: String)
    ensures
        r@ == a@ + b@,
{
    let mut s = String::from_str(a);
    s.append(b);
    s
}

/// The views of a sequence of character vectors.
pub open spec fn views(v: Seq<Vec<char>>) -> Seq<Seq<char>> {
    v.map_values(|x: Vec<char>| x@)
}

/// The pieces of `s` between occurrences of `sep`, as `str::split` yields them.
pub open spec fn split_spec(s: Seq<char>, sep: char) -> Seq<Seq<char>>
    decreases s.len(),
{
    if s.len() == 0 {
        seq![Seq::<char>::empty()]
    } else {
        let prev = split_spec(s.drop_last(), sep);
        if s.last() == sep {
            prev.push(Seq::<char>::empty())
        } else {
            prev.update(prev.len() - 1, prev.last().push(s.last()))
        }
    }
}

pub proof fn lemma_split_nonempty(s: Seq<char>, sep: char)
    ensures
        split_spec(s, sep).len() >= 1,
    decreases s.len(),
{
    if s.len() > 0 {
        lemma_split_nonempty(s.drop_last(), sep);
    }
}

/// Splits `s` at every `sep`.
pub fn split_chars(s: &Vec<char>, sep: char) -> (r: Vec<Vec<char>>)
    ensures
        views(r@) == split_spec(s@, sep),
{
    let mut parts: Vec<Vec<char>> = Vec::new();
    let mut cur: Vec<char> = Vec::new();
    let mut i: usize = 0;
    assert(s@.take(0) =~= Seq::<char>::empty());
    assert(views(parts@).push(cur@) =~= split_spec(s@.take(0), sep));
    while i < s.len()
        invariant
            i <= s@.len(),
            views(parts@).push(cur@) == split_spec(s@.take(i as int), sep),
        decreases s.len() - i,
    {
        let c = s[i];
        let ghost before = views(parts@).push(cur@);
        assert(s@.take(i + 1).drop_last() =~= s@.take(i as int));
        assert(s@.take(i + 1).last() == c);
        if c == sep {
            parts.push(cur);
            cur = Vec::new();
            assert(views(parts@).push(cur@) =~= before.push(Seq::<char>::empty()));
        } else {
            cur.push(c);
            assert(views(parts@).push(cur@) =~= before.update(
                before.len() - 1,
                before.last().push(c),
            ));
        }
        i += 1;
    }
    assert(s@.take(s@.len() as int) =~= s@);
    parts.push(cur);
    assert(views(parts@) =~= split_spec(s@, sep));
    parts
}

/// A line without the carriage return of a `\r\n` ending.
pub open spec fn strip_cr(l: Seq<char>) -> Seq<char> {
    if l.len() > 0 && l.last() == '\r' {
        l.drop_last()
    } else {
        l
    }
}

/// The lines of `s` as `str::lines` yields them: split at `\n`, a `\r` before
/// the `\n` dropped, and no empty last line after a final `\n`.
pub open spec fn lines_spec(s: Seq<char>) -> Seq<Seq<char>> {
    let parts = split_spec(s, '\n');
    let body = parts.drop_last().map_values(|l: Seq<char>| strip_cr(l));
    if parts.last().len() == 0 {
        body
    } else {
        body.push(parts.last())
    }
}

/// The lines of `s`.
pub fn lines_of(s: &Vec<char>) -> (r: Vec<Vec<char>>)
    ensures
        views(r@) == lines_spec(s@),
{
    let parts = split_chars(s, '\n');
    proof {
        lemma_split_nonempty(s@, '\n');
    }
    let n = parts.len();
    let mut out: Vec<Vec<char>> = Vec::new();
    let mut i: usize = 0;
    while i + 1 < n
        invariant
            n == parts@.len(),
            n >= 1,
            i + 1 <= n,
            views(parts@) == split_spec(s@, '\n'),
            views(out@) == views(parts@).take(i as int).map_values(|l: Seq<char>| strip_cr(l)),
        decreases n - i,
    {
        let p = &parts[i];
        let m = p.len();
        let mut l: Vec<char> = p.clone();
        if m > 0 && p[m - 1] == '\r' {
            l.pop();
            assert(l@ =~= p@.drop_last());
        }
        assert(l@ == strip_cr(p@));
        assert(views(parts@)[i as int] == p@);
        let ghost prev_out = views(out@);
        out.push(l);
        assert(views(out@) =~= prev_out.push(l@));
        assert(views(parts@).take(i + 1).map_values(|l: Seq<char>| strip_cr(l)) =~= views(
            parts@,
        ).take(i as int).map_values(|l: Seq<char>| strip_cr(l)).push(strip_cr(p@)));
        i += 1;
    }
    let last = &parts[n - 1];
    assert(views(parts@).drop_last() =~= views(parts@).take(n - 1));
    assert(views(parts@).last() == last@);
    if last.len() > 0 {
        out.push(last.clone());
        assert(views(out@) =~= lines_spec(s@));
    } else {
        assert(views(out@) =~= lines_spec(s@));
    }
    out
}

/// The characters that `char::is_whitespace` accepts (Unicode `White_Space`).
pub open spec fn is_ws(c: char) -> bool {
    c == ' ' || c == '\t' || c == '\n' || c == '\x0B' || c == '\x0C' || c == '\r' || c
        == '\u{85}' || c == '\u{A0}' || c == '\u{1680}' || ('\u{2000}' <= c && c <= '\u{200A}')
        || c == '\u{2028}' || c == '\u{2029}' || c == '\u{202F}' || c == '\u{205F}' || c
        == '\u{3000}'
}

pub fn is_whitespace(c: char) -> (r: bool)
    ensures
        r == is_ws(c),
{
    c == ' ' || c == '\t' || c == '\n' || c == '\x0B' || c == '\x0C' || c == '\r' || c
        == '\u{85}' || c == '\u{A0}' || c == '\u{1680}' || ('\u{2000}' <= c && c <= '\u{200A}')
        || c == '\u{2028}' || c == '\u{2029}' || c == '\u{202F}' || c == '\u{205F}' || c
        == '\u{3000}'
}

/// Whether `c` appears in `s`.
pub open spec fn has_char(s: Seq<char>, c: char) -> bool {
    exists|i: int| 0 <= i < s.len() && s[i] == c
}

/// `s` without leading and trailing white space, as `str::trim` gives it.
pub open spec fn trim_spec(s: Seq<char>) -> Seq<char> {
    trim_end_spec(trim_start_spec(s))
}

pub open spec fn trim_start_spec(s: Seq<char>) -> Seq<char>
    decreases s.len(),
{
    if s.len() > 0 && is_ws(s[0]) {
        trim_start_spec(s.drop_first())
    } else {
        s
    }
}

pub open spec fn trim_end_spec(s: Seq<char>) -> Seq<char>
    decreases s.len(),
{
    if s.len() > 0 && is_ws(s.last()) {
        trim_end_spec(s.drop_last())
    } else {
        s
    }
}

/// The bounds `lo..hi` of `trim_spec(s.subrange(lo, hi))` inside `s`.
pub fn trim_bounds(s: &Vec<char>, lo: usize, hi: usize) -> (r: (usize, usize))
    requires
        lo <= hi <= s@.len(),
    ensures
        lo <= r.0 <= r.1 <= hi,
        s@.subrange(r.0 as int, r.1 as int) == trim_spec(s@.subrange(lo as int, hi as int)),
{
    let mut a = lo;
    while a < hi && is_whitespace(s[a])
        invariant
            lo <= a <= hi <= s@.len(),
            trim_start_spec(s@.subrange(lo as int, hi as int)) == trim_start_spec(
                s@.subrange(a as int, hi as int),
            ),
        decreases hi - a,
    {
        assert(s@.subrange(a as int, hi as int).drop_first() =~= s@.subrange(
            a + 1,
            hi as int,
        ));
        a += 1;
    }
    assert(trim_start_spec(s@.subrange(a as int, hi as int)) == s@.subrange(a as int, hi as int));
    let mut b = hi;
    while b > a && is_whitespace(s[b - 1])
        invariant
            lo <= a <= b <= hi <= s@.len(),
            trim_spec(s@.subrange(lo as int, hi as int)) == trim_end_spec(
                s@.subrange(a as int, b as int),
            ),
        decreases b - a,
    {
        assert(s@.subrange(a as int, b as int).drop_last() =~= s@.subrange(
            a as int,
            b - 1,
        ));
        b -= 1;
    }
    (a, b)
}

/// `s` without leading and trailing white space.
pub fn trimmed(s: &Vec<char>) -> (r: Vec<char>)
    ensures
        r@ == trim_spec(s@),
{
    let (a, b) = trim_bounds(s, 0, s.len());
    assert(s@.subrange(0, s@.len() as int) =~= s@);
    let mut r: Vec<char> = Vec::new();
    let mut i = a;
    while i < b
        invariant
            a <= i <= b <= s@.len(),
            r@ == s@.subrange(a as int, i as int),
        decreases b - i,
    {
        r.push(s[i]);
        i += 1;
        assert(r@ =~= s@.subrange(a as int, i as int));
    }
    r
}

/// `n` occurs in `h` at index `i`.
pub open spec fn occurs_at(h: Seq<char>, n: Seq<char>, i: int) -> bool {
    0 <= i && i + n.len() <= h.len() && h.subrange(i, i + n.len()) == n
}

/// `n` is a substring of `h`, as `str::contains` decides.
#[verifier::opaque]
pub open spec fn contains_spec(h: Seq<char>, n: Seq<char>) -> bool {
    exists|i: int| occurs_at(h, n, i)
}

pub fn occurs_at_exec(h: &Vec<char>, n: &Vec<char>, i: usize) -> (r: bool)
    ensures
        r == occurs_at(h@, n@, i as int),
{
    if i > h.len() || n.len() > h.len() - i {
        return false;
    }
    let mut k: usize = 0;
    while k < n.len()
        invariant
            i + n.len() <= h.len(),
            k <= n@.len(),
            forall|j: int| 0 <= j < k ==> h@[i + j] == n@[j],
        decreases n.len() - k,
    {
        assert(i + k < h@.len());
        if h[i + k] != n[k] {
            assert(h@.subrange(i as int, i + n@.len())[k as int] != n@[k as int]);
            return false;
        }
        k += 1;
    }
    assert(h@.subrange(i as int, i + n@.len()) =~= n@);
    true
}

/// The first index at or after `start` where `n` occurs in `h`.
pub fn find_from(h: &Vec<char>, n: &Vec<char>, start: usize) -> (r: Option<usize>)
    ensures
        match r {
            Some(i) => start <= i && occurs_at(h@, n@, i as int) && forall|j: int|
                start <= j < i ==> !occurs_at(h@, n@, j),
            None => forall|j: int| start <= j ==> !occurs_at(h@, n@, j),
        },
{
    let mut i = start;
    while i <= h.len()
        invariant
            start <= i,
            forall|j: int| start <= j < i ==> !occurs_at(h@, n@, j),
        decreases h.len() + 1 - i,
    {
        if occurs_at_exec(h, n, i) {
            return Some(i);
        }
        if i == h.len() {
            assert forall|j: int| start <= j implies !occurs_at(h@, n@, j) by {
                if j > i {
                    assert(!(j + n@.len() <= h@.len()));
                }
            }
            return None;
        }
        i += 1;
    }
    None
}

/// Whether `n` is a substring of `h`.
pub fn contains(h: &Vec<char>, n: &Vec<char>) -> (r: bool)
    ensures
        r == contains_spec(h@, n@),
{
    reveal(contains_spec);
    match find_from(h, n, 0) {
        Some(i) => true,
        None => false,
    }
}

/// Whether the text `h` contains the literal `n`.
pub fn contains_str(h: &Vec<char>, n: &str) -> (r: bool)
    ensures
        r == contains_spec(h@, n@),
{
    let nv = chars_of(n);
    contains(h, &nv)
}

/// `p` is a prefix of `s`.
pub open spec fn starts_with_spec(s: Seq<char>, p: Seq<char>) -> bool {
    p.len() <= s.len() && s.take(p.len() as int) == p
}

pub fn starts_with(s: &Vec<char>, p: &Vec<char>) -> (r: bool)
    ensures
        r == starts_with_spec(s@, p@),
{
    let r = occurs_at_exec(s, p, 0);
    assert(s@.subrange(0, p@.len() as int) =~= s@.take(p@.len() as int));
    r
}

pub open spec fn is_digit(c: char) -> bool {
    '0' <= c && c <= '9'
}

pub open spec fn digit_value(c: char) -> nat {
    (c as int - '0' as int) as nat
}

pub open spec fn all_digits(s: Seq<char>) -> bool {
    forall|i: int| 0 <= i < s.len() ==> is_digit(#[trigger] s[i])
}

/// The value of a string of decimal digits.
pub open spec fn digits_value(s: Seq<char>) -> nat
    decreases s.len(),
{
    if s.len() == 0 {
        0
    } else {
        digits_value(s.drop_last()) * 10 + digit_value(s.last())
    }
}

/// The value that `str::parse` reads into an unsigned integer: an optional
/// `+` and at least one decimal digit, with no bound on its size.
pub open spec fn unsigned_text(s: Seq<char>) -> Option<nat> {
    let d = if s.len() > 0 && s[0] == '+' {
        s.drop_first()
    } else {
        s
    };
    if d.len() > 0 && all_digits(d) {
        Some(digits_value(d))
    } else {
        None
    }
}

/// What `str::parse::<u32>` returns, as an option.
pub open spec fn parse_u32_spec(s: Seq<char>) -> Option<u32> {
    match unsigned_text(s) {
        Some(v) => if v <= u32::MAX {
            Some(v as u32)
        } else {
            None
        },
        None => None,
    }
}

/// What `str::parse::<u64>` returns, as an option.
pub open spec fn parse_u64_spec(s: Seq<char>) -> Option<u64> {
    match unsigned_text(s) {
        Some(v) => if v <= u64::MAX {
            Some(v as u64)
        } else {
            None
        },
        None => None,
    }
}

proof fn lemma_digit_step(v: nat, d: nat)
    requires
        d < 10,
    ensures
        v <= u64::MAX && v > (u64::MAX - d) / 10 ==> v * 10 + d > u64::MAX,
        v <= (u64::MAX - d) / 10 ==> v * 10 + d <= u64::MAX,
{
    assert(v <= u64::MAX && v > (u64::MAX - d) / 10 ==> v * 10 + d > u64::MAX)
        by (nonlinear_arith)
        requires
            d < 10,
    ;
    assert(v <= (u64::MAX - d) / 10 ==> v * 10 + d <= u64::MAX) by (nonlinear_arith)
        requires
            d < 10,
    ;
}

/// Reads the digits `lo..hi` of `s`: `None` unless all are digits and there is
/// at least one; otherwise the value, with `true` when it exceeds `u64::MAX`
/// (the value is then `u64::MAX`).
fn digits_capped(s: &Vec<char>, lo: usize, hi: usize) -> (r: Option<(u64, bool)>)
    requires
        lo <= hi <= s@.len(),
    ensures
        match r {
            Some((v, over)) => {
                let t = s@.subrange(lo as int, hi as int);
                &&& t.len() > 0
                &&& all_digits(t)
                &&& over == (digits_value(t) > u64::MAX)
                &&& !over ==> v == digits_value(t)
                &&& over ==> v == u64::MAX
            },
            None => {
                let t = s@.subrange(lo as int, hi as int);
                !(t.len() > 0 && all_digits(t))
            },
        },
{
    if lo == hi {
        return None;
    }
    let mut v: u64 = 0;
    let mut over = false;
    let mut i = lo;
    while i < hi
        invariant
            lo <= i <= hi <= s@.len(),
            all_digits(s@.subrange(lo as int, i as int)),
            over == (digits_value(s@.subrange(lo as int, i as int)) > u64::MAX),
            !over ==> v == digits_value(s@.subrange(lo as int, i as int)),
            over ==> v == u64::MAX,
        decreases hi - i,
    {
        let c = s[i];
        let ghost prev = s@.subrange(lo as int, i as int);
        let ghost next = s@.subrange(lo as int, i + 1);
        assert(next.drop_last() =~= prev);
        assert(next.last() == c);
        if !('0' <= c && c <= '9') {
            assert(s@.subrange(lo as int, hi as int)[i - lo] == c);
            return None;
        }
        let d = (c as u32 - '0' as u32) as u64;
        proof {
            lemma_digit_step(digits_value(prev), d as nat);
        }
        if !over {
            if v > (u64::MAX - d) / 10 {
                over = true;
                v = u64::MAX;
            } else {
                v = v * 10 + d;
            }
        } else {
            assert(digits_value(next) >= digits_value(prev)) by (nonlinear_arith)
                requires
                    digits_value(next) == digits_value(prev) * 10 + digit_value(c),
            ;
        }
        i += 1;
        assert(all_digits(next)) by {
            assert forall|j: int| 0 <= j < next.len() implies is_digit(#[trigger] next[j]) by {
                if j < prev.len() {
                    assert(next[j] == prev[j]);
                }
            }
        }
    }
    Some((v, over))
}

/// The unsigned value of the text `lo..hi` of `s`, with the optional `+`
/// that `str::parse` accepts; `(value, exceeds u64::MAX)`.
fn unsigned_capped(s: &Vec<char>, lo: usize, hi: usize) -> (r: Option<(u64, bool)>)
    requires
        lo <= hi <= s@.len(),
    ensures
        match unsigned_text(s@.subrange(lo as int, hi as int)) {
            Some(n) => r == Some(
                if n > u64::MAX {
                    (u64::MAX, true)
                } else {
                    (n as u64, false)
                },
            ),
            None => r is None,
        },
{
    let ghost t = s@.subrange(lo as int, hi as int);
    if lo < hi && s[lo] == '+' {
        assert(t.drop_first() =~= s@.subrange(lo + 1, hi as int));
        digits_capped(s, lo + 1, hi)
    } else {
        digits_capped(s, lo, hi)
    }
}

/// `str::parse::<u32>` on the text `lo..hi` of `s`.
pub fn parse_u32_at(s: &Vec<char>, lo: usize, hi: usize) -> (r: Option<u32>)
    requires
        lo <= hi <= s@.len(),
    ensures
        r == parse_u32_spec(s@.subrange(lo as int, hi as int)),
{
    match unsigned_capped(s, lo, hi) {
        Some((v, over)) => {
            if over || v > u32::MAX as u64 {
                None
            } else {
                Some(v as u32)
            }
        },
        None => None,
    }
}

/// `str::parse::<u64>` on the text `lo..hi` of `s`.
pub fn parse_u64_at(s: &Vec<char>, lo: usize, hi: usize) -> (r: Option<u64>)
    requires
        lo <= hi <= s@.len(),
    ensures
        r == parse_u64_spec(s@.subrange(lo as int, hi as int)),
{
    match unsigned_capped(s, lo, hi) {
        Some((v, over)) => {
            if over {
                None
            } else {
                Some(v)
            }
        },
        None => None,
    }
}

/// `str::parse::<u32>` on all of `s`.
pub fn parse_u32(s: &Vec<char>) -> (r: Option<u32>)
    ensures
        r == parse_u32_spec(s@),
{
    assert(s@.subrange(0, s@.len() as int) =~= s@);
    parse_u32_at(s, 0, s.len())
}

/// `str::parse::<u64>` on all of `s`.
pub fn parse_u64(s: &Vec<char>) -> (r: Option<u64>)
    ensures
        r == parse_u64_spec(s@),
{
    assert(s@.subrange(0, s@.len() as int) =~= s@);
    parse_u64_at(s, 0, s.len())
}

/// The unsigned value of `s`, capped at `u64::MAX`; `None` where `s` is no number.
pub fn unsigned_value_capped(s: &Vec<char>) -> (r: Option<u64>)
    ensures
        match unsigned_text(s@) {
            Some(n) => r == Some(
                if n > u64::MAX {
                    u64::MAX
                } else {
                    n as u64
                },
            ),
            None => r is None,
        },
{
    assert(s@.subrange(0, s@.len() as int) =~= s@);
    match unsigned_capped(s, 0, s.len()) {
        Some((v, _)) => Some(v),
        None => None,
    }
}

/// The character of a decimal digit.
pub open spec fn digit_char(d: nat) -> char {
    if d == 0 {
        '0'
    } else if d == 1 {
        '1'
    } else if d == 2 {
        '2'
    } else if d == 3 {
        '3'
    } else if d == 4 {
        '4'
    } else if d == 5 {
        '5'
    } else if d == 6 {
        '6'
    } else if d == 7 {
        '7'
    } else if d == 8 {
        '8'
    } else {
        '9'
    }
}

/// The decimal notation of `n`, as `Display` writes an unsigned integer.
pub open spec fn decimal(n: nat) -> Seq<char>
    decreases n,
{
    if n < 10 {
        seq![digit_char(n)]
    } else {
        decimal(n / 10).push(digit_char(n % 10))
    }
}

fn digit_char_exec(d: u64) -> (c: char)
    requires
        d < 10,
    ensures
        c == digit_char(d as nat),
{
    if d == 0 {
        '0'
    } else if d == 1 {
        '1'
    } else if d == 2 {
        '2'
    } else if d == 3 {
        '3'
    } else if d == 4 {
        '4'
    } else if d == 5 {
        '5'
    } else if d == 6 {
        '6'
    } else if d == 7 {
        '7'
    } else if d == 8 {
        '8'
    } else {
        '9'
    }
}

/// Appends the decimal notation of `n` to `s`.
pub fn push_decimal(s: &mut String, n: u64)
    ensures
        final(s)@ == old(s)@ + decimal(n as nat),
    decreases n,
{
    if n >= 10 {
        push_decimal(s, n / 10);
    }
    push_char(s, digit_char_exec(n % 10));
    proof {
        if n < 10 {
            assert(decimal(n as nat) =~= seq![digit_char(n as nat)]);
        }
    }
    assert(final(s)@ =~= old(s)@ + decimal(n as nat));
}


/// The first index where `n` occurs in `h`, as `str::find` gives it.
#[verifier::opaque]
pub open spec fn first_index(h: Seq<char>, n: Seq<char>) -> Option<int> {
    if contains_spec(h, n) {
        Some(
            choose|i: int| occurs_at(h, n, i) && forall|j: int| 0 <= j < i ==> !occurs_at(h, n, j),
        )
    } else {
        None
    }
}

/// The first index where `n` occurs in `h`.
pub fn find(h: &Vec<char>, n: &Vec<char>) -> (r: Option<usize>)
    ensures
        match r {
            Some(i) => first_index(h@, n@) == Some(i as int),
            None => first_index(h@, n@) is None,
        },
        r is Some ==> r.unwrap() + n@.len() <= h@.len(),
{
    reveal(contains_spec);
    reveal(first_index);
    let r = find_from(h, n, 0);
    match r {
        Some(i) => {
            assert(occurs_at(h@, n@, i as int));
            let ghost c = choose|c: int|
                occurs_at(h@, n@, c) && forall|j: int| 0 <= j < c ==> !occurs_at(h@, n@, j);
            assert(c == i);
        },
        None => {},
    }
    r
}

/// The first index where the literal `n` occurs in `h`.
pub fn find_str(h: &Vec<char>, n: &str) -> (r: Option<usize>)
    ensures
        match r {
            Some(i) => first_index(h@, n@) == Some(i as int),
            None => first_index(h@, n@) is None,
        },
        r is Some ==> r.unwrap() + n@.len() <= h@.len(),
{
    let nv = chars_of(n);
    find(h, &nv)
}

/// The characters `lo..hi` of `v`.
pub fn slice(v: &Vec<char>, lo: usize, hi: usize) -> (r: Vec<char>)
    requires
        lo <= hi <= v@.len(),
    ensures
        r@ == v@.subrange(lo as int, hi as int),
{
    let mut r: Vec<char> = Vec::new();
    let mut i = lo;
    while i < hi
        invariant
            lo <= i <= hi <= v@.len(),
            r@ == v@.subrange(lo as int, i as int),
        decreases hi - i,
    {
        r.push(v[i]);
        i += 1;
        assert(r@ =~= v@.subrange(lo as int, i as int));
    }
    r
}


/// The whitespace-separated words of `s`, as `str::split_whitespace` yields
/// them; `cur` is the word being read.
pub open spec fn words_from(s: Seq<char>, done: Seq<Seq<char>>, cur: Seq<char>) -> Seq<Seq<char>>
    decreases s.len(),
{
    if s.len() == 0 {
        if cur.len() > 0 {
            done.push(cur)
        } else {
            done
        }
    } else if is_ws(s[0]) {
        words_from(s.drop_first(), if cur.len() > 0 {
            done.push(cur)
        } else {
            done
        }, Seq::<char>::empty())
    } else {
        words_from(s.drop_first(), done, cur.push(s[0]))
    }
}

pub open spec fn words(s: Seq<char>) -> Seq<Seq<char>> {
    words_from(s, Seq::<Seq<char>>::empty(), Seq::<char>::empty())
}

/// The whitespace-separated words of `s`.
pub fn words_of(s: &Vec<char>) -> (r: Vec<Vec<char>>)
    ensures
        views(r@) == words(s@),
{
    let mut done: Vec<Vec<char>> = Vec::new();
    let mut cur: Vec<char> = Vec::new();
    let mut i: usize = 0;
    assert(s@.subrange(0, s@.len() as int) =~= s@);
    assert(views(done@) =~= Seq::<Seq<char>>::empty());
    assert(cur@ =~= Seq::<char>::empty());
    while i < s.len()
        invariant
            i <= s@.len(),
            words(s@) == words_from(s@.subrange(i as int, s@.len() as int), views(done@), cur@),
        decreases s.len() - i,
    {
        let ghost rest = s@.subrange(i as int, s@.len() as int);
        assert(rest.drop_first() =~= s@.subrange(i + 1, s@.len() as int));
        assert(rest[0] == s@[i as int]);
        let c = s[i];
        if is_whitespace(c) {
            if cur.len() > 0 {
                let ghost before = views(done@);
                done.push(cur);
                assert(views(done@) =~= before.push(cur@));
                cur = Vec::new();
            } else {
                cur = Vec::new();
            }
        } else {
            cur.push(c);
        }
        i += 1;
    }
    assert(s@.subrange(s@.len() as int, s@.len() as int) =~= Seq::<char>::empty());
    if cur.len() > 0 {
        let ghost before = views(done@);
        done.push(cur);
        assert(views(done@) =~= before.push(cur@));
    }
    done
}

/// The first word of `s`, or nothing.
pub open spec fn first_word(s: Seq<char>) -> Option<Seq<char>> {
    if words(s).len() > 0 {
        Some(words(s)[0])
    } else {
        None
    }
}

/// The first word of `s`.
pub fn first_word_of(s: &Vec<char>) -> (r: Option<Vec<char>>)
    ensures
        match r {
            Some(w) => first_word(s@) == Some(w@),
            None => first_word(s@) is None,
        },
{
    let ws = words_of(s);
    if ws.len() > 0 {
        assert(views(ws@)[0] == ws@[0]@);
        Some(ws[0].clone())
    } else {
        None
    }
}

/// The text of `h` after the first occurrence of `n`.
pub open spec fn after_first(h: Seq<char>, n: Seq<char>) -> Option<Seq<char>> {
    match first_index(h, n) {
        Some(i) => Some(h.subrange(i + n.len(), h.len() as int)),
        None => None,
    }
}

/// The text of `h` after the first occurrence of the literal `n`.
pub fn after_first_of(h: &Vec<char>, n: &str) -> (r: Option<Vec<char>>)
    ensures
        match r {
            Some(a) => after_first(h@, n@) == Some(a@),
            None => after_first(h@, n@) is None,
        },
{
    let nv = chars_of(n);
    match find(h, &nv) {
        Some(i) => {
            assert(i + nv.len() <= h.len());
            Some(slice(h, i + nv.len(), h.len()))
        },
        None => None,
    }
}


/// Where `n` occurs in `h`, it has a first occurrence.
pub proof fn lemma_contains_first_index(h: Seq<char>, n: Seq<char>)
    ensures
        contains_spec(h, n) <==> first_index(h, n) is Some,
{
    reveal(first_index);
}


/// Whether `a` and `b` hold the same characters.
pub fn same_chars(a: &Vec<char>, b: &Vec<char>) -> (r: bool)
    ensures
        r == (a@ == b@),
{
    if a.len() != b.len() {
        return false;
    }
    let r = starts_with(a, b);
    assert(a@.take(b@.len() as int) =~= a@);
    r
}

} // verus!
