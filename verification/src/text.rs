//! Character-sequence utilities shared by the parser, the naming policy and
//! the renderers: conversion between `str`/`String` and `Vec<char>`, splitting
//! on separators, prefix handling, trimming and decimal formatting/parsing.

use vstd::prelude::*;

use vstd::string::StringExecFns;

verus! {

// ---------------------------------------------------------------------------
// Conversions between strings and character vectors
// ---------------------------------------------------------------------------

/// Collect the characters of a string slice into a vector.
pub fn to_chars(s: &str) -> (r: Vec<char>)
    ensures
        r@ == s@,
{
    let len = s.unicode_len();
    let mut r: Vec<char> = Vec::new();
    let mut i: usize = 0;
    while i < len
        invariant
            len == s@.len(),
            i <= len,
            r@ == s@.subrange(0, i as int),
        decreases len - i,
    {
        r.push(s.get_char(i));
        i = i + 1;
        proof {
            assert(r@ =~= s@.subrange(0, i as int));
        }
    }
    proof {
        assert(r@ =~= s@);
    }
    r
}

/// Relies on `core::iter::Iterator::collect`: collecting an iterator of
/// characters into a `String` yields exactly those characters, in order.
#[verifier::external_body]
pub fn string_from_chars(v: &Vec<char>) -> (r: String)
    ensures
        r@ == v@,
{
    v.iter().collect()
}

/// Compare two string slices character by character.
pub fn str_eq(a: &str, b: &str) -> (r: bool)
    ensures
        r == (a@ == b@),
{
    let alen = a.unicode_len();
    let blen = b.unicode_len();
    if alen != blen {
        proof {
            assert(a@ != b@) by {
                assert(a@.len() != b@.len());
            }
        }
        return false;
    }
    let mut i: usize = 0;
    while i < alen
        invariant
            alen == a@.len(),
            alen == b@.len(),
            i <= alen,
            forall|j: int| 0 <= j < i ==> a@[j] == b@[j],
        decreases alen - i,
    {
        if a.get_char(i) != b.get_char(i) {
            return false;
        }
        i = i + 1;
    }
    proof {
        assert(a@ =~= b@);
    }
    true
}

/// Copy the characters of `v` in positions `[a, b)` into a fresh vector.
pub fn subvec(v: &Vec<char>, a: usize, b: usize) -> (r: Vec<char>)
    requires
        a <= b <= v@.len(),
    ensures
        r@ == v@.subrange(a as int, b as int),
{
    let mut r: Vec<char> = Vec::new();
    let mut i: usize = a;
    while i < b
        invariant
            a <= i <= b <= v@.len(),
            r@ == v@.subrange(a as int, i as int),
        decreases b - i,
    {
        r.push(v[i]);
        i = i + 1;
        proof {
            assert(r@ =~= v@.subrange(a as int, i as int));
        }
    }
    r
}

/// Append the characters of `src` to `dst`.
pub fn push_all(dst: &mut Vec<char>, src: &Vec<char>)
    ensures
        final(dst)@ == old(dst)@ + src@,
{
    let n = src.len();
    let mut i: usize = 0;
    while i < n
        invariant
            n == src@.len(),
            i <= n,
            dst@ == old(dst)@ + src@.subrange(0, i as int),
        decreases n - i,
    {
        dst.push(src[i]);
        i = i + 1;
        proof {
            assert(dst@ =~= old(dst)@ + src@.subrange(0, i as int));
        }
    }
    proof {
        assert(src@.subrange(0, n as int) =~= src@);
    }
}

// ---------------------------------------------------------------------------
// Finding and splitting on a separator character
// ---------------------------------------------------------------------------

/// Index of the first occurrence of `c` in `s`, or `s.len()` if absent.
pub open spec fn find_char(s: Seq<char>, c: char) -> int
    decreases s.len(),
{
    if s.len() == 0 {
        0
    } else if s[0] == c {
        0
    } else {
        1 + find_char(s.drop_first(), c)
    }
}

pub proof fn lemma_find_char(s: Seq<char>, c: char)
    ensures
        0 <= find_char(s, c) <= s.len(),
        find_char(s, c) < s.len() ==> s[find_char(s, c)] == c,
        forall|j: int| 0 <= j < find_char(s, c) ==> s[j] != c,
    decreases s.len(),
{
    if s.len() != 0 && s[0] != c {
        lemma_find_char(s.drop_first(), c);
        let i = find_char(s, c);
        assert(forall|j: int| 1 <= j < i ==> s[j] == s.drop_first()[j - 1]);
    }
}

/// The first occurrence is determined: if everything before `i` differs from
/// `c`, and `i` is either the length or an occurrence, then `find_char` is `i`.
pub proof fn lemma_find_char_is(s: Seq<char>, c: char, i: int)
    requires
        0 <= i <= s.len(),
        forall|j: int| 0 <= j < i ==> s[j] != c,
        i == s.len() || s[i] == c,
    ensures
        find_char(s, c) == i,
    decreases s.len(),
{
    if s.len() != 0 && s[0] != c {
        assert(forall|j: int| 0 <= j < i - 1 ==> s.drop_first()[j] == s[j + 1]);
        lemma_find_char_is(s.drop_first(), c, i - 1);
    }
}

/// The parts of `s` delimited by `sep`, in order; always at least one part.
pub open spec fn spec_split(s: Seq<char>, sep: char) -> Seq<Seq<char>>
    decreases s.len() via spec_split_decreases
{
    let i = find_char(s, sep);
    if i == s.len() {
        seq![s]
    } else {
        seq![s.subrange(0, i)] + spec_split(s.subrange(i + 1, s.len() as int), sep)
    }
}

#[via_fn]
proof fn spec_split_decreases(s: Seq<char>, sep: char) {
    lemma_find_char(s, sep);
}

pub proof fn lemma_split_len(s: Seq<char>, sep: char)
    ensures
        spec_split(s, sep).len() >= 1,
    decreases s.len(),
{
    lemma_find_char(s, sep);
    let i = find_char(s, sep);
    if i != s.len() {
        lemma_split_len(s.subrange(i + 1, s.len() as int), sep);
    }
}

/// The views of a sequence of strings.
pub open spec fn strings_view(s: Seq<String>) -> Seq<Seq<char>> {
    Seq::new(s.len(), |i: int| s[i]@)
}

/// Make an owned copy of a string slice.
pub fn str_string(s: &str) -> (r: String)
    ensures
        r@ == s@,
{
    s.to_owned()
}

/// The views of a sequence of character vectors.
pub open spec fn chars_view(s: Seq<Vec<char>>) -> Seq<Seq<char>> {
    Seq::new(s.len(), |i: int| s[i]@)
}

/// Split `v` on the character `sep`.
pub fn split_char(v: &Vec<char>, sep: char) -> (r: Vec<Vec<char>>)
    ensures
        chars_view(r@) == spec_split(v@, sep),
        r@.len() >= 1,
{
    let mut r: Vec<Vec<char>> = Vec::new();
    let mut start: usize = 0;
    let mut i: usize = 0;
    let len = v.len();
    proof {
        assert(v@.subrange(0, len as int) =~= v@);
        assert(chars_view(r@) + spec_split(v@, sep) =~= spec_split(v@, sep));
    }
    while i < len
        invariant
            len == v@.len(),
            start <= i <= len,
            spec_split(v@, sep) == chars_view(r@) + spec_split(
                v@.subrange(start as int, len as int),
                sep,
            ),
            forall|j: int| start <= j < i ==> v@[j] != sep,
        decreases len - i,
    {
        if v[i] == sep {
            let ghost prev = chars_view(r@);
            let part = subvec(v, start, i);
            proof {
                let rest = v@.subrange(start as int, len as int);
                assert(forall|j: int| 0 <= j < i - start ==> rest[j] == v@[start + j] && rest[j]
                    != sep);
                assert(rest[i - start] == sep);
                lemma_find_char_is(rest, sep, i - start);
                assert(rest.subrange(0, i - start) =~= v@.subrange(start as int, i as int));
                assert(rest.subrange(i - start + 1, rest.len() as int) =~= v@.subrange(
                    i as int + 1,
                    len as int,
                ));
                assert(spec_split(rest, sep) == seq![v@.subrange(start as int, i as int)]
                    + spec_split(v@.subrange(i as int + 1, len as int), sep));
            }
            r.push(part);
            proof {
                assert(chars_view(r@) =~= prev.push(v@.subrange(start as int, i as int)));
                assert(prev.push(v@.subrange(start as int, i as int)) + spec_split(
                    v@.subrange(i as int + 1, len as int),
                    sep,
                ) =~= prev + spec_split(v@.subrange(start as int, len as int), sep));
            }
            start = i + 1;
        }
        i = i + 1;
    }
    proof {
        let rest = v@.subrange(start as int, len as int);
        assert(forall|j: int| 0 <= j < rest.len() ==> rest[j] == v@[start + j] && rest[j] != sep);
        lemma_find_char_is(rest, sep, rest.len() as int);
        assert(spec_split(rest, sep) == seq![rest]);
    }
    let ghost prev = chars_view(r@);
    let last = subvec(v, start, len);
    r.push(last);
    proof {
        assert(chars_view(r@) =~= prev.push(v@.subrange(start as int, len as int)));
        assert(prev.push(v@.subrange(start as int, len as int)) =~= prev + seq![v@.subrange(
            start as int,
            len as int,
        )]);
        assert(chars_view(r@) == spec_split(v@, sep));
        lemma_split_len(v@, sep);
    }
    r
}

// ---------------------------------------------------------------------------
// Splitting on a blank line (the block separator of the porcelain listing)
// ---------------------------------------------------------------------------

/// Whether a block separator (two consecutive newlines) starts at `j`.
pub open spec fn nn_at(s: Seq<char>, j: int) -> bool {
    0 <= j && j + 2 <= s.len() && s[j] == '\n' && s[j + 1] == '\n'
}

/// Index of the first block separator in `s`, or `s.len()` if there is none.
pub open spec fn find_nn(s: Seq<char>) -> int
    decreases s.len(),
{
    if s.len() < 2 {
        s.len() as int
    } else if s[0] == '\n' && s[1] == '\n' {
        0
    } else {
        1 + find_nn(s.drop_first())
    }
}

pub proof fn lemma_find_nn(s: Seq<char>)
    ensures
        0 <= find_nn(s) <= s.len(),
        find_nn(s) + 2 <= s.len() ==> nn_at(s, find_nn(s)),
        forall|j: int| 0 <= j < find_nn(s) ==> !nn_at(s, j),
    decreases s.len(),
{
    if s.len() >= 2 && !(s[0] == '\n' && s[1] == '\n') {
        lemma_find_nn(s.drop_first());
        assert(forall|j: int|
            1 <= j < find_nn(s) && j + 2 <= s.len() ==> #[trigger] nn_at(s, j) == nn_at(
                s.drop_first(),
                j - 1,
            ));
    }
}

pub proof fn lemma_find_nn_is(s: Seq<char>, i: int)
    requires
        0 <= i <= s.len(),
        forall|j: int| 0 <= j < i ==> !nn_at(s, j),
        i == s.len() || nn_at(s, i),
    ensures
        i + 2 <= s.len() ==> find_nn(s) == i,
        i == s.len() ==> find_nn(s) + 2 > s.len(),
    decreases s.len(),
{
    lemma_find_nn(s);
    if i + 2 <= s.len() {
        if find_nn(s) < i {
            assert(nn_at(s, find_nn(s)));
        }
        if find_nn(s) > i {
            assert(!nn_at(s, i));
        }
    } else {
        if find_nn(s) + 2 <= s.len() {
            assert(nn_at(s, find_nn(s)));
        }
    }
}

/// The blocks of `s`: the parts delimited by blank lines, in order.
pub open spec fn spec_blocks(s: Seq<char>) -> Seq<Seq<char>>
    decreases s.len() via spec_blocks_decreases
{
    let i = find_nn(s);
    if i + 2 <= s.len() {
        seq![s.subrange(0, i)] + spec_blocks(s.subrange(i + 2, s.len() as int))
    } else {
        seq![s]
    }
}

#[via_fn]
proof fn spec_blocks_decreases(s: Seq<char>) {
    lemma_find_nn(s);
}

/// Split `v` into blocks on blank lines.
pub fn split_blocks(v: &Vec<char>) -> (r: Vec<Vec<char>>)
    ensures
        chars_view(r@) == spec_blocks(v@),
{
    let mut r: Vec<Vec<char>> = Vec::new();
    let mut start: usize = 0;
    let mut i: usize = 0;
    let len = v.len();
    proof {
        assert(v@.subrange(0, len as int) =~= v@);
        assert(chars_view(r@) + spec_blocks(v@) =~= spec_blocks(v@));
    }
    while i < len
        invariant
            len == v@.len(),
            start <= i <= len,
            spec_blocks(v@) == chars_view(r@) + spec_blocks(
                v@.subrange(start as int, len as int),
            ),
            forall|j: int| start <= j < i ==> !nn_at(v@, j),
        decreases len - i,
    {
        if v[i] == '\n' && i + 1 < len && v[i + 1] == '\n' {
            let ghost prev = chars_view(r@);
            let part = subvec(v, start, i);
            proof {
                let rest = v@.subrange(start as int, len as int);
                assert(forall|j: int|
                    0 <= j < i - start ==> #[trigger] nn_at(rest, j) == nn_at(v@, start + j));
                assert(forall|j: int| 0 <= j < i - start ==> !nn_at(rest, j));
                assert(nn_at(rest, i - start));
                lemma_find_nn_is(rest, i - start);
                assert(rest.subrange(0, i - start) =~= v@.subrange(start as int, i as int));
                assert(rest.subrange(i - start + 2, rest.len() as int) =~= v@.subrange(
                    i as int + 2,
                    len as int,
                ));
                assert(spec_blocks(rest) == seq![v@.subrange(start as int, i as int)]
                    + spec_blocks(v@.subrange(i as int + 2, len as int)));
            }
            r.push(part);
            proof {
                assert(chars_view(r@) =~= prev.push(v@.subrange(start as int, i as int)));
                assert(prev.push(v@.subrange(start as int, i as int)) + spec_blocks(
                    v@.subrange(i as int + 2, len as int),
                ) =~= prev + spec_blocks(v@.subrange(start as int, len as int)));
            }
            start = i + 2;
            i = i + 2;
        } else {
            i = i + 1;
        }
    }
    proof {
        let rest = v@.subrange(start as int, len as int);
        assert(forall|j: int|
            0 <= j < rest.len() ==> #[trigger] nn_at(rest, j) == nn_at(v@, start + j));
        assert(forall|j: int| 0 <= j < rest.len() ==> !nn_at(rest, j));
        lemma_find_nn_is(rest, rest.len() as int);
        assert(spec_blocks(rest) == seq![rest]);
    }
    let ghost prev = chars_view(r@);
    let last = subvec(v, start, len);
    r.push(last);
    proof {
        assert(chars_view(r@) =~= prev.push(v@.subrange(start as int, len as int)));
        assert(prev.push(v@.subrange(start as int, len as int)) =~= prev + seq![v@.subrange(
            start as int,
            len as int,
        )]);
        assert(chars_view(r@) == spec_blocks(v@));
    }
    r
}

// ---------------------------------------------------------------------------
// Lines (split on newline, strip a carriage return, drop a trailing empty)
// ---------------------------------------------------------------------------

/// Strip one trailing carriage return, as the standard line iterator does.
pub open spec fn strip_cr(l: Seq<char>) -> Seq<char> {
    if l.len() > 0 && l.last() == '\r' {
        l.drop_last()
    } else {
        l
    }
}

/// The lines of `s`: newline-separated, a carriage return before a newline is
/// stripped, and a final newline does not open an empty last line.
pub open spec fn spec_lines(s: Seq<char>) -> Seq<Seq<char>> {
    let ps = spec_split(s, '\n');
    let qs = Seq::new(ps.len(), |i: int| if i < ps.len() - 1 { strip_cr(ps[i]) } else { ps[i] });
    if qs.len() > 0 && qs.last().len() == 0 {
        qs.drop_last()
    } else {
        qs
    }
}

/// Split `v` into lines.
pub fn lines_of(v: &Vec<char>) -> (r: Vec<Vec<char>>)
    ensures
        chars_view(r@) == spec_lines(v@),
{
    let parts = split_char(v, '\n');
    let ghost ps = spec_split(v@, '\n');
    let n = parts.len();
    let mut r: Vec<Vec<char>> = Vec::new();
    let mut i: usize = 0;
    while i < n - 1
        invariant
            n == parts@.len(),
            n >= 1,
            chars_view(parts@) == ps,
            i <= n - 1,
            chars_view(r@).len() == i,
            forall|j: int| 0 <= j < i ==> chars_view(r@)[j] == strip_cr(ps[j]),
        decreases n - 1 - i,
    {
        let p = &parts[i];
        let plen = p.len();
        let stripped = if plen > 0 && p[plen - 1] == '\r' {
            subvec(p, 0, plen - 1)
        } else {
            subvec(p, 0, plen)
        };
        proof {
            assert(p@.subrange(0, p@.len() as int) =~= p@);
            if p@.len() > 0 && p@.last() == '\r' {
                assert(p@.subrange(0, p@.len() - 1) =~= p@.drop_last());
            }
            assert(p@ == chars_view(parts@)[i as int]);
            assert(stripped@ == strip_cr(ps[i as int]));
        }
        let ghost prev = chars_view(r@);
        r.push(stripped);
        proof {
            assert(chars_view(r@) =~= prev.push(strip_cr(ps[i as int])));
        }
        i = i + 1;
    }
    let lastp = &parts[n - 1];
    if lastp.len() > 0 {
        let ghost prev = chars_view(r@);
        let copy = subvec(lastp, 0, lastp.len());
        proof {
            assert(lastp@ == chars_view(parts@)[n - 1]);
            assert(copy@ =~= ps[n - 1]);
        }
        r.push(copy);
        proof {
            let qs = Seq::new(ps.len(), |j: int| if j < ps.len() - 1 { strip_cr(ps[j]) } else { ps[j] });
            assert(chars_view(r@) =~= prev.push(ps[n - 1]));
            assert(qs.last().len() != 0);
            assert(chars_view(r@) =~= qs);
        }
    } else {
        proof {
            let qs = Seq::new(ps.len(), |j: int| if j < ps.len() - 1 { strip_cr(ps[j]) } else { ps[j] });
            assert(lastp@ == chars_view(parts@)[n - 1]);
            assert(qs.last().len() == 0);
            assert(chars_view(r@) =~= qs.drop_last());
        }
    }
    r
}

// ---------------------------------------------------------------------------
// Prefixes
// ---------------------------------------------------------------------------

/// Whether `p` is a prefix of `s`.
pub open spec fn has_prefix(s: Seq<char>, p: Seq<char>) -> bool {
    p.len() <= s.len() && s.subrange(0, p.len() as int) == p
}

/// Test whether the characters of `p` open `v`.
pub fn starts_with_chars(v: &Vec<char>, p: &Vec<char>) -> (r: bool)
    ensures
        r == has_prefix(v@, p@),
{
    let plen = p.len();
    if plen > v.len() {
        return false;
    }
    let mut i: usize = 0;
    while i < plen
        invariant
            plen == p@.len() <= v@.len(),
            i <= plen,
            forall|j: int| 0 <= j < i ==> v@[j] == p@[j],
        decreases plen - i,
    {
        if v[i] != p[i] {
            proof {
                assert(v@.subrange(0, plen as int)[i as int] != p@[i as int]);
            }
            return false;
        }
        i = i + 1;
    }
    proof {
        assert(v@.subrange(0, plen as int) =~= p@);
    }
    true
}

/// Compare two character vectors.
pub fn chars_eq(a: &Vec<char>, b: &Vec<char>) -> (r: bool)
    ensures
        r == (a@ == b@),
{
    if a.len() != b.len() {
        return false;
    }
    let r = starts_with_chars(a, b);
    proof {
        if r {
            assert(a@.subrange(0, b@.len() as int) =~= a@);
        } else {
            assert(a@ != b@) by {
                if a@ == b@ {
                    assert(a@.subrange(0, b@.len() as int) =~= a@);
                }
            }
        }
    }
    r
}

/// The text of `v` after the prefix `p`.
pub fn strip_prefix_chars(v: &Vec<char>, p: &Vec<char>) -> (r: Option<Vec<char>>)
    ensures
        has_prefix(v@, p@) ==> r is Some && r->Some_0@ == v@.subrange(
            p@.len() as int,
            v@.len() as int,
        ),
        !has_prefix(v@, p@) ==> r is None,
{
    if starts_with_chars(v, p) {
        Some(subvec(v, p.len(), v.len()))
    } else {
        None
    }
}

// ---------------------------------------------------------------------------
// Trimming
// ---------------------------------------------------------------------------

/// The whitespace characters stripped from command diagnostics.
pub open spec fn is_space(c: char) -> bool {
    c == ' ' || c == '\t' || c == '\n' || c == '\r'
}

/// `s` without leading and trailing whitespace.
pub open spec fn spec_trim(s: Seq<char>) -> Seq<char>
    decreases s.len(),
{
    if s.len() > 0 && is_space(s[0]) {
        spec_trim(s.drop_first())
    } else if s.len() > 0 && is_space(s.last()) {
        spec_trim(s.drop_last())
    } else {
        s
    }
}

proof fn lemma_trim_range(s: Seq<char>, a: int, b: int)
    requires
        0 <= a <= b <= s.len(),
        forall|j: int| 0 <= j < a ==> is_space(s[j]),
        forall|j: int| b <= j < s.len() ==> is_space(s[j]),
        a == b || (!is_space(s[a]) && !is_space(s[b - 1])),
    ensures
        spec_trim(s) == s.subrange(a, b),
    decreases s.len(),
{
    if a > 0 {
        assert(is_space(s[0]));
        let t = s.drop_first();
        assert(forall|j: int| 0 <= j < a - 1 ==> t[j] == s[j + 1]);
        assert(forall|j: int| b - 1 <= j < t.len() ==> t[j] == s[j + 1]);
        lemma_trim_range(t, a - 1, b - 1);
        assert(t.subrange(a - 1, b - 1) =~= s.subrange(a, b));
    } else if b < s.len() {
        assert(is_space(s.last()));
        if s.len() > 0 && is_space(s[0]) {
            // a == 0 and b > a would contradict !is_space(s[a]); so a == b
            assert(a == b);
            let t = s.drop_first();
            assert(forall|j: int| 0 <= j < t.len() ==> t[j] == s[j + 1]);
            lemma_trim_range(t, 0, 0);
            assert(t.subrange(0, 0) =~= s.subrange(0, 0));
        } else {
            let t = s.drop_last();
            assert(forall|j: int| b <= j < t.len() ==> t[j] == s[j]);
            lemma_trim_range(t, a, b);
            assert(t.subrange(a, b) =~= s.subrange(a, b));
        }
    } else {
        assert(s.subrange(0, s.len() as int) =~= s);
    }
}

fn is_space_char(c: char) -> (r: bool)
    ensures
        r == is_space(c),
{
    c == ' ' || c == '\t' || c == '\n' || c == '\r'
}

/// Strip leading and trailing whitespace from `v`.
pub fn trim_chars(v: &Vec<char>) -> (r: Vec<char>)
    ensures
        r@ == spec_trim(v@),
{
    let len = v.len();
    let mut a: usize = 0;
    while a < len && is_space_char(v[a])
        invariant
            len == v@.len(),
            a <= len,
            forall|j: int| 0 <= j < a ==> is_space(v@[j]),
        decreases len - a,
    {
        a = a + 1;
    }
    let mut b: usize = len;
    while b > a && is_space_char(v[b - 1])
        invariant
            len == v@.len(),
            a <= b <= len,
            forall|j: int| 0 <= j < a ==> is_space(v@[j]),
            forall|j: int| b <= j < len ==> is_space(v@[j]),
        decreases b,
    {
        b = b - 1;
    }
    proof {
        lemma_trim_range(v@, a as int, b as int);
    }
    subvec(v, a, b)
}

/// Strip leading and trailing whitespace from a string slice.
pub fn trim_str(s: &str) -> (r: String)
    ensures
        r@ == spec_trim(s@),
{
    string_from_chars(&trim_chars(&to_chars(s)))
}

/// Concatenate two string slices.
pub fn concat2(a: &str, b: &str) -> (r: String)
    ensures
        r@ == a@ + b@,
{
    let mut out = a.to_owned();
    out.append(b);
    out
}

// ---------------------------------------------------------------------------
// Replacing path separators in branch names
// ---------------------------------------------------------------------------

/// `s` with every slash replaced by a dash.
pub open spec fn spec_dashed(s: Seq<char>) -> Seq<char> {
    s.map_values(|c: char| if c == '/' { '-' } else { c })
}

/// Replace every slash in `v` by a dash.
pub fn replace_slash(v: &Vec<char>) -> (r: Vec<char>)
    ensures
        r@ == spec_dashed(v@),
        forall|j: int| 0 <= j < r@.len() ==> r@[j] != '/',
{
    let len = v.len();
    let mut r: Vec<char> = Vec::new();
    let mut i: usize = 0;
    while i < len
        invariant
            len == v@.len(),
            i <= len,
            r@ == spec_dashed(v@.subrange(0, i as int)),
            forall|j: int| 0 <= j < r@.len() ==> r@[j] != '/',
        decreases len - i,
    {
        let c = v[i];
        if c == '/' {
            r.push('-');
        } else {
            r.push(c);
        }
        i = i + 1;
        proof {
            assert(r@ =~= spec_dashed(v@.subrange(0, i as int)));
        }
    }
    proof {
        assert(v@.subrange(0, len as int) =~= v@);
    }
    r
}

// ---------------------------------------------------------------------------
// Finding the last occurrence of a character
// ---------------------------------------------------------------------------

/// Index of the last occurrence of `c` in `s`, or `-1` if absent.
pub open spec fn rfind_char(s: Seq<char>, c: char) -> int
    decreases s.len(),
{
    if s.len() == 0 {
        -1
    } else if s.last() == c {
        s.len() - 1
    } else {
        rfind_char(s.drop_last(), c)
    }
}

pub proof fn lemma_rfind_char(s: Seq<char>, c: char)
    ensures
        -1 <= rfind_char(s, c) < s.len(),
        rfind_char(s, c) >= 0 ==> s[rfind_char(s, c)] == c,
        forall|j: int| rfind_char(s, c) < j < s.len() ==> s[j] != c,
    decreases s.len(),
{
    if s.len() > 0 && s.last() != c {
        lemma_rfind_char(s.drop_last(), c);
        assert(forall|j: int| 0 <= j < s.len() - 1 ==> s.drop_last()[j] == s[j]);
    }
}

/// Find the last occurrence of `c` in `v`.
pub fn rfind(v: &Vec<char>, c: char) -> (r: Option<usize>)
    ensures
        rfind_char(v@, c) >= 0 ==> r is Some && r->Some_0 == rfind_char(v@, c),
        rfind_char(v@, c) < 0 ==> r is None,
{
    let mut i: usize = v.len();
    while i > 0
        invariant
            i <= v@.len(),
            forall|j: int| i <= j < v@.len() ==> v@[j] != c,
        decreases i,
    {
        i = i - 1;
        if v[i] == c {
            proof {
                lemma_rfind_char(v@, c);
                assert(rfind_char(v@, c) >= i);
                assert(rfind_char(v@, c) <= i);
            }
            return Some(i);
        }
    }
    proof {
        lemma_rfind_char(v@, c);
        if rfind_char(v@, c) >= 0 {
            assert(v@[rfind_char(v@, c)] == c);
        }
    }
    None
}

} // verus!
