//! Normalization of raw key names.
//!
//! Captured key events and persisted configuration carry key names in several
//! raw forms: wrapped in `Character(..)` or `Named(..)`, quoted, prefixed
//! with `KEY_`, or padded with whitespace. [`normalize_key`] reduces such a
//! form to the bare symbolic name used by the lookup table.

use vstd::prelude::*;

verus! {

use crate::text::{chars_eq_str, chars_to_string, str_chars, subvec};
use vstd::string::StrSliceExecFns;

/// The whitespace characters trimmed from raw key names.
pub open spec fn is_space_char(c: char) -> bool {
    c == ' ' || c == '\t' || c == '\n' || c == '\r'
}

/// Drops leading characters satisfying `p`.
pub open spec fn spec_drop_leading(s: Seq<char>, p: spec_fn(char) -> bool) -> Seq<char>
    decreases s.len(),
{
    if s.len() > 0 && p(s[0]) {
        spec_drop_leading(s.drop_first(), p)
    } else {
        s
    }
}

/// Drops trailing characters satisfying `p`.
pub open spec fn spec_drop_trailing(s: Seq<char>, p: spec_fn(char) -> bool) -> Seq<char>
    decreases s.len(),
{
    if s.len() > 0 && p(s.last()) {
        spec_drop_trailing(s.drop_last(), p)
    } else {
        s
    }
}

/// Drops characters satisfying `p` from both ends.
pub open spec fn spec_trim_by(s: Seq<char>, p: spec_fn(char) -> bool) -> Seq<char> {
    spec_drop_trailing(spec_drop_leading(s, p), p)
}

/// Whitespace trimming, as applied to raw key names.
pub open spec fn spec_trim(s: Seq<char>) -> Seq<char> {
    spec_trim_by(s, |c: char| is_space_char(c))
}

/// `s` begins with the characters of `p`.
pub open spec fn spec_starts_with(s: Seq<char>, p: Seq<char>) -> bool {
    s.len() >= p.len() && s.subrange(0, p.len() as int) == p
}

/// The payload between the parentheses of a wrapper form, with one optional
/// quote removed from either side. The leading quote is taken greedily; the
/// trailing quote is taken whenever a non-empty payload remains.
pub open spec fn spec_unquote_inner(mid: Seq<char>) -> Seq<char> {
    let a: int = if mid.len() > 0 && mid[0] == '"' {
        1
    } else {
        0
    };
    if mid.len() - a >= 2 && mid.last() == '"' {
        mid.subrange(a, mid.len() - 1)
    } else if mid.len() - a >= 1 {
        mid.subrange(a, mid.len() as int)
    } else {
        mid
    }
}

/// Strips one `w(..)` wrapper: if `s` reads `w`, an opening parenthesis, a
/// non-empty payload, and a closing parenthesis, the unquoted payload
/// remains; otherwise `s` is unchanged.
pub open spec fn spec_strip_wrapper(s: Seq<char>, w: Seq<char>) -> Seq<char> {
    if s.len() >= w.len() + 3 && s.subrange(0, w.len() as int) == w && s[w.len() as int] == '('
        && s.last() == ')' {
        spec_unquote_inner(s.subrange(w.len() + 1 as int, s.len() - 1))
    } else {
        s
    }
}

/// Strips one `KEY_KEY_` prefix, or else one `KEY_` prefix.
pub open spec fn spec_strip_norm_prefix(s: Seq<char>) -> Seq<char> {
    if spec_starts_with(s, "KEY_KEY_"@) {
        s.subrange("KEY_KEY_"@.len() as int, s.len() as int)
    } else if spec_starts_with(s, "KEY_"@) {
        s.subrange("KEY_"@.len() as int, s.len() as int)
    } else {
        s
    }
}

/// Uppercases one ASCII letter; anything else is unchanged.
pub open spec fn spec_ascii_upper(c: char) -> char {
    match c {
        'a' => 'A',
        'b' => 'B',
        'c' => 'C',
        'd' => 'D',
        'e' => 'E',
        'f' => 'F',
        'g' => 'G',
        'h' => 'H',
        'i' => 'I',
        'j' => 'J',
        'k' => 'K',
        'l' => 'L',
        'm' => 'M',
        'n' => 'N',
        'o' => 'O',
        'p' => 'P',
        'q' => 'Q',
        'r' => 'R',
        's' => 'S',
        't' => 'T',
        'u' => 'U',
        'v' => 'V',
        'w' => 'W',
        'x' => 'X',
        'y' => 'Y',
        'z' => 'Z',
        _ => c,
    }
}

/// A name of exactly one character that fits in one byte of UTF-8.
pub open spec fn spec_is_single_byte(s: Seq<char>) -> bool {
    s.len() == 1 && (s[0] as u32) < 128
}

/// The normalized form of a raw key name: whitespace trimmed, one
/// `Character(..)` and then one `Named(..)` wrapper stripped, one `KEY_` or
/// `KEY_KEY_` prefix dropped, quotes trimmed, and a single one-byte character
/// uppercased.
pub open spec fn spec_normalize_key(s: Seq<char>) -> Seq<char> {
    let t = spec_trim(s);
    let c = spec_strip_wrapper(t, "Character"@);
    let n = spec_strip_wrapper(c, "Named"@);
    let k = spec_strip_norm_prefix(n);
    let q = spec_trim_by(
        spec_trim_by(spec_trim(k), |ch: char| ch == '"'),
        |ch: char| ch == '\'',
    );
    if spec_is_single_byte(q) {
        seq![spec_ascii_upper(q[0])]
    } else {
        q
    }
}

/// Removes characters satisfying the trimming predicate from both ends.
fn trim_by_vec(v: Vec<char>, Ghost(p): Ghost<spec_fn(char) -> bool>, f: impl Fn(char) -> bool) -> (r:
    Vec<char>)
    requires
        forall|c: char, b: bool| f.ensures((c,), b) ==> b == p(c),
        forall|c: char| f.requires((c,)),
    ensures
        r@ == spec_trim_by(v@, p),
{
    let ghost orig = v@;
    let mut v = v;
    while v.len() > 0 && f(v[0])
        invariant
            forall|c: char, b: bool| f.ensures((c,), b) ==> b == p(c),
            forall|c: char| f.requires((c,)),
            spec_drop_leading(v@, p) == spec_drop_leading(orig, p),
        decreases v@.len(),
    {
        let ghost pre = v@;
        v.remove(0);
        proof {
            assert(v@ =~= pre.drop_first());
        }
    }
    proof {
        assert(v@ == spec_drop_leading(orig, p));
    }
    let ghost led = v@;
    while v.len() > 0 && f(v[v.len() - 1])
        invariant
            forall|c: char, b: bool| f.ensures((c,), b) ==> b == p(c),
            forall|c: char| f.requires((c,)),
            spec_drop_trailing(v@, p) == spec_drop_trailing(led, p),
        decreases v@.len(),
    {
        let ghost pre = v@;
        v.pop();
        proof {
            assert(v@ =~= pre.drop_last());
        }
    }
    proof {
        assert(v@ == spec_drop_trailing(led, p));
    }
    v
}

/// Whitespace trimming on a character vector.
pub(crate) fn trim_vec(v: Vec<char>) -> (r: Vec<char>)
    ensures
        r@ == spec_trim(v@),
{
    trim_by_vec(v, Ghost(|c: char| is_space_char(c)), |c: char| -> (b: bool)
        ensures b == is_space_char(c) { c == ' ' || c == '\t' || c == '\n' || c == '\r' })
}

/// `v` begins with the characters of the literal `w`.
fn starts_with_lit(v: &Vec<char>, w: &str) -> (b: bool)
    ensures
        b == spec_starts_with(v@, w@),
{
    let wl = w.unicode_len();
    if v.len() < wl {
        false
    } else {
        let p = subvec(v, 0, wl);
        chars_eq_str(&p, w)
    }
}

/// The unquoting step of wrapper stripping.
fn unquote_inner(v: Vec<char>) -> (r: Vec<char>)
    ensures
        r@ == spec_unquote_inner(v@),
{
    let mut v = v;
    let ghost orig = v@;
    if v.len() > 0 && v[0] == '"' {
        if v.len() >= 3 && v[v.len() - 1] == '"' {
            v.remove(0);
            v.pop();
            proof {
                assert(v@ =~= orig.subrange(1, orig.len() - 1));
            }
        } else if v.len() >= 2 {
            v.remove(0);
            proof {
                assert(v@ =~= orig.subrange(1, orig.len() as int));
            }
        }
    } else {
        if v.len() >= 2 && v[v.len() - 1] == '"' {
            v.pop();
            proof {
                assert(v@ =~= orig.subrange(0, orig.len() - 1));
            }
        }
    }
    v
}

/// Strips one `w(..)` wrapper from the character vector.
fn strip_wrapper(v: Vec<char>, w: &str) -> (r: Vec<char>)
    ensures
        r@ == spec_strip_wrapper(v@, w@),
{
    let wl = w.unicode_len();
    if v.len() >= 3 && v.len() - 3 >= wl {
        let prefix = subvec(&v, 0, wl);
        if chars_eq_str(&prefix, w) && v[wl] == '(' && v[v.len() - 1] == ')' {
            let mid = subvec(&v, wl + 1, v.len() - 1);
            return unquote_inner(mid);
        }
    }
    v
}

/// Strips one `KEY_KEY_` prefix, or else one `KEY_` prefix.
fn strip_norm_prefix(v: Vec<char>) -> (r: Vec<char>)
    ensures
        r@ == spec_strip_norm_prefix(v@),
{
    if starts_with_lit(&v, "KEY_KEY_") {
        let wl = "KEY_KEY_".unicode_len();
        subvec(&v, wl, v.len())
    } else if starts_with_lit(&v, "KEY_") {
        let wl = "KEY_".unicode_len();
        subvec(&v, wl, v.len())
    } else {
        v
    }
}

/// Uppercases one ASCII letter; anything else is unchanged.
fn ascii_upper_char(c: char) -> (r: char)
    ensures
        r == spec_ascii_upper(c),
{
    match c {
        'a' => 'A',
        'b' => 'B',
        'c' => 'C',
        'd' => 'D',
        'e' => 'E',
        'f' => 'F',
        'g' => 'G',
        'h' => 'H',
        'i' => 'I',
        'j' => 'J',
        'k' => 'K',
        'l' => 'L',
        'm' => 'M',
        'n' => 'N',
        'o' => 'O',
        'p' => 'P',
        'q' => 'Q',
        'r' => 'R',
        's' => 'S',
        't' => 'T',
        'u' => 'U',
        'v' => 'V',
        'w' => 'W',
        'x' => 'X',
        'y' => 'Y',
        'z' => 'Z',
        _ => c,
    }
}

/// Normalizes a raw key name on a character vector.
pub fn normalize_chars(v: Vec<char>) -> (r: Vec<char>)
    ensures
        r@ == spec_normalize_key(v@),
{
    let t = trim_vec(v);
    let c = strip_wrapper(t, "Character");
    let n = strip_wrapper(c, "Named");
    let k = strip_norm_prefix(n);
    let k = trim_vec(k);
    let k = trim_by_vec(k, Ghost(|ch: char| ch == '"'), |ch: char| -> (b: bool)
        ensures b == (ch == '"') { ch == '"' });
    let q = trim_by_vec(k, Ghost(|ch: char| ch == '\''), |ch: char| -> (b: bool)
        ensures b == (ch == '\'') { ch == '\'' });
    if q.len() == 1 && (q[0] as u32) < 128 {
        let u = ascii_upper_char(q[0]);
        let mut out: Vec<char> = Vec::new();
        out.push(u);
        proof {
            assert(out@ =~= seq![spec_ascii_upper(q@[0])]);
        }
        out
    } else {
        q
    }
}

/// A bare symbolic name that normalization leaves alone: no whitespace,
/// quote, apostrophe, or opening parenthesis anywhere, no `KEY_` prefix,
/// and a single one-byte character already uppercase.
pub open spec fn spec_plain_name(s: Seq<char>) -> bool {
    &&& forall|i: int|
        0 <= i < s.len() ==> !is_space_char(#[trigger] s[i]) && s[i] != '"' && s[i] != '\''
            && s[i] != '('
    &&& !spec_starts_with(s, "KEY_"@)
    &&& (spec_is_single_byte(s) ==> spec_ascii_upper(s[0]) == s[0])
}

/// Trimming by a predicate that holds of no character is the identity.
proof fn lemma_trim_by_clean(s: Seq<char>, p: spec_fn(char) -> bool)
    requires
        forall|i: int| 0 <= i < s.len() ==> !p(#[trigger] s[i]),
    ensures
        spec_trim_by(s, p) == s,
{
    assert(spec_drop_leading(s, p) == s);
    assert(spec_drop_trailing(s, p) == s);
}

/// A plain name is a fixed point of normalization.
pub proof fn lemma_normalize_plain_name(s: Seq<char>)
    requires
        spec_plain_name(s),
    ensures
        spec_normalize_key(s) == s,
{
    lemma_trim_by_clean(s, |c: char| is_space_char(c));
    assert(spec_trim(s) == s);
    let wc = "Character"@;
    let wn = "Named"@;
    reveal_strlit("Character");
    reveal_strlit("Named");
    reveal_strlit("KEY_");
    reveal_strlit("KEY_KEY_");
    if s.len() >= wc.len() + 3 && s.subrange(0, wc.len() as int) == wc && s[wc.len() as int] == '('
        && s.last() == ')' {
        assert(false);
    }
    assert(spec_strip_wrapper(s, wc) == s);
    if s.len() >= wn.len() + 3 && s.subrange(0, wn.len() as int) == wn && s[wn.len() as int] == '('
        && s.last() == ')' {
        assert(false);
    }
    assert(spec_strip_wrapper(s, wn) == s);
    if spec_starts_with(s, "KEY_KEY_"@) {
        assert(s.subrange(0, "KEY_KEY_"@.len() as int).subrange(0, 4) =~= s.subrange(0, 4));
        assert(s.subrange(0, 4) =~= "KEY_"@);
        assert(false);
    }
    assert(spec_strip_norm_prefix(s) == s);
    lemma_trim_by_clean(s, |c: char| c == '"');
    lemma_trim_by_clean(s, |c: char| c == '\'');
    if spec_is_single_byte(s) {
        assert(seq![spec_ascii_upper(s[0])] =~= s);
    }
}

/// Normalization is idempotent on every raw form whose normalized result is
/// a plain symbolic name — in particular on every name the lookup table
/// accepts. (A result that still carries a wrapper form, a `KEY_` prefix, or
/// stray quotes is normalized further by a second pass.)
pub proof fn lemma_normalize_key_idempotent(s: Seq<char>)
    requires
        spec_plain_name(spec_normalize_key(s)),
    ensures
        spec_normalize_key(spec_normalize_key(s)) == spec_normalize_key(s),
{
    lemma_normalize_plain_name(spec_normalize_key(s));
}

/// Reduces a raw key name to the bare symbolic name the lookup table uses:
/// whitespace trimmed, `Character(..)`/`Named(..)` wrappers and `KEY_`
/// prefixes stripped, quotes removed, single letters uppercased.
pub fn normalize_key(raw: &str) -> (r: String)
    ensures
        r@ == spec_normalize_key(raw@),
{
    let v = str_chars(raw);
    let n = normalize_chars(v);
    chars_to_string(&n)
}

} // verus!
