//! Subscription keys: case-normalized trading-pair symbols.
//!
//! A raw symbol coming from the UI is normalized in two steps: a bare asset
//! name without a recognized quote suffix (`USDT`, `BTC`, `ETH`) gets `USDT`
//! appended, and the result is ASCII-lowercased. Equality of subscription
//! keys is exact string equality after this normalization.

use vstd::prelude::*;
use vstd::string::StrSliceExecFns;
use vstd::string::StringExecFns;

verus! {

/// ASCII lowercasing of a single character; every other character is kept.
pub open spec fn lower_char(c: char) -> char {
    if 'A' <= c && c <= 'Z' {
        ((c as u32) + 32) as char
    } else {
        c
    }
}

/// ASCII lowercasing of a whole sequence of characters.
pub open spec fn lower_seq(s: Seq<char>) -> Seq<char> {
    s.map_values(|c: char| lower_char(c))
}

/// `s` ends with `suffix`.
pub open spec fn has_suffix(s: Seq<char>, suffix: Seq<char>) -> bool {
    s.len() >= suffix.len() && s.subrange(s.len() - suffix.len(), s.len() as int) == suffix
}

/// The asset-suffix heuristic: a symbol that does not already name a quote
/// currency (`USDT`, `BTC`, `ETH`) is taken as a bare asset quoted in USDT.
pub open spec fn with_quote_suffix(s: Seq<char>) -> Seq<char> {
    if has_suffix(s, "USDT"@) || has_suffix(s, "BTC"@) || has_suffix(s, "ETH"@) {
        s
    } else {
        s + "USDT"@
    }
}

/// Full normalization of a raw symbol: suffix heuristic, then lowercasing.
pub open spec fn norm_key(s: Seq<char>) -> Seq<char> {
    lower_seq(with_quote_suffix(s))
}

/// Relies on `char::from_u32`: for a Unicode scalar value it returns
/// `Some` of exactly that character.
#[verifier::external_body]
fn char_from_u32(u: u32) -> (r: char)
    requires
        u < 0xD800 || (0xE000 <= u && u <= 0x10FFFF),
    ensures
        r == (u as char),
{
    char::from_u32(u).unwrap()
}

/// Relies on `String::push`: appends the given character to the end.
#[verifier::external_body]
fn push_char(s: &mut String, c: char)
    ensures
        final(s)@ == old(s)@.push(c),
{
    s.push(c);
}

/// Lowercase one character, exactly as `lower_char` describes.
fn lower_char_exec(c: char) -> (r: char)
    ensures
        r == lower_char(c),
{
    if 'A' <= c && c <= 'Z' {
        let u: u32 = c as u32;
        char_from_u32(u + 32)
    } else {
        c
    }
}

/// Whether `s` ends with `suffix`, comparing characters.
fn str_has_suffix(s: &str, suffix: &str) -> (r: bool)
    ensures
        r == has_suffix(s@, suffix@),
{
    let n: usize = s.unicode_len();
    let m: usize = suffix.unicode_len();
    if m > n {
        assert(!has_suffix(s@, suffix@));
        return false;
    }
    let mut j: usize = 0;
    while j < m
        invariant
            j <= m <= n,
            n == s@.len(),
            m == suffix@.len(),
            forall|t: int| 0 <= t < j ==> s@[n - m + t] == suffix@[t],
        decreases m - j,
    {
        let cs = s.get_char(n - m + j);
        let cf = suffix.get_char(j);
        if cs != cf {
            assert(!has_suffix(s@, suffix@)) by {
                if s@.len() >= suffix@.len() {
                    let sub = s@.subrange(s@.len() - suffix@.len(), s@.len() as int);
                    assert(sub[j as int] == s@[n - m + j]);
                }
            }
            return false;
        }
        j += 1;
    }
    assert(s@.subrange(s@.len() - suffix@.len(), s@.len() as int) =~= suffix@);
    true
}

/// Lowercase a whole string slice into a fresh `String`.
fn lower_str(s: &str) -> (r: String)
    ensures
        r@ == lower_seq(s@),
{
    let n: usize = s.unicode_len();
    let mut out = String::new();
    let mut i: usize = 0;
    while i < n
        invariant
            i <= n,
            n == s@.len(),
            out@ == lower_seq(s@.take(i as int)),
        decreases n - i,
    {
        let c = s.get_char(i);
        let lc = lower_char_exec(c);
        push_char(&mut out, lc);
        proof {
            assert(s@.take(i + 1) =~= s@.take(i as int).push(s@[i as int]));
            assert(lower_seq(s@.take(i + 1)) =~= lower_seq(s@.take(i as int)).push(
                lower_char(s@[i as int]),
            ));
        }
        i += 1;
    }
    proof {
        assert(s@.take(n as int) =~= s@);
    }
    out
}

/// Whether two string slices hold the same characters.
pub fn str_eq(a: &str, b: &str) -> (r: bool)
    ensures
        r == (a@ == b@),
{
    let n: usize = a.unicode_len();
    let m: usize = b.unicode_len();
    if n != m {
        return false;
    }
    let mut i: usize = 0;
    while i < n
        invariant
            i <= n,
            n == a@.len(),
            n == b@.len(),
            forall|t: int| 0 <= t < i ==> a@[t] == b@[t],
        decreases n - i,
    {
        if a.get_char(i) != b.get_char(i) {
            return false;
        }
        i += 1;
    }
    proof {
        assert(a@ =~= b@);
    }
    true
}

/// Normalize a raw symbol into a subscription key: append `USDT` when no
/// recognized quote suffix is present, then ASCII-lowercase.
pub fn normalize_key(symbol: &str) -> (r: String)
    ensures
        r@ == norm_key(symbol@),
{
    let has_quote = str_has_suffix(symbol, "USDT") || str_has_suffix(symbol, "BTC")
        || str_has_suffix(symbol, "ETH");
    if has_quote {
        lower_str(symbol)
    } else {
        let mut owned = String::from_str(symbol);
        owned.append("USDT");
        lower_str(owned.as_str())
    }
}

} // verus!
