//! Verified string utilities: equality, substring search, suffix tests, and
//! the percent-decoding of `%20` used when deriving artifact paths from URLs.

use vstd::prelude::*;

verus! {

/// True when `sub` occurs as a contiguous run inside `s`.
pub open spec fn has_substr(s: Seq<char>, sub: Seq<char>) -> bool {
    exists|i: int| 0 <= i <= s.len() - sub.len() && #[trigger] s.subrange(i, i + sub.len() as int)
        == sub
}

/// True when `suf` is a suffix of `s`.
pub open spec fn is_suffix_of(s: Seq<char>, suf: Seq<char>) -> bool {
    suf.len() <= s.len() && s.subrange(s.len() - suf.len(), s.len() as int) == suf
}

pub fn str_eq(a: &str, b: &str) -> (r: bool)
    ensures
        r == (a@ == b@),
{
    let alen = a.unicode_len();
    let blen = b.unicode_len();
    if alen != blen {
        return false;
    }
    let mut i: usize = 0;
    while i < alen
        invariant
            i <= alen,
            alen == a@.len(),
            alen == b@.len(),
            forall|k: int| 0 <= k < i ==> a@[k] == b@[k],
        decreases alen - i,
    {
        if a.get_char(i) != b.get_char(i) {
            return false;
        }
        i += 1;
    }
    proof {
        assert(a@ =~= b@);
    }
    true
}

/// True when the characters of `sub` all stand in `s` starting at position `at`.
fn match_at(s: &str, sub: &str, at: usize) -> (r: bool)
    requires
        at + sub@.len() <= s@.len(),
        s@.len() <= usize::MAX,
    ensures
        r == (s@.subrange(at as int, at + sub@.len() as int) == sub@),
{
    let m = sub.unicode_len();
    let mut j: usize = 0;
    while j < m
        invariant
            j <= m,
            m == sub@.len(),
            at + m <= s@.len(),
            s@.len() <= usize::MAX,
            forall|k: int| 0 <= k < j ==> s@[at + k] == sub@[k],
        decreases m - j,
    {
        if s.get_char(at + j) != sub.get_char(j) {
            proof {
                assert(s@.subrange(at as int, at + sub@.len() as int)[j as int] != sub@[j as int]);
            }
            return false;
        }
        j += 1;
    }
    proof {
        assert(s@.subrange(at as int, at + sub@.len() as int) =~= sub@);
    }
    true
}

pub fn contains_substr(s: &str, sub: &str) -> (r: bool)
    ensures
        r == has_substr(s@, sub@),
{
    let n = s.unicode_len();
    let m = sub.unicode_len();
    if m > n {
        return false;
    }
    if m == 0 {
        proof {
            assert(s@.subrange(0, 0 + sub@.len() as int) =~= sub@);
        }
        return true;
    }
    let mut i: usize = 0;
    while i <= n - m
        invariant
            0 < m <= n,
            n == s@.len(),
            m == sub@.len(),
            i <= n - m + 1,
            forall|k: int|
                0 <= k < i ==> #[trigger] s@.subrange(k, k + sub@.len() as int) != sub@,
        decreases n - i,
    {
        if match_at(s, sub, i) {
            return true;
        }
        i += 1;
    }
    false
}

pub fn ends_with_str(s: &str, suf: &str) -> (r: bool)
    ensures
        r == is_suffix_of(s@, suf@),
{
    let n = s.unicode_len();
    let m = suf.unicode_len();
    if m > n {
        return false;
    }
    match_at(s, suf, n - m)
}

/// The result of replacing every occurrence of `%20` from position `i` on by a
/// single space, scanning left to right.
pub open spec fn decode_sp_from(s: Seq<char>, i: int) -> Seq<char>
    decreases s.len() - i,
{
    if i < 0 || i >= s.len() {
        Seq::empty()
    } else if i + 3 <= s.len() && s[i] == '%' && s[i + 1] == '2' && s[i + 2] == '0' {
        seq![' '] + decode_sp_from(s, i + 3)
    } else {
        seq![s[i]] + decode_sp_from(s, i + 1)
    }
}

/// `s` with every `%20` replaced by a space; no other escape is decoded.
pub open spec fn decode_sp(s: Seq<char>) -> Seq<char> {
    decode_sp_from(s, 0)
}

pub fn percent_decode_spaces(s: &str) -> (r: String)
    ensures
        r@ == decode_sp(s@),
{
    let n = s.unicode_len();
    let mut out = String::new();
    let mut i: usize = 0;
    while i < n
        invariant
            i <= n,
            n == s@.len(),
            out@ + decode_sp_from(s@, i as int) == decode_sp(s@),
        decreases n - i,
    {
        if n - i >= 3 && s.get_char(i) == '%' && s.get_char(i + 1) == '2' && s.get_char(i + 2)
            == '0' {
            out.append(" ");
            proof {
                reveal_strlit(" ");
                assert(out@ + decode_sp_from(s@, i + 3) =~= decode_sp(s@));
            }
            i += 3;
        } else {
            let piece = s.substring_char(i, i + 1);
            out.append(piece);
            proof {
                assert(piece@ =~= seq![s@[i as int]]);
                assert(out@ + decode_sp_from(s@, i + 1) =~= decode_sp(s@));
            }
            i += 1;
        }
    }
    proof {
        assert(out@ =~= decode_sp(s@));
    }
    out
}

} // verus!
