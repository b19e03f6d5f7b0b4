//! Character-level text primitives: case-insensitive and case-sensitive
//! substring search, prefix tests, whitespace trimming, and decoding of raw
//! name bytes into text.

use vstd::prelude::*;
use vstd::string::StrSliceExecFns;
use vstd::utf8::{decode_utf8, valid_utf8};

verus! {

/// ASCII lowering of a Unicode scalar value: the 26 upper-case ASCII letters
/// map to their lower-case forms, everything else is unchanged.
pub open spec fn lower_scalar(u: u32) -> u32 {
    if 65 <= u && u <= 90 {
        (u + 32) as u32
    } else {
        u
    }
}

/// Two characters are equal up to ASCII case.
pub open spec fn chars_eq_ci(a: char, b: char) -> bool {
    lower_scalar(a as u32) == lower_scalar(b as u32)
}

/// The pattern `p` occurs in `s` at position `i`, up to ASCII case.
pub open spec fn matches_at_ci(s: Seq<char>, p: Seq<char>, i: int) -> bool {
    forall|j: int| 0 <= j < p.len() ==> chars_eq_ci(s[i + j], p[j])
}

/// The pattern `p` occurs somewhere in `s`, up to ASCII case.
pub open spec fn contains_ci(s: Seq<char>, p: Seq<char>) -> bool {
    exists|i: int| 0 <= i && i + p.len() <= s.len() && matches_at_ci(s, p, i)
}

/// The pattern `p` occurs in `s` at position `i`, exactly.
pub open spec fn matches_at(s: Seq<char>, p: Seq<char>, i: int) -> bool {
    forall|j: int| 0 <= j < p.len() ==> s[i + j] == p[j]
}

/// The pattern `p` occurs somewhere in `s`, exactly.
pub open spec fn contains_cs(s: Seq<char>, p: Seq<char>) -> bool {
    exists|i: int| 0 <= i && i + p.len() <= s.len() && matches_at(s, p, i)
}

/// Two character sequences are equal up to ASCII case.
pub open spec fn seqs_eq_ci(a: Seq<char>, b: Seq<char>) -> bool {
    a.len() == b.len() && forall|k: int| 0 <= k < a.len() ==> chars_eq_ci(a[k], b[k])
}

/// Case-insensitive containment ignores the case of the searched text: two
/// texts equal up to ASCII case contain exactly the same patterns.
pub proof fn lemma_contains_ci_respects_case(n1: Seq<char>, n2: Seq<char>, p: Seq<char>)
    requires
        seqs_eq_ci(n1, n2),
    ensures
        contains_ci(n1, p) == contains_ci(n2, p),
{
    if contains_ci(n1, p) {
        let i = choose|i: int| 0 <= i && i + p.len() <= n1.len() && matches_at_ci(n1, p, i);
        assert forall|j: int| 0 <= j < p.len() implies chars_eq_ci(n2[i + j], p[j]) by {
            assert(chars_eq_ci(n1[i + j], n2[i + j]));
            assert(chars_eq_ci(n1[i + j], p[j]));
        }
        assert(matches_at_ci(n2, p, i));
    }
    if contains_ci(n2, p) {
        let i = choose|i: int| 0 <= i && i + p.len() <= n2.len() && matches_at_ci(n2, p, i);
        assert forall|j: int| 0 <= j < p.len() implies chars_eq_ci(n1[i + j], p[j]) by {
            assert(chars_eq_ci(n1[i + j], n2[i + j]));
            assert(chars_eq_ci(n2[i + j], p[j]));
        }
        assert(matches_at_ci(n1, p, i));
    }
}

/// Compares two characters up to ASCII case.
pub fn char_eq_ci(a: char, b: char) -> (r: bool)
    ensures
        r == chars_eq_ci(a, b),
{
    let ua = a as u32;
    let ub = b as u32;
    let la: u32 = if 65 <= ua && ua <= 90 {
        ua + 32
    } else {
        ua
    };
    let lb: u32 = if 65 <= ub && ub <= 90 {
        ub + 32
    } else {
        ub
    };
    la == lb
}

/// Tests whether `p` occurs in `s` at character position `i`, up to ASCII
/// case.
fn match_at_ci(s: &str, p: &str, i: usize, s_len: usize, p_len: usize) -> (r: bool)
    requires
        s_len == s@.len(),
        p_len == p@.len(),
        i + p_len <= s_len,
    ensures
        r == matches_at_ci(s@, p@, i as int),
{
    let mut j: usize = 0;
    while j < p_len
        invariant
            s_len == s@.len(),
            p_len == p@.len(),
            i + p_len <= s_len,
            j <= p_len,
            forall|k: int| 0 <= k < j ==> chars_eq_ci(s@[i + k], p@[k]),
        decreases p_len - j,
    {
        if !char_eq_ci(s.get_char(i + j), p.get_char(j)) {
            return false;
        }
        j = j + 1;
    }
    true
}

/// Tests whether `p` occurs in `s` at character position `i`, exactly.
fn match_at(s: &str, p: &str, i: usize, s_len: usize, p_len: usize) -> (r: bool)
    requires
        s_len == s@.len(),
        p_len == p@.len(),
        i + p_len <= s_len,
    ensures
        r == matches_at(s@, p@, i as int),
{
    let mut j: usize = 0;
    while j < p_len
        invariant
            s_len == s@.len(),
            p_len == p@.len(),
            i + p_len <= s_len,
            j <= p_len,
            forall|k: int| 0 <= k < j ==> s@[i + k] == p@[k],
        decreases p_len - j,
    {
        if s.get_char(i + j) != p.get_char(j) {
            return false;
        }
        j = j + 1;
    }
    true
}

/// Case-insensitive (ASCII) substring search.
pub fn contains_pattern_ci(s: &str, p: &str) -> (r: bool)
    ensures
        r == contains_ci(s@, p@),
{
    let s_len = s.unicode_len();
    let p_len = p.unicode_len();
    if p_len > s_len {
        return false;
    }
    let mut i: usize = 0;
    let last = s_len - p_len;
    while i <= last
        invariant
            s_len == s@.len(),
            p_len == p@.len(),
            p_len <= s_len,
            last == s_len - p_len,
            i <= last + 1,
            forall|k: int| 0 <= k < i ==> !matches_at_ci(s@, p@, k),
        decreases last + 1 - i,
    {
        if match_at_ci(s, p, i, s_len, p_len) {
            return true;
        }
        i = i + 1;
    }
    false
}

/// Case-sensitive substring search.
pub fn contains_pattern(s: &str, p: &str) -> (r: bool)
    ensures
        r == contains_cs(s@, p@),
{
    let s_len = s.unicode_len();
    let p_len = p.unicode_len();
    if p_len > s_len {
        return false;
    }
    let mut i: usize = 0;
    let last = s_len - p_len;
    while i <= last
        invariant
            s_len == s@.len(),
            p_len == p@.len(),
            p_len <= s_len,
            last == s_len - p_len,
            i <= last + 1,
            forall|k: int| 0 <= k < i ==> !matches_at(s@, p@, k),
        decreases last + 1 - i,
    {
        if match_at(s, p, i, s_len, p_len) {
            return true;
        }
        i = i + 1;
    }
    false
}

/// Tests whether `p` is a prefix of `s`.
pub fn str_has_prefix(s: &str, p: &str) -> (r: bool)
    ensures
        r == p@.is_prefix_of(s@),
{
    let s_len = s.unicode_len();
    let p_len = p.unicode_len();
    if p_len > s_len {
        return false;
    }
    let r = match_at(s, p, 0, s_len, p_len);
    proof {
        if r {
            assert(p@ =~= s@.subrange(0, p@.len() as int));
        }
    }
    r
}

/// A trailing-whitespace byte: newline, carriage return, or space.
pub open spec fn is_trailing_ws(b: u8) -> bool {
    b == 10 || b == 13 || b == 32
}

/// The byte sequence with all trailing whitespace removed.
pub open spec fn trimmed(b: Seq<u8>) -> Seq<u8>
    decreases b.len(),
{
    if b.len() > 0 && is_trailing_ws(b.last()) {
        trimmed(b.drop_last())
    } else {
        b
    }
}

/// Removes trailing newline, carriage-return, and space bytes.
pub fn trim_trailing(buf: &mut Vec<u8>)
    ensures
        final(buf)@ == trimmed(old(buf)@),
{
    loop
        invariant
            trimmed(buf@) == trimmed(old(buf)@),
        decreases buf@.len(),
    {
        let n = buf.len();
        if n == 0 {
            return ;
        }
        let b = buf[n - 1];
        if b == 10 || b == 13 || b == 32 {
            let _ = buf.pop();
        } else {
            return ;
        }
    }
}

/// Relies on `String::from_utf8`: it succeeds exactly when the bytes are a
/// valid UTF-8 encoding, and then returns the string those bytes encode.
#[verifier::external_body]
fn string_from_utf8(bytes: Vec<u8>) -> (r: Option<String>)
    ensures
        r is Some <==> valid_utf8(bytes@),
        r is Some ==> r->0@ == decode_utf8(bytes@),
{
    String::from_utf8(bytes).ok()
}

/// Decodes a raw name buffer into a device's reported name: empty contents
/// are rejected, trailing whitespace is trimmed, and the remaining bytes
/// must be valid UTF-8 text, else the buffer is rejected.
pub fn parse_name_bytes(bytes: Vec<u8>) -> (r: Option<String>)
    ensures
        r is Some <==> bytes@.len() > 0 && valid_utf8(trimmed(bytes@)),
        r matches Some(s) ==> s@ == decode_utf8(trimmed(bytes@)),
{
    if bytes.len() == 0 {
        return None;
    }
    let mut buf = bytes;
    trim_trailing(&mut buf);
    string_from_utf8(buf)
}

} // verus!
