//! ASCII-oriented text predicates used by the relay: case-insensitive
//! comparison (for usernames and header values), prefix tests (for content
//! negotiation) and stripping the conventional leading `@` from a configured
//! target username.

use vstd::prelude::*;
use vstd::string::*;

verus! {

/// Lower-case one ASCII upper-case letter; every other character is kept.
pub open spec fn lower_char(c: char) -> char {
    if 65 <= c as u32 && c as u32 <= 90 {
        (((c as u32) + 32) as u8) as char
    } else {
        c
    }
}

/// Equality of two character sequences up to ASCII case.
pub open spec fn eq_ignore_ascii_case(a: Seq<char>, b: Seq<char>) -> bool {
    a.len() == b.len() && forall|i: int|
        0 <= i < a.len() ==> #[trigger] lower_char(a[i]) == lower_char(b[i])
}

/// `s` begins with the characters of `p`.
pub open spec fn starts_with(s: Seq<char>, p: Seq<char>) -> bool {
    s.len() >= p.len() && forall|i: int| 0 <= i < p.len() ==> #[trigger] s[i] == p[i]
}

/// The configured target with one leading `@`, if any, removed.
pub open spec fn strip_leading_at(s: Seq<char>) -> Seq<char> {
    if s.len() > 0 && s[0] == '@' {
        s.subrange(1, s.len() as int)
    } else {
        s
    }
}

/// Executable ASCII lower-casing of one character.
pub fn char_to_lower(c: char) -> (r: char)
    ensures
        r == lower_char(c),
{
    let u = c as u32;
    if 65 <= u && u <= 90 {
        ((u + 32) as u8) as char
    } else {
        c
    }
}

/// Executable ASCII-case-insensitive string equality.
pub fn str_eq_ignore_ascii_case(a: &str, b: &str) -> (r: bool)
    ensures
        r == eq_ignore_ascii_case(a@, b@),
{
    let alen = a.unicode_len();
    let blen = b.unicode_len();
    if alen != blen {
        return false;
    }
    let mut i: usize = 0;
    while i < alen
        invariant
            alen == a@.len(),
            blen == b@.len(),
            alen == blen,
            i <= alen,
            forall|j: int| 0 <= j < i ==> #[trigger] lower_char(a@[j]) == lower_char(b@[j]),
        decreases alen - i,
    {
        let ca = a.get_char(i);
        let cb = b.get_char(i);
        if char_to_lower(ca) != char_to_lower(cb) {
            return false;
        }
        i += 1;
    }
    true
}

/// Executable exact string equality.
pub fn str_eq(a: &str, b: &str) -> (r: bool)
    ensures
        r == (a@ == b@),
{
    let alen = a.unicode_len();
    let blen = b.unicode_len();
    if alen != blen {
        return false;
    }
    let mut i: usize = 0;
    while i < alen
        invariant
            alen == a@.len(),
            blen == b@.len(),
            alen == blen,
            i <= alen,
            forall|j: int| 0 <= j < i ==> a@[j] == b@[j],
        decreases alen - i,
    {
        let ca = a.get_char(i);
        let cb = b.get_char(i);
        if ca != cb {
            return false;
        }
        i += 1;
    }
    proof {
        assert(a@ =~= b@);
    }
    true
}

/// Executable prefix test.
pub fn str_starts_with(s: &str, p: &str) -> (r: bool)
    ensures
        r == starts_with(s@, p@),
{
    let slen = s.unicode_len();
    let plen = p.unicode_len();
    if slen < plen {
        return false;
    }
    let mut i: usize = 0;
    while i < plen
        invariant
            slen == s@.len(),
            plen == p@.len(),
            plen <= slen,
            i <= plen,
            forall|j: int| 0 <= j < i ==> #[trigger] s@[j] == p@[j],
        decreases plen - i,
    {
        let cs = s.get_char(i);
        let cp = p.get_char(i);
        if cs != cp {
            return false;
        }
        i += 1;
    }
    true
}

/// Strip one leading `@` from the configured target username.
pub fn normalize_target(s: &str) -> (r: String)
    ensures
        r@ == strip_leading_at(s@),
{
    let n = s.unicode_len();
    if n > 0 && s.get_char(0) == '@' {
        let tail = s.substring_char(1, n);
        String::from_str(tail)
    } else {
        String::from_str(s)
    }
}

/// ASCII lower-casing is idempotent.
pub proof fn lemma_lower_char_idempotent(c: char)
    ensures
        lower_char(lower_char(c)) == lower_char(c),
{
}

/// Changing the ASCII case of either side never changes the comparison:
/// a sequence compares equal to `b` exactly when its lower-cased form does.
pub proof fn lemma_eq_ignore_case_insensitive(a: Seq<char>, b: Seq<char>)
    ensures
        eq_ignore_ascii_case(a.map_values(|c: char| lower_char(c)), b) == eq_ignore_ascii_case(
            a,
            b,
        ),
{
    let la = a.map_values(|c: char| lower_char(c));
    assert(la.len() == a.len());
    assert forall|i: int| 0 <= i < a.len() implies lower_char(la[i]) == lower_char(a[i]) by {
        lemma_lower_char_idempotent(a[i]);
    }
}

/// A leading `@` on the configured target is ignored by normalization.
pub proof fn lemma_strip_tolerates_at(t: Seq<char>)
    ensures
        strip_leading_at(seq!['@'].add(t)) == t,
{
    assert(strip_leading_at(seq!['@'].add(t)) =~= t);
}

} // verus!
