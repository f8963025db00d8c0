//! Normalisation of code text as it comes from input tables.

use vstd::prelude::*;

use crate::codes::push_char;

verus! {

/// The first character of the upper-case mapping of `c`.
pub uninterp spec fn upper_first(c: char) -> char;

/// Relies on `char::to_uppercase`: its mapping always yields a first character,
/// which for `a` to `z` is the matching capital and for any other ASCII
/// character is the character itself.
#[verifier::external_body]
fn to_upper_first(c: char) -> (r: char)
    ensures
        r == upper_first(c),
        'a' <= c <= 'z' ==> r as u32 == c as u32 - 32,
        (c as u32) < 128 && !('a' <= c <= 'z') ==> r == c,
{
    c.to_uppercase().next().unwrap_or(c)
}

/// A code character after normalisation: the marker `x` stays lower case,
/// every other character is upper-cased.
pub open spec fn normal_char(c: char) -> char {
    if c == 'x' {
        c
    } else {
        upper_first(c)
    }
}

/// On ASCII, normalising `c` gives `d`: the marker `x` stays, `a` to `z` become
/// `A` to `Z`, and every other ASCII character stays.
pub open spec fn ascii_normalized(c: char, d: char) -> bool {
    &&& c == 'x' ==> d == c
    &&& ('a' <= c <= 'z' && c != 'x') ==> d as u32 == c as u32 - 32
    &&& ((c as u32) < 128 && !('a' <= c <= 'z')) ==> d == c
}

/// Normalises a code: upper case, except the lower-case marker `x`.
pub fn icd_transform(icd: &String) -> (r: String)
    ensures
        r@.len() == icd@.len(),
        forall|i: int| 0 <= i < icd@.len() ==> #[trigger] r@[i] == normal_char(icd@[i]),
        forall|i: int| 0 <= i < icd@.len() ==> ascii_normalized(icd@[i], #[trigger] r@[i]),
{
    let s = icd.as_str();
    let n = s.unicode_len();
    let mut r = String::new();
    let mut i: usize = 0;
    while i < n
        invariant
            n == icd@.len(),
            s@ == icd@,
            i <= n,
            r@.len() == i,
            forall|k: int| 0 <= k < i ==> #[trigger] r@[k] == normal_char(icd@[k]),
            forall|k: int| 0 <= k < i ==> ascii_normalized(icd@[k], #[trigger] r@[k]),
        decreases n - i,
    {
        let c = s.get_char(i);
        let d = if c == 'x' {
            c
        } else {
            to_upper_first(c)
        };
        push_char(&mut r, d);
        i = i + 1;
    }
    r
}

/// Normalising an ASCII code twice gives what normalising it once gave.
pub proof fn lemma_ascii_normalization_idempotent(s: Seq<char>, once: Seq<char>, twice: Seq<char>)
    requires
        forall|i: int| 0 <= i < s.len() ==> (#[trigger] s[i] as u32) < 128,
        once.len() == s.len(),
        twice.len() == once.len(),
        forall|i: int| 0 <= i < s.len() ==> ascii_normalized(s[i], #[trigger] once[i]),
        forall|i: int| 0 <= i < once.len() ==> ascii_normalized(once[i], #[trigger] twice[i]),
    ensures
        twice == once,
{
    assert forall|i: int| 0 <= i < once.len() implies twice[i] == once[i] by {
        assert((s[i] as u32) < 128);
        assert(ascii_normalized(s[i], once[i]));
        assert(ascii_normalized(once[i], twice[i]));
    }
    assert(twice =~= once);
}

/// Removes every leading and trailing double quote.
pub fn trim_quotes(s: &String) -> (r: String)
    ensures
        exists|a: int, b: int|
            0 <= a <= b <= s@.len() && r@ == s@.subrange(a, b) && (forall|k: int|
                0 <= k < a ==> #[trigger] s@[k] == '"') && (forall|k: int|
                b <= k < s@.len() ==> #[trigger] s@[k] == '"') && (a < b ==> s@[a] != '"'
                && s@[b - 1] != '"'),
{
    let t = s.as_str();
    let n = t.unicode_len();
    let mut a: usize = 0;
    while a < n && t.get_char(a) == '"'
        invariant
            n == s@.len(),
            t@ == s@,
            a <= n,
            forall|k: int| 0 <= k < a ==> #[trigger] s@[k] == '"',
        decreases n - a,
    {
        a = a + 1;
    }
    let mut b: usize = n;
    while b > a && t.get_char(b - 1) == '"'
        invariant
            n == s@.len(),
            t@ == s@,
            a <= b <= n,
            forall|k: int| b <= k < n ==> #[trigger] s@[k] == '"',
            a < n ==> s@[a as int] != '"',
        decreases b,
    {
        b = b - 1;
    }
    let mut r = String::new();
    let mut i: usize = a;
    while i < b
        invariant
            n == s@.len(),
            t@ == s@,
            a <= i <= b <= n,
            r@ =~= s@.subrange(a as int, i as int),
        decreases b - i,
    {
        push_char(&mut r, t.get_char(i));
        i = i + 1;
    }
    assert(forall|k: int| b <= k < s@.len() ==> #[trigger] s@[k] == '"');
    r
}

} // verus!
