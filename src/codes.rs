//! Sets of clinical codes and the string helpers the classification builds on.

use vstd::prelude::*;

verus! {

/// `c` is one of the codes held in `v`.
pub open spec fn in_codes(v: Seq<String>, c: Seq<char>) -> bool {
    exists|i: int| 0 <= i < v.len() && #[trigger] v[i]@ == c
}

/// No code occurs twice in `v`.
pub open spec fn distinct_codes(v: Seq<String>) -> bool {
    forall|i: int, j: int| 0 <= i < j < v.len() ==> #[trigger] v[i]@ != #[trigger] v[j]@
}

/// `a` comes before `b` in the order of codes, comparing from position `i` on:
/// character by character, a proper prefix first.
pub open spec fn code_lt_from(a: Seq<char>, b: Seq<char>, i: int) -> bool
    decreases a.len() - i,
{
    if i < 0 || i >= a.len() {
        0 <= i < b.len()
    } else if i >= b.len() {
        false
    } else if a[i] != b[i] {
        (a[i] as u32) < (b[i] as u32)
    } else {
        code_lt_from(a, b, i + 1)
    }
}

/// `a` comes strictly before `b` in the order of codes.
pub open spec fn code_lt(a: Seq<char>, b: Seq<char>) -> bool {
    code_lt_from(a, b, 0)
}

/// The order of codes is transitive from any common position.
pub proof fn lemma_code_lt_from_transitive(a: Seq<char>, b: Seq<char>, c: Seq<char>, i: int)
    requires
        0 <= i,
        code_lt_from(a, b, i),
        code_lt_from(b, c, i),
    ensures
        code_lt_from(a, c, i),
    decreases a.len() - i,
{
    if i < a.len() && i < b.len() && i < c.len() && a[i] == b[i] && b[i] == c[i] {
        lemma_code_lt_from_transitive(a, b, c, i + 1);
    }
}

/// The order of codes is irreflexive from any position.
pub proof fn lemma_code_lt_from_irreflexive(a: Seq<char>, i: int)
    requires
        0 <= i,
    ensures
        !code_lt_from(a, a, i),
    decreases a.len() - i,
{
    if i < a.len() {
        lemma_code_lt_from_irreflexive(a, i + 1);
    }
}

/// Whether `a` comes strictly before `b` in the order of codes.
pub fn code_less(a: &String, b: &String) -> (r: bool)
    ensures
        r == code_lt(a@, b@),
{
    let x = a.as_str();
    let y = b.as_str();
    let n = x.unicode_len();
    let m = y.unicode_len();
    let mut i: usize = 0;
    while i < n && i < m
        invariant
            n == a@.len(),
            m == b@.len(),
            x@ == a@,
            y@ == b@,
            i <= n,
            i <= m,
            code_lt(a@, b@) == code_lt_from(a@, b@, i as int),
        decreases n - i,
    {
        let c = x.get_char(i);
        let d = y.get_char(i);
        if c != d {
            return (c as u32) < (d as u32);
        }
        i = i + 1;
    }
    i < m
}

/// Each code of `v` comes strictly before the next.
pub open spec fn ascending_codes(v: Seq<String>) -> bool {
    forall|j: int| 0 <= j && j + 1 < v.len() ==> code_lt(#[trigger] v[j]@, v[j + 1]@)
}

/// In an ascending sequence every code comes strictly before every later one.
pub proof fn lemma_ascending_ordered(v: Seq<String>, i: int, j: int)
    requires
        ascending_codes(v),
        0 <= i < j < v.len(),
    ensures
        code_lt(v[i]@, v[j]@),
    decreases j - i,
{
    if i + 1 < j {
        lemma_ascending_ordered(v, i + 1, j);
        assert(code_lt(v[i]@, v[i + 1]@));
        lemma_code_lt_from_transitive(v[i]@, v[i + 1]@, v[j]@, 0);
    } else {
        assert(code_lt(v[i]@, v[i + 1]@));
    }
}

/// An ascending sequence holds no code twice.
pub proof fn lemma_ascending_distinct(v: Seq<String>)
    requires
        ascending_codes(v),
    ensures
        distinct_codes(v),
{
    assert forall|i: int, j: int| 0 <= i < j < v.len() implies #[trigger] v[i]@ != #[trigger] v[j]@ by {
        lemma_ascending_ordered(v, i, j);
        lemma_code_lt_from_irreflexive(v[i]@, 0);
    }
}

/// Whether each code of `v` comes strictly before the next.
pub fn check_ascending(v: &Vec<String>) -> (r: bool)
    ensures
        r == ascending_codes(v@),
{
    let mut j: usize = 0;
    while j < v.len() && j + 1 < v.len()
        invariant
            j <= v@.len(),
            forall|k: int| 0 <= k < j && k + 1 < v@.len() ==> code_lt(#[trigger] v@[k]@, v@[k + 1]@),
        decreases v.len() - j,
    {
        if !code_less(&v[j], &v[j + 1]) {
            return false;
        }
        j = j + 1;
    }
    true
}

/// Relies on `String::push`: the character is appended at the end.
#[verifier::external_body]
pub(crate) fn push_char(s: &mut String, c: char)
    ensures
        final(s)@ == old(s)@.push(c),
{
    s.push(c)
}

/// Whether `v` holds `c`.
pub fn vec_contains(v: &Vec<String>, c: &String) -> (r: bool)
    ensures
        r == in_codes(v@, c@),
{
    let mut i: usize = 0;
    while i < v.len()
        invariant
            i <= v.len(),
            forall|k: int| 0 <= k < i ==> v@[k]@ != c@,
        decreases v.len() - i,
    {
        if v[i] == *c {
            return true;
        }
        i = i + 1;
    }
    false
}

/// A set of clinical codes (diagnoses or procedures).
pub struct CodeSet {
    pub codes: Vec<String>,
}

impl View for CodeSet {
    type V = Set<Seq<char>>;

    /// The codes of the set.
    open spec fn view(&self) -> Set<Seq<char>> {
        Set::new(|c: Seq<char>| in_codes(self.codes@, c))
    }
}

impl CodeSet {
    /// The set holds `c`.
    pub open spec fn has(&self, c: Seq<char>) -> bool {
        self@.contains(c)
    }

    /// The set shares at least one code with `v`.
    pub open spec fn meets(&self, v: Seq<String>) -> bool {
        exists|i: int| 0 <= i < v.len() && self.has(#[trigger] v[i]@)
    }

    pub fn new(codes: Vec<String>) -> (r: CodeSet)
        ensures
            r.codes@ == codes@,
    {
        CodeSet { codes }
    }

    pub fn contains(&self, c: &String) -> (r: bool)
        ensures
            r == self.has(c@),
    {
        vec_contains(&self.codes, c)
    }

    /// Whether the set and `v` have a code in common.
    pub fn intersects(&self, v: &Vec<String>) -> (r: bool)
        ensures
            r == self.meets(v@),
    {
        let mut i: usize = 0;
        while i < v.len()
            invariant
                i <= v.len(),
                forall|k: int| 0 <= k < i ==> !self.has(#[trigger] v@[k]@),
            decreases v.len() - i,
        {
            if self.contains(&v[i]) {
                return true;
            }
            i = i + 1;
        }
        false
    }
}


/// The three-character code `a b c`.
pub fn code3(a: char, b: char, c: char) -> (r: String)
    ensures
        r@ == seq![a, b, c],
{
    let mut r = String::new();
    push_char(&mut r, a);
    push_char(&mut r, b);
    push_char(&mut r, c);
    assert(r@ =~= seq![a, b, c]);
    r
}


/// The view of an optional code.
pub open spec fn opt_view(r: Option<String>) -> Option<Seq<char>> {
    match r {
        Some(s) => Some(s@),
        None => None,
    }
}

} // verus!
