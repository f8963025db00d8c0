//! The classification of a case: cascade, exception pass and severity digit,
//! and the classification of many cases, each on its own.

use vstd::prelude::*;

use crate::cascade::{spec_which_adrg, which_adrg};
use crate::codes::push_char;
use crate::grading::{cc_mcc, is_qy, spec_cc_mcc, spec_is_qy};
use crate::record::DrgCase;
use crate::tables::ReferenceTables;

verus! {

/// The code given to a case that no group takes.
pub open spec fn unmatched() -> Seq<char> {
    seq!['K', 'B', 'B', 'Z']
}

pub fn unmatched_code() -> (r: String)
    ensures
        r@ == unmatched(),
{
    let mut r = String::new();
    push_char(&mut r, 'K');
    push_char(&mut r, 'B');
    push_char(&mut r, 'B');
    push_char(&mut r, 'Z');
    assert(r@ =~= unmatched());
    r
}

/// A code shaped like a pseudo-group: `QY` in its second and third places.
pub open spec fn pseudo_shaped(g: Seq<char>) -> bool {
    g.len() >= 3 && g[1] == 'Q' && g[2] == 'Y'
}

pub fn is_pseudo_shaped(g: &String) -> (r: bool)
    ensures
        r == pseudo_shaped(g@),
{
    let s = g.as_str();
    if s.unicode_len() < 3 {
        return false;
    }
    s.get_char(1) == 'Q' && s.get_char(2) == 'Y'
}

/// The final code of a group after the exception pass: a pseudo-shaped code as it
/// is, any other with its severity digit appended.
pub open spec fn spec_with_digit(case: &DrgCase, t: &ReferenceTables, g: Seq<char>) -> Seq<char> {
    if pseudo_shaped(g) {
        g
    } else {
        match t.spec_group(g) {
            Some(e) => g.push(spec_cc_mcc(case, t, e.model)),
            None => g,
        }
    }
}

/// The classification code of a case.
pub open spec fn spec_which_drg(case: &DrgCase, t: &ReferenceTables) -> Seq<char> {
    match spec_which_adrg(case, t) {
        None => unmatched(),
        Some((g, c)) => spec_with_digit(case, t, spec_is_qy(case, t, g, c)),
    }
}

/// Classifies a case: category cascade, exception pass, then severity digit.
pub fn which_drg(record: &DrgCase, t: &ReferenceTables) -> (r: String)
    requires
        t.wf(),
    ensures
        r@ == spec_which_drg(record, t),
{
    let (adrg, mdc) = match which_adrg(record, t) {
        Some(p) => p,
        None => {
            return unmatched_code();
        },
    };
    let (adrg, _mdc) = is_qy(record, adrg, mdc, t);
    if is_pseudo_shaped(&adrg) {
        return adrg;
    }
    match t.group_index(&adrg) {
        Some(i) => {
            let digit = cc_mcc(record, t, t.groups[i].model);
            let mut code = adrg;
            push_char(&mut code, digit);
            code
        },
        None => adrg,
    }
}

/// Why a case cannot be classified.
#[derive(PartialEq, Eq, Structural, Clone, Copy, Debug)]
pub enum CaseError {
    /// The principal diagnosis is empty.
    MissingPrincipalDiagnosis,
}

/// Classifies a case whose principal diagnosis is given; reports the case otherwise.
pub fn classify(record: &DrgCase, t: &ReferenceTables) -> (r: Result<String, CaseError>)
    requires
        t.wf(),
    ensures
        record.main_dis@.len() == 0 <==> r == Err::<String, CaseError>(
            CaseError::MissingPrincipalDiagnosis,
        ),
        r matches Ok(s) ==> s@ == spec_which_drg(record, t),
{
    if record.main_dis.as_str().unicode_len() == 0 {
        return Err(CaseError::MissingPrincipalDiagnosis);
    }
    Ok(which_drg(record, t))
}

/// Classifies every case on its own, in order.
pub fn batch_drg_group(cases: &Vec<DrgCase>, t: &ReferenceTables) -> (r: Vec<
    Result<String, CaseError>,
>)
    requires
        t.wf(),
    ensures
        r@.len() == cases@.len(),
        forall|i: int|
            0 <= i < cases@.len() ==> match #[trigger] r@[i] {
                Ok(s) => cases@[i].main_dis@.len() > 0 && s@ == spec_which_drg(&cases@[i], t),
                Err(e) => cases@[i].main_dis@.len() == 0 && e == CaseError::MissingPrincipalDiagnosis,
            },
{
    let mut r: Vec<Result<String, CaseError>> = Vec::new();
    let mut i: usize = 0;
    while i < cases.len()
        invariant
            i <= cases@.len(),
            t.wf(),
            r@.len() == i,
            forall|k: int|
                0 <= k < i ==> match #[trigger] r@[k] {
                    Ok(s) => cases@[k].main_dis@.len() > 0 && s@ == spec_which_drg(&cases@[k], t),
                    Err(e) => cases@[k].main_dis@.len() == 0 && e
                        == CaseError::MissingPrincipalDiagnosis,
                },
        decreases cases@.len() - i,
    {
        let one = classify(&cases[i], t);
        r.push(one);
        i = i + 1;
    }
    r
}

} // verus!
