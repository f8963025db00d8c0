//! The exception pass (medical groups with a real procedure) and the severity digit.

use vstd::prelude::*;

use crate::category::Category;
use crate::codes::code3;
use crate::record::DrgCase;
use crate::tables::{ComplicationModel, ReferenceTables, Severity, Ward};

verus! {

/// Groups that take every procedure; they are never moved to a pseudo-group.
pub open spec fn exempt_groups() -> Seq<Seq<char>> {
    seq![
        seq!['Y', 'C', '1'],
        seq!['S', 'B', '1'],
        seq!['X', 'J', '1'],
        seq!['T', 'B', '1'],
    ]
}

/// The group after the exception pass: a medical group of a case with a principal
/// procedure and some significant procedure moves to its category's pseudo-group,
/// where the category has one.
pub open spec fn spec_is_qy(case: &DrgCase, t: &ReferenceTables, g: Seq<char>, c: Category) -> Seq<
    char,
> {
    if exempt_groups().contains(g) || case.spec_no_surgery() {
        g
    } else {
        match t.spec_group(g) {
            Some(e) => if e.ward == Ward::Medical && t.all_opt.meets(case.all_opt@) {
                match c.spec_pseudo_group() {
                    Some(p) => p,
                    None => g,
                }
            } else {
                g
            },
            None => g,
        }
    }
}

fn is_exempt(g: &String) -> (r: bool)
    ensures
        r == exempt_groups().contains(g@),
{
    let r = *g == code3('Y', 'C', '1') || *g == code3('S', 'B', '1') || *g == code3('X', 'J', '1')
        || *g == code3('T', 'B', '1');
    proof {
        if exempt_groups().contains(g@) {
            let k = choose|k: int| 0 <= k < 4 && exempt_groups()[k] == g@;
            assert(k == 0 || k == 1 || k == 2 || k == 3);
        }
        if r {
            if g@ == seq!['Y', 'C', '1'] {
                assert(exempt_groups()[0] == g@);
            } else if g@ == seq!['S', 'B', '1'] {
                assert(exempt_groups()[1] == g@);
            } else if g@ == seq!['X', 'J', '1'] {
                assert(exempt_groups()[2] == g@);
            } else {
                assert(exempt_groups()[3] == g@);
            }
        }
    }
    r
}

/// The exception pass on a matched group `adrg_pred` of category `mdc_pred`.
pub fn is_qy(record: &DrgCase, adrg_pred: String, mdc_pred: Category, t: &ReferenceTables) -> (r: (
    String,
    Category,
))
    ensures
        r.0@ == spec_is_qy(record, t, adrg_pred@, mdc_pred),
        r.1 == mdc_pred,
{
    if is_exempt(&adrg_pred) {
        return (adrg_pred, mdc_pred);
    }
    if record.no_surgery() {
        return (adrg_pred, mdc_pred);
    }
    match t.group_index(&adrg_pred) {
        Some(i) => {
            if t.groups[i].ward == Ward::Medical && t.all_opt.intersects(&record.all_opt) {
                match mdc_pred.pseudo_group() {
                    Some(p) => (p, mdc_pred),
                    None => (adrg_pred, mdc_pred),
                }
            } else {
                (adrg_pred, mdc_pred)
            }
        },
        None => (adrg_pred, mdc_pred),
    }
}

/// The severity that secondary diagnosis `d` contributes: none when it has no
/// comorbidity entry, or when the principal diagnosis exempts its exclusion category.
pub open spec fn spec_recorded(case: &DrgCase, t: &ReferenceTables, d: Seq<char>) -> Severity {
    match t.spec_comorbidity(d) {
        None => Severity::Plain,
        Some(m) => if m.severity == Severity::Plain {
            Severity::Plain
        } else {
            match m.exclusion {
                None => m.severity,
                Some(x) => if t.spec_exclusion(case.main_dis@) == Some(x@) {
                    Severity::Plain
                } else {
                    m.severity
                },
            }
        },
    }
}

/// Some secondary diagnosis contributes a severity.
pub open spec fn spec_any_complication(case: &DrgCase, t: &ReferenceTables) -> bool {
    exists|i: int|
        0 <= i < case.other_dis@.len() && spec_recorded(case, t, #[trigger] case.other_dis@[i]@)
            != Severity::Plain
}

/// Some secondary diagnosis contributes a major severity.
pub open spec fn spec_any_mcc(case: &DrgCase, t: &ReferenceTables) -> bool {
    exists|i: int|
        0 <= i < case.other_dis@.len() && spec_recorded(case, t, #[trigger] case.other_dis@[i]@)
            == Severity::Mcc
}

/// The severity digit of a case in a group with complication model `model`.
pub open spec fn spec_cc_mcc(case: &DrgCase, t: &ReferenceTables, model: ComplicationModel) -> char {
    if model == ComplicationModel::Unsplit {
        '9'
    } else if case.other_dis@.len() == 0 {
        '5'
    } else {
        match model {
            ComplicationModel::MergeOneThree => if spec_any_complication(case, t) {
                '3'
            } else {
                '5'
            },
            ComplicationModel::MergeThreeFive => if spec_any_mcc(case, t) {
                '1'
            } else {
                '5'
            },
            _ => if spec_any_mcc(case, t) {
                '1'
            } else if spec_any_complication(case, t) {
                '3'
            } else {
                '5'
            },
        }
    }
}

/// The severity that secondary diagnosis `d` contributes.
pub fn recorded(record: &DrgCase, t: &ReferenceTables, d: &String) -> (r: Severity)
    ensures
        r == spec_recorded(record, t, d@),
{
    let m = match t.comorbidity_index(d) {
        Some(i) => &t.comorbidities[i],
        None => {
            return Severity::Plain;
        },
    };
    if m.severity == Severity::Plain {
        return Severity::Plain;
    }
    match &m.exclusion {
        None => m.severity,
        Some(x) => {
            match t.exclusion_index(&record.main_dis) {
                Some(j) => {
                    if t.exclusions[j].category == *x {
                        Severity::Plain
                    } else {
                        m.severity
                    }
                },
                None => m.severity,
            }
        },
    }
}

/// The severity digit of the case for complication model `model`.
pub fn cc_mcc(record: &DrgCase, t: &ReferenceTables, model: ComplicationModel) -> (r: char)
    ensures
        r == spec_cc_mcc(record, t, model),
{
    if model == ComplicationModel::Unsplit {
        return '9';
    }
    if record.no_other_diagnosis() {
        return '5';
    }
    let mut any = false;
    let mut mcc = false;
    let mut i: usize = 0;
    while i < record.other_dis.len()
        invariant
            i <= record.other_dis@.len(),
            any == exists|k: int|
                0 <= k < i && spec_recorded(record, t, #[trigger] record.other_dis@[k]@)
                    != Severity::Plain,
            mcc == exists|k: int|
                0 <= k < i && spec_recorded(record, t, #[trigger] record.other_dis@[k]@)
                    == Severity::Mcc,
        decreases record.other_dis@.len() - i,
    {
        let s = recorded(record, t, &record.other_dis[i]);
        if s != Severity::Plain {
            any = true;
        }
        if s == Severity::Mcc {
            mcc = true;
        }
        i = i + 1;
    }
    match model {
        ComplicationModel::MergeOneThree => if any {
            '3'
        } else {
            '5'
        },
        ComplicationModel::MergeThreeFive => if mcc {
            '1'
        } else {
            '5'
        },
        _ => if mcc {
            '1'
        } else if any {
            '3'
        } else {
            '5'
        },
    }
}

} // verus!
