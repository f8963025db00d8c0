//! Properties that hold of every classification.

use vstd::prelude::*;

use crate::cascade::{
    codes_view, spec_first_group, spec_which_adrg, spec_which_adrg_from, spec_try_category,
};
use crate::category::{spec_cascade_at, Category, CATEGORY_COUNT};
use crate::dispatch::spec_process_adrg;
use crate::drg::{pseudo_shaped, spec_which_drg, spec_with_digit, unmatched};
use crate::grading::{exempt_groups, spec_cc_mcc, spec_is_qy};
use crate::codes::{
    code_lt, in_codes, lemma_ascending_ordered, lemma_code_lt_from_irreflexive,
    lemma_code_lt_from_transitive,
};
use crate::record::DrgCase;
use crate::tables::{
    band_group, find_group_from, opt_set_has, pre_groups, ComplicationModel, GroupEntry,
    GroupingMode, ReferenceTables, Ward,
};

verus! {

/// A group found by code at or after `j` sits at a valid index and has that code.
pub proof fn lemma_find_group_found(s: Seq<GroupEntry>, code: Seq<char>, j: int)
    ensures
        find_group_from(s, code, j) matches Some(i) ==> j <= i < s.len() && s[i].code@ == code,
    decreases s.len() - j,
{
    if 0 <= j < s.len() && s[j].code@ != code {
        lemma_find_group_found(s, code, j + 1);
    }
}

/// Every group that trying a group gives has an entry in complete tables.
pub proof fn lemma_process_adrg_known(case: &DrgCase, t: &ReferenceTables, name: Seq<char>)
    requires
        t.wf(),
    ensures
        spec_process_adrg(case, t, name) matches Some(g) ==> t.has_group(g),
{
    lemma_find_group_found(t.groups@, name, 0);
    if let Some(i) = find_group_from(t.groups@, name, 0) {
        if t.groups@[i].mode == GroupingMode::AnyDis {
            assert(t.uses_mode(GroupingMode::AnyDis));
        }
    }
}

proof fn lemma_first_group_known(
    case: &DrgCase,
    t: &ReferenceTables,
    names: Seq<Seq<char>>,
    j: int,
)
    requires
        t.wf(),
    ensures
        spec_first_group(case, t, names, j) matches Some(g) ==> t.has_group(g),
    decreases names.len() - j,
{
    if 0 <= j < names.len() {
        lemma_process_adrg_known(case, t, names[j]);
        lemma_first_group_known(case, t, names, j + 1);
    }
}

proof fn lemma_which_adrg_known(case: &DrgCase, t: &ReferenceTables, i: int)
    requires
        t.wf(),
    ensures
        spec_which_adrg_from(case, t, i) matches Some((g, _c)) ==> t.has_group(g),
    decreases CATEGORY_COUNT - i,
{
    if 0 <= i < CATEGORY_COUNT {
        let c = spec_cascade_at(i);
        lemma_first_group_known(case, t, pre_groups(), 0);
        lemma_first_group_known(case, t, codes_view(t.group_list(c.spec_index())), 0);
        lemma_which_adrg_known(case, t, i + 1);
    }
}

/// The first group among `names[j..]` that the case enters comes from the first
/// candidate it enters.
pub proof fn lemma_first_group_witness(
    case: &DrgCase,
    t: &ReferenceTables,
    names: Seq<Seq<char>>,
    j: int,
)
    requires
        0 <= j,
    ensures
        spec_first_group(case, t, names, j) matches Some(g) ==> exists|m: int|
            j <= m < names.len() && #[trigger] spec_process_adrg(case, t, names[m]) == Some(g)
                && forall|i: int| j <= i < m ==> (#[trigger] spec_process_adrg(case, t, names[i])) is None,
    decreases names.len() - j,
{
    if j < names.len() {
        lemma_first_group_witness(case, t, names, j + 1);
        if let Some(g) = spec_first_group(case, t, names, j) {
            if spec_process_adrg(case, t, names[j]) is Some {
                assert(spec_process_adrg(case, t, names[j]) == Some(g));
            } else {
                let m = choose|m: int|
                    j + 1 <= m < names.len() && #[trigger] spec_process_adrg(case, t, names[m])
                        == Some(g) && forall|i: int|
                        j + 1 <= i < m ==> (#[trigger] spec_process_adrg(case, t, names[i])) is None;
                assert(forall|i: int|
                    j <= i < m ==> (#[trigger] spec_process_adrg(case, t, names[i])) is None);
            }
        }
    }
}

/// A category gives the case the group of its candidate with the least code among
/// those the case enters, whatever order the tables were loaded in.
pub proof fn lemma_category_takes_least_code(case: &DrgCase, t: &ReferenceTables, k: int)
    requires
        t.wf(),
        0 <= k < CATEGORY_COUNT,
    ensures
        ({
            let list = t.group_list(k);
            spec_first_group(case, t, codes_view(list), 0) matches Some(g) ==> exists|m: int|
                0 <= m < list.len() && #[trigger] spec_process_adrg(case, t, list[m]@) == Some(g)
                    && forall|i: int|
                    0 <= i < list.len() && code_lt(list[i]@, list[m]@) ==> (#[trigger] spec_process_adrg(
                        case,
                        t,
                        list[i]@,
                    )) is None
        }),
{
    let list = t.group_list(k);
    let names = codes_view(list);
    lemma_first_group_witness(case, t, names, 0);
    if let Some(g) = spec_first_group(case, t, names, 0) {
        let m = choose|m: int|
            0 <= m < names.len() && #[trigger] spec_process_adrg(case, t, names[m]) == Some(g)
                && forall|i: int| 0 <= i < m ==> (#[trigger] spec_process_adrg(case, t, names[i])) is None;
        assert(names[m] == list[m]@);
        assert forall|i: int|
            0 <= i < list.len() && code_lt(list[i]@, list[m]@) implies (#[trigger] spec_process_adrg(
                case,
                t,
                list[i]@,
            )) is None by {
            assert(names[i] == list[i]@);
            if i == m {
                lemma_code_lt_from_irreflexive(list[m]@, 0);
            } else if i > m {
                lemma_ascending_ordered(list, m, i);
                lemma_code_lt_from_transitive(list[i]@, list[m]@, list[i]@, 0);
                lemma_code_lt_from_irreflexive(list[i]@, 0);
            }
        }
    }
}

/// The severity digit is one of 1, 3, 5 and 9.
pub proof fn lemma_digit_range(case: &DrgCase, t: &ReferenceTables, model: ComplicationModel)
    ensures
        spec_cc_mcc(case, t, model) == '1' || spec_cc_mcc(case, t, model) == '3' || spec_cc_mcc(
            case,
            t,
            model,
        ) == '5' || spec_cc_mcc(case, t, model) == '9',
{
}

/// With group codes of three characters, every classification code is the unmatched
/// code, a bare three-character code with `QY` in its second and third places (a
/// pseudo-group), or the code of a known group without that shape followed by one
/// severity digit.
pub proof fn lemma_output_shape(case: &DrgCase, t: &ReferenceTables)
    requires
        t.wf(),
        forall|i: int| 0 <= i < t.groups@.len() ==> (#[trigger] t.groups@[i]).code@.len() == 3,
    ensures
        ({
            let r = spec_which_drg(case, t);
            ||| r == unmatched()
            ||| (pseudo_shaped(r) && r.len() == 3)
            ||| exists|g: Seq<char>, d: char|
                #![trigger g.push(d)]
                r == g.push(d) && t.has_group(g) && !pseudo_shaped(g) && (d == '1' || d == '3'
                    || d == '5' || d == '9')
        }),
{
    lemma_which_adrg_known(case, t, 0);
    if let Some((g, c)) = spec_which_adrg(case, t) {
        let g2 = spec_is_qy(case, t, g, c);
        lemma_find_group_found(t.groups@, g, 0);
        if g2 != g {
            assert(c.spec_pseudo_group() == Some(g2));
        }
        if !pseudo_shaped(g2) {
            let e = t.spec_group(g2).unwrap();
            lemma_digit_range(case, t, e.model);
            assert(spec_which_drg(case, t) == g2.push(spec_cc_mcc(case, t, e.model)));
        }
    }
}

/// A case whose principal procedure is in the procedure set of the first
/// pre-classification candidate, where that candidate takes cases by principal
/// procedure, is classified in the pre-classification category, in that group.
pub proof fn lemma_preclassification_first(case: &DrgCase, t: &ReferenceTables)
    requires
        case.main_opt@.len() > 0,
        t.spec_group(pre_groups()[0]) matches Some(e) && e.mode == GroupingMode::CommonOpt
            && opt_set_has(e.opt, case.main_opt@),
    ensures
        spec_which_adrg(case, t) == Some((pre_groups()[0], Category::MdcA)),
{
    assert(spec_first_group(case, t, pre_groups(), 0) == Some(pre_groups()[0]));
    assert(spec_try_category(case, t, Category::MdcA) == Some(pre_groups()[0]));
}

/// A case whose group is medical, with a principal procedure and some significant
/// procedure, is moved to its category's pseudo-group and gets no severity digit
/// (groups that take every procedure, and categories without a pseudo-group, aside).
pub proof fn lemma_medical_with_procedure(
    case: &DrgCase,
    t: &ReferenceTables,
    g: Seq<char>,
    c: Category,
)
    requires
        spec_which_adrg(case, t) == Some((g, c)),
        t.spec_group(g) matches Some(e) && e.ward == Ward::Medical,
        case.main_opt@.len() > 0,
        t.all_opt.meets(case.all_opt@),
        !exempt_groups().contains(g),
        c.spec_pseudo_group() is Some,
    ensures
        Some(spec_which_drg(case, t)) == c.spec_pseudo_group(),
{
    let p = c.spec_pseudo_group().unwrap();
    assert(spec_is_qy(case, t, g, c) == p);
    assert(pseudo_shaped(p));
    assert(spec_with_digit(case, t, p) == p);
}

/// Without secondary diagnoses, every split complication model gives digit 5.
pub proof fn lemma_no_secondary_gives_five(
    case: &DrgCase,
    t: &ReferenceTables,
    model: ComplicationModel,
)
    requires
        case.other_dis@.len() == 0,
        model != ComplicationModel::Unsplit,
    ensures
        spec_cc_mcc(case, t, model) == '5',
{
}

/// Two classifications of one case against the same tables give the same code.
pub proof fn lemma_classification_repeatable(
    case: &DrgCase,
    t: &ReferenceTables,
    first: Seq<char>,
    second: Seq<char>,
)
    requires
        first == spec_which_drg(case, t),
        second == spec_which_drg(case, t),
    ensures
        first == second,
{
}

/// In a well-formed case the diagnoses hold the principal diagnosis, and the
/// procedures are empty exactly when there is no principal procedure.
pub proof fn lemma_case_sets(case: &DrgCase)
    requires
        case.wf(),
    ensures
        in_codes(case.all_dis@, case.main_dis@),
        case.all_opt@.len() == 0 <==> case.main_opt@.len() == 0,
{
    assert(in_codes(case.all_dis@, case.main_dis@));
    if case.main_opt@.len() > 0 {
        assert(in_codes(case.all_opt@, case.main_opt@));
    } else if case.all_opt@.len() > 0 {
        assert(in_codes(case.all_opt@, case.all_opt@[0]@));
    }
}

} // verus!
