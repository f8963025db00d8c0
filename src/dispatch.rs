//! The group strategies: the rule by which a case enters a group, chosen by the
//! group's grouping mode.

use vstd::prelude::*;

use crate::codes::{code3, opt_view, CodeSet};
use crate::record::DrgCase;
use crate::tables::{
    band_group, opt_set_contains, opt_set_has, opt_set_intersects, opt_set_meets, wb1_group,
    GroupEntry, GroupingMode, ReferenceTables,
};

verus! {

/// Principal procedure in the procedure set.
pub open spec fn spec_common_surgery(case: &DrgCase, e: &GroupEntry) -> bool {
    !case.spec_no_surgery() && opt_set_has(e.opt, case.main_opt@)
}

/// Principal diagnosis in the diagnosis set.
pub open spec fn spec_common_diagnosis(case: &DrgCase, e: &GroupEntry) -> bool {
    opt_set_has(e.dis, case.main_dis@)
}

/// Secondary procedures exist and the procedures meet sets 1 and 2.
pub open spec fn spec_both_opt(case: &DrgCase, e: &GroupEntry) -> bool {
    case.other_opt@.len() > 0 && opt_set_meets(e.opt1, case.all_opt@) && opt_set_meets(
        e.opt2,
        case.all_opt@,
    )
}

/// Principal diagnosis and principal procedure both in their sets.
pub open spec fn spec_both_mdis_and_mopt(case: &DrgCase, e: &GroupEntry) -> bool {
    !case.spec_no_surgery() && opt_set_has(e.dis, case.main_dis@) && opt_set_has(
        e.opt,
        case.main_opt@,
    )
}

/// Principal and secondary procedures exist, the principal diagnosis is in its set
/// and the procedures meet sets 1 and 2.
pub open spec fn spec_both_mdis_opt(case: &DrgCase, e: &GroupEntry) -> bool {
    &&& !case.spec_no_surgery()
    &&& case.other_opt@.len() > 0
    &&& opt_set_has(e.dis, case.main_dis@)
    &&& opt_set_meets(e.opt1, case.all_opt@)
    &&& opt_set_meets(e.opt2, case.all_opt@)
}

/// Secondary procedures exist, the principal diagnosis is in its set, and the
/// procedures meet sets 1 and 2, or sets 1, 3 and 4.
pub open spec fn spec_mdis_multi_one(case: &DrgCase, e: &GroupEntry) -> bool {
    &&& case.other_opt@.len() > 0
    &&& opt_set_has(e.dis, case.main_dis@)
    &&& opt_set_meets(e.opt1, case.all_opt@)
    &&& (opt_set_meets(e.opt2, case.all_opt@) || (opt_set_meets(e.opt3, case.all_opt@)
        && opt_set_meets(e.opt4, case.all_opt@)))
}

/// The principal diagnosis is in its set, and the procedures meet set 1 or meet
/// neither set 2 nor set 3.
pub open spec fn spec_mdis_multi_two(case: &DrgCase, e: &GroupEntry) -> bool {
    &&& opt_set_has(e.dis, case.main_dis@)
    &&& (opt_set_meets(e.opt1, case.all_opt@) || (!opt_set_meets(e.opt2, case.all_opt@)
        && !opt_set_meets(e.opt3, case.all_opt@)))
}

/// The group that the weight-banded rule gives when group `name` is tried on a
/// case of `weight` grams: `name` itself when it is a band of the neonatal family
/// and the weight lies in that band (under 1500 for band 1, from 1500 to under
/// 1999 for band 2, from 1999 to under 2499 for band 3), and band 4 otherwise,
/// whichever group was tried.
pub open spec fn spec_weight_band(name: Seq<char>, weight: int) -> Seq<char> {
    if name == band_group('1') && weight < 1500 {
        band_group('1')
    } else if name == band_group('2') && 1500 <= weight < 1999 {
        band_group('2')
    } else if name == band_group('3') && 1999 <= weight < 2499 {
        band_group('3')
    } else {
        band_group('4')
    }
}

/// Any diagnosis of the case is in the diagnosis set: the weight band.
pub open spec fn spec_dis_adrg(case: &DrgCase, e: &GroupEntry) -> Option<Seq<char>> {
    if opt_set_meets(e.dis, case.all_dis@) {
        Some(spec_weight_band(e.code@, case.weight as int))
    } else {
        None
    }
}

/// A principal procedure exists and some procedure is significant.
pub open spec fn spec_all_surgery(case: &DrgCase, all_opt: &CodeSet) -> bool {
    !case.spec_no_surgery() && all_opt.meets(case.all_opt@)
}

/// No principal procedure, or no significant procedure.
pub open spec fn spec_without_surgery(case: &DrgCase, all_opt: &CodeSet) -> bool {
    case.spec_no_surgery() || !all_opt.meets(case.all_opt@)
}

/// A principal procedure exists and some procedure is in the procedure set of `WB1`.
pub open spec fn spec_with_wb1_surgery(case: &DrgCase, t: &ReferenceTables) -> bool {
    &&& !case.spec_no_surgery()
    &&& match t.spec_group(wb1_group()) {
        Some(w) => opt_set_meets(w.opt, case.all_opt@),
        None => false,
    }
}

/// The case meets the rule of entry `e`, for every mode but the weight-banded one.
pub open spec fn spec_group_hit(case: &DrgCase, t: &ReferenceTables, e: &GroupEntry) -> bool {
    match e.mode {
        GroupingMode::CommonOpt => spec_common_surgery(case, e),
        GroupingMode::CommonDis => spec_common_diagnosis(case, e),
        GroupingMode::BothOpt => spec_both_opt(case, e),
        GroupingMode::DisAndOpt => spec_both_mdis_and_mopt(case, e),
        GroupingMode::MainDisAndAnyOpt => spec_both_mdis_opt(case, e),
        GroupingMode::MainDisAndMultiOpt => spec_mdis_multi_one(case, e),
        GroupingMode::MainDisAndMultiOpt2 => spec_mdis_multi_two(case, e),
        GroupingMode::AnyDis => false,
        GroupingMode::AllOpt => spec_all_surgery(case, &t.all_opt),
        GroupingMode::NoOpt => spec_without_surgery(case, &t.all_opt),
        GroupingMode::ExcludeWb1Opt => spec_with_wb1_surgery(case, t),
    }
}

/// The group that a case enters when group `name` is tried, if any: the weight
/// band for the weight-banded mode, `name` itself when the rule of any other mode
/// holds, and none for a group without an entry.
pub open spec fn spec_process_adrg(case: &DrgCase, t: &ReferenceTables, name: Seq<char>) -> Option<
    Seq<char>,
> {
    match t.spec_group(name) {
        None => None,
        Some(e) => if e.mode == GroupingMode::AnyDis {
            spec_dis_adrg(case, &e)
        } else if spec_group_hit(case, t, &e) {
            Some(name)
        } else {
            None
        },
    }
}

/// Whether the principal procedure is in the entry's procedure set.
pub fn is_common_surgery_adrg(record: &DrgCase, e: &GroupEntry) -> (r: bool)
    ensures
        r == spec_common_surgery(record, e),
{
    if record.no_surgery() {
        return false;
    }
    opt_set_contains(&e.opt, &record.main_opt)
}

/// Whether the principal diagnosis is in the entry's diagnosis set.
pub fn is_common_diagnosis_adrg(record: &DrgCase, e: &GroupEntry) -> (r: bool)
    ensures
        r == spec_common_diagnosis(record, e),
{
    opt_set_contains(&e.dis, &record.main_dis)
}

/// Whether principal diagnosis and principal procedure are both in the entry's sets.
pub fn is_both_mdis_and_mopt_adrg(record: &DrgCase, e: &GroupEntry) -> (r: bool)
    ensures
        r == spec_both_mdis_and_mopt(record, e),
{
    if record.no_surgery() {
        return false;
    }
    opt_set_contains(&e.dis, &record.main_dis) && opt_set_contains(&e.opt, &record.main_opt)
}

/// Whether the case has both kinds of procedure, its principal diagnosis is in the
/// entry's set and its procedures meet procedure sets 1 and 2.
pub fn is_both_mdis_opt_adrg(record: &DrgCase, e: &GroupEntry) -> (r: bool)
    ensures
        r == spec_both_mdis_opt(record, e),
{
    if record.no_surgery() {
        return false;
    }
    if record.no_other_surgery() {
        return false;
    }
    opt_set_contains(&e.dis, &record.main_dis) && opt_set_intersects(&e.opt1, &record.all_opt)
        && opt_set_intersects(&e.opt2, &record.all_opt)
}

/// Whether the case has secondary procedures and its procedures meet sets 1 and 2.
pub fn is_both_opt_adrg(record: &DrgCase, e: &GroupEntry) -> (r: bool)
    ensures
        r == spec_both_opt(record, e),
{
    if record.no_other_surgery() {
        return false;
    }
    opt_set_intersects(&e.opt1, &record.all_opt) && opt_set_intersects(&e.opt2, &record.all_opt)
}

/// The group that the weight-banded rule gives when group `name` is tried.
pub fn weight_band(name: &String, weight: i64) -> (r: String)
    ensures
        r@ == spec_weight_band(name@, weight as int),
{
    let ps1 = code3('P', 'S', '1');
    let ps2 = code3('P', 'S', '2');
    let ps3 = code3('P', 'S', '3');
    if *name == ps1 && weight < 1500 {
        ps1
    } else if *name == ps2 && weight >= 1500 && weight < 1999 {
        ps2
    } else if *name == ps3 && weight >= 1999 && weight < 2499 {
        ps3
    } else {
        code3('P', 'S', '4')
    }
}

/// The weight band of the case when any of its diagnoses is in the entry's set.
pub fn is_dis_adrg(record: &DrgCase, e: &GroupEntry) -> (r: Option<String>)
    ensures
        opt_view(r) == spec_dis_adrg(record, e),
{
    if opt_set_intersects(&e.dis, &record.all_dis) {
        Some(weight_band(&e.code, record.weight))
    } else {
        None
    }
}

/// Whether the case has secondary procedures, its principal diagnosis is in the
/// entry's set, and its procedures meet sets 1 and 2, or sets 1, 3 and 4.
pub fn is_mdis_and_multi_surgery_adrg_one(record: &DrgCase, e: &GroupEntry) -> (r: bool)
    ensures
        r == spec_mdis_multi_one(record, e),
{
    if record.no_other_surgery() {
        return false;
    }
    if !opt_set_contains(&e.dis, &record.main_dis) || !opt_set_intersects(
        &e.opt1,
        &record.all_opt,
    ) {
        return false;
    }
    opt_set_intersects(&e.opt2, &record.all_opt) || (opt_set_intersects(&e.opt3, &record.all_opt)
        && opt_set_intersects(&e.opt4, &record.all_opt))
}

/// Whether the principal diagnosis is in the entry's set and the procedures meet
/// set 1, or meet neither set 2 nor set 3.
pub fn is_mdis_and_multi_surgery_adrg_two(record: &DrgCase, e: &GroupEntry) -> (r: bool)
    ensures
        r == spec_mdis_multi_two(record, e),
{
    if !opt_set_contains(&e.dis, &record.main_dis) {
        return false;
    }
    opt_set_intersects(&e.opt1, &record.all_opt) || (!opt_set_intersects(&e.opt2, &record.all_opt)
        && !opt_set_intersects(&e.opt3, &record.all_opt))
}

/// Whether the case has a principal procedure and some significant procedure.
pub fn is_all_surgery(record: &DrgCase, all_opt_list: &CodeSet) -> (r: bool)
    ensures
        r == spec_all_surgery(record, all_opt_list),
{
    if record.no_surgery() {
        return false;
    }
    all_opt_list.intersects(&record.all_opt)
}

/// Whether the case has no principal procedure or no significant procedure.
pub fn is_without_surgery(record: &DrgCase, all_opt_list: &CodeSet) -> (r: bool)
    ensures
        r == spec_without_surgery(record, all_opt_list),
{
    if record.no_surgery() {
        return true;
    }
    !all_opt_list.intersects(&record.all_opt)
}

/// Whether the case has a principal procedure and some procedure of group `WB1`'s set.
pub fn is_without_wb1_surgery(record: &DrgCase, t: &ReferenceTables) -> (r: bool)
    ensures
        r == spec_with_wb1_surgery(record, t),
{
    if record.no_surgery() {
        return false;
    }
    match t.group_index(&code3('W', 'B', '1')) {
        Some(w) => opt_set_intersects(&t.groups[w].opt, &record.all_opt),
        None => false,
    }
}

/// Whether the case meets the rule of entry `e` (not the weight-banded mode).
pub fn group_hit(record: &DrgCase, t: &ReferenceTables, e: &GroupEntry) -> (r: bool)
    ensures
        r == spec_group_hit(record, t, e),
{
    match e.mode {
        GroupingMode::CommonOpt => is_common_surgery_adrg(record, e),
        GroupingMode::CommonDis => is_common_diagnosis_adrg(record, e),
        GroupingMode::BothOpt => is_both_opt_adrg(record, e),
        GroupingMode::DisAndOpt => is_both_mdis_and_mopt_adrg(record, e),
        GroupingMode::MainDisAndAnyOpt => is_both_mdis_opt_adrg(record, e),
        GroupingMode::MainDisAndMultiOpt => is_mdis_and_multi_surgery_adrg_one(record, e),
        GroupingMode::MainDisAndMultiOpt2 => is_mdis_and_multi_surgery_adrg_two(record, e),
        GroupingMode::AnyDis => false,
        GroupingMode::AllOpt => is_all_surgery(record, &t.all_opt),
        GroupingMode::NoOpt => is_without_surgery(record, &t.all_opt),
        GroupingMode::ExcludeWb1Opt => is_without_wb1_surgery(record, t),
    }
}

/// Tries group `adrg_name` on the case: the group entered, if any.
pub fn process_adrg(record: &DrgCase, t: &ReferenceTables, adrg_name: &String) -> (r: Option<
    String,
>)
    ensures
        opt_view(r) == spec_process_adrg(record, t, adrg_name@),
{
    let e = match t.group_index(adrg_name) {
        Some(i) => &t.groups[i],
        None => {
            return None;
        },
    };
    if e.mode == GroupingMode::AnyDis {
        is_dis_adrg(record, e)
    } else if group_hit(record, t, e) {
        Some(adrg_name.clone())
    } else {
        None
    }
}

} // verus!
