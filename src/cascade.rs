//! The category cascade: the fixed order in which major categories are tried,
//! the admission test of each, and the first group a matching category gives.

use vstd::prelude::*;

use crate::category::{cascade_at, spec_cascade_at, Category, CATEGORY_COUNT};
use crate::codes::opt_view;
use crate::dispatch::{process_adrg, spec_process_adrg};
use crate::record::{DrgCase, Sex};
use crate::tables::{opt_set_contains, opt_set_has, pre_group_list, pre_groups, ReferenceTables};

verus! {

/// Age limit, in days, of the neonatal category. The limit meant is 29 days, but the
/// rule counts it in whole years, so only a case aged zero qualifies.
pub const NEONATE_AGE_LIMIT_DAYS: i64 = 0;

/// The codes of `v`.
pub open spec fn codes_view(v: Seq<String>) -> Seq<Seq<char>> {
    v.map_values(|s: String| s@)
}

/// The first group among `names[j..]` that the case enters, trying them in order.
pub open spec fn spec_first_group(
    case: &DrgCase,
    t: &ReferenceTables,
    names: Seq<Seq<char>>,
    j: int,
) -> Option<Seq<char>>
    decreases names.len() - j,
{
    if j < 0 || j >= names.len() {
        None
    } else {
        match spec_process_adrg(case, t, names[j]) {
            Some(g) => Some(g),
            None => spec_first_group(case, t, names, j + 1),
        }
    }
}

/// The diagnosis set of category `c` holds `code`.
pub open spec fn category_has(t: &ReferenceTables, c: Category, code: Seq<char>) -> bool {
    opt_set_has(t.category_dis@[c.spec_index()], code)
}

pub open spec fn spec_is_age_mdc(case: &DrgCase, t: &ReferenceTables) -> bool {
    case.age_days <= NEONATE_AGE_LIMIT_DAYS && category_has(t, Category::MdcP, case.main_dis@)
}

/// Multiple trauma: secondary diagnoses exist and the diagnoses meet some body region.
pub open spec fn spec_is_mdcz(case: &DrgCase, t: &ReferenceTables) -> bool {
    &&& case.other_dis@.len() > 0
    &&& exists|k: int| 0 <= k < t.regions@.len() && (#[trigger] t.regions@[k]).meets(case.all_dis@)
}

pub open spec fn spec_is_sex_mdc(case: &DrgCase, t: &ReferenceTables, c: Category) -> bool {
    &&& ((c == Category::MdcM && case.sex == Sex::Male) || (c == Category::MdcN && case.sex
        == Sex::Female))
    &&& category_has(t, c, case.main_dis@)
}

pub open spec fn spec_is_common_mdc(case: &DrgCase, t: &ReferenceTables, c: Category) -> bool {
    category_has(t, c, case.main_dis@)
}

/// The case is admitted to category `c` (other than pre-classification).
pub open spec fn spec_admitted(case: &DrgCase, t: &ReferenceTables, c: Category) -> bool {
    match c {
        Category::MdcP => spec_is_age_mdc(case, t),
        Category::MdcZ => spec_is_mdcz(case, t),
        Category::MdcM => spec_is_sex_mdc(case, t, c),
        Category::MdcN => spec_is_sex_mdc(case, t, c),
        _ => spec_is_common_mdc(case, t, c),
    }
}

/// Pre-classification: with a principal procedure, the first of its fixed
/// candidate groups that the case enters.
pub open spec fn spec_is_mdca(case: &DrgCase, t: &ReferenceTables) -> Option<Seq<char>> {
    if case.spec_no_surgery() {
        None
    } else {
        spec_first_group(case, t, pre_groups(), 0)
    }
}

/// The group that category `c` gives the case, if any.
pub open spec fn spec_try_category(case: &DrgCase, t: &ReferenceTables, c: Category) -> Option<
    Seq<char>,
> {
    if c == Category::MdcA {
        spec_is_mdca(case, t)
    } else if spec_admitted(case, t, c) {
        spec_first_group(case, t, codes_view(t.group_list(c.spec_index())), 0)
    } else {
        None
    }
}

/// The first category from position `i` of the cascade that gives the case a group.
pub open spec fn spec_which_adrg_from(case: &DrgCase, t: &ReferenceTables, i: int) -> Option<
    (Seq<char>, Category),
>
    decreases CATEGORY_COUNT - i,
{
    if i < 0 || i >= CATEGORY_COUNT {
        None
    } else {
        match spec_try_category(case, t, spec_cascade_at(i)) {
            Some(g) => Some((g, spec_cascade_at(i))),
            None => spec_which_adrg_from(case, t, i + 1),
        }
    }
}

/// Group and category that the cascade gives the case.
pub open spec fn spec_which_adrg(case: &DrgCase, t: &ReferenceTables) -> Option<
    (Seq<char>, Category),
> {
    spec_which_adrg_from(case, t, 0)
}

/// The first of the groups `names` that the case enters.
pub fn first_group(record: &DrgCase, t: &ReferenceTables, names: &Vec<String>) -> (r: Option<
    String,
>)
    ensures
        opt_view(r) == spec_first_group(record, t, codes_view(names@), 0),
{
    let ghost view = codes_view(names@);
    let mut j: usize = 0;
    while j < names.len()
        invariant
            j <= names@.len(),
            view == codes_view(names@),
            spec_first_group(record, t, view, 0) == spec_first_group(record, t, view, j as int),
        decreases names@.len() - j,
    {
        let g = process_adrg(record, t, &names[j]);
        assert(view[j as int] == names@[j as int]@);
        if g.is_some() {
            return g;
        }
        j = j + 1;
    }
    None
}

pub fn is_mdca(record: &DrgCase, t: &ReferenceTables) -> (r: Option<String>)
    ensures
        opt_view(r) == spec_is_mdca(record, t),
{
    if record.no_surgery() {
        return None;
    }
    let names = pre_group_list();
    assert(codes_view(names@) =~= pre_groups());
    first_group(record, t, &names)
}

pub fn is_mdcz(record: &DrgCase, t: &ReferenceTables) -> (r: bool)
    ensures
        r == spec_is_mdcz(record, t),
{
    if record.no_other_diagnosis() {
        return false;
    }
    let mut k: usize = 0;
    while k < t.regions.len()
        invariant
            k <= t.regions@.len(),
            record.other_dis@.len() > 0,
            forall|a: int| 0 <= a < k ==> !(#[trigger] t.regions@[a]).meets(record.all_dis@),
        decreases t.regions@.len() - k,
    {
        if t.regions[k].intersects(&record.all_dis) {
            assert(t.regions@[k as int].meets(record.all_dis@));
            return true;
        }
        k = k + 1;
    }
    false
}

pub fn is_age_mdc(record: &DrgCase, t: &ReferenceTables) -> (r: bool)
    requires
        t.wf(),
    ensures
        r == spec_is_age_mdc(record, t),
{
    record.age_days <= NEONATE_AGE_LIMIT_DAYS && opt_set_contains(
        &t.category_dis[Category::MdcP.index()],
        &record.main_dis,
    )
}

pub fn is_sex_mdc(record: &DrgCase, t: &ReferenceTables, c: Category) -> (r: bool)
    requires
        t.wf(),
    ensures
        r == spec_is_sex_mdc(record, t, c),
{
    let sex_ok = (c == Category::MdcM && record.sex == Sex::Male) || (c == Category::MdcN
        && record.sex == Sex::Female);
    sex_ok && opt_set_contains(&t.category_dis[c.index()], &record.main_dis)
}

pub fn is_common_mdc(record: &DrgCase, t: &ReferenceTables, c: Category) -> (r: bool)
    requires
        t.wf(),
    ensures
        r == spec_is_common_mdc(record, t, c),
{
    opt_set_contains(&t.category_dis[c.index()], &record.main_dis)
}

/// Whether the case is admitted to category `c`.
pub fn admitted(record: &DrgCase, t: &ReferenceTables, c: Category) -> (r: bool)
    requires
        t.wf(),
    ensures
        r == spec_admitted(record, t, c),
{
    match c {
        Category::MdcP => is_age_mdc(record, t),
        Category::MdcZ => is_mdcz(record, t),
        Category::MdcM => is_sex_mdc(record, t, c),
        Category::MdcN => is_sex_mdc(record, t, c),
        _ => is_common_mdc(record, t, c),
    }
}

pub fn try_category(record: &DrgCase, t: &ReferenceTables, c: Category) -> (r: Option<String>)
    requires
        t.wf(),
    ensures
        opt_view(r) == spec_try_category(record, t, c),
{
    if c == Category::MdcA {
        is_mdca(record, t)
    } else if admitted(record, t, c) {
        match &t.category_groups[c.index()] {
            Some(list) => first_group(record, t, list),
            None => {
                assert(codes_view(t.group_list(c.spec_index())) =~= Seq::<Seq<char>>::empty());
                None
            },
        }
    } else {
        None
    }
}

/// Runs the category cascade: the group and category of the first category,
/// in cascade order, that gives the case a group.
pub fn which_adrg(record: &DrgCase, t: &ReferenceTables) -> (r: Option<(String, Category)>)
    requires
        t.wf(),
    ensures
        match r {
            Some((g, c)) => spec_which_adrg(record, t) == Some((g@, c)),
            None => spec_which_adrg(record, t) is None,
        },
{
    let mut i: usize = 0;
    while i < CATEGORY_COUNT
        invariant
            i <= CATEGORY_COUNT,
            t.wf(),
            spec_which_adrg(record, t) == spec_which_adrg_from(record, t, i as int),
        decreases CATEGORY_COUNT - i,
    {
        let c = cascade_at(i);
        match try_category(record, t, c) {
            Some(g) => {
                return Some((g, c));
            },
            None => {},
        }
        i = i + 1;
    }
    None
}

} // verus!
