//! The reference tables that classification reads, their lookups, and the
//! check that they are complete.

use vstd::prelude::*;

use crate::codes::{
    ascending_codes, check_ascending, code3, code_less, code_lt, distinct_codes,
    lemma_ascending_distinct, CodeSet,
};

verus! {

/// Ward kind of a group.
#[derive(PartialEq, Eq, Structural, Clone, Copy, Debug)]
pub enum Ward {
    Medical,
    Surgical,
}

/// How a group is split by comorbidity severity.
#[derive(PartialEq, Eq, Structural, Clone, Copy, Debug)]
pub enum ComplicationModel {
    /// Not split: digit 9.
    Unsplit,
    /// Any comorbidity gives 3, none gives 5.
    MergeOneThree,
    /// A major comorbidity gives 1, anything else 5.
    MergeThreeFive,
    /// Major gives 1, other comorbidity 3, none 5.
    Standard,
}

/// The rule by which a case enters a group.
#[derive(PartialEq, Eq, Structural, Clone, Copy, Debug)]
pub enum GroupingMode {
    /// The principal procedure is in the procedure set.
    CommonOpt,
    /// The principal diagnosis is in the diagnosis set.
    CommonDis,
    /// The procedures meet both procedure sets 1 and 2.
    BothOpt,
    /// Principal diagnosis and principal procedure are both in their sets.
    DisAndOpt,
    /// Principal diagnosis in its set, procedures meeting sets 1 and 2.
    MainDisAndAnyOpt,
    /// Principal diagnosis with sets 1 and 2, or with sets 1, 3 and 4.
    MainDisAndMultiOpt,
    /// Principal diagnosis with set 1, or with no procedure in sets 2 and 3.
    MainDisAndMultiOpt2,
    /// Any diagnosis in the diagnosis set, banded by weight.
    AnyDis,
    /// Any procedure in the global procedure set.
    AllOpt,
    /// No procedure in the global procedure set.
    NoOpt,
    /// Any procedure in the procedure set of the group `WB1`.
    ExcludeWb1Opt,
}

/// Severity of a diagnosis when it is secondary.
#[derive(PartialEq, Eq, Structural, Clone, Copy, Debug)]
pub enum Severity {
    Plain,
    Cc,
    Mcc,
}

/// A group with its metadata and its code sets; a set that the tables do not give is `None`.
pub struct GroupEntry {
    pub code: String,
    pub ward: Ward,
    pub model: ComplicationModel,
    pub mode: GroupingMode,
    pub dis: Option<CodeSet>,
    pub opt: Option<CodeSet>,
    pub opt1: Option<CodeSet>,
    pub opt2: Option<CodeSet>,
    pub opt3: Option<CodeSet>,
    pub opt4: Option<CodeSet>,
}

/// A set that may be absent holds `c`; an absent set holds nothing.
pub open spec fn opt_set_has(s: Option<CodeSet>, c: Seq<char>) -> bool {
    match s {
        Some(s) => s.has(c),
        None => false,
    }
}

/// A set that may be absent shares a code with `v`.
pub open spec fn opt_set_meets(s: Option<CodeSet>, v: Seq<String>) -> bool {
    match s {
        Some(s) => s.meets(v),
        None => false,
    }
}

pub fn opt_set_contains(s: &Option<CodeSet>, c: &String) -> (r: bool)
    ensures
        r == opt_set_has(*s, c@),
{
    match s {
        Some(s) => s.contains(c),
        None => false,
    }
}

pub fn opt_set_intersects(s: &Option<CodeSet>, v: &Vec<String>) -> (r: bool)
    ensures
        r == opt_set_meets(*s, v@),
{
    match s {
        Some(s) => s.intersects(v),
        None => false,
    }
}

impl GroupEntry {
    /// The sets that the entry's grouping mode reads are all given.
    pub open spec fn has_sets(&self) -> bool {
        match self.mode {
            GroupingMode::CommonOpt => self.opt is Some,
            GroupingMode::CommonDis => self.dis is Some,
            GroupingMode::BothOpt => self.opt1 is Some && self.opt2 is Some,
            GroupingMode::DisAndOpt => self.dis is Some && self.opt is Some,
            GroupingMode::MainDisAndAnyOpt => self.dis is Some && self.opt1 is Some
                && self.opt2 is Some,
            GroupingMode::MainDisAndMultiOpt => self.dis is Some && self.opt1 is Some
                && self.opt2 is Some && self.opt3 is Some && self.opt4 is Some,
            GroupingMode::MainDisAndMultiOpt2 => self.dis is Some && self.opt1 is Some
                && self.opt2 is Some && self.opt3 is Some,
            GroupingMode::AnyDis => self.dis is Some,
            GroupingMode::AllOpt => true,
            GroupingMode::NoOpt => true,
            GroupingMode::ExcludeWb1Opt => true,
        }
    }

    /// Whether the entry gives the sets its mode reads.
    pub fn check_sets(&self) -> (r: bool)
        ensures
            r == self.has_sets(),
    {
        match self.mode {
            GroupingMode::CommonOpt => self.opt.is_some(),
            GroupingMode::CommonDis => self.dis.is_some(),
            GroupingMode::BothOpt => self.opt1.is_some() && self.opt2.is_some(),
            GroupingMode::DisAndOpt => self.dis.is_some() && self.opt.is_some(),
            GroupingMode::MainDisAndAnyOpt => self.dis.is_some() && self.opt1.is_some()
                && self.opt2.is_some(),
            GroupingMode::MainDisAndMultiOpt => self.dis.is_some() && self.opt1.is_some()
                && self.opt2.is_some() && self.opt3.is_some() && self.opt4.is_some(),
            GroupingMode::MainDisAndMultiOpt2 => self.dis.is_some() && self.opt1.is_some()
                && self.opt2.is_some() && self.opt3.is_some(),
            GroupingMode::AnyDis => self.dis.is_some(),
            GroupingMode::AllOpt => true,
            GroupingMode::NoOpt => true,
            GroupingMode::ExcludeWb1Opt => true,
        }
    }
}

/// Exclusion category and severity of a diagnosis as a secondary one.
/// An `exclusion` of `None` means the diagnosis is never excluded.
pub struct Comorbidity {
    pub code: String,
    pub exclusion: Option<String>,
    pub severity: Severity,
}

/// The exclusion category that a principal diagnosis exempts.
pub struct Exclusion {
    pub code: String,
    pub category: String,
}

/// First index at or after `i` of the group whose code is `code`.
pub open spec fn find_group_from(s: Seq<GroupEntry>, code: Seq<char>, i: int) -> Option<int>
    decreases s.len() - i,
{
    if i < 0 || i >= s.len() {
        None
    } else if s[i].code@ == code {
        Some(i)
    } else {
        find_group_from(s, code, i + 1)
    }
}

/// First index at or after `i` of the comorbidity entry of `code`.
pub open spec fn find_comorbidity_from(s: Seq<Comorbidity>, code: Seq<char>, i: int) -> Option<
    int,
>
    decreases s.len() - i,
{
    if i < 0 || i >= s.len() {
        None
    } else if s[i].code@ == code {
        Some(i)
    } else {
        find_comorbidity_from(s, code, i + 1)
    }
}

/// First index at or after `i` of the exclusion entry of `code`.
pub open spec fn find_exclusion_from(s: Seq<Exclusion>, code: Seq<char>, i: int) -> Option<int>
    decreases s.len() - i,
{
    if i < 0 || i >= s.len() {
        None
    } else if s[i].code@ == code {
        Some(i)
    } else {
        find_exclusion_from(s, code, i + 1)
    }
}

} // verus!

verus! {

/// Category indexes whose diagnosis set the cascade reads: all but the
/// pre-classification category (first) and multiple trauma (last).
pub open spec fn index_reads_diagnoses(k: int) -> bool {
    k != 0 && k != 25
}

/// Category indexes whose candidate groups the cascade reads: all but pre-classification.
pub open spec fn index_reads_groups(k: int) -> bool {
    k != 0
}

fn reads_diagnoses_at(k: usize) -> (r: bool)
    ensures
        r == index_reads_diagnoses(k as int),
{
    k != 0 && k != 25
}

fn reads_groups_at(k: usize) -> (r: bool)
    ensures
        r == index_reads_groups(k as int),
{
    k != 0
}

/// The candidate groups of the pre-classification category, in trial order.
pub open spec fn pre_groups() -> Seq<Seq<char>> {
    seq![
        seq!['A', 'A', '1'],
        seq!['A', 'B', '1'],
        seq!['A', 'C', '1'],
        seq!['A', 'D', '1'],
        seq!['A', 'E', '1'],
        seq!['A', 'F', '1'],
        seq!['A', 'G', '1'],
        seq!['A', 'G', '2'],
        seq!['A', 'H', '1'],
    ]
}

/// The groups of the neonatal weight bands, band `k` for `k` in 1..=4.
pub open spec fn band_group(k: char) -> Seq<char> {
    seq!['P', 'S', k]
}

/// The group whose procedure set the `ExcludeWb1Opt` mode reads.
pub open spec fn wb1_group() -> Seq<char> {
    seq!['W', 'B', '1']
}

pub fn pre_group_list() -> (r: Vec<String>)
    ensures
        r@.len() == pre_groups().len(),
        forall|j: int| 0 <= j < r@.len() ==> #[trigger] r@[j]@ == pre_groups()[j],
{
    let mut r: Vec<String> = Vec::new();
    r.push(code3('A', 'A', '1'));
    r.push(code3('A', 'B', '1'));
    r.push(code3('A', 'C', '1'));
    r.push(code3('A', 'D', '1'));
    r.push(code3('A', 'E', '1'));
    r.push(code3('A', 'F', '1'));
    r.push(code3('A', 'G', '1'));
    r.push(code3('A', 'G', '2'));
    r.push(code3('A', 'H', '1'));
    r
}

/// The reference tables that every classification reads.
pub struct ReferenceTables {
    /// Diagnoses admitting a case to each category, by category index.
    pub category_dis: Vec<Option<CodeSet>>,
    /// Candidate groups of each category, by category index, in trial order.
    pub category_groups: Vec<Option<Vec<String>>>,
    /// Body-region diagnosis sets for multiple trauma.
    pub regions: Vec<CodeSet>,
    pub groups: Vec<GroupEntry>,
    /// Every clinically significant procedure.
    pub all_opt: CodeSet,
    pub comorbidities: Vec<Comorbidity>,
    pub exclusions: Vec<Exclusion>,
}

impl ReferenceTables {
    /// The entry of group `code`: the first one with that code.
    pub open spec fn spec_group(&self, code: Seq<char>) -> Option<GroupEntry> {
        match find_group_from(self.groups@, code, 0) {
            Some(i) => Some(self.groups@[i]),
            None => None,
        }
    }

    /// The comorbidity entry of diagnosis `code`: the first one with that code.
    pub open spec fn spec_comorbidity(&self, code: Seq<char>) -> Option<Comorbidity> {
        match find_comorbidity_from(self.comorbidities@, code, 0) {
            Some(i) => Some(self.comorbidities@[i]),
            None => None,
        }
    }

    /// The exclusion category that the principal diagnosis `code` exempts, if any.
    pub open spec fn spec_exclusion(&self, code: Seq<char>) -> Option<Seq<char>> {
        match find_exclusion_from(self.exclusions@, code, 0) {
            Some(i) => Some(self.exclusions@[i].category@),
            None => None,
        }
    }

    /// The candidate groups at category index `k`; none where the tables give no list.
    pub open spec fn group_list(&self, k: int) -> Seq<String> {
        match self.category_groups@[k] {
            Some(v) => v@,
            None => Seq::empty(),
        }
    }

    /// The codes of the group entries, in table order.
    pub open spec fn group_codes(&self) -> Seq<String> {
        self.groups@.map_values(|e: GroupEntry| e.code)
    }

    /// The codes of the comorbidity entries, in table order.
    pub open spec fn comorbidity_codes(&self) -> Seq<String> {
        self.comorbidities@.map_values(|e: Comorbidity| e.code)
    }

    /// The codes of the exclusion entries, in table order.
    pub open spec fn exclusion_codes(&self) -> Seq<String> {
        self.exclusions@.map_values(|e: Exclusion| e.code)
    }

    /// Group `code` has an entry.
    pub open spec fn has_group(&self, code: Seq<char>) -> bool {
        self.spec_group(code) is Some
    }

    /// Some entry has grouping mode `m`.
    pub open spec fn uses_mode(&self, m: GroupingMode) -> bool {
        exists|i: int| 0 <= i < self.groups@.len() && #[trigger] self.groups@[i].mode == m
    }

    /// The tables are complete and ordered: every group that classification can
    /// reach has an entry, every entry gives the sets its mode reads, each category's
    /// candidate groups are listed in ascending code order, and the group, comorbidity
    /// and exclusion tables each hold every code once, in ascending order.
    pub open spec fn wf(&self) -> bool {
        &&& forall|k: int|
            0 <= k < self.category_groups@.len() ==> ascending_codes(#[trigger] self.group_list(k))
        &&& ascending_codes(self.group_codes())
        &&& ascending_codes(self.comorbidity_codes())
        &&& ascending_codes(self.exclusion_codes())
        &&& distinct_codes(self.group_codes())
        &&& distinct_codes(self.comorbidity_codes())
        &&& distinct_codes(self.exclusion_codes())
        &&& self.category_dis@.len() == crate::category::CATEGORY_COUNT
        &&& self.category_groups@.len() == crate::category::CATEGORY_COUNT
        &&& forall|k: int|
            0 <= k < crate::category::CATEGORY_COUNT && index_reads_diagnoses(k)
                ==> (#[trigger] self.category_dis@[k]) is Some
        &&& forall|k: int|
            0 <= k < crate::category::CATEGORY_COUNT && index_reads_groups(k)
                ==> (#[trigger] self.category_groups@[k]) is Some
        &&& forall|k: int, j: int|
            0 <= k < self.category_groups@.len() && 0 <= j < self.group_list(k).len()
                ==> self.has_group(#[trigger] self.group_list(k)[j]@)
        &&& forall|j: int| 0 <= j < pre_groups().len() ==> self.has_group(#[trigger] pre_groups()[j])
        &&& forall|i: int| 0 <= i < self.groups@.len() ==> (#[trigger] self.groups@[i]).has_sets()
        &&& self.uses_mode(GroupingMode::AnyDis) ==> {
            &&& self.has_group(band_group('1'))
            &&& self.has_group(band_group('2'))
            &&& self.has_group(band_group('3'))
            &&& self.has_group(band_group('4'))
        }
        &&& self.uses_mode(GroupingMode::ExcludeWb1Opt) ==> (self.spec_group(wb1_group()) matches Some(
            e,
        ) && e.opt is Some)
    }

    /// Index of the entry of group `code`.
    pub fn group_index(&self, code: &String) -> (r: Option<usize>)
        ensures
            match r {
                Some(i) => find_group_from(self.groups@, code@, 0) == Some(i as int) && i < self.groups@.len(),
                None => find_group_from(self.groups@, code@, 0) is None,
            },
    {
        let mut i: usize = 0;
        while i < self.groups.len()
            invariant
                i <= self.groups@.len(),
                find_group_from(self.groups@, code@, 0) == find_group_from(
                    self.groups@,
                    code@,
                    i as int,
                ),
            decreases self.groups@.len() - i,
        {
            if self.groups[i].code == *code {
                return Some(i);
            }
            i = i + 1;
        }
        None
    }

    /// Index of the comorbidity entry of diagnosis `code`.
    pub fn comorbidity_index(&self, code: &String) -> (r: Option<usize>)
        ensures
            match r {
                Some(i) => find_comorbidity_from(self.comorbidities@, code@, 0) == Some(i as int)
                    && i < self.comorbidities@.len(),
                None => find_comorbidity_from(self.comorbidities@, code@, 0) is None,
            },
    {
        let mut i: usize = 0;
        while i < self.comorbidities.len()
            invariant
                i <= self.comorbidities@.len(),
                find_comorbidity_from(self.comorbidities@, code@, 0) == find_comorbidity_from(
                    self.comorbidities@,
                    code@,
                    i as int,
                ),
            decreases self.comorbidities@.len() - i,
        {
            if self.comorbidities[i].code == *code {
                return Some(i);
            }
            i = i + 1;
        }
        None
    }

    /// Index of the exclusion entry of principal diagnosis `code`.
    pub fn exclusion_index(&self, code: &String) -> (r: Option<usize>)
        ensures
            match r {
                Some(i) => find_exclusion_from(self.exclusions@, code@, 0) == Some(i as int) && i < self.exclusions@.len(),
                None => find_exclusion_from(self.exclusions@, code@, 0) is None,
            },
    {
        let mut i: usize = 0;
        while i < self.exclusions.len()
            invariant
                i <= self.exclusions@.len(),
                find_exclusion_from(self.exclusions@, code@, 0) == find_exclusion_from(
                    self.exclusions@,
                    code@,
                    i as int,
                ),
            decreases self.exclusions@.len() - i,
        {
            if self.exclusions[i].code == *code {
                return Some(i);
            }
            i = i + 1;
        }
        None
    }

    /// Whether some entry has grouping mode `m`.
    pub fn check_uses_mode(&self, m: GroupingMode) -> (r: bool)
        ensures
            r == self.uses_mode(m),
    {
        let mut i: usize = 0;
        while i < self.groups.len()
            invariant
                i <= self.groups@.len(),
                forall|k: int| 0 <= k < i ==> (#[trigger] self.groups@[k]).mode != m,
            decreases self.groups@.len() - i,
        {
            if self.groups[i].mode == m {
                return true;
            }
            i = i + 1;
        }
        false
    }

    /// Whether the group, comorbidity and exclusion tables are each in ascending
    /// code order; they then hold no code twice.
    fn check_table_order(&self) -> (r: bool)
        ensures
            r == (ascending_codes(self.group_codes()) && ascending_codes(self.comorbidity_codes())
                && ascending_codes(self.exclusion_codes())),
            r ==> distinct_codes(self.group_codes()) && distinct_codes(self.comorbidity_codes())
                && distinct_codes(self.exclusion_codes()),
    {
        let mut j: usize = 0;
        while j < self.groups.len() && j + 1 < self.groups.len()
            invariant
                j <= self.groups@.len(),
                forall|k: int|
                    0 <= k < j && k + 1 < self.groups@.len() ==> code_lt(
                        #[trigger] self.group_codes()[k]@,
                        self.group_codes()[k + 1]@,
                    ),
            decreases self.groups.len() - j,
        {
            if !code_less(&self.groups[j].code, &self.groups[j + 1].code) {
                assert(self.group_codes()[j as int] == self.groups@[j as int].code);
                return false;
            }
            j = j + 1;
        }
        let mut j: usize = 0;
        while j < self.comorbidities.len() && j + 1 < self.comorbidities.len()
            invariant
                j <= self.comorbidities@.len(),
                ascending_codes(self.group_codes()),
                forall|k: int|
                    0 <= k < j && k + 1 < self.comorbidities@.len() ==> code_lt(
                        #[trigger] self.comorbidity_codes()[k]@,
                        self.comorbidity_codes()[k + 1]@,
                    ),
            decreases self.comorbidities.len() - j,
        {
            if !code_less(&self.comorbidities[j].code, &self.comorbidities[j + 1].code) {
                assert(self.comorbidity_codes()[j as int] == self.comorbidities@[j as int].code);
                return false;
            }
            j = j + 1;
        }
        let mut j: usize = 0;
        while j < self.exclusions.len() && j + 1 < self.exclusions.len()
            invariant
                j <= self.exclusions@.len(),
                ascending_codes(self.group_codes()),
                ascending_codes(self.comorbidity_codes()),
                forall|k: int|
                    0 <= k < j && k + 1 < self.exclusions@.len() ==> code_lt(
                        #[trigger] self.exclusion_codes()[k]@,
                        self.exclusion_codes()[k + 1]@,
                    ),
            decreases self.exclusions.len() - j,
        {
            if !code_less(&self.exclusions[j].code, &self.exclusions[j + 1].code) {
                assert(self.exclusion_codes()[j as int] == self.exclusions@[j as int].code);
                return false;
            }
            j = j + 1;
        }
        proof {
            lemma_ascending_distinct(self.group_codes());
            lemma_ascending_distinct(self.comorbidity_codes());
            lemma_ascending_distinct(self.exclusion_codes());
        }
        true
    }

    fn check_has_group(&self, code: &String) -> (r: bool)
        ensures
            r == self.has_group(code@),
    {
        self.group_index(code).is_some()
    }

    /// Whether the tables are complete; to be asked once, before any classification.
    pub fn check(&self) -> (r: bool)
        ensures
            r == self.wf(),
    {
        if self.category_dis.len() != crate::category::CATEGORY_COUNT
            || self.category_groups.len() != crate::category::CATEGORY_COUNT {
            return false;
        }
        let mut k: usize = 0;
        while k < self.category_groups.len()
            invariant
                k <= self.category_groups@.len(),
                self.category_dis@.len() == crate::category::CATEGORY_COUNT,
                self.category_groups@.len() == crate::category::CATEGORY_COUNT,
                forall|a: int|
                    0 <= a < k && index_reads_diagnoses(a) ==> (#[trigger] self.category_dis@[a]) is Some,
                forall|a: int|
                    0 <= a < k && index_reads_groups(a) ==> (#[trigger] self.category_groups@[a]) is Some,
                forall|a: int, j: int|
                    0 <= a < k && 0 <= j < self.group_list(a).len() ==> self.has_group(
                        #[trigger] self.group_list(a)[j]@,
                    ),
                forall|a: int| 0 <= a < k ==> ascending_codes(#[trigger] self.group_list(a)),
            decreases self.category_groups@.len() - k,
        {
            if reads_diagnoses_at(k) && self.category_dis[k].is_none() {
                return false;
            }
            if reads_groups_at(k) && self.category_groups[k].is_none() {
                return false;
            }
            if self.category_groups[k].is_none() {
                assert(self.group_list(k as int) =~= Seq::<String>::empty());
            }
            if let Some(list) = &self.category_groups[k] {
                if !check_ascending(list) {
                    assert(self.group_list(k as int) == list@);
                    return false;
                }
                let mut j: usize = 0;
                while j < list.len()
                    invariant
                        k < self.category_groups@.len(),
                        self.group_list(k as int) == list@,
                        j <= list@.len(),
                        forall|b: int| 0 <= b < j ==> self.has_group(#[trigger] list@[b]@),
                    decreases list@.len() - j,
                {
                    if !self.check_has_group(&list[j]) {
                        return false;
                    }
                    j = j + 1;
                }
                assert(ascending_codes(self.group_list(k as int)));
                assert(forall|b: int|
                    0 <= b < self.group_list(k as int).len() ==> self.has_group(
                        #[trigger] self.group_list(k as int)[b]@,
                    ));
            }
            k = k + 1;
        }
        if !self.check_table_order() {
            return false;
        }
        let pre = pre_group_list();
        let mut j: usize = 0;
        while j < pre.len()
            invariant
                j <= pre@.len(),
                pre@.len() == pre_groups().len(),
                forall|b: int| 0 <= b < pre@.len() ==> #[trigger] pre@[b]@ == pre_groups()[b],
                forall|b: int| 0 <= b < j ==> self.has_group(#[trigger] pre_groups()[b]),
            decreases pre@.len() - j,
        {
            if !self.check_has_group(&pre[j]) {
                assert(pre@[j as int]@ == pre_groups()[j as int]);
                return false;
            }
            j = j + 1;
        }
        let mut i: usize = 0;
        while i < self.groups.len()
            invariant
                i <= self.groups@.len(),
                forall|b: int| 0 <= b < i ==> (#[trigger] self.groups@[b]).has_sets(),
            decreases self.groups@.len() - i,
        {
            if !self.groups[i].check_sets() {
                return false;
            }
            i = i + 1;
        }
        if self.check_uses_mode(GroupingMode::AnyDis) {
            if !self.check_has_group(&code3('P', 'S', '1')) || !self.check_has_group(
                &code3('P', 'S', '2'),
            ) || !self.check_has_group(&code3('P', 'S', '3')) || !self.check_has_group(
                &code3('P', 'S', '4'),
            ) {
                return false;
            }
        }
        if self.check_uses_mode(GroupingMode::ExcludeWb1Opt) {
            match self.group_index(&code3('W', 'B', '1')) {
                Some(w) => {
                    if self.groups[w].opt.is_none() {
                        return false;
                    }
                },
                None => {
                    return false;
                },
            }
        }
        true
    }
}

} // verus!
