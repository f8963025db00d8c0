//! The clinical case record and its derived sets of diagnoses and procedures.

use vstd::prelude::*;

use crate::codes::{distinct_codes, in_codes, vec_contains};

verus! {

/// Sex of the patient.
#[derive(PartialEq, Eq, Structural, Clone, Copy, Debug)]
pub enum Sex {
    Female,
    Male,
}

/// One clinical case, with its codes already normalised.
pub struct DrgCase {
    pub id: String,
    /// Principal diagnosis code.
    pub main_dis: String,
    /// Principal procedure code; empty when no procedure was performed.
    pub main_opt: String,
    pub other_dis: Vec<String>,
    pub other_opt: Vec<String>,
    pub sex: Sex,
    /// Age in whole days, rounded up (an age of `y` years is `ceil(365 * y)` days).
    pub age_days: i64,
    /// Weight in grams.
    pub weight: i64,
    /// The principal and the secondary diagnoses, each once.
    pub all_dis: Vec<String>,
    /// The principal and the secondary procedures, each once; empty without a principal procedure.
    pub all_opt: Vec<String>,
}

/// `c` is the principal diagnosis or a secondary one.
pub open spec fn dis_of(main: Seq<char>, others: Seq<String>, c: Seq<char>) -> bool {
    c == main || in_codes(others, c)
}

/// `c` is a procedure of the case: none without a principal procedure.
pub open spec fn opt_of(main: Seq<char>, others: Seq<String>, c: Seq<char>) -> bool {
    main.len() > 0 && (c == main || in_codes(others, c))
}

impl DrgCase {
    /// No principal procedure was performed.
    pub open spec fn spec_no_surgery(&self) -> bool {
        self.main_opt@.len() == 0
    }

    /// The derived sets hold exactly the codes of the case, each once.
    pub open spec fn wf(&self) -> bool {
        &&& forall|c: Seq<char>|
            #![trigger in_codes(self.all_dis@, c)]
            in_codes(self.all_dis@, c) == dis_of(self.main_dis@, self.other_dis@, c)
        &&& forall|c: Seq<char>|
            #![trigger in_codes(self.all_opt@, c)]
            in_codes(self.all_opt@, c) == opt_of(self.main_opt@, self.other_opt@, c)
        &&& distinct_codes(self.all_dis@)
        &&& distinct_codes(self.all_opt@)
    }

    /// Builds a case from its fields; the derived sets start empty
    /// and are filled by `concat_dis` and `concat_opt`.
    pub fn new(
        admission_number: String,
        principal_diagnosis: String,
        principal_operation: String,
        other_diagnosis: Vec<String>,
        other_operation: Vec<String>,
        gender: Sex,
        age_days: i64,
        mass: i64,
    ) -> (r: DrgCase)
        ensures
            r.id == admission_number,
            r.main_dis == principal_diagnosis,
            r.main_opt == principal_operation,
            r.other_dis == other_diagnosis,
            r.other_opt == other_operation,
            r.sex == gender,
            r.age_days == age_days,
            r.weight == mass,
            r.all_dis@.len() == 0,
            r.all_opt@.len() == 0,
    {
        DrgCase {
            id: admission_number,
            main_dis: principal_diagnosis,
            main_opt: principal_operation,
            other_dis: other_diagnosis,
            other_opt: other_operation,
            sex: gender,
            age_days,
            weight: mass,
            all_dis: Vec::new(),
            all_opt: Vec::new(),
        }
    }

    /// Builds a case and derives its sets of diagnoses and procedures.
    pub fn build(
        admission_number: String,
        principal_diagnosis: String,
        principal_operation: String,
        other_diagnosis: Vec<String>,
        other_operation: Vec<String>,
        gender: Sex,
        age_days: i64,
        mass: i64,
    ) -> (r: DrgCase)
        ensures
            r.wf(),
            r.id == admission_number,
            r.main_dis == principal_diagnosis,
            r.main_opt == principal_operation,
            r.other_dis == other_diagnosis,
            r.other_opt == other_operation,
            r.sex == gender,
            r.age_days == age_days,
            r.weight == mass,
    {
        let mut r = DrgCase::new(
            admission_number,
            principal_diagnosis,
            principal_operation,
            other_diagnosis,
            other_operation,
            gender,
            age_days,
            mass,
        );
        r.concat_dis();
        r.concat_opt();
        r
    }

    pub fn no_surgery(&self) -> (r: bool)
        ensures
            r == self.spec_no_surgery(),
    {
        self.main_opt.as_str().unicode_len() == 0
    }

    pub fn no_other_surgery(&self) -> (r: bool)
        ensures
            r == (self.other_opt@.len() == 0),
    {
        self.other_opt.len() == 0
    }

    pub fn no_other_diagnosis(&self) -> (r: bool)
        ensures
            r == (self.other_dis@.len() == 0),
    {
        self.other_dis.len() == 0
    }

    /// Sets `all_dis` to the principal diagnosis followed by the secondary ones,
    /// each kept once.
    pub fn concat_dis(&mut self)
        ensures
            forall|c: Seq<char>|
                #![trigger in_codes(final(self).all_dis@, c)]
                in_codes(final(self).all_dis@, c) == dis_of(
                    final(self).main_dis@,
                    final(self).other_dis@,
                    c,
                ),
            distinct_codes(final(self).all_dis@),
            final(self).id == old(self).id,
            final(self).main_dis == old(self).main_dis,
            final(self).main_opt == old(self).main_opt,
            final(self).other_dis == old(self).other_dis,
            final(self).other_opt == old(self).other_opt,
            final(self).sex == old(self).sex,
            final(self).age_days == old(self).age_days,
            final(self).weight == old(self).weight,
            final(self).all_opt == old(self).all_opt,
    {
        self.all_dis = dedup_with_first(&self.main_dis, &self.other_dis);
    }

    /// Sets `all_opt` to the principal procedure followed by the secondary ones,
    /// each kept once; leaves it empty when there is no principal procedure.
    pub fn concat_opt(&mut self)
        ensures
            forall|c: Seq<char>|
                #![trigger in_codes(final(self).all_opt@, c)]
                in_codes(final(self).all_opt@, c) == opt_of(
                    final(self).main_opt@,
                    final(self).other_opt@,
                    c,
                ),
            distinct_codes(final(self).all_opt@),
            final(self).id == old(self).id,
            final(self).main_dis == old(self).main_dis,
            final(self).main_opt == old(self).main_opt,
            final(self).other_dis == old(self).other_dis,
            final(self).other_opt == old(self).other_opt,
            final(self).sex == old(self).sex,
            final(self).age_days == old(self).age_days,
            final(self).weight == old(self).weight,
            final(self).all_dis == old(self).all_dis,
    {
        if self.no_surgery() {
            self.all_opt = Vec::new();
        } else {
            self.all_opt = dedup_with_first(&self.main_opt, &self.other_opt);
        }
    }
}

/// `first` followed by the codes of `rest`, each code kept once.
fn dedup_with_first(first: &String, rest: &Vec<String>) -> (r: Vec<String>)
    ensures
        forall|c: Seq<char>|
            #![trigger in_codes(r@, c)]
            in_codes(r@, c) == (c == first@ || in_codes(rest@, c)),
        distinct_codes(r@),
{
    let mut r: Vec<String> = Vec::new();
    r.push(first.clone());
    assert(r@[0]@ == first@);
    let mut i: usize = 0;
    while i < rest.len()
        invariant
            i <= rest.len(),
            distinct_codes(r@),
            forall|c: Seq<char>|
                #![trigger in_codes(r@, c)]
                in_codes(r@, c) == (c == first@ || in_codes(rest@.subrange(0, i as int), c)),
        decreases rest.len() - i,
    {
        let item = &rest[i];
        let seen = vec_contains(&r, item);
        let ghost before = r@;
        if !seen {
            r.push(item.clone());
            assert(r@[before.len() as int]@ == item@);
        }
        assert forall|c: Seq<char>|
            #![trigger in_codes(r@, c)]
            in_codes(r@, c) == (c == first@ || in_codes(rest@.subrange(0, i + 1), c)) by {
            if in_codes(rest@.subrange(0, i + 1), c) {
                let k = choose|k: int| 0 <= k < i + 1 && #[trigger] rest@.subrange(0, i + 1)[k]@ == c;
                if k < i {
                    assert(rest@.subrange(0, i as int)[k] == rest@.subrange(0, i + 1)[k]);
                } else {
                    if seen {
                    } else {
                        assert(r@[before.len() as int]@ == c);
                    }
                }
            }
            if in_codes(rest@.subrange(0, i as int), c) {
                let k = choose|k: int| 0 <= k < i && #[trigger] rest@.subrange(0, i as int)[k]@ == c;
                assert(rest@.subrange(0, i + 1)[k] == rest@.subrange(0, i as int)[k]);
            }
            if in_codes(r@, c) {
                let k = choose|k: int| 0 <= k < r@.len() && #[trigger] r@[k]@ == c;
                if k < before.len() {
                    assert(before[k] == r@[k]);
                } else {
                    assert(rest@.subrange(0, i + 1)[i as int] == rest@[i as int]);
                }
            }
            if in_codes(before, c) {
                let k = choose|k: int| 0 <= k < before.len() && #[trigger] before[k]@ == c;
                assert(before[k] == r@[k]);
            }
        }
        i = i + 1;
    }
    assert(rest@.subrange(0, rest.len() as int) == rest@);
    r
}

} // verus!
