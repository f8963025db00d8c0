use drg_group::category::Category;
use drg_group::codes::CodeSet;
use drg_group::drg::{batch_drg_group, classify, which_drg, CaseError};
use drg_group::record::{DrgCase, Sex};
use drg_group::tables::{
    Comorbidity, ComplicationModel, Exclusion, GroupEntry, GroupingMode, ReferenceTables,
    Severity, Ward,
};

fn set(codes: &[&str]) -> CodeSet {
    CodeSet::new(codes.iter().map(|c| c.to_string()).collect())
}

fn strings(codes: &[&str]) -> Vec<String> {
    codes.iter().map(|c| c.to_string()).collect()
}

fn group(code: &str, ward: Ward, model: ComplicationModel, mode: GroupingMode) -> GroupEntry {
    GroupEntry {
        code: code.to_string(),
        ward,
        model,
        mode,
        dis: None,
        opt: None,
        opt1: None,
        opt2: None,
        opt3: None,
        opt4: None,
    }
}

fn pre_groups() -> Vec<GroupEntry> {
    ["AA1", "AB1", "AC1", "AD1", "AE1", "AF1", "AG1", "AG2", "AH1"]
        .iter()
        .map(|c| {
            let mut g = group(c, Ward::Surgical, ComplicationModel::Unsplit, GroupingMode::CommonOpt);
            g.opt = Some(set(&[]));
            g
        })
        .collect()
}

fn empty_tables() -> ReferenceTables {
    ReferenceTables {
        category_dis: (0..26).map(|_| Some(set(&[]))).collect(),
        category_groups: (0..26).map(|_| Some(Vec::new())).collect(),
        regions: Vec::new(),
        groups: pre_groups(),
        all_opt: set(&[]),
        comorbidities: Vec::new(),
        exclusions: Vec::new(),
    }
}

fn put_category(t: &mut ReferenceTables, c: Category, dis: &[&str], groups: &[&str]) {
    t.category_dis[c.index()] = Some(set(dis));
    t.category_groups[c.index()] = Some(strings(groups));
}

fn find_group<'a>(t: &'a mut ReferenceTables, code: &str) -> &'a mut GroupEntry {
    t.groups.iter_mut().find(|g| g.code == code).unwrap()
}

fn case(main_dis: &str, main_opt: &str, other_dis: &[&str], other_opt: &[&str]) -> DrgCase {
    DrgCase::build(
        "1".to_string(),
        main_dis.to_string(),
        main_opt.to_string(),
        strings(other_dis),
        strings(other_opt),
        Sex::Male,
        10585,
        2789,
    )
}

fn cc(code: &str, exclusion: Option<&str>, severity: Severity) -> Comorbidity {
    Comorbidity { code: code.to_string(), exclusion: exclusion.map(|e| e.to_string()), severity }
}

/// Respiratory tables: one medical group by principal diagnosis, split by severity.
fn respiratory_tables(model: ComplicationModel) -> ReferenceTables {
    let mut t = empty_tables();
    put_category(&mut t, Category::MdcE, &["J20.900", "J18.900"], &["ES3"]);
    let mut g = group("ES3", Ward::Medical, model, GroupingMode::CommonDis);
    g.dis = Some(set(&["J20.900", "J18.900"]));
    t.groups.push(g);
    t.all_opt = set(&["32.2900", "33.2700"]);
    t.comorbidities = vec![
        cc("E87.102", Some("E87"), Severity::Cc),
        cc("E87.803", None, Severity::Plain),
        cc("I10.x00", Some("I10"), Severity::Cc),
        cc("J96.000", Some("J96"), Severity::Mcc),
        cc("N17.900", None, Severity::Mcc),
    ];
    t.exclusions = vec![Exclusion { code: "J18.900".to_string(), category: "J96".to_string() }];
    t
}

/// Neonatal tables: the weight-banded family inside the neonatal category.
fn neonatal_tables() -> ReferenceTables {
    let mut t = empty_tables();
    put_category(&mut t, Category::MdcP, &["P07.100"], &["PS1", "PS2", "PS3", "PS4"]);
    for code in ["PS1", "PS2", "PS3", "PS4"] {
        let mut g = group(code, Ward::Medical, ComplicationModel::Standard, GroupingMode::AnyDis);
        g.dis = Some(set(&["P07.100"]));
        t.groups.push(g);
    }
    t
}

fn newborn(weight: i64, other_dis: &[&str]) -> DrgCase {
    DrgCase::build(
        "2".to_string(),
        "P07.100".to_string(),
        String::new(),
        strings(other_dis),
        Vec::new(),
        Sex::Female,
        0,
        weight,
    )
}

#[test]
fn bronchitis_with_physiotherapy_and_one_cc() {
    let t = respiratory_tables(ComplicationModel::Standard);
    assert!(t.check());
    let c = case("J20.900", "93.3500x004", &["E87.102", "E87.803"], &[]);
    assert_eq!(which_drg(&c, &t), "ES33");
}

#[test]
fn low_weight_newborn_gets_band_one() {
    let t = neonatal_tables();
    assert!(t.check());
    assert_eq!(which_drg(&newborn(1200, &[]), &t), "PS15");
}

#[test]
fn unknown_diagnosis_without_procedure_is_unmatched() {
    let t = respiratory_tables(ComplicationModel::Standard);
    let c = case("Z99.999", "", &["E87.102"], &[]);
    assert_eq!(which_drg(&c, &t), "KBBZ");
}

#[test]
fn single_mcc_gives_digit_one() {
    let t = respiratory_tables(ComplicationModel::Standard);
    let c = case("J20.900", "", &["N17.900"], &[]);
    assert_eq!(which_drg(&c, &t), "ES31");
}

#[test]
fn weight_bands_follow_their_bounds() {
    let t = neonatal_tables();
    assert_eq!(which_drg(&newborn(1499, &[]), &t), "PS15");
    // Band one is tried first: outside it the rule gives band four.
    assert_eq!(which_drg(&newborn(1500, &[]), &t), "PS45");
    assert_eq!(which_drg(&newborn(2600, &[]), &t), "PS45");
}

#[test]
fn weight_band_keeps_the_group_tried_only_inside_its_band() {
    let mut t = neonatal_tables();
    t.category_groups[Category::MdcP.index()] = Some(strings(&["PS2"]));
    assert_eq!(which_drg(&newborn(1500, &[]), &t), "PS25");
    assert_eq!(which_drg(&newborn(1998, &[]), &t), "PS25");
    assert_eq!(which_drg(&newborn(1999, &[]), &t), "PS45");
    assert_eq!(which_drg(&newborn(1200, &[]), &t), "PS45");
    t.category_groups[Category::MdcP.index()] = Some(strings(&["PS3"]));
    assert_eq!(which_drg(&newborn(1999, &[]), &t), "PS35");
    assert_eq!(which_drg(&newborn(2498, &[]), &t), "PS35");
    assert_eq!(which_drg(&newborn(2499, &[]), &t), "PS45");
    t.category_groups[Category::MdcP.index()] = Some(strings(&["PS4"]));
    assert_eq!(which_drg(&newborn(1200, &[]), &t), "PS45");
}

#[test]
fn neonatal_category_needs_age_zero() {
    let t = neonatal_tables();
    let mut c = newborn(1200, &[]);
    c.age_days = 1;
    assert_eq!(which_drg(&c, &t), "KBBZ");
}

#[test]
fn preclassification_takes_priority() {
    let mut t = respiratory_tables(ComplicationModel::Standard);
    find_group(&mut t, "AA1").opt = Some(set(&["33.5000"]));
    let c = case("J20.900", "33.5000", &[], &[]);
    assert_eq!(which_drg(&c, &t), "AA19");
}

#[test]
fn preclassification_tries_candidates_in_order() {
    let mut t = empty_tables();
    find_group(&mut t, "AB1").opt = Some(set(&["37.5100"]));
    find_group(&mut t, "AH1").opt = Some(set(&["37.5100"]));
    let c = case("I42.000", "37.5100", &[], &[]);
    assert_eq!(which_drg(&c, &t), "AB19");
}

#[test]
fn medical_group_with_real_procedure_moves_to_pseudo_group() {
    let t = respiratory_tables(ComplicationModel::Standard);
    let c = case("J20.900", "32.2900", &["N17.900"], &[]);
    assert_eq!(which_drg(&c, &t), "EQY");
}

#[test]
fn pseudo_group_of_category_d_starts_with_s() {
    let mut t = empty_tables();
    put_category(&mut t, Category::MdcD, &["J34.200"], &["DS1"]);
    let mut g = group("DS1", Ward::Medical, ComplicationModel::Standard, GroupingMode::CommonDis);
    g.dis = Some(set(&["J34.200"]));
    t.groups.push(g);
    t.all_opt = set(&["21.5x00"]);
    let c = case("J34.200", "21.5x00", &[], &[]);
    assert_eq!(which_drg(&c, &t), "SQY");
}

#[test]
fn category_without_pseudo_group_keeps_its_group() {
    let mut t = empty_tables();
    put_category(&mut t, Category::MdcS, &["A41.900"], &["SR1"]);
    let mut g = group("SR1", Ward::Medical, ComplicationModel::MergeThreeFive, GroupingMode::CommonDis);
    g.dis = Some(set(&["A41.900"]));
    t.groups.push(g);
    t.all_opt = set(&["38.9300"]);
    let c = case("A41.900", "38.9300", &[], &[]);
    assert_eq!(which_drg(&c, &t), "SR15");
}

#[test]
fn procedure_outside_global_set_keeps_medical_group() {
    let t = respiratory_tables(ComplicationModel::Standard);
    let c = case("J20.900", "93.3500x004", &[], &["93.9600"]);
    assert_eq!(which_drg(&c, &t), "ES35");
}

#[test]
fn no_secondary_diagnosis_gives_five_for_split_models() {
    for model in [
        ComplicationModel::MergeOneThree,
        ComplicationModel::MergeThreeFive,
        ComplicationModel::Standard,
    ] {
        let t = respiratory_tables(model);
        assert_eq!(which_drg(&case("J20.900", "", &[], &[]), &t), "ES35");
    }
    let t = respiratory_tables(ComplicationModel::Unsplit);
    assert_eq!(which_drg(&case("J20.900", "", &["N17.900"], &[]), &t), "ES39");
}

#[test]
fn merge_models_fold_severities() {
    let t = respiratory_tables(ComplicationModel::MergeOneThree);
    assert_eq!(which_drg(&case("J20.900", "", &["N17.900"], &[]), &t), "ES33");
    assert_eq!(which_drg(&case("J20.900", "", &["E87.803"], &[]), &t), "ES35");
    let t = respiratory_tables(ComplicationModel::MergeThreeFive);
    assert_eq!(which_drg(&case("J20.900", "", &["E87.102"], &[]), &t), "ES35");
    assert_eq!(which_drg(&case("J20.900", "", &["E87.102", "N17.900"], &[]), &t), "ES31");
}

#[test]
fn exclusion_suppresses_severity_of_same_category() {
    let t = respiratory_tables(ComplicationModel::Standard);
    assert_eq!(which_drg(&case("J18.900", "", &["J96.000"], &[]), &t), "ES35");
    assert_eq!(which_drg(&case("J18.900", "", &["J96.000", "I10.x00"], &[]), &t), "ES33");
    assert_eq!(which_drg(&case("J20.900", "", &["J96.000"], &[]), &t), "ES31");
}

#[test]
fn classification_is_repeatable() {
    let t = respiratory_tables(ComplicationModel::Standard);
    let c = case("J20.900", "93.3500x004", &["E87.102", "E87.803"], &[]);
    let first = which_drg(&c, &t);
    let second = which_drg(&c, &t);
    assert_eq!(first, second);
}

#[test]
fn output_is_sentinel_bare_code_or_code_with_digit() {
    let t = respiratory_tables(ComplicationModel::Standard);
    let outputs = [
        which_drg(&case("Z99.999", "", &[], &[]), &t),
        which_drg(&case("J20.900", "32.2900", &[], &[]), &t),
        which_drg(&case("J20.900", "", &["N17.900"], &[]), &t),
    ];
    assert_eq!(outputs[0], "KBBZ");
    assert_eq!(outputs[1], "EQY");
    assert_eq!(outputs[2].len(), 4);
    assert!(outputs[2].starts_with("ES3"));
    assert!(outputs[2].chars().last().unwrap().is_ascii_digit());
}

#[test]
fn sex_gated_categories() {
    let mut t = empty_tables();
    put_category(&mut t, Category::MdcM, &["N40.x00"], &["MR1"]);
    put_category(&mut t, Category::MdcN, &["N40.x00"], &["NR1"]);
    for code in ["MR1", "NR1"] {
        let mut g = group(code, Ward::Medical, ComplicationModel::Standard, GroupingMode::CommonDis);
        g.dis = Some(set(&["N40.x00"]));
        t.groups.push(g);
    }
    let mut c = case("N40.x00", "", &[], &[]);
    assert_eq!(which_drg(&c, &t), "MR15");
    c.sex = Sex::Female;
    assert_eq!(which_drg(&c, &t), "NR15");
}

#[test]
fn multiple_trauma_needs_a_secondary_diagnosis() {
    let mut t = empty_tables();
    t.regions = vec![set(&["S06.000"]), set(&["S27.000"])];
    put_category(&mut t, Category::MdcZ, &[], &["ZZ1"]);
    let mut g = group("ZZ1", Ward::Medical, ComplicationModel::Standard, GroupingMode::NoOpt);
    g.dis = Some(set(&[]));
    t.groups.push(g);
    assert_eq!(which_drg(&case("S06.000", "", &["R51.x00"], &[]), &t), "ZZ15");
    assert_eq!(which_drg(&case("S06.000", "", &[], &[]), &t), "KBBZ");
    assert_eq!(which_drg(&case("R51.x00", "", &["S27.000"], &[]), &t), "ZZ15");
}

#[test]
fn category_without_group_match_falls_through() {
    let mut t = empty_tables();
    put_category(&mut t, Category::MdcB, &["G45.900"], &["BR1"]);
    put_category(&mut t, Category::MdcX, &["G45.900"], &["XR1"]);
    let mut g = group("BR1", Ward::Medical, ComplicationModel::Standard, GroupingMode::CommonOpt);
    g.opt = Some(set(&["01.2400"]));
    t.groups.push(g);
    let mut g = group("XR1", Ward::Medical, ComplicationModel::Standard, GroupingMode::CommonDis);
    g.dis = Some(set(&["G45.900"]));
    t.groups.push(g);
    assert_eq!(which_drg(&case("G45.900", "", &[], &[]), &t), "XR15");
}

#[test]
fn empty_principal_diagnosis_is_reported_alone() {
    let t = respiratory_tables(ComplicationModel::Standard);
    let cases = vec![case("", "", &[], &[]), case("J20.900", "", &[], &[])];
    let r = batch_drg_group(&cases, &t);
    assert_eq!(r[0], Err(CaseError::MissingPrincipalDiagnosis));
    assert_eq!(r[1], Ok("ES35".to_string()));
    assert_eq!(classify(&cases[1], &t), Ok("ES35".to_string()));
}

#[test]
fn check_finds_missing_groups_and_sets() {
    let mut t = respiratory_tables(ComplicationModel::Standard);
    assert!(t.check());
    t.category_groups[Category::MdcE.index()] = Some(strings(&["ES3", "ES9"]));
    assert!(!t.check());
    let mut t = respiratory_tables(ComplicationModel::Standard);
    find_group(&mut t, "ES3").dis = None;
    assert!(!t.check());
    let mut t = respiratory_tables(ComplicationModel::Standard);
    t.groups.remove(0);
    assert!(!t.check());
    let mut t = neonatal_tables();
    t.groups.retain(|g| g.code != "PS4");
    t.category_groups[Category::MdcP.index()] = Some(strings(&["PS1"]));
    assert!(!t.check());
    let mut t = empty_tables();
    t.category_dis.pop();
    assert!(!t.check());
}

#[test]
fn check_demands_the_category_tables_the_cascade_reads() {
    let mut t = empty_tables();
    t.category_dis[Category::MdcA.index()] = None;
    t.category_groups[Category::MdcA.index()] = None;
    t.category_dis[Category::MdcZ.index()] = None;
    assert!(t.check());
    t.category_groups[Category::MdcZ.index()] = None;
    assert!(!t.check());
    let mut t = empty_tables();
    t.category_dis[Category::MdcE.index()] = None;
    assert!(!t.check());
}

#[test]
fn check_demands_ascending_lists_and_unique_codes() {
    let mut t = neonatal_tables();
    assert!(t.check());
    t.category_groups[Category::MdcP.index()] = Some(strings(&["PS2", "PS1"]));
    assert!(!t.check());
    t.category_groups[Category::MdcP.index()] = Some(strings(&["PS1", "PS1"]));
    assert!(!t.check());
    let mut t = neonatal_tables();
    t.groups.swap(0, 1);
    assert!(!t.check());
    let mut t = respiratory_tables(ComplicationModel::Standard);
    t.comorbidities.push(cc("N17.900", None, Severity::Cc));
    assert!(!t.check());
    let mut t = respiratory_tables(ComplicationModel::Standard);
    t.exclusions.push(Exclusion { code: "A00.000".to_string(), category: "A00".to_string() });
    assert!(!t.check());
}
