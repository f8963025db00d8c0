use drg_group::codes::CodeSet;
use drg_group::dispatch::{
    is_all_surgery, is_both_mdis_and_mopt_adrg, is_both_mdis_opt_adrg, is_both_opt_adrg,
    is_common_diagnosis_adrg, is_common_surgery_adrg, is_dis_adrg,
    is_mdis_and_multi_surgery_adrg_one, is_mdis_and_multi_surgery_adrg_two,
    is_without_surgery, is_without_wb1_surgery, process_adrg, weight_band,
};
use drg_group::record::{DrgCase, Sex};
use drg_group::tables::{ComplicationModel, GroupEntry, GroupingMode, ReferenceTables, Ward};

fn set(codes: &[&str]) -> CodeSet {
    CodeSet::new(codes.iter().map(|c| c.to_string()).collect())
}

fn strings(codes: &[&str]) -> Vec<String> {
    codes.iter().map(|c| c.to_string()).collect()
}

fn entry(mode: GroupingMode) -> GroupEntry {
    GroupEntry {
        code: "GG1".to_string(),
        ward: Ward::Surgical,
        model: ComplicationModel::Standard,
        mode,
        dis: Some(set(&["D1"])),
        opt: Some(set(&["OP0"])),
        opt1: Some(set(&["OP1"])),
        opt2: Some(set(&["OP2"])),
        opt3: Some(set(&["OP3"])),
        opt4: Some(set(&["OP4"])),
    }
}

fn case(main_dis: &str, main_opt: &str, other_dis: &[&str], other_opt: &[&str]) -> DrgCase {
    DrgCase::build(
        "7".to_string(),
        main_dis.to_string(),
        main_opt.to_string(),
        strings(other_dis),
        strings(other_opt),
        Sex::Female,
        400,
        3000,
    )
}

#[test]
fn principal_procedure_membership() {
    let e = entry(GroupingMode::CommonOpt);
    assert!(is_common_surgery_adrg(&case("X", "OP0", &[], &[]), &e));
    assert!(!is_common_surgery_adrg(&case("X", "OP1", &[], &["OP0"]), &e));
    assert!(!is_common_surgery_adrg(&case("X", "", &[], &["OP0"]), &e));
}

#[test]
fn principal_diagnosis_membership() {
    let e = entry(GroupingMode::CommonDis);
    assert!(is_common_diagnosis_adrg(&case("D1", "", &[], &[]), &e));
    assert!(!is_common_diagnosis_adrg(&case("D2", "", &["D1"], &[]), &e));
}

#[test]
fn dual_procedure_sets() {
    let e = entry(GroupingMode::BothOpt);
    assert!(is_both_opt_adrg(&case("X", "OP1", &[], &["OP2"]), &e));
    assert!(!is_both_opt_adrg(&case("X", "OP1", &[], &["OP3"]), &e));
    assert!(!is_both_opt_adrg(&case("X", "OP1", &[], &[]), &e));
}

#[test]
fn diagnosis_and_procedure() {
    let e = entry(GroupingMode::DisAndOpt);
    assert!(is_both_mdis_and_mopt_adrg(&case("D1", "OP0", &[], &[]), &e));
    assert!(!is_both_mdis_and_mopt_adrg(&case("D1", "OP1", &[], &["OP0"]), &e));
    assert!(!is_both_mdis_and_mopt_adrg(&case("D2", "OP0", &[], &[]), &e));
}

#[test]
fn diagnosis_and_any_procedure() {
    let e = entry(GroupingMode::MainDisAndAnyOpt);
    assert!(is_both_mdis_opt_adrg(&case("D1", "OP2", &[], &["OP1"]), &e));
    assert!(!is_both_mdis_opt_adrg(&case("D1", "OP2", &[], &[]), &e));
    assert!(!is_both_mdis_opt_adrg(&case("D2", "OP2", &[], &["OP1"]), &e));
}

#[test]
fn diagnosis_and_multi_procedure_variant_a() {
    let e = entry(GroupingMode::MainDisAndMultiOpt);
    assert!(is_mdis_and_multi_surgery_adrg_one(&case("D1", "OP1", &[], &["OP2"]), &e));
    assert!(is_mdis_and_multi_surgery_adrg_one(&case("D1", "OP1", &[], &["OP3", "OP4"]), &e));
    assert!(!is_mdis_and_multi_surgery_adrg_one(&case("D1", "OP1", &[], &["OP3"]), &e));
    assert!(!is_mdis_and_multi_surgery_adrg_one(&case("D1", "OP1", &[], &[]), &e));
}

#[test]
fn diagnosis_and_multi_procedure_variant_b() {
    let e = entry(GroupingMode::MainDisAndMultiOpt2);
    assert!(is_mdis_and_multi_surgery_adrg_two(&case("D1", "OP1", &[], &[]), &e));
    assert!(is_mdis_and_multi_surgery_adrg_two(&case("D1", "", &[], &[]), &e));
    assert!(!is_mdis_and_multi_surgery_adrg_two(&case("D1", "OP2", &[], &[]), &e));
    assert!(!is_mdis_and_multi_surgery_adrg_two(&case("D2", "OP1", &[], &[]), &e));
}

#[test]
fn any_diagnosis_with_weight_band() {
    let mut e = entry(GroupingMode::AnyDis);
    e.code = "PS1".to_string();
    let mut c = case("X", "", &["D1"], &[]);
    c.weight = 900;
    assert_eq!(is_dis_adrg(&c, &e), Some("PS1".to_string()));
    assert_eq!(is_dis_adrg(&case("X", "", &[], &[]), &e), None);
    c.weight = 1500;
    assert_eq!(is_dis_adrg(&c, &e), Some("PS4".to_string()));
    assert_eq!(weight_band(&"GG1".to_string(), 900), "PS4");
    assert_eq!(weight_band(&"PS2".to_string(), 1700), "PS2");
    assert_eq!(weight_band(&"PS2".to_string(), 1999), "PS4");
    assert_eq!(weight_band(&"PS3".to_string(), 1999), "PS3");
    assert_eq!(weight_band(&"PS3".to_string(), 2499), "PS4");
    assert_eq!(weight_band(&"PS4".to_string(), 100), "PS4");
}

#[test]
fn global_procedure_strategies() {
    let all = set(&["OP9"]);
    assert!(is_all_surgery(&case("X", "OP0", &[], &["OP9"]), &all));
    assert!(!is_all_surgery(&case("X", "", &[], &["OP9"]), &all));
    assert!(is_without_surgery(&case("X", "", &[], &["OP9"]), &all));
    assert!(is_without_surgery(&case("X", "OP0", &[], &[]), &all));
    assert!(!is_without_surgery(&case("X", "OP9", &[], &[]), &all));
}

fn tables_with(entries: Vec<GroupEntry>) -> ReferenceTables {
    ReferenceTables {
        category_dis: Vec::new(),
        category_groups: Vec::new(),
        regions: Vec::new(),
        groups: entries,
        all_opt: set(&["OP9"]),
        comorbidities: Vec::new(),
        exclusions: Vec::new(),
    }
}

#[test]
fn named_procedure_set_of_wb1() {
    let mut wb1 = entry(GroupingMode::CommonOpt);
    wb1.code = "WB1".to_string();
    wb1.opt = Some(set(&["86.2200"]));
    let t = tables_with(vec![wb1]);
    assert!(is_without_wb1_surgery(&case("X", "OP0", &[], &["86.2200"]), &t));
    assert!(!is_without_wb1_surgery(&case("X", "", &[], &["86.2200"]), &t));
    assert!(!is_without_wb1_surgery(&case("X", "OP0", &[], &[]), &t));
}

#[test]
fn dispatch_by_mode_and_unknown_group() {
    let t = tables_with(vec![entry(GroupingMode::CommonDis)]);
    let name = "GG1".to_string();
    assert_eq!(process_adrg(&case("D1", "", &[], &[]), &t, &name), Some("GG1".to_string()));
    assert_eq!(process_adrg(&case("D2", "", &[], &[]), &t, &name), None);
    assert_eq!(process_adrg(&case("D1", "", &[], &[]), &t, &"ZZ9".to_string()), None);
}
