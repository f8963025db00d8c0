use drg_group::category::Category;
use drg_group::normalize::{icd_transform, trim_quotes};
use drg_group::record::{DrgCase, Sex};

#[test]
fn derived_sets_collapse_duplicates() {
    let c = DrgCase::build(
        "9".to_string(),
        "A01.000".to_string(),
        "01.0100".to_string(),
        vec!["B02.000".to_string(), "A01.000".to_string(), "B02.000".to_string()],
        vec!["01.0100".to_string(), "02.0200".to_string()],
        Sex::Male,
        30,
        3100,
    );
    assert_eq!(c.all_dis, vec!["A01.000".to_string(), "B02.000".to_string()]);
    assert_eq!(c.all_opt, vec!["01.0100".to_string(), "02.0200".to_string()]);
}

#[test]
fn no_principal_procedure_leaves_procedures_empty() {
    let mut c = DrgCase::new(
        "9".to_string(),
        "A01.000".to_string(),
        String::new(),
        Vec::new(),
        vec!["02.0200".to_string()],
        Sex::Female,
        30,
        3100,
    );
    assert!(c.all_dis.is_empty());
    c.concat_dis();
    c.concat_opt();
    assert_eq!(c.all_dis, vec!["A01.000".to_string()]);
    assert!(c.all_opt.is_empty());
    assert!(c.no_surgery());
    assert!(!c.no_other_surgery());
    assert!(c.no_other_diagnosis());
}

#[test]
fn category_codes_and_pseudo_groups() {
    assert_eq!(Category::MdcA.code(), "MDCA");
    assert_eq!(Category::MdcZ.code(), "MDCZ");
    assert_eq!(Category::MdcE.pseudo_group(), Some("EQY".to_string()));
    assert_eq!(Category::MdcD.pseudo_group(), Some("SQY".to_string()));
    assert_eq!(Category::MdcT.pseudo_group(), None);
    assert_eq!(Category::from_index(Category::MdcK.index()), Some(Category::MdcK));
    assert_eq!(Category::from_index(26), None);
}

#[test]
fn codes_are_upper_cased_except_marker() {
    assert_eq!(icd_transform(&"j20.9x0".to_string()), "J20.9x0");
    assert_eq!(icd_transform(&"e87.102".to_string()), "E87.102");
    assert_eq!(icd_transform(&"j20.900".to_string()), "J20.900");
    assert_eq!(icd_transform(&"93.3500x004".to_string()), "93.3500x004");
    assert_eq!(icd_transform(&"e87.x02".to_string()), "E87.x02");
    assert_eq!(icd_transform(&"E87.X02".to_string()), "E87.X02");
    let once = icd_transform(&"s06.0x1a".to_string());
    assert_eq!(icd_transform(&once), once);
    assert_eq!(trim_quotes(&"\"93.3500x004\"".to_string()), "93.3500x004");
    assert_eq!(trim_quotes(&"\"\"".to_string()), "");
    assert_eq!(trim_quotes(&"a\"b".to_string()), "a\"b");
}
