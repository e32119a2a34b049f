use mastertech::process_table::row_matches_lowered;
use mastertech::remote::console::expand_var;
use mastertech::remote::replies::{kind_of_extension, ScriptKind};
use mastertech::scripts::{candidate_in_lower_case, terms_found};
use mastertech::shopify::order_matches_lowered;

#[test]
fn search_terms_are_looked_for_in_the_lowered_text() {
    let hay = "disable bitlocker detect and disable bitlocker encryption";
    assert!(terms_found(hay, &vec![]));
    assert!(terms_found(hay, &vec!["bitlocker".to_string(), "encryption".to_string()]));
    assert!(!terms_found(hay, &vec!["bitlocker".to_string(), "webroot".to_string()]));
    assert!(!terms_found(hay, &vec!["BitLocker".to_string()]));
}

#[test]
fn profile_folders_in_lower_case_are_judged_as_given() {
    assert!(candidate_in_lower_case("alice"));
    assert!(!candidate_in_lower_case("default"));
    assert!(!candidate_in_lower_case("default.migrated"));
    assert!(!candidate_in_lower_case("all users"));
    assert!(!candidate_in_lower_case("public"));
    assert!(candidate_in_lower_case("publicity"));
}

#[test]
fn an_order_filter_matches_any_of_four_cells() {
    assert!(order_matches_lowered("", "#1", "paid", "ann", "pc"));
    assert!(order_matches_lowered("ann", "#1", "paid", "joanne", "pc"));
    assert!(order_matches_lowered("gam", "#1", "paid", "bo", "gaming rig"));
    assert!(!order_matches_lowered("zzz", "#1", "paid", "bo", "pc"));
}

#[test]
fn a_process_search_matches_any_of_four_cells() {
    assert!(row_matches_lowered("12", "A123", "bo", "cy", "dee"));
    assert!(row_matches_lowered("cy", "A1", "bo", "cy", "dee"));
    assert!(!row_matches_lowered("zz", "A1", "bo", "cy", "dee"));
}

#[test]
fn one_variable_expands_where_its_reference_is_found() {
    let path = "%USERPROFILE%\\Desktop";
    assert_eq!(expand_var(path, "USERPROFILE", "C:\\Users\\bo", "%userprofile%\\desktop", "%userprofile%"),
        "C:\\Users\\bo\\Desktop");
    assert_eq!(expand_var(path, "TEMP", "C:\\t", "%userprofile%\\desktop", "%temp%"), path);
}

#[test]
fn a_lowered_extension_picks_the_interpreter() {
    assert!(matches!(kind_of_extension("ps1".to_string()), ScriptKind::PowerShell));
    assert!(matches!(kind_of_extension("bat".to_string()), ScriptKind::Batch));
    assert!(matches!(kind_of_extension("cmd".to_string()), ScriptKind::Batch));
    match kind_of_extension("sh".to_string()) {
        ScriptKind::Unsupported(e) => assert_eq!(e, "sh"),
        _ => panic!("sh is not run"),
    }
}
