use mastertech::scripts::{format_budget, matches_terms, mcp_script, script_budget, settled_status, ScriptResult, ScriptStatus};

#[test]
fn budgets_read_in_the_largest_whole_unit() {
    assert_eq!(format_budget(600), "up to 10 min");
    assert_eq!(format_budget(3600), "up to 1 h");
    assert_eq!(format_budget(5400), "up to 90 min");
    assert_eq!(format_budget(45), "up to 45 s");
}

#[test]
fn a_budget_of_no_whole_minutes_reads_in_seconds() {
    assert_eq!(format_budget(90), "up to 90 s");
    assert_eq!(format_budget(7260), "up to 121 min");
    assert_eq!(format_budget(60), "up to 1 min");
}

#[test]
fn every_search_term_must_match() {
    let name = "Disable BitLocker";
    let description = "Detect and disable BitLocker encryption";
    assert!(matches_terms(name, description, &vec![]));
    assert!(matches_terms(name, description, &vec!["bitlocker".to_string()]));
    assert!(matches_terms(name, description, &vec!["disable".to_string(), "encryption".to_string()]));
    assert!(!matches_terms(name, description, &vec!["disable".to_string(), "webroot".to_string()]));
}

#[test]
fn an_unknown_name_is_refused() {
    let refusal = mcp_script("Definitely Not A Script", None).expect_err("refused");
    assert!(refusal.contains("not in the script catalog"));
}

#[test]
fn stress_scripts_are_refused() {
    assert_eq!(mcp_script("GPU Probe", Some(true)), Err("Unsupported category: StressTests".to_string()));
    assert!(mcp_script("CPU Stress", Some(true)).is_err());
}

#[test]
fn a_run_gets_its_own_budget() {
    // "Install Windows Updates" is in the catalog, not a stress test, with a budget of an hour.
    assert!(mcp_script("Install Windows Updates", Some(false)).is_ok());
    assert_eq!(script_budget(Some(3600)), 3600);
    assert!(mcp_script("Data Transfer", Some(false)).is_ok());
}

#[test]
fn a_stopped_run_settles_by_its_result() {
    assert_eq!(settled_status(Some(ScriptResult::Success)), ScriptStatus::Completed);
    assert_eq!(settled_status(Some(ScriptResult::Warning)), ScriptStatus::Completed);
    assert_eq!(settled_status(Some(ScriptResult::Skipped)), ScriptStatus::Skipped);
    assert_eq!(settled_status(Some(ScriptResult::Error)), ScriptStatus::Failed);
    assert_eq!(settled_status(None), ScriptStatus::Failed);
}
