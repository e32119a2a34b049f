use mastertech::scripts::panels::{
    about_text, category_toggle, criteria_rows, definition_rows, outcome_rows, picked_label, reboot_answer, source_label,
    toggle_source, transfer_ready, RebootAnswer,
};
use mastertech::scripts::{RebootHint, Requirement};
use mastertech::scripts::queue::{
    abandoned_message, apply_mcp_request, context_service_number, mcp_run_report, overrun_message, queue_complete_message,
    queue_look, queue_scripts, queued_message, run_queue_check, selection_queued_message, stop_requested_message,
    stop_target, stopped_message, McpPoll, QueueLook,
};
use mastertech::scripts::{ScriptForm, ScriptStatus};

#[test]
fn scripts_already_waiting_are_not_queued_twice() {
    let mut queue = vec![
        ("Run Tron".to_string(), ScriptStatus::Pending, true),
        ("Check Updates".to_string(), ScriptStatus::Completed, false),
    ];
    let added = queue_scripts(
        &mut queue,
        &vec!["Run Tron".to_string(), "Check Updates".to_string(), "Winzip".to_string(), "Winzip".to_string()],
    );
    assert_eq!(added, vec!["Check Updates".to_string(), "Winzip".to_string()]);
    assert_eq!(queue.len(), 4);
    assert_eq!(queue[0], ("Run Tron".to_string(), ScriptStatus::Pending, true));
    assert_eq!(queue[2], ("Check Updates".to_string(), ScriptStatus::Pending, false));
    assert_eq!(queue[3], ("Winzip".to_string(), ScriptStatus::Pending, false));
    assert_eq!(queued_message("MCP", 2), "MCP: queued 2 scripts");
    assert_eq!(selection_queued_message(0), Err("No scripts selected"));
    assert_eq!(selection_queued_message(3), Ok("Added 3 scripts to queue".to_string()));
}

#[test]
fn the_queue_starts_only_when_nothing_is_stopping() {
    assert_eq!(run_queue_check(Some("Run Tron"), 3), Err("Run Tron is still stopping; wait for it to finish".to_string()));
    assert_eq!(run_queue_check(None, 0), Err("Queue is empty".to_string()));
    assert_eq!(run_queue_check(None, 3), Ok("Starting execution of 3 scripts".to_string()));
}

#[test]
fn what_the_queue_looks_at() {
    assert_eq!(queue_look(true, false, true), QueueLook::SettleStopped);
    assert_eq!(queue_look(false, false, false), QueueLook::Idle);
    assert_eq!(queue_look(false, true, true), QueueLook::Idle);
    assert_eq!(queue_look(false, true, false), QueueLook::AwaitOutcome);
    assert_eq!(stop_target(true, Some((7, "Run Tron".to_string()))), Some((7, "Run Tron".to_string())));
    assert_eq!(stop_target(false, Some((7, "Run Tron".to_string()))), None);
    assert_eq!(stop_target(true, None), None);
}

#[test]
fn queue_log_lines() {
    assert_eq!(stop_requested_message("X"), "Stop requested; waiting for X to finish");
    assert_eq!(abandoned_message("X"), "Stopped waiting for X; it may still be running");
    assert_eq!(stopped_message("X"), "Stopped; X finished");
    assert_eq!(overrun_message(3600), "No completion after 3600s; cancelling");
    assert_eq!(queue_complete_message(2, 3), "Queue complete (2/3 finished)");
    assert_eq!(context_service_number(""), None);
    assert_eq!(context_service_number("77"), Some("77".to_string()));
}

#[test]
fn an_mcp_request_fills_the_form() {
    let mut form = ScriptForm {
        service_number_input: "1".to_string(),
        seeded_service_number: "1".to_string(),
        customer_email: None,
    };
    assert_eq!(apply_mcp_request(&mut form, Some("2"), Some(""), Some("  ")), None);
    assert_eq!(form.service_number_input, "2");
    assert_eq!(form.customer_email, None);
    assert_eq!(apply_mcp_request(&mut form, Some(""), Some("a@b"), Some("sess-1")), Some("sess-1".to_string()));
    assert_eq!(form.service_number_input, "2");
    assert_eq!(form.customer_email.as_deref(), Some("a@b"));
    assert_eq!(form.seeded_service_number, "1");
}

#[test]
fn mcp_runs_are_reported_once_they_end_or_overrun() {
    assert_eq!(
        mcp_run_report(McpPoll::Reported { success: true, message: "ok".to_string() }, "S", 0, 60),
        Some((true, "ok".to_string()))
    );
    assert_eq!(mcp_run_report(McpPoll::Waiting, "S", 60_000_000_000, 60), None);
    assert_eq!(
        mcp_run_report(McpPoll::Waiting, "S", 60_000_000_001, 60),
        Some((false, "Script 'S' did not finish within 60s. It may still be running on the host.".to_string()))
    );
    assert_eq!(mcp_run_report(McpPoll::Gone, "S", 0, 60), Some((false, "Script 'S' stopped without reporting".to_string())));
}

fn rows(items: &[(&str, &str)]) -> Vec<(String, String)> {
    items.iter().map(|(a, b)| (a.to_string(), b.to_string())).collect()
}

#[test]
fn the_details_card_rows() {
    assert_eq!(
        definition_rows("Tuneup", 600, true, &vec![Requirement::Internet, Requirement::ServiceNumber], RebootHint::Maybe, 3),
        rows(&[
            ("Category", "Tuneup"),
            ("Time limit", "up to 10 min"),
            ("Elevation", "Administrator"),
            ("Needs", "Internet, Service number"),
            ("Reboot", "Sometimes"),
            ("Runs", "3 scripts in order"),
        ])
    );
    assert_eq!(
        definition_rows("Info", 30, false, &Vec::new(), RebootHint::Never, 0),
        rows(&[("Category", "Info"), ("Time limit", "up to 30 s"), ("Elevation", "Not required")])
    );
    assert_eq!(about_text("  ", "short"), Some("short".to_string()));
    assert_eq!(about_text("long", "short"), Some("long".to_string()));
    assert_eq!(about_text("", " "), None);
    assert_eq!(criteria_rows(Some("all good"), None, Some("bad")), rows(&[("PASS", "all good"), ("FAIL", "bad")]));
    assert_eq!(
        outcome_rows(Some(-2), Some("r1"), true),
        rows(&[("Exit code", "-2"), ("Run id", "r1"), ("Reboot", "Recommended")])
    );
    assert_eq!(outcome_rows(Some(i32::MIN), None, false), rows(&[("Exit code", "-2147483648")]));
    assert!(outcome_rows(None, None, false).is_empty());
}

#[test]
fn category_cards_and_the_transfer_picker() {
    assert_eq!(category_toggle(2), ("None", false));
    assert_eq!(category_toggle(0), ("All", true));
    assert_eq!(picked_label(2, 9), "2/9");
    assert_eq!(source_label("C:\\Users\\bob", "1.00 GB"), "C:\\Users\\bob (1.00 GB)");
    let mut picked = vec!["a".to_string(), "b".to_string()];
    toggle_source(&mut picked, "c", true);
    assert_eq!(picked, vec!["a", "b", "c"]);
    toggle_source(&mut picked, "a", false);
    assert_eq!(picked, vec!["b", "c"]);
    assert!(transfer_ready(1, Some("E:\\")));
    assert!(!transfer_ready(0, Some("E:\\")));
    assert!(!transfer_ready(1, None));
    assert_eq!(reboot_answer(true, true, true), RebootAnswer::RebootNow);
    assert_eq!(reboot_answer(false, false, true), RebootAnswer::Close);
    assert_eq!(reboot_answer(false, false, false), RebootAnswer::Keep);
}
