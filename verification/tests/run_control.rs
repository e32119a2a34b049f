use mastertech::remote::replies::{removal_for, removal_reply, Removal};
use mastertech::scripts::queue::{
    abandon_stopped_run, cancel_data_transfer, drop_reported, mcp_completions, mcp_refused, must_cancel, stop_queue,
    McpCheck, McpPoll, RunControl,
};
use mastertech::tur::submit::{cancel_submission, proceed_with_submission, submit_tur_mastertech, TurSubmitState};
use mastertech::tur::assist::{answer_assist_prompt, arm_assist_prompt, AssistPromptAction, PromptAnswer};

fn control() -> RunControl {
    RunControl {
        running: true,
        run_started_ms: Some(10),
        stopping: None,
        picker_open: false,
        transfer_run: false,
        selected_sources: vec![],
        selected_destination: None,
        queue_running: true,
        current_script_name: Some("Disk Cleanup".to_string()),
    }
}

#[test]
fn stop_waits_for_the_running_entry() {
    let mut c = control();
    let e = stop_queue(&mut c, Some((7, "Disk Cleanup".to_string())));
    assert!(e.signal_worker);
    assert_eq!(e.log.as_deref(), Some("Stop requested; waiting for Disk Cleanup to finish"));
    assert_eq!(e.show_running, Some(7));
    assert_eq!(e.transfer_skipped, None);
    assert_eq!(c.stopping, Some((7, "Disk Cleanup".to_string())));
    assert!(c.running);
    assert!(!c.queue_running);
    assert_eq!(c.current_script_name, None);
}

#[test]
fn stop_with_nothing_running_forgets_the_run() {
    let mut c = control();
    c.running = false;
    let e = stop_queue(&mut c, None);
    assert!(!e.signal_worker);
    assert_eq!(e.log, None);
    assert_eq!(e.show_running, None);
    assert!(!c.running);
    assert_eq!(c.run_started_ms, None);
    assert!(!c.queue_running);
}

#[test]
fn stop_closes_the_transfer_picker() {
    let mut c = control();
    c.picker_open = true;
    c.transfer_run = true;
    c.selected_sources = vec!["C:\\Users\\bo".to_string()];
    c.selected_destination = Some("E:\\".to_string());
    let e = stop_queue(&mut c, Some((3, "Data Transfer".to_string())));
    assert_eq!(e.transfer_skipped.as_deref(), Some("Data transfer cancelled"));
    assert!(!c.picker_open);
    assert!(!c.transfer_run);
    assert!(c.selected_sources.is_empty());
    assert_eq!(c.selected_destination, None);
}

#[test]
fn cancelling_the_picker_without_a_run_skips_nothing() {
    let mut c = control();
    c.picker_open = true;
    c.selected_sources = vec!["C:\\Users\\bo".to_string()];
    assert_eq!(cancel_data_transfer(&mut c), None);
    assert!(!c.picker_open);
    assert!(c.selected_sources.is_empty());
    assert!(c.running);
}

#[test]
fn giving_up_on_a_stopped_run_marks_it_failed() {
    let mut c = control();
    assert_eq!(abandon_stopped_run(&mut c), None);
    assert!(c.running);
    c.stopping = Some((9, "Tron".to_string()));
    c.transfer_run = true;
    let r = abandon_stopped_run(&mut c).unwrap();
    assert_eq!(r.0, 9);
    assert_eq!(r.1, "Stopped waiting for Tron; it may still be running");
    assert_eq!(c.stopping, None);
    assert!(!c.running);
    assert_eq!(c.run_started_ms, None);
    assert!(!c.transfer_run);
}

#[test]
fn mcp_runs_are_reported_when_they_end_or_overrun() {
    let checks = vec![
        McpCheck { name: "A".to_string(), poll: McpPoll::Waiting, elapsed_nanos: 1, timeout_secs: 60 },
        McpCheck {
            name: "B".to_string(),
            poll: McpPoll::Reported { success: true, message: "done".to_string() },
            elapsed_nanos: 1,
            timeout_secs: 60,
        },
        McpCheck { name: "C".to_string(), poll: McpPoll::Waiting, elapsed_nanos: 2_000_000_000, timeout_secs: 1 },
        McpCheck { name: "D".to_string(), poll: McpPoll::Gone, elapsed_nanos: 0, timeout_secs: 1 },
    ];
    let r = mcp_completions(&checks);
    assert_eq!(r.len(), 3);
    assert_eq!(r[0], (1, true, "done".to_string()));
    assert_eq!(r[1], (2, false, "Script 'C' did not finish within 1s. It may still be running on the host.".to_string()));
    assert_eq!(r[2], (3, false, "Script 'D' stopped without reporting".to_string()));
}

#[test]
fn answering_the_assist_prompt() {
    let mut p = arm_assist_prompt("77".to_string(), "Ann".to_string(), None);
    assert!(matches!(answer_assist_prompt(&mut p, Some("t@x.com"), PromptAnswer::Nothing), AssistPromptAction::Nothing));
    assert!(p.is_some());
    match answer_assist_prompt(&mut p, Some("t@x.com"), PromptAnswer::Confirm) {
        AssistPromptAction::Accepted { offer_id, by, service_number } => {
            assert_eq!(offer_id, None);
            assert_eq!(by, "t@x.com");
            assert_eq!(service_number, "77");
        },
        _ => panic!("accepted"),
    }
    assert!(p.is_none());
    let mut q = arm_assist_prompt("78".to_string(), "Bo".to_string(), None);
    match answer_assist_prompt(&mut q, Some("t@x.com"), PromptAnswer::Dismiss) {
        AssistPromptAction::Declined { by, .. } => assert_eq!(by, "t@x.com"),
        _ => panic!("declined"),
    }
    assert!(q.is_none());
    let mut r = arm_assist_prompt("79".to_string(), "Cy".to_string(), None);
    assert!(matches!(answer_assist_prompt(&mut r, None, PromptAnswer::Confirm), AssistPromptAction::Nothing));
    assert!(r.is_none());
}

#[test]
fn a_deleted_path_is_removed_by_the_consoles_test() {
    assert_eq!(removal_for(true), Removal::File);
    assert_eq!(removal_for(false), Removal::DirectoryTree);
    assert_eq!(removal_reply(Removal::DirectoryTree, None), "Removed Directory");
    assert_eq!(removal_reply(Removal::File, None), "Removed Path");
    assert_eq!(removal_reply(Removal::File, Some("NotFound")), "Error removing path: NotFound");
}

#[test]
fn reported_runs_leave_the_waiting_list() {
    let checks = vec![
        McpCheck { name: "A".to_string(), poll: McpPoll::Waiting, elapsed_nanos: 1, timeout_secs: 60 },
        McpCheck { name: "B".to_string(), poll: McpPoll::Gone, elapsed_nanos: 1, timeout_secs: 60 },
        McpCheck { name: "C".to_string(), poll: McpPoll::Waiting, elapsed_nanos: 2_000_000_000, timeout_secs: 1 },
        McpCheck { name: "D".to_string(), poll: McpPoll::Waiting, elapsed_nanos: 5, timeout_secs: 1 },
    ];
    assert!(!must_cancel(&checks[0]));
    assert!(!must_cancel(&checks[1]));
    assert!(must_cancel(&checks[2]));
    let reported = mcp_completions(&checks);
    let mut runs = vec!["A", "B", "C", "D"];
    drop_reported(&mut runs, &reported);
    assert_eq!(runs, vec!["A", "D"]);
}

#[test]
fn a_refused_mcp_request_gets_one_failure() {
    let r = mcp_refused("req-1".to_string(), "Unsupported category: StressTests".to_string());
    assert_eq!(r.request_id, "req-1");
    assert!(!r.success);
    assert_eq!(r.message, "Unsupported category: StressTests");
    assert!(r.logs.is_empty());
}

#[test]
fn a_sent_submission_leaves_the_sheet_idle() {
    let mut st = TurSubmitState::Idle;
    let mut pending = None;
    assert!(submit_tur_mastertech(&mut st, &mut pending, "Ann", "77", "bob", None, 5));
    st = TurSubmitState::Submitting;
    let w = proceed_with_submission(&mut st, &mut pending, "task:new", Some("task:old")).unwrap();
    assert_eq!(w.id, "task:old");
    assert_eq!(w.task.task_name, "Ann - 77");
    assert_eq!(st, TurSubmitState::Idle);
    assert!(pending.is_none());
    assert!(proceed_with_submission(&mut st, &mut pending, "task:new", None).is_none());
    assert_eq!(st, TurSubmitState::Idle);
    assert!(submit_tur_mastertech(&mut st, &mut pending, "Bo", "78", "bob", None, 6));
    cancel_submission(&mut st, &mut pending);
    assert_eq!(st, TurSubmitState::Idle);
    assert!(pending.is_none());
}
