use mastertech::process_table::{Codec, ProcessRowViewer, ProcessTableData};
use mastertech::text::TextOrder;
use mastertech::tur::assist::{
    arm_assist_prompt, category_tone, checkin_line, first_chars, offer_key, offer_poll_due, poll_due, prompt_title,
    snapshot_entries, stage, CategoryTone, OrderDevice, Snapshot, StageKind,
};
use mastertech::tur::submit::{
    cancelled_toast, countdown_step, creation_toast, record_source, records_history, state_after_check,
    state_after_countdown, state_after_resolution, submit_tur_mastertech, task_assignee, task_id_to_write, task_name, CountdownInput,
    CountdownStep, MergeResolution, RecordSource, TaskCreation, ToastKind, TurSubmitState,
};
use mastertech::tur::{
    can_pull_order, can_submit, enter_pulls_order, licence_company, missing_fields, order_lookup,
    pair_license_keys, OrderLookup, TicketForm,
};

fn licence(kind: &str, key: &str) -> (String, String) {
    (kind.to_string(), key.to_string())
}

#[test]
fn licence_keys_are_paired_slot_by_slot() {
    let pairs = pair_license_keys(&vec![
        licence("SAS", "s1"),
        licence("WRAV", "w1"),
        licence("OTHER", "x"),
        licence("SAS", "s2"),
    ]);
    assert_eq!(pairs.len(), 2);
    assert_eq!((pairs[0].superanti_key.as_str(), pairs[0].webroot_key.as_str()), ("s1", "w1"));
    assert_eq!((pairs[1].superanti_key.as_str(), pairs[1].webroot_key.as_str()), ("s2", ""));
    assert!(pair_license_keys(&vec![licence("OTHER", "x")]).is_empty());
}

#[test]
fn the_licence_server_follows_the_order_number() {
    assert_eq!(licence_company("12345678"), "pcl");
    assert_eq!(licence_company("1234567"), "prestashop");
}

fn sheet() -> TicketForm {
    TicketForm {
        service_number: "1234567".to_string(),
        customer_name: "Ann".to_string(),
        phone_number: "555".to_string(),
        salesman: "Bob".to_string(),
        tech: "Cy".to_string(),
        send_specs: true,
        cpu: "i7".to_string(),
        ram: String::new(),
        recommendations: String::new(),
    }
}

#[test]
fn a_sheet_is_submitted_only_when_complete() {
    let f = sheet();
    assert!(can_submit(&f, true));
    assert!(!can_submit(&f, false));
    let mut g = sheet();
    g.send_specs = false;
    assert!(!can_submit(&g, true));
    g.ram = "16GB".to_string();
    assert!(can_submit(&g, false));
    let mut h = sheet();
    h.tech = String::new();
    assert!(!can_submit(&h, true));
    assert_eq!(missing_fields(&f), [false, false, false, false, false, false, true]);
}

#[test]
fn orders_are_pulled_by_service_number_or_phone() {
    let mut f = sheet();
    assert!(can_pull_order(&f));
    f.service_number = String::new();
    assert!(can_pull_order(&f));
    f.phone_number = String::new();
    assert!(!can_pull_order(&f));
    assert!(enter_pulls_order("1234567"));
    assert!(!enter_pulls_order("123456"));
    assert!(matches!(order_lookup("  77 ", "555"), Ok(OrderLookup::ServiceNumber(s)) if s == "77"));
    assert!(matches!(order_lookup(" ", " 555 "), Ok(OrderLookup::Phone(p)) if p == "555"));
    assert!(matches!(order_lookup("", ""), Err("Enter a service number or a phone number first")));
}

#[test]
fn the_run_stage_reads_from_the_snapshot() {
    let mut s = Snapshot::default();
    assert_eq!(stage(&s), ("Requesting\u{2026}", StageKind::Live));
    s.request_status = Some("failed".to_string());
    assert_eq!(stage(&s), ("Could not reach the agent", StageKind::Bad));
    s.request_status = Some("pending".to_string());
    assert_eq!(stage(&s), ("Queued", StageKind::Live));
    s.session_status = Some("active".to_string());
    assert_eq!(stage(&s), ("Agent working on this machine", StageKind::Live));
    s.session_status = Some("escalated".to_string());
    assert_eq!(stage(&s), ("Diagnostic closed", StageKind::Done));
    s.diagnosed = true;
    assert_eq!(stage(&s), ("Root cause identified", StageKind::Done));
}

#[test]
fn assist_helpers() {
    assert_eq!(category_tone("security_alert"), CategoryTone::Error);
    assert_eq!(category_tone("finding"), CategoryTone::Info);
    assert_eq!(category_tone("action"), CategoryTone::Success);
    assert_eq!(category_tone("note"), CategoryTone::Weak);
    assert!(poll_due(None, 3000));
    assert!(poll_due(Some(3000), 3000));
    assert!(!poll_due(Some(2999), 3000));
    assert_eq!(first_chars("héllo", 2), "hé");
    assert_eq!(first_chars("hi", 5), "hi");
    assert_eq!(checkin_line("no power"), "Checked in for: no power");
    assert_eq!(checkin_line(&"x".repeat(130)), format!("Checked in for: {}", "x".repeat(120)));
    assert_eq!(offer_key("assist_offer:`abc`"), "abc");
    assert_eq!(offer_key("assist_offer:assist_offer:k1"), "k1");
    assert_eq!(offer_key("plain"), "plain");
    assert!(offer_poll_due(false, true, None));
    assert!(!offer_poll_due(true, true, None));
    assert!(!offer_poll_due(false, false, None));
    assert!(!offer_poll_due(false, true, Some(19)));
    assert!(offer_poll_due(false, true, Some(20)));
}

#[test]
fn log_rows_without_title_are_left_out() {
    let rows = vec![
        (Some("finding".to_string()), Some("disk".to_string())),
        (None, Some("hello".to_string())),
        (Some("action".to_string()), None),
    ];
    assert_eq!(
        snapshot_entries(&rows),
        vec![("finding".to_string(), "disk".to_string()), ("note".to_string(), "hello".to_string())]
    );
}

#[test]
fn the_assist_prompt_is_armed_from_a_pull() {
    assert!(arm_assist_prompt("  ".to_string(), "Ann".to_string(), None).is_none());
    let d = OrderDevice {
        device_mfg: " Dell".to_string(),
        device_model: "XPS ".to_string(),
        device_serial: "SN1".to_string(),
        check_in_notes: "fan".to_string(),
    };
    let p = arm_assist_prompt("77".to_string(), "Ann".to_string(), Some(&d)).unwrap();
    assert_eq!(p.order_device, "Dell XPS");
    assert_eq!(p.order_serial, "SN1");
    assert_eq!(p.checkin_notes, "fan");
    assert!(p.offer_id.is_none());
    assert_eq!(prompt_title(&p), "Is service #77 for THIS computer?");
    let mut q = p;
    q.offer_id = Some("o".to_string());
    assert_eq!(prompt_title(&q), "Found service #77 for this computer - want AI help?");
    let bare = arm_assist_prompt("78".to_string(), "Bo".to_string(), None).unwrap();
    assert_eq!(bare.order_device, "");
}

#[test]
fn a_submission_runs_its_countdown() {
    let mut st = TurSubmitState::Idle;
    let mut pending = None;
    assert!(submit_tur_mastertech(&mut st, &mut pending, "Ann", "77", "user-1", Some("cy"), 1000));
    assert_eq!(st, TurSubmitState::AwaitingConfirmation);
    let p = pending.as_ref().unwrap();
    assert_eq!(p.task_name, "Ann - 77");
    assert_eq!(p.service_number.as_deref(), Some("77"));
    assert_eq!(p.assignee, "cy");
    assert!(!p.duplicate_checked);
    assert_eq!(p.confirmation_start_ms, Some(1000));
    assert!(!submit_tur_mastertech(&mut st, &mut pending, "Bo", "78", "bob", None, 2000));
    assert_eq!(pending.as_ref().unwrap().task_name, "Ann - 77");
    assert_eq!(countdown_step(st, true, Some(100), CountdownInput::Nothing), CountdownStep::Wait);
    assert_eq!(countdown_step(st, true, Some(100), CountdownInput::Undo), CountdownStep::Cancel);
    assert_eq!(countdown_step(st, true, Some(100), CountdownInput::SubmitNow), CountdownStep::CheckDuplicates);
    assert_eq!(countdown_step(st, true, Some(5000), CountdownInput::Nothing), CountdownStep::CheckDuplicates);
    assert_eq!(countdown_step(st, false, Some(100), CountdownInput::Nothing), CountdownStep::Reset);
    assert_eq!(countdown_step(TurSubmitState::Idle, true, None, CountdownInput::Undo), CountdownStep::Wait);
    assert_eq!(state_after_countdown(st, CountdownStep::CheckDuplicates), TurSubmitState::CheckingDuplicates);
    assert_eq!(state_after_countdown(st, CountdownStep::Cancel), TurSubmitState::Idle);
    assert_eq!(state_after_countdown(st, CountdownStep::Wait), st);
    assert_eq!(state_after_check(true, false), TurSubmitState::AwaitingResolution);
    assert_eq!(state_after_check(true, true), TurSubmitState::Idle);
    assert_eq!(state_after_resolution(false, false), TurSubmitState::AwaitingResolution);
    assert_eq!(state_after_resolution(true, false), TurSubmitState::Idle);
}

#[test]
fn records_are_written_as_chosen() {
    assert_eq!(record_source(false, MergeResolution::KeepExisting), RecordSource::New);
    assert_eq!(record_source(true, MergeResolution::KeepExisting), RecordSource::Existing);
    assert_eq!(record_source(true, MergeResolution::Merge), RecordSource::Merged);
    assert_eq!(record_source(true, MergeResolution::Cancel), RecordSource::New);
    assert!(records_history(true, Some(MergeResolution::UseNew), 2));
    assert!(!records_history(true, Some(MergeResolution::KeepExisting), 2));
    assert!(!records_history(true, Some(MergeResolution::Merge), 0));
    assert!(!records_history(false, Some(MergeResolution::Merge), 2));
    assert_eq!(task_name("Ann", "77"), "Ann - 77");
    assert_eq!(task_assignee("user-1", Some("cy")), "cy");
    assert_eq!(task_assignee("user-1", None), "user-1");
    assert_eq!(task_assignee("bob", Some("cy")), "bob");
    assert_eq!(task_id_to_write("task:new", Some("task:old")), "task:old");
    assert_eq!(task_id_to_write("task:new", None), "task:new");
    assert_eq!(
        creation_toast(&TaskCreation::Created("77".to_string())),
        (ToastKind::Success, "Task created for service #77".to_string())
    );
    assert_eq!(
        creation_toast(&TaskCreation::Error("db".to_string())),
        (ToastKind::Error, "Error creating task: db".to_string())
    );
    assert_eq!(cancelled_toast().0, ToastKind::Info);
}

fn process_row(order: &str, customer: &str, date: &str) -> ProcessTableData {
    ProcessTableData(
        order.to_string(),
        customer.to_string(),
        date.to_string(),
        "open".to_string(),
        "Rep".to_string(),
        "Split".to_string(),
        "no".to_string(),
    )
}

#[test]
fn the_orders_table_filters_sorts_and_copies() {
    let mut v = ProcessRowViewer::default();
    let row = process_row("SO-1", "Ann Smith", "2024-01-02 03:04:05");
    v.filter = "smith".to_string();
    assert!(v.filter_row(&row));
    v.filter = "Smith".to_string();
    assert!(!v.filter_row(&row));
    v.filter = "SO-".to_string();
    assert!(v.filter_row(&row));
    assert_eq!(v.num_columns(), 7);
    assert_eq!(v.column_name(6), "Needs Call");
    assert_eq!(v.hotkeys_label(), " Show Hotkeys ");
    let other = process_row("SO-2", "Bob", "x");
    assert_eq!(v.compare_cell(&row, &other, 0), TextOrder::Less);
    assert_eq!(v.compare_cell(&row, &other, 8), TextOrder::Less);
    let mut codec = Codec;
    let mut s = String::new();
    assert!(codec.try_encode_column(&row, 2, &mut s));
    assert_eq!(s, "01/02/2024");
    let mut t = String::new();
    assert!(!codec.try_encode_column(&other, 2, &mut t));
    assert_eq!(t, "");
    let mut dst = codec.create_empty_decoded_row();
    assert!(codec.decode_column("Zed", 1, &mut dst));
    assert_eq!(dst.1, "Zed");
    let mut copy = ProcessTableData::default();
    v.set_cell_value(&row, &mut copy, 0);
    assert_eq!(copy.0, "SO-1");
    assert_eq!(copy.1, "");
}
