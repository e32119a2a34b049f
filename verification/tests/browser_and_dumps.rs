use mastertech::dock::{load_on_tab_click, TabKind, TabLoad};
use mastertech::file_browser::{clipboard_action, drive_list, paste_toast, ClipboardAction};
use mastertech::minidump::memory::{bugcheck_rows, frame_text, hex_dump_text, parameter_rows};
use mastertech::minidump::modules::{base_text, loaded_modules, module_rows, size_text, DriverRow};
use mastertech::data_transfer::{
    profiles_found_message, robocopy_args, robocopy_log_name, robocopy_precheck, transfer_complete_message,
    transfer_start_message,
};
use mastertech::file_browser::{
    can_paste, can_rename, copied_toast, delete_prompt, is_drive_root, new_folder_name, read_folder, sort_listing,
    FileSelection, ListingEntry,
};
use mastertech::minidump::{
    click_sort_header, driver_listed, dump_name, known_bad_line, match_known_bad, merge_lookup_error,
    parse_register, raw_excerpt, rip_offset, signature_module, sightings_line, sort_arrow, uptime_text,
    verdict_fix_line, KernelIntelState, KnownBadDriver, MinidumpArgs, ModuleSort,
};
use mastertech::scripts::{
    export_log, focus_after_clear, focus_after_remove, get_data_transfer_candidates, is_transfer_candidate,
    next_queue_step, pending_log_lines, queue_row_controls, requirements_text, run_button_label, script_budget,
    seed_script_context, transfer_summary, LogLevel, LogLine, QueueStep, Requirement, RunPoll, ScriptFocus,
    ScriptForm, ScriptStatus, QUEUE_SCRIPT_TIMEOUT_SECS,
};

#[test]
fn folder_clicks_replace_or_extend_the_selection() {
    let mut s = FileSelection::new();
    s.click_folder("C:\\a", false);
    s.click_folder("C:\\b", true);
    assert_eq!(s.len(), 2);
    assert!(s.contains("C:\\a") && s.contains("C:\\b"));
    s.click_folder("C:\\c", false);
    assert_eq!(s.single(), Some("C:\\c".to_string()));
    s.click_folder("C:\\c", true);
    assert_eq!(s.len(), 1);
}

#[test]
fn file_clicks_toggle() {
    let mut s = FileSelection::new();
    s.click_file("f1", false);
    assert_eq!(s.single(), Some("f1".to_string()));
    s.click_file("f1", false);
    assert_eq!(s.len(), 0);
    s.click_file("f2", false);
    s.click_file("f2", true);
    assert_eq!(s.len(), 0);
    s.insert("x");
    s.insert("x");
    assert_eq!(s.len(), 1);
    s.remove("x");
    assert!(!s.contains("x"));
    s.insert("y");
    s.clear();
    assert_eq!(s.single(), None);
}

#[test]
fn browser_texts_and_checks() {
    assert!(can_rename("new.txt", Some("old.txt")));
    assert!(!can_rename("same", Some("same")));
    assert!(!can_rename("", Some("a")));
    assert!(!can_rename("a", None));
    assert_eq!(new_folder_name(""), "New folder");
    assert_eq!(new_folder_name("Docs"), "Docs");
    assert_eq!(copied_toast(1, "a.txt"), "Copied a.txt");
    assert_eq!(copied_toast(3, "a.txt"), "Copied 3 items");
    assert_eq!(delete_prompt(2), "Delete 2 item(s)? This cannot be undone.");
    assert!(can_paste(false));
    assert!(!can_paste(true));
    assert!(is_drive_root("C:\\"));
    assert!(!is_drive_root("c:\\"));
    assert!(!is_drive_root("C:\\x"));
}

fn entry(name: &str, is_dir: bool) -> ListingEntry {
    ListingEntry { path: format!("/p/{name}"), name: name.to_string(), is_dir, is_file: !is_dir }
}

#[test]
fn listings_put_folders_first_then_names() {
    let entries = vec![entry("b.txt", false), entry("zeta", true), entry("a.txt", false), entry("alpha", true)];
    assert_eq!(sort_listing(&entries), vec!["/p/alpha", "/p/zeta", "/p/a.txt", "/p/b.txt"]);
    assert!(sort_listing(&Vec::new()).is_empty());
}

#[test]
fn queue_rules() {
    assert_eq!(script_budget(Some(30)), 30);
    assert_eq!(script_budget(None), QUEUE_SCRIPT_TIMEOUT_SECS);
    assert_eq!(next_queue_step(RunPoll::Finished { failed: false }, Some(1), 10), QueueStep::Advance { failed: false });
    assert_eq!(next_queue_step(RunPoll::Waiting, Some(9), 10), QueueStep::Wait);
    assert_eq!(next_queue_step(RunPoll::Waiting, Some(10), 10), QueueStep::CancelAndAdvance);
    assert_eq!(next_queue_step(RunPoll::Waiting, None, 10), QueueStep::Wait);
    assert_eq!(next_queue_step(RunPoll::Gone, None, 10), QueueStep::Advance { failed: true });
    let c = queue_row_controls(false, 0, 3, ScriptStatus::Pending);
    assert!(!c.move_up && c.move_down && c.remove);
    let r = queue_row_controls(true, 1, 3, ScriptStatus::Running);
    assert!(!r.move_up && !r.move_down && !r.remove);
    assert_eq!(run_button_label(1), "Run 1 script");
    assert_eq!(run_button_label(4), "Run 4 scripts");
    assert_eq!(requirements_text(&vec![Requirement::Internet, Requirement::Gpu]), "Internet, GPU");
}

#[test]
fn the_details_card_closes_with_its_entry() {
    assert!(focus_after_remove(Some(ScriptFocus::Queued(3)), 3).is_none());
    assert!(matches!(focus_after_remove(Some(ScriptFocus::Queued(4)), 3), Some(ScriptFocus::Queued(4))));
    assert!(matches!(
        focus_after_remove(Some(ScriptFocus::Catalog("x".to_string())), 3),
        Some(ScriptFocus::Catalog(n)) if n == "x"
    ));
    assert!(focus_after_clear(Some(ScriptFocus::Queued(1))).is_none());
    assert!(focus_after_clear(None).is_none());
}

fn line(script: &str, level: LogLevel, message: &str) -> LogLine {
    LogLine { time: "10:00".to_string(), level, script: script.to_string(), message: message.to_string() }
}

#[test]
fn logs_for_a_run_and_for_the_clipboard() {
    let log = vec![
        line("Fix", LogLevel::Info, "start"),
        line("Other", LogLevel::Error, "boom"),
        line("MCP", LogLevel::Warning, "slow"),
    ];
    assert_eq!(
        pending_log_lines(&log, "Fix"),
        vec!["10:00 [INFO] start".to_string(), "10:00 [WARN] slow".to_string()]
    );
    assert_eq!(export_log(&log, Some(LogLevel::Error)), "10:00 [ERR] [Other] boom");
    assert_eq!(
        export_log(&log, None),
        "10:00 [INFO] [Fix] start\n10:00 [ERR] [Other] boom\n10:00 [WARN] [MCP] slow"
    );
    assert_eq!(export_log(&Vec::new(), None), "");
}

#[test]
fn the_ticket_seeds_the_script_form_once() {
    let mut form = ScriptForm {
        service_number_input: String::new(),
        seeded_service_number: String::new(),
        customer_email: None,
    };
    seed_script_context(&mut form, "77", "a@b.c");
    assert_eq!(form.service_number_input, "77");
    assert_eq!(form.customer_email.as_deref(), Some("a@b.c"));
    form.service_number_input = "78".to_string();
    seed_script_context(&mut form, "77", "");
    assert_eq!(form.service_number_input, "78");
    assert_eq!(form.customer_email.as_deref(), Some("a@b.c"));
    seed_script_context(&mut form, "90", "");
    assert_eq!(form.service_number_input, "90");
}

#[test]
fn profiles_offered_for_transfer() {
    assert!(is_transfer_candidate("bob"));
    assert!(!is_transfer_candidate("Default User"));
    assert!(!is_transfer_candidate("PUBLIC"));
    assert!(!is_transfer_candidate("All Users"));
    let profiles = vec![
        ("C:\\Users\\bob".to_string(), "bob".to_string(), "1.50 GB".to_string()),
        ("C:\\Users\\Public".to_string(), "Public".to_string(), "10.00 MB".to_string()),
        ("D:\\Users\\ann".to_string(), "ann".to_string(), "3.00 MB".to_string()),
    ];
    assert_eq!(
        get_data_transfer_candidates(&profiles),
        vec![
            ("C:\\Users\\bob".to_string(), "1.50 GB".to_string()),
            ("D:\\Users\\ann".to_string(), "3.00 MB".to_string()),
        ]
    );
    assert_eq!(transfer_summary(3, 0), (true, "Transferred 3 folder(s)".to_string()));
    assert_eq!(transfer_summary(3, 1), (false, "1 of 3 transfers failed".to_string()));
}

#[test]
fn robocopy_command_line() {
    let args = robocopy_args("C:\\Users\\bob", "E:\\bob", "E:\\log.txt", None);
    assert_eq!(args.len(), 2 + 10 + 4 + 16);
    assert_eq!(&args[0..3], &["C:\\Users\\bob", "E:\\bob", "*.*"]);
    assert!(args.contains(&"/LOG:E:\\log.txt".to_string()));
    assert!(args.contains(&"/MT:4".to_string()));
    assert_eq!(args.last().unwrap(), "My Videos");
    assert!(robocopy_args("a", "b", "c", Some(12)).contains(&"/MT:12".to_string()));
    assert_eq!(robocopy_log_name("bob", "2024"), "Robocopy-bob-2024.txt");
    assert!(robocopy_precheck(true, false).is_ok());
    assert!(robocopy_precheck(false, false).is_err());
    assert_eq!(transfer_complete_message(42), "Transfer complete (PID: 42)");
    assert_eq!(transfer_start_message("C:\\a", "E:\\b"), "Starting transfer: C:\\a -> E:\\b");
    assert_eq!(profiles_found_message(2), "Found 2 user profiles");
}

#[test]
fn registers_are_read_in_hex() {
    assert_eq!(parse_register("0xfffff80312345678"), 0xfffff80312345678);
    assert_eq!(parse_register("0x0x1A"), 0x1a);
    assert_eq!(parse_register("ff"), 255);
    assert_eq!(parse_register("+10"), 16);
    assert_eq!(parse_register("zz"), 0);
    assert_eq!(parse_register(""), 0);
    assert_eq!(parse_register("0x"), 0);
    assert_eq!(parse_register("0x10000000000000000"), 0);
}

#[test]
fn the_instruction_pointer_offset_into_its_module() {
    let drivers = vec![("nt.sys".to_string(), 0x1000u64), ("bad.sys".to_string(), 0x2000u64)];
    assert_eq!(rip_offset("0x2a10", "bad.sys", &drivers), Some("+0xa10".to_string()));
    assert_eq!(rip_offset("0x10", "bad.sys", &drivers), Some("+0x0".to_string()));
    assert_eq!(rip_offset("0x2a10", "missing.sys", &drivers), None);
}

#[test]
fn crash_texts() {
    assert_eq!(signature_module(Some("a.sys"), Some("b.sys")), "a.sys");
    assert_eq!(signature_module(None, Some("b.sys")), "b.sys");
    assert_eq!(signature_module(None, None), "unknown");
    assert_eq!(dump_name("C:\\Windows\\Minidump\\0101.dmp"), "0101.dmp");
    assert_eq!(dump_name("/tmp/x/y.dmp"), "y.dmp");
    assert_eq!(dump_name("plain.dmp"), "plain.dmp");
    assert_eq!(
        raw_excerpt("IRQL", "0xA", &vec!["1".to_string(), "2".to_string()], None, Some("bad.sys")),
        "IRQL (0xA) params: 1, 2 | rip: - | blame: bad.sys [dump-triage local parse]"
    );
    assert_eq!(uptime_text(3 * 3600 + 25 * 60 + 7), "3h 25m");
    assert_eq!(sightings_line(4, 2, "today"), "Seen 4 time(s) on 2 machine(s), last today");
    assert_eq!(merge_lookup_error(None, "a".to_string()), "a");
    assert_eq!(merge_lookup_error(Some("a".to_string()), "b".to_string()), "a; b");
    assert_eq!(verdict_fix_line("  "), None);
    assert_eq!(verdict_fix_line("update"), Some("Fix: update".to_string()));
    assert!(MinidumpArgs::default().minidumps.is_empty());
}

#[test]
fn known_bad_drivers_are_matched_by_stem() {
    let rows = vec![
        KnownBadDriver { module: "bad".to_string(), symptom: String::new(), fix: "remove".to_string() },
        KnownBadDriver { module: "evil".to_string(), symptom: "hangs".to_string(), fix: String::new() },
        KnownBadDriver { module: "bad".to_string(), symptom: "bsod".to_string(), fix: String::new() },
    ];
    let drivers = vec![("bad.sys".to_string(), "bad".to_string()), ("ok.sys".to_string(), "ok".to_string())];
    assert_eq!(match_known_bad(&drivers, &rows), vec![("bad.sys".to_string(), 0), ("bad.sys".to_string(), 2)]);
    assert_eq!(
        known_bad_line("bad.sys", &rows[0]),
        "\u{26a0} Known-bad driver loaded: bad.sys \u{2014} see fleet notes (fix: remove)"
    );
    assert_eq!(
        known_bad_line("evil.sys", &rows[1]),
        "\u{26a0} Known-bad driver loaded: evil.sys \u{2014} hangs (fix: n/a)"
    );
}

#[test]
fn fleet_lookups_and_recordings() {
    let mut s = KernelIntelState::default();
    assert!(s.kickoff_intel_lookup());
    assert!(!s.kickoff_intel_lookup());
    s.ingest_running = true;
    assert!(!s.can_ingest());
    s.kernel_intel_receive(true, Some(Ok(5)), None);
    assert!(s.has_lookup);
    assert!(!s.ingest_running);
    assert!(!s.lookup_started);
    assert_eq!(
        s.ingest_status,
        Some(Ok("Recorded. Fleet has now seen this signature 5 time(s).".to_string()))
    );
    assert!(!s.can_ingest());
    assert!(!s.can_record_verdict());
    s.verdict_text = " driver ".to_string();
    assert!(s.can_record_verdict());
    s.kernel_intel_receive(false, Some(Err("offline".to_string())), None);
    assert_eq!(s.ingest_status, Some(Err("offline".to_string())));
    assert!(s.can_ingest());
}

#[test]
fn module_table_sorting_and_filter() {
    assert_eq!(click_sort_header(ModuleSort::Name, false, ModuleSort::Name), (ModuleSort::Name, true));
    assert_eq!(click_sort_header(ModuleSort::Name, true, ModuleSort::Size), (ModuleSort::Size, false));
    assert_eq!(sort_arrow(ModuleSort::Base, true, ModuleSort::Base), " \u{25bc}");
    assert_eq!(sort_arrow(ModuleSort::Base, false, ModuleSort::Base), " \u{25b2}");
    assert_eq!(sort_arrow(ModuleSort::Base, false, ModuleSort::Name), "");
    assert!(driver_listed("ntoskrnl.exe", "NTOS"));
    assert!(!driver_listed("NTOSKRNL.exe", "ntos"));
    assert!(driver_listed("x", ""));
    assert!(!driver_listed("acpi.sys", "nt"));
}

#[test]
fn memory_is_dumped_sixteen_bytes_a_line() {
    assert_eq!(hex_dump_text(0x1000, b"AB\x00"), format!("{:016x}  {:<47}  {}\n", 0x1000, "41 42 00", "AB."));
    let bytes: Vec<u8> = (0u8..20).map(|b| b + 0x3f).collect();
    let first: Vec<String> = bytes[..16].iter().map(|b| format!("{b:02x}")).collect();
    let second: Vec<String> = bytes[16..].iter().map(|b| format!("{b:02x}")).collect();
    let expected = format!(
        "{:016x}  {:<47}  {}\n{:016x}  {:<47}  {}\n",
        0xfffff800u64,
        first.join(" "),
        "?@ABCDEFGHIJKLMN",
        0xfffff810u64,
        second.join(" "),
        "OPQR"
    );
    assert_eq!(hex_dump_text(0xfffff800, &bytes), expected);
    assert_eq!(hex_dump_text(0, &[]), "");
    assert_eq!(hex_dump_text(u64::MAX - 3, &[b' ', b'~']), format!("{:016x}  {:<47}  .~\n", u64::MAX - 3, "20 7e"));
}

#[test]
fn crash_panels_as_rows() {
    let rows = bugcheck_rows(Some(0), Some(3 * 3600 + 120), 8, Some("0xfff"), None, Some("c0000005"));
    assert_eq!(
        rows,
        vec![
            ("Crash time".to_string(), "01/01/1970 00:00 UTC".to_string()),
            ("Uptime".to_string(), "3h 2m".to_string()),
            ("Processors".to_string(), "8".to_string()),
            ("RIP".to_string(), "0xfff".to_string()),
            ("Exception".to_string(), "c0000005".to_string()),
        ]
    );
    assert_eq!(bugcheck_rows(None, None, 1, None, None, None), vec![("Processors".to_string(), "1".to_string())]);
    assert_eq!(
        parameter_rows(&vec!["a".to_string(), "b".to_string()]),
        vec![("P1".to_string(), "a".to_string()), ("P2".to_string(), "b".to_string())]
    );
    assert_eq!(frame_text("nt", 0x1a2b), "nt+0x1a2b");
    assert_eq!(frame_text("nt", 0), "nt+0x0");
}

#[test]
fn the_module_table_filters_and_sorts() {
    let d = |name: &str, base: u64, size: u64| DriverRow { name: name.to_string(), base, size };
    let drivers = vec![d("nt.sys", 0x3000, 4096), d("acpi.sys", 0x1000, 2048), d("ntfs.sys", 0x2000, 4096)];
    assert_eq!(module_rows(&drivers, "", ModuleSort::Base, false), vec![1, 2, 0]);
    assert_eq!(module_rows(&drivers, "", ModuleSort::Base, true), vec![0, 2, 1]);
    assert_eq!(module_rows(&drivers, "", ModuleSort::Name, false), vec![1, 0, 2]);
    assert_eq!(module_rows(&drivers, "", ModuleSort::Size, false), vec![1, 0, 2]);
    assert_eq!(module_rows(&drivers, "NT", ModuleSort::Size, true), vec![2, 0]);
    assert_eq!(base_text(0x1000), "0x0000000000001000");
    assert_eq!(base_text(0x1000), format!("{:#018x}", 0x1000));
    assert_eq!(size_text(4096), "4 KB");
    assert_eq!(size_text(1023), "0 KB");
    let stems = vec!["nt".to_string(), "acpi".to_string(), "nt".to_string(), "disk".to_string()];
    assert_eq!(loaded_modules(&stems), vec!["acpi".to_string(), "disk".to_string(), "nt".to_string()]);
    assert!(loaded_modules(&Vec::new()).is_empty());
}

#[test]
fn clipboard_shortcuts_and_drives() {
    assert_eq!(clipboard_action(true, true, true, true, 2), ClipboardAction::Copy);
    assert_eq!(clipboard_action(false, true, true, true, 2), ClipboardAction::Cut);
    assert_eq!(clipboard_action(true, true, true, true, 0), ClipboardAction::Paste);
    assert_eq!(clipboard_action(true, false, false, false, 2), ClipboardAction::Nothing);
    assert_eq!(paste_toast("D:\\x"), "Pasting items to: D:\\x");
    let mounts = vec!["D:\\".to_string(), "".to_string(), "C:\\".to_string(), "D:\\".to_string()];
    assert_eq!(drive_list(&mounts), vec!["C:\\".to_string(), "D:\\".to_string()]);
}

#[test]
fn tab_buttons_load_what_is_missing() {
    assert_eq!(load_on_tab_click(TabKind::CompletedTasks, 0, 5), Some(TabLoad::CompletedTasks));
    assert_eq!(load_on_tab_click(TabKind::CompletedTasks, 2, 5), None);
    assert_eq!(load_on_tab_click(TabKind::StoreTasks, 2, 0), Some(TabLoad::OpenTasks));
    assert_eq!(load_on_tab_click(TabKind::Downloads, 2, 5), Some(TabLoad::Releases));
    assert_eq!(load_on_tab_click(TabKind::Other, 0, 0), None);
}

#[test]
fn a_folder_lists_directories_then_files_and_leaves_system_files_out() {
    let mut sys = entry("pagefile", false);
    sys.is_file = false;
    let entries = vec![entry("b.txt", false), entry("zdir", true), sys, entry("a.txt", false), entry("adir", true)];
    let mut dirs_only = Vec::new();
    for e in &entries {
        dirs_only.push(ListingEntry { path: e.path.clone(), name: e.name.clone(), is_dir: e.is_dir, is_file: e.is_file });
    }
    assert_eq!(read_folder(entries, false), vec!["/p/adir", "/p/zdir", "/p/a.txt", "/p/b.txt"]);
    assert_eq!(read_folder(dirs_only, true), vec!["/p/adir", "/p/zdir"]);
}
