use mastertech::remote::console::{
    expand_env_vars, history_entry_display, is_window_input, split_lines, ConsoleState, SocketEvent,
};
use mastertech::remote::transfer::FileTransfers;

#[test]
fn a_new_console_is_connected_with_no_history() {
    let c = ConsoleState::new();
    assert!(c.is_connected());
    assert!(c.history().is_empty());
}

#[test]
fn events_add_history_and_the_last_decides_the_connection() {
    let mut c = ConsoleState::new();
    let up = c.take_events(vec![
        SocketEvent::Opened,
        SocketEvent::Text("dir".to_string()),
        SocketEvent::Binary,
        SocketEvent::Command("Cmd: GetStats".to_string()),
        SocketEvent::Closed,
    ]);
    assert!(!up);
    assert!(!c.is_connected());
    assert_eq!(
        c.history().clone(),
        vec![
            "Connection Opened".to_string(),
            "Raw Command: dir".to_string(),
            "Cmd: GetStats".to_string(),
            "Connection Closed".to_string(),
        ]
    );
}

#[test]
fn an_error_event_drops_the_connection() {
    let mut c = ConsoleState::new();
    assert!(!c.take_events(vec![SocketEvent::Opened, SocketEvent::Error("reset".to_string())]));
    assert_eq!(c.history().last().unwrap(), "reset");
    // No event at all leaves the connection up.
    let mut d = ConsoleState::new();
    assert!(d.take_events(Vec::new()));
}

#[test]
fn live_stats_start_only_once() {
    let mut c = ConsoleState::new();
    assert!(c.request_live_stats("GetLiveStats"));
    assert!(!c.request_live_stats("GetLiveStats"));
    assert_eq!(c.history().clone(), vec!["Cmd: GetLiveStats".to_string()]);
}

#[test]
fn quitting_disconnects() {
    let mut c = ConsoleState::new();
    c.quit();
    assert!(!c.is_connected());
}

#[test]
fn submitted_input_is_recorded_and_sent() {
    let mut c = ConsoleState::new();
    let sent = c.submit_input("ipconfig");
    assert_eq!(sent, "ipconfig");
    assert_eq!(c.history().clone(), vec!["You\nipconfig".to_string()]);
}

#[test]
fn a_plugin_result_settles_the_first_call_awaiting_it() {
    let mut c = ConsoleState::new();
    c.await_plugin_call("r1".to_string(), "p1".to_string(), "first".to_string());
    c.await_plugin_call("r2".to_string(), "p2".to_string(), "other".to_string());
    c.await_plugin_call("r1".to_string(), "p3".to_string(), "second".to_string());
    let got = c.settle_plugin_call("r1").unwrap();
    assert_eq!(got, ("r1".to_string(), "p1".to_string(), "first".to_string()));
    let again = c.settle_plugin_call("r1").unwrap();
    assert_eq!(again.2, "second");
    assert!(c.settle_plugin_call("r1").is_none());
    assert!(c.settle_plugin_call("unknown").is_none());
}

#[test]
fn file_chunks_out_of_order_are_joined_by_index() {
    let mut c = ConsoleState::new();
    assert!(c.receive_file_chunk("a.txt".to_string(), 1, 3, b"lo ".to_vec()).is_none());
    assert!(c.receive_file_chunk("a.txt".to_string(), 0, 3, b"hel".to_vec()).is_none());
    let done = c.receive_file_chunk("a.txt".to_string(), 2, 3, b"you".to_vec());
    assert_eq!(done, Some(b"hello you".to_vec()));
}

#[test]
fn transfers_of_different_files_do_not_mix() {
    let mut t = FileTransfers::new();
    assert!(t.receive("a".to_string(), 0, 2, vec![1]).is_none());
    assert!(t.receive("b".to_string(), 0, 2, vec![7]).is_none());
    assert_eq!(t.receive("b".to_string(), 1, 2, vec![8]), Some(vec![7, 8]));
    assert_eq!(t.receive("a".to_string(), 1, 2, vec![2]), Some(vec![1, 2]));
}

#[test]
fn a_single_chunk_file_is_delivered_at_once() {
    let mut t = FileTransfers::new();
    assert_eq!(t.receive("x".to_string(), 0, 1, vec![9, 9]), Some(vec![9, 9]));
}

#[test]
fn env_vars_expand_without_regard_to_case() {
    let vars = vec![
        ("USERPROFILE".to_string(), "C:\\Users\\bob".to_string()),
        ("TEMP".to_string(), "C:\\Temp".to_string()),
    ];
    assert_eq!(expand_env_vars("%USERPROFILE%\\Desktop", &vars), "C:\\Users\\bob\\Desktop");
    assert_eq!(expand_env_vars("C:\\Windows", &vars), "C:\\Windows");
    assert_eq!(expand_env_vars("%TEMP%\\x", &vars), "C:\\Temp\\x");
}

#[test]
fn split_lines_breaks_on_newlines() {
    assert_eq!(split_lines("a\nb\nc"), vec!["a".to_string(), "b".to_string(), "c".to_string()]);
    assert_eq!(split_lines("one"), vec!["one".to_string()]);
}

#[test]
fn window_input_is_told_by_its_first_byte() {
    assert!(is_window_input(&vec![0xA1, 1, 2], 0xA1));
    assert!(!is_window_input(&vec![0xA2, 1], 0xA1));
    assert!(!is_window_input(&Vec::new(), 0xA1));
}

#[test]
fn history_lines_are_labelled_by_who_sent_them() {
    assert_eq!(history_entry_display("You\nipconfig"), (true, "You", "ipconfig".to_string()));
    assert_eq!(history_entry_display("Raw Command: dir"), (false, "Raw Command", " dir".to_string()));
    assert_eq!(history_entry_display("Cmd: GetStats"), (false, "Cmd", " GetStats".to_string()));
    assert_eq!(history_entry_display("blob"), (false, "Raw Binary Payload", "blob".to_string()));
}
