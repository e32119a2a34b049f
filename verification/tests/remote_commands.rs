use mastertech::remote::console::{forwards_input, is_interactive_prompt};
use mastertech::remote::power::{power_command, restart_task_args, Platform, PowerAction};
use mastertech::remote::script_commands::{content_command, custom_script_command, remote_script_categories};
use mastertech::remote::powershell::{
    event_level_clause, event_log_query, list_tasks_query, registry_edit_command, registry_value_type,
    run_task_command, service_command, toggle_startup_script, toggle_task_command, RegistryEdit,
    ServiceAction,
};
use mastertech::remote::replies::{
    custom_script_extension, custom_script_file_name, custom_script_logs, download_allowed,
    download_chunks, file_saved_reply, preview_allowed, registry_backup_file_name,
    registry_edits_reply, script_content_logs, script_intro_logs, script_kind, service_action_reply,
    startup_app_reply, task_started_reply, task_toggled_reply, transfer_result_reply,
    unsupported_script_log, ContentEnd, ProcessOutcome, ScriptEnd, ScriptKind,
    DOWNLOAD_CHUNK_BYTES,
};

#[test]
fn event_levels_map_to_numbers() {
    assert_eq!(event_level_clause(Some("Error")), " -Level 2");
    assert_eq!(event_level_clause(Some("Verbose")), " -Level 5");
    assert_eq!(event_level_clause(Some("Chatty")), "");
    assert_eq!(event_level_clause(None), "");
}

#[test]
fn event_log_query_names_log_count_and_level() {
    assert_eq!(
        event_log_query("System", 50, Some("Warning")),
        "Get-WinEvent -LogName 'System' -MaxEvents 50 -Level 3 -ErrorAction SilentlyContinue | Select-Object LevelDisplayName,TimeCreated,ProviderName,Id,Message | ConvertTo-Json -Compress"
    );
}

#[test]
fn service_commands() {
    assert_eq!(
        service_command("Spooler", &ServiceAction::Restart),
        "Restart-Service -Name 'Spooler' -Force -ErrorAction Stop; 'OK'"
    );
    assert_eq!(
        service_command("Spooler", &ServiceAction::SetStartType("Manual".to_string())),
        "Set-Service -Name 'Spooler' -StartupType 'Manual' -ErrorAction Stop; 'OK'"
    );
    assert_eq!(service_command("W", &ServiceAction::Start), "Start-Service -Name 'W' -ErrorAction Stop; 'OK'");
}

#[test]
fn task_commands() {
    assert_eq!(toggle_task_command("\\T", false), "Disable-ScheduledTask -TaskName '\\T' -ErrorAction Stop; 'OK'");
    assert_eq!(run_task_command("\\T"), "Start-ScheduledTask -TaskName '\\T' -ErrorAction Stop; 'OK'");
    assert!(list_tasks_query(None).starts_with("$tasks = Get-ScheduledTask -TaskPath '\\*'"));
    assert!(list_tasks_query(Some("\\Microsoft\\")).starts_with("$tasks = Get-ScheduledTask -TaskPath '\\Microsoft\\*'"));
}

#[test]
fn registry_value_kinds() {
    assert_eq!(registry_value_type("REG_DWORD"), "DWord");
    assert_eq!(registry_value_type("QWord"), "QWord");
    assert_eq!(registry_value_type("REG_MULTI_SZ"), "MultiString");
    assert_eq!(registry_value_type("REG_SZ"), "String");
}

#[test]
fn registry_edit_commands() {
    let set = RegistryEdit::SetValue {
        path: "HKCU\\Software\\X".to_string(),
        name: "N".to_string(),
        kind: "REG_DWORD".to_string(),
        data: "1".to_string(),
    };
    assert_eq!(
        registry_edit_command(&set),
        "Set-ItemProperty -Path 'Registry::HKCU\\Software\\X' -Name 'N' -Value '1' -Type DWord -ErrorAction Stop; 'OK'"
    );
    assert_eq!(
        registry_edit_command(&RegistryEdit::DeleteKey { path: "HKCU\\K".to_string() }),
        "Remove-Item -Path 'Registry::HKCU\\K' -Recurse -Force -ErrorAction Stop; 'OK'"
    );
}

#[test]
fn startup_toggle_targets_the_approved_key() {
    let s = toggle_startup_script("App", "HKCU:\\Software\\Microsoft\\Windows\\CurrentVersion\\Run", true);
    assert!(s.contains("$path = 'HKCU:\\Software\\Microsoft\\Windows\\CurrentVersion\\Explorer\\StartupApproved\\Run'"));
    assert!(s.contains("$name = 'App'"));
    assert!(s.contains("$current[0] = 0x02"));
    let d = toggle_startup_script("App", "HKLM:\\X\\Explorer\\StartupApproved\\Run", false);
    assert!(d.contains("$path = 'HKLM:\\X\\Explorer\\StartupApproved\\Run'"));
    assert!(d.contains("0x03"));
}

#[test]
fn replies_to_service_and_task_commands() {
    assert_eq!(service_action_reply(&ProcessOutcome::Succeeded, "stop"), (true, "Action completed: stop".to_string()));
    assert_eq!(
        service_action_reply(&ProcessOutcome::Failed("denied".to_string()), "stop"),
        (false, "denied".to_string())
    );
    assert_eq!(
        service_action_reply(&ProcessOutcome::NotStarted("no shell".to_string()), "stop"),
        (false, "Failed to execute: no shell".to_string())
    );
    assert_eq!(task_toggled_reply(&ProcessOutcome::Succeeded, true), (true, "Task enabled".to_string()));
    assert_eq!(task_toggled_reply(&ProcessOutcome::NotStarted("x".to_string()), false), (false, "Failed: x".to_string()));
    assert!(task_started_reply(&ProcessOutcome::Succeeded).0);
    assert!(!task_started_reply(&ProcessOutcome::Failed("e".to_string())).0);
    assert_eq!(startup_app_reply(&ProcessOutcome::Succeeded, "App", true), (true, "'App' enabled".to_string()));
    assert_eq!(
        startup_app_reply(&ProcessOutcome::Failed("locked".to_string()), "App", false),
        (false, "Failed to toggle 'App': locked".to_string())
    );
}

#[test]
fn replies_to_file_writes() {
    assert_eq!(
        transfer_result_reply(None, "C:\\f.bin", 12),
        (true, "Saved to C:\\f.bin (12 bytes)".to_string())
    );
    assert_eq!(
        transfer_result_reply(Some("disk full"), "C:\\f.bin", 12),
        (false, "Write failed: disk full".to_string())
    );
    assert_eq!(file_saved_reply(None, "C:\\a"), (true, "File saved: C:\\a".to_string()));
    assert_eq!(file_saved_reply(Some("e"), "C:\\a"), (false, "Failed to save: e".to_string()));
}

#[test]
fn registry_edits_succeed_only_when_all_apply() {
    let all = vec![ProcessOutcome::Succeeded, ProcessOutcome::Succeeded];
    assert_eq!(registry_edits_reply(&all), (true, "All 2 edit(s) applied successfully".to_string()));
    let some = vec![
        ProcessOutcome::Succeeded,
        ProcessOutcome::Failed("denied".to_string()),
        ProcessOutcome::NotStarted("gone".to_string()),
    ];
    assert_eq!(registry_edits_reply(&some), (false, "Failed: denied; Error: gone".to_string()));
}

#[test]
fn registry_backup_names_flatten_slashes() {
    assert_eq!(
        registry_backup_file_name("HKCU\\Software/X", "20240102"),
        "reg_backup_HKCU_Software_X_20240102.reg"
    );
}

#[test]
fn scripts_are_run_by_extension() {
    assert_eq!(custom_script_extension("fix.bat"), "bat");
    assert_eq!(custom_script_extension("fix.cmd"), "bat");
    assert_eq!(custom_script_extension("fix.ps1"), "ps1");
    assert!(matches!(script_kind("Run.PS1"), ScriptKind::PowerShell));
    assert!(matches!(script_kind("a.b.cmd"), ScriptKind::Batch));
    match script_kind("tool.exe") {
        ScriptKind::Unsupported(ext) => assert_eq!(ext, "exe"),
        _ => panic!("exe scripts are not run"),
    }
    assert_eq!(unsupported_script_log("exe"), "Unsupported script type: .exe");
    assert_eq!(custom_script_file_name("42", "ps1"), "mastertech_custom_42.ps1");
}

#[test]
fn script_logs() {
    assert_eq!(
        script_intro_logs("Fix", true),
        vec!["Starting: Fix".to_string(), "Running custom script: Fix".to_string()]
    );
    let (logs, ok) = custom_script_logs(&ScriptEnd::Ran {
        stdout: "a\nb".to_string(),
        stderr: "oops".to_string(),
        success: true,
    });
    assert!(ok);
    assert_eq!(logs, vec!["a".to_string(), "b".to_string(), "[stderr] oops".to_string()]);
    let (logs, ok) = custom_script_logs(&ScriptEnd::WriteFailed("ro".to_string()));
    assert!(!ok);
    assert_eq!(logs, vec!["Failed to write script: ro".to_string()]);
    assert_eq!(
        script_content_logs(
            "x.ps1",
            &ContentEnd::Ran { stdout: String::new(), stderr: String::new(), status: "0".to_string() }
        ),
        vec!["Script x.ps1 exited with code: 0".to_string()]
    );
}

#[test]
fn download_limits() {
    assert!(download_allowed(104857600));
    assert!(!download_allowed(104857601));
    assert!(preview_allowed(5242880));
    assert!(!preview_allowed(5242881));
}

#[test]
fn downloads_are_cut_into_chunks() {
    assert_eq!(download_chunks(0), vec![(0, 0, true)]);
    assert_eq!(download_chunks(10), vec![(0, 10, true)]);
    let n = DOWNLOAD_CHUNK_BYTES;
    assert_eq!(download_chunks(2 * n + 1), vec![(0, n, false), (n, 2 * n, false), (2 * n, 2 * n + 1, true)]);
    assert_eq!(download_chunks(2 * n), vec![(0, n, false), (n, 2 * n, true)]);
}

fn command(program: &str, args: &[&str]) -> (String, Vec<String>) {
    (program.to_string(), args.iter().map(|a| a.to_string()).collect())
}

#[test]
fn power_commands_per_system() {
    assert_eq!(
        power_command(PowerAction::Reboot, Platform::Windows, "bob"),
        command("shutdown", &["/r", "/t", "5", "/c", "Mastertech remote reboot requested"])
    );
    assert_eq!(power_command(PowerAction::Reboot, Platform::Linux, "bob"), command("sudo", &["shutdown", "-r", "+1"]));
    assert_eq!(power_command(PowerAction::Shutdown, Platform::MacOs, "bob"), command("sudo", &["shutdown", "-h", "+1"]));
    assert_eq!(power_command(PowerAction::Lock, Platform::Linux, "bob"), command("loginctl", &["lock-session"]));
    assert_eq!(power_command(PowerAction::Lock, Platform::MacOs, "bob"), command("pmset", &["displaysleepnow"]));
    assert_eq!(power_command(PowerAction::LogOff, Platform::Linux, "bob"), command("pkill", &["-KILL", "-u", "bob"]));
    assert_eq!(power_command(PowerAction::LogOff, Platform::Windows, "bob"), command("shutdown", &["/l"]));
    assert_eq!(power_command(PowerAction::Kill(4321), Platform::Windows, ""), command("taskkill", &["/F", "/PID", "4321"]));
    assert_eq!(power_command(PowerAction::Kill(7), Platform::Linux, ""), command("kill", &["-9", "7"]));
}

#[test]
fn a_persistent_reboot_schedules_a_restart() {
    assert_eq!(
        restart_task_args("C:\\mt.exe", true),
        vec!["/Create", "/TN", "MastertechAutoRestart", "/TR", "\"C:\\mt.exe\" -t", "/SC", "ONLOGON", "/RL", "HIGHEST", "/F"]
    );
    assert_eq!(restart_task_args("C:\\mt.exe", false)[4], "\"C:\\mt.exe\"");
}

#[test]
fn script_command_lines() {
    assert_eq!(
        custom_script_command("ps1", "C:\\t\\a.ps1"),
        command("powershell", &["-ExecutionPolicy", "Bypass", "-File", "C:\\t\\a.ps1"])
    );
    assert_eq!(custom_script_command("bat", "a.bat"), command("cmd", &["/C", "a.bat"]));
    assert_eq!(
        content_command(&ScriptKind::PowerShell, "Get-Date"),
        Some(command("powershell", &["-NoProfile", "-ExecutionPolicy", "Bypass", "-Command", "Get-Date"]))
    );
    assert_eq!(content_command(&ScriptKind::Batch, "dir"), Some(command("cmd", &["/C", "dir"])));
    assert_eq!(content_command(&ScriptKind::Unsupported("exe".to_string()), "x"), None);
}

#[test]
fn the_remote_script_list() {
    let cats = remote_script_categories();
    assert_eq!(cats.len(), 3);
    assert_eq!(cats[0].0, "Tuneup / QC");
    assert_eq!(cats[0].1.len(), 16);
    assert_eq!(cats[0].1[0], "Data Transfer");
    assert_eq!(cats[1].0, "Informational");
    assert_eq!(cats[1].1.last().unwrap(), "Run Prechecks");
    assert_eq!(cats[2].1, vec!["OneLaunch", "WebNavigator Browser", "Wave Browser", "Clear Browser", "Shift Browser",
        "Avast Browser", "Mcaffee Safe", "Driver Support", "Winzip"]);
}

#[test]
fn interactive_shell_lines() {
    assert!(is_interactive_prompt("Enter the new value:"));
    assert!(is_interactive_prompt("Password:"));
    assert!(!is_interactive_prompt("done"));
    assert!(forwards_input("dir\n"));
    assert!(!forwards_input("quit"));
}
