use mastertech::antivirus::{
    activation_key_error, download_complete, sas_install_locations, sas_installer_args,
    sas_register_args, seb_installer_args, temp_file_path, webroot_installer_args, AntiVirusProduct,
};
use mastertech::file_copy::{
    advanced_builder, is_file_newer, is_filesize_different, paste_builder, CopyAction, CopyBuilder, EntryFacts,
};
use mastertech::programs::{programs_query_error, InstalledProgram};
use mastertech::startup::{startup_query_error, StartupProgram, StartupState, StartupValue};

fn product(state: u32) -> AntiVirusProduct {
    AntiVirusProduct {
        display_name: "Defender".to_string(),
        instance_guid: "{G}".to_string(),
        path_to_signed_product_exe: String::new(),
        path_to_signed_reporting_exe: String::new(),
        product_state: state,
        timestamp: String::new(),
        ps_computer_name: None,
    }
}

#[test]
fn product_state_flags_are_separate_bits() {
    assert_eq!(product(0x10000).decode_product_state(), (true, false, false));
    assert_eq!(product(0x20000).decode_product_state(), (false, true, false));
    assert_eq!(product(0x40000).decode_product_state(), (false, false, true));
    assert_eq!(product(0x61100).decode_product_state(), (false, true, true));
    assert_eq!(product(0x71100).decode_product_state(), (true, true, true));
}

#[test]
fn antivirus_uninstall_texts() {
    let p = product(0);
    let s = p.uninstall_script();
    assert!(s.contains("$guid = \"{G}\""));
    assert!(s.contains("msiexec.exe"));
    assert_eq!(p.uninstall_error("boom"), "Failed to uninstall Defender: boom");
}

#[test]
fn installer_command_lines() {
    assert_eq!(activation_key_error(""), Some("Activation key is empty"));
    assert_eq!(activation_key_error("K"), None);
    assert!(download_complete(10, 10));
    assert!(!download_complete(9, 10));
    assert_eq!(temp_file_path("C:\\Temp", "wr.exe"), "C:\\Temp\\wr.exe");
    assert_eq!(webroot_installer_args("wr.exe", "K1"), vec!["/c ", "wr.exe", "/key=K1", "/silent"]);
    assert_eq!(sas_register_args("SAS.exe", "K2"), vec!["/c ", "SAS.exe", " /autoregister:K2"]);
    assert_eq!(sas_installer_args("sas.exe", "K3"), vec!["/c ", "sas.exe", "/REGCODE=K3", "/silent"]);
    assert_eq!(
        seb_installer_args("seb.msi", "C4"),
        vec![
            "/i ",
            "seb.msi",
            "/qn",
            "Silent=1",
            "ActivationURL=https://blue.mysecuredatavault.com",
            "ActivationCode=C4"
        ]
    );
}

fn program(name: Option<&str>, publisher: Option<&str>, location: Option<&str>) -> InstalledProgram {
    InstalledProgram {
        display_name: name.map(|s| s.to_string()),
        display_version: None,
        publisher: publisher.map(|s| s.to_string()),
        uninstall_string: Some("u.exe".to_string()),
        install_location: location.map(|s| s.to_string()),
        install_date: None,
        ps_path: None,
    }
}

#[test]
fn existing_superantispyware_installs_are_found_in_order() {
    let programs = vec![
        program(Some("SUPERAntiSpyware"), Some("SUPERAntiSpyware.com"), Some("C:\\SAS1")),
        program(Some("Chrome"), Some("Google"), Some("C:\\Chrome")),
        program(Some("Other"), Some("SUPERAntiSpyware.com"), Some("C:\\SAS2")),
        program(Some("SUPERAntiSpyware"), None, Some("C:\\NoPublisher")),
        program(Some("SUPERAntiSpyware"), Some("x"), None),
    ];
    assert_eq!(sas_install_locations(&programs), vec!["C:\\SAS1".to_string(), "C:\\SAS2".to_string()]);
}

#[test]
fn programs_are_uninstalled_by_their_uninstall_string() {
    let p = program(Some("App"), None, None);
    assert_eq!(p.uninstall_script(), Ok("& u.exe /verysilent /suppressmsgboxes /norestart".to_string()));
    let mut q = program(Some("App"), None, None);
    q.uninstall_string = None;
    assert_eq!(q.uninstall_script(), Err("No uninstall string found for program: Some(\"App\")".to_string()));
    let mut r = program(None, None, None);
    r.uninstall_string = None;
    assert_eq!(r.uninstall_script(), Err("No uninstall string found for program: None".to_string()));
    assert_eq!(InstalledProgram::uninstall_error("A\"B", "e"), "Failed to uninstall \"A\\\"B\": e");
    assert!(InstalledProgram::get_by_name_script("Zoom").contains("$_.DisplayName -match \"Zoom\" -or $_.Publisher -match \"Zoom\""));
    assert_eq!(programs_query_error("x"), "Failed to retrieve installed programs: x");
}

fn startup(value: StartupValue) -> StartupProgram {
    StartupProgram {
        path: String::new(),
        key_name: String::new(),
        property_name: String::new(),
        value,
        decoded_state: None,
    }
}

#[test]
fn startup_state_is_read_from_the_first_byte() {
    assert_eq!(startup(StartupValue::Array(vec![Some(2), Some(0)])).decode_value(), Some(StartupState::Enabled));
    assert_eq!(startup(StartupValue::Array(vec![Some(3)])).decode_value(), Some(StartupState::Disabled));
    assert_eq!(startup(StartupValue::Array(vec![Some(6)])).decode_value(), Some(StartupState::DisabledByUser));
    assert_eq!(startup(StartupValue::Array(vec![Some(9)])).decode_value(), Some(StartupState::UnknownState));
    assert_eq!(startup(StartupValue::Array(vec![None, Some(2)])).decode_value(), None);
    assert_eq!(startup(StartupValue::Array(Vec::new())).decode_value(), None);
    assert_eq!(startup(StartupValue::Other).decode_value(), None);
    assert_eq!(StartupState::default(), StartupState::Enabled);
    assert_eq!(startup_query_error("e"), "Failed to retrieve startup programs: e");
}

#[test]
fn file_age_and_size_comparisons() {
    assert!(is_file_newer(Some(Some(10)), Some(Some(5)), 0));
    assert!(!is_file_newer(Some(Some(5)), Some(Some(5)), 0));
    assert!(is_file_newer(Some(None), Some(Some(5)), 100));
    assert!(is_file_newer(Some(Some(1)), Some(None), 0));
    assert!(!is_file_newer(None, Some(Some(0)), 100));
    assert!(is_filesize_different(Some(1), Some(2)));
    assert!(!is_filesize_different(Some(2), Some(2)));
    assert!(!is_filesize_different(None, Some(2)));
}

fn file(path: &str, dest_exists: bool, newer: bool, size_differs: bool) -> EntryFacts {
    EntryFacts {
        path: path.to_string(),
        metadata_ok: true,
        is_dir_entry: false,
        is_file_entry: true,
        is_symlink_entry: false,
        path_is_dir: false,
        dest_exists,
        dest_is_dir: false,
        source_newer: newer,
        size_differs,
    }
}

#[test]
fn a_plain_copy_keeps_existing_files() {
    let b = CopyBuilder::new("C:\\a", "D:\\b");
    assert_eq!(b.plan_entry(&file("C:\\a\\x.txt", true, true, true)), CopyAction::Skip);
    assert_eq!(b.plan_entry(&file("C:\\a\\x.txt", false, false, false)), CopyAction::CopyFile);
    let forced = CopyBuilder::new("C:\\a", "D:\\b")._overwrite(true);
    assert_eq!(forced.plan_entry(&file("C:\\a\\x.txt", true, false, false)), CopyAction::CopyFile);
}

#[test]
fn a_paste_replaces_older_or_different_files_and_leaves_system_files() {
    let b = paste_builder("C:\\a", "D:\\b");
    assert_eq!(b.plan_entry(&file("C:\\a\\x.txt", true, true, true)), CopyAction::CopyFile);
    assert_eq!(b.plan_entry(&file("C:\\a\\x.txt", true, false, true)), CopyAction::CopyFile);
    assert_eq!(b.plan_entry(&file("C:\\a\\x.txt", true, true, false)), CopyAction::CopyFile);
    assert_eq!(b.plan_entry(&file("C:\\a\\x.txt", true, false, false)), CopyAction::Skip);
    assert_eq!(b.plan_entry(&file("C:\\a\\pagefile.sys", false, true, true)), CopyAction::Skip);
    assert_eq!(b.plan_entry(&file("C:\\a\\ntuser.dat", false, true, true)), CopyAction::Skip);
}

#[test]
fn include_filters_and_directories() {
    let b = CopyBuilder::new("s", "d").with_exclude_filter("tmp")._with_include_filter("docs");
    assert_eq!(b.plan_entry(&file("s\\docs\\a.txt", false, false, false)), CopyAction::CopyFile);
    assert_eq!(b.plan_entry(&file("s\\pics\\a.txt", false, false, false)), CopyAction::Skip);
    assert_eq!(b.plan_entry(&file("s\\docs\\tmp.txt", false, false, false)), CopyAction::Skip);
    let mut dir = file("s\\docs", false, false, false);
    dir.is_dir_entry = true;
    dir.is_file_entry = false;
    dir.path_is_dir = true;
    assert_eq!(b.plan_entry(&dir), CopyAction::MakeDir);
    dir.dest_is_dir = true;
    assert_eq!(b.plan_entry(&dir), CopyAction::Skip);
    let mut link = file("s\\docs\\l", false, false, false);
    link.is_file_entry = false;
    link.is_symlink_entry = true;
    assert_eq!(b.plan_entry(&link), CopyAction::CopyLink);
    link.is_symlink_entry = false;
    assert_eq!(b.plan_entry(&link), CopyAction::Unhandled);
    let newer_only = CopyBuilder::new("s", "d").overwrite_if_newer(true).overwrite_if_size_differs(false);
    assert_eq!(newer_only.plan_entry(&file("s\\a", true, true, false)), CopyAction::CopyFile);
    assert_eq!(newer_only.plan_entry(&file("s\\a", true, false, true)), CopyAction::Skip);
    let forced_newer = CopyBuilder::new("s", "d")._overwrite(true).overwrite_if_newer(true);
    assert_eq!(forced_newer.plan_entry(&file("s\\a", true, false, false)), CopyAction::CopyFile);
}

#[test]
fn a_copy_with_every_option_given_at_once() {
    let b = advanced_builder("s", "d", false, false, false, vec!["skip".to_string()], vec![".txt".to_string()]);
    assert_eq!(b.source, "s");
    assert_eq!(b.destination, "d");
    assert_eq!(b.plan_entry(&file("s\\a.txt", false, false, false)), CopyAction::CopyFile);
    assert_eq!(b.plan_entry(&file("s\\a.csv", false, false, false)), CopyAction::Skip);
    assert_eq!(b.plan_entry(&file("s\\skip.txt", false, false, false)), CopyAction::Skip);
    assert_eq!(b.plan_entry(&file("s\\a.txt", true, true, true)), CopyAction::Skip);
    let all = advanced_builder("s", "d", true, false, false, Vec::new(), Vec::new());
    assert_eq!(all.plan_entry(&file("s\\a.txt", true, false, false)), CopyAction::CopyFile);
}
