//! The scripts the console offers to run remotely, and the command lines
//! it runs a script with.
use vstd::prelude::*;
use crate::text::owned;
use crate::remote::power::{strings, texts};
use crate::remote::replies::ScriptKind;

verus! {

/// The command line a custom script saved as `file` runs with: PowerShell
/// for a `ps1` script, else `cmd`.
pub open spec fn saved_script_command(ext: Seq<char>, file: Seq<char>) -> (Seq<char>, Seq<Seq<char>>) {
    if ext == "ps1"@ {
        ("powershell"@, seq!["-ExecutionPolicy"@, "Bypass"@, "-File"@, file])
    } else {
        ("cmd"@, seq!["/C"@, file])
    }
}

/// The command line a custom script saved as `file`, with extension `ext`, runs with.
pub fn custom_script_command(ext: &str, file: &str) -> (r: (String, Vec<String>))
    ensures
        (r.0@, texts(r.1@)) == saved_script_command(ext@, file@),
{
    if crate::text::str_eq(ext, "ps1") {
        let a = strings(&["-ExecutionPolicy", "Bypass", "-File", file]);
        assert(texts(a@) =~= seq!["-ExecutionPolicy"@, "Bypass"@, "-File"@, file@]);
        (owned("powershell"), a)
    } else {
        let a = strings(&["/C", file]);
        assert(texts(a@) =~= seq!["/C"@, file@]);
        (owned("cmd"), a)
    }
}

/// The command line a script sent as text runs with, by its kind: none for
/// a kind the console does not run.
pub open spec fn content_command_text(kind: ScriptKind, content: Seq<char>) -> Option<(Seq<char>, Seq<Seq<char>>)> {
    match kind {
        ScriptKind::PowerShell => Some(("powershell"@, seq!["-NoProfile"@, "-ExecutionPolicy"@, "Bypass"@,
            "-Command"@, content])),
        ScriptKind::Batch => Some(("cmd"@, seq!["/C"@, content])),
        ScriptKind::Unsupported(_) => None,
    }
}

/// The command line a script sent as text runs with.
pub fn content_command(kind: &ScriptKind, content: &str) -> (r: Option<(String, Vec<String>)>)
    ensures
        match r { Some(c) => Some((c.0@, texts(c.1@))), None => None } == content_command_text(*kind, content@),
{
    match kind {
        ScriptKind::PowerShell => {
            let a = strings(&["-NoProfile", "-ExecutionPolicy", "Bypass", "-Command", content]);
            assert(texts(a@) =~= seq!["-NoProfile"@, "-ExecutionPolicy"@, "Bypass"@, "-Command"@, content@]);
            Some((owned("powershell"), a))
        },
        ScriptKind::Batch => {
            let a = strings(&["/C", content]);
            assert(texts(a@) =~= seq!["/C"@, content@]);
            Some((owned("cmd"), a))
        },
        ScriptKind::Unsupported(_) => None,
    }
}

/// The scripts the console offers to run remotely, by category.
pub open spec fn remote_catalog() -> Seq<(Seq<char>, Seq<Seq<char>>)> {
    seq![
        ("Tuneup / QC"@, seq!["Data Transfer"@, "Activate Webroot"@, "Activate SuperAnti"@, "Activate SEB"@,
            "Install Windows Updates"@, "Disable Sleep / Hibernation"@, "Run SuperAntiSpyware Scan"@,
            "Run Webroot Scan"@, "Run Tron"@, "Install LibreOffice"@, "Disable proxy settings"@,
            "Disable Notifications"@, "Change SuperAntiSpyware settings"@, "Disable Startup Apps"@,
            "Unpin Copilot"@, "Align Taskbar to left"@]),
        ("Informational"@, seq!["Is SuperEasyBackup installed?"@, "Is Webroot installed?"@,
            "Is SuperAntiSpyware installed?"@, "Are there scheduled tasks for it?"@, "Is Windows Activated?"@,
            "Is Hibernation/Sleep enabled?"@, "Any Recent Blue Screens?"@, "When Was The Last Service Date?"@,
            "Windows Version"@, "Check Updates"@, "Run Prechecks"@]),
        ("Junkware Removal"@, seq!["OneLaunch"@, "WebNavigator Browser"@, "Wave Browser"@, "Clear Browser"@,
            "Shift Browser"@, "Avast Browser"@, "Mcaffee Safe"@, "Driver Support"@, "Winzip"@]),
    ]
}

/// The scripts the console offers to run remotely: each category with the
/// names of its scripts, in the order listed.
pub fn remote_script_categories() -> (cats: Vec<(String, Vec<String>)>)
    ensures
        cats@.map_values(|c: (String, Vec<String>)| (c.0@, texts(c.1@))) == remote_catalog(),
{
    let tuneup = strings(&["Data Transfer", "Activate Webroot", "Activate SuperAnti", "Activate SEB",
        "Install Windows Updates", "Disable Sleep / Hibernation", "Run SuperAntiSpyware Scan", "Run Webroot Scan",
        "Run Tron", "Install LibreOffice", "Disable proxy settings", "Disable Notifications",
        "Change SuperAntiSpyware settings", "Disable Startup Apps", "Unpin Copilot", "Align Taskbar to left"]);
    let info = strings(&["Is SuperEasyBackup installed?", "Is Webroot installed?", "Is SuperAntiSpyware installed?",
        "Are there scheduled tasks for it?", "Is Windows Activated?", "Is Hibernation/Sleep enabled?",
        "Any Recent Blue Screens?", "When Was The Last Service Date?", "Windows Version", "Check Updates",
        "Run Prechecks"]);
    let junk = strings(&["OneLaunch", "WebNavigator Browser", "Wave Browser", "Clear Browser", "Shift Browser",
        "Avast Browser", "Mcaffee Safe", "Driver Support", "Winzip"]);
    assert(texts(tuneup@) =~= remote_catalog()[0].1);
    assert(texts(info@) =~= remote_catalog()[1].1);
    assert(texts(junk@) =~= remote_catalog()[2].1);
    let cats = vec![(owned("Tuneup / QC"), tuneup), (owned("Informational"), info), (owned("Junkware Removal"), junk)];
    assert(cats@.map_values(|c: (String, Vec<String>)| (c.0@, texts(c.1@))) =~= remote_catalog());
    cats
}

} // verus!
