//! The answers the remote console sends back once a command has run, and the
//! small decisions taken around running it.
use vstd::prelude::*;
use crate::remote::console::{lines_of, split_lines};
use crate::text::{owned, push_str, push_decimal, decimal, ends_with, has_suffix, replace, replace_all,
    to_lowercase, lowercase};

verus! {

/// How a process the console started ended.
pub enum ProcessOutcome {
    /// It ran and exited with success.
    Succeeded,
    /// It ran and failed; what it wrote to its error stream.
    Failed(String),
    /// It could not be started; the error, as text.
    NotStarted(String),
}

/// The answer to a service command: success, and the message shown.
/// `label` is the action as the technician's console names it.
pub open spec fn service_reply(outcome: ProcessOutcome, label: Seq<char>) -> (bool, Seq<char>) {
    match outcome {
        ProcessOutcome::Succeeded => (true, "Action completed: "@ + label),
        ProcessOutcome::Failed(err) => (false, err@),
        ProcessOutcome::NotStarted(e) => (false, "Failed to execute: "@ + e@),
    }
}

/// The answer to a service command.
pub fn service_action_reply(outcome: &ProcessOutcome, label: &str) -> (r: (bool, String))
    ensures
        (r.0, r.1@) == service_reply(*outcome, label@),
{
    match outcome {
        ProcessOutcome::Succeeded => {
            let mut m = owned("Action completed: ");
            push_str(&mut m, label);
            (true, m)
        },
        ProcessOutcome::Failed(err) => (false, owned(err.as_str())),
        ProcessOutcome::NotStarted(e) => {
            let mut m = owned("Failed to execute: ");
            push_str(&mut m, e.as_str());
            (false, m)
        },
    }
}

/// The answer to enabling (`enable`) or disabling a scheduled task.
pub open spec fn toggle_task_reply(outcome: ProcessOutcome, enable: bool) -> (bool, Seq<char>) {
    match outcome {
        ProcessOutcome::Succeeded => (true, if enable { "Task enabled"@ } else { "Task disabled"@ }),
        ProcessOutcome::Failed(err) => (false, err@),
        ProcessOutcome::NotStarted(e) => (false, "Failed: "@ + e@),
    }
}

/// The answer to enabling or disabling a scheduled task.
pub fn task_toggled_reply(outcome: &ProcessOutcome, enable: bool) -> (r: (bool, String))
    ensures
        (r.0, r.1@) == toggle_task_reply(*outcome, enable),
{
    match outcome {
        ProcessOutcome::Succeeded => (true, if enable { owned("Task enabled") } else { owned("Task disabled") }),
        ProcessOutcome::Failed(err) => (false, owned(err.as_str())),
        ProcessOutcome::NotStarted(e) => {
            let mut m = owned("Failed: ");
            push_str(&mut m, e.as_str());
            (false, m)
        },
    }
}

/// The answer to starting a scheduled task.
pub open spec fn run_task_reply(outcome: ProcessOutcome) -> (bool, Seq<char>) {
    match outcome {
        ProcessOutcome::Succeeded => (true, "Task started"@),
        ProcessOutcome::Failed(err) => (false, err@),
        ProcessOutcome::NotStarted(e) => (false, "Failed: "@ + e@),
    }
}

/// The answer to starting a scheduled task.
pub fn task_started_reply(outcome: &ProcessOutcome) -> (r: (bool, String))
    ensures
        (r.0, r.1@) == run_task_reply(*outcome),
{
    match outcome {
        ProcessOutcome::Succeeded => (true, owned("Task started")),
        ProcessOutcome::Failed(err) => (false, owned(err.as_str())),
        ProcessOutcome::NotStarted(e) => {
            let mut m = owned("Failed: ");
            push_str(&mut m, e.as_str());
            (false, m)
        },
    }
}

/// The answer to exporting a registry key to `backup_path`.
pub open spec fn backup_reply(outcome: ProcessOutcome, backup_path: Seq<char>) -> (bool, Seq<char>) {
    match outcome {
        ProcessOutcome::Succeeded => (true, "Backup saved to "@ + backup_path),
        ProcessOutcome::Failed(err) => (false, err@),
        ProcessOutcome::NotStarted(e) => (false, "Failed to backup: "@ + e@),
    }
}

/// The answer to exporting a registry key to `backup_path`.
pub fn registry_backup_reply(outcome: &ProcessOutcome, backup_path: &str) -> (r: (bool, String))
    ensures
        (r.0, r.1@) == backup_reply(*outcome, backup_path@),
{
    match outcome {
        ProcessOutcome::Succeeded => {
            let mut m = owned("Backup saved to ");
            push_str(&mut m, backup_path);
            (true, m)
        },
        ProcessOutcome::Failed(err) => (false, owned(err.as_str())),
        ProcessOutcome::NotStarted(e) => {
            let mut m = owned("Failed to backup: ");
            push_str(&mut m, e.as_str());
            (false, m)
        },
    }
}

/// The answer to enabling (`enable`) or disabling the startup entry `name`.
pub open spec fn startup_toggle_reply(outcome: ProcessOutcome, name: Seq<char>, enable: bool) -> (bool, Seq<char>) {
    match outcome {
        ProcessOutcome::Succeeded => (true, "'"@ + name + "' "@ + if enable { "enabled"@ } else { "disabled"@ }),
        ProcessOutcome::Failed(err) => (false, "Failed to toggle '"@ + name + "': "@ + err@),
        ProcessOutcome::NotStarted(e) => (false, "Error: "@ + e@),
    }
}

/// The answer to enabling or disabling the startup entry `name`.
pub fn startup_app_reply(outcome: &ProcessOutcome, name: &str, enable: bool) -> (r: (bool, String))
    ensures
        (r.0, r.1@) == startup_toggle_reply(*outcome, name@, enable),
{
    match outcome {
        ProcessOutcome::Succeeded => {
            let mut m = owned("'");
            push_str(&mut m, name);
            push_str(&mut m, "' ");
            push_str(&mut m, if enable { "enabled" } else { "disabled" });
            (true, m)
        },
        ProcessOutcome::Failed(err) => {
            let mut m = owned("Failed to toggle '");
            push_str(&mut m, name);
            push_str(&mut m, "': ");
            push_str(&mut m, err.as_str());
            (false, m)
        },
        ProcessOutcome::NotStarted(e) => {
            let mut m = owned("Error: ");
            push_str(&mut m, e.as_str());
            (false, m)
        },
    }
}

/// The answer to writing a file at `path`: `None` when the write succeeded,
/// else the error, as text.
pub open spec fn save_reply(write_error: Option<Seq<char>>, path: Seq<char>) -> (bool, Seq<char>) {
    match write_error {
        None => (true, "File saved: "@ + path),
        Some(e) => (false, "Failed to save: "@ + e),
    }
}

/// The answer to saving an edited file, or a file uploaded to this machine, at `path`.
pub fn file_saved_reply(write_error: Option<&str>, path: &str) -> (r: (bool, String))
    ensures
        (r.0, r.1@) == save_reply(match write_error { Some(e) => Some(e@), None => None }, path@),
{
    match write_error {
        None => {
            let mut m = owned("File saved: ");
            push_str(&mut m, path);
            (true, m)
        },
        Some(e) => {
            let mut m = owned("Failed to save: ");
            push_str(&mut m, e);
            (false, m)
        },
    }
}

/// The message after a file that arrived in chunks was written to `save_path`
/// (`size` bytes), or failed to be.
pub open spec fn transfer_saved_reply(write_error: Option<Seq<char>>, save_path: Seq<char>, size: nat) -> (bool, Seq<char>) {
    match write_error {
        None => (true, "Saved to "@ + save_path + " ("@ + decimal(size) + " bytes)"@),
        Some(e) => (false, "Write failed: "@ + e),
    }
}

/// The message after a file that arrived in chunks was written, or failed to be.
pub fn transfer_result_reply(write_error: Option<&str>, save_path: &str, size: u64) -> (r: (bool, String))
    ensures
        (r.0, r.1@) == transfer_saved_reply(match write_error { Some(e) => Some(e@), None => None }, save_path@, size as nat),
{
    match write_error {
        None => {
            let mut m = owned("Saved to ");
            push_str(&mut m, save_path);
            push_str(&mut m, " (");
            push_decimal(&mut m, size);
            push_str(&mut m, " bytes)");
            (true, m)
        },
        Some(e) => {
            let mut m = owned("Write failed: ");
            push_str(&mut m, e);
            (false, m)
        },
    }
}

/// What one registry edit that did not apply adds to the summary; `None` for one that did.
pub open spec fn edit_failure(outcome: ProcessOutcome) -> Option<Seq<char>> {
    match outcome {
        ProcessOutcome::Succeeded => None,
        ProcessOutcome::Failed(err) => Some("Failed: "@ + err@),
        ProcessOutcome::NotStarted(e) => Some("Error: "@ + e@),
    }
}

/// The pieces of `parts` with `sep` between each two.
pub open spec fn join(parts: Seq<Seq<char>>, sep: Seq<char>) -> Seq<char>
    decreases parts.len(),
{
    if parts.len() == 0 {
        Seq::empty()
    } else if parts.len() == 1 {
        parts[0]
    } else {
        join(parts.drop_last(), sep) + sep + parts.last()
    }
}

/// The messages of the failed edits among `outcomes`, in order.
pub open spec fn edit_failures(outcomes: Seq<ProcessOutcome>) -> Seq<Seq<char>>
    decreases outcomes.len(),
{
    if outcomes.len() == 0 {
        Seq::empty()
    } else {
        let rest = edit_failures(outcomes.drop_last());
        match edit_failure(outcomes.last()) {
            Some(m) => rest.push(m),
            None => rest,
        }
    }
}

/// The answer to committing registry edits, given how each one's command
/// ended: success only when every edit applied.
pub open spec fn edits_reply(outcomes: Seq<ProcessOutcome>) -> (bool, Seq<char>) {
    let failures = edit_failures(outcomes);
    if failures.len() == 0 {
        (true, "All "@ + decimal(outcomes.len()) + " edit(s) applied successfully"@)
    } else {
        (false, join(failures, "; "@))
    }
}

/// The answer to committing registry edits, given how each one's command ended.
pub fn registry_edits_reply(outcomes: &Vec<ProcessOutcome>) -> (r: (bool, String))
    ensures
        (r.0, r.1@) == edits_reply(outcomes@),
{
    let mut failures: Vec<String> = Vec::new();
    let mut i: usize = 0;
    while i < outcomes.len()
        invariant
            i <= outcomes@.len(),
            failures@.map_values(|m: String| m@) == edit_failures(outcomes@.subrange(0, i as int)),
        decreases outcomes@.len() - i,
    {
        proof {
            assert(outcomes@.subrange(0, i + 1).drop_last() =~= outcomes@.subrange(0, i as int));
        }
        match &outcomes[i] {
            ProcessOutcome::Succeeded => {},
            ProcessOutcome::Failed(err) => {
                let mut m = owned("Failed: ");
                push_str(&mut m, err.as_str());
                failures.push(m);
            },
            ProcessOutcome::NotStarted(e) => {
                let mut m = owned("Error: ");
                push_str(&mut m, e.as_str());
                failures.push(m);
            },
        }
        i = i + 1;
        proof {
            assert(failures@.map_values(|m: String| m@) =~= edit_failures(outcomes@.subrange(0, i as int)));
        }
    }
    proof {
        assert(outcomes@.subrange(0, i as int) =~= outcomes@);
    }
    if failures.len() == 0 {
        let mut m = owned("All ");
        push_decimal(&mut m, outcomes.len() as u64);
        push_str(&mut m, " edit(s) applied successfully");
        (true, m)
    } else {
        let mut m = String::new();
        let mut k: usize = 0;
        while k < failures.len()
            invariant
                0 < failures@.len(),
                k <= failures@.len(),
                k == 0 ==> m@ == Seq::<char>::empty(),
                k > 0 ==> m@ == join(failures@.map_values(|m: String| m@).subrange(0, k as int), "; "@),
            decreases failures@.len() - k,
        {
            let ghost parts = failures@.map_values(|m: String| m@);
            if k > 0 {
                push_str(&mut m, "; ");
            }
            push_str(&mut m, failures[k].as_str());
            k = k + 1;
            proof {
                assert(parts.subrange(0, k as int).drop_last() =~= parts.subrange(0, k - 1));
                if k == 1 {
                    assert(m@ =~= parts.subrange(0, 1)[0]);
                }
            }
        }
        proof {
            assert(failures@.map_values(|m: String| m@).subrange(0, k as int) =~= failures@.map_values(|m: String| m@));
        }
        (false, m)
    }
}

/// The file a registry key is exported to: the key's path with its slashes
/// turned into underscores, then the time of the export.
pub open spec fn backup_file_name(path: Seq<char>, timestamp: Seq<char>) -> Seq<char> {
    "reg_backup_"@ + replace_all(replace_all(path, "\\"@, "_"@), "/"@, "_"@) + "_"@ + timestamp + ".reg"@
}

/// The file a registry key is exported to, for an export made at `timestamp`.
pub fn registry_backup_file_name(path: &str, timestamp: &str) -> (s: String)
    ensures
        s@ == backup_file_name(path@, timestamp@),
{
    proof {
        reveal_strlit("\\");
        reveal_strlit("/");
    }
    let a = replace(path, "\\", "_");
    let b = replace(a.as_str(), "/", "_");
    let mut s = owned("reg_backup_");
    push_str(&mut s, b.as_str());
    push_str(&mut s, "_");
    push_str(&mut s, timestamp);
    push_str(&mut s, ".reg");
    s
}

/// The extension a custom script named `name` is saved with: a batch file
/// when its name says so, else PowerShell.
pub open spec fn custom_script_ext(name: Seq<char>) -> Seq<char> {
    if has_suffix(name, ".bat"@) || has_suffix(name, ".cmd"@) { "bat"@ } else { "ps1"@ }
}

/// The extension a custom script named `name` is saved with before it runs.
pub fn custom_script_extension(name: &str) -> (e: &'static str)
    ensures
        e@ == custom_script_ext(name@),
{
    if ends_with(name, ".bat") || ends_with(name, ".cmd") { "bat" } else { "ps1" }
}

/// What follows the last `.` of `s`; all of `s` when it has none.
pub open spec fn last_segment(s: Seq<char>) -> Seq<char>
    decreases s.len(),
{
    if s.len() == 0 {
        s
    } else if s.last() == '.' {
        Seq::empty()
    } else {
        last_segment(s.drop_last()).push(s.last())
    }
}

/// The extension of a script file, as the console reads it: what follows the
/// last `.`, in lower case.
pub open spec fn script_ext(filename: Seq<char>) -> Seq<char> {
    lowercase(last_segment(filename))
}

/// How a script sent as text is run.
pub enum ScriptKind {
    /// Through PowerShell.
    PowerShell,
    /// Through `cmd`.
    Batch,
    /// Not at all; the extension it has.
    Unsupported(String),
}

/// How the script `filename` is run: by its extension, `ps1` through
/// PowerShell, `bat` and `cmd` through `cmd`, anything else not at all.
pub fn script_kind(filename: &str) -> (k: ScriptKind)
    ensures
        match k {
            ScriptKind::PowerShell => script_ext(filename@) == "ps1"@,
            ScriptKind::Batch => script_ext(filename@) == "bat"@ || script_ext(filename@) == "cmd"@,
            ScriptKind::Unsupported(e) => e@ == script_ext(filename@) && e@ != "ps1"@ && e@ != "bat"@
                && e@ != "cmd"@,
        },
{
    let chars = crate::text::chars_of(filename);
    let mut start: usize = chars.len();
    proof {
        assert(filename@.subrange(0, start as int) =~= filename@);
        assert(filename@.subrange(start as int, filename@.len() as int) =~= Seq::<char>::empty());
        assert(last_segment(filename@) =~= last_segment(filename@) + Seq::<char>::empty());
    }
    while start > 0 && chars[start - 1] != '.'
        invariant
            chars@ == filename@,
            start <= chars@.len(),
            last_segment(filename@) == last_segment(filename@.subrange(0, start as int))
                + filename@.subrange(start as int, filename@.len() as int),
        decreases start,
    {
        proof {
            let pre = filename@.subrange(0, start as int);
            assert(pre.drop_last() =~= filename@.subrange(0, start - 1));
            assert(filename@.subrange(start - 1, filename@.len() as int) =~= seq![pre.last()]
                + filename@.subrange(start as int, filename@.len() as int));
        }
        start = start - 1;
    }
    proof {
        let pre = filename@.subrange(0, start as int);
        if start > 0 {
            assert(pre.last() == '.');
        }
        assert(last_segment(pre) =~= Seq::<char>::empty());
    }
    let seg = filename.substring_char(start, chars.len());
    let ext = to_lowercase(seg);
    proof {
        assert(last_segment(filename@) =~= seg@);
    }
    kind_of_extension(ext)
}

/// How a script whose extension, in lower case, is `ext` is run: `ps1`
/// through PowerShell, `bat` and `cmd` through `cmd`, anything else not at
/// all.
pub fn kind_of_extension(ext: String) -> (k: ScriptKind)
    ensures
        match k {
            ScriptKind::PowerShell => ext@ == "ps1"@,
            ScriptKind::Batch => ext@ == "bat"@ || ext@ == "cmd"@,
            ScriptKind::Unsupported(e) => e@ == ext@ && e@ != "ps1"@ && e@ != "bat"@ && e@ != "cmd"@,
        },
{
    if crate::text::str_eq(ext.as_str(), "ps1") {
        ScriptKind::PowerShell
    } else if crate::text::str_eq(ext.as_str(), "bat") || crate::text::str_eq(ext.as_str(), "cmd") {
        ScriptKind::Batch
    } else {
        ScriptKind::Unsupported(ext)
    }
}


/// How a script the technician sent ended.
pub enum ScriptEnd {
    /// The script could not be written to a file first; the error, as text.
    WriteFailed(String),
    /// It ran: what it wrote, and whether it exited with success.
    Ran { stdout: String, stderr: String, success: bool },
    /// It could not be started; the error, as text.
    NotStarted(String),
}

/// The log lines a finished custom script adds after the ones announcing it,
/// and whether it counts as a success.
pub open spec fn custom_script_report(end: ScriptEnd) -> (Seq<Seq<char>>, bool) {
    match end {
        ScriptEnd::WriteFailed(e) => (seq!["Failed to write script: "@ + e@], false),
        ScriptEnd::Ran { stdout, stderr, success } => (
            lines_of(stdout@) + lines_of(stderr@).map_values(|l: Seq<char>| "[stderr] "@ + l),
            success,
        ),
        ScriptEnd::NotStarted(e) => (seq!["Execution error: "@ + e@], false),
    }
}

/// The log lines announcing the script `name` and, for one the console has
/// no text for, saying so; a script without text fails.
pub open spec fn script_intro(name: Seq<char>, has_content: bool) -> Seq<Seq<char>> {
    if has_content {
        seq!["Starting: "@ + name, "Running custom script: "@ + name]
    } else {
        seq!["Starting: "@ + name, "'"@ + name + "' not yet implemented for remote execution in egui mode"@]
    }
}

/// The log lines announcing the script `name`.
pub fn script_intro_logs(name: &str, has_content: bool) -> (logs: Vec<String>)
    ensures
        crate::remote::console::views(logs@) == script_intro(name@, has_content),
{
    let mut first = owned("Starting: ");
    push_str(&mut first, name);
    let second = if has_content {
        let mut m = owned("Running custom script: ");
        push_str(&mut m, name);
        m
    } else {
        let mut m = owned("'");
        push_str(&mut m, name);
        push_str(&mut m, "' not yet implemented for remote execution in egui mode");
        m
    };
    let mut logs: Vec<String> = Vec::new();
    logs.push(first);
    logs.push(second);
    proof {
        assert(crate::remote::console::views(logs@) =~= script_intro(name@, has_content));
    }
    logs
}

/// The log lines a finished custom script adds, and whether it succeeded.
pub fn custom_script_logs(end: &ScriptEnd) -> (r: (Vec<String>, bool))
    ensures
        (crate::remote::console::views(r.0@), r.1) == custom_script_report(*end),
{
    match end {
        ScriptEnd::WriteFailed(e) => {
            let mut m = owned("Failed to write script: ");
            push_str(&mut m, e.as_str());
            let mut logs: Vec<String> = Vec::new();
            logs.push(m);
            proof {
                assert(crate::remote::console::views(logs@) =~= seq!["Failed to write script: "@ + e@]);
            }
            (logs, false)
        },
        ScriptEnd::Ran { stdout, stderr, success } => {
            let mut logs = split_lines(stdout.as_str());
            let errs = split_lines(stderr.as_str());
            let ghost out_v = crate::remote::console::views(logs@);
            let ghost err_v = crate::remote::console::views(errs@);
            let mut k: usize = 0;
            while k < errs.len()
                invariant
                    k <= errs@.len(),
                    err_v == crate::remote::console::views(errs@),
                    crate::remote::console::views(logs@)
                        == out_v + err_v.subrange(0, k as int).map_values(|l: Seq<char>| "[stderr] "@ + l),
                decreases errs@.len() - k,
            {
                let ghost before = logs@;
                let mut m = owned("[stderr] ");
                push_str(&mut m, errs[k].as_str());
                let ghost mv = m@;
                logs.push(m);
                k = k + 1;
                proof {
                    assert(mv == "[stderr] "@ + err_v[k - 1]);
                    assert(crate::remote::console::views(logs@) =~= crate::remote::console::views(before).push(mv));
                    assert(err_v.subrange(0, k as int).map_values(|l: Seq<char>| "[stderr] "@ + l)
                        =~= err_v.subrange(0, k - 1).map_values(|l: Seq<char>| "[stderr] "@ + l).push(mv));
                    assert(crate::remote::console::views(logs@)
                        =~= out_v + err_v.subrange(0, k as int).map_values(|l: Seq<char>| "[stderr] "@ + l));
                }
            }
            proof {
                assert(err_v.subrange(0, k as int) =~= err_v);
            }
            (logs, *success)
        },
        ScriptEnd::NotStarted(e) => {
            let mut m = owned("Execution error: ");
            push_str(&mut m, e.as_str());
            let mut logs: Vec<String> = Vec::new();
            logs.push(m);
            proof {
                assert(crate::remote::console::views(logs@) =~= seq!["Execution error: "@ + e@]);
            }
            (logs, false)
        },
    }
}

/// The temporary file a custom script is written to before it runs;
/// `unique` is a fresh identifier.
pub fn custom_script_file_name(unique: &str, ext: &str) -> (s: String)
    ensures
        s@ == "mastertech_custom_"@ + unique@ + "."@ + ext@,
{
    let mut s = owned("mastertech_custom_");
    push_str(&mut s, unique);
    push_str(&mut s, ".");
    push_str(&mut s, ext);
    s
}

/// How a script sent as text ended: it ran (what it wrote, and its exit
/// status as text), or it could not be started.
pub enum ContentEnd {
    Ran { stdout: String, stderr: String, status: String },
    NotStarted(String),
}

/// The log lines a script sent as text produces, after the one announcing it.
pub open spec fn content_report(filename: Seq<char>, end: ContentEnd) -> Seq<Seq<char>> {
    match end {
        ContentEnd::Ran { stdout, stderr, status } =>
            (if stdout@.len() > 0 { seq![stdout@] } else { Seq::empty() })
            + (if stderr@.len() > 0 { seq!["[stderr] "@ + stderr@] } else { Seq::empty() })
            + seq!["Script "@ + filename + " exited with code: "@ + status@],
        ContentEnd::NotStarted(e) => seq!["Failed to run script "@ + filename + ": "@ + e@],
    }
}

/// The log lines a script sent as text produces once it has run.
pub fn script_content_logs(filename: &str, end: &ContentEnd) -> (logs: Vec<String>)
    ensures
        crate::remote::console::views(logs@) == content_report(filename@, *end),
{
    let mut logs: Vec<String> = Vec::new();
    match end {
        ContentEnd::Ran { stdout, stderr, status } => {
            if stdout.as_str().unicode_len() > 0 {
                logs.push(owned(stdout.as_str()));
            }
            if stderr.as_str().unicode_len() > 0 {
                let mut m = owned("[stderr] ");
                push_str(&mut m, stderr.as_str());
                logs.push(m);
            }
            let mut m = owned("Script ");
            push_str(&mut m, filename);
            push_str(&mut m, " exited with code: ");
            push_str(&mut m, status.as_str());
            logs.push(m);
        },
        ContentEnd::NotStarted(e) => {
            let mut m = owned("Failed to run script ");
            push_str(&mut m, filename);
            push_str(&mut m, ": ");
            push_str(&mut m, e.as_str());
            logs.push(m);
        },
    }
    proof {
        assert(crate::remote::console::views(logs@) =~= content_report(filename@, *end));
    }
    logs
}

/// The log line for a script whose type the console does not run.
pub fn unsupported_script_log(ext: &str) -> (s: String)
    ensures
        s@ == "Unsupported script type: ."@ + ext@,
{
    let mut s = owned("Unsupported script type: .");
    push_str(&mut s, ext);
    s
}

/// Largest file, in bytes, the console sends to the technician.
pub const MAX_DOWNLOAD_BYTES: u64 = 104857600;

/// Largest file, in bytes, the console shows as a preview.
pub const MAX_PREVIEW_BYTES: u64 = 5242880;

/// Size of the chunks a download is cut into.
pub const DOWNLOAD_CHUNK_BYTES: usize = 4194304;

/// Whether a file of `len` bytes may be downloaded.
pub fn download_allowed(len: u64) -> (b: bool)
    ensures
        b == (len <= MAX_DOWNLOAD_BYTES),
{
    len <= MAX_DOWNLOAD_BYTES
}

/// Whether a file of `len` bytes may be previewed.
pub fn preview_allowed(len: u64) -> (b: bool)
    ensures
        b == (len <= MAX_PREVIEW_BYTES),
{
    len <= MAX_PREVIEW_BYTES
}

/// The number of chunks a download of `len` bytes is sent in: one for a file
/// that fits in a chunk (an empty one too), else as many full chunks as fit
/// and one more for the rest.
pub open spec fn chunk_count(len: nat) -> nat {
    if len <= DOWNLOAD_CHUNK_BYTES {
        1
    } else {
        ((len + DOWNLOAD_CHUNK_BYTES - 1) / (DOWNLOAD_CHUNK_BYTES as int)) as nat
    }
}

/// The chunks of a download of `len` bytes: for each, the byte range it holds
/// and whether it is the last.
pub fn download_chunks(len: usize) -> (chunks: Vec<(usize, usize, bool)>)
    ensures
        chunks@.len() == chunk_count(len as nat),
        forall|i: int| #![trigger chunks@[i]] 0 <= i < chunks@.len() ==> {
            &&& chunks@[i].0 == i * DOWNLOAD_CHUNK_BYTES
            &&& chunks@[i].1 == if (i + 1) * DOWNLOAD_CHUNK_BYTES < len { (i + 1) * DOWNLOAD_CHUNK_BYTES } else { len as int }
            &&& chunks@[i].2 == (i == chunks@.len() - 1)
        },
{
    let mut chunks: Vec<(usize, usize, bool)> = Vec::new();
    if len <= DOWNLOAD_CHUNK_BYTES {
        chunks.push((0, len, true));
        return chunks;
    }
    let mut start: usize = 0;
    while start < len
        invariant
            len > DOWNLOAD_CHUNK_BYTES,
            start <= len,
            start < len ==> start == chunks@.len() * DOWNLOAD_CHUNK_BYTES,
            start == len ==> chunks@.len() > 0 && chunks@.len() * DOWNLOAD_CHUNK_BYTES >= len
                && (chunks@.len() - 1) * DOWNLOAD_CHUNK_BYTES < len,
            forall|i: int| #![trigger chunks@[i]] 0 <= i < chunks@.len() ==> {
                &&& chunks@[i].0 == i * DOWNLOAD_CHUNK_BYTES
                &&& chunks@[i].1 == if (i + 1) * DOWNLOAD_CHUNK_BYTES < len { (i + 1) * DOWNLOAD_CHUNK_BYTES } else { len as int }
                &&& chunks@[i].2 == ((i + 1) * DOWNLOAD_CHUNK_BYTES >= len)
            },
        decreases len - start,
    {
        let end = if len - start > DOWNLOAD_CHUNK_BYTES { start + DOWNLOAD_CHUNK_BYTES } else { len };
        let last = end == len;
        chunks.push((start, end, last));
        start = end;
    }
    proof {
        let n = chunks@.len() as int;
        assert(n == (len + DOWNLOAD_CHUNK_BYTES - 1) / (DOWNLOAD_CHUNK_BYTES as int)) by (nonlinear_arith)
            requires
                n * DOWNLOAD_CHUNK_BYTES >= len,
                (n - 1) * DOWNLOAD_CHUNK_BYTES < len,
                len > 0;
        assert forall|i: int| 0 <= i < n implies #[trigger] chunks@[i].2 == (i == n - 1) by {
            if i < n - 1 {
                assert((i + 1) * DOWNLOAD_CHUNK_BYTES <= (n - 1) * DOWNLOAD_CHUNK_BYTES) by (nonlinear_arith)
                    requires i + 1 <= n - 1;
            }
        }
    }
    chunks
}

/// How a path the technician asked to delete is removed.
#[derive(PartialEq, Eq, Structural, Clone, Copy, Debug)]
pub enum Removal {
    /// The directory and everything in it.
    DirectoryTree,
    /// The file alone.
    File,
}

/// How the console removes a path it was asked to delete: by the test the
/// console has always made, a path that is not a directory is removed as a
/// directory tree, and a directory as a single file; an ordinary file or
/// directory is then refused by the system, and the reply is the error.
pub fn removal_for(is_dir: bool) -> (r: Removal)
    ensures
        r == if is_dir { Removal::File } else { Removal::DirectoryTree },
{
    if !is_dir { Removal::DirectoryTree } else { Removal::File }
}

/// The reply once a removal has ended: which kind of path went, or the
/// error, as its debug text gives it.
pub fn removal_reply(removal: Removal, error: Option<&str>) -> (s: String)
    ensures
        s@ == match error {
            Some(e) => "Error removing path: "@ + e@,
            None => match removal {
                Removal::DirectoryTree => "Removed Directory"@,
                Removal::File => "Removed Path"@,
            },
        },
{
    match error {
        Some(e) => {
            let mut s = owned("Error removing path: ");
            push_str(&mut s, e);
            s
        },
        None => match removal {
            Removal::DirectoryTree => owned("Removed Directory"),
            Removal::File => owned("Removed Path"),
        },
    }
}

} // verus!
