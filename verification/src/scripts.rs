//! The Scripts tab: the catalog search, the queue's controls and decisions,
//! the run log and its export, and the answers given to scripts requested
//! over MCP. The catalog and the workers that run scripts stay outside.
use vstd::prelude::*;
use crate::text::{owned, push_str, push_decimal, decimal, seq_contains, str_contains, str_eq, lowercase,
    to_lowercase};
use crate::remote::replies::join;

pub mod queue;
pub mod panels;

verus! {

/// What the details card is showing.
pub enum ScriptFocus {
    /// A script of the catalog, by name.
    Catalog(String),
    /// A queue entry, by its run token.
    Queued(u64),
}

/// The severity of a log entry.
#[derive(PartialEq, Eq, Structural, Clone, Copy, Debug)]
pub enum LogLevel {
    Info,
    Success,
    Warning,
    Error,
}

/// The status of a queue entry.
#[derive(PartialEq, Eq, Structural, Clone, Copy, Debug)]
pub enum ScriptStatus {
    Pending,
    Running,
    Completed,
    Failed,
    Skipped,
}

/// What a finished script reported.
#[derive(PartialEq, Eq, Structural, Clone, Copy, Debug)]
pub enum ScriptResult {
    Success,
    Warning,
    Error,
    Skipped,
}

/// What a script of the catalog needs before it can run.
#[derive(PartialEq, Eq, Structural, Clone, Copy, Debug)]
pub enum Requirement {
    ServiceNumber,
    CustomerEmail,
    Internet,
    Gpu,
}

/// Whether a script of the catalog calls for a reboot.
#[derive(PartialEq, Eq, Structural, Clone, Copy, Debug)]
pub enum RebootHint {
    Never,
    Maybe,
    Always,
}

/// Budget, in seconds, of a script the catalog gives no time limit.
pub const QUEUE_SCRIPT_TIMEOUT_SECS: u64 = 3600;

/// A time limit as the details card reads it, in the largest unit in which
/// it is whole: hours, else minutes, else seconds.
pub open spec fn budget_text(secs: nat) -> Seq<char> {
    if secs >= 3600 && secs % 3600 == 0 {
        "up to "@ + decimal(secs / 3600) + " h"@
    } else if secs >= 60 && secs % 60 == 0 {
        "up to "@ + decimal(secs / 60) + " min"@
    } else {
        "up to "@ + decimal(secs) + " s"@
    }
}

/// A script's time limit, as the details card reads it.
pub fn format_budget(secs: u64) -> (s: String)
    ensures
        s@ == budget_text(secs as nat),
{
    let mut s = owned("up to ");
    if secs >= 3600 && secs % 3600 == 0 {
        push_decimal(&mut s, secs / 3600);
        push_str(&mut s, " h");
    } else if secs >= 60 && secs % 60 == 0 {
        push_decimal(&mut s, secs / 60);
        push_str(&mut s, " min");
    } else {
        push_decimal(&mut s, secs);
        push_str(&mut s, " s");
    }
    s
}

/// The budget a script gets: its own from the catalog, else the default.
pub fn script_budget(catalog_timeout_secs: Option<u64>) -> (secs: u64)
    ensures
        secs == match catalog_timeout_secs {
            Some(t) => t,
            None => QUEUE_SCRIPT_TIMEOUT_SECS,
        },
{
    match catalog_timeout_secs {
        Some(t) => t,
        None => QUEUE_SCRIPT_TIMEOUT_SECS,
    }
}

/// Every one of `terms` occurs in `hay`; no term at all is always found.
pub open spec fn all_terms_in(hay: Seq<char>, terms: Seq<Seq<char>>) -> bool {
    terms.len() == 0 || forall|i: int| 0 <= i < terms.len() ==> seq_contains(hay, #[trigger] terms[i])
}

/// A script matches a search when every term occurs in its name and
/// description, read in lower case; no term at all matches everything.
pub open spec fn matches_search(name: Seq<char>, description: Seq<char>, terms: Seq<Seq<char>>) -> bool {
    all_terms_in(lowercase(name + " "@ + description), terms)
}

/// Whether every one of the search `terms` occurs in `hay`, the script's
/// name and description already read in lower case.
pub fn terms_found(hay: &str, terms: &Vec<String>) -> (b: bool)
    ensures
        b == all_terms_in(hay@, terms@.map_values(|t: String| t@)),
{
    let ghost tv = terms@.map_values(|t: String| t@);
    let mut i: usize = 0;
    while i < terms.len()
        invariant
            i <= terms@.len(),
            tv == terms@.map_values(|t: String| t@),
            forall|k: int| 0 <= k < i ==> seq_contains(hay@, #[trigger] tv[k]),
        decreases terms@.len() - i,
    {
        if !str_contains(hay, terms[i].as_str()) {
            assert(!seq_contains(hay@, tv[i as int]));
            return false;
        }
        i = i + 1;
    }
    true
}

/// Whether the script `name`, described by `description`, matches the search `terms`.
pub fn matches_terms(name: &str, description: &str, terms: &Vec<String>) -> (b: bool)
    ensures
        b == matches_search(name@, description@, terms@.map_values(|t: String| t@)),
{
    if terms.len() == 0 {
        return true;
    }
    let mut both = owned(name);
    push_str(&mut both, " ");
    push_str(&mut both, description);
    let hay = to_lowercase(both.as_str());
    terms_found(hay.as_str(), terms)
}

/// The label of a log level in the log and its export.
pub open spec fn level_text(level: LogLevel) -> Seq<char> {
    match level {
        LogLevel::Info => "INFO"@,
        LogLevel::Success => "OK"@,
        LogLevel::Warning => "WARN"@,
        LogLevel::Error => "ERR"@,
    }
}

/// The label of a log level.
pub fn level_label(level: LogLevel) -> (s: &'static str)
    ensures
        s@ == level_text(level),
{
    match level {
        LogLevel::Info => "INFO",
        LogLevel::Success => "OK",
        LogLevel::Warning => "WARN",
        LogLevel::Error => "ERR",
    }
}

/// The badge of a result.
pub open spec fn result_text(result: ScriptResult) -> Seq<char> {
    match result {
        ScriptResult::Success => "PASS"@,
        ScriptResult::Warning => "WARN"@,
        ScriptResult::Error => "FAIL"@,
        ScriptResult::Skipped => "SKIPPED"@,
    }
}

/// The badge of a result.
pub fn result_badge(result: ScriptResult) -> (s: &'static str)
    ensures
        s@ == result_text(result),
{
    match result {
        ScriptResult::Success => "PASS",
        ScriptResult::Warning => "WARN",
        ScriptResult::Error => "FAIL",
        ScriptResult::Skipped => "SKIPPED",
    }
}

/// The badge of a queue entry: its result once it has one, else its status.
pub open spec fn status_text(status: ScriptStatus, result: Option<ScriptResult>) -> Seq<char> {
    match result {
        Some(r) => result_text(r),
        None => match status {
            ScriptStatus::Pending => "QUEUED"@,
            ScriptStatus::Running => "RUNNING"@,
            ScriptStatus::Completed => "DONE"@,
            ScriptStatus::Failed => "FAILED"@,
            ScriptStatus::Skipped => "SKIPPED"@,
        },
    }
}

/// The badge of a queue entry.
pub fn status_badge(status: ScriptStatus, result: Option<ScriptResult>) -> (s: &'static str)
    ensures
        s@ == status_text(status, result),
{
    match result {
        Some(r) => result_badge(r),
        None => match status {
            ScriptStatus::Pending => "QUEUED",
            ScriptStatus::Running => "RUNNING",
            ScriptStatus::Completed => "DONE",
            ScriptStatus::Failed => "FAILED",
            ScriptStatus::Skipped => "SKIPPED",
        },
    }
}

/// The status an entry that was running when the queue was stopped settles
/// at: a success or a warning completes it, a skip skips it, an error or no
/// report at all fails it.
pub open spec fn settled(result: Option<ScriptResult>) -> ScriptStatus {
    match result {
        Some(ScriptResult::Success) => ScriptStatus::Completed,
        Some(ScriptResult::Warning) => ScriptStatus::Completed,
        Some(ScriptResult::Skipped) => ScriptStatus::Skipped,
        _ => ScriptStatus::Failed,
    }
}

/// The status a stopped entry settles at, from what it reported.
pub fn settled_status(result: Option<ScriptResult>) -> (s: ScriptStatus)
    ensures
        s == settled(result),
{
    match result {
        Some(ScriptResult::Success) => ScriptStatus::Completed,
        Some(ScriptResult::Warning) => ScriptStatus::Completed,
        Some(ScriptResult::Skipped) => ScriptStatus::Skipped,
        _ => ScriptStatus::Failed,
    }
}

/// The label of a requirement.
pub open spec fn requirement_text(r: Requirement) -> Seq<char> {
    match r {
        Requirement::ServiceNumber => "Service number"@,
        Requirement::CustomerEmail => "Customer email"@,
        Requirement::Internet => "Internet"@,
        Requirement::Gpu => "GPU"@,
    }
}

/// The label of a requirement.
pub fn requirement_label(r: Requirement) -> (s: &'static str)
    ensures
        s@ == requirement_text(r),
{
    match r {
        Requirement::ServiceNumber => "Service number",
        Requirement::CustomerEmail => "Customer email",
        Requirement::Internet => "Internet",
        Requirement::Gpu => "GPU",
    }
}

/// The "Needs" row of the details card: the requirements' labels, comma separated.
pub fn requirements_text(reqs: &Vec<Requirement>) -> (s: String)
    ensures
        s@ == join(reqs@.map_values(|r: Requirement| requirement_text(r)), ", "@),
{
    let ghost parts = reqs@.map_values(|r: Requirement| requirement_text(r));
    let mut s = String::new();
    let mut k: usize = 0;
    while k < reqs.len()
        invariant
            k <= reqs@.len(),
            parts == reqs@.map_values(|r: Requirement| requirement_text(r)),
            s@ == join(parts.subrange(0, k as int), ", "@),
        decreases reqs@.len() - k,
    {
        if k > 0 {
            push_str(&mut s, ", ");
        }
        push_str(&mut s, requirement_label(reqs[k]));
        k = k + 1;
        proof {
            assert(parts.subrange(0, k as int).drop_last() =~= parts.subrange(0, k - 1));
            if k == 1 {
                assert(s@ =~= parts.subrange(0, 1)[0]);
            }
        }
    }
    proof {
        assert(parts.subrange(0, k as int) =~= parts);
    }
    s
}

/// The "Reboot" row of the details card, if the script ever calls for one.
pub fn reboot_label(hint: RebootHint) -> (s: Option<&'static str>)
    ensures
        match hint {
            RebootHint::Never => s is None,
            RebootHint::Maybe => s is Some && s.unwrap()@ == "Sometimes"@,
            RebootHint::Always => s is Some && s.unwrap()@ == "Always"@,
        },
{
    match hint {
        RebootHint::Never => None,
        RebootHint::Maybe => Some("Sometimes"),
        RebootHint::Always => Some("Always"),
    }
}

/// The "Elevation" row of the details card.
pub fn elevation_label(admin: bool) -> (s: &'static str)
    ensures
        s@ == if admin { "Administrator"@ } else { "Not required"@ },
{
    if admin { "Administrator" } else { "Not required" }
}


/// Why an MCP request for a script is refused: the name is not in the
/// catalog, or the script is a stress test, which MCP may not start.
pub open spec fn mcp_refusal(name: Seq<char>, catalog: Option<bool>) -> Option<Seq<char>> {
    match catalog {
        None => Some("'"@ + name + "' is not in the script catalog"@),
        Some(true) => Some("Unsupported category: StressTests"@),
        Some(false) => None,
    }
}

/// Whether an MCP request may start the script `name`. `catalog` is what the
/// catalog holds under that name: nothing, or an entry and whether it is a
/// stress test.
pub fn mcp_script(name: &str, catalog: Option<bool>) -> (r: Result<(), String>)
    ensures
        match r {
            Ok(()) => mcp_refusal(name@, catalog) is None,
            Err(m) => mcp_refusal(name@, catalog) == Some(m@),
        },
{
    match catalog {
        None => {
            let mut m = owned("'");
            push_str(&mut m, name);
            push_str(&mut m, "' is not in the script catalog");
            Err(m)
        },
        Some(true) => Err(owned("Unsupported category: StressTests")),
        Some(false) => Ok(()),
    }
}

/// The refusal of an MCP data transfer while another one waits.
pub fn transfer_busy_message() -> (s: &'static str)
    ensures
        s@ == "A data transfer is already waiting"@,
{
    "A data transfer is already waiting"
}

/// The answer for an MCP run that outlived its budget of `secs` seconds.
pub fn mcp_timeout_message(name: &str, secs: u64) -> (s: String)
    ensures
        s@ == "Script '"@ + name@ + "' did not finish within "@ + decimal(secs as nat)
            + "s. It may still be running on the host."@,
{
    let mut s = owned("Script '");
    push_str(&mut s, name);
    push_str(&mut s, "' did not finish within ");
    push_decimal(&mut s, secs);
    push_str(&mut s, "s. It may still be running on the host.");
    s
}

/// The answer for an MCP run whose worker went away without a report.
pub fn mcp_stopped_message(name: &str) -> (s: String)
    ensures
        s@ == "Script '"@ + name@ + "' stopped without reporting"@,
{
    let mut s = owned("Script '");
    push_str(&mut s, name);
    push_str(&mut s, "' stopped without reporting");
    s
}

/// One line of the run log; `time` is already written as the log shows it.
pub struct LogLine {
    pub time: String,
    pub level: LogLevel,
    pub script: String,
    pub message: String,
}

/// An MCP run's log as returned with its result: the lines of that script and
/// of MCP itself, each as time, level and message.
pub open spec fn run_log(entries: Seq<LogLine>, script: Seq<char>) -> Seq<Seq<char>>
    decreases entries.len(),
{
    if entries.len() == 0 {
        Seq::empty()
    } else {
        let rest = run_log(entries.drop_last(), script);
        let e = entries.last();
        if e.script@ == script || e.script@ == "MCP"@ {
            rest.push(e.time@ + " ["@ + level_text(e.level) + "] "@ + e.message@)
        } else {
            rest
        }
    }
}

/// The log lines returned with an MCP run of `script`.
pub fn pending_log_lines(entries: &Vec<LogLine>, script: &str) -> (lines: Vec<String>)
    ensures
        lines@.map_values(|l: String| l@) == run_log(entries@, script@),
{
    let mut lines: Vec<String> = Vec::new();
    let mut i: usize = 0;
    while i < entries.len()
        invariant
            i <= entries@.len(),
            lines@.map_values(|l: String| l@) == run_log(entries@.subrange(0, i as int), script@),
        decreases entries@.len() - i,
    {
        proof {
            assert(entries@.subrange(0, i + 1).drop_last() =~= entries@.subrange(0, i as int));
        }
        let e = &entries[i];
        if str_eq(e.script.as_str(), script) || str_eq(e.script.as_str(), "MCP") {
            let mut l = owned(e.time.as_str());
            push_str(&mut l, " [");
            push_str(&mut l, level_label(e.level));
            push_str(&mut l, "] ");
            push_str(&mut l, e.message.as_str());
            lines.push(l);
        }
        i = i + 1;
        proof {
            assert(lines@.map_values(|l: String| l@) =~= run_log(entries@.subrange(0, i as int), script@));
        }
    }
    proof {
        assert(entries@.subrange(0, i as int) =~= entries@);
    }
    lines
}

/// Whether the log filter shows an entry of `level`: no filter shows all.
pub open spec fn shown(filter: Option<LogLevel>, level: LogLevel) -> bool {
    match filter {
        None => true,
        Some(f) => f == level,
    }
}

/// The export of one log line: time, level, script and message.
pub open spec fn export_line(e: LogLine) -> Seq<char> {
    e.time@ + " ["@ + level_text(e.level) + "] ["@ + e.script@ + "] "@ + e.message@
}

/// The exported lines of the entries the filter shows.
pub open spec fn exported(entries: Seq<LogLine>, filter: Option<LogLevel>) -> Seq<Seq<char>>
    decreases entries.len(),
{
    if entries.len() == 0 {
        Seq::empty()
    } else {
        let rest = exported(entries.drop_last(), filter);
        if shown(filter, entries.last().level) {
            rest.push(export_line(entries.last()))
        } else {
            rest
        }
    }
}

/// The text "Copy" puts on the clipboard: the shown log lines, one per line.
pub fn export_log(entries: &Vec<LogLine>, filter: Option<LogLevel>) -> (s: String)
    ensures
        s@ == join(exported(entries@, filter), "\n"@),
{
    let mut s = String::new();
    let mut any = false;
    let mut i: usize = 0;
    while i < entries.len()
        invariant
            i <= entries@.len(),
            any == (exported(entries@.subrange(0, i as int), filter).len() > 0),
            s@ == join(exported(entries@.subrange(0, i as int), filter), "\n"@),
        decreases entries@.len() - i,
    {
        let ghost before = exported(entries@.subrange(0, i as int), filter);
        proof {
            assert(entries@.subrange(0, i + 1).drop_last() =~= entries@.subrange(0, i as int));
        }
        let e = &entries[i];
        let show = match filter {
            None => true,
            Some(f) => f == e.level,
        };
        if show {
            if any {
                push_str(&mut s, "\n");
            }
            push_str(&mut s, e.time.as_str());
            push_str(&mut s, " [");
            push_str(&mut s, level_label(e.level));
            push_str(&mut s, "] [");
            push_str(&mut s, e.script.as_str());
            push_str(&mut s, "] ");
            push_str(&mut s, e.message.as_str());
            any = true;
            proof {
                let now = before.push(export_line(entries@[i as int]));
                assert(now.drop_last() =~= before);
                if before.len() == 0 {
                    assert(s@ =~= export_line(entries@[i as int]));
                } else {
                    assert(s@ =~= join(before, "\n"@) + "\n"@ + export_line(entries@[i as int]));
                }
            }
        }
        i = i + 1;
    }
    proof {
        assert(entries@.subrange(0, i as int) =~= entries@);
    }
    s
}

/// Whether a folder name, read in lower case, is one offered for data
/// transfer: not a default profile, `all users` or `public`.
pub open spec fn lowered_candidate(n: Seq<char>) -> bool {
    !(seq_contains(n, "default"@) || n == "all users"@ || n == "public"@)
}

/// Whether a folder under `Users` is offered for data transfer: not the
/// default profiles, `All Users` or `Public`, whatever their case.
pub open spec fn transfer_candidate(folder: Seq<char>) -> bool {
    lowered_candidate(lowercase(folder))
}

/// Whether the folder name `lowered`, already in lower case, is offered for
/// data transfer.
pub fn candidate_in_lower_case(lowered: &str) -> (b: bool)
    ensures
        b == lowered_candidate(lowered@),
{
    !(str_contains(lowered, "default") || str_eq(lowered, "all users") || str_eq(lowered, "public"))
}

/// Whether the profile folder `folder` is offered for data transfer.
pub fn is_transfer_candidate(folder: &str) -> (b: bool)
    ensures
        b == transfer_candidate(folder@),
{
    let n = to_lowercase(folder);
    candidate_in_lower_case(n.as_str())
}

/// The profiles offered for data transfer, in the order found: for each
/// `(path, folder name, size text)` whose folder is a candidate, its path and
/// size text.
pub open spec fn transfer_candidates(profiles: Seq<(String, String, String)>) -> Seq<(Seq<char>, Seq<char>)>
    decreases profiles.len(),
{
    if profiles.len() == 0 {
        Seq::empty()
    } else {
        let rest = transfer_candidates(profiles.drop_last());
        let p = profiles.last();
        if transfer_candidate(p.1@) { rest.push((p.0@, p.2@)) } else { rest }
    }
}

/// The user profiles offered for data transfer, out of the folders found under
/// each drive's `Users` directory with their sizes already written out.
pub fn get_data_transfer_candidates(profiles: &Vec<(String, String, String)>) -> (r: Vec<(String, String)>)
    ensures
        r@.len() == transfer_candidates(profiles@).len(),
        forall|i: int| 0 <= i < r@.len() ==> (#[trigger] r@[i]).0@ == transfer_candidates(profiles@)[i].0
            && r@[i].1@ == transfer_candidates(profiles@)[i].1,
{
    let mut r: Vec<(String, String)> = Vec::new();
    let mut i: usize = 0;
    while i < profiles.len()
        invariant
            i <= profiles@.len(),
            r@.len() == transfer_candidates(profiles@.subrange(0, i as int)).len(),
            forall|j: int| 0 <= j < r@.len() ==> (#[trigger] r@[j]).0@ == transfer_candidates(profiles@.subrange(0, i as int))[j].0
                && r@[j].1@ == transfer_candidates(profiles@.subrange(0, i as int))[j].1,
        decreases profiles@.len() - i,
    {
        proof {
            assert(profiles@.subrange(0, i + 1).drop_last() =~= profiles@.subrange(0, i as int));
            assert(profiles@.subrange(0, i + 1).last() == profiles@[i as int]);
        }
        let p = &profiles[i];
        if is_transfer_candidate(p.1.as_str()) {
            r.push((p.0.clone(), p.2.clone()));
        }
        i = i + 1;
    }
    proof {
        assert(profiles@.subrange(0, i as int) =~= profiles@);
    }
    r
}

/// The outcome of a data transfer of `total` folders, `failed` of which failed.
pub open spec fn transfer_outcome(total: nat, failed: nat) -> (bool, Seq<char>) {
    if failed == 0 {
        (true, "Transferred "@ + decimal(total) + " folder(s)"@)
    } else {
        (false, decimal(failed) + " of "@ + decimal(total) + " transfers failed"@)
    }
}

/// The outcome of a data transfer: success, and the message logged.
pub fn transfer_summary(total: u64, failed: u64) -> (r: (bool, String))
    ensures
        (r.0, r.1@) == transfer_outcome(total as nat, failed as nat),
{
    if failed == 0 {
        let mut m = owned("Transferred ");
        push_decimal(&mut m, total);
        push_str(&mut m, " folder(s)");
        (true, m)
    } else {
        let mut m = String::new();
        push_decimal(&mut m, failed);
        push_str(&mut m, " of ");
        push_decimal(&mut m, total);
        push_str(&mut m, " transfers failed");
        (false, m)
    }
}

/// The download progress shown after an update: gone once the download is done.
pub fn progress_after(current: u64, total: u64) -> (p: Option<(u64, u64)>)
    ensures
        p == if current >= total { None } else { Some((current, total)) },
{
    if current >= total { None } else { Some((current, total)) }
}

/// Which controls of a queue row are enabled.
pub struct RowControls {
    pub move_up: bool,
    pub move_down: bool,
    pub remove: bool,
}

/// The enabled controls of row `index` of `len` in the queue: nothing moves
/// while the queue runs, and the entry running cannot be removed.
pub fn queue_row_controls(running: bool, index: usize, len: usize, status: ScriptStatus) -> (c: RowControls)
    ensures
        c.move_up == (!running && index > 0),
        c.move_down == (!running && index + 1 < len),
        c.remove == !(running && status == ScriptStatus::Running),
{
    RowControls {
        move_up: !running && index > 0,
        move_down: !running && (index as u128) + 1 < len as u128,
        remove: !(running && status == ScriptStatus::Running),
    }
}

/// The details card after the queue entry `token` is removed: it closes if
/// it showed that entry.
pub fn focus_after_remove(focus: Option<ScriptFocus>, token: u64) -> (f: Option<ScriptFocus>)
    ensures
        f == match focus {
            Some(ScriptFocus::Queued(t)) => if t == token { None } else { focus },
            _ => focus,
        },
{
    match focus {
        Some(ScriptFocus::Queued(t)) => if t == token { None } else { Some(ScriptFocus::Queued(t)) },
        other => other,
    }
}

/// The details card after the queue is cleared: it closes if it showed a queue entry.
pub fn focus_after_clear(focus: Option<ScriptFocus>) -> (f: Option<ScriptFocus>)
    ensures
        f == match focus {
            Some(ScriptFocus::Queued(_)) => None,
            _ => focus,
        },
{
    match focus {
        Some(ScriptFocus::Queued(_)) => None,
        other => other,
    }
}

/// The label of the button that runs the queue.
pub fn run_button_label(queued: u64) -> (s: String)
    ensures
        s@ == "Run "@ + decimal(queued as nat) + " script"@ + if queued == 1 { ""@ } else { "s"@ },
{
    let mut s = owned("Run ");
    push_decimal(&mut s, queued);
    push_str(&mut s, " script");
    push_str(&mut s, if queued == 1 { "" } else { "s" });
    s
}

/// The service number and customer email the Scripts tab runs with.
pub struct ScriptForm {
    /// The service number field, which the technician may edit.
    pub service_number_input: String,
    /// The ticket service number last copied into the field.
    pub seeded_service_number: String,
    /// The customer's email, from the ticket.
    pub customer_email: Option<String>,
}

/// Copies the ticket's service number in only when the ticket changes, so the
/// field stays editable, and the customer's email when there is one.
pub fn seed_script_context(form: &mut ScriptForm, ticket_service_number: &str, customer_email: &str)
    ensures
        (ticket_service_number@.len() > 0 && ticket_service_number@ != old(form).seeded_service_number@) ==> {
            &&& final(form).service_number_input@ == ticket_service_number@
            &&& final(form).seeded_service_number@ == ticket_service_number@
        },
        !(ticket_service_number@.len() > 0 && ticket_service_number@ != old(form).seeded_service_number@) ==> {
            &&& final(form).service_number_input == old(form).service_number_input
            &&& final(form).seeded_service_number == old(form).seeded_service_number
        },
        customer_email@.len() > 0 ==> final(form).customer_email is Some
            && final(form).customer_email.unwrap()@ == customer_email@,
        customer_email@.len() == 0 ==> final(form).customer_email == old(form).customer_email,
{
    if ticket_service_number.unicode_len() > 0 && !str_eq(ticket_service_number, form.seeded_service_number.as_str()) {
        form.service_number_input = owned(ticket_service_number);
        form.seeded_service_number = owned(ticket_service_number);
    }
    if customer_email.unicode_len() > 0 {
        form.customer_email = Some(owned(customer_email));
    }
}

/// What the running queue entry has to say, when the queue looks.
pub enum RunPoll {
    /// It finished; whether its result counts as a failure.
    Finished { failed: bool },
    /// Nothing yet.
    Waiting,
    /// Its worker went away without a report.
    Gone,
}

/// What the queue does about its running entry.
#[derive(PartialEq, Eq, Structural, Clone, Copy, Debug)]
pub enum QueueStep {
    /// Keep waiting.
    Wait,
    /// Finish the entry, failed or not, and go on with the next.
    Advance { failed: bool },
    /// Cancel the entry, which ran out of time, and go on as after a failure.
    CancelAndAdvance,
}

/// What the queue does about its running entry after `elapsed_secs` of its
/// budget of `budget_secs`: an outcome advances it; silence waits until the
/// budget is spent, then cancels; a vanished worker counts as a failure.
pub fn next_queue_step(poll: RunPoll, elapsed_secs: Option<u64>, budget_secs: u64) -> (step: QueueStep)
    ensures
        step == match poll {
            RunPoll::Finished { failed } => QueueStep::Advance { failed },
            RunPoll::Waiting => match elapsed_secs {
                Some(e) => if e >= budget_secs { QueueStep::CancelAndAdvance } else { QueueStep::Wait },
                None => QueueStep::Wait,
            },
            RunPoll::Gone => QueueStep::Advance { failed: true },
        },
{
    match poll {
        RunPoll::Finished { failed } => QueueStep::Advance { failed },
        RunPoll::Waiting => match elapsed_secs {
            Some(e) => if e >= budget_secs { QueueStep::CancelAndAdvance } else { QueueStep::Wait },
            None => QueueStep::Wait,
        },
        RunPoll::Gone => QueueStep::Advance { failed: true },
    }
}

/// MCP may start a script of the catalog that is not a stress test, and
/// nothing else: a stress test and a name the catalog lacks are refused, the
/// latter with a message that names it.
pub proof fn lemma_mcp_refuses_stress_and_unknown(name: Seq<char>)
    ensures
        mcp_refusal(name, Some(false)) is None,
        mcp_refusal(name, Some(true)) is Some,
        mcp_refusal(name, None) is Some,
        seq_contains(mcp_refusal(name, None).unwrap(), name),
{
    reveal_strlit("'");
    let m = "'"@ + name + "' is not in the script catalog"@;
    assert(m.subrange(1, 1 + name.len() as int) =~= name);
}

/// Searching narrows with each term: no term finds everything; with more
/// terms, a script matches only if it matches the terms before and the new
/// term occurs in it; a term that does not occur rules the script out.
pub proof fn lemma_search_terms_narrow(hay: Seq<char>, terms: Seq<Seq<char>>, term: Seq<char>)
    ensures
        all_terms_in(hay, Seq::empty()),
        all_terms_in(hay, terms.push(term)) == (all_terms_in(hay, terms) && seq_contains(hay, term)),
        !seq_contains(hay, term) ==> !all_terms_in(hay, terms.push(term)),
{
    let t2 = terms.push(term);
    if all_terms_in(hay, t2) {
        assert(t2[terms.len() as int] == term);
        assert forall|i: int| 0 <= i < terms.len() implies seq_contains(hay, #[trigger] terms[i]) by {
            assert(t2[i] == terms[i]);
        }
    }
    if all_terms_in(hay, terms) && seq_contains(hay, term) {
        assert forall|i: int| 0 <= i < t2.len() implies seq_contains(hay, #[trigger] t2[i]) by {
            if i < terms.len() {
                assert(t2[i] == terms[i]);
                if terms.len() == 0 {
                    assert(false);
                }
            }
        }
    }
}

/// The default profiles, `all users` and `public` are never offered for a
/// transfer, and any other folder name is.
pub proof fn lemma_transfer_leaves_system_profiles(lowered: Seq<char>)
    ensures
        seq_contains(lowered, "default"@) ==> !lowered_candidate(lowered),
        lowered == "all users"@ ==> !lowered_candidate(lowered),
        lowered == "public"@ ==> !lowered_candidate(lowered),
        !seq_contains(lowered, "default"@) && lowered != "all users"@ && lowered != "public"@
            ==> lowered_candidate(lowered),
{
}

/// A data transfer succeeds exactly when none of its copies failed.
pub proof fn lemma_transfer_succeeds_without_failures(total: nat, failed: nat)
    ensures
        transfer_outcome(total, failed).0 <==> failed == 0,
{
}

/// Without a level filter the log export holds one line per entry.
pub proof fn lemma_unfiltered_export_keeps_every_line(entries: Seq<LogLine>)
    ensures
        exported(entries, None).len() == entries.len(),
    decreases entries.len(),
{
    if entries.len() > 0 {
        lemma_unfiltered_export_keeps_every_line(entries.drop_last());
    }
}

} // verus!
