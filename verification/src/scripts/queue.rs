//! The decisions of the script queue and of the runs MCP asks for: what is
//! queued, when the queue starts, what it does with the entry running or
//! stopping, when an MCP run is reported, and the lines it logs.
use vstd::prelude::*;
use crate::text::{owned, push_str, push_decimal, decimal, str_eq, trim, trimmed};
use crate::scripts::{ScriptStatus, ScriptForm, mcp_timeout_message, mcp_stopped_message};

verus! {

/// A queue entry, as far as queueing decides: the script's name, its
/// status, and whether it is marked selected.
pub type QueueEntry = (String, ScriptStatus, bool);

/// Whether an entry of the script `name` waits in the queue, not yet run.
pub open spec fn waiting(queue: Seq<(Seq<char>, ScriptStatus)>, name: Seq<char>) -> bool {
    exists|k: int| 0 <= k < queue.len() && (#[trigger] queue[k]).0 == name && queue[k].1 == ScriptStatus::Pending
}

/// The views of some queue entries.
pub open spec fn entry_views(q: Seq<QueueEntry>) -> Seq<(Seq<char>, ScriptStatus)> {
    q.map_values(|e: QueueEntry| (e.0@, e.1))
}

/// The scripts `names` adds to `queue`, in order: each unless an entry of
/// the same script waits already, counting those just added.
pub open spec fn to_queue(queue: Seq<(Seq<char>, ScriptStatus)>, names: Seq<Seq<char>>) -> Seq<Seq<char>>
    decreases names.len(),
{
    if names.len() == 0 {
        Seq::empty()
    } else {
        let before = to_queue(queue, names.drop_last());
        let grown = queue + before.map_values(|n: Seq<char>| (n, ScriptStatus::Pending));
        if waiting(grown, names.last()) { before } else { before.push(names.last()) }
    }
}

/// No script has two entries waiting in the queue.
pub open spec fn waits_once(queue: Seq<(Seq<char>, ScriptStatus)>) -> bool {
    forall|i: int, j: int| 0 <= i < j < queue.len() && (#[trigger] queue[i]).1 == ScriptStatus::Pending
        && (#[trigger] queue[j]).1 == ScriptStatus::Pending ==> queue[i].0 != queue[j].0
}

/// Queueing scripts never leaves a script waiting twice: when no script
/// waited twice before, none does after.
pub proof fn lemma_queueing_waits_once(queue: Seq<(Seq<char>, ScriptStatus)>, names: Seq<Seq<char>>)
    requires
        waits_once(queue),
    ensures
        waits_once(queue + to_queue(queue, names).map_values(|n: Seq<char>| (n, ScriptStatus::Pending))),
    decreases names.len(),
{
    if names.len() > 0 {
        let d = names.drop_last();
        lemma_queueing_waits_once(queue, d);
        let before = to_queue(queue, d);
        let grown = queue + before.map_values(|n: Seq<char>| (n, ScriptStatus::Pending));
        let n = names.last();
        if !waiting(grown, n) {
            let after = queue + before.push(n).map_values(|m: Seq<char>| (m, ScriptStatus::Pending));
            assert(after =~= grown.push((n, ScriptStatus::Pending)));
            assert forall|i: int, j: int| 0 <= i < j < after.len() && (#[trigger] after[i]).1 == ScriptStatus::Pending
                && (#[trigger] after[j]).1 == ScriptStatus::Pending implies after[i].0 != after[j].0 by {
                if j < grown.len() {
                    assert(after[i] == grown[i] && after[j] == grown[j]);
                } else {
                    assert(after[i] == grown[i]);
                    assert(!(grown[i].0 == n && grown[i].1 == ScriptStatus::Pending));
                }
            }
        }
    }
}

fn is_waiting(queue: &Vec<QueueEntry>, name: &str) -> (b: bool)
    ensures
        b == waiting(entry_views(queue@), name@),
{
    let ghost qv = entry_views(queue@);
    let mut k: usize = 0;
    while k < queue.len()
        invariant
            k <= queue@.len(),
            qv == entry_views(queue@),
            forall|j: int| 0 <= j < k ==> !((#[trigger] qv[j]).0 == name@ && qv[j].1 == ScriptStatus::Pending),
        decreases queue@.len() - k,
    {
        if str_eq(queue[k].0.as_str(), name) && queue[k].1 == ScriptStatus::Pending {
            assert(qv[k as int].0 == name@ && qv[k as int].1 == ScriptStatus::Pending);
            return true;
        }
        k = k + 1;
    }
    false
}

/// Queues the scripts `names` (already known to the catalog), skipping any
/// whose entry waits in the queue; returns the names added. The entries
/// already queued stay as they were; each added one waits, unselected.
pub fn queue_scripts(queue: &mut Vec<QueueEntry>, names: &Vec<String>) -> (added: Vec<String>)
    ensures
        added@.map_values(|n: String| n@) == to_queue(entry_views(old(queue)@), names@.map_values(|n: String| n@)),
        entry_views(final(queue)@) == entry_views(old(queue)@)
            + added@.map_values(|n: String| n@).map_values(|n: Seq<char>| (n, ScriptStatus::Pending)),
        final(queue)@.subrange(0, old(queue)@.len() as int) == old(queue)@,
        forall|k: int| old(queue)@.len() <= k < final(queue)@.len() ==> !(#[trigger] final(queue)@[k]).2,
{
    let ghost q0 = entry_views(queue@);
    let ghost nv = names@.map_values(|n: String| n@);
    let mut added: Vec<String> = Vec::new();
    let mut i: usize = 0;
    proof {
        assert(nv.subrange(0, 0) =~= Seq::<Seq<char>>::empty());
        assert(added@.map_values(|n: String| n@) =~= Seq::<Seq<char>>::empty());
        assert(entry_views(queue@) =~= q0 + Seq::<Seq<char>>::empty().map_values(|n: Seq<char>| (n, ScriptStatus::Pending)));
    }
    while i < names.len()
        invariant
            i <= names@.len(),
            q0 == entry_views(old(queue)@),
            nv == names@.map_values(|n: String| n@),
            added@.map_values(|n: String| n@) == to_queue(q0, nv.subrange(0, i as int)),
            entry_views(queue@) == q0
                + added@.map_values(|n: String| n@).map_values(|n: Seq<char>| (n, ScriptStatus::Pending)),
            queue@.len() >= old(queue)@.len(),
            queue@.subrange(0, old(queue)@.len() as int) == old(queue)@,
            forall|k: int| old(queue)@.len() <= k < queue@.len() ==> !(#[trigger] queue@[k]).2,
        decreases names@.len() - i,
    {
        let ghost av = added@.map_values(|n: String| n@);
        let ghost before = queue@;
        proof {
            assert(nv.subrange(0, i + 1).drop_last() =~= nv.subrange(0, i as int));
            assert(nv.subrange(0, i + 1).last() == names@[i as int]@);
        }
        if !is_waiting(queue, names[i].as_str()) {
            queue.push((names[i].clone(), ScriptStatus::Pending, false));
            added.push(names[i].clone());
            proof {
                assert(added@.map_values(|n: String| n@) =~= av.push(names@[i as int]@));
                assert(entry_views(queue@) =~= entry_views(before).push((names@[i as int]@, ScriptStatus::Pending)));
                assert(queue@.subrange(0, old(queue)@.len() as int) =~= before.subrange(0, old(queue)@.len() as int));
                assert(av.push(names@[i as int]@).map_values(|n: Seq<char>| (n, ScriptStatus::Pending))
                    =~= av.map_values(|n: Seq<char>| (n, ScriptStatus::Pending)).push((names@[i as int]@, ScriptStatus::Pending)));
            }
        }
        i = i + 1;
    }
    proof {
        assert(nv.subrange(0, i as int) =~= nv);
    }
    added
}

/// The log line after scripts were queued from `label`.
pub fn queued_message(label: &str, added: u64) -> (s: String)
    ensures
        s@ == label@ + ": queued "@ + decimal(added as nat) + " scripts"@,
{
    let mut s = owned(label);
    push_str(&mut s, ": queued ");
    push_decimal(&mut s, added);
    push_str(&mut s, " scripts");
    s
}

/// The log line after the selected scripts were queued: none were selected
/// (a warning), or how many were added.
pub fn selection_queued_message(selected: u64) -> (r: Result<String, &'static str>)
    ensures
        selected == 0 ==> r is Err && r->Err_0@ == "No scripts selected"@,
        selected > 0 ==> r is Ok && r->Ok_0@ == "Added "@ + decimal(selected as nat) + " scripts to queue"@,
{
    if selected == 0 {
        return Err("No scripts selected");
    }
    let mut s = owned("Added ");
    push_decimal(&mut s, selected);
    push_str(&mut s, " scripts to queue");
    Ok(s)
}

/// Whether the queue may start: not while an entry is still stopping, nor
/// when empty; the line logged either way.
pub open spec fn start_check(stopping: Option<Seq<char>>, queued: nat) -> Result<Seq<char>, Seq<char>> {
    match stopping {
        Some(name) => Err(name + " is still stopping; wait for it to finish"@),
        None => if queued == 0 {
            Err("Queue is empty"@)
        } else {
            Ok("Starting execution of "@ + decimal(queued) + " scripts"@)
        },
    }
}

/// Whether the queue may start, and the line logged: a warning when it may not.
pub fn run_queue_check(stopping: Option<&str>, queued: u64) -> (r: Result<String, String>)
    ensures
        match r { Ok(s) => Ok(s@), Err(e) => Err(e@) }
            == start_check(match stopping { Some(s) => Some(s@), None => None }, queued as nat),
{
    match stopping {
        Some(name) => {
            let mut e = owned(name);
            push_str(&mut e, " is still stopping; wait for it to finish");
            Err(e)
        },
        None => if queued == 0 {
            Err(owned("Queue is empty"))
        } else {
            let mut s = owned("Starting execution of ");
            push_decimal(&mut s, queued);
            push_str(&mut s, " scripts");
            Ok(s)
        },
    }
}

/// What the queue looks at, each frame, for its running entry.
#[derive(PartialEq, Eq, Structural, Clone, Copy, Debug)]
pub enum QueueLook {
    /// Collect the outcome of the entry stopped by the technician.
    SettleStopped,
    /// Nothing to do now.
    Idle,
    /// Look for the running entry's outcome.
    AwaitOutcome,
}

/// What the queue looks at: an entry still stopping comes first; nothing
/// while the queue is not running, nor while the transfer picker waits on
/// the technician; else the running entry's outcome.
pub fn queue_look(stopping: bool, queue_running: bool, picker_open: bool) -> (l: QueueLook)
    ensures
        l == if stopping {
            QueueLook::SettleStopped
        } else if !queue_running || picker_open {
            QueueLook::Idle
        } else {
            QueueLook::AwaitOutcome
        },
{
    if stopping {
        QueueLook::SettleStopped
    } else if !queue_running || picker_open {
        QueueLook::Idle
    } else {
        QueueLook::AwaitOutcome
    }
}

/// The entry left stopping when Stop is pressed: the one running, if it is
/// still running (it is then signalled and waited for); none otherwise.
pub fn stop_target(has_running: bool, current: Option<(u64, String)>) -> (r: Option<(u64, String)>)
    ensures
        match r {
            Some(c) => has_running && current is Some && c.0 == current.unwrap().0 && c.1@ == current.unwrap().1@,
            None => !has_running || current is None,
        },
{
    if has_running {
        current
    } else {
        None
    }
}

/// The line logged when Stop is pressed while `name` runs.
pub fn stop_requested_message(name: &str) -> (s: String)
    ensures
        s@ == "Stop requested; waiting for "@ + name@ + " to finish"@,
{
    let mut s = owned("Stop requested; waiting for ");
    push_str(&mut s, name);
    push_str(&mut s, " to finish");
    s
}

/// The warning when the queue stops waiting for `name`, which ignored Stop.
pub fn abandoned_message(name: &str) -> (s: String)
    ensures
        s@ == "Stopped waiting for "@ + name@ + "; it may still be running"@,
{
    let mut s = owned("Stopped waiting for ");
    push_str(&mut s, name);
    push_str(&mut s, "; it may still be running");
    s
}

/// The line logged when the entry stopped by the technician has finished.
pub fn stopped_message(name: &str) -> (s: String)
    ensures
        s@ == "Stopped; "@ + name@ + " finished"@,
{
    let mut s = owned("Stopped; ");
    push_str(&mut s, name);
    push_str(&mut s, " finished");
    s
}

/// The warning when the running entry overran its budget of `secs` seconds.
pub fn overrun_message(secs: u64) -> (s: String)
    ensures
        s@ == "No completion after "@ + decimal(secs as nat) + "s; cancelling"@,
{
    let mut s = owned("No completion after ");
    push_decimal(&mut s, secs);
    push_str(&mut s, "s; cancelling");
    s
}

/// The line logged when the queue has run through, with its progress.
pub fn queue_complete_message(completed: u64, total: u64) -> (s: String)
    ensures
        s@ == "Queue complete ("@ + decimal(completed as nat) + "/"@ + decimal(total as nat) + " finished)"@,
{
    let mut s = owned("Queue complete (");
    push_decimal(&mut s, completed);
    push_str(&mut s, "/");
    push_decimal(&mut s, total);
    push_str(&mut s, " finished)");
    s
}

/// The service number a script runs with: the one typed, none when blank.
pub fn context_service_number(input: &str) -> (r: Option<String>)
    ensures
        input@.len() == 0 ==> r is None,
        input@.len() > 0 ==> r is Some && r.unwrap()@ == input@,
{
    if input.unicode_len() == 0 { None } else { Some(owned(input)) }
}

/// An MCP request fills in the script form: its service number and its
/// customer's email when given; returns the diagnostic session it belongs
/// to, none when blank.
pub fn apply_mcp_request(form: &mut ScriptForm, service_number: Option<&str>, customer_email: Option<&str>,
    session: Option<&str>) -> (kept: Option<String>)
    ensures
        match service_number {
            Some(s) => if s@.len() > 0 {
                final(form).service_number_input@ == s@
            } else {
                final(form).service_number_input == old(form).service_number_input
            },
            None => final(form).service_number_input == old(form).service_number_input,
        },
        match customer_email {
            Some(e) => if e@.len() > 0 {
                final(form).customer_email is Some && final(form).customer_email.unwrap()@ == e@
            } else {
                final(form).customer_email == old(form).customer_email
            },
            None => final(form).customer_email == old(form).customer_email,
        },
        final(form).seeded_service_number == old(form).seeded_service_number,
        match session {
            Some(s) => if trimmed(s@).len() > 0 { kept is Some && kept.unwrap()@ == s@ } else { kept is None },
            None => kept is None,
        },
{
    match service_number {
        Some(s) => if s.unicode_len() > 0 {
            form.service_number_input = owned(s);
        },
        None => {},
    }
    match customer_email {
        Some(e) => if e.unicode_len() > 0 {
            form.customer_email = Some(owned(e));
        },
        None => {},
    }
    match session {
        Some(s) => {
            let t = trim(s);
            if t.as_str().unicode_len() > 0 { Some(owned(s)) } else { None }
        },
        None => None,
    }
}

/// What an MCP run's worker has to say when it is looked at.
pub enum McpPoll {
    /// It reported: whether the script succeeded, and its message.
    Reported { success: bool, message: String },
    /// Nothing yet.
    Waiting,
    /// The worker went away without a report.
    Gone,
}

/// What is reported for an MCP run of `name`, `elapsed_nanos` after it was
/// sent off, with a budget of `timeout_secs`: its own report; a failure once
/// it has run past its budget or its worker is gone; nothing yet otherwise.
pub open spec fn mcp_report(poll: McpPoll, name: Seq<char>, elapsed_nanos: nat, timeout_secs: nat) -> Option<(bool, Seq<char>)> {
    match poll {
        McpPoll::Reported { success, message } => Some((success, message@)),
        McpPoll::Waiting => if elapsed_nanos > timeout_secs * 1_000_000_000 {
            Some((false, "Script '"@ + name + "' did not finish within "@ + decimal(timeout_secs)
                + "s. It may still be running on the host."@))
        } else {
            None
        },
        McpPoll::Gone => Some((false, "Script '"@ + name + "' stopped without reporting"@)),
    }
}

/// What is reported for an MCP run, if anything yet.
pub fn mcp_run_report(poll: McpPoll, name: &str, elapsed_nanos: u128, timeout_secs: u64) -> (r: Option<(bool, String)>)
    ensures
        match r { Some(x) => Some((x.0, x.1@)), None => None }
            == mcp_report(poll, name@, elapsed_nanos as nat, timeout_secs as nat),
{
    report_of(&poll, name, elapsed_nanos, timeout_secs)
}

fn report_of(poll: &McpPoll, name: &str, elapsed_nanos: u128, timeout_secs: u64) -> (r: Option<(bool, String)>)
    ensures
        match r { Some(x) => Some((x.0, x.1@)), None => None }
            == mcp_report(*poll, name@, elapsed_nanos as nat, timeout_secs as nat),
{
    match poll {
        McpPoll::Reported { success, message } => Some((*success, message.clone())),
        McpPoll::Waiting => if elapsed_nanos > (timeout_secs as u128) * 1_000_000_000 {
            Some((false, mcp_timeout_message(name, timeout_secs)))
        } else {
            None
        },
        McpPoll::Gone => Some((false, mcp_stopped_message(name))),
    }
}

/// An MCP run waiting for its outcome, as it is looked at: its script, what
/// its worker has to say, how long ago it was sent off, and its budget.
pub struct McpCheck {
    pub name: String,
    pub poll: McpPoll,
    pub elapsed_nanos: u128,
    pub timeout_secs: u64,
}

/// What is reported for one waiting run, if anything yet.
pub open spec fn check_report(c: McpCheck) -> Option<(bool, Seq<char>)> {
    mcp_report(c.poll, c.name@, c.elapsed_nanos as nat, c.timeout_secs as nat)
}

/// The runs reported this time, in the order they wait: each one's place
/// among the waiting runs, whether it succeeded, and its message.
pub open spec fn completions(checks: Seq<McpCheck>) -> Seq<(int, bool, Seq<char>)>
    decreases checks.len(),
{
    if checks.len() == 0 {
        Seq::empty()
    } else {
        let r = completions(checks.drop_last());
        match check_report(checks.last()) {
            Some(x) => r.push(((checks.len() - 1) as int, x.0, x.1)),
            None => r,
        }
    }
}

/// The MCP runs to report now, out of those waiting: each is reported with
/// its place, and leaves the waiting list; the others keep waiting.
pub fn mcp_completions(checks: &Vec<McpCheck>) -> (r: Vec<(usize, bool, String)>)
    ensures
        r@.len() == completions(checks@).len(),
        forall|k: int| #![trigger r@[k]] 0 <= k < r@.len() ==> r@[k].0 as int == completions(checks@)[k].0
            && r@[k].1 == completions(checks@)[k].1 && r@[k].2@ == completions(checks@)[k].2,
{
    let mut r: Vec<(usize, bool, String)> = Vec::new();
    let mut i: usize = 0;
    while i < checks.len()
        invariant
            i <= checks@.len(),
            r@.len() == completions(checks@.subrange(0, i as int)).len(),
            forall|k: int| #![trigger r@[k]] 0 <= k < r@.len() ==> r@[k].0 as int == completions(
                checks@.subrange(0, i as int))[k].0 && r@[k].1 == completions(checks@.subrange(0, i as int))[k].1
                && r@[k].2@ == completions(checks@.subrange(0, i as int))[k].2,
        decreases checks@.len() - i,
    {
        let c = &checks[i];
        let rep = report_of(&c.poll, c.name.as_str(), c.elapsed_nanos, c.timeout_secs);
        proof {
            let sub = checks@.subrange(0, i + 1);
            assert(sub.drop_last() =~= checks@.subrange(0, i as int));
            assert(sub.last() == checks@[i as int]);
        }
        match rep {
            Some(x) => {
                r.push((i, x.0, x.1));
            },
            None => {},
        }
        i = i + 1;
    }
    proof {
        assert(checks@.subrange(0, i as int) =~= checks@);
    }
    r
}

/// The result sent back for an MCP request.
pub struct McpRunResult {
    pub request_id: String,
    pub success: bool,
    pub message: String,
    pub logs: Vec<String>,
}

/// The one result a refused MCP request gets: a failure with the refusal's
/// message and no log lines.
pub fn mcp_refused(request_id: String, message: String) -> (r: McpRunResult)
    ensures
        r.request_id == request_id,
        !r.success,
        r.message == message,
        r.logs@.len() == 0,
{
    McpRunResult { request_id, success: false, message, logs: Vec::new() }
}

/// Whether a waiting run is cancelled when looked at: its worker has said
/// nothing and it has run past its budget.
pub open spec fn overran(c: McpCheck) -> bool {
    c.poll is Waiting && c.elapsed_nanos > c.timeout_secs * 1_000_000_000
}

/// Whether the waiting run `c` is to be cancelled now.
pub fn must_cancel(c: &McpCheck) -> (b: bool)
    ensures
        b == overran(*c),
{
    match c.poll {
        McpPoll::Waiting => c.elapsed_nanos > (c.timeout_secs as u128) * 1_000_000_000,
        _ => false,
    }
}

/// The places of the runs reported.
pub open spec fn reported_places(r: Seq<(usize, bool, String)>) -> Set<int> {
    Set::new(|j: int| exists|k: int| 0 <= k < r.len() && (#[trigger] r[k]).0 as int == j)
}

/// The runs of `runs` whose place is not in `gone`, in their order.
pub open spec fn still_waiting<T>(runs: Seq<T>, gone: Set<int>) -> Seq<T>
    decreases runs.len(),
{
    if runs.len() == 0 {
        Seq::empty()
    } else {
        let rest = still_waiting(runs.drop_last(), gone);
        if gone.contains(runs.len() - 1) { rest } else { rest.push(runs.last()) }
    }
}

fn is_reported(reported: &Vec<(usize, bool, String)>, j: usize) -> (b: bool)
    ensures
        b == reported_places(reported@).contains(j as int),
{
    let mut k: usize = 0;
    while k < reported.len()
        invariant
            k <= reported@.len(),
            forall|m: int| 0 <= m < k ==> (#[trigger] reported@[m]).0 != j,
        decreases reported@.len() - k,
    {
        if reported[k].0 == j {
            assert(reported@[k as int].0 as int == j as int);
            return true;
        }
        k = k + 1;
    }
    false
}

/// The reported runs leave the waiting list; the others keep waiting, in
/// their order.
pub fn drop_reported<T>(runs: &mut Vec<T>, reported: &Vec<(usize, bool, String)>)
    ensures
        final(runs)@ == still_waiting(old(runs)@, reported_places(reported@)),
{
    let ghost all = runs@;
    let ghost gone = reported_places(reported@);
    assert(all.len() == runs.len());
    let mut src: Vec<T> = Vec::new();
    std::mem::swap(&mut src, runs);
    let mut i: usize = 0;
    proof {
        assert(all.subrange(0, 0) =~= Seq::<T>::empty());
        assert(src@ =~= all.subrange(0, all.len() as int));
    }
    while src.len() > 0
        invariant
            i <= all.len(),
            all.len() <= usize::MAX,
            src@ == all.subrange(i as int, all.len() as int),
            runs@ == still_waiting(all.subrange(0, i as int), gone),
            gone == reported_places(reported@),
        decreases src@.len(),
    {
        let x = src.remove(0);
        proof {
            let pre = all.subrange(0, i + 1);
            assert(pre.drop_last() =~= all.subrange(0, i as int));
            assert(pre.last() == x);
            assert(src@ =~= all.subrange(i + 1, all.len() as int));
        }
        if !is_reported(reported, i) {
            runs.push(x);
        }
        i = i + 1;
    }
    proof {
        assert(all.subrange(0, i as int) =~= all);
    }
}

/// Each reported run is one of those waiting, and the runs are reported in
/// the order they wait, each at most once.
pub proof fn lemma_completions_in_order(checks: Seq<McpCheck>)
    ensures
        forall|k: int| #![trigger completions(checks)[k]] 0 <= k < completions(checks).len()
            ==> 0 <= completions(checks)[k].0 < checks.len()
            && check_report(checks[completions(checks)[k].0]) is Some,
        forall|j: int, k: int| 0 <= j < k < completions(checks).len()
            ==> #[trigger] completions(checks)[j].0 < #[trigger] completions(checks)[k].0,
    decreases checks.len(),
{
    if checks.len() > 0 {
        lemma_completions_in_order(checks.drop_last());
        let r = completions(checks.drop_last());
        assert forall|k: int| #![trigger r[k]] 0 <= k < r.len() implies checks[r[k].0] == checks.drop_last()[r[k].0] by {}
    }
}

/// The part of the Scripts tab that Stop, giving up on a stopped run and
/// closing the transfer picker change.
pub struct RunControl {
    /// A worker runs the queue's current entry.
    pub running: bool,
    /// When that run started, in milliseconds of the caller's clock.
    pub run_started_ms: Option<u64>,
    /// The entry still finishing after Stop: its run token and script name.
    pub stopping: Option<(u64, String)>,
    /// The data-transfer picker shows.
    pub picker_open: bool,
    /// A data-transfer run waits on the picker.
    pub transfer_run: bool,
    /// The folders picked to copy.
    pub selected_sources: Vec<String>,
    /// The folder picked to copy them to.
    pub selected_destination: Option<String>,
    /// The queue runs.
    pub queue_running: bool,
    /// The script shown as running.
    pub current_script_name: Option<String>,
}

/// The line a cancelled data transfer logs and finishes its run with.
pub open spec fn transfer_cancelled_text() -> Seq<char> {
    "Data transfer cancelled"@
}

/// Closes the transfer picker without transferring anything: the picks are
/// dropped; a transfer run waiting on the picker ends as skipped, and the
/// text it ends with (also logged as a warning) is returned.
pub fn cancel_data_transfer(ctl: &mut RunControl) -> (skipped: Option<String>)
    ensures
        !final(ctl).picker_open,
        final(ctl).selected_sources@.len() == 0,
        final(ctl).selected_destination is None,
        !final(ctl).transfer_run,
        match skipped {
            Some(t) => old(ctl).transfer_run && t@ == transfer_cancelled_text(),
            None => !old(ctl).transfer_run,
        },
        final(ctl).running == old(ctl).running,
        final(ctl).run_started_ms == old(ctl).run_started_ms,
        final(ctl).stopping == old(ctl).stopping,
        final(ctl).queue_running == old(ctl).queue_running,
        final(ctl).current_script_name == old(ctl).current_script_name,
{
    ctl.picker_open = false;
    ctl.selected_sources = Vec::new();
    ctl.selected_destination = None;
    if ctl.transfer_run {
        ctl.transfer_run = false;
        Some(owned("Data transfer cancelled"))
    } else {
        None
    }
}

/// What pressing Stop asks of the caller.
pub struct StopEffects {
    /// The transfer run the closed picker ended, with its text.
    pub transfer_skipped: Option<String>,
    /// Signal the running worker to stop.
    pub signal_worker: bool,
    /// The line to log under "Queue".
    pub log: Option<String>,
    /// The entry, by run token, to show as running until it settles.
    pub show_running: Option<u64>,
}

/// Stop pressed while `current` (run token and name) is the queue's current
/// entry: an open transfer picker is closed; a running entry is signalled,
/// waited for and shown as running meanwhile; with nothing running the run is
/// forgotten; the queue stops and no script shows as running.
pub fn stop_queue(ctl: &mut RunControl, current: Option<(u64, String)>) -> (e: StopEffects)
    ensures
        !final(ctl).queue_running,
        final(ctl).current_script_name is None,
        old(ctl).picker_open ==> !final(ctl).picker_open && final(ctl).selected_sources@.len() == 0
            && final(ctl).selected_destination is None && !final(ctl).transfer_run && match e.transfer_skipped {
                Some(t) => old(ctl).transfer_run && t@ == transfer_cancelled_text(),
                None => !old(ctl).transfer_run,
            },
        !old(ctl).picker_open ==> e.transfer_skipped is None && final(ctl).picker_open == old(ctl).picker_open
            && final(ctl).selected_sources == old(ctl).selected_sources
            && final(ctl).selected_destination == old(ctl).selected_destination
            && final(ctl).transfer_run == old(ctl).transfer_run,
        e.signal_worker == (old(ctl).running && current is Some),
        e.signal_worker ==> (final(ctl).stopping matches Some(st) && st.0 == current.unwrap().0
            && st.1@ == current.unwrap().1@ && final(ctl).running == old(ctl).running
            && final(ctl).run_started_ms == old(ctl).run_started_ms
            && (e.log matches Some(l) && l@ == "Stop requested; waiting for "@ + current.unwrap().1@ + " to finish"@)),
        !e.signal_worker ==> final(ctl).stopping == old(ctl).stopping && !final(ctl).running
            && final(ctl).run_started_ms is None && e.log is None,
        e.show_running == match final(ctl).stopping { Some(st) => Some(st.0), None => None },
{
    let transfer_skipped = if ctl.picker_open { cancel_data_transfer(ctl) } else { None };
    let mut signal_worker = false;
    let mut log: Option<String> = None;
    match current {
        Some(cur) => {
            if ctl.running {
                log = Some(stop_requested_message(cur.1.as_str()));
                ctl.stopping = Some(cur);
                signal_worker = true;
            } else {
                ctl.run_started_ms = None;
            }
        },
        None => {
            ctl.running = false;
            ctl.run_started_ms = None;
        },
    }
    ctl.queue_running = false;
    let show_running = match &ctl.stopping {
        Some(st) => Some(st.0),
        None => None,
    };
    ctl.current_script_name = None;
    StopEffects { transfer_skipped, signal_worker, log, show_running }
}

/// Gives up waiting for the entry that ignores Stop: it is marked failed
/// (its run token is returned with the warning to log), the run and a
/// waiting transfer are forgotten, and its worker is left to finish alone.
/// Nothing happens when no entry is stopping.
pub fn abandon_stopped_run(ctl: &mut RunControl) -> (r: Option<(u64, String)>)
    ensures
        match old(ctl).stopping {
            None => r is None && *final(ctl) == *old(ctl),
            Some(st) => (r matches Some(x) && x.0 == st.0 && x.1@ == "Stopped waiting for "@ + st.1@
                + "; it may still be running"@ && final(ctl).stopping is None && !final(ctl).running
                && final(ctl).run_started_ms is None && !final(ctl).transfer_run
                && final(ctl).picker_open == old(ctl).picker_open
                && final(ctl).selected_sources == old(ctl).selected_sources
                && final(ctl).selected_destination == old(ctl).selected_destination
                && final(ctl).queue_running == old(ctl).queue_running
                && final(ctl).current_script_name == old(ctl).current_script_name),
        },
{
    match ctl.stopping.take() {
        None => None,
        Some(st) => {
            ctl.running = false;
            ctl.run_started_ms = None;
            ctl.transfer_run = false;
            let m = abandoned_message(st.1.as_str());
            Some((st.0, m))
        },
    }
}

} // verus!
