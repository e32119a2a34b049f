//! Submitting a TUR sheet: a countdown the technician can cut short or
//! undo, then a check for records the task would duplicate, the technician's
//! choice where they differ, and the task written.
use vstd::prelude::*;
use crate::text::{owned, push_str, str_contains, seq_contains};

verus! {

/// Where a submission stands.
#[derive(PartialEq, Eq, Structural, Clone, Copy, Debug)]
pub enum TurSubmitState {
    Idle,
    AwaitingConfirmation,
    CheckingDuplicates,
    AwaitingResolution,
    Submitting,
}

/// The name of the task a sheet creates: the customer, then the service number.
pub fn task_name(customer_name: &str, service_number: &str) -> (s: String)
    ensures
        s@ == customer_name@ + " - "@ + service_number@,
{
    let mut s = owned(customer_name);
    push_str(&mut s, " - ");
    push_str(&mut s, service_number);
    s
}

/// The assignee the task is given: a generated identifier (one with a `-`
/// in its key) gives way to the technician signed in, when there is one.
pub fn task_assignee(assignee_key: &str, current_user: Option<&str>) -> (r: String)
    ensures
        r@ == if seq_contains(assignee_key@, "-"@) && current_user is Some { current_user.unwrap()@ } else { assignee_key@ },
{
    if str_contains(assignee_key, "-") {
        match current_user {
            Some(u) => { return owned(u); },
            None => {},
        }
    }
    owned(assignee_key)
}

/// A submission waiting for its countdown and the duplicate check: the task
/// as it will be written, and when the countdown began.
pub struct PendingTurTask {
    /// "customer - service number".
    pub task_name: String,
    /// The sheet's service number.
    pub service_number: Option<String>,
    /// Who the task is assigned to.
    pub assignee: String,
    /// Whether the duplicate check has answered yet.
    pub duplicate_checked: bool,
    /// When the countdown began, in milliseconds of the caller's clock.
    pub confirmation_start_ms: Option<u64>,
}

/// The submission a sheet starts at `now_ms`: the task named after the
/// customer and the service number, that service number set, the assignee
/// as [`task_assignee`] gives it, no duplicate check yet, the countdown
/// started now.
pub open spec fn starts_pending(p: PendingTurTask, customer_name: Seq<char>, service_number: Seq<char>,
    assignee_key: Seq<char>, current_user: Option<Seq<char>>, now_ms: u64) -> bool {
    &&& p.task_name@ == customer_name + " - "@ + service_number
    &&& p.service_number matches Some(sn) && sn@ == service_number
    &&& p.assignee@ == if seq_contains(assignee_key, "-"@) && current_user is Some {
        current_user.unwrap()
    } else {
        assignee_key
    }
    &&& !p.duplicate_checked
    &&& p.confirmation_start_ms == Some(now_ms)
}

/// The technician asked to submit: unless a submission is already under way,
/// one starts, holding the task to be written, and its countdown shows.
/// Returns whether it started; when it did not, nothing changes.
pub fn submit_tur_mastertech(state: &mut TurSubmitState, pending: &mut Option<PendingTurTask>, customer_name: &str,
    service_number: &str, assignee_key: &str, current_user: Option<&str>, now_ms: u64) -> (started: bool)
    ensures
        started == (*old(state) == TurSubmitState::Idle),
        *final(state) == if started { TurSubmitState::AwaitingConfirmation } else { *old(state) },
        !started ==> *final(pending) == *old(pending),
        started ==> (*final(pending) matches Some(p) && starts_pending(p, customer_name@, service_number@,
            assignee_key@, match current_user { Some(u) => Some(u@), None => None }, now_ms)),
{
    if *state != TurSubmitState::Idle {
        return false;
    }
    let name = task_name(customer_name, service_number);
    let assignee = task_assignee(assignee_key, current_user);
    *pending = Some(PendingTurTask {
        task_name: name,
        service_number: Some(owned(service_number)),
        assignee,
        duplicate_checked: false,
        confirmation_start_ms: Some(now_ms),
    });
    *state = TurSubmitState::AwaitingConfirmation;
    true
}

/// The record a submission writes: the existing task the duplicate check
/// found, when it found one (the technician's choices decide the data, not
/// the record), else the sheet's own task.
pub fn task_id_to_write(own_id: &str, existing_task_id: Option<&str>) -> (id: String)
    ensures
        id@ == match existing_task_id {
            Some(e) => e@,
            None => own_id@,
        },
{
    match existing_task_id {
        Some(e) => owned(e),
        None => owned(own_id),
    }
}

/// Milliseconds of the countdown before the duplicate check starts by itself.
pub const CONFIRMATION_COUNTDOWN_MS: u64 = 5000;

/// What the technician does with the countdown showing.
#[derive(PartialEq, Eq, Structural, Clone, Copy, Debug)]
pub enum CountdownInput {
    Nothing,
    SubmitNow,
    Undo,
}

/// What the countdown leads to.
#[derive(PartialEq, Eq, Structural, Clone, Copy, Debug)]
pub enum CountdownStep {
    /// Keep counting down.
    Wait,
    /// Start the duplicate check.
    CheckDuplicates,
    /// Drop the submission and say it was cancelled.
    Cancel,
    /// The countdown has nothing to count: back to idle.
    Reset,
}

/// The countdown after `elapsed_ms`: a missing submission or start time
/// resets; time up or "Submit Now" starts the check; "Undo" cancels.
pub fn countdown_step(state: TurSubmitState, has_pending: bool, elapsed_ms: Option<u64>, input: CountdownInput)
    -> (step: CountdownStep)
    ensures
        state != TurSubmitState::AwaitingConfirmation ==> step == CountdownStep::Wait,
        state == TurSubmitState::AwaitingConfirmation ==> step == if !has_pending || elapsed_ms is None {
            CountdownStep::Reset
        } else if elapsed_ms.unwrap() >= CONFIRMATION_COUNTDOWN_MS || input == CountdownInput::SubmitNow {
            CountdownStep::CheckDuplicates
        } else if input == CountdownInput::Undo {
            CountdownStep::Cancel
        } else {
            CountdownStep::Wait
        },
{
    if state != TurSubmitState::AwaitingConfirmation {
        return CountdownStep::Wait;
    }
    match elapsed_ms {
        None => CountdownStep::Reset,
        Some(e) => if !has_pending {
            CountdownStep::Reset
        } else if e >= CONFIRMATION_COUNTDOWN_MS || input == CountdownInput::SubmitNow {
            CountdownStep::CheckDuplicates
        } else if input == CountdownInput::Undo {
            CountdownStep::Cancel
        } else {
            CountdownStep::Wait
        },
    }
}

/// The state after a countdown step.
pub fn state_after_countdown(state: TurSubmitState, step: CountdownStep) -> (s: TurSubmitState)
    ensures
        s == match step {
            CountdownStep::Wait => state,
            CountdownStep::CheckDuplicates => TurSubmitState::CheckingDuplicates,
            CountdownStep::Cancel => TurSubmitState::Idle,
            CountdownStep::Reset => TurSubmitState::Idle,
        },
{
    match step {
        CountdownStep::Wait => state,
        CountdownStep::CheckDuplicates => TurSubmitState::CheckingDuplicates,
        CountdownStep::Cancel => TurSubmitState::Idle,
        CountdownStep::Reset => TurSubmitState::Idle,
    }
}

/// The state once the duplicate check has answered: the technician is asked
/// to choose when the existing records conflict and are not all identical,
/// else the task is written and the submission is over.
pub fn state_after_check(has_conflicts: bool, all_identical: bool) -> (s: TurSubmitState)
    ensures
        s == if has_conflicts && !all_identical { TurSubmitState::AwaitingResolution } else { TurSubmitState::Idle },
{
    if has_conflicts && !all_identical { TurSubmitState::AwaitingResolution } else { TurSubmitState::Idle }
}

/// The state after the technician answers the merge dialog: confirmed
/// writes the task and ends the submission, cancelled drops it; no answer yet
/// leaves it waiting.
pub fn state_after_resolution(confirmed: bool, cancelled: bool) -> (s: TurSubmitState)
    ensures
        s == if confirmed || cancelled { TurSubmitState::Idle } else { TurSubmitState::AwaitingResolution },
{
    if confirmed || cancelled { TurSubmitState::Idle } else { TurSubmitState::AwaitingResolution }
}

/// The technician called the submission off ("Undo" during the countdown,
/// or "Cancel" in the merge dialog): it is dropped and the sheet is idle
/// again; [`cancelled_toast`] announces it.
pub fn cancel_submission(state: &mut TurSubmitState, pending: &mut Option<PendingTurTask>)
    ensures
        *final(state) == TurSubmitState::Idle,
        *final(pending) is None,
{
    *state = TurSubmitState::Idle;
    *pending = None;
}

/// The task a submission writes, as it is handed to the writer.
pub struct TaskToWrite {
    /// The record written: the existing task found, else the sheet's own.
    pub id: String,
    pub task: PendingTurTask,
}

/// The submission goes ahead: its pending task leaves the sheet, is handed
/// back to be written under the id [`task_id_to_write`] picks, and the sheet
/// is idle again; with no pending task nothing is written and the sheet is
/// idle all the same.
pub fn proceed_with_submission(state: &mut TurSubmitState, pending: &mut Option<PendingTurTask>, own_id: &str,
    existing_task_id: Option<&str>) -> (w: Option<TaskToWrite>)
    ensures
        *final(state) == TurSubmitState::Idle,
        *final(pending) is None,
        match *old(pending) {
            None => w is None,
            Some(p) => (w matches Some(t) && t.task == p && t.id@ == match existing_task_id {
                Some(e) => e@,
                None => own_id@,
            }),
        },
{
    let taken = pending.take();
    *state = TurSubmitState::Idle;
    match taken {
        None => None,
        Some(task) => Some(TaskToWrite { id: task_id_to_write(own_id, existing_task_id), task }),
    }
}

/// What the technician chose for one kind of record that already exists.
#[derive(PartialEq, Eq, Structural, Clone, Copy, Debug)]
pub enum MergeResolution {
    KeepExisting,
    UseNew,
    Merge,
    Cancel,
}

/// Which version of a record is written.
#[derive(PartialEq, Eq, Structural, Clone, Copy, Debug)]
pub enum RecordSource {
    Existing,
    New,
    Merged,
}

/// Which version of a record is written: the sheet's own when nothing
/// existed; else as chosen, a cancelled choice keeping the sheet's.
pub fn record_source(has_existing: bool, resolution: MergeResolution) -> (src: RecordSource)
    ensures
        src == if !has_existing {
            RecordSource::New
        } else {
            match resolution {
                MergeResolution::KeepExisting => RecordSource::Existing,
                MergeResolution::UseNew => RecordSource::New,
                MergeResolution::Merge => RecordSource::Merged,
                MergeResolution::Cancel => RecordSource::New,
            }
        },
{
    if !has_existing {
        return RecordSource::New;
    }
    match resolution {
        MergeResolution::KeepExisting => RecordSource::Existing,
        MergeResolution::UseNew => RecordSource::New,
        MergeResolution::Merge => RecordSource::Merged,
        MergeResolution::Cancel => RecordSource::New,
    }
}

/// Whether the change to an existing task is recorded in its history: it is
/// replaced or merged, and some field differs.
pub fn records_history(task_exists: bool, resolution: Option<MergeResolution>, differing_fields: usize) -> (b: bool)
    ensures
        b == (task_exists && differing_fields > 0 && match resolution {
            Some(MergeResolution::UseNew) => true,
            Some(MergeResolution::Merge) => true,
            _ => false,
        }),
{
    task_exists && differing_fields > 0 && match resolution {
        Some(MergeResolution::UseNew) => true,
        Some(MergeResolution::Merge) => true,
        _ => false,
    }
}

/// How writing the task turned out.
pub enum TaskCreation {
    Created(String),
    AlreadyExists(String),
    Updated(String),
    Error(String),
}

/// How a notification looks.
#[derive(PartialEq, Eq, Structural, Clone, Copy, Debug)]
pub enum ToastKind {
    Success,
    Warning,
    Info,
    Error,
}

/// The notification after the task was written, or was not.
pub fn creation_toast(result: &TaskCreation) -> (t: (ToastKind, String))
    ensures
        match *result {
            TaskCreation::Created(sn) => t.0 == ToastKind::Success && t.1@ == "Task created for service #"@ + sn@,
            TaskCreation::AlreadyExists(sn) => t.0 == ToastKind::Warning && t.1@ == "Task already exists for service #"@ + sn@,
            TaskCreation::Updated(sn) => t.0 == ToastKind::Info && t.1@ == "Task updated for service #"@ + sn@,
            TaskCreation::Error(m) => t.0 == ToastKind::Error && t.1@ == "Error creating task: "@ + m@,
        },
{
    match result {
        TaskCreation::Created(sn) => {
            let mut s = owned("Task created for service #");
            push_str(&mut s, sn.as_str());
            (ToastKind::Success, s)
        },
        TaskCreation::AlreadyExists(sn) => {
            let mut s = owned("Task already exists for service #");
            push_str(&mut s, sn.as_str());
            (ToastKind::Warning, s)
        },
        TaskCreation::Updated(sn) => {
            let mut s = owned("Task updated for service #");
            push_str(&mut s, sn.as_str());
            (ToastKind::Info, s)
        },
        TaskCreation::Error(m) => {
            let mut s = owned("Error creating task: ");
            push_str(&mut s, m.as_str());
            (ToastKind::Error, s)
        },
    }
}

/// The notification after a submission was cancelled.
pub fn cancelled_toast() -> (t: (ToastKind, &'static str))
    ensures
        t.0 == ToastKind::Info,
        t.1@ == "Task submission cancelled"@,
{
    (ToastKind::Info, "Task submission cancelled")
}

} // verus!
