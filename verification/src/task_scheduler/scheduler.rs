//! The task builder whose PowerShell runs in view, echoing its commands.
use vstd::prelude::*;
use crate::text::owned;
use crate::task_scheduler::{TaskTrigger, TaskSpec, RegisterError, ShellOptions, registration,
    opt_view, build_registration};

verus! {

/// The shell this builder's scripts run in: no profile, no prompts, shown,
/// commands echoed.
pub fn visible_shell() -> (o: ShellOptions)
    ensures
        o == (ShellOptions { no_profile: true, non_interactive: true, hidden: false, print_commands: true }),
{
    ShellOptions { no_profile: true, non_interactive: true, hidden: false, print_commands: true }
}

/// Builder pattern for creating or modifying a scheduled task
pub struct ScheduledTaskBuilder {
    task_name: String,
    action: Option<String>,
    trigger: Option<TaskTrigger>,
    description: Option<String>,
}

impl View for ScheduledTaskBuilder {
    type V = TaskSpec;

    closed spec fn view(&self) -> TaskSpec {
        TaskSpec {
            task_name: self.task_name@,
            action: opt_view(self.action),
            trigger: self.trigger,
            description: opt_view(self.description),
        }
    }
}

impl ScheduledTaskBuilder {
    /// Creates a new ScheduledTaskBuilder with the task name
    pub fn new(task_name: &str) -> (b: Self)
        ensures
            b@ == (TaskSpec { task_name: task_name@, action: None, trigger: None, description: None }),
    {
        Self { task_name: owned(task_name), action: None, trigger: None, description: None }
    }

    /// Sets the executable action for the task
    pub fn action(self, executable: &str) -> (b: Self)
        ensures
            b@ == (TaskSpec { action: Some(executable@), ..self@ }),
    {
        Self { action: Some(owned(executable)), ..self }
    }

    /// Sets the trigger for the task
    pub fn trigger(self, trigger: TaskTrigger) -> (b: Self)
        ensures
            b@ == (TaskSpec { trigger: Some(trigger), ..self@ }),
    {
        Self { trigger: Some(trigger), ..self }
    }

    /// Sets a description for the task
    pub fn description(self, description: &str) -> (b: Self)
        ensures
            b@ == (TaskSpec { description: Some(description@), ..self@ }),
    {
        Self { description: Some(owned(description)), ..self }
    }

    /// The script that registers the task, or why it cannot be registered
    /// yet, with the shell to run it in.
    pub fn register(self) -> (r: (Result<String, RegisterError>, ShellOptions))
        ensures
            match (r.0, registration(self@)) {
                (Ok(s), Ok(t)) => s@ == t,
                (Err(e), Err(f)) => e == f,
                _ => false,
            },
            r.1 == (ShellOptions { no_profile: true, non_interactive: true, hidden: false, print_commands: true }),
    {
        (build_registration(self.task_name, self.action, self.trigger, self.description), visible_shell())
    }
}

} // verus!
