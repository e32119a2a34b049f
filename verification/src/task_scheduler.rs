//! Windows scheduled tasks: the records `Get-ScheduledTask` reports, the
//! triggers a task can have, and the PowerShell scripts that register,
//! change and remove tasks. Running a script is left to the caller, with the
//! shell options the builder asks for.
pub mod scheduler;

use vstd::prelude::*;
use crate::text::{owned, push_str};

verus! {

/// A scheduled task as `Get-ScheduledTask | ConvertTo-Json` describes it.
pub struct ScheduledTask {
    pub cim_class: CimClass,
    pub cim_instance_properties: Vec<String>,
    pub cim_system_properties: CimSystemProperties,
    pub state: Option<u8>,
    pub actions: Option<Vec<String>>,
    pub author: Option<String>,
    pub date: Option<String>,
    pub description: Option<String>,
    pub documentation: Option<String>,
    pub principal: Option<Principal>,
    pub security_descriptor: Option<String>,
    pub settings: Option<Settings>,
    pub source: Option<String>,
    pub task_name: Option<String>,
    pub task_path: Option<String>,
    pub triggers: Option<Vec<String>>,
    pub uri: Option<String>,
    pub version: Option<String>,
    pub ps_computer_name: Option<String>,
}

/// The CIM class of a scheduled task record.
pub struct CimClass {
    pub cim_super_class_name: Option<String>,
    pub cim_super_class: Option<String>,
    pub cim_class_properties: Option<String>,
    pub cim_class_qualifiers: Option<String>,
    pub cim_class_methods: Option<String>,
    pub cim_system_properties: Option<String>,
}

/// Where a CIM record comes from.
pub struct CimSystemProperties {
    pub namespace: Option<String>,
    pub server_name: Option<String>,
    pub class_name: Option<String>,
    pub path: Option<String>,
}

/// The account a task runs as, as the record holds it.
pub struct Principal {
    pub cim_class: Option<String>,
    pub cim_instance_properties: Option<String>,
    pub cim_system_properties: Option<String>,
}

/// A task's settings, as the record holds them.
pub struct Settings {
    pub cim_class: Option<String>,
    pub cim_instance_properties: Option<String>,
    pub cim_system_properties: Option<String>,
}

/// Enum for specifying possible task triggers
pub enum TaskTrigger {
    Daily { time: String },
    Weekly { days_of_week: String, time: String },
    Once { date_time: String },
    AtLogon,
    AtStartup,
}

/// The arguments of `New-ScheduledTaskTrigger` for a trigger.
pub open spec fn trigger_text(t: TaskTrigger) -> Seq<char> {
    match t {
        TaskTrigger::Daily { time } => "-Daily -At "@ + time@,
        TaskTrigger::Weekly { days_of_week, time } => "-Weekly -DaysOfWeek "@ + days_of_week@ + " -At "@ + time@,
        TaskTrigger::Once { date_time } => "-Once -At "@ + date_time@,
        TaskTrigger::AtLogon => "-AtLogon"@,
        TaskTrigger::AtStartup => "-AtStartup"@,
    }
}

impl TaskTrigger {
    /// The trigger as `New-ScheduledTaskTrigger` arguments.
    pub fn to_string(&self) -> (s: String)
        ensures
            s@ == trigger_text(*self),
    {
        match self {
            TaskTrigger::Daily { time } => {
                let mut s = owned("-Daily -At ");
                push_str(&mut s, time.as_str());
                s
            },
            TaskTrigger::Weekly { days_of_week, time } => {
                let mut s = owned("-Weekly -DaysOfWeek ");
                push_str(&mut s, days_of_week.as_str());
                push_str(&mut s, " -At ");
                push_str(&mut s, time.as_str());
                s
            },
            TaskTrigger::Once { date_time } => {
                let mut s = owned("-Once -At ");
                push_str(&mut s, date_time.as_str());
                s
            },
            TaskTrigger::AtLogon => owned("-AtLogon"),
            TaskTrigger::AtStartup => owned("-AtStartup"),
        }
    }
}

/// How PowerShell is started for a script.
#[derive(PartialEq, Eq, Structural, Clone, Copy, Debug)]
pub struct ShellOptions {
    pub no_profile: bool,
    pub non_interactive: bool,
    pub hidden: bool,
    pub print_commands: bool,
}

/// Why a task cannot be registered yet.
#[derive(PartialEq, Eq, Structural, Clone, Copy, Debug)]
pub enum RegisterError {
    MissingAction,
    MissingTrigger,
}

/// The message of a registration error.
pub open spec fn register_error_text(e: RegisterError) -> Seq<char> {
    match e {
        RegisterError::MissingAction => "Action must be specified before registering the task"@,
        RegisterError::MissingTrigger => "Trigger must be specified before registering the task"@,
    }
}

impl RegisterError {
    /// The error's message.
    pub fn message(&self) -> (s: &'static str)
        ensures
            s@ == register_error_text(*self),
    {
        match self {
            RegisterError::MissingAction => "Action must be specified before registering the task",
            RegisterError::MissingTrigger => "Trigger must be specified before registering the task",
        }
    }
}

/// The script that registers a task running `action` on `trigger`.
pub open spec fn register_text(action: Seq<char>, trigger: Seq<char>, task_name: Seq<char>, description: Seq<char>) -> Seq<char> {
    "\n            $action = New-ScheduledTaskAction -Execute \""@ + action
        + "\";\n            $trigger = New-ScheduledTaskTrigger "@ + trigger
        + ";\n            Register-ScheduledTask -TaskName \""@ + task_name
        + "\" -Action $action -Trigger $trigger -Description \""@ + description
        + "\";\n            "@
}

/// The script that registers a task.
pub fn register_script(action: &str, trigger: &TaskTrigger, task_name: &str, description: &str) -> (s: String)
    ensures
        s@ == register_text(action@, trigger_text(*trigger), task_name@, description@),
{
    let mut s = owned("\n            $action = New-ScheduledTaskAction -Execute \"");
    push_str(&mut s, action);
    push_str(&mut s, "\";\n            $trigger = New-ScheduledTaskTrigger ");
    let t = trigger.to_string();
    push_str(&mut s, t.as_str());
    push_str(&mut s, ";\n            Register-ScheduledTask -TaskName \"");
    push_str(&mut s, task_name);
    push_str(&mut s, "\" -Action $action -Trigger $trigger -Description \"");
    push_str(&mut s, description);
    push_str(&mut s, "\";\n            ");
    s
}

/// The script that removes the task `task_name` without asking.
pub open spec fn delete_text(task_name: Seq<char>) -> Seq<char> {
    "\n            Unregister-ScheduledTask -TaskName \""@ + task_name + "\" -Confirm:$false\n            "@
}

/// The script that gives the task `task_name` a new trigger.
pub open spec fn modify_trigger_text(task_name: Seq<char>, trigger: Seq<char>) -> Seq<char> {
    "\n            $trigger = New-ScheduledTaskTrigger "@ + trigger + ";\n            Set-ScheduledTask -TaskName \""@
        + task_name + "\" -Trigger $trigger;\n            "@
}

/// The query that lists every scheduled task as JSON.
pub const LIST_TASKS_QUERY: &'static str = "Get-ScheduledTask | ConvertTo-Json";

/// The shell the task scripts of this module run in: no profile, no
/// prompts, hidden, commands not echoed.
pub fn task_shell() -> (o: ShellOptions)
    ensures
        o == (ShellOptions { no_profile: true, non_interactive: true, hidden: true, print_commands: false }),
{
    ShellOptions { no_profile: true, non_interactive: true, hidden: true, print_commands: false }
}

impl ScheduledTask {
    /// The script that deletes a scheduled task by name.
    pub fn delete_task_script(task_name: &str) -> (s: String)
        ensures
            s@ == delete_text(task_name@),
    {
        let mut s = owned("\n            Unregister-ScheduledTask -TaskName \"");
        push_str(&mut s, task_name);
        push_str(&mut s, "\" -Confirm:$false\n            ");
        s
    }

    /// The script that modifies a task trigger.
    pub fn modify_trigger_script(task_name: &str, new_trigger: &TaskTrigger) -> (s: String)
        ensures
            s@ == modify_trigger_text(task_name@, trigger_text(*new_trigger)),
    {
        let mut s = owned("\n            $trigger = New-ScheduledTaskTrigger ");
        let t = new_trigger.to_string();
        push_str(&mut s, t.as_str());
        push_str(&mut s, ";\n            Set-ScheduledTask -TaskName \"");
        push_str(&mut s, task_name);
        push_str(&mut s, "\" -Trigger $trigger;\n            ");
        s
    }
}

/// What a task builder holds.
pub struct TaskSpec {
    pub task_name: Seq<char>,
    pub action: Option<Seq<char>>,
    pub trigger: Option<TaskTrigger>,
    pub description: Option<Seq<char>>,
}

/// The script registering the task `t` describes, or why it cannot be
/// registered yet: the action is needed first, then the trigger; a missing
/// description is empty.
pub open spec fn registration(t: TaskSpec) -> Result<Seq<char>, RegisterError> {
    match t.action {
        None => Err(RegisterError::MissingAction),
        Some(action) => match t.trigger {
            None => Err(RegisterError::MissingTrigger),
            Some(trigger) => Ok(register_text(action, trigger_text(trigger), t.task_name,
                match t.description { Some(d) => d, None => Seq::empty() })),
        },
    }
}

/// The view of an optional string.
pub open spec fn opt_view(o: Option<String>) -> Option<Seq<char>> {
    match o {
        Some(s) => Some(s@),
        None => None,
    }
}

/// Builder pattern for creating or modifying a scheduled task
pub struct ScheduledTaskBuilder {
    task_name: String,
    action: Option<String>,
    trigger: Option<TaskTrigger>,
    description: Option<String>,
}

impl View for ScheduledTaskBuilder {
    type V = TaskSpec;

    closed spec fn view(&self) -> TaskSpec {
        TaskSpec {
            task_name: self.task_name@,
            action: opt_view(self.action),
            trigger: self.trigger,
            description: opt_view(self.description),
        }
    }
}

impl ScheduledTaskBuilder {
    /// Creates a new ScheduledTaskBuilder with the task name
    pub fn new(task_name: &str) -> (b: Self)
        ensures
            b@ == (TaskSpec { task_name: task_name@, action: None, trigger: None, description: None }),
    {
        Self { task_name: owned(task_name), action: None, trigger: None, description: None }
    }

    /// Sets the executable action for the task
    pub fn action(self, executable: &str) -> (b: Self)
        ensures
            b@ == (TaskSpec { action: Some(executable@), ..self@ }),
    {
        Self { action: Some(owned(executable)), ..self }
    }

    /// Sets the trigger for the task
    pub fn trigger(self, trigger: TaskTrigger) -> (b: Self)
        ensures
            b@ == (TaskSpec { trigger: Some(trigger), ..self@ }),
    {
        Self { trigger: Some(trigger), ..self }
    }

    /// Sets a description for the task
    pub fn description(self, description: &str) -> (b: Self)
        ensures
            b@ == (TaskSpec { description: Some(description@), ..self@ }),
    {
        Self { description: Some(owned(description)), ..self }
    }

    /// The script that registers the task, or why it cannot be registered
    /// yet, with the shell to run it in.
    pub fn register(self) -> (r: (Result<String, RegisterError>, ShellOptions))
        ensures
            match (r.0, registration(self@)) {
                (Ok(s), Ok(t)) => s@ == t,
                (Err(e), Err(f)) => e == f,
                _ => false,
            },
            r.1 == (ShellOptions { no_profile: true, non_interactive: true, hidden: true, print_commands: false }),
    {
        (build_registration(self.task_name, self.action, self.trigger, self.description), task_shell())
    }
}

/// The registration script for the parts of a builder.
pub(crate) fn build_registration(task_name: String, action: Option<String>, trigger: Option<TaskTrigger>,
    description: Option<String>) -> (r: Result<String, RegisterError>)
    ensures
        match (r, registration(TaskSpec { task_name: task_name@, action: opt_view(action), trigger,
            description: opt_view(description) })) {
            (Ok(s), Ok(t)) => s@ == t,
            (Err(e), Err(f)) => e == f,
            _ => false,
        },
{
    let action = match action {
        Some(a) => a,
        None => { return Err(RegisterError::MissingAction); },
    };
    let trigger = match trigger {
        Some(t) => t,
        None => { return Err(RegisterError::MissingTrigger); },
    };
    let description = match description {
        Some(d) => d,
        None => String::new(),
    };
    Ok(register_script(action.as_str(), &trigger, task_name.as_str(), description.as_str()))
}

} // verus!
