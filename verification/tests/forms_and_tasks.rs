use mastertech::form::{mouse_moved, press_button, ButtonState, Field, Form, FormSelection, Validation};
use mastertech::task_scheduler::scheduler::{visible_shell, ScheduledTaskBuilder as VisibleTaskBuilder};
use mastertech::task_scheduler::{
    register_script, task_shell, RegisterError, ScheduledTask, ScheduledTaskBuilder, TaskTrigger,
};

#[test]
fn a_form_validates_only_once_submitted() {
    let mut form = Form::new(&["A", "B", "C"], Validation::NonEmpty);
    assert!(form.status().iter().all(|field| field.is_valid()));
    form.submit();
    assert!(!form.status().iter().all(|field| field.is_valid()));
    form.select(FormSelection::Active(0));
    form.append_selection('a');
    assert!(form.status()[0].is_valid());
    assert_eq!(form.status()[0].value(), "a");
    assert_eq!(form.status()[0].name(), "A");
    assert!(!form.status()[1].is_valid());
    form.submitted(false);
    assert!(form.status()[1].is_valid());
}

#[test]
fn submitting_returns_the_fields_status() {
    let mut form = Form::new(&["Service #", "Tech"], Validation::NonEmpty);
    form.select(FormSelection::Active(0));
    form.append_selection('7');
    let fields = form.submit();
    assert_eq!(fields.len(), 2);
    assert!(fields[0].is_valid());
    assert_eq!(fields[0].value(), "7");
    assert!(!fields[1].is_valid());
    assert_eq!(fields[1].name(), "Tech");
}

#[test]
fn typing_without_an_active_field_changes_nothing() {
    let mut form = Form::new(&["A"], Validation::NonEmpty);
    form.select(FormSelection::Hovered(0));
    form.append_selection('x');
    assert_eq!(form.status()[0].value(), "");
    let empty = Form::default();
    assert!(empty.status().is_empty());
}

#[test]
fn moving_between_fields_wraps_around() {
    let mut form = Form::new(&["A", "B", "C"], Validation::NonEmpty);
    form.next_field();
    assert_eq!(*form.selected(), FormSelection::Hovered(0));
    form.prev_field();
    assert_eq!(*form.selected(), FormSelection::Hovered(2));
    form.next_field();
    assert_eq!(*form.selected(), FormSelection::Hovered(0));
    form.select(FormSelection::Active(2));
    form.next_field();
    assert_eq!(*form.selected(), FormSelection::Active(0));
    form.prev_field();
    assert_eq!(*form.selected(), FormSelection::Active(2));
    form.deselect();
    assert_eq!(*form.selected(), FormSelection::NoSelection);
}

#[test]
fn fields_carry_their_validity() {
    let f = Field::valid("Name", "Bob");
    assert!(f.is_valid());
    assert_eq!(f.name(), "Name");
    assert_eq!(f.value(), "Bob");
    let g = Field::invalid("Name", "");
    assert!(!g.is_valid());
    assert_eq!(g.into_string(), "");
}

#[test]
fn terminal_buttons_follow_presses_and_the_mouse() {
    let mut states = [ButtonState::Selected, ButtonState::Normal, ButtonState::Normal];
    press_button(&mut states, 0);
    assert_eq!(states[0], ButtonState::Active);
    press_button(&mut states, 0);
    assert_eq!(states[0], ButtonState::Normal);
    let mut selected = 0usize;
    mouse_moved(&mut states, &mut selected, 20);
    assert_eq!(selected, 1);
    assert_eq!(states, [ButtonState::Normal, ButtonState::Selected, ButtonState::Normal]);
    mouse_moved(&mut states, &mut selected, 40);
    assert_eq!(selected, 2);
    assert_eq!(states, [ButtonState::Normal, ButtonState::Normal, ButtonState::Selected]);
}

#[test]
fn triggers_are_written_as_arguments() {
    assert_eq!(TaskTrigger::Daily { time: "9am".to_string() }.to_string(), "-Daily -At 9am");
    assert_eq!(
        TaskTrigger::Weekly { days_of_week: "Monday".to_string(), time: "3pm".to_string() }.to_string(),
        "-Weekly -DaysOfWeek Monday -At 3pm"
    );
    assert_eq!(TaskTrigger::Once { date_time: "2024-01-01".to_string() }.to_string(), "-Once -At 2024-01-01");
    assert_eq!(TaskTrigger::AtLogon.to_string(), "-AtLogon");
    assert_eq!(TaskTrigger::AtStartup.to_string(), "-AtStartup");
}

#[test]
fn a_task_needs_an_action_then_a_trigger() {
    let (r, shell) = ScheduledTaskBuilder::new("T").register();
    assert_eq!(r, Err(RegisterError::MissingAction));
    assert_eq!(shell, task_shell());
    let (r, _) = ScheduledTaskBuilder::new("T").action("a.exe").register();
    assert_eq!(r, Err(RegisterError::MissingTrigger));
    assert_eq!(RegisterError::MissingAction.message(), "Action must be specified before registering the task");
    assert_eq!(RegisterError::MissingTrigger.message(), "Trigger must be specified before registering the task");
}

#[test]
fn a_complete_task_registers() {
    let (r, _) = ScheduledTaskBuilder::new("Backup")
        .action("b.exe")
        .trigger(TaskTrigger::AtLogon)
        .description("nightly")
        .register();
    let script = r.unwrap();
    assert_eq!(script, register_script("b.exe", &TaskTrigger::AtLogon, "Backup", "nightly"));
    assert!(script.contains("New-ScheduledTaskAction -Execute \"b.exe\""));
    assert!(script.contains("New-ScheduledTaskTrigger -AtLogon;"));
    assert!(script.contains("Register-ScheduledTask -TaskName \"Backup\" -Action $action -Trigger $trigger -Description \"nightly\""));
    let (r, _) = ScheduledTaskBuilder::new("X").action("x").trigger(TaskTrigger::AtStartup).register();
    assert!(r.unwrap().contains("-Description \"\""));
}

#[test]
fn the_second_builder_registers_in_a_visible_shell() {
    let (r, shell) = VisibleTaskBuilder::new("T").action("a").trigger(TaskTrigger::AtStartup).register();
    assert!(r.is_ok());
    assert_eq!(shell, visible_shell());
    assert!(!visible_shell().hidden);
    assert!(task_shell().hidden);
}

#[test]
fn task_scripts() {
    assert_eq!(
        ScheduledTask::delete_task_script("T"),
        "\n            Unregister-ScheduledTask -TaskName \"T\" -Confirm:$false\n            "
    );
    assert!(ScheduledTask::modify_trigger_script("T", &TaskTrigger::AtLogon)
        .contains("New-ScheduledTaskTrigger -AtLogon;\n            Set-ScheduledTask -TaskName \"T\" -Trigger $trigger;"));
}
