use cqrs_postgres::todo::{
    Command, CommandError, Event, Instant, SetReminderData, SnapshotDecision, TodoState,
    TodoStatus,
};

fn at(nanos: u128) -> Instant {
    Instant { nanos }
}

fn reminder(current: u128, due: u128) -> Command {
    Command::SetReminder(SetReminderData {
        current_time: at(current),
        reminder_time: at(due),
    })
}

fn run(state: &mut TodoState, command: Command) -> usize {
    let events = state.execute(command).unwrap();
    let count = events.len();
    for event in events {
        state.apply(event);
    }
    count
}

#[test]
fn fresh_item_is_empty() {
    let state = TodoState::default();
    assert_eq!(state.description, "");
    assert_eq!(state.reminder, None);
    assert_eq!(state.status, TodoStatus::NotCompleted);
    assert_eq!(TodoStatus::default(), TodoStatus::NotCompleted);
    assert_eq!(state.should_snapshot(), SnapshotDecision::Skip);
}

#[test]
fn text_is_updated_once() {
    let mut state = TodoState::default();
    let hello = || Command::UpdateText("Hello world!".to_string());
    assert_eq!(
        state.execute(hello()),
        Ok(vec![Event::TextUpdated("Hello world!".to_string())])
    );
    assert_eq!(run(&mut state, hello()), 1);
    assert_eq!(state.description, "Hello world!");
    assert_eq!(run(&mut state, hello()), 0);
    assert_eq!(
        state.execute(Command::UpdateText(String::new())),
        Err(CommandError::InvalidText)
    );
}

#[test]
fn reminder_must_lie_ahead() {
    let mut state = TodoState::default();
    assert_eq!(
        state.execute(reminder(5, 5)),
        Err(CommandError::ReminderTimeInPast)
    );
    assert_eq!(
        state.execute(reminder(6, 5)),
        Err(CommandError::ReminderTimeInPast)
    );
    assert_eq!(run(&mut state, Command::CancelReminder), 0);
    assert_eq!(run(&mut state, reminder(5, 6)), 1);
    assert_eq!(state.reminder, Some(at(6)));
    assert_eq!(run(&mut state, reminder(4, 6)), 0);
    assert_eq!(
        state.execute(reminder(4, 7)),
        Ok(vec![Event::ReminderUpdated(Some(at(7)))])
    );
    assert_eq!(run(&mut state, Command::CancelReminder), 1);
    assert_eq!(state.reminder, None);
}

#[test]
fn completion_follows_the_commands() {
    let mut state = TodoState::default();
    assert_eq!(
        state.execute(Command::ToggleCompletion),
        Ok(vec![Event::Completed])
    );
    assert_eq!(run(&mut state, Command::ToggleCompletion), 1);
    assert_eq!(state.status, TodoStatus::Completed);
    assert_eq!(run(&mut state, Command::MarkCompleted), 0);
    assert_eq!(
        state.execute(Command::ResetCompleted),
        Ok(vec![Event::Uncompleted])
    );
    assert_eq!(run(&mut state, Command::ResetCompleted), 1);
    assert_eq!(state.status, TodoStatus::NotCompleted);
    assert_eq!(run(&mut state, Command::ResetCompleted), 0);
    assert_eq!(run(&mut state, Command::MarkCompleted), 1);
    assert_eq!(run(&mut state, Command::ToggleCompletion), 1);
    assert_eq!(state, TodoState::default());
}

#[test]
fn clones_are_equal() {
    let mut state = TodoState::default();
    let command = Command::UpdateText("Hello world!".to_string());
    run(&mut state, command.clone());
    assert_eq!(state.clone().description, "Hello world!");
    assert_eq!(state.execute(command).unwrap().len(), 0);
    let event = Event::Completed;
    assert_eq!(event.clone(), event);
}

#[test]
fn two_items_are_kept_apart() {
    let mut first = TodoState::default();
    let mut second = TodoState::default();
    let text = Command::UpdateText("Hello world!".to_string());
    assert_eq!(run(&mut first, text), 1);
    assert_eq!(run(&mut second, reminder(1000, 2000)), 1);
    assert_eq!(run(&mut second, Command::ToggleCompletion), 1);
    assert_eq!(run(&mut second, Command::MarkCompleted), 0);
    assert_eq!(run(&mut second, Command::ResetCompleted), 1);
    assert_eq!(first.description, "Hello world!");
    assert_eq!(first.reminder, None);
    assert_eq!(first.status, TodoStatus::NotCompleted);
    assert_eq!(second.description, "");
    assert_eq!(second.reminder, Some(at(2000)));
    assert_eq!(second.status, TodoStatus::NotCompleted);
}
