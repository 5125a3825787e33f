//! A to-do item, as a sample of an aggregate: commands are held against its state and become
//! events, and events change its state.

use vstd::prelude::*;

verus! {

/// A point in time, in nanoseconds since a start that the application chooses.
#[derive(Clone, Copy, Debug, PartialEq, Eq, PartialOrd, Ord, Hash, Structural)]
pub struct Instant {
    pub nanos: u128,
}

/// Something that happened to a to-do item.
#[derive(Clone, Debug, PartialEq, Eq)]
pub enum Event {
    TextUpdated(String),
    ReminderUpdated(Option<Instant>),
    Completed,
    Uncompleted,
}

/// Something that happened to a to-do item, as mathematics.
pub enum EventView {
    TextUpdated(Seq<char>),
    ReminderUpdated(Option<Instant>),
    Completed,
    Uncompleted,
}

impl View for Event {
    type V = EventView;

    open spec fn view(&self) -> EventView {
        match self {
            Event::TextUpdated(text) => EventView::TextUpdated(text@),
            Event::ReminderUpdated(reminder) => EventView::ReminderUpdated(*reminder),
            Event::Completed => EventView::Completed,
            Event::Uncompleted => EventView::Uncompleted,
        }
    }
}

/// When to be reminded, and what time it is.
#[derive(Clone, Copy, Debug, PartialEq, Eq, Structural)]
pub struct SetReminderData {
    pub current_time: Instant,
    pub reminder_time: Instant,
}

/// What can be asked of a to-do item.
#[derive(Clone, Debug, PartialEq, Eq)]
pub enum Command {
    UpdateText(String),
    SetReminder(SetReminderData),
    CancelReminder,
    ToggleCompletion,
    MarkCompleted,
    ResetCompleted,
}

/// What can be asked of a to-do item, as mathematics.
pub enum CommandView {
    UpdateText(Seq<char>),
    SetReminder(SetReminderData),
    CancelReminder,
    ToggleCompletion,
    MarkCompleted,
    ResetCompleted,
}

impl View for Command {
    type V = CommandView;

    open spec fn view(&self) -> CommandView {
        match self {
            Command::UpdateText(text) => CommandView::UpdateText(text@),
            Command::SetReminder(data) => CommandView::SetReminder(*data),
            Command::CancelReminder => CommandView::CancelReminder,
            Command::ToggleCompletion => CommandView::ToggleCompletion,
            Command::MarkCompleted => CommandView::MarkCompleted,
            Command::ResetCompleted => CommandView::ResetCompleted,
        }
    }
}

/// Why a command is turned down.
#[derive(Clone, Copy, Debug, PartialEq, Eq, Hash, Structural)]
pub enum CommandError {
    InvalidText,
    ReminderTimeInPast,
}

/// Whether an item is to be stored as a snapshot.
#[derive(Clone, Copy, Debug, PartialEq, Eq, Hash, Structural)]
pub enum SnapshotDecision {
    Persist,
    Skip,
}

/// Whether a to-do item is done.
#[derive(Clone, Copy, Debug, PartialEq, Eq, Hash, Structural)]
pub enum TodoStatus {
    Completed,
    NotCompleted,
}

impl Default for TodoStatus {
    fn default() -> (status: TodoStatus)
        ensures
            status == TodoStatus::NotCompleted,
    {
        TodoStatus::NotCompleted
    }
}

/// The state of a to-do item.
#[derive(Clone, Debug, PartialEq, Eq)]
pub struct TodoState {
    pub description: String,
    pub reminder: Option<Instant>,
    pub status: TodoStatus,
}

/// The state of a to-do item, as mathematics.
#[verifier::ext_equal]
pub struct TodoStateView {
    pub description: Seq<char>,
    pub reminder: Option<Instant>,
    pub status: TodoStatus,
}

impl View for TodoState {
    type V = TodoStateView;

    open spec fn view(&self) -> TodoStateView {
        TodoStateView {
            description: self.description@,
            reminder: self.reminder,
            status: self.status,
        }
    }
}

impl Default for TodoState {
    fn default() -> (state: TodoState)
        ensures
            state@ == (TodoStateView {
                description: Seq::empty(),
                reminder: None,
                status: TodoStatus::NotCompleted,
            }),
    {
        TodoState {
            description: String::default(),
            reminder: None,
            status: TodoStatus::NotCompleted,
        }
    }
}

impl TodoStateView {
    /// The state after an event.
    pub open spec fn apply(self, event: EventView) -> TodoStateView {
        match event {
            EventView::TextUpdated(text) => TodoStateView { description: text, ..self },
            EventView::ReminderUpdated(reminder) => TodoStateView { reminder, ..self },
            EventView::Completed => TodoStateView { status: TodoStatus::Completed, ..self },
            EventView::Uncompleted => TodoStateView { status: TodoStatus::NotCompleted, ..self },
        }
    }

    /// The state after a number of events, one after the other.
    pub open spec fn apply_all(self, events: Seq<EventView>) -> TodoStateView
        decreases events.len(),
    {
        if events.len() == 0 {
            self
        } else {
            self.apply_all(events.drop_last()).apply(events.last())
        }
    }

    /// That a command asks for nothing that is not so already.
    pub open spec fn satisfies(self, command: CommandView) -> bool {
        match command {
            CommandView::UpdateText(text) => self.description == text,
            CommandView::SetReminder(data) => self.reminder == Some(data.reminder_time),
            CommandView::CancelReminder => self.reminder is None,
            CommandView::ToggleCompletion => false,
            CommandView::MarkCompleted => self.status == TodoStatus::Completed,
            CommandView::ResetCompleted => self.status == TodoStatus::NotCompleted,
        }
    }

    /// The event that brings about what a command asks for.
    pub open spec fn wanted_event(self, command: CommandView) -> EventView {
        match command {
            CommandView::UpdateText(text) => EventView::TextUpdated(text),
            CommandView::SetReminder(data) => EventView::ReminderUpdated(Some(data.reminder_time)),
            CommandView::CancelReminder => EventView::ReminderUpdated(None),
            CommandView::ToggleCompletion => if self.status == TodoStatus::Completed {
                EventView::Uncompleted
            } else {
                EventView::Completed
            },
            CommandView::MarkCompleted => EventView::Completed,
            CommandView::ResetCompleted => EventView::Uncompleted,
        }
    }

    /// What comes of a command: the reason why it is turned down, or the events that it becomes.
    /// An empty text and a reminder that does not lie ahead are turned down; a command that asks
    /// for nothing new becomes no event, any other becomes one.
    pub open spec fn execute(self, command: CommandView) -> Result<Seq<EventView>, CommandError> {
        if command matches CommandView::UpdateText(text) && text.len() == 0 {
            Err(CommandError::InvalidText)
        } else if command matches CommandView::SetReminder(data) && data.current_time.nanos
            >= data.reminder_time.nanos {
            Err(CommandError::ReminderTimeInPast)
        } else if self.satisfies(command) {
            Ok(Seq::empty())
        } else {
            Ok(seq![self.wanted_event(command)])
        }
    }
}

/// The events, as mathematics.
pub open spec fn event_views(events: Seq<Event>) -> Seq<EventView> {
    Seq::new(events.len(), |i: int| events[i]@)
}

impl TodoState {
    /// Changes the state by an event.
    pub fn apply(&mut self, evt: Event)
        ensures
            final(self)@ == old(self)@.apply(evt@),
    {
        match evt {
            Event::TextUpdated(txt) => {
                self.description = txt;
            },
            Event::ReminderUpdated(r) => {
                self.reminder = r;
            },
            Event::Completed => {
                self.status = TodoStatus::Completed;
            },
            Event::Uncompleted => {
                self.status = TodoStatus::NotCompleted;
            },
        }
    }

    /// Holds a command against the state.
    pub fn execute(&self, cmd: Command) -> (result: Result<Vec<Event>, CommandError>)
        ensures
            match result {
                Ok(events) => self@.execute(cmd@) == Ok::<Seq<EventView>, CommandError>(
                    event_views(events@),
                ),
                Err(error) => self@.execute(cmd@) == Err::<Seq<EventView>, CommandError>(error),
            },
    {
        let result: Result<Vec<Event>, CommandError> = match cmd {
            Command::UpdateText(txt) => {
                if txt.as_str().is_empty() {
                    Err(CommandError::InvalidText)
                } else if txt != self.description {
                    Ok(vec![Event::TextUpdated(txt)])
                } else {
                    Ok(Vec::new())
                }
            },
            Command::SetReminder(rem) => {
                if rem.current_time.nanos >= rem.reminder_time.nanos {
                    Err(CommandError::ReminderTimeInPast)
                } else {
                    match self.reminder {
                        Some(existing_time) if existing_time == rem.reminder_time => Ok(Vec::new()),
                        _ => Ok(vec![Event::ReminderUpdated(Some(rem.reminder_time))]),
                    }
                }
            },
            Command::CancelReminder => {
                if self.reminder.is_some() {
                    Ok(vec![Event::ReminderUpdated(None)])
                } else {
                    Ok(Vec::new())
                }
            },
            Command::ToggleCompletion => {
                match self.status {
                    TodoStatus::Completed => Ok(vec![Event::Uncompleted]),
                    TodoStatus::NotCompleted => Ok(vec![Event::Completed]),
                }
            },
            Command::MarkCompleted => {
                match self.status {
                    TodoStatus::Completed => Ok(Vec::new()),
                    TodoStatus::NotCompleted => Ok(vec![Event::Completed]),
                }
            },
            Command::ResetCompleted => {
                match self.status {
                    TodoStatus::Completed => Ok(vec![Event::Uncompleted]),
                    TodoStatus::NotCompleted => Ok(Vec::new()),
                }
            },
        };
        proof {
            if result is Ok {
                assert(self@.execute(cmd@)->Ok_0 =~= event_views(result->Ok_0@));
            }
        }
        result
    }

    /// A to-do item is never stored as a snapshot.
    pub fn should_snapshot(&self) -> (decision: SnapshotDecision)
        ensures
            decision == SnapshotDecision::Skip,
    {
        SnapshotDecision::Skip
    }
}

/// A command that is carried out brings about what it asks for.
pub proof fn law_command_takes_effect(state: TodoStateView, command: CommandView)
    requires
        state.execute(command) is Ok,
        !(command is ToggleCompletion),
    ensures
        state.apply_all(state.execute(command)->Ok_0).satisfies(command),
{
    reveal_with_fuel(TodoStateView::apply_all, 2);
}

/// A command that is given again right after it was carried out becomes no further event.
pub proof fn law_repeated_command_changes_nothing(state: TodoStateView, command: CommandView)
    requires
        state.execute(command) is Ok,
        !(command is ToggleCompletion),
    ensures
        ({
            let after = state.apply_all(state.execute(command)->Ok_0);
            after.execute(command) == Ok::<Seq<EventView>, CommandError>(Seq::empty())
        }),
{
    law_command_takes_effect(state, command);
}

/// Toggling the completion twice leads back to the state before.
pub proof fn law_toggling_twice_restores(state: TodoStateView)
    ensures
        ({
            let toggle = CommandView::ToggleCompletion;
            let once = state.apply_all(state.execute(toggle)->Ok_0);
            let twice = once.apply_all(once.execute(toggle)->Ok_0);
            state.execute(toggle) is Ok && once.execute(toggle) is Ok && twice == state
        }),
{
    reveal_with_fuel(TodoStateView::apply_all, 2);
}

/// Whether a command is turned down, and why, does not depend on the state.
pub proof fn law_commands_turned_down_regardless_of_state(
    state: TodoStateView,
    other: TodoStateView,
    command: CommandView,
)
    ensures
        state.execute(command) is Err <==> other.execute(command) is Err,
        state.execute(command) is Err ==> state.execute(command) == other.execute(command),
{
}

/// An event changes what it is about, to what it says, and nothing else: a text the description, a
/// reminder the reminder, a completion or its reset the status.
pub proof fn law_event_changes_only_what_it_is_about(state: TodoStateView, event: EventView)
    ensures
        event matches EventView::TextUpdated(text) ==> {
            &&& state.apply(event).description == text
            &&& state.apply(event).reminder == state.reminder
            &&& state.apply(event).status == state.status
        },
        event matches EventView::ReminderUpdated(reminder) ==> {
            &&& state.apply(event).description == state.description
            &&& state.apply(event).reminder == reminder
            &&& state.apply(event).status == state.status
        },
        event is Completed || event is Uncompleted ==> {
            &&& state.apply(event).description == state.description
            &&& state.apply(event).reminder == state.reminder
            &&& state.apply(event).status == TodoStatus::Completed <==> event is Completed
        },
{
}

/// States, events and commands are looked at as they are: the mathematics of each holds its texts,
/// its times and its status unchanged.
pub proof fn law_values_are_looked_at_as_they_are(state: TodoState, event: Event, command: Command)
    ensures
        state@.description == state.description@,
        state@.reminder == state.reminder,
        state@.status == state.status,
        event matches Event::TextUpdated(text) ==> event@ == EventView::TextUpdated(text@),
        event matches Event::ReminderUpdated(reminder) ==> event@ == EventView::ReminderUpdated(
            reminder,
        ),
        event is Completed <==> event@ is Completed,
        event is Uncompleted <==> event@ is Uncompleted,
        command matches Command::UpdateText(text) ==> command@ == CommandView::UpdateText(text@),
        command matches Command::SetReminder(data) ==> command@ == CommandView::SetReminder(data),
        command is CancelReminder <==> command@ is CancelReminder,
        command is ToggleCompletion <==> command@ is ToggleCompletion,
        command is MarkCompleted <==> command@ is MarkCompleted,
        command is ResetCompleted <==> command@ is ResetCompleted,
{
}

/// A new item has no text and no reminder, and is not completed.
pub proof fn law_new_item_is_empty(state: TodoState, status: TodoStatus)
    requires
        call_ensures(<TodoState as Default>::default, (), state),
        call_ensures(<TodoStatus as Default>::default, (), status),
    ensures
        state.description@.len() == 0,
        state.reminder is None,
        state.status == TodoStatus::NotCompleted,
        status == state.status,
{
}

/// A command is turned down exactly when it brings an empty text, or a reminder that does not lie
/// ahead of the current time, and the error says which.
pub proof fn law_commands_are_turned_down_for_their_reason(
    state: TodoStateView,
    command: CommandView,
)
    ensures
        state.execute(command) == Err::<Seq<EventView>, CommandError>(CommandError::InvalidText)
            <==> (command matches CommandView::UpdateText(text) && text.len() == 0),
        state.execute(command) == Err::<Seq<EventView>, CommandError>(
            CommandError::ReminderTimeInPast,
        ) <==> (command matches CommandView::SetReminder(data) && data.reminder_time.nanos
            <= data.current_time.nanos),
        state.execute(command) is Err <==> {
            ||| command matches CommandView::UpdateText(text) && text.len() == 0
            ||| command matches CommandView::SetReminder(data) && data.reminder_time.nanos
                <= data.current_time.nanos
        },
{
}

/// A command that is carried out leaves the item as it asks: with the text, with the reminder or
/// without one, completed or not, or with the completion turned round. It leaves everything else
/// as it was. It becomes one event if that changes the item, and none if it does not.
pub proof fn law_command_changes_what_it_asks_for(state: TodoStateView, command: CommandView)
    requires
        state.execute(command) is Ok,
    ensures
        ({
            let events = state.execute(command)->Ok_0;
            let after = state.apply_all(events);
            &&& events.len() <= 1
            &&& events.len() == 0 <==> after == state
            &&& match command {
                CommandView::UpdateText(text) => {
                    &&& after.description == text
                    &&& after.reminder == state.reminder
                    &&& after.status == state.status
                },
                CommandView::SetReminder(data) => {
                    &&& after.description == state.description
                    &&& after.reminder == Some(data.reminder_time)
                    &&& after.status == state.status
                },
                CommandView::CancelReminder => {
                    &&& after.description == state.description
                    &&& after.reminder is None
                    &&& after.status == state.status
                },
                CommandView::ToggleCompletion => {
                    &&& after.description == state.description
                    &&& after.reminder == state.reminder
                    &&& after.status != state.status
                },
                CommandView::MarkCompleted => {
                    &&& after.description == state.description
                    &&& after.reminder == state.reminder
                    &&& after.status == TodoStatus::Completed
                },
                CommandView::ResetCompleted => {
                    &&& after.description == state.description
                    &&& after.reminder == state.reminder
                    &&& after.status == TodoStatus::NotCompleted
                },
            }
        }),
{
    reveal_with_fuel(TodoStateView::apply_all, 2);
}

/// What comes of a command is what the item says of it: the error, or the events, one for one.
pub proof fn law_execution_gives_the_events(
    state: TodoState,
    command: Command,
    result: Result<Vec<Event>, CommandError>,
)
    requires
        call_ensures(TodoState::execute, (&state, command), result),
    ensures
        result is Err <==> state@.execute(command@) is Err,
        result matches Err(error) ==> state@.execute(command@)->Err_0 == error,
        result matches Ok(events) ==> {
            &&& events@.len() == state@.execute(command@)->Ok_0.len()
            &&& forall|i: int|
                0 <= i < events@.len() ==> (#[trigger] events@[i])@ == state@.execute(
                    command@,
                )->Ok_0[i]
        },
{
}

/// An item is never stored as a snapshot, whatever its state.
pub proof fn law_items_are_never_stored(state: TodoState, decision: SnapshotDecision)
    requires
        call_ensures(TodoState::should_snapshot, (&state,), decision),
    ensures
        decision == SnapshotDecision::Skip,
{
}

} // verus!
