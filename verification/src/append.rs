//! Appending events to the stream of an aggregate.
//!
//! An append runs inside one transaction. The caller starts a session, does what the
//! [`AppendAction`] that comes with it says, hands the outcome to [`AppendSession::step`], does
//! what the action returned by that says, and goes on until the action is a
//! [`AppendAction::Return`]. A transaction that has not been told to commit by then is given up.
//!
//! The session holds the precondition against the version that the database tells, and writes the
//! events down one by one: the caller is only asked to talk to the database.

use vstd::pervasive::unreached;
use vstd::prelude::*;

use crate::aggregate::{Precondition, SerializableEvent};
use crate::error::PersistError;
use crate::statement::{event_insert, max_sequence_query, Statement, StatementView, INSERT_EVENT};
use crate::version::{from_column, number_of, EventNumber, Version};

verus! {

/// What came of the last action.
#[derive(Debug)]
pub enum AppendReply {
    /// The transaction was opened, the statement was prepared, the event was inserted, or the
    /// transaction was committed.
    Done,
    /// The first row of the answer to the query for the last event, if there is a row, and the
    /// value in it, if it is not null.
    MaxSequence(Option<Option<i64>>),
    /// The database reported an error.
    Failed(postgres::error::Error),
}

/// What the caller does next. `R` is what a precondition reports, `X` what a serializer reports.
#[derive(Debug)]
pub enum AppendAction<'a, R, X> {
    /// Open a transaction.
    Begin,
    /// Run the query.
    Query(Statement<'a>),
    /// Prepare the statement with this text.
    Prepare(&'static str),
    /// Run the prepared statement with these parameters.
    Execute(Statement<'a>),
    /// Commit the transaction.
    Commit,
    /// Stop, with this answer.
    Return(Result<EventNumber, PersistError<R, X>>),
}

/// What the caller does next, as mathematics.
pub enum AppendActionView<R, X> {
    Begin,
    Query(StatementView),
    Prepare(Seq<char>),
    Execute(StatementView),
    Commit,
    Return(Result<nat, PersistError<R, X>>),
}

impl<'a, R, X> View for AppendAction<'a, R, X> {
    type V = AppendActionView<R, X>;

    open spec fn view(&self) -> AppendActionView<R, X> {
        match *self {
            AppendAction::Begin => AppendActionView::Begin,
            AppendAction::Query(statement) => AppendActionView::Query(statement@),
            AppendAction::Prepare(text) => AppendActionView::Prepare(text@),
            AppendAction::Execute(statement) => AppendActionView::Execute(statement@),
            AppendAction::Commit => AppendActionView::Commit,
            AppendAction::Return(Ok(first)) => AppendActionView::Return(Ok(first@)),
            AppendAction::Return(Err(error)) => AppendActionView::Return(Err(error)),
        }
    }
}

/// How far an append has come.
#[derive(Clone, Copy, Debug)]
enum AppendState {
    /// The transaction is being opened.
    Opening,
    /// The query for the last event has been sent.
    Checking,
    /// The insert statement is being prepared. The aggregate has this version.
    Preparing { version: Version },
    /// The event at index `written` is being inserted.
    Inserting { first: EventNumber, next: Version, written: usize },
    /// The transaction is being committed.
    Committing { first: EventNumber },
    /// The answer has been given.
    Closed,
}

/// How far an append has come, as mathematics.
pub enum AppendStateView {
    Opening,
    Checking,
    Preparing { version: nat },
    Inserting { first: nat, written: nat },
    Committing { first: nat },
    Closed,
}

/// One append of events to the stream of one aggregate.
#[derive(Debug)]
pub struct AppendSession<'a, P, E> {
    entity_type: &'a str,
    entity_id: &'a str,
    events: &'a [E],
    precondition: Option<P>,
    state: AppendState,
}

/// One append, as mathematics. The precondition is gone once it has been held against the version.
#[verifier::ext_equal]
pub struct AppendSessionView<P, E> {
    pub entity_type: Seq<char>,
    pub entity_id: Seq<char>,
    pub events: Seq<E>,
    pub precondition: Option<P>,
    pub state: AppendStateView,
}

impl<'a, P, E> View for AppendSession<'a, P, E> {
    type V = AppendSessionView<P, E>;

    closed spec fn view(&self) -> AppendSessionView<P, E> {
        AppendSessionView {
            entity_type: self.entity_type@,
            entity_id: self.entity_id@,
            events: self.events@,
            precondition: self.precondition,
            state: match self.state {
                AppendState::Opening => AppendStateView::Opening,
                AppendState::Checking => AppendStateView::Checking,
                AppendState::Preparing { version } => AppendStateView::Preparing {
                    version: version@,
                },
                AppendState::Inserting {
                    first,
                    next,
                    written,
                } => AppendStateView::Inserting { first: first@, written: written as nat },
                AppendState::Committing { first } => AppendStateView::Committing { first: first@ },
                AppendState::Closed => AppendStateView::Closed,
            },
        }
    }
}

/// An append that has just been started: its transaction is being opened.
pub open spec fn append_start<P, E>(
    entity_type: Seq<char>,
    entity_id: Seq<char>,
    events: Seq<E>,
    precondition: Option<P>,
) -> AppendSessionView<P, E> {
    AppendSessionView {
        entity_type,
        entity_id,
        events,
        precondition,
        state: AppendStateView::Opening,
    }
}

/// The current version that the answer to the query for the last event tells: none without a row,
/// and none if its value is null.
pub open spec fn reported_version(row: Option<Option<i64>>) -> Option<nat> {
    match row {
        Some(Some(max_sequence)) => Some(number_of(max_sequence as int)),
        _ => None,
    }
}

/// The value of a version that may be missing: zero if it is.
pub open spec fn version_or_initial(version: Option<nat>) -> nat {
    match version {
        Some(version) => version,
        None => 0,
    }
}

/// The version that has a given value, if there is one.
pub open spec fn version_of(value: Option<nat>) -> Option<Version> {
    match value {
        Some(value) => Some(Version::of(value)),
        None => None,
    }
}

/// That holding a precondition against the current version can come to `verdict`. Without a
/// precondition nothing is refused.
pub open spec fn verdict_on<P: Precondition>(
    precondition: Option<P>,
    current_version: Option<Version>,
    verdict: Result<(), P::Refusal>,
) -> bool {
    match precondition {
        None => verdict == Ok::<(), P::Refusal>(()),
        Some(precondition) => call_ensures(P::verify, (precondition, current_version), verdict),
    }
}

/// That an event can have the type `event_type`.
pub open spec fn has_type<E: SerializableEvent>(event: &E, event_type: Seq<char>) -> bool {
    exists|name: &'static str|
        name@ == event_type && #[trigger] call_ensures(E::event_type, (event,), name)
}

/// That writing an event down, into a buffer that holds nothing before, can fail with `error`.
pub open spec fn serialization_fails<E: SerializableEvent>(event: &E, error: E::Error) -> bool {
    exists|left: Seq<u8>| #[trigger] event.serializes(Seq::empty(), left, Err(error))
}

/// That writing an event down, into a buffer that holds nothing before, can come to `outcome`: its
/// type and its text, or an error.
pub open spec fn written_as<E: SerializableEvent>(
    event: &E,
    outcome: Result<(Seq<char>, Seq<u8>), E::Error>,
) -> bool {
    match outcome {
        Ok((event_type, payload)) => {
            &&& event.serializes(Seq::empty(), payload, Ok(()))
            &&& has_type(event, event_type)
        },
        Err(error) => serialization_fails(event, error),
    }
}

/// What the application answers when a step of an append asks it something.
pub enum AppendAnswer<R, X> {
    /// It was not asked.
    Unasked,
    /// What came of holding the precondition against the version.
    Verdict(Result<(), R>),
    /// What came of writing an event down: its type and its text, or an error.
    Written(Result<(Seq<char>, Seq<u8>), X>),
}

/// That `reply` can come of the action that led to the state of `session`, and leaves room for the
/// event numbers that it makes the session count to.
pub open spec fn append_accepts<P, E>(session: AppendSessionView<P, E>, reply: AppendReply) -> bool {
    match (session.state, reply) {
        (AppendStateView::Closed, _) => false,
        (_, AppendReply::Failed(_)) => true,
        (AppendStateView::Opening, AppendReply::Done) => true,
        (AppendStateView::Checking, AppendReply::MaxSequence(row)) => {
            session.events.len() == 0 ==> version_or_initial(reported_version(row)) < u64::MAX
        },
        (AppendStateView::Preparing { version }, AppendReply::Done) => version < u64::MAX,
        (AppendStateView::Inserting { first, written }, AppendReply::Done) => {
            first + written < u64::MAX
        },
        (AppendStateView::Committing { .. }, AppendReply::Done) => true,
        _ => false,
    }
}

/// That `answer` can come of what `reply` makes the session ask the application: its precondition
/// is held against the version that the database tells, unless there are no events; the first
/// event is written down once the statement is prepared, each further one once the one before it
/// is inserted.
pub open spec fn append_answered<P: Precondition, E: SerializableEvent>(
    session: AppendSessionView<P, E>,
    reply: AppendReply,
    answer: AppendAnswer<P::Refusal, E::Error>,
) -> bool {
    match (session.state, reply) {
        (AppendStateView::Checking, AppendReply::MaxSequence(row)) if session.events.len() > 0 => {
            &&& answer matches AppendAnswer::Verdict(verdict)
            &&& verdict_on(session.precondition, version_of(reported_version(row)), verdict)
        },
        (AppendStateView::Preparing { .. }, AppendReply::Done) => {
            &&& answer matches AppendAnswer::Written(outcome)
            &&& written_as(&session.events[0], outcome)
        },
        (AppendStateView::Inserting { first, written }, AppendReply::Done) if written + 1
            < session.events.len() => {
            &&& answer matches AppendAnswer::Written(outcome)
            &&& written_as(&session.events[written as int + 1], outcome)
        },
        _ => answer is Unasked,
    }
}

/// The insertion of the event at `index`, once it is written down, or the end of the append if it
/// cannot be.
pub open spec fn append_insert<P, E, R, X>(
    session: AppendSessionView<P, E>,
    first: nat,
    index: nat,
    answer: AppendAnswer<R, X>,
) -> (AppendSessionView<P, E>, AppendActionView<R, X>) {
    match answer {
        AppendAnswer::Written(Ok((event_type, payload))) => (
            AppendSessionView {
                state: AppendStateView::Inserting { first, written: index },
                ..session
            },
            AppendActionView::Execute(
                event_insert(
                    session.entity_type,
                    session.entity_id,
                    first + index,
                    event_type,
                    payload,
                ),
            ),
        ),
        AppendAnswer::Written(Err(error)) => (
            AppendSessionView { state: AppendStateView::Closed, ..session },
            AppendActionView::Return(Err(PersistError::SerializationError(error))),
        ),
        _ => arbitrary(),
    }
}

/// The append that follows `session` upon `reply`, if the application answers with `answer`, and
/// the action that is then due.
pub open spec fn append_next<P, E, R, X>(
    session: AppendSessionView<P, E>,
    reply: AppendReply,
    answer: AppendAnswer<R, X>,
) -> (AppendSessionView<P, E>, AppendActionView<R, X>) {
    match (session.state, reply) {
        (_, AppendReply::Failed(error)) => (
            AppendSessionView { state: AppendStateView::Closed, ..session },
            AppendActionView::Return(Err(PersistError::Postgres(error))),
        ),
        (AppendStateView::Opening, _) => (
            AppendSessionView { state: AppendStateView::Checking, ..session },
            AppendActionView::Query(max_sequence_query(session.entity_type, session.entity_id)),
        ),
        (AppendStateView::Checking, AppendReply::MaxSequence(row)) => {
            let version = version_or_initial(reported_version(row));
            if session.events.len() == 0 {
                (
                    AppendSessionView { state: AppendStateView::Closed, ..session },
                    AppendActionView::Return(Ok(version + 1)),
                )
            } else {
                match answer {
                    AppendAnswer::Verdict(Ok(_)) => (
                        AppendSessionView {
                            precondition: None,
                            state: AppendStateView::Preparing { version },
                            ..session
                        },
                        AppendActionView::Prepare(INSERT_EVENT@),
                    ),
                    AppendAnswer::Verdict(Err(refusal)) => (
                        AppendSessionView {
                            precondition: None,
                            state: AppendStateView::Closed,
                            ..session
                        },
                        AppendActionView::Return(Err(PersistError::PreconditionFailed(refusal))),
                    ),
                    _ => arbitrary(),
                }
            }
        },
        (AppendStateView::Preparing { version }, _) => append_insert(
            session,
            version + 1,
            0,
            answer,
        ),
        (AppendStateView::Inserting { first, written }, _) => {
            if written + 1 < session.events.len() {
                append_insert(session, first, written + 1, answer)
            } else {
                (
                    AppendSessionView { state: AppendStateView::Committing { first }, ..session },
                    AppendActionView::Commit,
                )
            }
        },
        (AppendStateView::Committing { first }, _) => (
            AppendSessionView { state: AppendStateView::Closed, ..session },
            AppendActionView::Return(Ok(first)),
        ),
        (_, _) => arbitrary(),
    }
}

/// That upon `reply` the append `before` can become `after`, with `action` due next: for some
/// answer that the application can give.
pub open spec fn append_steps<P: Precondition, E: SerializableEvent>(
    before: AppendSessionView<P, E>,
    reply: AppendReply,
    after: AppendSessionView<P, E>,
    action: AppendActionView<P::Refusal, E::Error>,
) -> bool {
    exists|answer: AppendAnswer<P::Refusal, E::Error>| #[trigger]
        append_answered(before, reply, answer) && (after, action) == append_next(
            before,
            reply,
            answer,
        )
}

/// That writing the event at `index` down can come to `outcome`, and that `after` and `action` are
/// what follows from that.
spec fn inserts<P: Precondition, E: SerializableEvent>(
    before: AppendSessionView<P, E>,
    first: nat,
    index: nat,
    outcome: Result<(Seq<char>, Seq<u8>), E::Error>,
    after: AppendSessionView<P, E>,
    action: AppendActionView<P::Refusal, E::Error>,
) -> bool {
    &&& written_as(&before.events[index as int], outcome)
    &&& (after, action) == append_insert::<P, E, P::Refusal, E::Error>(
        before,
        first,
        index,
        AppendAnswer::Written(outcome),
    )
}

/// The version of an aggregate, from the answer to the query for its last event.
pub fn current_version(row: Option<Option<i64>>) -> (version: Option<Version>)
    ensures
        version == version_of(reported_version(row)),
        version matches Some(version) ==> version@ == reported_version(row)->0,
{
    match row {
        Some(Some(max_sequence)) => Some(Version::new(from_column(max_sequence))),
        _ => None,
    }
}

/// The version that the answer to the query for the last event tells, or the initial one.
fn version_or_default(row: Option<Option<i64>>) -> (version: Version)
    ensures
        version@ == version_or_initial(reported_version(row)),
{
    match current_version(row) {
        Some(version) => version,
        None => Version::default(),
    }
}

/// Holds a precondition, if there is one, against the current version of the aggregate.
pub fn verify_precondition<P: Precondition>(
    precondition: Option<P>,
    current_version: Option<Version>,
) -> (verdict: Result<(), P::Refusal>)
    ensures
        verdict_on(precondition, current_version, verdict),
{
    match precondition {
        None => Ok(()),
        Some(precondition) => precondition.verify(current_version),
    }
}

/// The type and the text of an event, as sequences.
pub open spec fn text_view<X>(outcome: Result<(&'static str, Vec<u8>), X>) -> Result<
    (Seq<char>, Seq<u8>),
    X,
> {
    match outcome {
        Ok((event_type, payload)) => Ok((event_type@, payload@)),
        Err(error) => Err(error),
    }
}

/// Writes an event down, into a buffer that holds nothing before: its type and its text.
pub fn serialize_event<E: SerializableEvent>(event: &E) -> (outcome: Result<
    (&'static str, Vec<u8>),
    E::Error,
>)
    ensures
        written_as(event, text_view(outcome)),
        outcome matches Ok((event_type, _)) ==> call_ensures(E::event_type, (event,), event_type),
{
    let mut buffer: Vec<u8> = Vec::with_capacity(128);
    match event.serialize_event_to_buffer(&mut buffer) {
        Ok(unit) => {
            assert(unit == ());
            let event_type = event.event_type();
            assert(has_type(event, event_type@));
            Ok((event_type, buffer))
        },
        Err(error) => {
            assert(serialization_fails(event, error));
            Err(error)
        },
    }
}

impl<'a, P, E> AppendSession<'a, P, E> {
    #[verifier::type_invariant]
    spec fn consistent(self) -> bool {
        match self.state {
            AppendState::Inserting { first, next, written } => {
                &&& next@ == first@ + written
                &&& written < self.events@.len()
            },
            AppendState::Preparing { .. } => self.events@.len() > 0,
            _ => true,
        }
    }

    /// Whether the session can go on from this reply: the reply belongs to the last action, and
    /// the event numbers do not run out.
    pub fn accepts(&self, reply: &AppendReply) -> (accepted: bool)
        ensures
            accepted == append_accepts(self@, *reply),
    {
        proof {
            use_type_invariant(self);
        }
        match (self.state, reply) {
            (AppendState::Closed, _) => false,
            (_, AppendReply::Failed(_)) => true,
            (AppendState::Opening, AppendReply::Done) => true,
            (AppendState::Checking, AppendReply::MaxSequence(row)) => {
                self.events.len() != 0 || version_or_default(*row).get() < u64::MAX
            },
            (AppendState::Preparing { version }, AppendReply::Done) => version.get() < u64::MAX,
            (AppendState::Inserting { next, .. }, AppendReply::Done) => next.get() < u64::MAX,
            (AppendState::Committing { .. }, AppendReply::Done) => true,
            _ => false,
        }
    }
}

impl<'a, P: Precondition, E: SerializableEvent> AppendSession<'a, P, E> {
    /// Starts an append of `events`, which is to be refused if the precondition does not hold. The
    /// action that is due first opens the transaction.
    pub fn start(
        entity_type: &'a str,
        entity_id: &'a str,
        events: &'a [E],
        precondition: Option<P>,
    ) -> (started: (AppendSession<'a, P, E>, AppendAction<'a, P::Refusal, E::Error>))
        ensures
            started.0@ == append_start(entity_type@, entity_id@, events@, precondition),
            started.1@ == AppendActionView::<P::Refusal, E::Error>::Begin,
    {
        (
            AppendSession {
                entity_type,
                entity_id,
                events,
                precondition,
                state: AppendState::Opening,
            },
            AppendAction::Begin,
        )
    }

    /// Takes what came of the last action and says what is to be done next.
    pub fn step(&mut self, reply: AppendReply) -> (action: AppendAction<'a, P::Refusal, E::Error>)
        requires
            append_accepts(old(self)@, reply),
        ensures
            append_steps(old(self)@, reply, final(self)@, action@),
    {
        proof {
            use_type_invariant(&*self);
        }
        match reply {
            AppendReply::Failed(error) => {
                self.state = AppendState::Closed;
                assert(append_answered(old(self)@, reply, AppendAnswer::Unasked));
                AppendAction::Return(Err(PersistError::Postgres(error)))
            },
            AppendReply::MaxSequence(row) => self.check(row),
            AppendReply::Done => self.proceed(),
        }
    }

    /// The step after the query for the last event.
    fn check(&mut self, row: Option<Option<i64>>) -> (action: AppendAction<
        'a,
        P::Refusal,
        E::Error,
    >)
        requires
            append_accepts(old(self)@, AppendReply::MaxSequence(row)),
        ensures
            append_steps(old(self)@, AppendReply::MaxSequence(row), final(self)@, action@),
    {
        let ghost reply = AppendReply::MaxSequence(row);
        let version = version_or_default(row);
        if self.events.len() == 0 {
            self.state = AppendState::Closed;
            assert(append_answered(old(self)@, reply, AppendAnswer::Unasked));
            return AppendAction::Return(Ok(version.next_event()));
        }
        let mut precondition: Option<P> = None;
        std::mem::swap(&mut precondition, &mut self.precondition);
        let verdict = verify_precondition(precondition, current_version(row));
        assert(append_answered(old(self)@, reply, AppendAnswer::Verdict(verdict)));
        match verdict {
            Ok(_) => {
                self.state = AppendState::Preparing { version };
                AppendAction::Prepare(INSERT_EVENT)
            },
            Err(refusal) => {
                self.state = AppendState::Closed;
                AppendAction::Return(Err(PersistError::PreconditionFailed(refusal)))
            },
        }
    }

    /// The step after an action that succeeded and brought nothing back.
    fn proceed(&mut self) -> (action: AppendAction<'a, P::Refusal, E::Error>)
        requires
            append_accepts(old(self)@, AppendReply::Done),
        ensures
            append_steps(old(self)@, AppendReply::Done, final(self)@, action@),
    {
        proof {
            use_type_invariant(&*self);
        }
        match self.state {
            AppendState::Opening => {
                self.state = AppendState::Checking;
                assert(append_answered(old(self)@, AppendReply::Done, AppendAnswer::Unasked));
                AppendAction::Query(
                    Statement::max_sequence_query(self.entity_type, self.entity_id),
                )
            },
            AppendState::Preparing { version } => {
                let first = version.next_event();
                let action = self.insert(first, Version::Number(first), 0);
                proof {
                    let outcome = choose|outcome: Result<(Seq<char>, Seq<u8>), E::Error>|
                        inserts(old(self)@, first@, 0, outcome, self@, action@);
                    assert(append_answered(
                        old(self)@,
                        AppendReply::Done,
                        AppendAnswer::Written(outcome),
                    ));
                }
                action
            },
            AppendState::Inserting { first, next, written } => {
                let mut following = next;
                following.incr();
                let count: usize = self.events.len();
                if written + 1 < count {
                    let action = self.insert(first, following, written + 1);
                    proof {
                        let index: nat = written as nat + 1;
                        let outcome = choose|outcome: Result<(Seq<char>, Seq<u8>), E::Error>|
                            inserts(old(self)@, first@, index, outcome, self@, action@);
                        assert(append_answered(
                            old(self)@,
                            AppendReply::Done,
                            AppendAnswer::Written(outcome),
                        ));
                    }
                    action
                } else {
                    self.state = AppendState::Committing { first };
                    assert(append_answered(old(self)@, AppendReply::Done, AppendAnswer::Unasked));
                    AppendAction::Commit
                }
            },
            AppendState::Committing { first } => {
                self.state = AppendState::Closed;
                assert(append_answered(old(self)@, AppendReply::Done, AppendAnswer::Unasked));
                AppendAction::Return(Ok(first))
            },
            _ => unreached(),
        }
    }

    /// The step that writes the event at `index` down and has it inserted.
    fn insert(&mut self, first: EventNumber, next: Version, index: usize) -> (action: AppendAction<
        'a,
        P::Refusal,
        E::Error,
    >)
        requires
            index < old(self)@.events.len(),
            next@ == first@ + index,
        ensures
            exists|outcome: Result<(Seq<char>, Seq<u8>), E::Error>|
                inserts(old(self)@, first@, index as nat, outcome, final(self)@, action@),
    {
        let outcome = serialize_event(&self.events[index]);
        let ghost written = text_view(outcome);
        let action = match outcome {
            Ok((event_type, payload)) => {
                self.state = AppendState::Inserting { first, next, written: index };
                AppendAction::Execute(
                    Statement::event_insert(
                        self.entity_type,
                        self.entity_id,
                        next,
                        event_type,
                        payload,
                    ),
                )
            },
            Err(error) => {
                self.state = AppendState::Closed;
                AppendAction::Return(Err(PersistError::SerializationError(error)))
            },
        };
        assert(inserts(old(self)@, first@, index as nat, written, self@, action@));
        action
    }
}

} // verus!
