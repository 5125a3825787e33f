//! Reading the events of an aggregate.
//!
//! A read runs inside one read-only transaction. The caller starts a session, does what the
//! [`ReadAction`] that comes with it says, hands the outcome to [`ReadSession::step`], does what
//! the action returned by that says, and goes on until the action is a [`ReadAction::Return`].

use vstd::pervasive::unreached;
use vstd::prelude::*;

use crate::aggregate::{DeserializableEvent, VersionedEvent};
use crate::error::LoadError;
use crate::statement::{events_query, Statement, StatementView};
use crate::version::{from_column, number_of, EventNumber, Since};

verus! {

/// The number of rows that are fetched from the database at a time.
pub const FETCH_SIZE: i32 = 100;

/// A row that was fetched: the number, the type and the text of an event, and what came of reading
/// the event back from its type and its text.
pub struct FetchedRow<E: DeserializableEvent> {
    sequence: i64,
    event_type: String,
    payload: Vec<u8>,
    outcome: Result<Option<E>, E::Error>,
}

/// A row that was fetched, as mathematics.
pub struct FetchedRowView<E, X> {
    pub sequence: i64,
    pub event_type: String,
    pub payload: Seq<u8>,
    pub outcome: Result<Option<E>, X>,
}

impl<E: DeserializableEvent> View for FetchedRow<E> {
    type V = FetchedRowView<E, E::Error>;

    closed spec fn view(&self) -> FetchedRowView<E, E::Error> {
        FetchedRowView {
            sequence: self.sequence,
            event_type: self.event_type,
            payload: self.payload@,
            outcome: self.outcome,
        }
    }
}

/// What came of the last action.
pub enum ReadReply<E: DeserializableEvent> {
    /// The transaction was opened, the query was started, or the transaction was committed.
    Done,
    /// A row was fetched.
    Row(FetchedRow<E>),
    /// There is no further row.
    End,
    /// The database reported an error.
    Failed(postgres::error::Error),
}

/// What came of the last action, as mathematics.
pub enum ReadReplyView<E, X> {
    Done,
    Row(FetchedRowView<E, X>),
    End,
    Failed(postgres::error::Error),
}

impl<E: DeserializableEvent> View for ReadReply<E> {
    type V = ReadReplyView<E, E::Error>;

    open spec fn view(&self) -> ReadReplyView<E, E::Error> {
        match *self {
            ReadReply::Done => ReadReplyView::Done,
            ReadReply::Row(row) => ReadReplyView::Row(row@),
            ReadReply::End => ReadReplyView::End,
            ReadReply::Failed(error) => ReadReplyView::Failed(error),
        }
    }
}

/// What the caller does next.
#[derive(Debug)]
pub enum ReadAction<'a, E, X> {
    /// Open a transaction that only reads.
    BeginReadOnly,
    /// Start the query, to be fetched in portions of this many rows.
    Query(Statement<'a>, i32),
    /// Fetch the next row and have [`handle_row`] read its event back.
    Fetch,
    /// Commit the transaction.
    Commit,
    /// Stop, with this answer.
    Return(Result<Option<Vec<Result<VersionedEvent<E>, LoadError<X>>>>, LoadError<X>>),
}

/// What the caller does next, as mathematics.
pub enum ReadActionView<E, X> {
    BeginReadOnly,
    Query(StatementView, i32),
    Fetch,
    Commit,
    Return(Result<Option<Seq<Result<VersionedEvent<E>, LoadError<X>>>>, LoadError<X>>),
}

impl<'a, E, X> View for ReadAction<'a, E, X> {
    type V = ReadActionView<E, X>;

    open spec fn view(&self) -> ReadActionView<E, X> {
        match *self {
            ReadAction::BeginReadOnly => ReadActionView::BeginReadOnly,
            ReadAction::Query(statement, portion) => ReadActionView::Query(statement@, portion),
            ReadAction::Fetch => ReadActionView::Fetch,
            ReadAction::Commit => ReadActionView::Commit,
            ReadAction::Return(Ok(Some(events))) => ReadActionView::Return(Ok(Some(events@))),
            ReadAction::Return(Ok(None)) => ReadActionView::Return(Ok(None)),
            ReadAction::Return(Err(error)) => ReadActionView::Return(Err(error)),
        }
    }
}

/// How far a read has come.
#[derive(Clone, Copy, Debug, PartialEq, Eq, Structural)]
pub enum ReadState {
    /// The transaction is being opened.
    Opening,
    /// The query is being started.
    Querying,
    /// A row is being fetched.
    Fetching,
    /// The transaction is being committed.
    Committing,
    /// The answer has been given.
    Closed,
}

/// One read of the events of one aggregate.
#[derive(Debug)]
pub struct ReadSession<'a, E, X> {
    entity_type: &'a str,
    entity_id: &'a str,
    since: Since,
    max_count: Option<u64>,
    events: Vec<Result<VersionedEvent<E>, LoadError<X>>>,
    state: ReadState,
}

/// One read, as mathematics.
#[verifier::ext_equal]
pub struct ReadSessionView<E, X> {
    pub entity_type: Seq<char>,
    pub entity_id: Seq<char>,
    pub since: nat,
    pub max_count: Option<u64>,
    pub events: Seq<Result<VersionedEvent<E>, LoadError<X>>>,
    pub state: ReadState,
}

impl<'a, E, X> View for ReadSession<'a, E, X> {
    type V = ReadSessionView<E, X>;

    closed spec fn view(&self) -> ReadSessionView<E, X> {
        ReadSessionView {
            entity_type: self.entity_type@,
            entity_id: self.entity_id@,
            since: self.since@,
            max_count: self.max_count,
            events: self.events@,
            state: self.state,
        }
    }
}

/// A read that has just been started: its transaction is being opened.
pub open spec fn read_start<E, X>(
    entity_type: Seq<char>,
    entity_id: Seq<char>,
    since: nat,
    max_count: Option<u64>,
) -> ReadSessionView<E, X> {
    ReadSessionView {
        entity_type,
        entity_id,
        since,
        max_count,
        events: Seq::empty(),
        state: ReadState::Opening,
    }
}

/// That reading an event back from the name of its type and its text can come to `outcome`.
pub open spec fn reads_back<E: DeserializableEvent>(
    event_type: Seq<char>,
    payload: Seq<u8>,
    outcome: Result<Option<E>, E::Error>,
) -> bool {
    exists|data: &[u8], text: &str|
        data@ == payload && text@ == event_type && #[trigger] call_ensures(
            E::deserialize_event_from_buffer,
            (data, text),
            outcome,
        )
}

/// That what came of reading the event of a row back is what reading it back from its type and its
/// text can come to.
pub open spec fn row_read_back<E: DeserializableEvent>(row: FetchedRowView<E, E::Error>) -> bool {
    reads_back::<E>(row.event_type@, row.payload, row.outcome)
}

/// What a row stands for: the event under its number, or why there is none.
pub open spec fn loaded<E, X>(row: FetchedRowView<E, X>) -> Result<
    VersionedEvent<E>,
    LoadError<X>,
> {
    match row.outcome {
        Err(error) => Err(LoadError::DeserializationError(error)),
        Ok(None) => Err(LoadError::UnknownEventType(row.event_type)),
        Ok(Some(event)) => Ok(
            VersionedEvent { sequence: EventNumber::of(number_of(row.sequence as int)), event },
        ),
    }
}

/// That the row has a number if its event could be read back.
pub open spec fn numbered_if_loaded<E, X>(row: FetchedRowView<E, X>) -> bool {
    row.outcome matches Ok(Some(_)) ==> row.sequence != 0
}

/// That `reply` can come of the action that led to the state of `session`, and that an event that
/// could be read back has a number.
pub open spec fn read_accepts<E, X>(
    session: ReadSessionView<E, X>,
    reply: ReadReplyView<E, X>,
) -> bool {
    match (session.state, reply) {
        (ReadState::Closed, _) => false,
        (_, ReadReplyView::Failed(_)) => true,
        (ReadState::Opening, ReadReplyView::Done) => true,
        (ReadState::Querying, ReadReplyView::Done) => true,
        (ReadState::Fetching, ReadReplyView::Row(row)) => numbered_if_loaded(row),
        (ReadState::Fetching, ReadReplyView::End) => true,
        (ReadState::Committing, ReadReplyView::Done) => true,
        _ => false,
    }
}

/// The read that follows `session` upon `reply`, and the action that is then due.
pub open spec fn read_next<E, X>(
    session: ReadSessionView<E, X>,
    reply: ReadReplyView<E, X>,
) -> (ReadSessionView<E, X>, ReadActionView<E, X>) {
    match (session.state, reply) {
        (_, ReadReplyView::Failed(error)) => (
            ReadSessionView { state: ReadState::Closed, ..session },
            ReadActionView::Return(Err(LoadError::Postgres(error))),
        ),
        (_, ReadReplyView::Row(row)) => (
            ReadSessionView { events: session.events.push(loaded(row)), ..session },
            ReadActionView::Fetch,
        ),
        (_, ReadReplyView::End) => (
            ReadSessionView { state: ReadState::Committing, ..session },
            ReadActionView::Commit,
        ),
        (ReadState::Opening, _) => (
            ReadSessionView { state: ReadState::Querying, ..session },
            ReadActionView::Query(
                events_query(
                    session.entity_type,
                    session.entity_id,
                    session.since,
                    session.max_count,
                ),
                FETCH_SIZE,
            ),
        ),
        (ReadState::Querying, _) => (
            ReadSessionView { state: ReadState::Fetching, ..session },
            ReadActionView::Fetch,
        ),
        (ReadState::Committing, _) => (
            ReadSessionView { state: ReadState::Closed, events: Seq::empty(), ..session },
            ReadActionView::Return(Ok(Some(session.events))),
        ),
        (_, _) => arbitrary(),
    }
}

/// Puts the event of a row, if it could be read back, under its number, or says why there is none.
pub fn load_event<E: DeserializableEvent>(row: FetchedRow<E>) -> (event: Result<
    VersionedEvent<E>,
    LoadError<E::Error>,
>)
    requires
        numbered_if_loaded(row@),
    ensures
        event == loaded(row@),
        row@.outcome matches Ok(Some(_)) ==> event is Ok && event->Ok_0.sequence@ == number_of(
            row@.sequence as int,
        ),
{
    match row.outcome {
        Err(error) => Err(LoadError::DeserializationError(error)),
        Ok(None) => Err(LoadError::UnknownEventType(row.event_type)),
        Ok(Some(event)) => match EventNumber::new(from_column(row.sequence)) {
            Some(sequence) => Ok(VersionedEvent { sequence, event }),
            None => unreached(),
        },
    }
}

/// Reads the event of a row back from its type and its text.
pub fn handle_row<E: DeserializableEvent>(
    sequence: i64,
    event_type: String,
    payload: Vec<u8>,
) -> (row: FetchedRow<E>)
    ensures
        row@.sequence == sequence,
        row@.event_type == event_type,
        row@.payload == payload@,
        row_read_back::<E>(row@),
{
    let outcome = E::deserialize_event_from_buffer(payload.as_slice(), event_type.as_str());
    assert(reads_back::<E>(event_type@, payload@, outcome));
    FetchedRow { sequence, event_type, payload, outcome }
}

impl<E: DeserializableEvent> FetchedRow<E> {
    #[verifier::type_invariant]
    spec fn consistent(self) -> bool {
        reads_back::<E>(self.event_type@, self.payload@, self.outcome)
    }

    /// The number of the event, as its column holds it.
    pub fn sequence(&self) -> (sequence: i64)
        ensures
            sequence == self@.sequence,
    {
        self.sequence
    }

    /// The type of the event.
    pub fn event_type(&self) -> (event_type: &str)
        ensures
            event_type@ == self@.event_type@,
    {
        self.event_type.as_str()
    }

    /// What came of reading the event back.
    pub fn outcome(&self) -> (outcome: &Result<Option<E>, E::Error>)
        ensures
            *outcome == self@.outcome,
            row_read_back::<E>(self@),
    {
        proof {
            use_type_invariant(self);
        }
        &self.outcome
    }
}

impl<'a, E: DeserializableEvent> ReadSession<'a, E, E::Error> {
    /// Starts a read of the events after `since`, all of them or at most `max_count`. The action
    /// that is due first opens the transaction, which only reads.
    pub fn start(
        entity_type: &'a str,
        entity_id: &'a str,
        since: Since,
        max_count: Option<u64>,
    ) -> (started: (ReadSession<'a, E, E::Error>, ReadAction<'a, E, E::Error>))
        ensures
            started.0@ == read_start::<E, E::Error>(entity_type@, entity_id@, since@, max_count),
            started.1@ == ReadActionView::<E, E::Error>::BeginReadOnly,
    {
        (
            ReadSession {
                entity_type,
                entity_id,
                since,
                max_count,
                events: Vec::new(),
                state: ReadState::Opening,
            },
            ReadAction::BeginReadOnly,
        )
    }

    /// Whether the session can go on from this reply: the reply belongs to the last action, and
    /// an event that could be read back has a number.
    pub fn accepts(&self, reply: &ReadReply<E>) -> (accepted: bool)
        ensures
            accepted == read_accepts(self@, reply@),
    {
        match (self.state, reply) {
            (ReadState::Closed, _) => false,
            (_, ReadReply::Failed(_)) => true,
            (ReadState::Opening, ReadReply::Done) => true,
            (ReadState::Querying, ReadReply::Done) => true,
            (ReadState::Fetching, ReadReply::Row(row)) => match row.outcome {
                Ok(Some(_)) => row.sequence != 0,
                _ => true,
            },
            (ReadState::Fetching, ReadReply::End) => true,
            (ReadState::Committing, ReadReply::Done) => true,
            _ => false,
        }
    }

    /// Takes what came of the last action and says what is to be done next.
    pub fn step(&mut self, reply: ReadReply<E>) -> (action: ReadAction<'a, E, E::Error>)
        requires
            read_accepts(old(self)@, reply@),
        ensures
            (final(self)@, action@) == read_next(old(self)@, reply@),
            reply@ matches ReadReplyView::Row(row) ==> row_read_back::<E>(row),
    {
        match reply {
            ReadReply::Failed(error) => {
                self.state = ReadState::Closed;
                ReadAction::Return(Err(LoadError::Postgres(error)))
            },
            ReadReply::Row(row) => {
                proof {
                    use_type_invariant(&row);
                }
                self.events.push(load_event(row));
                ReadAction::Fetch
            },
            ReadReply::End => {
                self.state = ReadState::Committing;
                ReadAction::Commit
            },
            ReadReply::Done => match self.state {
                ReadState::Opening => {
                    self.state = ReadState::Querying;
                    ReadAction::Query(
                        Statement::events_query(
                            self.entity_type,
                            self.entity_id,
                            self.since,
                            self.max_count,
                        ),
                        FETCH_SIZE,
                    )
                },
                ReadState::Querying => {
                    self.state = ReadState::Fetching;
                    ReadAction::Fetch
                },
                ReadState::Committing => {
                    let mut events: Vec<Result<VersionedEvent<E>, LoadError<E::Error>>> = Vec::new();
                    std::mem::swap(&mut events, &mut self.events);
                    self.state = ReadState::Closed;
                    ReadAction::Return(Ok(Some(events)))
                },
                _ => unreached(),
            },
        }
    }
}

} // verus!
