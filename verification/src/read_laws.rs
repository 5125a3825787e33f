//! What holds of every read as a whole, from the opening of the transaction to the answer.

use vstd::prelude::*;

use crate::aggregate::{DeserializableEvent, VersionedEvent};
use crate::error::LoadError;
use crate::read::{
    handle_row, load_event, loaded, numbered_if_loaded, read_accepts, read_next, read_start,
    FetchedRow, FetchedRowView, ReadAction, ReadActionView, ReadReply, ReadReplyView,
    ReadSession, ReadSessionView, ReadState, FETCH_SIZE,
};
use crate::statement::{
    events_query, SqlParamView, StatementView, SELECT_EVENTS, SELECT_EVENTS_LIMITED,
};
use crate::version::{
    column_of, law_columns_hold_bytes, law_numbers_have_their_values, number_of, stands_for, Since,
};

verus! {

/// The read that `start` becomes upon the given replies, one after the other.
pub open spec fn read_after<E, X>(
    start: ReadSessionView<E, X>,
    replies: Seq<ReadReplyView<E, X>>,
) -> ReadSessionView<E, X>
    decreases replies.len(),
{
    if replies.len() == 0 {
        start
    } else {
        read_next(read_after(start, replies.drop_last()), replies.last()).0
    }
}

/// The actions that the replies bring about, one for each. They follow the opening of the
/// transaction, which comes before any reply.
pub open spec fn read_actions<E, X>(
    start: ReadSessionView<E, X>,
    replies: Seq<ReadReplyView<E, X>>,
) -> Seq<ReadActionView<E, X>>
    decreases replies.len(),
{
    if replies.len() == 0 {
        Seq::empty()
    } else {
        let before = read_after(start, replies.drop_last());
        read_actions(start, replies.drop_last()).push(read_next(before, replies.last()).1)
    }
}

/// That each reply can come of the action before it.
pub open spec fn read_possible<E, X>(
    start: ReadSessionView<E, X>,
    replies: Seq<ReadReplyView<E, X>>,
) -> bool
    decreases replies.len(),
{
    replies.len() == 0 || {
        &&& read_possible(start, replies.drop_last())
        &&& read_accepts(read_after(start, replies.drop_last()), replies.last())
    }
}

/// What the rows among the replies stand for, in order.
pub open spec fn loaded_rows<E, X>(replies: Seq<ReadReplyView<E, X>>) -> Seq<
    Result<VersionedEvent<E>, LoadError<X>>,
>
    decreases replies.len(),
{
    if replies.len() == 0 {
        Seq::empty()
    } else {
        let before = loaded_rows(replies.drop_last());
        match replies.last() {
            ReadReplyView::Row(row) => before.push(loaded(row)),
            _ => before,
        }
    }
}

/// What is kept from step to step.
spec fn read_kept<E, X>(
    entity_type: Seq<char>,
    entity_id: Seq<char>,
    since: nat,
    max_count: Option<u64>,
    replies: Seq<ReadReplyView<E, X>>,
) -> bool {
    let start = read_start::<E, X>(entity_type, entity_id, since, max_count);
    let session = read_after(start, replies);
    let actions = read_actions(start, replies);
    &&& actions.len() == replies.len()
    &&& session.entity_type == entity_type
    &&& session.entity_id == entity_id
    &&& session.since == since
    &&& session.max_count == max_count
    &&& session.state == ReadState::Opening <==> replies.len() == 0
    &&& if session.state == ReadState::Closed {
        match actions.last() {
            ReadActionView::Return(Ok(answer)) => {
                &&& answer == Some(loaded_rows(replies))
                &&& replies.len() > 1
                &&& replies.last() == ReadReplyView::<E, X>::Done
                &&& actions[replies.len() - 2] == ReadActionView::<E, X>::Commit
            },
            ReadActionView::Return(Err(error)) => {
                &&& replies.last() matches ReadReplyView::Failed(cause)
                &&& error == LoadError::<X>::Postgres(cause)
            },
            _ => false,
        }
    } else {
        &&& session.events == loaded_rows(replies)
        &&& replies.len() > 0 ==> !(actions.last() is Return)
    }
    &&& session.state == ReadState::Committing ==> actions.last() == ReadActionView::<
        E,
        X,
    >::Commit
}

proof fn lemma_read_kept<E, X>(
    entity_type: Seq<char>,
    entity_id: Seq<char>,
    since: nat,
    max_count: Option<u64>,
    replies: Seq<ReadReplyView<E, X>>,
)
    requires
        read_possible(
            read_start::<E, X>(entity_type, entity_id, since, max_count),
            replies,
        ),
    ensures
        read_kept(entity_type, entity_id, since, max_count, replies),
    decreases replies.len(),
{
    let start = read_start::<E, X>(entity_type, entity_id, since, max_count);
    if replies.len() > 0 {
        let earlier = replies.drop_last();
        lemma_read_kept(entity_type, entity_id, since, max_count, earlier);
        assert(read_actions(start, replies).drop_last() =~= read_actions(start, earlier));
    }
}

/// A read that is answered with events is answered with those of all the rows that were fetched,
/// in the order in which they came, each as it could be read back or not. Its transaction has just
/// been committed.
pub proof fn law_read_answers_with_all_rows<E, X>(
    entity_type: Seq<char>,
    entity_id: Seq<char>,
    since: nat,
    max_count: Option<u64>,
    replies: Seq<ReadReplyView<E, X>>,
    answer: Option<Seq<Result<VersionedEvent<E>, LoadError<X>>>>,
)
    requires
        read_possible(
            read_start::<E, X>(entity_type, entity_id, since, max_count),
            replies,
        ),
        replies.len() > 0,
        read_actions(
            read_start::<E, X>(entity_type, entity_id, since, max_count),
            replies,
        ).last() == ReadActionView::<E, X>::Return(Ok(answer)),
    ensures
        answer == Some(loaded_rows(replies)),
        replies.len() > 1,
        replies.last() == ReadReplyView::<E, X>::Done,
        read_actions(
            read_start::<E, X>(entity_type, entity_id, since, max_count),
            replies,
        )[replies.len() - 2] == ReadActionView::<E, X>::Commit,
{
    lemma_read_kept(entity_type, entity_id, since, max_count, replies);
}

/// A read that is answered with an error is answered with what the database has just reported. An
/// event that cannot be read back does not make the read fail.
pub proof fn law_read_fails_with_database_only<E, X>(
    entity_type: Seq<char>,
    entity_id: Seq<char>,
    since: nat,
    max_count: Option<u64>,
    replies: Seq<ReadReplyView<E, X>>,
    error: LoadError<X>,
)
    requires
        read_possible(
            read_start::<E, X>(entity_type, entity_id, since, max_count),
            replies,
        ),
        replies.len() > 0,
        read_actions(
            read_start::<E, X>(entity_type, entity_id, since, max_count),
            replies,
        ).last() == ReadActionView::<E, X>::Return(Err(error)),
    ensures
        replies.last() matches ReadReplyView::Failed(cause) && error == LoadError::<X>::Postgres(cause),
{
    lemma_read_kept(entity_type, entity_id, since, max_count, replies);
}

/// A read opens one transaction, and that first: no action after the first one opens another.
pub proof fn law_read_opens_one_transaction<E, X>(
    entity_type: Seq<char>,
    entity_id: Seq<char>,
    since: nat,
    max_count: Option<u64>,
    replies: Seq<ReadReplyView<E, X>>,
    k: int,
)
    requires
        read_possible(
            read_start::<E, X>(entity_type, entity_id, since, max_count),
            replies,
        ),
        0 <= k < replies.len(),
    ensures
        read_actions(
            read_start::<E, X>(entity_type, entity_id, since, max_count),
            replies,
        )[k] != ReadActionView::<E, X>::BeginReadOnly,
    decreases replies.len(),
{
    let start = read_start::<E, X>(entity_type, entity_id, since, max_count);
    let earlier = replies.drop_last();
    lemma_read_kept(entity_type, entity_id, since, max_count, earlier);
    if k < replies.len() - 1 {
        law_read_opens_one_transaction(entity_type, entity_id, since, max_count, earlier, k);
        assert(read_actions(start, replies)[k] == read_actions(start, earlier)[k]);
    }
}

/// Once a read has been answered, it takes no further reply.
pub proof fn law_read_ends_with_answer<E, X>(
    entity_type: Seq<char>,
    entity_id: Seq<char>,
    since: nat,
    max_count: Option<u64>,
    replies: Seq<ReadReplyView<E, X>>,
    further: ReadReplyView<E, X>,
)
    requires
        read_possible(
            read_start::<E, X>(entity_type, entity_id, since, max_count),
            replies,
        ),
        replies.len() > 0,
        read_actions(
            read_start::<E, X>(entity_type, entity_id, since, max_count),
            replies,
        ).last() is Return,
    ensures
        !read_possible(
            read_start::<E, X>(entity_type, entity_id, since, max_count),
            replies.push(further),
        ),
{
    lemma_read_kept(entity_type, entity_id, since, max_count, replies);
    assert(replies.push(further).drop_last() =~= replies);
}

/// The replies to a read that goes well, up to the fetching of the first `k` rows.
pub open spec fn good_read_replies<E, X>(
    rows: Seq<FetchedRowView<E, X>>,
    k: nat,
) -> Seq<ReadReplyView<E, X>>
    decreases k,
{
    if k == 0 {
        seq![ReadReplyView::Done, ReadReplyView::Done]
    } else {
        good_read_replies(rows, (k - 1) as nat).push(ReadReplyView::Row(rows[k - 1]))
    }
}

/// That no row with an event that could be read back has the number zero.
pub open spec fn rows_have_numbers<E, X>(
    rows: Seq<FetchedRowView<E, X>>,
) -> bool {
    forall|i: int| 0 <= i < rows.len() ==> numbered_if_loaded(#[trigger] rows[i])
}

proof fn lemma_step<E, X>(
    start: ReadSessionView<E, X>,
    replies: Seq<ReadReplyView<E, X>>,
    reply: ReadReplyView<E, X>,
)
    ensures
        read_after(start, replies.push(reply)) == read_next(read_after(start, replies), reply).0,
        read_actions(start, replies.push(reply)) == read_actions(start, replies).push(
            read_next(read_after(start, replies), reply).1,
        ),
        read_possible(start, replies.push(reply)) == (read_possible(start, replies)
            && read_accepts(read_after(start, replies), reply)),
{
    assert(replies.push(reply).drop_last() =~= replies);
}

proof fn lemma_good_run<E, X>(
    start: ReadSessionView<E, X>,
    rows: Seq<FetchedRowView<E, X>>,
    k: nat,
)
    requires
        start.state == ReadState::Opening,
        start.events.len() == 0,
        k <= rows.len(),
        rows_have_numbers(rows),
    ensures
        ({
            let replies = good_read_replies(rows, k);
            let session = read_after(start, replies);
            &&& read_possible(start, replies)
            &&& read_actions(start, replies).len() == k + 2
            &&& read_actions(start, replies)[0] == ReadActionView::<E, X>::Query(
                events_query(start.entity_type, start.entity_id, start.since, start.max_count),
                FETCH_SIZE,
            )
            &&& forall|i: int|
                1 <= i < k + 2 ==> #[trigger] read_actions(start, replies)[i]
                    == ReadActionView::<E, X>::Fetch
            &&& session.state == ReadState::Fetching
            &&& session.events == Seq::new(
                k,
                |i: int| loaded(rows[i]),
            )
        }),
    decreases k,
{
    let replies = good_read_replies(rows, k);
    if k == 0 {
        let none = Seq::<ReadReplyView<E, X>>::empty();
        lemma_step(start, none, ReadReplyView::Done);
        lemma_step(start, none.push(ReadReplyView::Done), ReadReplyView::Done);
        assert(replies =~= none.push(ReadReplyView::Done).push(ReadReplyView::Done));
        assert(read_after(start, replies).events =~= Seq::new(
            0,
            |i: int| loaded(rows[i]),
        ));
    } else {
        let earlier = good_read_replies(rows, (k - 1) as nat);
        lemma_good_run(start, rows, (k - 1) as nat);
        lemma_step(start, earlier, ReadReplyView::Row(rows[k - 1]));
        assert(read_after(start, replies).events =~= Seq::new(
            k,
            |i: int| loaded(rows[i]),
        ));
    }
}

/// A read whose statements all succeed is carried out, whatever comes of reading the events back:
/// it starts the query, fetches row after row, commits, and answers with what each row stands for.
pub proof fn law_read_succeeds<E, X>(
    entity_type: Seq<char>,
    entity_id: Seq<char>,
    since: nat,
    max_count: Option<u64>,
    rows: Seq<FetchedRowView<E, X>>,
)
    requires
        rows_have_numbers(rows),
    ensures
        ({
            let start = read_start::<E, X>(entity_type, entity_id, since, max_count);
            let replies = good_read_replies(rows, rows.len()).push(ReadReplyView::End).push(
                ReadReplyView::Done,
            );
            let actions = read_actions(start, replies);
            &&& read_possible(start, replies)
            &&& actions.len() == rows.len() + 4
            &&& actions[0] == ReadActionView::<E, X>::Query(
                events_query(entity_type, entity_id, since, max_count),
                FETCH_SIZE,
            )
            &&& forall|i: int|
                1 <= i < rows.len() + 2 ==> #[trigger] actions[i] == ReadActionView::<E, X>::Fetch
            &&& actions[rows.len() as int + 2] == ReadActionView::<E, X>::Commit
            &&& actions.last() == ReadActionView::<E, X>::Return(
                Ok(
                    Some(
                        Seq::new(
                            rows.len(),
                            |i: int| loaded(rows[i]),
                        ),
                    ),
                ),
            )
        }),
{
    let start = read_start::<E, X>(entity_type, entity_id, since, max_count);
    let fetched = good_read_replies(rows, rows.len());
    lemma_good_run(start, rows, rows.len());
    lemma_step(start, fetched, ReadReplyView::End);
    lemma_step(start, fetched.push(ReadReplyView::End), ReadReplyView::Done);
}

/// A read that is started carries what it was given: the aggregate's type and identifier, the
/// point after which it starts and the count, whatever they are. It has no events yet.
pub proof fn law_read_starts_with_what_it_is_given<E: DeserializableEvent>(
    entity_type: &str,
    entity_id: &str,
    since: Since,
    max_count: Option<u64>,
    started: (ReadSession<'_, E, E::Error>, ReadAction<'_, E, E::Error>),
)
    requires
        call_ensures(
            ReadSession::<E, E::Error>::start,
            (entity_type, entity_id, since, max_count),
            started,
        ),
    ensures
        started.0@.entity_type == entity_type@,
        started.0@.entity_id == entity_id@,
        started.0@.since == match since {
            Since::BeginningOfStream => 0,
            Since::Event(number) => number@,
        },
        started.0@.max_count == max_count,
        started.0@.events.len() == 0,
        started.0@.state == ReadState::Opening,
        started.0@ == read_start::<E, E::Error>(entity_type@, entity_id@, since@, max_count),
        started.1 is BeginReadOnly,
{
}

/// That a statement asks for the events of the aggregate after the one with the number `since`, in
/// order, all of them or at most `max_count`, as far as the column of eight bytes can tell a count.
pub open spec fn asks_for_events(
    statement: StatementView,
    entity_type: Seq<char>,
    entity_id: Seq<char>,
    since: nat,
    max_count: Option<u64>,
) -> bool {
    &&& statement.params.len() == if max_count is Some {
        4int
    } else {
        3int
    }
    &&& statement.text == if max_count is Some {
        SELECT_EVENTS_LIMITED@
    } else {
        SELECT_EVENTS@
    }
    &&& statement.params[0] == SqlParamView::Text(entity_type)
    &&& statement.params[1] == SqlParamView::Text(entity_id)
    &&& statement.params[2] is BigInt
    &&& stands_for(statement.params[2]->BigInt_0, since)
    &&& max_count matches Some(count) ==> {
        &&& statement.params[3] matches SqlParamView::BigInt(limit)
        &&& limit == count || (limit == i64::MAX && count > i64::MAX)
    }
}

/// That `event` is what a row holds: why its event could not be read back, that its type is not
/// known, or the event under the number of the row.
pub open spec fn is_what_row_holds<E, X>(
    event: Result<VersionedEvent<E>, LoadError<X>>,
    row: FetchedRowView<E, X>,
) -> bool {
    match row.outcome {
        Err(error) => event == Err::<VersionedEvent<E>, LoadError<X>>(
            LoadError::DeserializationError(error),
        ),
        Ok(None) => event == Err::<VersionedEvent<E>, LoadError<X>>(
            LoadError::UnknownEventType(row.event_type),
        ),
        Ok(Some(value)) => {
            &&& event is Ok
            &&& event->Ok_0.event == value
            &&& stands_for(row.sequence as int, event->Ok_0.sequence@)
        },
    }
}

/// The rows among the replies, in order.
pub open spec fn rows_fetched<E, X>(replies: Seq<ReadReplyView<E, X>>) -> Seq<FetchedRowView<E, X>>
    decreases replies.len(),
{
    if replies.len() == 0 {
        Seq::empty()
    } else {
        let before = rows_fetched(replies.drop_last());
        match replies.last() {
            ReadReplyView::Row(row) => before.push(row),
            _ => before,
        }
    }
}

proof fn lemma_loaded<E, X>(row: FetchedRowView<E, X>)
    requires
        row.outcome matches Ok(Some(_)) ==> row.sequence != 0,
    ensures
        is_what_row_holds(loaded(row), row),
{
    law_columns_hold_bytes(0, row.sequence as int);
    law_numbers_have_their_values(number_of(row.sequence as int));
}

proof fn lemma_rows_loaded<E, X>(
    start: ReadSessionView<E, X>,
    replies: Seq<ReadReplyView<E, X>>,
)
    requires
        read_possible(start, replies),
    ensures
        loaded_rows(replies).len() == rows_fetched(replies).len(),
        forall|i: int|
            0 <= i < loaded_rows(replies).len() ==> is_what_row_holds(
                #[trigger] loaded_rows(replies)[i],
                rows_fetched(replies)[i],
            ),
    decreases replies.len(),
{
    if replies.len() > 0 {
        lemma_rows_loaded(start, replies.drop_last());
        if let ReadReplyView::Row(row) = replies.last() {
            lemma_loaded(row);
        }
    }
}

proof fn lemma_first_action<E, X>(
    start: ReadSessionView<E, X>,
    replies: Seq<ReadReplyView<E, X>>,
)
    requires
        replies.len() > 0,
    ensures
        read_actions(start, replies).len() == replies.len(),
        read_actions(start, replies)[0] == read_next(start, replies[0]).1,
    decreases replies.len(),
{
    if replies.len() > 1 {
        lemma_first_action(start, replies.drop_last());
        assert(replies.drop_last()[0] == replies[0]);
    } else {
        reveal_with_fuel(read_actions, 2);
        reveal_with_fuel(read_after, 2);
    }
}

/// What holds of every read, of any aggregate, after any event and up to any count, in every course
/// that it can take. It first asks for the events after the given one. It is answered with what
/// each row holds, in the order in which the rows came, or with what the database reported.
pub proof fn law_read_in_every_course<E, X>(
    entity_type: Seq<char>,
    entity_id: Seq<char>,
    since: nat,
    max_count: Option<u64>,
    replies: Seq<ReadReplyView<E, X>>,
)
    requires
        since <= u64::MAX,
        read_possible(
            read_start::<E, X>(entity_type, entity_id, since, max_count),
            replies,
        ),
        replies.len() > 0,
    ensures
        ({
            let start = read_start::<E, X>(entity_type, entity_id, since, max_count);
            let actions = read_actions(start, replies);
            let rows = rows_fetched(replies);
            &&& actions.len() == replies.len()
            &&& replies[0] is Done ==> {
                &&& actions[0] matches ReadActionView::Query(query, portion)
                &&& portion == FETCH_SIZE
                &&& asks_for_events(query, entity_type, entity_id, since, max_count)
            }
            &&& actions.last() matches ReadActionView::Return(Ok(answer)) ==> {
                &&& answer matches Some(events)
                &&& events.len() == rows.len()
                &&& forall|i: int|
                    0 <= i < rows.len() ==> is_what_row_holds(#[trigger] events[i], rows[i])
            }
            &&& actions.last() matches ReadActionView::Return(Err(error)) ==> {
                &&& replies.last() matches ReadReplyView::Failed(cause)
                &&& error == LoadError::<X>::Postgres(cause)
            }
        }),
{
    let start = read_start::<E, X>(entity_type, entity_id, since, max_count);
    lemma_read_kept(entity_type, entity_id, since, max_count, replies);
    lemma_rows_loaded(start, replies);
    lemma_first_action(start, replies);
    law_columns_hold_bytes(since, 0);
    let query = events_query(entity_type, entity_id, since, max_count);
    assert(query.params[2] == SqlParamView::BigInt(column_of(since)));
}

/// A read of any aggregate, after any event and up to any count, is carried out if the database
/// does what it is asked, whatever rows come: they are fetched one by one until there are no more,
/// the transaction is committed, and the answer is what each row holds. Only an event that can be
/// read back must have a number.
pub proof fn law_read_is_carried_out<E, X>(
    entity_type: Seq<char>,
    entity_id: Seq<char>,
    since: nat,
    max_count: Option<u64>,
    rows: Seq<FetchedRowView<E, X>>,
)
    requires
        since <= u64::MAX,
        forall|i: int|
            0 <= i < rows.len() && (#[trigger] rows[i]).sequence == 0 ==> !(
            rows[i].outcome matches Ok(Some(_))),
    ensures
        ({
            let start = read_start::<E, X>(entity_type, entity_id, since, max_count);
            let replies = good_read_replies(rows, rows.len()).push(ReadReplyView::End).push(
                ReadReplyView::Done,
            );
            let actions = read_actions(start, replies);
            &&& read_possible(start, replies)
            &&& actions.len() == rows.len() + 4
            &&& actions[0] matches ReadActionView::Query(query, portion)
            &&& portion == FETCH_SIZE
            &&& asks_for_events(query, entity_type, entity_id, since, max_count)
            &&& forall|i: int|
                1 <= i < rows.len() + 2 ==> #[trigger] actions[i] == ReadActionView::<E, X>::Fetch
            &&& actions[rows.len() as int + 2] == ReadActionView::<E, X>::Commit
            &&& actions.last() matches ReadActionView::Return(Ok(Some(events)))
            &&& events.len() == rows.len()
            &&& forall|i: int|
                0 <= i < rows.len() ==> is_what_row_holds(#[trigger] events[i], rows[i])
        }),
{
    let start = read_start::<E, X>(entity_type, entity_id, since, max_count);
    law_read_succeeds(entity_type, entity_id, since, max_count, rows);
    law_columns_hold_bytes(since, 0);
    let query = events_query(entity_type, entity_id, since, max_count);
    assert(query.params[2] == SqlParamView::BigInt(column_of(since)));
    assert forall|i: int| 0 <= i < rows.len() implies is_what_row_holds(
        loaded(#[trigger] rows[i]),
        rows[i],
    ) by {
        lemma_loaded(rows[i]);
    }
    let events = Seq::new(rows.len(), |i: int| loaded(rows[i]));
    assert forall|i: int| 0 <= i < rows.len() implies is_what_row_holds(
        #[trigger] events[i],
        rows[i],
    ) by {
        assert(events[i] == loaded(rows[i]));
    }
}

/// Wherever a read has come to, an error of the database ends it and is the answer.
pub proof fn law_read_stops_at_database_error<E, X>(
    session: ReadSessionView<E, X>,
    error: postgres::error::Error,
)
    requires
        session.state != ReadState::Closed,
    ensures
        read_accepts(session, ReadReplyView::Failed(error)),
        read_next(session, ReadReplyView::Failed(error)).0.state == ReadState::Closed,
        read_next(session, ReadReplyView::Failed(error)).1 == ReadActionView::<E, X>::Return(
            Err(LoadError::Postgres(error)),
        ),
{
}

/// The event of a row is read back from the type and the text of that row, whatever they are.
pub proof fn law_row_is_read_back_from_its_text<E: DeserializableEvent>(
    sequence: i64,
    event_type: String,
    payload: Vec<u8>,
    row: FetchedRow<E>,
)
    requires
        call_ensures(handle_row::<E>, (sequence, event_type, payload), row),
    ensures
        row@.sequence == sequence,
        row@.event_type == event_type,
        row@.payload == payload@,
        exists|data: &[u8], text: &str|
            data@ == payload@ && text@ == event_type@ && #[trigger] call_ensures(
                E::deserialize_event_from_buffer,
                (data, text),
                row@.outcome,
            ),
{
}

/// What is made of a row is what it holds.
pub proof fn law_row_is_loaded_as_what_it_holds<E: DeserializableEvent>(
    row: FetchedRow<E>,
    event: Result<VersionedEvent<E>, LoadError<E::Error>>,
)
    requires
        row@.sequence == 0 ==> !(row@.outcome matches Ok(Some(_))),
        call_ensures(load_event::<E>, (row,), event),
    ensures
        is_what_row_holds(event, row@),
{
    lemma_loaded(row@);
}

/// The actions of a read are looked at as they are: with their statement and their answer.
pub proof fn law_read_actions_are_looked_at_as_they_are<E, X>(action: ReadAction<'_, E, X>)
    ensures
        action@ == match action {
            ReadAction::BeginReadOnly => ReadActionView::<E, X>::BeginReadOnly,
            ReadAction::Query(statement, portion) => ReadActionView::Query(statement@, portion),
            ReadAction::Fetch => ReadActionView::Fetch,
            ReadAction::Commit => ReadActionView::Commit,
            ReadAction::Return(Ok(Some(events))) => ReadActionView::Return(Ok(Some(events@))),
            ReadAction::Return(Ok(None)) => ReadActionView::Return(Ok(None)),
            ReadAction::Return(Err(error)) => ReadActionView::Return(Err(error)),
        },
{
}

/// What comes of the actions of a read is looked at as it is.
pub proof fn law_read_replies_are_looked_at_as_they_are<E: DeserializableEvent>(
    reply: ReadReply<E>,
)
    ensures
        reply@ == match reply {
            ReadReply::Done => ReadReplyView::<E, E::Error>::Done,
            ReadReply::Row(row) => ReadReplyView::Row(row@),
            ReadReply::End => ReadReplyView::End,
            ReadReply::Failed(error) => ReadReplyView::Failed(error),
        },
{
}

} // verus!
