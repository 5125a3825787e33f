//! The tables of the store, and what a read gives back of what was written.
//!
//! The statements of the store are read here as their text says: an insert adds one row, a query
//! answers with the rows that meet its conditions, in the order it asks for. Of a statement with
//! any other text nothing is said: it may add any row, and be answered with any rows. The laws hold
//! of a database that answers so.

use vstd::prelude::*;

use crate::aggregate::{
    DeserializableEvent, Precondition, SerializableEvent, SnapshotRecommendation,
    VersionedAggregate, VersionedEvent,
};
use crate::append::{
    append_start, reported_version, version_or_initial, written_as, AppendActionView, AppendReply,
    AppendSessionView,
};
use crate::append_laws::{
    append_actions, append_possible, executed, law_append_answers_with_first_number,
    law_append_numbers_events_consecutively, max_in, numbered_inserts, row_told, tells_number,
    texts_of, version_told, written_down, AppendTurn,
};
use crate::error::LoadError;
use crate::read::{
    loaded, read_start, reads_back, row_read_back, FetchedRowView, ReadActionView, ReadReplyView,
};
use crate::read_laws::{good_read_replies, law_read_succeeds, read_actions, read_possible};
use crate::snapshot::{fetch_answer, snapshot_due, snapshot_plan, SnapshotPlanView};
use crate::statement::{
    events_query, limit_of, max_sequence_query, snapshot_insert, snapshot_query, SqlParamView,
    StatementView, INSERT_EVENT, INSERT_SNAPSHOT, SELECT_EVENTS, SELECT_EVENTS_LIMITED,
    SELECT_MAX_SEQUENCE, SELECT_SNAPSHOT,
};
use crate::version::{column_of, law_number_round_trip, number_of, EventNumber};

verus! {

/// One row of the table of events, without its metadata and the time it was stored.
pub struct EventRow {
    pub entity_type: Seq<char>,
    pub entity_id: Seq<char>,
    pub sequence: i64,
    pub event_type: Seq<char>,
    pub payload: Seq<u8>,
}

/// The row that a statement which stores an event adds to the table. Its six parameters are the
/// columns of the row, the metadata the last of them.
pub open spec fn added_row(insert: StatementView) -> EventRow {
    if insert.text == INSERT_EVENT@ && insert.params.len() == 6 && insert.params[5] is Metadata {
        EventRow {
            entity_type: insert.params[0]->Text_0,
            entity_id: insert.params[1]->Text_0,
            sequence: insert.params[2]->BigInt_0 as i64,
            event_type: insert.params[3]->Text_0,
            payload: insert.params[4]->RawJson_0,
        }
    } else {
        arbitrary()
    }
}

/// The table once the statements have been executed and committed.
pub open spec fn table_after(table: Seq<EventRow>, inserts: Seq<StatementView>) -> Seq<EventRow> {
    table + Seq::new(inserts.len(), |i: int| added_row(inserts[i]))
}

/// That a row belongs to an aggregate.
pub open spec fn of_entity(row: EventRow, entity_type: Seq<char>, entity_id: Seq<char>) -> bool {
    row.entity_type == entity_type && row.entity_id == entity_id
}

/// That the answer to the query for the last event of an aggregate has one row, which holds the
/// greatest number among the rows of the aggregate, and null if it has none.
pub open spec fn answers_max_sequence(
    table: Seq<EventRow>,
    query: StatementView,
    row: Option<Option<i64>>,
) -> bool {
    let entity_type = query.params[0]->Text_0;
    let entity_id = query.params[1]->Text_0;
    query.text == SELECT_MAX_SEQUENCE@ && query.params.len() == 2 ==> match row {
        Some(Some(max)) => {
            &&& exists|j: int|
                0 <= j < table.len() && of_entity(#[trigger] table[j], entity_type, entity_id)
                    && table[j].sequence == max
            &&& forall|j: int|
                0 <= j < table.len() && of_entity(#[trigger] table[j], entity_type, entity_id)
                    ==> table[j].sequence <= max
        },
        Some(None) => forall|j: int|
            0 <= j < table.len() ==> !of_entity(#[trigger] table[j], entity_type, entity_id),
        None => false,
    }
}

/// That `rows` are the rows of the table at the positions `positions`, which are those of the
/// aggregate's rows with a number above `since`, each once, in ascending order of the numbers.
pub open spec fn picks(
    table: Seq<EventRow>,
    entity_type: Seq<char>,
    entity_id: Seq<char>,
    since: int,
    positions: Seq<int>,
    rows: Seq<EventRow>,
) -> bool {
    &&& positions.len() == rows.len()
    &&& positions.no_duplicates()
    &&& forall|i: int|
        0 <= i < rows.len() ==> {
            &&& 0 <= #[trigger] positions[i] < table.len()
            &&& rows[i] == table[positions[i]]
            &&& of_entity(rows[i], entity_type, entity_id)
            &&& rows[i].sequence > since
        }
    &&& forall|j: int|
        0 <= j < table.len() && of_entity(#[trigger] table[j], entity_type, entity_id)
            && table[j].sequence > since ==> positions.contains(j)
    &&& forall|i: int, j: int| 0 <= i < j < rows.len() ==> rows[i].sequence <= rows[j].sequence
}

/// That `rows` answer a query for the events of an aggregate: all that meet its conditions, or the
/// first of them up to its limit.
pub open spec fn answers_events(
    table: Seq<EventRow>,
    query: StatementView,
    rows: Seq<EventRow>,
) -> bool {
    let entity_type = query.params[0]->Text_0;
    let entity_id = query.params[1]->Text_0;
    let since = query.params[2]->BigInt_0;
    &&& query.text == SELECT_EVENTS@ && query.params.len() == 3 ==> exists|positions: Seq<int>|
        #[trigger] picks(table, entity_type, entity_id, since, positions, rows)
    &&& query.text == SELECT_EVENTS_LIMITED@ && query.params.len() == 4 ==> exists|
        positions: Seq<int>,
        all: Seq<EventRow>,
    |
        {
            let limit = query.params[3]->BigInt_0;
            &&& #[trigger] picks(table, entity_type, entity_id, since, positions, all)
            &&& rows == all.take(
                if limit < all.len() {
                    limit
                } else {
                    all.len() as int
                },
            )
        }
}

/// That the rows of an aggregate are numbered from one to `length`, with each number once.
pub open spec fn holds_stream(
    table: Seq<EventRow>,
    entity_type: Seq<char>,
    entity_id: Seq<char>,
    length: nat,
) -> bool {
    &&& forall|j: int|
        0 <= j < table.len() && of_entity(#[trigger] table[j], entity_type, entity_id) ==> 1
            <= table[j].sequence <= length
    &&& forall|n: int| 1 <= n <= length ==> #[trigger] has_number(table, entity_type, entity_id, n)
    &&& forall|i: int, j: int|
        0 <= i < table.len() && 0 <= j < table.len() && of_entity(
            #[trigger] table[i],
            entity_type,
            entity_id,
        ) && of_entity(#[trigger] table[j], entity_type, entity_id) && table[i].sequence
            == table[j].sequence ==> i == j
}

/// That an aggregate has a row with the number `n`.
pub open spec fn has_number(
    table: Seq<EventRow>,
    entity_type: Seq<char>,
    entity_id: Seq<char>,
    n: int,
) -> bool {
    exists|j: int|
        0 <= j < table.len() && of_entity(#[trigger] table[j], entity_type, entity_id)
            && table[j].sequence == n
}

/// The query for the last event tells the length of the stream.
pub proof fn law_version_is_length_of_stream(
    table: Seq<EventRow>,
    entity_type: Seq<char>,
    entity_id: Seq<char>,
    length: nat,
    row: Option<Option<i64>>,
)
    requires
        holds_stream(table, entity_type, entity_id, length),
        answers_max_sequence(table, max_sequence_query(entity_type, entity_id), row),
    ensures
        version_or_initial(reported_version(row)) == length,
{
    if length > 0 {
        assert(has_number(table, entity_type, entity_id, length as int));
    }
}

/// Appending events to a stream extends it without a gap or a repetition, and leaves the streams
/// of all other aggregates as they are. The numbers must stay within the column of eight bytes.
pub proof fn law_append_extends_stream(
    table: Seq<EventRow>,
    entity_type: Seq<char>,
    entity_id: Seq<char>,
    length: nat,
    row: Option<Option<i64>>,
    events: Seq<(Seq<char>, Seq<u8>)>,
)
    requires
        holds_stream(table, entity_type, entity_id, length),
        answers_max_sequence(table, max_sequence_query(entity_type, entity_id), row),
        length + events.len() <= i64::MAX,
    ensures
        ({
            let after = table_after(
                table,
                numbered_inserts(
                    entity_type,
                    entity_id,
                    version_or_initial(reported_version(row)) + 1,
                    events,
                ),
            );
            &&& holds_stream(after, entity_type, entity_id, length + events.len())
            &&& forall|other_type: Seq<char>, other_id: Seq<char>, other_length: nat|
                (other_type != entity_type || other_id != entity_id) && #[trigger] holds_stream(
                    table,
                    other_type,
                    other_id,
                    other_length,
                ) ==> holds_stream(after, other_type, other_id, other_length)
        }),
{
    law_version_is_length_of_stream(table, entity_type, entity_id, length, row);
    let inserts = numbered_inserts(entity_type, entity_id, length + 1, events);
    let after = table_after(table, inserts);
    lemma_added_rows(table, entity_type, entity_id, length, events);
    assert forall|n: int| 1 <= n <= length + events.len() implies #[trigger] has_number(
        after,
        entity_type,
        entity_id,
        n,
    ) by {
        if n <= length {
            assert(has_number(table, entity_type, entity_id, n));
            let j = choose|j: int|
                0 <= j < table.len() && of_entity(#[trigger] table[j], entity_type, entity_id)
                    && table[j].sequence == n;
            assert(after[j] == table[j]);
        } else {
            let j = table.len() + n - length - 1;
            assert(after[j].sequence == n);
        }
    }
    assert forall|other_type: Seq<char>, other_id: Seq<char>, other_length: nat|
        (other_type != entity_type || other_id != entity_id) && #[trigger] holds_stream(
            table,
            other_type,
            other_id,
            other_length,
        ) implies holds_stream(after, other_type, other_id, other_length) by {
        assert forall|n: int| 1 <= n <= other_length implies #[trigger] has_number(
            after,
            other_type,
            other_id,
            n,
        ) by {
            assert(has_number(table, other_type, other_id, n));
            let j = choose|j: int|
                0 <= j < table.len() && of_entity(#[trigger] table[j], other_type, other_id)
                    && table[j].sequence == n;
            assert(after[j] == table[j]);
        }
    }
}

/// The table after an append: the rows it had, and the appended ones behind them.
proof fn lemma_added_rows(
    table: Seq<EventRow>,
    entity_type: Seq<char>,
    entity_id: Seq<char>,
    length: nat,
    events: Seq<(Seq<char>, Seq<u8>)>,
)
    requires
        length + events.len() <= i64::MAX,
    ensures
        ({
            let after = table_after(
                table,
                numbered_inserts(entity_type, entity_id, length + 1, events),
            );
            &&& after.len() == table.len() + events.len()
            &&& forall|j: int| 0 <= j < table.len() ==> #[trigger] after[j] == table[j]
            &&& forall|j: int|
                table.len() <= j < after.len() ==> #[trigger] after[j] == (EventRow {
                    entity_type,
                    entity_id,
                    sequence: (length + 1 + j - table.len()) as i64,
                    event_type: events[j - table.len()].0,
                    payload: events[j - table.len()].1,
                })
        }),
{
}

/// A strictly increasing sequence of integers above `low`, up to `high`, that contains each of
/// them is the sequence of all of them.
proof fn lemma_increasing_and_complete(values: Seq<int>, low: int, high: int)
    requires
        low <= high,
        forall|i: int| 0 <= i < values.len() ==> low < #[trigger] values[i] <= high,
        forall|i: int, j: int| 0 <= i < j < values.len() ==> values[i] < values[j],
        forall|n: int| low < n <= high ==> #[trigger] values.contains(n),
    ensures
        values.len() == high - low,
        forall|i: int| 0 <= i < values.len() ==> #[trigger] values[i] == low + 1 + i,
{
    assert forall|i: int| 0 <= i < values.len() implies #[trigger] values[i] == low + 1 + i by {
        lemma_value_at(values, low, high, i);
    }
    if values.len() < high - low {
        assert(values.contains(low + 1 + values.len()));
    }
    if values.len() > high - low {
        assert(values[high - low] == high + 1);
    }
}

proof fn lemma_value_at(values: Seq<int>, low: int, high: int, i: int)
    requires
        low <= high,
        0 <= i < values.len(),
        forall|i: int| 0 <= i < values.len() ==> low < #[trigger] values[i] <= high,
        forall|i: int, j: int| 0 <= i < j < values.len() ==> values[i] < values[j],
        forall|n: int| low < n <= high ==> #[trigger] values.contains(n),
    ensures
        values[i] == low + 1 + i,
    decreases i,
{
    if i > 0 {
        lemma_value_at(values, low, high, i - 1);
    }
    let n = low + 1 + i;
    assert(values[i] >= n);
    if values[i] > n {
        assert(values.contains(n));
        let j = values.index_of(n);
        assert(values[j] == n);
        if j < i {
            assert(j < i - 1 ==> values[j] < values[i - 1]);
        }
    }
}

/// That the rows of an aggregate with a number above `since` have different numbers.
pub open spec fn distinct_numbers_after(
    table: Seq<EventRow>,
    entity_type: Seq<char>,
    entity_id: Seq<char>,
    since: int,
) -> bool {
    forall|i: int, j: int|
        0 <= i < table.len() && 0 <= j < table.len() && of_entity(
            #[trigger] table[i],
            entity_type,
            entity_id,
        ) && of_entity(#[trigger] table[j], entity_type, entity_id) && table[i].sequence
            == table[j].sequence && table[i].sequence > since ==> i == j
}

/// That `rows` are the rows of an aggregate with a number above `since`, all of them and no others,
/// in strictly ascending order of the numbers.
pub open spec fn lists(
    table: Seq<EventRow>,
    entity_type: Seq<char>,
    entity_id: Seq<char>,
    since: int,
    rows: Seq<EventRow>,
) -> bool {
    &&& forall|i: int|
        0 <= i < rows.len() ==> {
            &&& table.contains(#[trigger] rows[i])
            &&& of_entity(rows[i], entity_type, entity_id)
            &&& rows[i].sequence > since
        }
    &&& forall|j: int|
        0 <= j < table.len() && of_entity(#[trigger] table[j], entity_type, entity_id)
            && table[j].sequence > since ==> rows.contains(table[j])
    &&& forall|i: int, j: int| 0 <= i < j < rows.len() ==> rows[i].sequence < rows[j].sequence
}

proof fn lemma_picks_lists(
    table: Seq<EventRow>,
    entity_type: Seq<char>,
    entity_id: Seq<char>,
    since: int,
    positions: Seq<int>,
    rows: Seq<EventRow>,
)
    requires
        distinct_numbers_after(table, entity_type, entity_id, since),
        picks(table, entity_type, entity_id, since, positions, rows),
    ensures
        lists(table, entity_type, entity_id, since, rows),
{
    assert forall|i: int| 0 <= i < rows.len() implies {
        &&& table.contains(#[trigger] rows[i])
        &&& of_entity(rows[i], entity_type, entity_id)
        &&& rows[i].sequence > since
    } by {
        assert(rows[i] == table[positions[i]]);
    }
    assert forall|j: int|
        0 <= j < table.len() && of_entity(#[trigger] table[j], entity_type, entity_id)
            && table[j].sequence > since implies rows.contains(table[j]) by {
        assert(positions.contains(j));
        let i = positions.index_of(j);
        assert(positions[i] == j);
        assert(rows[i] == table[j]);
    }
    assert forall|i: int, j: int| 0 <= i < j < rows.len() implies rows[i].sequence
        < rows[j].sequence by {
        assert(rows[i] == table[positions[i]]);
        assert(rows[j] == table[positions[j]]);
        assert(positions[i] != positions[j]);
    }
}

proof fn lemma_lists_agree_at(
    table: Seq<EventRow>,
    entity_type: Seq<char>,
    entity_id: Seq<char>,
    since: int,
    a: Seq<EventRow>,
    b: Seq<EventRow>,
    i: int,
)
    requires
        lists(table, entity_type, entity_id, since, a),
        lists(table, entity_type, entity_id, since, b),
        0 <= i < a.len(),
    ensures
        i < b.len(),
        a[i] == b[i],
    decreases i,
{
    assert forall|k: int| 0 <= k < i implies k < b.len() && a[k] == b[k] by {
        lemma_lists_agree_at(table, entity_type, entity_id, since, a, b, k);
    }
    let j = table.index_of(a[i]);
    assert(table[j] == a[i]);
    assert(b.contains(a[i]));
    let p = b.index_of(a[i]);
    assert(b[p] == a[i]);
    if p < i {
        assert(a[p].sequence < a[i].sequence);
    }
    let k = table.index_of(b[i]);
    assert(table[k] == b[i]);
    assert(a.contains(b[i]));
    let q = a.index_of(b[i]);
    assert(a[q] == b[i]);
    if q < i {
        assert(b[q].sequence < b[i].sequence);
    }
    if i < p {
        assert(b[i].sequence < b[p].sequence);
        assert(i < q ==> a[i].sequence < a[q].sequence);
    }
}

/// There is only one list of the rows of an aggregate with a number above `since`.
pub proof fn law_lists_are_unique(
    table: Seq<EventRow>,
    entity_type: Seq<char>,
    entity_id: Seq<char>,
    since: int,
    a: Seq<EventRow>,
    b: Seq<EventRow>,
)
    requires
        lists(table, entity_type, entity_id, since, a),
        lists(table, entity_type, entity_id, since, b),
    ensures
        a == b,
{
    assert forall|i: int| 0 <= i < a.len() implies i < b.len() && a[i] == b[i] by {
        lemma_lists_agree_at(table, entity_type, entity_id, since, a, b, i);
    }
    if b.len() > 0 {
        lemma_lists_agree_at(table, entity_type, entity_id, since, b, a, b.len() - 1);
    }
    if a.len() > 0 {
        lemma_lists_agree_at(table, entity_type, entity_id, since, a, b, a.len() - 1);
    }
    assert(a =~= b);
}

/// The first rows of a list, as many as a read of at most `max_count` events takes.
pub open spec fn limited(rows: Seq<EventRow>, max_count: Option<u64>) -> Seq<EventRow> {
    match max_count {
        Some(max_count) if limit_of(max_count) < rows.len() => rows.take(limit_of(max_count)),
        _ => rows,
    }
}

/// A read gives the rows of the aggregate with a number above the column of `since`, in strictly
/// ascending order, without leaving any out or repeating any: all of them, or the first ones if a
/// count was given. The numbers must be different; they may have gaps.
pub proof fn law_read_gives_rows_in_order(
    table: Seq<EventRow>,
    entity_type: Seq<char>,
    entity_id: Seq<char>,
    since: nat,
    max_count: Option<u64>,
    rows: Seq<EventRow>,
)
    requires
        distinct_numbers_after(table, entity_type, entity_id, column_of(since)),
        answers_events(table, events_query(entity_type, entity_id, since, max_count), rows),
    ensures
        exists|all: Seq<EventRow>| #[trigger]
            lists(table, entity_type, entity_id, column_of(since), all) && rows == limited(
                all,
                max_count,
            ),
{
    let query = events_query(entity_type, entity_id, since, max_count);
    assert(query.params[0] == SqlParamView::Text(entity_type));
    assert(query.params[1] == SqlParamView::Text(entity_id));
    assert(query.params[2] == SqlParamView::BigInt(column_of(since)));
    match max_count {
        None => {
            let positions = choose|positions: Seq<int>| #[trigger]
                picks(table, entity_type, entity_id, column_of(since), positions, rows);
            lemma_picks_lists(table, entity_type, entity_id, column_of(since), positions, rows);
            assert(rows == limited(rows, max_count));
        },
        Some(count) => {
            assert(query.params[3] == SqlParamView::BigInt(limit_of(count)));
            let (positions, all) = choose|positions: Seq<int>, all: Seq<EventRow>|
                {
                    &&& #[trigger] picks(
                        table,
                        entity_type,
                        entity_id,
                        column_of(since),
                        positions,
                        all,
                    )
                    &&& rows == all.take(
                        if limit_of(count) < all.len() {
                            limit_of(count)
                        } else {
                            all.len() as int
                        },
                    )
                };
            lemma_picks_lists(table, entity_type, entity_id, column_of(since), positions, all);
            assert(all.take(all.len() as int) =~= all);
            assert(rows == limited(all, max_count));
        },
    }
}

/// Two reads of the same events, with nothing stored in between, give the same rows. The numbers
/// must be different.
pub proof fn law_repeated_read_gives_the_same(
    table: Seq<EventRow>,
    entity_type: Seq<char>,
    entity_id: Seq<char>,
    since: nat,
    max_count: Option<u64>,
    rows: Seq<EventRow>,
    again: Seq<EventRow>,
)
    requires
        distinct_numbers_after(table, entity_type, entity_id, column_of(since)),
        answers_events(table, events_query(entity_type, entity_id, since, max_count), rows),
        answers_events(table, events_query(entity_type, entity_id, since, max_count), again),
    ensures
        rows == again,
{
    let low = column_of(since);
    law_read_gives_rows_in_order(table, entity_type, entity_id, since, max_count, rows);
    law_read_gives_rows_in_order(table, entity_type, entity_id, since, max_count, again);
    let all = choose|all: Seq<EventRow>| #[trigger]
        lists(table, entity_type, entity_id, low, all) && rows == limited(all, max_count);
    let others = choose|all: Seq<EventRow>| #[trigger]
        lists(table, entity_type, entity_id, low, all) && again == limited(all, max_count);
    law_lists_are_unique(table, entity_type, entity_id, low, all, others);
}

proof fn lemma_ascending_bound(rows: Seq<EventRow>, low: int, i: int)
    requires
        forall|i: int| 0 <= i < rows.len() ==> (#[trigger] rows[i]).sequence > low,
        forall|i: int, j: int| 0 <= i < j < rows.len() ==> rows[i].sequence < rows[j].sequence,
        0 <= i < rows.len(),
    ensures
        rows[i].sequence >= low + 1 + i,
    decreases i,
{
    if i > 0 {
        lemma_ascending_bound(rows, low, i - 1);
        assert(rows[i - 1].sequence < rows[i].sequence);
    }
}

/// A read of at most `max_count` events gives the first rows of what a read of all events gives:
/// `max_count` of them, or all if there are no more. A count that exceeds the column of eight
/// bytes is no limit, since after a number within the column there cannot be as many rows. The
/// numbers must be different.
pub proof fn law_limited_read_is_prefix(
    table: Seq<EventRow>,
    entity_type: Seq<char>,
    entity_id: Seq<char>,
    since: nat,
    max_count: u64,
    portion: Seq<EventRow>,
    whole: Seq<EventRow>,
)
    requires
        distinct_numbers_after(table, entity_type, entity_id, column_of(since)),
        answers_events(
            table,
            events_query(entity_type, entity_id, since, Some(max_count)),
            portion,
        ),
        answers_events(table, events_query(entity_type, entity_id, since, None), whole),
    ensures
        portion == limited(whole, Some(max_count)),
        portion.is_prefix_of(whole),
        since <= i64::MAX ==> whole.len() <= i64::MAX,
        since <= i64::MAX ==> portion.len() == if max_count < whole.len() {
            max_count as int
        } else {
            whole.len() as int
        },
        since <= i64::MAX && max_count >= i64::MAX ==> portion == whole,
{
    let low = column_of(since);
    law_read_gives_rows_in_order(table, entity_type, entity_id, since, Some(max_count), portion);
    law_read_gives_rows_in_order(table, entity_type, entity_id, since, None, whole);
    let all = choose|all: Seq<EventRow>| #[trigger]
        lists(table, entity_type, entity_id, low, all) && portion == limited(
            all,
            Some(max_count),
        );
    law_lists_are_unique(table, entity_type, entity_id, low, all, whole);
    if whole.len() > 0 {
        lemma_ascending_bound(whole, low, whole.len() - 1);
    }
}

/// A read of a stream after the event with the number `since` gives its rest, in order, without a
/// gap or a repetition: all of it, or its first part if a count was given. After the last event
/// there is nothing. The numbers must stay within the column of eight bytes.
pub proof fn law_read_gives_rest_of_stream(
    table: Seq<EventRow>,
    entity_type: Seq<char>,
    entity_id: Seq<char>,
    length: nat,
    since: nat,
    max_count: Option<u64>,
    rows: Seq<EventRow>,
)
    requires
        holds_stream(table, entity_type, entity_id, length),
        length <= i64::MAX,
        since <= i64::MAX,
        answers_events(table, events_query(entity_type, entity_id, since, max_count), rows),
    ensures
        ({
            let rest = if since < length {
                length - since
            } else {
                0
            };
            rows.len() == match max_count {
                Some(max_count) if max_count < rest => max_count as int,
                _ => rest,
            }
        }),
        forall|i: int|
            #![trigger rows[i]]
            0 <= i < rows.len() ==> {
                &&& rows[i].sequence == since + 1 + i
                &&& of_entity(rows[i], entity_type, entity_id)
                &&& table.contains(rows[i])
            },
{
    law_read_gives_rows_in_order(table, entity_type, entity_id, since, max_count, rows);
    let all = choose|all: Seq<EventRow>| #[trigger]
        lists(table, entity_type, entity_id, column_of(since), all) && rows == limited(
            all,
            max_count,
        );
    let values = Seq::new(all.len(), |i: int| all[i].sequence as int);
    assert forall|i: int| 0 <= i < values.len() implies since < #[trigger] values[i] <= length by {
        let j = table.index_of(all[i]);
        assert(table[j] == all[i]);
    }
    if since < length {
        assert forall|n: int| since < n <= length implies #[trigger] values.contains(n) by {
            assert(has_number(table, entity_type, entity_id, n));
            let j = choose|j: int|
                0 <= j < table.len() && of_entity(#[trigger] table[j], entity_type, entity_id)
                    && table[j].sequence == n;
            let i = all.index_of(table[j]);
            assert(all[i] == table[j]);
            assert(values[i] == n);
        }
        lemma_increasing_and_complete(values, since as int, length as int);
    } else if all.len() > 0 {
        assert(since < values[0] <= length);
    }
    assert forall|i: int|
        #![trigger rows[i]]
        0 <= i < rows.len() implies {
        &&& rows[i].sequence == since + 1 + i
        &&& of_entity(rows[i], entity_type, entity_id)
        &&& table.contains(rows[i])
    } by {
        assert(rows[i] == all[i]);
        assert(values[i] == since + 1 + i);
    }
}

/// What was appended to the events of an aggregate is what a read after the version before the
/// append gives back: the same events, in the same order, under the numbers that the append gave
/// them. The numbers must stay within the column of eight bytes; those of the events before may
/// have gaps.
pub proof fn law_read_gives_back_what_append_wrote(
    table: Seq<EventRow>,
    entity_type: Seq<char>,
    entity_id: Seq<char>,
    row: Option<Option<i64>>,
    written: Seq<(Seq<char>, Seq<u8>)>,
    rows: Seq<EventRow>,
)
    requires
        answers_max_sequence(table, max_sequence_query(entity_type, entity_id), row),
        version_or_initial(reported_version(row)) + written.len() <= i64::MAX,
        answers_events(
            table_after(
                table,
                numbered_inserts(
                    entity_type,
                    entity_id,
                    version_or_initial(reported_version(row)) + 1,
                    written,
                ),
            ),
            events_query(
                entity_type,
                entity_id,
                version_or_initial(reported_version(row)),
                None,
            ),
            rows,
        ),
    ensures
        rows.len() == written.len(),
        forall|i: int|
            #![trigger rows[i]]
            0 <= i < rows.len() ==> {
                &&& rows[i].sequence == version_or_initial(reported_version(row)) + 1 + i
                &&& number_of(rows[i].sequence as int) == rows[i].sequence
                &&& rows[i].event_type == written[i].0
                &&& rows[i].payload == written[i].1
            },
{
    let version = version_or_initial(reported_version(row));
    let after = table_after(
        table,
        numbered_inserts(entity_type, entity_id, version + 1, written),
    );
    lemma_added_rows(table, entity_type, entity_id, version, written);
    assert forall|j: int|
        0 <= j < table.len() && of_entity(
            #[trigger] after[j],
            entity_type,
            entity_id,
        ) implies after[j].sequence <= version by {
        assert(after[j] == table[j]);
    }
    law_read_gives_rows_in_order(after, entity_type, entity_id, version, None, rows);
    let added = after.skip(table.len() as int);
    assert forall|i: int| 0 <= i < added.len() implies {
        &&& after.contains(#[trigger] added[i])
        &&& of_entity(added[i], entity_type, entity_id)
        &&& added[i].sequence > version
    } by {
        assert(added[i] == after[table.len() + i]);
    }
    assert forall|j: int|
        0 <= j < after.len() && of_entity(#[trigger] after[j], entity_type, entity_id)
            && after[j].sequence > version implies added.contains(after[j]) by {
        assert(added[j - table.len()] == after[j]);
    }
    assert(lists(after, entity_type, entity_id, version as int, added));
    law_lists_are_unique(after, entity_type, entity_id, version as int, added, rows);
}

/// Two appends, one after the other, leave the table as one append of the events of both does: the
/// second finds the version that the first has led to. The numbers must stay within the column of
/// eight bytes.
pub proof fn law_appends_add_up(
    table: Seq<EventRow>,
    entity_type: Seq<char>,
    entity_id: Seq<char>,
    row: Option<Option<i64>>,
    former: Seq<(Seq<char>, Seq<u8>)>,
    row_between: Option<Option<i64>>,
    latter: Seq<(Seq<char>, Seq<u8>)>,
)
    requires
        answers_max_sequence(table, max_sequence_query(entity_type, entity_id), row),
        version_or_initial(reported_version(row)) + former.len() + latter.len() <= i64::MAX,
        answers_max_sequence(
            table_after(
                table,
                numbered_inserts(
                    entity_type,
                    entity_id,
                    version_or_initial(reported_version(row)) + 1,
                    former,
                ),
            ),
            max_sequence_query(entity_type, entity_id),
            row_between,
        ),
    ensures
        ({
            let version = version_or_initial(reported_version(row));
            let between = version_or_initial(reported_version(row_between));
            let inserts = numbered_inserts(entity_type, entity_id, version + 1, former);
            &&& between == version + former.len()
            &&& table_after(
                table_after(table, inserts),
                numbered_inserts(entity_type, entity_id, between + 1, latter),
            ) == table_after(
                table,
                numbered_inserts(entity_type, entity_id, version + 1, former + latter),
            )
        }),
{
    let version = version_or_initial(reported_version(row));
    let between = version_or_initial(reported_version(row_between));
    let middle = table_after(
        table,
        numbered_inserts(entity_type, entity_id, version + 1, former),
    );
    lemma_added_rows(table, entity_type, entity_id, version, former);
    assert forall|j: int|
        0 <= j < middle.len() && of_entity(
            #[trigger] middle[j],
            entity_type,
            entity_id,
        ) implies middle[j].sequence <= version + former.len() by {
        if j < table.len() {
            assert(middle[j] == table[j]);
        }
    }
    if former.len() > 0 {
        assert(middle[middle.len() - 1].sequence == version + former.len());
        assert(of_entity(middle[middle.len() - 1], entity_type, entity_id));
    } else {
        assert(middle =~= table);
    }
    lemma_added_rows(middle, entity_type, entity_id, between, latter);
    lemma_added_rows(table, entity_type, entity_id, version, former + latter);
    let twice = table_after(
        middle,
        numbered_inserts(entity_type, entity_id, between + 1, latter),
    );
    let once = table_after(
        table,
        numbered_inserts(entity_type, entity_id, version + 1, former + latter),
    );
    assert forall|j: int| 0 <= j < once.len() implies twice[j] == once[j] by {
        if j < middle.len() {
            assert(twice[j] == middle[j]);
        }
    }
    assert(twice =~= once);
}

/// That `fetched` are the rows of an answer as they are fetched: with their numbers, types and
/// texts, and each with what reading its event back can come to.
pub open spec fn fetches<E: DeserializableEvent>(
    rows: Seq<EventRow>,
    fetched: Seq<FetchedRowView<E, E::Error>>,
) -> bool {
    &&& fetched.len() == rows.len()
    &&& forall|i: int|
        0 <= i < rows.len() ==> {
            &&& (#[trigger] fetched[i]).sequence == rows[i].sequence
            &&& fetched[i].event_type@ == rows[i].event_type
            &&& fetched[i].payload == rows[i].payload
            &&& row_read_back::<E>(fetched[i])
        }
}

/// That reading the events that were written back gives `events` and nothing else.
pub open spec fn read_back_as<E: DeserializableEvent>(
    written: Seq<(Seq<char>, Seq<u8>)>,
    events: Seq<E>,
) -> bool {
    &&& events.len() == written.len()
    &&& forall|i: int, outcome: Result<Option<E>, E::Error>|
        0 <= i < written.len() && #[trigger] reads_back::<E>(written[i].0, written[i].1, outcome)
            ==> outcome == Ok::<Option<E>, E::Error>(Some(events[i]))
}

/// The answer of a read that gives `events` under consecutive numbers from `first` on.
pub open spec fn numbered_events<E, X>(first: nat, events: Seq<E>) -> Seq<
    Result<VersionedEvent<E>, LoadError<X>>,
> {
    Seq::new(
        events.len(),
        |i: int|
            Ok::<VersionedEvent<E>, LoadError<X>>(
                VersionedEvent {
                    sequence: EventNumber::of((first + i) as nat),
                    event: events[i],
                },
            ),
    )
}

/// That a read of the events of an aggregate after `version`, which fetches the given rows and
/// whose statements all succeed, answers with `events` under the numbers that follow the version.
pub open spec fn read_answers_with<E, X>(
    entity_type: Seq<char>,
    entity_id: Seq<char>,
    version: nat,
    fetched: Seq<FetchedRowView<E, X>>,
    events: Seq<E>,
) -> bool {
    let start = read_start::<E, X>(entity_type, entity_id, version, None);
    let replies = good_read_replies(fetched, fetched.len()).push(ReadReplyView::End).push(
        ReadReplyView::Done,
    );
    &&& read_possible(start, replies)
    &&& read_actions(start, replies).last() == ReadActionView::<E, X>::Return(
        Ok(Some(numbered_events::<E, X>(version + 1, events))),
    )
}

/// A read after an append answers with the events that come of reading back what was written, in
/// the order in which they were appended, each under its number.
pub proof fn law_read_answers_with_appended_events<E: DeserializableEvent>(
    table: Seq<EventRow>,
    entity_type: Seq<char>,
    entity_id: Seq<char>,
    row: Option<Option<i64>>,
    written: Seq<(Seq<char>, Seq<u8>)>,
    events: Seq<E>,
    rows: Seq<EventRow>,
    fetched: Seq<FetchedRowView<E, E::Error>>,
)
    requires
        answers_max_sequence(table, max_sequence_query(entity_type, entity_id), row),
        version_or_initial(reported_version(row)) + written.len() <= i64::MAX,
        answers_events(
            table_after(
                table,
                numbered_inserts(
                    entity_type,
                    entity_id,
                    version_or_initial(reported_version(row)) + 1,
                    written,
                ),
            ),
            events_query(
                entity_type,
                entity_id,
                version_or_initial(reported_version(row)),
                None,
            ),
            rows,
        ),
        read_back_as(written, events),
        fetches(rows, fetched),
    ensures
        fetched.len() == written.len(),
        forall|i: int|
            0 <= i < written.len() ==> (#[trigger] fetched[i]).event_type@ == written[i].0
                && fetched[i].payload == written[i].1,
        read_answers_with(
            entity_type,
            entity_id,
            version_or_initial(reported_version(row)),
            fetched,
            events,
        ),
{
    law_read_gives_back_what_append_wrote(table, entity_type, entity_id, row, written, rows);
    let version = version_or_initial(reported_version(row));
    assert forall|i: int| 0 <= i < fetched.len() implies {
        &&& (#[trigger] fetched[i]).sequence == version + 1 + i
        &&& fetched[i].outcome == Ok::<Option<E>, E::Error>(Some(events[i]))
    } by {
        assert(rows[i].sequence == version + 1 + i);
        assert(reads_back::<E>(written[i].0, written[i].1, fetched[i].outcome));
    }
    law_read_succeeds(entity_type, entity_id, version, None, fetched);
    let answered = Seq::new(fetched.len(), |i: int| loaded(fetched[i]));
    let expected = numbered_events::<E, E::Error>(version + 1, events);
    assert forall|i: int| 0 <= i < fetched.len() implies answered[i] == expected[i] by {
        assert(fetched[i].sequence == version + 1 + i);
    }
    assert(answered =~= expected);
}

/// That the event is what reading it back gives, whatever writing it down has come to.
pub open spec fn survives_writing<E: SerializableEvent + DeserializableEvent>(event: E) -> bool {
    forall|
        event_type: Seq<char>,
        payload: Seq<u8>,
        outcome: Result<Option<E>, <E as DeserializableEvent>::Error>,
    |
        written_as(
            &event,
            Ok::<(Seq<char>, Seq<u8>), <E as SerializableEvent>::Error>((event_type, payload)),
        ) && #[trigger] reads_back::<E>(event_type, payload, outcome) ==> outcome == Ok::<
            Option<E>,
            <E as DeserializableEvent>::Error,
        >(Some(event))
}

/// Events that have been appended are what a read after the version before the append answers
/// with: the same events, in the same order, the first under the number that the append was
/// answered with. This holds of every append that is answered with a number, for events that
/// survive being written down and read back, as long as the numbers stay within the column of
/// eight bytes.
pub proof fn law_appended_events_are_read_back<
    P: Precondition,
    E: SerializableEvent + DeserializableEvent,
>(
    table: Seq<EventRow>,
    start: AppendSessionView<P, E>,
    turns: Seq<AppendTurn<P::Refusal, <E as SerializableEvent>::Error>>,
    number: nat,
    rows: Seq<EventRow>,
    fetched: Seq<FetchedRowView<E, <E as DeserializableEvent>::Error>>,
)
    requires
        start.state is Opening,
        append_possible(start, turns),
        turns.len() > 0,
        append_actions(start, turns).last() == AppendActionView::<
            P::Refusal,
            <E as SerializableEvent>::Error,
        >::Return(Ok(number)),
        answers_max_sequence(
            table,
            max_sequence_query(start.entity_type, start.entity_id),
            row_told(turns),
        ),
        version_told(turns) + start.events.len() <= i64::MAX,
        forall|i: int|
            0 <= i < start.events.len() ==> survives_writing(#[trigger] start.events[i]),
        answers_events(
            table_after(table, executed(append_actions(start, turns))),
            events_query(start.entity_type, start.entity_id, version_told(turns), None),
            rows,
        ),
        fetches(rows, fetched),
    ensures
        number == version_told(turns) + 1,
        read_answers_with(
            start.entity_type,
            start.entity_id,
            version_told(turns),
            fetched,
            start.events,
        ),
{
    law_append_numbers_events_consecutively(start, turns);
    law_append_answers_with_first_number(start, turns, number);
    let written = written_down(turns);
    assert(texts_of(start.events, written));
    assert forall|i: int, outcome: Result<Option<E>, <E as DeserializableEvent>::Error>|
        0 <= i < written.len() && #[trigger] reads_back::<E>(
            written[i].0,
            written[i].1,
            outcome,
        ) implies outcome == Ok::<Option<E>, <E as DeserializableEvent>::Error>(
        Some(start.events[i]),
    ) by {
        let text = written[i];
        assert(written_as(
            &start.events[i],
            Ok::<(Seq<char>, Seq<u8>), <E as SerializableEvent>::Error>(text),
        ));
        assert(text == (text.0, text.1));
        assert(survives_writing(start.events[i]));
    }
    law_read_answers_with_appended_events(
        table,
        start.entity_type,
        start.entity_id,
        row_told(turns),
        written,
        start.events,
        rows,
        fetched,
    );
}

/// Any events that have been appended to any aggregate, under any precondition, are what a read
/// after the version before the append answers with, each under its number. The append is started
/// from the events and answered with a number; the events survive being written down and read
/// back; the numbers stay within the column of eight bytes.
pub proof fn law_append_then_read_gives_the_events<
    P: Precondition,
    E: SerializableEvent + DeserializableEvent,
>(
    table: Seq<EventRow>,
    entity_type: Seq<char>,
    entity_id: Seq<char>,
    events: Seq<E>,
    precondition: Option<P>,
    turns: Seq<AppendTurn<P::Refusal, <E as SerializableEvent>::Error>>,
    row: Option<Option<i64>>,
    version: nat,
    number: nat,
    rows: Seq<EventRow>,
    fetched: Seq<FetchedRowView<E, <E as DeserializableEvent>::Error>>,
)
    requires
        append_possible(append_start(entity_type, entity_id, events, precondition), turns),
        turns.len() > 1,
        turns[1].reply == AppendReply::MaxSequence(row),
        append_actions(
            append_start(entity_type, entity_id, events, precondition),
            turns,
        ).last() == AppendActionView::<
            P::Refusal,
            <E as SerializableEvent>::Error,
        >::Return(Ok(number)),
        answers_max_sequence(table, max_sequence_query(entity_type, entity_id), row),
        tells_number(max_in(row), version),
        version + events.len() <= i64::MAX,
        forall|i: int| 0 <= i < events.len() ==> survives_writing(#[trigger] events[i]),
        answers_events(
            table_after(
                table,
                executed(
                    append_actions(
                        append_start(entity_type, entity_id, events, precondition),
                        turns,
                    ),
                ),
            ),
            events_query(entity_type, entity_id, version, None),
            rows,
        ),
        fetches(rows, fetched),
    ensures
        number == version + 1,
        rows.len() == events.len(),
        read_answers_with(entity_type, entity_id, version, fetched, events),
{
    let start = append_start(entity_type, entity_id, events, precondition);
    assert(row_told(turns) == row);
    law_appended_events_are_read_back(table, start, turns, number, rows, fetched);
    law_append_numbers_events_consecutively(start, turns);
    law_append_answers_with_first_number(start, turns, number);
    law_read_gives_back_what_append_wrote(
        table,
        entity_type,
        entity_id,
        row,
        written_down(turns),
        rows,
    );
}

/// A read of an aggregate after any number within the column gives the rows of that aggregate with
/// a greater number and no others, in ascending order; without a count it leaves none out. The
/// numbers must be different; they may have gaps.
pub proof fn law_read_gives_what_follows(
    table: Seq<EventRow>,
    entity_type: Seq<char>,
    entity_id: Seq<char>,
    since: nat,
    max_count: Option<u64>,
    rows: Seq<EventRow>,
)
    requires
        since <= i64::MAX,
        distinct_numbers_after(table, entity_type, entity_id, since as int),
        answers_events(table, events_query(entity_type, entity_id, since, max_count), rows),
    ensures
        forall|i: int|
            0 <= i < rows.len() ==> {
                &&& table.contains(#[trigger] rows[i])
                &&& of_entity(rows[i], entity_type, entity_id)
                &&& rows[i].sequence > since
            },
        forall|i: int, j: int| 0 <= i < j < rows.len() ==> rows[i].sequence < rows[j].sequence,
        max_count matches Some(count) ==> rows.len() <= count,
        forall|j: int|
            0 <= j < table.len() && of_entity(#[trigger] table[j], entity_type, entity_id)
                && table[j].sequence > since && !rows.contains(table[j]) ==> {
                &&& max_count == Some(rows.len() as u64)
                &&& forall|i: int|
                    0 <= i < rows.len() ==> (#[trigger] rows[i]).sequence < table[j].sequence
            },
{
    law_read_gives_rows_in_order(table, entity_type, entity_id, since, max_count, rows);
    let all = choose|all: Seq<EventRow>| #[trigger]
        lists(table, entity_type, entity_id, column_of(since), all) && rows == limited(
            all,
            max_count,
        );
    if all.len() > 0 {
        lemma_ascending_bound(all, since as int, all.len() - 1);
    }
    assert forall|j: int|
        0 <= j < table.len() && of_entity(#[trigger] table[j], entity_type, entity_id)
            && table[j].sequence > since && !rows.contains(table[j]) implies {
        &&& max_count == Some(rows.len() as u64)
        &&& forall|i: int|
            0 <= i < rows.len() ==> (#[trigger] rows[i]).sequence < table[j].sequence
    } by {
        let k = all.index_of(table[j]);
        assert(all[k] == table[j]);
        if k < rows.len() {
            assert(rows[k] == table[j]);
        }
    }
}

/// The number after which the rest is read once a portion has been: that of its last row, or the
/// one it was read after if it is empty.
pub open spec fn portion_end(since: nat, portion: Seq<EventRow>) -> nat {
    if portion.len() == 0 {
        since
    } else {
        number_of(portion.last().sequence as int)
    }
}

/// Events can be read in portions: a read of a limited count, and a read of the rest after the
/// last event that it gave, give together what a single read gives. The numbers must be different;
/// they may have gaps.
pub proof fn law_portions_give_whole(
    table: Seq<EventRow>,
    entity_type: Seq<char>,
    entity_id: Seq<char>,
    since: nat,
    max_count: u64,
    portion: Seq<EventRow>,
    rest: Seq<EventRow>,
    whole: Seq<EventRow>,
)
    requires
        distinct_numbers_after(table, entity_type, entity_id, column_of(since)),
        answers_events(
            table,
            events_query(entity_type, entity_id, since, Some(max_count)),
            portion,
        ),
        answers_events(
            table,
            events_query(entity_type, entity_id, portion_end(since, portion), None),
            rest,
        ),
        answers_events(table, events_query(entity_type, entity_id, since, None), whole),
    ensures
        portion + rest == whole,
{
    let low = column_of(since);
    law_limited_read_is_prefix(
        table,
        entity_type,
        entity_id,
        since,
        max_count,
        portion,
        whole,
    );
    law_read_gives_rows_in_order(table, entity_type, entity_id, since, None, whole);
    assert(lists(table, entity_type, entity_id, low, whole));
    if portion.len() == 0 {
        law_repeated_read_gives_the_same(
            table,
            entity_type,
            entity_id,
            since,
            None,
            rest,
            whole,
        );
    } else {
        let last = portion.len() - 1;
        let end = portion.last().sequence as int;
        law_number_round_trip(end);
        assert(portion.last() == whole[last]);
        law_read_gives_rows_in_order(
            table,
            entity_type,
            entity_id,
            portion_end(since, portion),
            None,
            rest,
        );
        lemma_rest_of_list(table, entity_type, entity_id, low, whole, last);
        law_lists_are_unique(
            table,
            entity_type,
            entity_id,
            end,
            whole.skip(portion.len() as int),
            rest,
        );
    }
    assert(portion + rest =~= whole);
}

/// The rows of a list behind the one at `last` are the list of the rows with a greater number.
proof fn lemma_rest_of_list(
    table: Seq<EventRow>,
    entity_type: Seq<char>,
    entity_id: Seq<char>,
    since: int,
    rows: Seq<EventRow>,
    last: int,
)
    requires
        lists(table, entity_type, entity_id, since, rows),
        0 <= last < rows.len(),
    ensures
        lists(
            table,
            entity_type,
            entity_id,
            rows[last].sequence as int,
            rows.skip(last + 1),
        ),
{
    let end = rows[last].sequence as int;
    let remaining = rows.skip(last + 1);
    assert forall|i: int| 0 <= i < remaining.len() implies {
        &&& table.contains(#[trigger] remaining[i])
        &&& of_entity(remaining[i], entity_type, entity_id)
        &&& remaining[i].sequence > end
    } by {
        assert(remaining[i] == rows[last + 1 + i]);
    }
    assert forall|j: int|
        0 <= j < table.len() && of_entity(#[trigger] table[j], entity_type, entity_id)
            && table[j].sequence > end implies remaining.contains(table[j]) by {
        assert(rows.contains(table[j]));
        let i = rows.index_of(table[j]);
        assert(rows[i] == table[j]);
        if i < last {
            assert(rows[i].sequence < rows[last].sequence);
        }
        assert(remaining[i - last - 1] == table[j]);
    }
}

/// One row of the table of snapshots.
pub struct SnapshotRow<P> {
    pub entity_type: Seq<char>,
    pub entity_id: Seq<char>,
    pub sequence: int,
    pub payload: P,
}

/// The row that a statement which stores a snapshot of `aggregate` adds to the table. Its four
/// parameters are the columns of the row, and the last is its payload.
pub open spec fn added_snapshot<P>(insert: StatementView, aggregate: P) -> SnapshotRow<P> {
    if insert.text == INSERT_SNAPSHOT@ && insert.params.len() == 4 {
        SnapshotRow {
            entity_type: insert.params[0]->Text_0,
            entity_id: insert.params[1]->Text_0,
            sequence: insert.params[2]->BigInt_0,
            payload: match insert.params[3] {
                SqlParamView::Aggregate => aggregate,
                _ => arbitrary(),
            },
        }
    } else {
        arbitrary()
    }
}

/// That the answer to the query for the latest snapshot has the row of the aggregate with the
/// greatest number, and no row if the aggregate has none.
pub open spec fn answers_snapshot<P>(
    table: Seq<SnapshotRow<P>>,
    query: StatementView,
    row: Option<(i64, P)>,
) -> bool {
    let entity_type = query.params[0]->Text_0;
    let entity_id = query.params[1]->Text_0;
    query.text == SELECT_SNAPSHOT@ && query.params.len() == 2 ==> match row {
        Some((sequence, payload)) => {
            &&& table.contains(
                SnapshotRow { entity_type, entity_id, sequence: sequence as int, payload },
            )
            &&& no_snapshot_after(table, entity_type, entity_id, sequence as int)
        },
        None => forall|j: int|
            0 <= j < table.len() ==> !((#[trigger] table[j]).entity_type == entity_type
                && table[j].entity_id == entity_id),
    }
}

/// That no snapshot of an aggregate has a number above `sequence`.
pub open spec fn no_snapshot_after<P>(
    table: Seq<SnapshotRow<P>>,
    entity_type: Seq<char>,
    entity_id: Seq<char>,
    sequence: int,
) -> bool {
    forall|j: int|
        0 <= j < table.len() && (#[trigger] table[j]).entity_type == entity_type
            && table[j].entity_id == entity_id ==> table[j].sequence <= sequence
}

/// A snapshot that has been stored because it was due is the one that is fetched next: the same
/// aggregate, with the same version. Its number must stay within the column of eight bytes.
pub proof fn law_stored_snapshot_is_fetched<P>(
    table: Seq<SnapshotRow<P>>,
    entity_type: Seq<char>,
    entity_id: Seq<char>,
    version: nat,
    last_snapshot_version: nat,
    recommendation: SnapshotRecommendation,
    aggregate: P,
    row: Option<(i64, P)>,
)
    requires
        no_snapshot_after(table, entity_type, entity_id, last_snapshot_version as int),
        version <= i64::MAX,
        snapshot_due(version, last_snapshot_version, recommendation),
        answers_snapshot(
            table.push(
                added_snapshot(snapshot_insert(entity_type, entity_id, version), aggregate),
            ),
            snapshot_query(entity_type, entity_id),
            row,
        ),
    ensures
        snapshot_plan(entity_type, entity_id, version, last_snapshot_version, recommendation)
            == SnapshotPlanView::Store(snapshot_insert(entity_type, entity_id, version), version),
        row matches Some((sequence, payload)) && number_of(sequence as int) == version && payload
            == aggregate,
        no_snapshot_after(
            table.push(
                added_snapshot(snapshot_insert(entity_type, entity_id, version), aggregate),
            ),
            entity_type,
            entity_id,
            version as int,
        ),
{
    let insert = snapshot_insert(entity_type, entity_id, version);
    let after = table.push(added_snapshot(insert, aggregate));
    let stored = after.last();
    assert(stored.sequence == version);
    assert(stored.entity_type == entity_type && stored.entity_id == entity_id);
    assert(after[after.len() - 1] == stored);
    assert forall|j: int|
        0 <= j < table.len() && (#[trigger] after[j]).entity_type == entity_type
            && after[j].entity_id == entity_id implies after[j].sequence
        <= last_snapshot_version by {
        assert(after[j] == table[j]);
    }
    match row {
        Some((sequence, payload)) => {
            let fetched = SnapshotRow {
                entity_type,
                entity_id,
                sequence: sequence as int,
                payload,
            };
            let j = after.index_of(fetched);
            assert(after[j] == fetched);
            assert(j == after.len() - 1);
        },
        None => {},
    }
}

/// A snapshot of any aggregate that is later than the last one and that the strategy recommends is
/// stored, and is the one that is fetched next: the same aggregate, under the same version. Its
/// number must stay within the column of eight bytes.
pub proof fn law_snapshot_survives_storing_and_fetching<A>(
    table: Seq<SnapshotRow<A>>,
    entity_type: Seq<char>,
    entity_id: Seq<char>,
    version: nat,
    last_snapshot_version: nat,
    plan: SnapshotPlanView,
    aggregate: A,
    row: Option<(i64, A)>,
    answer: Result<Option<VersionedAggregate<A>>, postgres::error::Error>,
)
    requires
        last_snapshot_version < version <= i64::MAX,
        no_snapshot_after(table, entity_type, entity_id, last_snapshot_version as int),
        plan == snapshot_plan(
            entity_type,
            entity_id,
            version,
            last_snapshot_version,
            SnapshotRecommendation::SnapshotNow,
        ),
        plan matches SnapshotPlanView::Store(insert, _) ==> answers_snapshot(
            table.push(added_snapshot(insert, aggregate)),
            snapshot_query(entity_type, entity_id),
            row,
        ),
        call_ensures(fetch_answer::<A>, (Ok(row),), answer),
    ensures
        plan is Store,
        answer is Ok,
        answer->Ok_0 is Some,
        answer->Ok_0->0.payload == aggregate,
        answer->Ok_0->0.version@ == version,
{
    law_stored_snapshot_is_fetched(
        table,
        entity_type,
        entity_id,
        version,
        last_snapshot_version,
        SnapshotRecommendation::SnapshotNow,
        aggregate,
        row,
    );
}

/// The snapshot that is fetched of any aggregate is the latest of those stored, and there is none
/// only if none is stored. The numbers must stay within the column of eight bytes.
pub proof fn law_latest_snapshot_is_fetched<A>(
    table: Seq<SnapshotRow<A>>,
    entity_type: Seq<char>,
    entity_id: Seq<char>,
    row: Option<(i64, A)>,
    answer: Result<Option<VersionedAggregate<A>>, postgres::error::Error>,
    j: int,
)
    requires
        answers_snapshot(table, snapshot_query(entity_type, entity_id), row),
        call_ensures(fetch_answer::<A>, (Ok(row),), answer),
        0 <= j < table.len(),
        table[j].entity_type == entity_type,
        table[j].entity_id == entity_id,
        0 <= table[j].sequence,
    ensures
        answer is Ok,
        answer->Ok_0 is Some,
        answer->Ok_0->0.version@ >= table[j].sequence,
        table.contains(
            SnapshotRow {
                entity_type,
                entity_id,
                sequence: answer->Ok_0->0.version@ as int,
                payload: answer->Ok_0->0.payload,
            },
        ),
{
}

} // verus!
