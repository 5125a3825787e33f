//! The SQL statements of the store, each with the values of its parameters.

use vstd::prelude::*;

use crate::version::{column_of, to_column, Since, Version};

verus! {

/// Asks for the version of the database schema.
pub const SELECT_SCHEMA_VERSION: &'static str = "SELECT MAX(version) from migrations";

/// Asks for the number of the last event of an aggregate.
pub const SELECT_MAX_SEQUENCE: &'static str =
    "SELECT MAX(sequence) FROM events WHERE entity_type = $1 AND entity_id = $2";

/// Stores one event.
pub const INSERT_EVENT: &'static str =
    "INSERT INTO events (entity_type, entity_id, sequence, event_type, payload, metadata, timestamp) VALUES ($1, $2, $3, $4, $5, $6, CURRENT_TIMESTAMP)";

/// Asks for the events of an aggregate after a given one.
pub const SELECT_EVENTS: &'static str =
    "SELECT sequence, event_type, payload FROM events WHERE entity_type = $1 AND entity_id = $2 AND sequence > $3 ORDER BY sequence ASC";

/// Asks for the events of an aggregate after a given one, up to a given count.
pub const SELECT_EVENTS_LIMITED: &'static str =
    "SELECT sequence, event_type, payload FROM events WHERE entity_type = $1 AND entity_id = $2 AND sequence > $3 ORDER BY sequence ASC LIMIT $4";

/// Stores one snapshot.
pub const INSERT_SNAPSHOT: &'static str =
    "INSERT INTO snapshots (entity_type, entity_id, sequence, payload) VALUES ($1, $2, $3, $4)";

/// Asks for the latest snapshot of an aggregate.
pub const SELECT_SNAPSHOT: &'static str =
    "SELECT sequence, payload FROM snapshots WHERE entity_type = $1 AND entity_id = $2 ORDER BY sequence DESC LIMIT 1";

/// The value of one parameter of a statement.
#[derive(Debug, PartialEq, Eq)]
pub enum SqlParam<'a> {
    Text(&'a str),
    BigInt(i64),
    /// JSON text that has been written down already.
    RawJson(Vec<u8>),
    /// The metadata that the caller stores with its events.
    Metadata,
    /// The aggregate that the caller takes a snapshot of.
    Aggregate,
}

/// The value of one parameter, as mathematics.
pub enum SqlParamView {
    Text(Seq<char>),
    BigInt(int),
    RawJson(Seq<u8>),
    Metadata,
    Aggregate,
}

impl<'a> View for SqlParam<'a> {
    type V = SqlParamView;

    open spec fn view(&self) -> SqlParamView {
        match self {
            SqlParam::Text(text) => SqlParamView::Text(text@),
            SqlParam::BigInt(value) => SqlParamView::BigInt(*value as int),
            SqlParam::RawJson(bytes) => SqlParamView::RawJson(bytes@),
            SqlParam::Metadata => SqlParamView::Metadata,
            SqlParam::Aggregate => SqlParamView::Aggregate,
        }
    }
}

/// A statement and the values of its parameters, in order.
#[derive(Debug, PartialEq, Eq)]
pub struct Statement<'a> {
    pub text: &'static str,
    pub params: Vec<SqlParam<'a>>,
}

/// A statement and the values of its parameters, as mathematics.
#[verifier::ext_equal]
pub struct StatementView {
    pub text: Seq<char>,
    pub params: Seq<SqlParamView>,
}

impl<'a> View for Statement<'a> {
    type V = StatementView;

    open spec fn view(&self) -> StatementView {
        StatementView {
            text: self.text@,
            params: Seq::new(self.params@.len(), |i: int| self.params@[i]@),
        }
    }
}

/// The statement that asks for the number of an aggregate's last event.
pub open spec fn max_sequence_query(
    entity_type: Seq<char>,
    entity_id: Seq<char>,
) -> StatementView {
    StatementView {
        text: SELECT_MAX_SEQUENCE@,
        params: seq![SqlParamView::Text(entity_type), SqlParamView::Text(entity_id)],
    }
}

/// The statement that stores the event with the number `sequence`.
pub open spec fn event_insert(
    entity_type: Seq<char>,
    entity_id: Seq<char>,
    sequence: nat,
    event_type: Seq<char>,
    payload: Seq<u8>,
) -> StatementView {
    StatementView {
        text: INSERT_EVENT@,
        params: seq![
            SqlParamView::Text(entity_type),
            SqlParamView::Text(entity_id),
            SqlParamView::BigInt(column_of(sequence)),
            SqlParamView::Text(event_type),
            SqlParamView::RawJson(payload),
            SqlParamView::Metadata,
        ],
    }
}

/// The count that a read of at most `max_count` events asks for.
pub open spec fn limit_of(max_count: u64) -> int {
    if max_count <= i64::MAX {
        max_count as int
    } else {
        i64::MAX as int
    }
}

/// The statement that asks for the events after the one with the number `since`, all of them or
/// at most `max_count`.
pub open spec fn events_query(
    entity_type: Seq<char>,
    entity_id: Seq<char>,
    since: nat,
    max_count: Option<u64>,
) -> StatementView {
    let target = seq![
        SqlParamView::Text(entity_type),
        SqlParamView::Text(entity_id),
        SqlParamView::BigInt(column_of(since)),
    ];
    match max_count {
        Some(max_count) => StatementView {
            text: SELECT_EVENTS_LIMITED@,
            params: target.push(SqlParamView::BigInt(limit_of(max_count))),
        },
        None => StatementView { text: SELECT_EVENTS@, params: target },
    }
}

/// The statement that stores a snapshot of the given version.
pub open spec fn snapshot_insert(
    entity_type: Seq<char>,
    entity_id: Seq<char>,
    version: nat,
) -> StatementView {
    StatementView {
        text: INSERT_SNAPSHOT@,
        params: seq![
            SqlParamView::Text(entity_type),
            SqlParamView::Text(entity_id),
            SqlParamView::BigInt(column_of(version)),
            SqlParamView::Aggregate,
        ],
    }
}

/// The statement that asks for the latest snapshot.
pub open spec fn snapshot_query(entity_type: Seq<char>, entity_id: Seq<char>) -> StatementView {
    StatementView {
        text: SELECT_SNAPSHOT@,
        params: seq![SqlParamView::Text(entity_type), SqlParamView::Text(entity_id)],
    }
}

impl<'a> Statement<'a> {
    /// Asks for the number of the last event of an aggregate.
    pub fn max_sequence_query(entity_type: &'a str, entity_id: &'a str) -> (statement: Statement<
        'a,
    >)
        ensures
            statement@ == max_sequence_query(entity_type@, entity_id@),
    {
        Statement {
            text: SELECT_MAX_SEQUENCE,
            params: vec![SqlParam::Text(entity_type), SqlParam::Text(entity_id)],
        }
    }

    /// Stores one event under its number.
    pub fn event_insert(
        entity_type: &'a str,
        entity_id: &'a str,
        sequence: Version,
        event_type: &'static str,
        payload: Vec<u8>,
    ) -> (statement: Statement<'a>)
        ensures
            statement@ == event_insert(entity_type@, entity_id@, sequence@, event_type@, payload@),
    {
        Statement {
            text: INSERT_EVENT,
            params: vec![
                SqlParam::Text(entity_type),
                SqlParam::Text(entity_id),
                SqlParam::BigInt(to_column(sequence.get())),
                SqlParam::Text(event_type),
                SqlParam::RawJson(payload),
                SqlParam::Metadata,
            ],
        }
    }

    /// Asks for the events of an aggregate after `since`, all of them or at most `max_count`.
    pub fn events_query(
        entity_type: &'a str,
        entity_id: &'a str,
        since: Since,
        max_count: Option<u64>,
    ) -> (statement: Statement<'a>)
        ensures
            statement@ == events_query(entity_type@, entity_id@, since@, max_count),
    {
        let last_sequence: i64 = match since {
            Since::BeginningOfStream => 0,
            Since::Event(number) => to_column(number.get()),
        };
        match max_count {
            Some(max_count) => {
                let limit: i64 = if max_count <= 0x7fff_ffff_ffff_ffff {
                    max_count as i64
                } else {
                    i64::MAX
                };
                Statement {
                    text: SELECT_EVENTS_LIMITED,
                    params: vec![
                        SqlParam::Text(entity_type),
                        SqlParam::Text(entity_id),
                        SqlParam::BigInt(last_sequence),
                        SqlParam::BigInt(limit),
                    ],
                }
            },
            None => Statement {
                text: SELECT_EVENTS,
                params: vec![
                    SqlParam::Text(entity_type),
                    SqlParam::Text(entity_id),
                    SqlParam::BigInt(last_sequence),
                ],
            },
        }
    }

    /// Stores a snapshot of the given version.
    pub fn snapshot_insert(
        entity_type: &'a str,
        entity_id: &'a str,
        version: Version,
    ) -> (statement: Statement<'a>)
        ensures
            statement@ == snapshot_insert(entity_type@, entity_id@, version@),
    {
        Statement {
            text: INSERT_SNAPSHOT,
            params: vec![
                SqlParam::Text(entity_type),
                SqlParam::Text(entity_id),
                SqlParam::BigInt(to_column(version.get())),
                SqlParam::Aggregate,
            ],
        }
    }

    /// Asks for the latest snapshot of an aggregate.
    pub fn snapshot_query(entity_type: &'a str, entity_id: &'a str) -> (statement: Statement<'a>)
        ensures
            statement@ == snapshot_query(entity_type@, entity_id@),
    {
        Statement {
            text: SELECT_SNAPSHOT,
            params: vec![SqlParam::Text(entity_type), SqlParam::Text(entity_id)],
        }
    }
}

/// That a parameter is the given text.
pub open spec fn is_text(param: SqlParam<'_>, text: Seq<char>) -> bool {
    param matches SqlParam::Text(value) && value@ == text
}

/// That a parameter is an integer which stands for the unsigned number `n`: that number, or, if it
/// exceeds a signed column of eight bytes, the one that differs from it by the range of the type.
pub open spec fn is_number(param: SqlParam<'_>, n: nat) -> bool {
    param matches SqlParam::BigInt(value) && (value == n || value + 0x1_0000_0000_0000_0000 == n)
}

/// The query for the last event has one text, whatever the aggregate, and names the aggregate by
/// its parameters.
pub proof fn law_max_sequence_query_names_the_aggregate(
    entity_type: &str,
    entity_id: &str,
    statement: Statement<'_>,
)
    requires
        call_ensures(Statement::max_sequence_query, (entity_type, entity_id), statement),
    ensures
        statement.text@ == SELECT_MAX_SEQUENCE@,
        statement.params@.len() == 2,
        is_text(statement.params@[0], entity_type@),
        is_text(statement.params@[1], entity_id@),
{
    assert(statement@ == max_sequence_query(entity_type@, entity_id@));
    let params = statement@.params;
    assert(params.len() == 2);
    assert(params[0] == statement.params@[0]@);
    assert(params[1] == statement.params@[1]@);
}

/// The statement that stores an event has one text, whatever the event, and hands over the
/// aggregate, the number, the type and the text of the event, and the metadata, in this order.
pub proof fn law_event_insert_hands_over_the_event(
    entity_type: &str,
    entity_id: &str,
    sequence: Version,
    event_type: &'static str,
    payload: Vec<u8>,
    statement: Statement<'_>,
)
    requires
        sequence@ <= u64::MAX,
        call_ensures(
            Statement::event_insert,
            (entity_type, entity_id, sequence, event_type, payload),
            statement,
        ),
    ensures
        statement.text@ == INSERT_EVENT@,
        statement.params@.len() == 6,
        is_text(statement.params@[0], entity_type@),
        is_text(statement.params@[1], entity_id@),
        is_number(statement.params@[2], sequence@),
        is_text(statement.params@[3], event_type@),
        statement.params@[4] matches SqlParam::RawJson(bytes) && bytes@ == payload@,
        statement.params@[5] is Metadata,
{
    assert(statement@ == event_insert(
        entity_type@,
        entity_id@,
        sequence@,
        event_type@,
        payload@,
    ));
    let params = statement@.params;
    assert(params.len() == 6);
    assert(params[0] == statement.params@[0]@);
    assert(params[1] == statement.params@[1]@);
    assert(params[2] == statement.params@[2]@);
    assert(params[3] == statement.params@[3]@);
    assert(params[4] == statement.params@[4]@);
    assert(params[5] == statement.params@[5]@);
}

/// The query for the events after a given one has one text if all of them are asked for and one if
/// a count is, whatever the aggregate, the point and the count. Its parameters name the aggregate,
/// the event after which it starts, zero for the beginning, and the count, or the greatest that the
/// column of eight bytes holds if the count exceeds it.
pub proof fn law_events_query_asks_for_what_follows(
    entity_type: &str,
    entity_id: &str,
    since: Since,
    max_count: Option<u64>,
    statement: Statement<'_>,
)
    requires
        since@ <= u64::MAX,
        call_ensures(
            Statement::events_query,
            (entity_type, entity_id, since, max_count),
            statement,
        ),
    ensures
        max_count is None ==> statement.text@ == SELECT_EVENTS@ && statement.params@.len() == 3,
        max_count is Some ==> statement.text@ == SELECT_EVENTS_LIMITED@
            && statement.params@.len() == 4,
        is_text(statement.params@[0], entity_type@),
        is_text(statement.params@[1], entity_id@),
        since is BeginningOfStream ==> is_number(statement.params@[2], 0),
        since matches Since::Event(number) ==> is_number(statement.params@[2], number@),
        max_count matches Some(count) ==> {
            &&& statement.params@[3] matches SqlParam::BigInt(limit)
            &&& limit <= count
            &&& limit == count || limit == i64::MAX
        },
{
    assert(statement@ == events_query(entity_type@, entity_id@, since@, max_count));
    let params = statement@.params;
    assert(params.len() == statement.params@.len());
    assert(params[0] == statement.params@[0]@);
    assert(params[1] == statement.params@[1]@);
    assert(params[2] == statement.params@[2]@);
    if max_count is Some {
        assert(params[3] == statement.params@[3]@);
    }
}

/// The statement that stores a snapshot has one text, whatever the version, and hands over the
/// aggregate's type and identifier, the version, and the aggregate itself, in this order.
pub proof fn law_snapshot_insert_hands_over_the_aggregate(
    entity_type: &str,
    entity_id: &str,
    version: Version,
    statement: Statement<'_>,
)
    requires
        version@ <= u64::MAX,
        call_ensures(Statement::snapshot_insert, (entity_type, entity_id, version), statement),
    ensures
        statement.text@ == INSERT_SNAPSHOT@,
        statement.params@.len() == 4,
        is_text(statement.params@[0], entity_type@),
        is_text(statement.params@[1], entity_id@),
        is_number(statement.params@[2], version@),
        statement.params@[3] is Aggregate,
{
    assert(statement@ == snapshot_insert(entity_type@, entity_id@, version@));
    let params = statement@.params;
    assert(params.len() == 4);
    assert(params[0] == statement.params@[0]@);
    assert(params[1] == statement.params@[1]@);
    assert(params[2] == statement.params@[2]@);
    assert(params[3] == statement.params@[3]@);
}

/// The query for the latest snapshot has one text, whatever the aggregate, and names the aggregate
/// by its parameters.
pub proof fn law_snapshot_query_names_the_aggregate(
    entity_type: &str,
    entity_id: &str,
    statement: Statement<'_>,
)
    requires
        call_ensures(Statement::snapshot_query, (entity_type, entity_id), statement),
    ensures
        statement.text@ == SELECT_SNAPSHOT@,
        statement.params@.len() == 2,
        is_text(statement.params@[0], entity_type@),
        is_text(statement.params@[1], entity_id@),
{
    assert(statement@ == snapshot_query(entity_type@, entity_id@));
    let params = statement@.params;
    assert(params.len() == 2);
    assert(params[0] == statement.params@[0]@);
    assert(params[1] == statement.params@[1]@);
}

/// A statement and its parameters are looked at as they are.
pub proof fn law_statements_are_looked_at_as_they_are(statement: Statement<'_>, i: int)
    requires
        0 <= i < statement.params@.len(),
    ensures
        statement@.text == statement.text@,
        statement@.params.len() == statement.params@.len(),
        match statement.params@[i] {
            SqlParam::Text(text) => statement@.params[i] == SqlParamView::Text(text@),
            SqlParam::BigInt(value) => statement@.params[i] == SqlParamView::BigInt(value as int),
            SqlParam::RawJson(bytes) => statement@.params[i] == SqlParamView::RawJson(bytes@),
            SqlParam::Metadata => statement@.params[i] is Metadata,
            SqlParam::Aggregate => statement@.params[i] is Aggregate,
        },
{
}

} // verus!
