use cqrs_postgres::statement::{SqlParam, Statement};
use cqrs_postgres::version::{EventNumber, Since, Version};

fn since(n: u64) -> Since {
    Since::Event(EventNumber::new(n).unwrap())
}

#[test]
fn max_sequence_query_names_the_aggregate() {
    let statement = Statement::max_sequence_query("account", "a-1");
    assert_eq!(
        statement.text,
        "SELECT MAX(sequence) FROM events WHERE entity_type = $1 AND entity_id = $2"
    );
    assert_eq!(
        statement.params,
        vec![SqlParam::Text("account"), SqlParam::Text("a-1")]
    );
}

#[test]
fn event_insert_has_all_columns_in_order() {
    let statement =
        Statement::event_insert("account", "a-1", Version::new(3), "opened", vec![123, 125]);
    assert_eq!(
        statement.text,
        "INSERT INTO events (entity_type, entity_id, sequence, event_type, payload, metadata, timestamp) VALUES ($1, $2, $3, $4, $5, $6, CURRENT_TIMESTAMP)"
    );
    assert_eq!(
        statement.params,
        vec![
            SqlParam::Text("account"),
            SqlParam::Text("a-1"),
            SqlParam::BigInt(3),
            SqlParam::Text("opened"),
            SqlParam::RawJson(vec![123, 125]),
            SqlParam::Metadata,
        ]
    );
}

#[test]
fn numbers_beyond_the_column_wrap() {
    let statement =
        Statement::event_insert("t", "i", Version::new(1 << 63), "e", Vec::new());
    assert_eq!(statement.params[2], SqlParam::BigInt(i64::MIN));
    let statement = Statement::snapshot_insert("t", "i", Version::new(u64::MAX));
    assert_eq!(statement.params[2], SqlParam::BigInt(-1));
}

#[test]
fn unlimited_read_has_no_limit() {
    let statement = Statement::events_query("account", "a-1", Since::BeginningOfStream, None);
    assert_eq!(
        statement.text,
        "SELECT sequence, event_type, payload FROM events WHERE entity_type = $1 AND entity_id = $2 AND sequence > $3 ORDER BY sequence ASC"
    );
    assert_eq!(
        statement.params,
        vec![
            SqlParam::Text("account"),
            SqlParam::Text("a-1"),
            SqlParam::BigInt(0)
        ]
    );
}

#[test]
fn limited_read_asks_for_the_count() {
    let statement = Statement::events_query("account", "a-1", since(5), Some(10));
    assert_eq!(
        statement.text,
        "SELECT sequence, event_type, payload FROM events WHERE entity_type = $1 AND entity_id = $2 AND sequence > $3 ORDER BY sequence ASC LIMIT $4"
    );
    assert_eq!(
        statement.params,
        vec![
            SqlParam::Text("account"),
            SqlParam::Text("a-1"),
            SqlParam::BigInt(5),
            SqlParam::BigInt(10)
        ]
    );
}

#[test]
fn limit_is_capped_at_the_column() {
    let at = Statement::events_query("t", "i", since(1), Some(i64::MAX as u64));
    assert_eq!(at.params[3], SqlParam::BigInt(i64::MAX));
    let above = Statement::events_query("t", "i", since(1), Some(u64::MAX));
    assert_eq!(above.params[3], SqlParam::BigInt(i64::MAX));
    let none = Statement::events_query("t", "i", since(1), Some(0));
    assert_eq!(none.params[3], SqlParam::BigInt(0));
}

#[test]
fn snapshot_statements() {
    let insert = Statement::snapshot_insert("account", "a-1", Version::new(9));
    assert_eq!(
        insert.text,
        "INSERT INTO snapshots (entity_type, entity_id, sequence, payload) VALUES ($1, $2, $3, $4)"
    );
    assert_eq!(
        insert.params,
        vec![
            SqlParam::Text("account"),
            SqlParam::Text("a-1"),
            SqlParam::BigInt(9),
            SqlParam::Aggregate
        ]
    );
    let query = Statement::snapshot_query("account", "a-1");
    assert_eq!(
        query.text,
        "SELECT sequence, payload FROM snapshots WHERE entity_type = $1 AND entity_id = $2 ORDER BY sequence DESC LIMIT 1"
    );
    assert_eq!(
        query.params,
        vec![SqlParam::Text("account"), SqlParam::Text("a-1")]
    );
}
