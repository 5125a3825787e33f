use cqrs_postgres::aggregate::{
    DeserializableEvent, Event, Precondition, SerializableEvent, SnapshotRecommendation,
};
use cqrs_postgres::append::{AppendAction, AppendReply, AppendSession};
use cqrs_postgres::error::PersistError;
use cqrs_postgres::read::{handle_row, ReadAction, ReadReply, ReadSession};
use cqrs_postgres::snapshot::{decide_snapshot, load_snapshot, SnapshotPlan};
use cqrs_postgres::statement::{SqlParam, Statement, SELECT_EVENTS_LIMITED};
use cqrs_postgres::version::{EventNumber, Since, Version};

#[derive(Clone)]
struct Row {
    entity_type: String,
    entity_id: String,
    sequence: i64,
    event_type: String,
    payload: Vec<u8>,
}

fn text(param: &SqlParam<'_>) -> String {
    match param {
        SqlParam::Text(text) => text.to_string(),
        other => panic!("{:?}", other),
    }
}

fn integer(param: &SqlParam<'_>) -> i64 {
    match param {
        SqlParam::BigInt(value) => *value,
        other => panic!("{:?}", other),
    }
}

fn json(param: &SqlParam<'_>) -> Vec<u8> {
    match param {
        SqlParam::RawJson(bytes) => bytes.clone(),
        other => panic!("{:?}", other),
    }
}

/// An event whose text is its bytes; without bytes it cannot be written down.
struct Noted(Vec<u8>);

impl Event for Noted {
    fn event_type(&self) -> &'static str {
        "noted"
    }
}

impl SerializableEvent for Noted {
    type Error = ();

    fn serialize_event_to_buffer(&self, buffer: &mut Vec<u8>) -> Result<(), ()> {
        if self.0.is_empty() {
            return Err(());
        }
        buffer.extend_from_slice(&self.0);
        Ok(())
    }
}

impl DeserializableEvent for Noted {
    type Error = ();

    fn deserialize_event_from_buffer(data: &[u8], event_type: &str) -> Result<Option<Noted>, ()> {
        if event_type == "noted" {
            Ok(Some(Noted(data.to_vec())))
        } else {
            Ok(None)
        }
    }
}

/// A precondition that always holds.
struct Free;

impl Precondition for Free {
    type Refusal = ();

    fn verify(self, _: Option<Version>) -> Result<(), ()> {
        Ok(())
    }
}

/// A table of events that answers the statements of the store.
struct Table(Vec<Row>);

impl Table {
    fn of_entity(&self, statement: &Statement<'_>) -> Vec<Row> {
        let entity_type = text(&statement.params[0]);
        let entity_id = text(&statement.params[1]);
        self.0
            .iter()
            .filter(|row| row.entity_type == entity_type && row.entity_id == entity_id)
            .cloned()
            .collect()
    }

    fn append(
        &mut self,
        id: &str,
        payloads: &[&[u8]],
    ) -> Result<EventNumber, PersistError<(), ()>> {
        let events: Vec<Noted> = payloads.iter().map(|bytes| Noted(bytes.to_vec())).collect();
        let (mut session, mut action) = AppendSession::start("note", id, &events, None::<Free>);
        let mut pending = Vec::new();
        loop {
            let reply = match action {
                AppendAction::Begin => AppendReply::Done,
                AppendAction::Query(statement) => {
                    let rows = self.of_entity(&statement);
                    AppendReply::MaxSequence(Some(rows.iter().map(|row| row.sequence).max()))
                }
                AppendAction::Prepare(_) => AppendReply::Done,
                AppendAction::Execute(statement) => {
                    pending.push(Row {
                        entity_type: text(&statement.params[0]),
                        entity_id: text(&statement.params[1]),
                        sequence: integer(&statement.params[2]),
                        event_type: text(&statement.params[3]),
                        payload: json(&statement.params[4]),
                    });
                    AppendReply::Done
                }
                AppendAction::Commit => {
                    self.0.append(&mut pending);
                    AppendReply::Done
                }
                AppendAction::Return(answer) => return answer,
            };
            assert!(session.accepts(&reply));
            action = session.step(reply);
        }
    }

    fn read(&self, id: &str, since: Since, max_count: Option<u64>) -> Vec<(u64, Vec<u8>)> {
        let (mut session, mut action) =
            ReadSession::<'_, Noted, ()>::start("note", id, since, max_count);
        let mut rows = Vec::new();
        loop {
            let reply = match action {
                ReadAction::BeginReadOnly => ReadReply::Done,
                ReadAction::Query(statement, _) => {
                    rows = self.of_entity(&statement);
                    rows.retain(|row| row.sequence > integer(&statement.params[2]));
                    rows.sort_by_key(|row| row.sequence);
                    if statement.text == SELECT_EVENTS_LIMITED {
                        rows.truncate(integer(&statement.params[3]) as usize);
                    }
                    rows.reverse();
                    ReadReply::Done
                }
                ReadAction::Fetch => match rows.pop() {
                    Some(row) => {
                        ReadReply::Row(handle_row(row.sequence, row.event_type, row.payload))
                    }
                    None => ReadReply::End,
                },
                ReadAction::Commit => ReadReply::Done,
                ReadAction::Return(answer) => {
                    return answer
                        .unwrap()
                        .unwrap()
                        .into_iter()
                        .map(|event| {
                            let event = event.unwrap();
                            (event.sequence.get(), event.event.0)
                        })
                        .collect();
                }
            };
            assert!(session.accepts(&reply));
            action = session.step(reply);
        }
    }
}

fn after(n: u64) -> Since {
    Since::Event(EventNumber::new(n).unwrap())
}

#[test]
fn appended_events_are_read_back() {
    let mut table = Table(Vec::new());
    let first = table.append("a", &[&[1], &[2], &[3]]).unwrap();
    assert_eq!(first.get(), 1);
    assert_eq!(
        table.read("a", Since::BeginningOfStream, None),
        vec![(1, vec![1]), (2, vec![2]), (3, vec![3])]
    );
    let next = table.append("a", &[&[4], &[5]]).unwrap();
    assert_eq!(next.get(), 4);
    assert_eq!(
        table.read("a", after(3), None),
        vec![(4, vec![4]), (5, vec![5])]
    );
    assert_eq!(table.append("a", &[]).unwrap().get(), 6);
    assert_eq!(table.read("a", after(5), None), vec![]);
}

#[test]
fn streams_do_not_mix() {
    let mut table = Table(Vec::new());
    table.append("a", &[&[1], &[2]]).unwrap();
    assert_eq!(table.append("b", &[&[9]]).unwrap().get(), 1);
    assert_eq!(table.append("a", &[&[3]]).unwrap().get(), 3);
    assert_eq!(
        table.read("b", Since::BeginningOfStream, None),
        vec![(1, vec![9])]
    );
    assert_eq!(table.read("a", after(2), None), vec![(3, vec![3])]);
}

#[test]
fn failed_append_leaves_the_stream_as_it_is() {
    let mut table = Table(Vec::new());
    table.append("a", &[&[1]]).unwrap();
    assert!(matches!(
        table.append("a", &[&[2], &[]]),
        Err(PersistError::SerializationError(()))
    ));
    assert_eq!(
        table.read("a", Since::BeginningOfStream, None),
        vec![(1, vec![1])]
    );
    assert_eq!(table.append("a", &[&[4]]).unwrap().get(), 2);
}

#[test]
fn stream_can_be_read_in_portions() {
    let mut table = Table(Vec::new());
    table.append("a", &[&[1], &[2], &[3]]).unwrap();
    let mut portions = table.read("a", Since::BeginningOfStream, Some(2));
    assert_eq!(portions.len(), 2);
    portions.append(&mut table.read("a", after(2), None));
    assert_eq!(portions, table.read("a", Since::BeginningOfStream, None));
    assert_eq!(table.read("a", Since::BeginningOfStream, Some(0)), vec![]);
    assert_eq!(table.read("a", Since::BeginningOfStream, Some(u64::MAX)).len(), 3);
}

fn numbered(sequence: i64) -> Row {
    Row {
        entity_type: "note".to_string(),
        entity_id: "a".to_string(),
        sequence,
        event_type: "noted".to_string(),
        payload: vec![sequence as u8],
    }
}

#[test]
fn gaps_do_not_keep_events_from_being_read() {
    let mut table = Table(vec![numbered(9), numbered(2), numbered(4)]);
    let whole = vec![(2, vec![2]), (4, vec![4]), (9, vec![9])];
    assert_eq!(table.read("a", Since::BeginningOfStream, None), whole);
    let mut portions = table.read("a", Since::BeginningOfStream, Some(2));
    let last = portions.last().unwrap().0;
    assert_eq!(last, 4);
    portions.append(&mut table.read("a", after(last), None));
    assert_eq!(portions, whole);
    assert_eq!(table.read("a", after(3), None), whole[1..].to_vec());
    assert_eq!(table.read("a", after(20), None), vec![]);
    assert_eq!(table.append("a", &[&[1], &[2]]).unwrap().get(), 10);
    assert_eq!(
        table.read("a", after(9), None),
        vec![(10, vec![1]), (11, vec![2])]
    );
}

#[test]
fn last_number_of_the_column_is_read_back() {
    let mut table = Table(vec![numbered(i64::MAX - 1)]);
    let last = i64::MAX as u64;
    assert_eq!(table.append("a", &[&[7]]).unwrap().get(), last);
    assert_eq!(table.read("a", after(last - 1), None), vec![(last, vec![7])]);
    assert_eq!(table.read("a", after(last), None), vec![]);
}

#[test]
fn repeated_and_unlimited_reads_agree() {
    let table = Table(vec![numbered(9), numbered(2), numbered(4)]);
    let whole = table.read("a", after(1), None);
    assert_eq!(whole.len(), 3);
    assert_eq!(table.read("a", after(1), None), whole);
    assert_eq!(table.read("a", after(1), Some(2)), whole[..2].to_vec());
    assert_eq!(table.read("a", after(1), Some(i64::MAX as u64)), whole);
    assert_eq!(table.read("a", after(1), Some(u64::MAX)), whole);
}

#[test]
fn two_appends_are_one() {
    let mut twice = Table(vec![numbered(4)]);
    twice.append("a", &[&[1], &[2]]).unwrap();
    assert_eq!(twice.append("a", &[&[3]]).unwrap().get(), 7);
    let mut once = Table(vec![numbered(4)]);
    once.append("a", &[&[1], &[2], &[3]]).unwrap();
    assert_eq!(
        twice.read("a", Since::BeginningOfStream, None),
        once.read("a", Since::BeginningOfStream, None)
    );
}

#[test]
fn stored_snapshot_is_the_one_fetched() {
    let mut table: Vec<(i64, &str)> = Vec::new();
    let mut last = Version::Initial;
    for (version, state) in [(2, "two"), (1, "one"), (5, "five")] {
        let plan = decide_snapshot(
            "note",
            "a",
            Version::new(version),
            last,
            SnapshotRecommendation::SnapshotNow,
        );
        match plan {
            SnapshotPlan::Keep(kept) => assert_eq!(kept, last),
            SnapshotPlan::Store(statement, stored) => {
                table.push((integer(&statement.params[2]), state));
                last = stored;
            }
        }
        let fetched = load_snapshot(table.iter().copied().max()).unwrap();
        assert_eq!(fetched.version, last);
    }
    assert_eq!(last, Version::new(5));
    assert_eq!(load_snapshot(table.iter().copied().max()).unwrap().payload, "five");
}
