use cqrs_postgres::aggregate::{DeserializableEvent, Event};
use cqrs_postgres::error::LoadError;
use cqrs_postgres::read::{
    handle_row, load_event, FetchedRow, ReadAction, ReadReply, ReadSession,
};
use cqrs_postgres::statement::{SqlParam, SELECT_EVENTS, SELECT_EVENTS_LIMITED};
use cqrs_postgres::version::{EventNumber, Since};

type Reply = ReadReply<Noted>;
type Session = ReadSession<'static, Noted, usize>;

#[derive(Debug, PartialEq)]
struct Noted(Vec<u8>);

impl Event for Noted {
    fn event_type(&self) -> &'static str {
        "noted"
    }
}

impl DeserializableEvent for Noted {
    type Error = usize;

    fn deserialize_event_from_buffer(
        data: &[u8],
        event_type: &str,
    ) -> Result<Option<Noted>, usize> {
        if event_type != "noted" {
            Ok(None)
        } else if data.is_empty() {
            Err(7)
        } else {
            Ok(Some(Noted(data.to_vec())))
        }
    }
}

fn database_error() -> postgres::error::Error {
    postgres::error::Error::Io(std::io::Error::new(std::io::ErrorKind::Other, "gone"))
}

/// A row of a known type whose text can be read back.
fn good(sequence: i64) -> Reply {
    ReadReply::Row(handle_row(sequence, "noted".to_string(), vec![sequence as u8]))
}

/// A row of an unknown type.
fn unknown(sequence: i64) -> Reply {
    ReadReply::Row(handle_row(sequence, "lost".to_string(), vec![1]))
}

/// A row whose text cannot be read back.
fn unreadable(sequence: i64) -> Reply {
    ReadReply::Row(handle_row(sequence, "noted".to_string(), Vec::new()))
}

/// A session that waits for its transaction.
fn started(since: Since, max_count: Option<u64>) -> Session {
    let (session, action): (Session, ReadAction<'static, Noted, usize>) =
        ReadSession::start("note", "n-1", since, max_count);
    assert!(matches!(action, ReadAction::BeginReadOnly));
    session
}

#[test]
fn read_answers_with_every_row_in_order() {
    let mut session = started(Since::Event(EventNumber::new(4).unwrap()), Some(3));
    match session.step(Reply::Done) {
        ReadAction::Query(statement, portion) => {
            assert_eq!(statement.text, SELECT_EVENTS_LIMITED);
            assert_eq!(statement.params[2], SqlParam::BigInt(4));
            assert_eq!(statement.params[3], SqlParam::BigInt(3));
            assert_eq!(portion, 100);
        }
        other => panic!("{:?}", other),
    }
    assert!(matches!(session.step(Reply::Done), ReadAction::Fetch));
    assert!(matches!(session.step(good(5)), ReadAction::Fetch));
    assert!(matches!(session.step(unknown(6)), ReadAction::Fetch));
    assert!(matches!(session.step(unreadable(7)), ReadAction::Fetch));
    assert!(matches!(session.step(Reply::End), ReadAction::Commit));
    match session.step(Reply::Done) {
        ReadAction::Return(Ok(Some(events))) => {
            assert_eq!(events.len(), 3);
            let first = events[0].as_ref().unwrap();
            assert_eq!(first.sequence.get(), 5);
            assert_eq!(first.event, Noted(vec![5]));
            match &events[1] {
                Err(LoadError::UnknownEventType(name)) => assert_eq!(name, "lost"),
                other => panic!("{:?}", other),
            }
            assert!(matches!(
                events[2],
                Err(LoadError::DeserializationError(7))
            ));
        }
        other => panic!("{:?}", other),
    }
    assert!(!session.accepts(&Reply::Done));
}

#[test]
fn read_of_nothing_answers_with_no_events() {
    let mut session = started(Since::BeginningOfStream, None);
    match session.step(Reply::Done) {
        ReadAction::Query(statement, _) => assert_eq!(statement.text, SELECT_EVENTS),
        other => panic!("{:?}", other),
    }
    session.step(Reply::Done);
    session.step(Reply::End);
    match session.step(Reply::Done) {
        ReadAction::Return(Ok(Some(events))) => assert!(events.is_empty()),
        other => panic!("{:?}", other),
    }
}

#[test]
fn database_error_ends_the_read_wherever_it_comes() {
    for stop in 0..5 {
        let mut session = started(Since::BeginningOfStream, None);
        for reply in [
            Reply::Done,
            Reply::Done,
            good(1),
            Reply::End,
        ]
        .into_iter()
        .take(stop)
        {
            session.step(reply);
        }
        let failed = Reply::Failed(database_error());
        assert!(session.accepts(&failed));
        assert!(matches!(
            session.step(failed),
            ReadAction::Return(Err(LoadError::Postgres(_)))
        ));
        assert!(!session.accepts(&Reply::Done));
    }
}

#[test]
fn event_without_a_number_is_not_accepted() {
    let mut session = started(Since::BeginningOfStream, None);
    session.step(Reply::Done);
    assert!(!session.accepts(&good(1)));
    session.step(Reply::Done);
    assert!(!session.accepts(&good(0)));
    assert!(session.accepts(&unknown(0)));
    assert!(session.accepts(&unreadable(0)));
    assert!(session.accepts(&good(1)));
    assert!(session.accepts(&Reply::End));
    assert!(!session.accepts(&Reply::Done));
}

fn noted(sequence: i64, event_type: &str, payload: &[u8]) -> FetchedRow<Noted> {
    handle_row(sequence, event_type.to_string(), payload.to_vec())
}

#[test]
fn negative_column_values_are_large_numbers() {
    let event = load_event(noted(-1, "noted", &[9])).unwrap();
    assert_eq!(event.sequence.get(), u64::MAX);
    assert_eq!(event.event, Noted(vec![9]));
    let event = load_event(noted(i64::MIN, "noted", &[9])).unwrap();
    assert_eq!(event.sequence.get(), 1 << 63);
}

#[test]
fn rows_are_read_back_by_type_and_text() {
    let row = noted(3, "noted", &[1, 2]);
    assert_eq!(row.sequence(), 3);
    assert_eq!(row.event_type(), "noted");
    assert_eq!(row.outcome(), &Ok(Some(Noted(vec![1, 2]))));
    let row = noted(3, "lost", &[1, 2]);
    assert_eq!(row.event_type(), "lost");
    assert_eq!(row.outcome(), &Ok(None));
    assert_eq!(noted(3, "noted", &[]).outcome(), &Err(7));
}
