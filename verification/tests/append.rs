use cqrs_postgres::aggregate::{Event, Precondition, SerializableEvent};
use cqrs_postgres::append::{
    current_version, serialize_event, verify_precondition, AppendAction, AppendReply,
    AppendSession,
};
use cqrs_postgres::error::PersistError;
use cqrs_postgres::statement::{SqlParam, INSERT_EVENT, SELECT_MAX_SEQUENCE};
use cqrs_postgres::version::{EventNumber, Version};

fn database_error() -> postgres::error::Error {
    postgres::error::Error::Io(std::io::Error::new(std::io::ErrorKind::Other, "gone"))
}

fn number(n: u64) -> EventNumber {
    EventNumber::new(n).unwrap()
}

#[derive(Debug)]
enum Note {
    Noted(u8),
    Struck(u8),
    Unwritable,
}

impl Event for Note {
    fn event_type(&self) -> &'static str {
        match self {
            Note::Noted(_) => "noted",
            Note::Struck(_) => "struck",
            Note::Unwritable => "unwritable",
        }
    }
}

impl SerializableEvent for Note {
    type Error = usize;

    fn serialize_event_to_buffer(&self, buffer: &mut Vec<u8>) -> Result<(), usize> {
        match self {
            Note::Noted(byte) | Note::Struck(byte) => {
                buffer.push(*byte);
                Ok(())
            }
            Note::Unwritable => Err(buffer.len()),
        }
    }
}

#[derive(Debug, PartialEq)]
struct AtLeast(u64);

impl Precondition for AtLeast {
    type Refusal = AtLeast;

    fn verify(self, current_version: Option<Version>) -> Result<(), AtLeast> {
        if current_version.unwrap_or_default().get() >= self.0 {
            Ok(())
        } else {
            Err(self)
        }
    }
}

/// A session that waits for its transaction.
fn started(events: &[Note], precondition: Option<AtLeast>) -> AppendSession<'_, AtLeast, Note> {
    let (session, action) = AppendSession::start("note", "n-1", events, precondition);
    assert!(matches!(action, AppendAction::Begin));
    session
}

/// A session that has been told the version and waits for the insert statement.
fn preparing(events: &[Note], row: Option<Option<i64>>) -> AppendSession<'_, AtLeast, Note> {
    let mut session = started(events, None);
    assert!(matches!(
        session.step(AppendReply::Done),
        AppendAction::Query(_)
    ));
    assert!(matches!(
        session.step(AppendReply::MaxSequence(row)),
        AppendAction::Prepare(_)
    ));
    session
}

#[test]
fn version_is_read_from_the_first_row() {
    assert_eq!(current_version(None), None);
    assert_eq!(current_version(Some(None)), None);
    assert_eq!(current_version(Some(Some(0))), Some(Version::Initial));
    assert_eq!(current_version(Some(Some(12))), Some(Version::new(12)));
    assert_eq!(current_version(Some(Some(-1))), Some(Version::new(u64::MAX)));
}

#[test]
fn append_inserts_every_event_and_commits() {
    let events = [Note::Noted(48), Note::Struck(49)];
    let mut session = started(&events, Some(AtLeast(7)));
    match session.step(AppendReply::Done) {
        AppendAction::Query(statement) => {
            assert_eq!(statement.text, SELECT_MAX_SEQUENCE);
            assert_eq!(
                statement.params,
                vec![SqlParam::Text("note"), SqlParam::Text("n-1")]
            );
        }
        other => panic!("{:?}", other),
    }
    match session.step(AppendReply::MaxSequence(Some(Some(7)))) {
        AppendAction::Prepare(text) => assert_eq!(text, INSERT_EVENT),
        other => panic!("{:?}", other),
    }
    for (sequence, event_type, byte) in [(8, "noted", 48), (9, "struck", 49)] {
        match session.step(AppendReply::Done) {
            AppendAction::Execute(statement) => {
                assert_eq!(statement.text, INSERT_EVENT);
                assert_eq!(
                    statement.params,
                    vec![
                        SqlParam::Text("note"),
                        SqlParam::Text("n-1"),
                        SqlParam::BigInt(sequence),
                        SqlParam::Text(event_type),
                        SqlParam::RawJson(vec![byte]),
                        SqlParam::Metadata,
                    ]
                );
            }
            other => panic!("{:?}", other),
        }
    }
    assert!(matches!(
        session.step(AppendReply::Done),
        AppendAction::Commit
    ));
    match session.step(AppendReply::Done) {
        AppendAction::Return(Ok(first)) => assert_eq!(first, number(8)),
        other => panic!("{:?}", other),
    }
    assert!(!session.accepts(&AppendReply::Done));
}

#[test]
fn append_without_events_answers_with_the_next_number() {
    for (row, next) in [(None, 1), (Some(None), 1), (Some(Some(4)), 5)] {
        let mut session = started(&[], Some(AtLeast(100)));
        session.step(AppendReply::Done);
        match session.step(AppendReply::MaxSequence(row)) {
            AppendAction::Return(Ok(answer)) => assert_eq!(answer, number(next)),
            other => panic!("{:?}", other),
        }
        assert!(!session.accepts(&AppendReply::Done));
    }
}

#[test]
fn refused_append_answers_with_the_refusal() {
    let events = [Note::Noted(48)];
    let mut session = started(&events, Some(AtLeast(4)));
    session.step(AppendReply::Done);
    match session.step(AppendReply::MaxSequence(Some(Some(3)))) {
        AppendAction::Return(Err(PersistError::PreconditionFailed(refusal))) => {
            assert_eq!(refusal, AtLeast(4));
        }
        other => panic!("{:?}", other),
    }
    assert!(!session.accepts(&AppendReply::Done));
}

#[test]
fn precondition_is_held_against_the_version_told() {
    let events = [Note::Noted(48)];
    for (row, holds) in [
        (None, false),
        (Some(None), false),
        (Some(Some(1)), false),
        (Some(Some(2)), true),
    ] {
        let mut session = started(&events, Some(AtLeast(2)));
        session.step(AppendReply::Done);
        let action = session.step(AppendReply::MaxSequence(row));
        assert_eq!(matches!(action, AppendAction::Prepare(_)), holds);
    }
}

#[test]
fn event_that_cannot_be_written_ends_the_append() {
    let events = [Note::Noted(48), Note::Unwritable, Note::Noted(49)];
    let mut session = preparing(&events, None);
    assert!(matches!(
        session.step(AppendReply::Done),
        AppendAction::Execute(_)
    ));
    match session.step(AppendReply::Done) {
        AppendAction::Return(Err(PersistError::SerializationError(error))) => {
            assert_eq!(error, 0);
        }
        other => panic!("{:?}", other),
    }
    assert!(!session.accepts(&AppendReply::Done));
}

#[test]
fn database_error_ends_the_append_wherever_it_comes() {
    let events = [Note::Noted(48)];
    for stop in 0..5 {
        let mut session = started(&events, None);
        for reply in [
            AppendReply::Done,
            AppendReply::MaxSequence(None),
            AppendReply::Done,
            AppendReply::Done,
        ]
        .into_iter()
        .take(stop)
        {
            assert!(session.accepts(&reply));
            session.step(reply);
        }
        let failed = AppendReply::Failed(database_error());
        assert!(session.accepts(&failed));
        assert!(matches!(
            session.step(failed),
            AppendAction::Return(Err(PersistError::Postgres(_)))
        ));
        assert!(!session.accepts(&AppendReply::Failed(database_error())));
    }
}

#[test]
fn replies_out_of_turn_are_not_accepted() {
    let events = [Note::Noted(48)];
    let mut session = started(&events, None);
    assert!(session.accepts(&AppendReply::Done));
    assert!(!session.accepts(&AppendReply::MaxSequence(None)));
    session.step(AppendReply::Done);
    assert!(!session.accepts(&AppendReply::Done));
    assert!(session.accepts(&AppendReply::MaxSequence(None)));
    let session = preparing(&events, None);
    assert!(session.accepts(&AppendReply::Done));
    assert!(!session.accepts(&AppendReply::MaxSequence(None)));
}

#[test]
fn exhausted_numbers_are_not_accepted() {
    let mut session = started(&[], None);
    session.step(AppendReply::Done);
    assert!(!session.accepts(&AppendReply::MaxSequence(Some(Some(-1)))));
    assert!(session.accepts(&AppendReply::MaxSequence(Some(Some(-2)))));

    let events = [Note::Noted(48)];
    let session = preparing(&events, Some(Some(-1)));
    assert!(!session.accepts(&AppendReply::Done));

    let mut session = preparing(&events, Some(Some(-2)));
    session.step(AppendReply::Done);
    assert!(!session.accepts(&AppendReply::Done));
}

struct Never;

impl Precondition for Never {
    type Refusal = &'static str;

    fn verify(self, _: Option<Version>) -> Result<(), &'static str> {
        Err("never")
    }
}

#[test]
fn refusal_comes_before_the_numbers_run_out() {
    let events = [Note::Noted(48)];
    let (mut session, _) = AppendSession::start("note", "n-1", &events, Some(Never));
    session.step(AppendReply::Done);
    let told = AppendReply::MaxSequence(Some(Some(-1)));
    assert!(session.accepts(&told));
    assert!(matches!(
        session.step(told),
        AppendAction::Return(Err(PersistError::PreconditionFailed("never")))
    ));
}

#[test]
fn precondition_decides_unless_there_is_none() {
    let current = Some(Version::new(2));
    assert_eq!(verify_precondition(Some(AtLeast(2)), current), Ok(()));
    assert_eq!(
        verify_precondition(Some(AtLeast(3)), current),
        Err(AtLeast(3))
    );
    assert_eq!(verify_precondition(Some(AtLeast(1)), None), Err(AtLeast(1)));
    assert_eq!(verify_precondition(None::<AtLeast>, None), Ok(()));
}

#[test]
fn events_are_written_into_an_empty_buffer() {
    assert_eq!(
        serialize_event(&Note::Noted(48)),
        Ok(("noted", vec![48]))
    );
    assert_eq!(
        serialize_event(&Note::Struck(49)),
        Ok(("struck", vec![49]))
    );
    assert_eq!(serialize_event(&Note::Unwritable), Err(0));
}
