use cqrs_postgres::migrate::{Migration, MigrationAction, MigrationReply, MigrationSession};

fn database_error() -> postgres::error::Error {
    postgres::error::Error::Io(std::io::Error::new(std::io::ErrorKind::Other, "gone"))
}

fn started() -> MigrationSession {
    let (session, action) = MigrationSession::start();
    assert!(matches!(
        action,
        MigrationAction::Run(Migration::CreateMigrations)
    ));
    session
}

/// The scripts that are run on a database whose table of migrations answers with `row`.
fn scripts_run(row: Option<Option<i32>>) -> Vec<Migration> {
    let (mut session, mut action) = MigrationSession::start();
    let mut scripts = Vec::new();
    loop {
        let reply = match action {
            MigrationAction::Run(migration) => {
                scripts.push(migration);
                MigrationReply::Done
            }
            MigrationAction::Query(_) => MigrationReply::SchemaVersion(row),
            MigrationAction::Return(answer) => {
                answer.unwrap();
                return scripts;
            }
        };
        assert!(session.accepts(&reply));
        action = session.step(reply);
    }
}

fn checking() -> MigrationSession {
    let mut session = started();
    match session.step(MigrationReply::Done) {
        MigrationAction::Query(text) => assert_eq!(text, "SELECT MAX(version) from migrations"),
        other => panic!("{:?}", other),
    }
    session
}

#[test]
fn tables_are_created_in_a_fresh_database() {
    for row in [None, Some(None), Some(Some(0)), Some(Some(-3))] {
        let mut session = checking();
        assert!(matches!(
            session.step(MigrationReply::SchemaVersion(row)),
            MigrationAction::Run(Migration::CreateTables)
        ));
        assert!(matches!(
            session.step(MigrationReply::Done),
            MigrationAction::Return(Ok(()))
        ));
        assert!(!session.accepts(&MigrationReply::Done));
    }
}

#[test]
fn tables_are_left_alone_once_created() {
    for version in [1, 2, i32::MAX] {
        let mut session = checking();
        assert!(matches!(
            session.step(MigrationReply::SchemaVersion(Some(Some(version)))),
            MigrationAction::Return(Ok(()))
        ));
        assert!(!session.accepts(&MigrationReply::Done));
    }
}

#[test]
fn database_error_ends_the_creation_wherever_it_comes() {
    let mut creating = checking();
    creating.step(MigrationReply::SchemaVersion(None));
    for mut session in [started(), checking(), creating] {
        let failed = MigrationReply::Failed(database_error());
        assert!(session.accepts(&failed));
        assert!(matches!(
            session.step(failed),
            MigrationAction::Return(Err(postgres::error::Error::Io(_)))
        ));
        assert!(!session.accepts(&MigrationReply::Failed(database_error())));
    }
}

#[test]
fn schema_version_is_taken_only_when_asked_for() {
    let session = started();
    assert!(session.accepts(&MigrationReply::Done));
    assert!(!session.accepts(&MigrationReply::SchemaVersion(None)));
    let session = checking();
    assert!(!session.accepts(&MigrationReply::Done));
    assert!(session.accepts(&MigrationReply::SchemaVersion(None)));
}

#[test]
fn table_of_migrations_comes_first() {
    for row in [None, Some(None), Some(Some(0))] {
        let scripts = scripts_run(row);
        assert_eq!(scripts.len(), 2);
        assert!(matches!(scripts[0], Migration::CreateMigrations));
        assert!(matches!(scripts[1], Migration::CreateTables));
    }
    for version in [1, 9] {
        let scripts = scripts_run(Some(Some(version)));
        assert_eq!(scripts.len(), 1);
        assert!(matches!(scripts[0], Migration::CreateMigrations));
    }
}
