use cqrs_postgres::aggregate::{
    NeverSnapshot, SnapshotRecommendation, SnapshotStrategy, VersionedAggregate,
};
use cqrs_postgres::error::PersistError;
use cqrs_postgres::snapshot::{
    decide_snapshot, fetch_answer, keep_answer, load_snapshot, plan_snapshot, snapshot_answer,
    SnapshotPlan,
};
use cqrs_postgres::statement::Statement;
use cqrs_postgres::version::Version;

fn database_error() -> postgres::error::Error {
    postgres::error::Error::Io(std::io::Error::new(std::io::ErrorKind::Other, "gone"))
}

struct EveryTenth;

impl SnapshotStrategy for EveryTenth {
    fn snapshot_recommendation(
        &self,
        version: Version,
        last_snapshot_version: Version,
    ) -> SnapshotRecommendation {
        if version.get() - last_snapshot_version.get() >= 10 {
            SnapshotRecommendation::SnapshotNow
        } else {
            SnapshotRecommendation::DoNotSnapshot
        }
    }
}

struct Unasked;

impl SnapshotStrategy for Unasked {
    fn snapshot_recommendation(&self, _: Version, _: Version) -> SnapshotRecommendation {
        panic!("the strategy is asked about a version that is not later");
    }
}

fn stored(version: u64) -> SnapshotPlan<'static> {
    SnapshotPlan::Store(
        Statement::snapshot_insert("note", "n-1", Version::new(version)),
        Version::new(version),
    )
}

#[test]
fn strategy_decides_about_later_versions() {
    let plan = |version, last| {
        plan_snapshot(&EveryTenth, "note", "n-1", Version::new(version), Version::new(last))
    };
    assert_eq!(plan(10, 0), stored(10));
    assert_eq!(plan(9, 0), SnapshotPlan::Keep(Version::Initial));
    assert_eq!(plan(19, 10), SnapshotPlan::Keep(Version::new(10)));
    assert_eq!(plan(20, 10), stored(20));
}

#[test]
fn strategy_is_not_asked_about_earlier_versions() {
    for (version, last) in [(0, 0), (3, 3), (2, 3)] {
        assert_eq!(
            plan_snapshot(&Unasked, "note", "n-1", Version::new(version), Version::new(last)),
            SnapshotPlan::Keep(Version::new(last))
        );
    }
}

#[test]
fn never_snapshot_stores_nothing() {
    assert_eq!(
        plan_snapshot(
            &NeverSnapshot::default(),
            "note",
            "n-1",
            Version::new(1000),
            Version::Initial
        ),
        SnapshotPlan::Keep(Version::Initial)
    );
}

#[test]
fn recommendation_does_not_override_the_versions() {
    let decide = |version, last, recommendation| {
        decide_snapshot(
            "note",
            "n-1",
            Version::new(version),
            Version::new(last),
            recommendation,
        )
    };
    assert_eq!(decide(5, 4, SnapshotRecommendation::SnapshotNow), stored(5));
    assert_eq!(
        decide(4, 4, SnapshotRecommendation::SnapshotNow),
        SnapshotPlan::Keep(Version::new(4))
    );
    assert_eq!(
        decide(5, 4, SnapshotRecommendation::DoNotSnapshot),
        SnapshotPlan::Keep(Version::new(4))
    );
}

#[test]
fn stored_snapshot_is_answered_with_its_version() {
    let answer: Result<Version, PersistError<(), ()>> = snapshot_answer(Version::new(5), Ok(1));
    assert_eq!(answer.unwrap(), Version::new(5));
    let answer: Result<Version, PersistError<(), ()>> =
        snapshot_answer(Version::new(5), Err(database_error()));
    assert!(matches!(answer, Err(PersistError::Postgres(_))));
}

#[test]
fn snapshot_is_loaded_from_its_row() {
    assert_eq!(load_snapshot::<&str>(None), None);
    assert_eq!(
        load_snapshot(Some((5, "state"))),
        Some(VersionedAggregate {
            version: Version::new(5),
            payload: "state"
        })
    );
    assert_eq!(
        load_snapshot(Some((0, "state"))).unwrap().version,
        Version::Initial
    );
    assert_eq!(
        load_snapshot(Some((-1, "state"))).unwrap().version,
        Version::new(u64::MAX)
    );
}

#[test]
fn kept_snapshot_is_answered_with_the_last_version() {
    let answer: Result<Version, PersistError<(), ()>> = keep_answer(Version::new(4));
    assert_eq!(answer.unwrap(), Version::new(4));
    let answer: Result<Version, PersistError<(), ()>> = keep_answer(Version::Initial);
    assert_eq!(answer.unwrap(), Version::Initial);
}

#[test]
fn fetch_is_answered_with_the_row_or_the_error() {
    assert_eq!(fetch_answer::<&str>(Ok(None)).unwrap(), None);
    let fetched = fetch_answer(Ok(Some((5, "state")))).unwrap().unwrap();
    assert_eq!(fetched.version, Version::new(5));
    assert_eq!(fetched.payload, "state");
    assert!(matches!(
        fetch_answer::<&str>(Err(database_error())),
        Err(postgres::error::Error::Io(_))
    ));
}
