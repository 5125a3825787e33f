//! Storing and fetching snapshots of aggregates.

use vstd::prelude::*;

use crate::aggregate::{
    NeverSnapshot, SnapshotRecommendation, SnapshotStrategy, VersionedAggregate,
};
use crate::error::PersistError;
use crate::statement::{
    snapshot_insert, SqlParamView, Statement, StatementView, INSERT_SNAPSHOT,
};
use crate::version::{from_column, law_columns_hold_bytes, number_of, stands_for, Version};

verus! {

/// What is to be done about a snapshot.
#[derive(Debug, PartialEq, Eq)]
pub enum SnapshotPlan<'a> {
    /// Nothing: the last snapshot, of this version, stays the last one. The answer is that of
    /// [`keep_answer`].
    Keep(Version),
    /// The statement stores a snapshot of this version. The answer is that of
    /// [`snapshot_answer`].
    Store(Statement<'a>, Version),
}

/// What is to be done about a snapshot, as mathematics.
pub enum SnapshotPlanView {
    Keep(nat),
    Store(StatementView, nat),
}

impl<'a> View for SnapshotPlan<'a> {
    type V = SnapshotPlanView;

    open spec fn view(&self) -> SnapshotPlanView {
        match *self {
            SnapshotPlan::Keep(version) => SnapshotPlanView::Keep(version@),
            SnapshotPlan::Store(statement, version) => SnapshotPlanView::Store(
                statement@,
                version@,
            ),
        }
    }
}

/// That a snapshot is due: the version is later than that of the last snapshot, and the strategy
/// does not advise against it.
pub open spec fn snapshot_due(
    version: nat,
    last_snapshot_version: nat,
    recommendation: SnapshotRecommendation,
) -> bool {
    version > last_snapshot_version && recommendation != SnapshotRecommendation::DoNotSnapshot
}

/// What follows from the two versions and from what the strategy recommends.
pub open spec fn snapshot_plan(
    entity_type: Seq<char>,
    entity_id: Seq<char>,
    version: nat,
    last_snapshot_version: nat,
    recommendation: SnapshotRecommendation,
) -> SnapshotPlanView {
    if snapshot_due(version, last_snapshot_version, recommendation) {
        SnapshotPlanView::Store(snapshot_insert(entity_type, entity_id, version), version)
    } else {
        SnapshotPlanView::Keep(last_snapshot_version)
    }
}

/// The version of the last snapshot once the plan has been carried out.
pub open spec fn snapshot_version_after(plan: SnapshotPlanView) -> nat {
    match plan {
        SnapshotPlanView::Keep(version) => version,
        SnapshotPlanView::Store(_, version) => version,
    }
}

/// Decides about a snapshot from the two versions and from what the strategy recommends.
pub fn decide_snapshot<'a>(
    entity_type: &'a str,
    entity_id: &'a str,
    version: Version,
    last_snapshot_version: Version,
    recommendation: SnapshotRecommendation,
) -> (plan: SnapshotPlan<'a>)
    ensures
        plan@ == snapshot_plan(
            entity_type@,
            entity_id@,
            version@,
            last_snapshot_version@,
            recommendation,
        ),
{
    if version.get() <= last_snapshot_version.get() || recommendation
        == SnapshotRecommendation::DoNotSnapshot {
        SnapshotPlan::Keep(last_snapshot_version)
    } else {
        SnapshotPlan::Store(
            Statement::snapshot_insert(entity_type, entity_id, version),
            version,
        )
    }
}

/// Decides about a snapshot. The strategy is asked only about a version later than that of the
/// last snapshot.
pub fn plan_snapshot<'a, S: SnapshotStrategy>(
    strategy: &S,
    entity_type: &'a str,
    entity_id: &'a str,
    version: Version,
    last_snapshot_version: Version,
) -> (plan: SnapshotPlan<'a>)
    ensures
        version@ <= last_snapshot_version@ ==> plan@ == SnapshotPlanView::Keep(
            last_snapshot_version@,
        ),
        version@ > last_snapshot_version@ ==> exists|recommendation: SnapshotRecommendation|
            #[trigger] call_ensures(
                S::snapshot_recommendation,
                (strategy, version, last_snapshot_version),
                recommendation,
            ) && plan@ == snapshot_plan(
                entity_type@,
                entity_id@,
                version@,
                last_snapshot_version@,
                recommendation,
            ),
{
    if version.get() <= last_snapshot_version.get() {
        SnapshotPlan::Keep(last_snapshot_version)
    } else {
        decide_snapshot(
            entity_type,
            entity_id,
            version,
            last_snapshot_version,
            strategy.snapshot_recommendation(version, last_snapshot_version),
        )
    }
}

/// The answer to a request to store a snapshot when nothing is to be done: the version of the last
/// snapshot.
pub fn keep_answer<R, E>(last_snapshot_version: Version) -> (answer: Result<
    Version,
    PersistError<R, E>,
>)
    ensures
        answer == Ok::<Version, PersistError<R, E>>(last_snapshot_version),
{
    Ok(last_snapshot_version)
}

/// The answer to a request to store a snapshot of `version`, once its statement has been prepared
/// and run.
pub fn snapshot_answer<R, E>(
    version: Version,
    outcome: Result<u64, postgres::error::Error>,
) -> (answer: Result<Version, PersistError<R, E>>)
    ensures
        answer == match outcome {
            Ok(_) => Ok::<Version, PersistError<R, E>>(version),
            Err(error) => Err(PersistError::Postgres(error)),
        },
{
    match outcome {
        Ok(_) => Ok(version),
        Err(error) => Err(PersistError::Postgres(error)),
    }
}

/// The snapshot that the first row of an answer holds, if there is a row: its version and its
/// payload.
pub open spec fn snapshot_in<A>(row: Option<(i64, A)>) -> Option<VersionedAggregate<A>> {
    match row {
        Some((sequence, payload)) => Some(
            VersionedAggregate { version: Version::of(number_of(sequence as int)), payload },
        ),
        None => None,
    }
}

/// Takes the snapshot from the first row of the answer to the query for it.
pub fn load_snapshot<A>(row: Option<(i64, A)>) -> (snapshot: Option<VersionedAggregate<A>>)
    ensures
        snapshot == snapshot_in(row),
        row matches Some((sequence, _)) ==> snapshot is Some && snapshot->0.version@ == number_of(
            sequence as int,
        ),
{
    match row {
        Some((sequence, payload)) => Some(
            VersionedAggregate { version: Version::new(from_column(sequence)), payload },
        ),
        None => None,
    }
}

/// The answer to a request to fetch the latest snapshot, once its query has been prepared and run:
/// the snapshot in the first row, if there is a row. An error of the database is handed on.
pub fn fetch_answer<A>(outcome: Result<Option<(i64, A)>, postgres::error::Error>) -> (answer:
    Result<Option<VersionedAggregate<A>>, postgres::error::Error>)
    ensures
        answer == match outcome {
            Ok(row) => Ok::<Option<VersionedAggregate<A>>, postgres::error::Error>(
                snapshot_in(row),
            ),
            Err(error) => Err(error),
        },
        outcome matches Ok(Some((sequence, _))) ==> answer is Ok && answer->Ok_0 is Some
            && answer->Ok_0->0.version@ == number_of(sequence as int),
{
    match outcome {
        Ok(row) => Ok(load_snapshot(row)),
        Err(error) => Err(error),
    }
}

/// The version of the last snapshot never goes back, and moves only to the version asked for.
pub proof fn law_snapshot_version_never_goes_back(
    entity_type: Seq<char>,
    entity_id: Seq<char>,
    version: nat,
    last_snapshot_version: nat,
    recommendation: SnapshotRecommendation,
)
    ensures
        ({
            let after = snapshot_version_after(
                snapshot_plan(
                    entity_type,
                    entity_id,
                    version,
                    last_snapshot_version,
                    recommendation,
                ),
            );
            &&& after >= last_snapshot_version
            &&& after == version || after == last_snapshot_version
        }),
{
}

/// Nothing is stored of a version that is not later than the last snapshot, whatever the strategy
/// recommends, nor of any version when it advises against it.
pub proof fn law_snapshot_stored_only_when_due(
    entity_type: Seq<char>,
    entity_id: Seq<char>,
    version: nat,
    last_snapshot_version: nat,
    recommendation: SnapshotRecommendation,
)
    ensures
        snapshot_plan(entity_type, entity_id, version, last_snapshot_version, recommendation)
            == SnapshotPlanView::Keep(last_snapshot_version) <==> (version <= last_snapshot_version
            || recommendation == SnapshotRecommendation::DoNotSnapshot),
{
}

/// Under the strategy that never takes snapshots nothing is ever stored.
pub proof fn law_never_snapshot_stores_nothing(
    entity_type: Seq<char>,
    entity_id: Seq<char>,
    version: Version,
    last_snapshot_version: Version,
    recommendation: SnapshotRecommendation,
)
    requires
        call_ensures(
            NeverSnapshot::snapshot_recommendation,
            (&NeverSnapshot, version, last_snapshot_version),
            recommendation,
        ),
    ensures
        snapshot_plan(
            entity_type,
            entity_id,
            version@,
            last_snapshot_version@,
            recommendation,
        ) == SnapshotPlanView::Keep(last_snapshot_version@),
{
}

/// That a statement stores a snapshot of the aggregate at the given version.
pub open spec fn stores_snapshot(
    statement: StatementView,
    entity_type: Seq<char>,
    entity_id: Seq<char>,
    version: nat,
) -> bool {
    &&& statement.text == INSERT_SNAPSHOT@
    &&& statement.params.len() == 4
    &&& statement.params[0] == SqlParamView::Text(entity_type)
    &&& statement.params[1] == SqlParamView::Text(entity_id)
    &&& statement.params[2] is BigInt
    &&& stands_for(statement.params[2]->BigInt_0, version)
    &&& statement.params[3] is Aggregate
}

/// A snapshot is stored exactly when the version is later than that of the last snapshot and the
/// strategy recommends it. What is stored then is the aggregate itself, under its type, its
/// identifier and this version; otherwise the last snapshot stays the last.
pub proof fn law_snapshot_is_stored_exactly_when_due(
    entity_type: Seq<char>,
    entity_id: Seq<char>,
    version: nat,
    last_snapshot_version: nat,
    recommendation: SnapshotRecommendation,
)
    requires
        version <= u64::MAX,
    ensures
        match snapshot_plan(
            entity_type,
            entity_id,
            version,
            last_snapshot_version,
            recommendation,
        ) {
            SnapshotPlanView::Store(statement, stored) => {
                &&& version > last_snapshot_version
                &&& recommendation == SnapshotRecommendation::SnapshotNow
                &&& stored == version
                &&& stores_snapshot(statement, entity_type, entity_id, version)
            },
            SnapshotPlanView::Keep(kept) => {
                &&& version <= last_snapshot_version || recommendation
                    == SnapshotRecommendation::DoNotSnapshot
                &&& kept == last_snapshot_version
            },
        },
{
    law_columns_hold_bytes(version, 0);
}

/// The plan that is made is the one that follows from the versions and the recommendation: it says
/// to store exactly when a snapshot is due, and which version is the last one then.
pub proof fn law_plan_is_made_for_the_versions_given(
    entity_type: &str,
    entity_id: &str,
    version: Version,
    last_snapshot_version: Version,
    recommendation: SnapshotRecommendation,
    plan: SnapshotPlan<'_>,
)
    requires
        version@ <= u64::MAX,
        call_ensures(
            decide_snapshot,
            (entity_type, entity_id, version, last_snapshot_version, recommendation),
            plan,
        ),
    ensures
        match plan {
            SnapshotPlan::Store(statement, stored) => {
                &&& version@ > last_snapshot_version@
                &&& recommendation == SnapshotRecommendation::SnapshotNow
                &&& stored@ == version@
                &&& stores_snapshot(statement@, entity_type@, entity_id@, version@)
            },
            SnapshotPlan::Keep(kept) => {
                &&& version@ <= last_snapshot_version@ || recommendation
                    == SnapshotRecommendation::DoNotSnapshot
                &&& kept@ == last_snapshot_version@
            },
        },
{
    law_snapshot_is_stored_exactly_when_due(
        entity_type@,
        entity_id@,
        version@,
        last_snapshot_version@,
        recommendation,
    );
}

/// The plan for a version that is not later is to keep the last snapshot; the plan for a later one
/// is made by what the strategy can recommend for these two versions.
pub proof fn law_strategy_decides_about_later_versions<S: SnapshotStrategy>(
    strategy: &S,
    entity_type: &str,
    entity_id: &str,
    version: Version,
    last_snapshot_version: Version,
    plan: SnapshotPlan<'_>,
)
    requires
        version@ <= u64::MAX,
        call_ensures(
            plan_snapshot::<S>,
            (strategy, entity_type, entity_id, version, last_snapshot_version),
            plan,
        ),
    ensures
        plan matches SnapshotPlan::Keep(kept) ==> {
            &&& kept@ == last_snapshot_version@
            &&& version@ <= last_snapshot_version@ || call_ensures(
                S::snapshot_recommendation,
                (strategy, version, last_snapshot_version),
                SnapshotRecommendation::DoNotSnapshot,
            )
        },
        plan matches SnapshotPlan::Store(statement, stored) ==> {
            &&& version@ > last_snapshot_version@
            &&& call_ensures(
                S::snapshot_recommendation,
                (strategy, version, last_snapshot_version),
                SnapshotRecommendation::SnapshotNow,
            )
            &&& stored@ == version@
            &&& stores_snapshot(statement@, entity_type@, entity_id@, version@)
        },
{
    law_snapshot_is_stored_exactly_when_due(
        entity_type@,
        entity_id@,
        version@,
        last_snapshot_version@,
        SnapshotRecommendation::SnapshotNow,
    );
}

/// A request to store a snapshot is answered with the version of the last one: that which stays if
/// nothing is to be done, that which was stored if the database has stored it. An error of the
/// database is the answer otherwise.
pub proof fn law_storing_answers_with_the_last_version<R, E>(
    version: Version,
    outcome: Result<u64, postgres::error::Error>,
    kept: Result<Version, PersistError<R, E>>,
    stored: Result<Version, PersistError<R, E>>,
)
    requires
        call_ensures(keep_answer::<R, E>, (version,), kept),
        call_ensures(snapshot_answer::<R, E>, (version, outcome), stored),
    ensures
        kept matches Ok(last) && last == version,
        outcome is Ok <==> stored is Ok,
        stored matches Ok(last) ==> last == version,
        outcome matches Err(cause) ==> stored == Err::<Version, PersistError<R, E>>(
            PersistError::Postgres(cause),
        ),
{
}

/// A request to fetch a snapshot is answered with what the row of the database holds, the payload
/// as it is and the version as its number tells; with none if there is no row; with the error of
/// the database if it reports one.
pub proof fn law_fetching_answers_with_what_the_row_holds<A>(
    outcome: Result<Option<(i64, A)>, postgres::error::Error>,
    answer: Result<Option<VersionedAggregate<A>>, postgres::error::Error>,
)
    requires
        call_ensures(fetch_answer::<A>, (outcome,), answer),
    ensures
        match outcome {
            Ok(Some((sequence, payload))) => {
                &&& answer is Ok
                &&& answer->Ok_0 is Some
                &&& answer->Ok_0->0.payload == payload
                &&& stands_for(sequence as int, answer->Ok_0->0.version@)
                &&& answer->Ok_0->0.version is Initial <==> sequence == 0
            },
            Ok(None) => answer is Ok && answer->Ok_0 is None,
            Err(error) => answer == Err::<Option<VersionedAggregate<A>>, postgres::error::Error>(
                error,
            ),
        },
{
    if let Ok(Some((sequence, _))) = outcome {
        law_columns_hold_bytes(0, sequence as int);
    }
}

/// The snapshot of a row is what the row holds.
pub proof fn law_loaded_snapshot_is_what_the_row_holds<A>(
    row: Option<(i64, A)>,
    snapshot: Option<VersionedAggregate<A>>,
)
    requires
        call_ensures(load_snapshot::<A>, (row,), snapshot),
    ensures
        row is Some <==> snapshot is Some,
        row matches Some((sequence, payload)) ==> {
            &&& snapshot->0.payload == payload
            &&& stands_for(sequence as int, snapshot->0.version@)
            &&& snapshot->0.version is Initial <==> sequence == 0
        },
{
    if let Some((sequence, _)) = row {
        law_columns_hold_bytes(0, sequence as int);
    }
}

} // verus!
