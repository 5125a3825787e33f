//! The store: a database connection and a snapshot strategy.

use std::marker::PhantomData;

use vstd::prelude::*;

use crate::aggregate::{
    Aggregate, AggregateId, DeserializableEvent, NeverSnapshot, Precondition, SerializableEvent,
    SnapshotRecommendation, SnapshotStrategy,
};
use crate::append::{append_start, AppendAction, AppendActionView, AppendSession};
use crate::migrate::{
    migration_actions, migration_after, Migration, MigrationAction, MigrationSession,
    MigrationState,
};
use crate::read::{read_start, ReadAction, ReadActionView, ReadSession, ReadState};
use crate::snapshot::{
    law_snapshot_is_stored_exactly_when_due, plan_snapshot, snapshot_plan, stores_snapshot,
    SnapshotPlan, SnapshotPlanView,
};
use crate::statement::{snapshot_query, Statement, SELECT_SNAPSHOT};
use crate::version::{Since, Version};

verus! {

/// Declares `postgres::Connection`, a connection to the database. It is carried, never looked
/// into, and nothing is claimed of it.
#[verifier::external_type_specification]
#[verifier::external_body]
pub struct ExConnection(postgres::Connection);

/// A PostgreSQL storage backend.
pub struct PostgresStore<'conn, A, M, S = NeverSnapshot> where
    A: Aggregate,
    S: SnapshotStrategy,
 {
    conn: &'conn postgres::Connection,
    snapshot_strategy: S,
    _phantom: PhantomData<(A, M)>,
}

impl<'conn, A, M, S> PostgresStore<'conn, A, M, S> where
    A: Aggregate,
    S: SnapshotStrategy + Default,
 {
    /// Constructs a transient store based on a provided PostgreSQL connection using the default
    /// snapshot strategy.
    pub fn new(conn: &'conn postgres::Connection) -> (store: Self)
        ensures
            store.spec_connection() == conn,
            call_ensures(S::default, (), store.strategy()),
    {
        PostgresStore { conn, snapshot_strategy: S::default(), _phantom: PhantomData }
    }

    /// Constructs a transient store based on a provided PostgreSQL connection and snapshot
    /// strategy.
    pub fn with_snapshot_strategy(
        conn: &'conn postgres::Connection,
        snapshot_strategy: S,
    ) -> (store: Self)
        ensures
            store.spec_connection() == conn,
            store.strategy() == snapshot_strategy,
    {
        PostgresStore { conn, snapshot_strategy, _phantom: PhantomData }
    }

    /// Starts the creation of the base set of tables required to support the CQRS system. The
    /// action that is due first runs the script that creates the table of scripts run.
    pub fn create_tables(&self) -> (started: (MigrationSession, MigrationAction))
        ensures
            started.0@ == MigrationState::Preparing,
            started.1 == MigrationAction::Run(Migration::CreateMigrations),
    {
        MigrationSession::start()
    }
}

impl<'conn, A, M, S> PostgresStore<'conn, A, M, S> where A: Aggregate, S: SnapshotStrategy {
    /// The connection that the store was made with.
    pub closed spec fn spec_connection(&self) -> &'conn postgres::Connection {
        self.conn
    }

    /// The strategy that the store was made with.
    pub closed spec fn strategy(&self) -> S {
        self.snapshot_strategy
    }

    /// The connection that the store was made with.
    pub fn connection(&self) -> (conn: &'conn postgres::Connection)
        ensures
            conn == self.spec_connection(),
    {
        self.conn
    }

    /// Starts an append of `events` to the stream of an aggregate, which is to be refused if the
    /// precondition does not hold. The action that is due first opens the transaction.
    pub fn append_events<'a, I: AggregateId<Aggregate = A>, P: Precondition>(
        &self,
        id: &'a I,
        events: &'a [A::Event],
        precondition: Option<P>,
    ) -> (started: (
        AppendSession<'a, P, A::Event>,
        AppendAction<'a, P::Refusal, <A::Event as SerializableEvent>::Error>,
    )) where A::Event: SerializableEvent
        ensures
            exists|entity_type: &'static str, entity_id: &'a str|
                {
                    &&& #[trigger] call_ensures(A::entity_type, (), entity_type)
                    &&& #[trigger] call_ensures(I::as_ref, (id,), entity_id)
                    &&& started.0@ == append_start(
                        entity_type@,
                        entity_id@,
                        events@,
                        precondition,
                    )
                },
            started.1@ == AppendActionView::<
                P::Refusal,
                <A::Event as SerializableEvent>::Error,
            >::Begin,
    {
        let entity_type = A::entity_type();
        let entity_id = id.as_ref();
        AppendSession::start(entity_type, entity_id, events, precondition)
    }

    /// Starts a read of the events of an aggregate after `since`, all of them or at most
    /// `max_count`. The action that is due first opens the transaction, which only reads.
    pub fn read_events<'a, I: AggregateId<Aggregate = A>>(
        &self,
        id: &'a I,
        since: Since,
        max_count: Option<u64>,
    ) -> (started: (
        ReadSession<'a, A::Event, <A::Event as DeserializableEvent>::Error>,
        ReadAction<'a, A::Event, <A::Event as DeserializableEvent>::Error>,
    )) where A::Event: DeserializableEvent
        ensures
            exists|entity_type: &'static str, entity_id: &'a str|
                {
                    &&& #[trigger] call_ensures(A::entity_type, (), entity_type)
                    &&& #[trigger] call_ensures(I::as_ref, (id,), entity_id)
                    &&& started.0@ == read_start::<
                        A::Event,
                        <A::Event as DeserializableEvent>::Error,
                    >(entity_type@, entity_id@, since@, max_count)
                },
            started.1@ == ReadActionView::<
                A::Event,
                <A::Event as DeserializableEvent>::Error,
            >::BeginReadOnly,
    {
        let entity_type = A::entity_type();
        let entity_id = id.as_ref();
        ReadSession::start(entity_type, entity_id, since, max_count)
    }

    /// Decides about a snapshot of an aggregate at `version`, whose last snapshot has
    /// `last_snapshot_version`. The strategy of the store is asked only about a later version.
    pub fn persist_snapshot<'a, I: AggregateId<Aggregate = A>>(
        &self,
        id: &'a I,
        version: Version,
        last_snapshot_version: Version,
    ) -> (plan: SnapshotPlan<'a>)
        ensures
            version@ <= last_snapshot_version@ ==> plan@ == SnapshotPlanView::Keep(
                last_snapshot_version@,
            ),
            version@ > last_snapshot_version@ ==> exists|
                entity_type: &'static str,
                entity_id: &'a str,
                recommendation: SnapshotRecommendation,
            |
                {
                    &&& #[trigger] call_ensures(A::entity_type, (), entity_type)
                    &&& #[trigger] call_ensures(I::as_ref, (id,), entity_id)
                    &&& #[trigger] call_ensures(
                        S::snapshot_recommendation,
                        (&self.strategy(), version, last_snapshot_version),
                        recommendation,
                    )
                    &&& plan@ == snapshot_plan(
                        entity_type@,
                        entity_id@,
                        version@,
                        last_snapshot_version@,
                        recommendation,
                    )
                },
    {
        let entity_type = A::entity_type();
        let entity_id = id.as_ref();
        plan_snapshot(
            &self.snapshot_strategy,
            entity_type,
            entity_id,
            version,
            last_snapshot_version,
        )
    }

    /// The query for the latest snapshot of an aggregate. What comes of it, its first row or an
    /// error, [`fetch_answer`](crate::snapshot::fetch_answer) turns into the answer.
    pub fn get_snapshot<'a, I: AggregateId<Aggregate = A>>(&self, id: &'a I) -> (statement:
        Statement<'a>)
        ensures
            exists|entity_type: &'static str, entity_id: &'a str|
                {
                    &&& #[trigger] call_ensures(A::entity_type, (), entity_type)
                    &&& #[trigger] call_ensures(I::as_ref, (id,), entity_id)
                    &&& statement@ == snapshot_query(entity_type@, entity_id@)
                },
    {
        let entity_type = A::entity_type();
        let entity_id = id.as_ref();
        Statement::snapshot_query(entity_type, entity_id)
    }
}

/// That a text can be the name under which the events of an aggregate are stored.
pub open spec fn is_type_of<A: Aggregate>(entity_type: Seq<char>) -> bool {
    exists|name: &'static str|
        name@ == entity_type && #[trigger] call_ensures(A::entity_type, (), name)
}

/// That a text can be the one under which an aggregate is identified.
pub open spec fn is_text_of_id<I: AggregateId>(id: &I, entity_id: Seq<char>) -> bool {
    exists|text: &str| text@ == entity_id && #[trigger] call_ensures(I::as_ref, (id,), text)
}

/// An append to the store is an append of the events given, under the precondition given, to the
/// aggregate that the identifier names.
pub proof fn law_store_appends_what_it_is_given<A, M, S, I, P>(
    store: PostgresStore<'_, A, M, S>,
    id: &I,
    events: &[A::Event],
    precondition: Option<P>,
    started: (
        AppendSession<'_, P, A::Event>,
        AppendAction<'_, P::Refusal, <A::Event as SerializableEvent>::Error>,
    ),
) where
    A: Aggregate,
    A::Event: SerializableEvent,
    S: SnapshotStrategy,
    I: AggregateId<Aggregate = A>,
    P: Precondition,

    requires
        call_ensures(
            PostgresStore::<A, M, S>::append_events::<I, P>,
            (&store, id, events, precondition),
            started,
        ),
    ensures
        is_type_of::<A>(started.0@.entity_type),
        is_text_of_id(id, started.0@.entity_id),
        started.0@.events == events@,
        started.0@.precondition == precondition,
        started.0@.state is Opening,
        started.1 is Begin,
{
}

/// A read from the store is a read of the events of the aggregate that the identifier names, after
/// the event given and up to the count given.
pub proof fn law_store_reads_what_it_is_asked_for<A, M, S, I>(
    store: PostgresStore<'_, A, M, S>,
    id: &I,
    since: Since,
    max_count: Option<u64>,
    started: (
        ReadSession<'_, A::Event, <A::Event as DeserializableEvent>::Error>,
        ReadAction<'_, A::Event, <A::Event as DeserializableEvent>::Error>,
    ),
) where
    A: Aggregate,
    A::Event: DeserializableEvent,
    S: SnapshotStrategy,
    I: AggregateId<Aggregate = A>,

    requires
        call_ensures(
            PostgresStore::<A, M, S>::read_events::<I>,
            (&store, id, since, max_count),
            started,
        ),
    ensures
        is_type_of::<A>(started.0@.entity_type),
        is_text_of_id(id, started.0@.entity_id),
        started.0@.since == match since {
            Since::BeginningOfStream => 0,
            Since::Event(number) => number@,
        },
        started.0@.max_count == max_count,
        started.0@.events.len() == 0,
        started.0@.state == ReadState::Opening,
        started.1 is BeginReadOnly,
{
}

/// A store that is made with a strategy follows it: a snapshot of the aggregate that the identifier
/// names is stored exactly when its version is later than that of the last one and this strategy
/// can recommend it; otherwise the last one stays the last.
pub proof fn law_store_follows_its_strategy<A, M, S, I>(
    conn: &postgres::Connection,
    strategy: S,
    store: PostgresStore<'_, A, M, S>,
    id: &I,
    version: Version,
    last_snapshot_version: Version,
    plan: SnapshotPlan<'_>,
) where A: Aggregate, S: SnapshotStrategy + Default, I: AggregateId<Aggregate = A>
    requires
        version@ <= u64::MAX,
        call_ensures(
            PostgresStore::<A, M, S>::with_snapshot_strategy,
            (conn, strategy),
            store,
        ),
        call_ensures(
            PostgresStore::<A, M, S>::persist_snapshot::<I>,
            (&store, id, version, last_snapshot_version),
            plan,
        ),
    ensures
        store.spec_connection() == conn,
        match plan {
            SnapshotPlan::Keep(kept) => {
                &&& kept@ == last_snapshot_version@
                &&& version@ <= last_snapshot_version@ || call_ensures(
                    S::snapshot_recommendation,
                    (&strategy, version, last_snapshot_version),
                    SnapshotRecommendation::DoNotSnapshot,
                )
            },
            SnapshotPlan::Store(statement, stored) => {
                &&& version@ > last_snapshot_version@
                &&& call_ensures(
                    S::snapshot_recommendation,
                    (&strategy, version, last_snapshot_version),
                    SnapshotRecommendation::SnapshotNow,
                )
                &&& stored@ == version@
                &&& statement@.params[0] is Text
                &&& is_type_of::<A>(statement@.params[0]->Text_0)
                &&& statement@.params[1] is Text
                &&& is_text_of_id(id, statement@.params[1]->Text_0)
                &&& stores_snapshot(
                    statement@,
                    statement@.params[0]->Text_0,
                    statement@.params[1]->Text_0,
                    version@,
                )
            },
        },
{
    if version@ > last_snapshot_version@ {
        let (entity_type, entity_id, recommendation) = choose|
            entity_type: &'static str,
            entity_id: &str,
            recommendation: SnapshotRecommendation,
        |
            {
                &&& #[trigger] call_ensures(A::entity_type, (), entity_type)
                &&& #[trigger] call_ensures(I::as_ref, (id,), entity_id)
                &&& #[trigger] call_ensures(
                    S::snapshot_recommendation,
                    (&store.strategy(), version, last_snapshot_version),
                    recommendation,
                )
                &&& plan@ == snapshot_plan(
                    entity_type@,
                    entity_id@,
                    version@,
                    last_snapshot_version@,
                    recommendation,
                )
            };
        law_snapshot_is_stored_exactly_when_due(
            entity_type@,
            entity_id@,
            version@,
            last_snapshot_version@,
            recommendation,
        );
    }
}

/// What the store asks for to fetch a snapshot is the latest snapshot of the aggregate that the
/// identifier names.
pub proof fn law_store_asks_for_the_latest_snapshot<A, M, S, I>(
    store: PostgresStore<'_, A, M, S>,
    id: &I,
    statement: Statement<'_>,
) where A: Aggregate, S: SnapshotStrategy, I: AggregateId<Aggregate = A>
    requires
        call_ensures(PostgresStore::<A, M, S>::get_snapshot::<I>, (&store, id), statement),
    ensures
        statement.text@ == SELECT_SNAPSHOT@,
        statement@.params.len() == 2,
        statement@.params[0] is Text,
        is_type_of::<A>(statement@.params[0]->Text_0),
        statement@.params[1] is Text,
        is_text_of_id(id, statement@.params[1]->Text_0),
{
}

/// A store keeps the connection that it is made with, and one that is made without a strategy has
/// a default one.
pub proof fn law_store_keeps_what_it_is_made_with<A, M, S>(
    conn: &postgres::Connection,
    store: PostgresStore<'_, A, M, S>,
    kept: &postgres::Connection,
) where A: Aggregate, S: SnapshotStrategy + Default
    requires
        call_ensures(PostgresStore::<A, M, S>::new, (conn,), store),
        call_ensures(PostgresStore::<A, M, S>::connection, (&store,), kept),
    ensures
        kept == conn,
        call_ensures(S::default, (), store.strategy()),
{
}

/// The creation of tables for a store starts with the script that creates the table of scripts
/// run.
pub proof fn law_store_creates_tables_from_the_first_script<A, M, S>(
    store: PostgresStore<'_, A, M, S>,
    started: (MigrationSession, MigrationAction),
) where A: Aggregate, S: SnapshotStrategy + Default
    requires
        call_ensures(PostgresStore::<A, M, S>::create_tables, (&store,), started),
    ensures
        started.0@ == migration_after(Seq::empty()),
        seq![started.1] == migration_actions(Seq::empty()),
        started.1 == MigrationAction::Run(Migration::CreateMigrations),
{
}

} // verus!
