//! Creating the tables of the store.
//!
//! The caller starts a session, does what the [`MigrationAction`] that comes with it says, hands
//! the outcome to [`MigrationSession::step`], does what the action returned by that says, and goes
//! on until the action is a [`MigrationAction::Return`].

use vstd::pervasive::unreached;
use vstd::prelude::*;

use crate::statement::SELECT_SCHEMA_VERSION;

verus! {

/// A script that brings the database schema forward.
#[derive(Clone, Copy, Debug, PartialEq, Eq, Structural)]
pub enum Migration {
    /// Creates the table that records which scripts have been run.
    CreateMigrations,
    /// Creates the tables of events and snapshots.
    CreateTables,
}

/// What came of the last action.
#[derive(Debug)]
pub enum MigrationReply {
    /// The script was run.
    Done,
    /// The first row of the answer to the query for the schema version, if there is a row, and the
    /// value in it, if it is not null.
    SchemaVersion(Option<Option<i32>>),
    /// The database reported an error.
    Failed(postgres::error::Error),
}

/// What the caller does next.
#[derive(Debug)]
pub enum MigrationAction {
    /// Run the query with this text.
    Query(&'static str),
    /// Run the script.
    Run(Migration),
    /// Stop, with this answer.
    Return(Result<(), postgres::error::Error>),
}

/// How far the creation of tables has come.
#[derive(Clone, Copy, Debug, PartialEq, Eq, Structural)]
pub enum MigrationState {
    /// The first script is being run.
    Preparing,
    /// The query for the schema version has been sent.
    Checking,
    /// The tables are being created.
    Creating,
    /// The answer has been given.
    Closed,
}

/// One creation of the tables.
#[derive(Debug)]
pub struct MigrationSession {
    state: MigrationState,
}

impl View for MigrationSession {
    type V = MigrationState;

    closed spec fn view(&self) -> MigrationState {
        self.state
    }
}

/// The schema version that the answer to the query tells: zero without a row, and zero if its
/// value is null.
pub open spec fn schema_version(row: Option<Option<i32>>) -> i32 {
    match row {
        Some(Some(version)) => version,
        _ => 0,
    }
}

/// That `reply` can come of the action that led to the state.
pub open spec fn migration_accepts(state: MigrationState, reply: MigrationReply) -> bool {
    match (state, reply) {
        (MigrationState::Closed, _) => false,
        (_, MigrationReply::Failed(_)) => true,
        (MigrationState::Preparing, MigrationReply::Done) => true,
        (MigrationState::Checking, MigrationReply::SchemaVersion(_)) => true,
        (MigrationState::Creating, MigrationReply::Done) => true,
        _ => false,
    }
}

/// The state that follows upon `reply`, and the action that is then due.
pub open spec fn migration_next(state: MigrationState, reply: MigrationReply) -> (
    MigrationState,
    MigrationAction,
) {
    match (state, reply) {
        (_, MigrationReply::Failed(error)) => (
            MigrationState::Closed,
            MigrationAction::Return(Err(error)),
        ),
        (_, MigrationReply::SchemaVersion(row)) => {
            if schema_version(row) < 1 {
                (MigrationState::Creating, MigrationAction::Run(Migration::CreateTables))
            } else {
                (MigrationState::Closed, MigrationAction::Return(Ok(())))
            }
        },
        (MigrationState::Preparing, MigrationReply::Done) => (
            MigrationState::Checking,
            MigrationAction::Query(SELECT_SCHEMA_VERSION),
        ),
        (MigrationState::Creating, MigrationReply::Done) => (
            MigrationState::Closed,
            MigrationAction::Return(Ok(())),
        ),
        _ => arbitrary(),
    }
}

impl MigrationSession {
    /// Starts the creation of the tables. The action that is due first runs the script
    /// [`Migration::CreateMigrations`].
    pub fn start() -> (started: (MigrationSession, MigrationAction))
        ensures
            started.0@ == MigrationState::Preparing,
            started.1 == MigrationAction::Run(Migration::CreateMigrations),
    {
        (
            MigrationSession { state: MigrationState::Preparing },
            MigrationAction::Run(Migration::CreateMigrations),
        )
    }

    /// Whether the reply belongs to the last action.
    pub fn accepts(&self, reply: &MigrationReply) -> (accepted: bool)
        ensures
            accepted == migration_accepts(self@, *reply),
    {
        match (self.state, reply) {
            (MigrationState::Closed, _) => false,
            (_, MigrationReply::Failed(_)) => true,
            (MigrationState::Preparing, MigrationReply::Done) => true,
            (MigrationState::Checking, MigrationReply::SchemaVersion(_)) => true,
            (MigrationState::Creating, MigrationReply::Done) => true,
            _ => false,
        }
    }

    /// Takes what came of the last action and says what is to be done next.
    pub fn step(&mut self, reply: MigrationReply) -> (action: MigrationAction)
        requires
            migration_accepts(old(self)@, reply),
        ensures
            (final(self)@, action) == migration_next(old(self)@, reply),
    {
        match reply {
            MigrationReply::Failed(error) => {
                self.state = MigrationState::Closed;
                MigrationAction::Return(Err(error))
            },
            MigrationReply::SchemaVersion(row) => {
                let current_version: i32 = match row {
                    Some(Some(version)) => version,
                    _ => 0,
                };
                if current_version < 1 {
                    self.state = MigrationState::Creating;
                    MigrationAction::Run(Migration::CreateTables)
                } else {
                    self.state = MigrationState::Closed;
                    MigrationAction::Return(Ok(()))
                }
            },
            MigrationReply::Done => match self.state {
                MigrationState::Preparing => {
                    self.state = MigrationState::Checking;
                    MigrationAction::Query(SELECT_SCHEMA_VERSION)
                },
                MigrationState::Creating => {
                    self.state = MigrationState::Closed;
                    MigrationAction::Return(Ok(()))
                },
                _ => unreached(),
            },
        }
    }
}

/// The state after the given replies, one after the other.
pub open spec fn migration_after(replies: Seq<MigrationReply>) -> MigrationState
    decreases replies.len(),
{
    if replies.len() == 0 {
        MigrationState::Preparing
    } else {
        migration_next(migration_after(replies.drop_last()), replies.last()).0
    }
}

/// All actions of a creation of tables: the one it starts with, and those that the replies bring
/// about.
pub open spec fn migration_actions(replies: Seq<MigrationReply>) -> Seq<MigrationAction>
    decreases replies.len(),
{
    if replies.len() == 0 {
        seq![MigrationAction::Run(Migration::CreateMigrations)]
    } else {
        let before = migration_after(replies.drop_last());
        migration_actions(replies.drop_last()).push(migration_next(before, replies.last()).1)
    }
}

/// That each reply can come of the action before it.
pub open spec fn migration_possible(replies: Seq<MigrationReply>) -> bool
    decreases replies.len(),
{
    replies.len() == 0 || {
        &&& migration_possible(replies.drop_last())
        &&& migration_accepts(migration_after(replies.drop_last()), replies.last())
    }
}

/// The scripts that the actions run, in order.
pub open spec fn scripts_run(actions: Seq<MigrationAction>) -> Seq<Migration>
    decreases actions.len(),
{
    if actions.len() == 0 {
        Seq::empty()
    } else {
        let before = scripts_run(actions.drop_last());
        match actions.last() {
            MigrationAction::Run(migration) => before.push(migration),
            _ => before,
        }
    }
}

/// That the replies tell a schema version below one.
pub open spec fn told_below_one(replies: Seq<MigrationReply>) -> bool {
    replies.len() > 1 && (replies[1] matches MigrationReply::SchemaVersion(row) && schema_version(
        row,
    ) < 1)
}

proof fn lemma_migration_kept(replies: Seq<MigrationReply>)
    requires
        migration_possible(replies),
    ensures
        ({
            let actions = migration_actions(replies);
            let state = migration_after(replies);
            &&& actions.len() == replies.len() + 1
            &&& actions[0] == MigrationAction::Run(Migration::CreateMigrations)
            &&& scripts_run(actions) == if told_below_one(replies) {
                seq![Migration::CreateMigrations, Migration::CreateTables]
            } else {
                seq![Migration::CreateMigrations]
            }
            &&& state == MigrationState::Preparing <==> replies.len() == 0
            &&& state == MigrationState::Checking ==> replies.len() == 1
            &&& state == MigrationState::Creating ==> {
                &&& replies.len() == 2
                &&& told_below_one(replies)
            }
            &&& state == MigrationState::Closed <==> actions.last() is Return
            &&& actions.last() == MigrationAction::Return(Ok(())) ==> {
                &&& replies.len() == if told_below_one(replies) {
                    3int
                } else {
                    2int
                }
                &&& replies[1] is SchemaVersion
                &&& !(replies.last() is Failed)
            }
        }),
    decreases replies.len(),
{
    let actions = migration_actions(replies);
    if replies.len() > 0 {
        let earlier = replies.drop_last();
        lemma_migration_kept(earlier);
        assert(actions.drop_last() =~= migration_actions(earlier));
        assert(replies.len() > 2 ==> replies[1] == earlier[1]);
        assert(seq![Migration::CreateMigrations].push(Migration::CreateTables) =~= seq![
            Migration::CreateMigrations,
            Migration::CreateTables,
        ]);
    } else {
        reveal_with_fuel(scripts_run, 2);
        assert(scripts_run(actions) =~= seq![Migration::CreateMigrations]);
    }
}

/// However a creation of tables goes, the script that creates the table of scripts run is run, and
/// is run first; the script that creates the tables is run after it exactly when a schema version
/// below one has been told; no script is run twice.
pub proof fn law_scripts_run_in_order(replies: Seq<MigrationReply>)
    requires
        migration_possible(replies),
    ensures
        migration_actions(replies)[0] == MigrationAction::Run(Migration::CreateMigrations),
        scripts_run(migration_actions(replies)) == if told_below_one(replies) {
            seq![Migration::CreateMigrations, Migration::CreateTables]
        } else {
            seq![Migration::CreateMigrations]
        },
{
    lemma_migration_kept(replies);
}

/// A creation of tables that is answered without an error has learned the schema version, and has
/// had every script that is due run.
pub proof fn law_migration_answers_when_done(replies: Seq<MigrationReply>)
    requires
        migration_possible(replies),
        migration_actions(replies).last() == MigrationAction::Return(Ok(())),
    ensures
        replies.len() > 1,
        replies[1] is SchemaVersion,
        told_below_one(replies) ==> replies.len() == 3 && replies[2] == MigrationReply::Done,
{
    lemma_migration_kept(replies);
    lemma_migration_kept(replies.drop_last());
}

/// A creation of tables whose scripts and query succeed is carried out. With a schema version
/// below one, or none, both scripts are run, with the query between them; otherwise the first
/// script alone is run, before the query.
pub proof fn law_migration_succeeds(row: Option<Option<i32>>)
    ensures
        ({
            let told = seq![MigrationReply::Done, MigrationReply::SchemaVersion(row)];
            if schema_version(row) < 1 {
                &&& migration_possible(told.push(MigrationReply::Done))
                &&& migration_actions(told.push(MigrationReply::Done)) == seq![
                    MigrationAction::Run(Migration::CreateMigrations),
                    MigrationAction::Query(SELECT_SCHEMA_VERSION),
                    MigrationAction::Run(Migration::CreateTables),
                    MigrationAction::Return(Ok(())),
                ]
            } else {
                &&& migration_possible(told)
                &&& migration_actions(told) == seq![
                    MigrationAction::Run(Migration::CreateMigrations),
                    MigrationAction::Query(SELECT_SCHEMA_VERSION),
                    MigrationAction::Return(Ok(())),
                ]
            }
        }),
{
    let none = Seq::<MigrationReply>::empty();
    let prepared = seq![MigrationReply::Done];
    let told = seq![MigrationReply::Done, MigrationReply::SchemaVersion(row)];
    assert(prepared.drop_last() =~= none);
    assert(told.drop_last() =~= prepared);
    assert(told.push(MigrationReply::Done).drop_last() =~= told);
    assert(migration_after(none) == MigrationState::Preparing && migration_possible(none));
    assert(migration_after(prepared) == MigrationState::Checking && migration_possible(prepared));
    assert(migration_actions(none) =~= seq![MigrationAction::Run(Migration::CreateMigrations)]);
    assert(migration_actions(prepared) =~= seq![
        MigrationAction::Run(Migration::CreateMigrations),
        MigrationAction::Query(SELECT_SCHEMA_VERSION),
    ]);
    assert(told.last() == MigrationReply::SchemaVersion(row));
    assert(migration_possible(told));
    if schema_version(row) < 1 {
        let created = told.push(MigrationReply::Done);
        assert(migration_after(told) == MigrationState::Creating);
        assert(migration_actions(told) =~= seq![
            MigrationAction::Run(Migration::CreateMigrations),
            MigrationAction::Query(SELECT_SCHEMA_VERSION),
            MigrationAction::Run(Migration::CreateTables),
        ]);
        assert(migration_possible(created));
        assert(migration_actions(created) =~= seq![
            MigrationAction::Run(Migration::CreateMigrations),
            MigrationAction::Query(SELECT_SCHEMA_VERSION),
            MigrationAction::Run(Migration::CreateTables),
            MigrationAction::Return(Ok(())),
        ]);
    } else {
        assert(migration_actions(told) =~= seq![
            MigrationAction::Run(Migration::CreateMigrations),
            MigrationAction::Query(SELECT_SCHEMA_VERSION),
            MigrationAction::Return(Ok(())),
        ]);
    }
}

/// An error of the database ends the creation of tables at once, and is the answer.
pub proof fn law_migration_stops_at_error(state: MigrationState, error: postgres::error::Error)
    requires
        state != MigrationState::Closed,
    ensures
        migration_accepts(state, MigrationReply::Failed(error)),
        migration_next(state, MigrationReply::Failed(error)) == (
            MigrationState::Closed,
            MigrationAction::Return(Err(error)),
        ),
{
}

/// The tables are created exactly when the database does not tell a schema version of one or more,
/// whatever it tells otherwise. If the scripts and the query succeed, the script that creates the
/// table of scripts run comes first, then the query, then the creation of the tables if it is due,
/// and the answer is no error.
pub proof fn law_tables_are_created_unless_they_exist(row: Option<Option<i32>>)
    ensures
        ({
            let told = seq![MigrationReply::Done, MigrationReply::SchemaVersion(row)];
            let created = told.push(MigrationReply::Done);
            let exist = row matches Some(Some(version)) && version >= 1;
            &&& migration_possible(told)
            &&& exist ==> {
                &&& migration_actions(told) == seq![
                    MigrationAction::Run(Migration::CreateMigrations),
                    MigrationAction::Query(SELECT_SCHEMA_VERSION),
                    MigrationAction::Return(Ok(())),
                ]
                &&& !migration_possible(created)
            }
            &&& !exist ==> {
                &&& migration_possible(created)
                &&& migration_actions(created) == seq![
                    MigrationAction::Run(Migration::CreateMigrations),
                    MigrationAction::Query(SELECT_SCHEMA_VERSION),
                    MigrationAction::Run(Migration::CreateTables),
                    MigrationAction::Return(Ok(())),
                ]
            }
        }),
{
    let told = seq![MigrationReply::Done, MigrationReply::SchemaVersion(row)];
    law_migration_succeeds(row);
    assert(told.push(MigrationReply::Done).drop_last() =~= told);
}

/// However a creation of tables goes, the tables are created only after the database has told
/// something else than a schema version of one or more, and only once.
pub proof fn law_existing_tables_are_left_alone(replies: Seq<MigrationReply>)
    requires
        migration_possible(replies),
        scripts_run(migration_actions(replies)).contains(Migration::CreateTables),
    ensures
        replies.len() > 1,
        replies[1] matches MigrationReply::SchemaVersion(row) && (row matches Some(Some(version))
            ==> version < 1),
        scripts_run(migration_actions(replies)) == seq![
            Migration::CreateMigrations,
            Migration::CreateTables,
        ],
{
    lemma_migration_kept(replies);
    assert(!seq![Migration::CreateMigrations].contains(Migration::CreateTables));
}

/// Once a creation of tables has been answered, it takes no further reply.
pub proof fn law_migration_ends_with_answer(replies: Seq<MigrationReply>, further: MigrationReply)
    requires
        migration_possible(replies),
        migration_actions(replies).last() is Return,
    ensures
        !migration_possible(replies.push(further)),
{
    lemma_migration_kept(replies);
    assert(replies.push(further).drop_last() =~= replies);
}

/// A creation of tables starts with the script that creates the table of scripts run.
pub proof fn law_migration_starts_with_its_first_script(
    started: (MigrationSession, MigrationAction),
)
    requires
        call_ensures(MigrationSession::start, (), started),
    ensures
        started.0@ == migration_after(Seq::empty()),
        seq![started.1] == migration_actions(Seq::empty()),
        started.1 == MigrationAction::Run(Migration::CreateMigrations),
{
}

} // verus!
