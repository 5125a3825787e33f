//! What holds of every append as a whole, from the opening of the transaction to the answer.

use vstd::prelude::*;

use crate::aggregate::{Precondition, SerializableEvent};
use crate::append::{
    append_accepts, append_answered, append_next, append_start, current_version,
    reported_version, serialization_fails, serialize_event, verdict_on, verify_precondition,
    version_of, version_or_initial, written_as, AppendAction, AppendActionView, AppendAnswer,
    AppendReply, AppendSession, AppendSessionView, AppendStateView,
};
use crate::error::PersistError;
use crate::statement::{
    event_insert, max_sequence_query, SqlParamView, StatementView, INSERT_EVENT,
    SELECT_MAX_SEQUENCE,
};
use crate::version::{
    column_of, law_columns_hold_bytes, law_numbers_have_their_values, law_version_is_its_value,
    number_of, stands_for, Version,
};

verus! {

/// What an append is told in one step: what came of the last action, and what the application
/// answered if it was asked something.
pub struct AppendTurn<R, X> {
    pub reply: AppendReply,
    pub answer: AppendAnswer<R, X>,
}

/// A turn in which the application is not asked anything.
pub open spec fn plain_turn<R, X>(reply: AppendReply) -> AppendTurn<R, X> {
    AppendTurn { reply, answer: AppendAnswer::Unasked }
}

/// The append that `start` becomes in the given turns, one after the other.
pub open spec fn append_after<P, E, R, X>(
    start: AppendSessionView<P, E>,
    turns: Seq<AppendTurn<R, X>>,
) -> AppendSessionView<P, E>
    decreases turns.len(),
{
    if turns.len() == 0 {
        start
    } else {
        let before = append_after(start, turns.drop_last());
        append_next(before, turns.last().reply, turns.last().answer).0
    }
}

/// The actions that the turns bring about, one for each. They follow the opening of the
/// transaction, which comes before any turn.
pub open spec fn append_actions<P, E, R, X>(
    start: AppendSessionView<P, E>,
    turns: Seq<AppendTurn<R, X>>,
) -> Seq<AppendActionView<R, X>>
    decreases turns.len(),
{
    if turns.len() == 0 {
        Seq::empty()
    } else {
        let before = append_after(start, turns.drop_last());
        append_actions(start, turns.drop_last()).push(
            append_next(before, turns.last().reply, turns.last().answer).1,
        )
    }
}

/// That each reply can come of the action before it, and each answer of what the application is
/// asked then.
pub open spec fn append_possible<P: Precondition, E: SerializableEvent>(
    start: AppendSessionView<P, E>,
    turns: Seq<AppendTurn<P::Refusal, E::Error>>,
) -> bool
    decreases turns.len(),
{
    turns.len() == 0 || {
        let before = append_after(start, turns.drop_last());
        &&& append_possible(start, turns.drop_last())
        &&& append_accepts(before, turns.last().reply)
        &&& append_answered(before, turns.last().reply, turns.last().answer)
    }
}

/// The statements that the actions execute, in order.
pub open spec fn executed<R, X>(actions: Seq<AppendActionView<R, X>>) -> Seq<StatementView>
    decreases actions.len(),
{
    if actions.len() == 0 {
        Seq::empty()
    } else {
        let before = executed(actions.drop_last());
        match actions.last() {
            AppendActionView::Execute(statement) => before.push(statement),
            _ => before,
        }
    }
}

/// The events that were written down in the turns, each as its type and its text.
pub open spec fn written_down<R, X>(turns: Seq<AppendTurn<R, X>>) -> Seq<(Seq<char>, Seq<u8>)>
    decreases turns.len(),
{
    if turns.len() == 0 {
        Seq::empty()
    } else {
        let before = written_down(turns.drop_last());
        match turns.last().answer {
            AppendAnswer::Written(Ok(text)) => before.push(text),
            _ => before,
        }
    }
}

/// That each text is what writing down the event at its place can come to.
pub open spec fn texts_of<E: SerializableEvent>(
    events: Seq<E>,
    texts: Seq<(Seq<char>, Seq<u8>)>,
) -> bool {
    &&& texts.len() <= events.len()
    &&& forall|i: int|
        0 <= i < texts.len() ==> written_as(
            &events[i],
            Ok::<(Seq<char>, Seq<u8>), E::Error>(#[trigger] texts[i]),
        )
}

/// The row that the query for the last event has brought, none as long as it has brought none.
pub open spec fn row_told<R, X>(turns: Seq<AppendTurn<R, X>>) -> Option<Option<i64>> {
    if turns.len() > 1 {
        match turns[1].reply {
            AppendReply::MaxSequence(row) => row,
            _ => None,
        }
    } else {
        None
    }
}

/// The version of the aggregate that the turns tell, zero as long as they tell none.
pub open spec fn version_told<R, X>(turns: Seq<AppendTurn<R, X>>) -> nat {
    version_or_initial(reported_version(row_told(turns)))
}

/// That the precondition of an append, held against the version that the turns tell, can come to
/// `verdict`.
pub open spec fn verdict_given<P: Precondition, E: SerializableEvent>(
    start: AppendSessionView<P, E>,
    turns: Seq<AppendTurn<P::Refusal, E::Error>>,
    verdict: Result<(), P::Refusal>,
) -> bool {
    verdict_on(start.precondition, version_of(reported_version(row_told(turns))), verdict)
}

/// The statements that store the given events under consecutive numbers from `first` on.
pub open spec fn numbered_inserts(
    entity_type: Seq<char>,
    entity_id: Seq<char>,
    first: nat,
    events: Seq<(Seq<char>, Seq<u8>)>,
) -> Seq<StatementView> {
    Seq::new(
        events.len(),
        |i: int|
            event_insert(entity_type, entity_id, (first + i) as nat, events[i].0, events[i].1),
    )
}

/// That none of the actions commits.
pub open spec fn commits_nothing<R, X>(actions: Seq<AppendActionView<R, X>>) -> bool {
    forall|k: int|
        0 <= k < actions.len() ==> !(#[trigger] actions[k] matches AppendActionView::Commit)
}

/// That an append which is answered with `error` has met with what the error tells: the database
/// has just reported it, the precondition did, or the writing of the next event did.
pub open spec fn error_met<P: Precondition, E: SerializableEvent>(
    start: AppendSessionView<P, E>,
    turns: Seq<AppendTurn<P::Refusal, E::Error>>,
    error: PersistError<P::Refusal, E::Error>,
) -> bool {
    let texts = written_down(turns);
    match error {
        PersistError::Postgres(cause) => turns.last().reply == AppendReply::Failed(cause),
        PersistError::PreconditionFailed(refusal) => {
            &&& start.events.len() > 0
            &&& texts.len() == 0
            &&& verdict_given(start, turns, Err(refusal))
        },
        PersistError::SerializationError(cause) => {
            &&& texts.len() < start.events.len()
            &&& written_as(&start.events[texts.len() as int], Err(cause))
        },
    }
}

/// What is kept from step to step.
spec fn append_kept<P: Precondition, E: SerializableEvent>(
    start: AppendSessionView<P, E>,
    turns: Seq<AppendTurn<P::Refusal, E::Error>>,
) -> bool {
    let session = append_after(start, turns);
    let actions = append_actions(start, turns);
    let count = written_down(turns).len();
    let next = version_told(turns) + 1;
    let last = actions.last();
    &&& session.entity_type == start.entity_type
    &&& session.entity_id == start.entity_id
    &&& session.events == start.events
    &&& actions.len() == turns.len()
    &&& executed(actions) == numbered_inserts(
        start.entity_type,
        start.entity_id,
        next,
        written_down(turns),
    )
    &&& texts_of(start.events, written_down(turns))
    &&& version_told(turns) + count <= u64::MAX
    &&& match session.state {
        AppendStateView::Opening => {
            &&& turns.len() == 0
            &&& session.precondition == start.precondition
        },
        AppendStateView::Checking => {
            &&& turns.len() == 1
            &&& session.precondition == start.precondition
            &&& count == 0
            &&& commits_nothing(actions)
        },
        AppendStateView::Preparing { version } => {
            &&& turns.len() == 2
            &&& turns[1].reply is MaxSequence
            &&& count == 0
            &&& start.events.len() > 0
            &&& version == version_told(turns)
            &&& verdict_given(start, turns, Ok(()))
            &&& commits_nothing(actions)
        },
        AppendStateView::Inserting { first, written } => {
            &&& turns.len() > 2
            &&& turns[1].reply is MaxSequence
            &&& count == written + 1
            &&& first == next
            &&& verdict_given(start, turns, Ok(()))
            &&& commits_nothing(actions)
        },
        AppendStateView::Committing { first } => {
            &&& turns.len() > 2
            &&& turns[1].reply is MaxSequence
            &&& count == start.events.len()
            &&& count > 0
            &&& first == next
            &&& verdict_given(start, turns, Ok(()))
            &&& last == AppendActionView::<P::Refusal, E::Error>::Commit
            &&& commits_nothing(actions.drop_last())
        },
        AppendStateView::Closed => {
            &&& turns.len() > 0
            &&& count > 0 ==> verdict_given(start, turns, Ok(()))
            &&& match last {
                AppendActionView::Return(Ok(first)) => {
                    &&& first == next
                    &&& turns.len() > 1
                    &&& turns[1].reply is MaxSequence
                    &&& count == start.events.len()
                    &&& if start.events.len() == 0 {
                        commits_nothing(actions)
                    } else {
                        &&& turns.len() > 2
                        &&& turns.last().reply == AppendReply::Done
                        &&& actions[actions.len() - 2] == AppendActionView::<
                            P::Refusal,
                            E::Error,
                        >::Commit
                    }
                },
                AppendActionView::Return(Err(error)) => {
                    &&& error_met(start, turns, error)
                    &&& commits_nothing(actions) || {
                        &&& turns.len() > 2
                        &&& actions[actions.len() - 2] == AppendActionView::<
                            P::Refusal,
                            E::Error,
                        >::Commit
                        &&& commits_nothing(actions.drop_last().drop_last())
                        &&& count == start.events.len()
                        &&& error is Postgres
                    }
                },
                _ => false,
            }
        },
    }
}

proof fn lemma_append_kept<P: Precondition, E: SerializableEvent>(
    start: AppendSessionView<P, E>,
    turns: Seq<AppendTurn<P::Refusal, E::Error>>,
)
    requires
        start.state is Opening,
        append_possible(start, turns),
    ensures
        append_kept(start, turns),
    decreases turns.len(),
{
    if turns.len() > 0 {
        let earlier = turns.drop_last();
        lemma_append_kept(start, earlier);
        let actions = append_actions(start, turns);
        assert(actions.drop_last() =~= append_actions(start, earlier));
        assert(turns.len() > 2 ==> row_told(turns) == row_told(earlier));
        if let AppendAnswer::Verdict(Ok(unit)) = turns.last().answer {
            assert(unit == ());
        }
        let next = version_told(turns) + 1;
        assert(executed(actions) =~= numbered_inserts(
            start.entity_type,
            start.entity_id,
            next,
            written_down(turns),
        ));
        let last = actions.last();
        if commits_nothing(actions.drop_last()) && !(last matches AppendActionView::Commit) {
            assert forall|k: int| 0 <= k < actions.len() implies !(
            #[trigger] actions[k] matches AppendActionView::Commit) by {
                if k < actions.len() - 1 {
                    assert(actions.drop_last()[k] == actions[k]);
                }
            }
        }
    } else {
        assert(executed(append_actions(start, turns)) =~= numbered_inserts(
            start.entity_type,
            start.entity_id,
            1,
            written_down(turns),
        ));
    }
}

/// However an append goes, the statements that it executes store its first events in their order,
/// each with the type and the text that come of writing it down, under consecutive numbers that
/// follow the version of the aggregate.
pub proof fn law_append_numbers_events_consecutively<P: Precondition, E: SerializableEvent>(
    start: AppendSessionView<P, E>,
    turns: Seq<AppendTurn<P::Refusal, E::Error>>,
)
    requires
        start.state is Opening,
        append_possible(start, turns),
    ensures
        executed(append_actions(start, turns)) == numbered_inserts(
            start.entity_type,
            start.entity_id,
            version_told(turns) + 1,
            written_down(turns),
        ),
        texts_of(start.events, written_down(turns)),
{
    lemma_append_kept(start, turns);
}

/// An append executes a statement only if its precondition, held against the version that the
/// database told, can hold.
pub proof fn law_append_executes_only_if_precondition_holds<
    P: Precondition,
    E: SerializableEvent,
>(start: AppendSessionView<P, E>, turns: Seq<AppendTurn<P::Refusal, E::Error>>)
    requires
        start.state is Opening,
        append_possible(start, turns),
        executed(append_actions(start, turns)).len() > 0,
    ensures
        verdict_given(start, turns, Ok(())),
{
    lemma_append_kept(start, turns);
}

/// An append commits at most once, and only when every one of its events has been inserted.
pub proof fn law_append_commits_only_complete<P: Precondition, E: SerializableEvent>(
    start: AppendSessionView<P, E>,
    turns: Seq<AppendTurn<P::Refusal, E::Error>>,
    k: int,
)
    requires
        start.state is Opening,
        append_possible(start, turns),
        0 <= k < turns.len(),
        append_actions(start, turns)[k] == AppendActionView::<P::Refusal, E::Error>::Commit,
    ensures
        ({
            let actions = append_actions(start, turns);
            &&& start.events.len() > 0
            &&& executed(actions.take(k)).len() == start.events.len()
            &&& turns[k].reply == AppendReply::Done
            &&& commits_nothing(actions.take(k))
            &&& commits_nothing(actions.skip(k + 1))
            &&& actions.len() <= k + 2
        }),
    decreases turns.len(),
{
    let actions = append_actions(start, turns);
    let earlier = turns.drop_last();
    lemma_append_kept(start, turns);
    lemma_append_kept(start, earlier);
    assert(actions.drop_last() =~= append_actions(start, earlier));
    let before = append_actions(start, earlier);
    let last = actions.last();
    if k == turns.len() - 1 {
        assert(actions.take(k) =~= before);
        assert(append_after(start, earlier).state is Inserting);
    } else {
        assert(before[k] == AppendActionView::<P::Refusal, E::Error>::Commit);
        assert(k < before.len() - 1 ==> before.drop_last()[k] == before[k]);
        assert(append_after(start, earlier).state is Committing);
        assert(actions.skip(k + 1) =~= seq![last]);
        law_append_commits_only_complete(start, earlier, k);
        assert(before.take(k) =~= actions.take(k));
    }
}

/// An append that is answered with a number is answered with the one after the version of the
/// aggregate. If it has events, all of them have been written down and inserted, and the commit
/// has just succeeded; if it has none, nothing has been executed or committed.
pub proof fn law_append_answers_with_first_number<P: Precondition, E: SerializableEvent>(
    start: AppendSessionView<P, E>,
    turns: Seq<AppendTurn<P::Refusal, E::Error>>,
    number: nat,
)
    requires
        start.state is Opening,
        append_possible(start, turns),
        turns.len() > 0,
        append_actions(start, turns).last() == AppendActionView::<P::Refusal, E::Error>::Return(
            Ok(number),
        ),
    ensures
        ({
            let actions = append_actions(start, turns);
            &&& number == version_told(turns) + 1
            &&& written_down(turns).len() == start.events.len()
            &&& executed(actions).len() == start.events.len()
            &&& start.events.len() > 0 ==> {
                &&& turns.len() > 2
                &&& actions[turns.len() - 2] == AppendActionView::<P::Refusal, E::Error>::Commit
                &&& turns.last().reply == AppendReply::Done
            }
            &&& start.events.len() == 0 ==> commits_nothing(actions)
        }),
{
    lemma_append_kept(start, turns);
    lemma_append_kept(start, turns.drop_last());
}

/// An append that is answered with an error has met with what the error tells: the database, the
/// precondition or the writing of an event has just reported it. It has not committed anything,
/// unless what failed is the commit itself.
pub proof fn law_append_error_commits_nothing<P: Precondition, E: SerializableEvent>(
    start: AppendSessionView<P, E>,
    turns: Seq<AppendTurn<P::Refusal, E::Error>>,
    error: PersistError<P::Refusal, E::Error>,
)
    requires
        start.state is Opening,
        append_possible(start, turns),
        turns.len() > 0,
        append_actions(start, turns).last() == AppendActionView::<P::Refusal, E::Error>::Return(
            Err(error),
        ),
    ensures
        error_met(start, turns, error),
        commits_nothing(append_actions(start, turns)) || {
            &&& append_actions(start, turns)[turns.len() - 2] == AppendActionView::<
                P::Refusal,
                E::Error,
            >::Commit
            &&& error is Postgres
        },
{
    lemma_append_kept(start, turns);
    lemma_append_kept(start, turns.drop_last());
}

/// An append opens one transaction, and that first: no action after the first one opens another.
pub proof fn law_append_opens_one_transaction<P: Precondition, E: SerializableEvent>(
    start: AppendSessionView<P, E>,
    turns: Seq<AppendTurn<P::Refusal, E::Error>>,
    k: int,
)
    requires
        start.state is Opening,
        append_possible(start, turns),
        0 <= k < turns.len(),
    ensures
        append_actions(start, turns)[k] != AppendActionView::<P::Refusal, E::Error>::Begin,
    decreases turns.len(),
{
    let earlier = turns.drop_last();
    lemma_append_kept(start, earlier);
    if k < turns.len() - 1 {
        law_append_opens_one_transaction(start, earlier, k);
        assert(append_actions(start, turns)[k] == append_actions(start, earlier)[k]);
    }
}

/// Once an append has been answered, it takes no further turn.
pub proof fn law_append_ends_with_answer<P: Precondition, E: SerializableEvent>(
    start: AppendSessionView<P, E>,
    turns: Seq<AppendTurn<P::Refusal, E::Error>>,
    further: AppendTurn<P::Refusal, E::Error>,
)
    requires
        start.state is Opening,
        append_possible(start, turns),
        turns.len() > 0,
        append_actions(start, turns).last() is Return,
    ensures
        !append_possible(start, turns.push(further)),
{
    lemma_append_kept(start, turns);
    lemma_append_kept(start, turns.drop_last());
    assert(turns.push(further).drop_last() =~= turns);
}

/// The turns of an append that goes well, up to the insertion of the first `k` events, whose types
/// and texts are given.
pub open spec fn good_turns<R, X>(
    row: Option<Option<i64>>,
    texts: Seq<(Seq<char>, Seq<u8>)>,
    k: nat,
) -> Seq<AppendTurn<R, X>>
    decreases k,
{
    if k == 0 {
        seq![
            plain_turn(AppendReply::Done),
            AppendTurn {
                reply: AppendReply::MaxSequence(row),
                answer: AppendAnswer::Verdict(Ok(())),
            },
        ]
    } else {
        good_turns::<R, X>(row, texts, (k - 1) as nat).push(
            AppendTurn {
                reply: AppendReply::Done,
                answer: AppendAnswer::Written(Ok(texts[k - 1])),
            },
        )
    }
}

/// The actions of an append that goes well, up to the insertion of the first `k` events.
pub open spec fn good_actions<R, X>(
    entity_type: Seq<char>,
    entity_id: Seq<char>,
    row: Option<Option<i64>>,
    texts: Seq<(Seq<char>, Seq<u8>)>,
    k: nat,
) -> Seq<AppendActionView<R, X>>
    decreases k,
{
    let first = version_or_initial(reported_version(row)) + 1;
    if k == 0 {
        seq![
            AppendActionView::Query(max_sequence_query(entity_type, entity_id)),
            AppendActionView::Prepare(INSERT_EVENT@),
        ]
    } else {
        let text = texts[k - 1];
        good_actions::<R, X>(entity_type, entity_id, row, texts, (k - 1) as nat).push(
            AppendActionView::Execute(
                event_insert(entity_type, entity_id, (first + k - 1) as nat, text.0, text.1),
            ),
        )
    }
}

proof fn lemma_step<P: Precondition, E: SerializableEvent>(
    start: AppendSessionView<P, E>,
    turns: Seq<AppendTurn<P::Refusal, E::Error>>,
    turn: AppendTurn<P::Refusal, E::Error>,
)
    ensures
        append_after(start, turns.push(turn)) == append_next(
            append_after(start, turns),
            turn.reply,
            turn.answer,
        ).0,
        append_actions(start, turns.push(turn)) == append_actions(start, turns).push(
            append_next(append_after(start, turns), turn.reply, turn.answer).1,
        ),
        append_possible(start, turns.push(turn)) == (append_possible(start, turns)
            && append_accepts(append_after(start, turns), turn.reply) && append_answered(
            append_after(start, turns),
            turn.reply,
            turn.answer,
        )),
{
    assert(turns.push(turn).drop_last() =~= turns);
}

proof fn lemma_good_run<P: Precondition, E: SerializableEvent>(
    start: AppendSessionView<P, E>,
    row: Option<Option<i64>>,
    texts: Seq<(Seq<char>, Seq<u8>)>,
    k: nat,
)
    requires
        start.state is Opening,
        start.events.len() > 0,
        texts_of(start.events, texts),
        verdict_on(start.precondition, version_of(reported_version(row)), Ok(())),
        k <= texts.len(),
        version_or_initial(reported_version(row)) + texts.len() < u64::MAX,
    ensures
        ({
            let turns = good_turns::<P::Refusal, E::Error>(row, texts, k);
            let version = version_or_initial(reported_version(row));
            &&& append_possible(start, turns)
            &&& append_actions(start, turns) == good_actions::<P::Refusal, E::Error>(
                start.entity_type,
                start.entity_id,
                row,
                texts,
                k,
            )
            &&& append_after(start, turns) == (AppendSessionView {
                precondition: None,
                state: if k == 0 {
                    AppendStateView::Preparing { version }
                } else {
                    AppendStateView::Inserting { first: version + 1, written: (k - 1) as nat }
                },
                ..start
            })
            &&& turns.len() == k + 2
            &&& turns[1].reply == AppendReply::MaxSequence(row)
            &&& written_down(turns) == texts.take(k as int)
        }),
    decreases k,
{
    let turns = good_turns::<P::Refusal, E::Error>(row, texts, k);
    if k == 0 {
        let none = Seq::<AppendTurn<P::Refusal, E::Error>>::empty();
        let opened = plain_turn::<P::Refusal, E::Error>(AppendReply::Done);
        let allowed = AppendTurn::<P::Refusal, E::Error> {
            reply: AppendReply::MaxSequence(row),
            answer: AppendAnswer::Verdict(Ok(())),
        };
        lemma_step(start, none, opened);
        lemma_step(start, none.push(opened), allowed);
        assert(turns =~= none.push(opened).push(allowed));
        assert(append_actions(start, turns) =~= good_actions::<P::Refusal, E::Error>(
            start.entity_type,
            start.entity_id,
            row,
            texts,
            0,
        ));
        reveal_with_fuel(written_down, 3);
        assert(texts.take(0) =~= Seq::empty());
    } else {
        let earlier = good_turns::<P::Refusal, E::Error>(row, texts, (k - 1) as nat);
        let turn = AppendTurn::<P::Refusal, E::Error> {
            reply: AppendReply::Done,
            answer: AppendAnswer::Written(Ok(texts[k - 1])),
        };
        lemma_good_run(start, row, texts, (k - 1) as nat);
        lemma_step(start, earlier, turn);
        assert(turns.drop_last() =~= earlier);
        assert(texts.take(k as int) =~= texts.take(k - 1).push(texts[k - 1]));
    }
}

/// An append whose precondition holds, whose events can all be written down and whose statements
/// all succeed is carried out: it asks for the version, inserts every event in turn under its
/// number, commits and answers with the number of the first event. The event numbers must not run
/// out.
pub proof fn law_append_succeeds<P: Precondition, E: SerializableEvent>(
    start: AppendSessionView<P, E>,
    row: Option<Option<i64>>,
    texts: Seq<(Seq<char>, Seq<u8>)>,
)
    requires
        start.state is Opening,
        start.events.len() > 0,
        texts.len() == start.events.len(),
        texts_of(start.events, texts),
        verdict_on(start.precondition, version_of(reported_version(row)), Ok(())),
        version_or_initial(reported_version(row)) + texts.len() < u64::MAX,
    ensures
        ({
            let turns = good_turns::<P::Refusal, E::Error>(row, texts, texts.len()).push(
                plain_turn(AppendReply::Done),
            ).push(plain_turn(AppendReply::Done));
            let first = version_or_initial(reported_version(row)) + 1;
            &&& append_possible(start, turns)
            &&& append_actions(start, turns) == good_actions::<P::Refusal, E::Error>(
                start.entity_type,
                start.entity_id,
                row,
                texts,
                texts.len(),
            ).push(AppendActionView::Commit).push(AppendActionView::Return(Ok(first)))
            &&& executed(append_actions(start, turns)) == numbered_inserts(
                start.entity_type,
                start.entity_id,
                first,
                texts,
            )
        }),
{
    let inserted = good_turns::<P::Refusal, E::Error>(row, texts, texts.len());
    let done = plain_turn::<P::Refusal, E::Error>(AppendReply::Done);
    let committing = inserted.push(done);
    let turns = committing.push(done);
    lemma_good_run(start, row, texts, texts.len());
    lemma_step(start, inserted, done);
    lemma_step(start, committing, done);
    assert(committing.drop_last() =~= inserted);
    assert(turns.drop_last() =~= committing);
    assert(written_down(committing) == written_down(inserted));
    assert(written_down(turns) == written_down(committing));
    assert(texts.take(texts.len() as int) =~= texts);
    assert(turns[1] == inserted[1]);
    law_append_numbers_events_consecutively(start, turns);
}

/// An append without events asks for the version and answers with the next number. It holds no
/// precondition against the version, writes nothing and does not commit.
pub proof fn law_append_of_nothing<P: Precondition, E: SerializableEvent>(
    start: AppendSessionView<P, E>,
    row: Option<Option<i64>>,
)
    requires
        start.state is Opening,
        start.events.len() == 0,
        version_or_initial(reported_version(row)) < u64::MAX,
    ensures
        ({
            let turns = seq![
                plain_turn::<P::Refusal, E::Error>(AppendReply::Done),
                plain_turn::<P::Refusal, E::Error>(AppendReply::MaxSequence(row)),
            ];
            &&& append_possible(start, turns)
            &&& append_actions(start, turns) == seq![
                AppendActionView::<P::Refusal, E::Error>::Query(
                    max_sequence_query(start.entity_type, start.entity_id),
                ),
                AppendActionView::<P::Refusal, E::Error>::Return(
                    Ok(version_or_initial(reported_version(row)) + 1),
                ),
            ]
        }),
{
    let none = Seq::<AppendTurn<P::Refusal, E::Error>>::empty();
    let opened = plain_turn::<P::Refusal, E::Error>(AppendReply::Done);
    let told = plain_turn::<P::Refusal, E::Error>(AppendReply::MaxSequence(row));
    lemma_step(start, none, opened);
    lemma_step(start, none.push(opened), told);
    assert(none.push(opened).push(told) =~= seq![opened, told]);
}

/// An append whose precondition does not hold is answered with what the precondition reports.
/// Nothing is prepared, written down, executed or committed.
pub proof fn law_append_refused<P: Precondition, E: SerializableEvent>(
    start: AppendSessionView<P, E>,
    row: Option<Option<i64>>,
    refusal: P::Refusal,
)
    requires
        start.state is Opening,
        start.events.len() > 0,
        verdict_on(start.precondition, version_of(reported_version(row)), Err(refusal)),
    ensures
        ({
            let turns = seq![
                plain_turn::<P::Refusal, E::Error>(AppendReply::Done),
                AppendTurn::<P::Refusal, E::Error> {
                    reply: AppendReply::MaxSequence(row),
                    answer: AppendAnswer::Verdict(Err(refusal)),
                },
            ];
            &&& append_possible(start, turns)
            &&& append_actions(start, turns) == seq![
                AppendActionView::<P::Refusal, E::Error>::Query(
                    max_sequence_query(start.entity_type, start.entity_id),
                ),
                AppendActionView::<P::Refusal, E::Error>::Return(
                    Err(PersistError::PreconditionFailed(refusal)),
                ),
            ]
        }),
{
    let none = Seq::<AppendTurn<P::Refusal, E::Error>>::empty();
    let opened = plain_turn::<P::Refusal, E::Error>(AppendReply::Done);
    let refused = AppendTurn::<P::Refusal, E::Error> {
        reply: AppendReply::MaxSequence(row),
        answer: AppendAnswer::Verdict(Err(refusal)),
    };
    lemma_step(start, none, opened);
    lemma_step(start, none.push(opened), refused);
    assert(none.push(opened).push(refused) =~= seq![opened, refused]);
}

/// An append that is started carries what it was given: the aggregate's type and identifier, the
/// events and the precondition, whatever they are.
pub proof fn law_append_starts_with_what_it_is_given<P: Precondition, E: SerializableEvent>(
    entity_type: &str,
    entity_id: &str,
    events: &[E],
    precondition: Option<P>,
    started: (AppendSession<'_, P, E>, AppendAction<'_, P::Refusal, E::Error>),
)
    requires
        call_ensures(
            AppendSession::<P, E>::start,
            (entity_type, entity_id, events, precondition),
            started,
        ),
    ensures
        started.0@.entity_type == entity_type@,
        started.0@.entity_id == entity_id@,
        started.0@.events == events@,
        started.0@.precondition == precondition,
        started.0@ == append_start(entity_type@, entity_id@, events@, precondition),
        started.0@.state is Opening,
        started.1 is Begin,
{
}

/// The greatest number in the answer to the query for it, if the answer has a row with a value.
pub open spec fn max_in(row: Option<Option<i64>>) -> Option<i64> {
    match row {
        Some(max) => max,
        None => None,
    }
}

/// The greatest number that the database has told, if it has told one.
pub open spec fn max_told<R, X>(turns: Seq<AppendTurn<R, X>>) -> Option<i64> {
    if turns.len() > 1 {
        match turns[1].reply {
            AppendReply::MaxSequence(row) => max_in(row),
            _ => None,
        }
    } else {
        None
    }
}

/// That `n` is the number of events that the database tells by its greatest number: zero if it
/// tells none.
pub open spec fn tells_number(max: Option<i64>, n: nat) -> bool {
    match max {
        Some(max) => stands_for(max as int, n),
        None => n == 0,
    }
}

/// That `current` is the version that the database tells by its greatest number: none if it tells
/// none.
pub open spec fn tells_version(max: Option<i64>, current: Option<Version>) -> bool {
    match max {
        Some(max) => {
            &&& current matches Some(version)
            &&& stands_for(max as int, version@)
            &&& version is Initial <==> version@ == 0
        },
        None => current is None,
    }
}

/// That `event_type` and `payload` can be the name of the event's type, and what the event writes
/// into an empty buffer.
pub open spec fn is_text_of<E: SerializableEvent>(
    event: E,
    event_type: Seq<char>,
    payload: Seq<u8>,
) -> bool {
    &&& event.serializes(Seq::empty(), payload, Ok(()))
    &&& exists|name: &'static str|
        name@ == event_type && #[trigger] call_ensures(E::event_type, (&event,), name)
}

/// That a statement stores the event of the aggregate under the number `n`.
pub open spec fn stores_event<E: SerializableEvent>(
    statement: StatementView,
    entity_type: Seq<char>,
    entity_id: Seq<char>,
    event: E,
    n: nat,
) -> bool {
    &&& statement.text == INSERT_EVENT@
    &&& statement.params.len() == 6
    &&& statement.params[0] == SqlParamView::Text(entity_type)
    &&& statement.params[1] == SqlParamView::Text(entity_id)
    &&& statement.params[2] is BigInt
    &&& stands_for(statement.params[2]->BigInt_0, n)
    &&& statement.params[3] is Text
    &&& statement.params[4] is RawJson
    &&& is_text_of(event, statement.params[3]->Text_0, statement.params[4]->RawJson_0)
    &&& statement.params[5] is Metadata
}

proof fn lemma_told<R, X>(
    turns: Seq<AppendTurn<R, X>>,
    version: nat,
    current: Option<Version>,
)
    requires
        tells_number(max_told(turns), version),
        tells_version(max_told(turns), current),
    ensures
        version_told(turns) == version,
        version_of(reported_version(row_told(turns))) == current,
        version <= u64::MAX,
{
    if let Some(version) = current {
        law_version_is_its_value(version, version@);
    }
}

/// What holds of every append, of any events to any aggregate under any precondition, in every
/// course that it can take. It first asks for the last number of that aggregate. Each statement
/// that it executes stores one of the events, in their order, as the event writes itself, under
/// the numbers that follow what the database told. It executes any only if the precondition,
/// asked about the version that the database told, can hold. It is answered with the number after
/// that version, once all events are stored; with what the precondition reported, having executed
/// nothing; with what the event after those stored reported; or with what the database reported.
pub proof fn law_append_in_every_course<P: Precondition, E: SerializableEvent>(
    entity_type: Seq<char>,
    entity_id: Seq<char>,
    events: Seq<E>,
    precondition: Option<P>,
    turns: Seq<AppendTurn<P::Refusal, E::Error>>,
    version: nat,
    current: Option<Version>,
)
    requires
        append_possible(append_start(entity_type, entity_id, events, precondition), turns),
        turns.len() > 0,
        tells_number(max_told(turns), version),
        tells_version(max_told(turns), current),
    ensures
        ({
            let start = append_start(entity_type, entity_id, events, precondition);
            let actions = append_actions(start, turns);
            let stored = executed(actions);
            &&& actions.len() == turns.len()
            &&& turns[0].reply is Done ==> {
                &&& actions[0] matches AppendActionView::Query(query)
                &&& query.text == SELECT_MAX_SEQUENCE@
                &&& query.params == seq![
                    SqlParamView::Text(entity_type),
                    SqlParamView::Text(entity_id),
                ]
            }
            &&& stored.len() <= events.len()
            &&& forall|i: int|
                0 <= i < stored.len() ==> stores_event(
                    #[trigger] stored[i],
                    entity_type,
                    entity_id,
                    events[i],
                    (version + 1 + i) as nat,
                )
            &&& stored.len() > 0 && precondition is Some ==> call_ensures(
                P::verify,
                (precondition->0, current),
                Ok(()),
            )
            &&& actions.last() matches AppendActionView::Return(Ok(number)) ==> {
                &&& number == version + 1
                &&& stored.len() == events.len()
                &&& turns.len() > 1 && turns[1].reply is MaxSequence
            }
            &&& actions.last() matches AppendActionView::Return(Err(error)) ==> match error {
                PersistError::Postgres(cause) => turns.last().reply == AppendReply::Failed(cause),
                PersistError::PreconditionFailed(refusal) => {
                    &&& stored.len() == 0
                    &&& events.len() > 0
                    &&& precondition is Some
                    &&& call_ensures(P::verify, (precondition->0, current), Err(refusal))
                },
                PersistError::SerializationError(cause) => {
                    &&& stored.len() < events.len()
                    &&& exists|left: Seq<u8>| #[trigger]
                        events[stored.len() as int].serializes(Seq::empty(), left, Err(cause))
                },
            }
        }),
{
    let start = append_start(entity_type, entity_id, events, precondition);
    let actions = append_actions(start, turns);
    let stored = executed(actions);
    lemma_told(turns, version, current);
    lemma_append_kept(start, turns);
    lemma_first_action(start, turns);
    assert forall|i: int| 0 <= i < stored.len() implies stores_event(
        #[trigger] stored[i],
        entity_type,
        entity_id,
        events[i],
        (version + 1 + i) as nat,
    ) by {
        let text = written_down(turns)[i];
        assert(written_as(&events[i], Ok::<(Seq<char>, Seq<u8>), E::Error>(text)));
        assert(stored[i].params[2] == SqlParamView::BigInt(column_of((version + 1 + i) as nat)));
        law_columns_hold_bytes((version + 1 + i) as nat, 0);
    }
}

proof fn lemma_first_action<P: Precondition, E: SerializableEvent>(
    start: AppendSessionView<P, E>,
    turns: Seq<AppendTurn<P::Refusal, E::Error>>,
)
    requires
        start.state is Opening,
        append_possible(start, turns),
        turns.len() > 0,
    ensures
        append_actions(start, turns).len() == turns.len(),
        append_actions(start, turns)[0] == append_next(start, turns[0].reply, turns[0].answer).1,
    decreases turns.len(),
{
    let earlier = turns.drop_last();
    lemma_append_kept(start, turns);
    if turns.len() > 1 {
        lemma_first_action(start, earlier);
        assert(earlier[0] == turns[0]);
    }
}

/// An append of at least one event whose precondition can only refuse the version that the
/// database tells is answered with a refusal as soon as it is told. It executes nothing and does
/// not commit, whatever the events are.
pub proof fn law_refused_append_executes_nothing<P: Precondition, E: SerializableEvent>(
    entity_type: Seq<char>,
    entity_id: Seq<char>,
    events: Seq<E>,
    precondition: P,
    turns: Seq<AppendTurn<P::Refusal, E::Error>>,
    current: Option<Version>,
)
    requires
        append_possible(append_start(entity_type, entity_id, events, Some(precondition)), turns),
        events.len() > 0,
        turns.len() > 1,
        turns[1].reply is MaxSequence,
        tells_version(max_told(turns), current),
        forall|verdict: Result<(), P::Refusal>| #[trigger]
            call_ensures(P::verify, (precondition, current), verdict) ==> verdict is Err,
    ensures
        ({
            let start = append_start(entity_type, entity_id, events, Some(precondition));
            let actions = append_actions(start, turns);
            &&& turns.len() == 2
            &&& executed(actions).len() == 0
            &&& commits_nothing(actions)
            &&& actions.last() matches AppendActionView::Return(
                Err(PersistError::PreconditionFailed(refusal)),
            )
            &&& call_ensures(P::verify, (precondition, current), Err(refusal))
        }),
    decreases turns.len(),
{
    let start = append_start(entity_type, entity_id, events, Some(precondition));
    let earlier = turns.drop_last();
    let version: nat = match current {
        Some(version) => version@,
        None => 0,
    };
    lemma_told(turns, version, current);
    lemma_append_kept(start, turns);
    lemma_append_kept(start, earlier);
    if turns.len() > 2 {
        assert(earlier[1] == turns[1]);
        law_refused_append_executes_nothing(
            entity_type,
            entity_id,
            events,
            precondition,
            earlier,
            current,
        );
        assert(append_after(start, earlier).state is Closed);
    } else {
        assert(append_after(start, earlier).state is Checking);
        if let AppendAnswer::Verdict(verdict) = turns.last().answer {
            assert(call_ensures(P::verify, (precondition, current), verdict));
        }
        assert(executed(append_actions(start, turns)).len() == 0);
    }
}

/// An append of any events is refused if its precondition refuses the version that the database
/// tells: it asks for the last number and is answered with the refusal.
pub proof fn law_append_is_refused<P: Precondition, E: SerializableEvent>(
    entity_type: Seq<char>,
    entity_id: Seq<char>,
    events: Seq<E>,
    precondition: P,
    row: Option<Option<i64>>,
    current: Option<Version>,
    refusal: P::Refusal,
)
    requires
        events.len() > 0,
        tells_version(max_in(row), current),
        call_ensures(P::verify, (precondition, current), Err(refusal)),
    ensures
        ({
            let start = append_start(entity_type, entity_id, events, Some(precondition));
            let turns = seq![
                plain_turn::<P::Refusal, E::Error>(AppendReply::Done),
                AppendTurn::<P::Refusal, E::Error> {
                    reply: AppendReply::MaxSequence(row),
                    answer: AppendAnswer::Verdict(Err(refusal)),
                },
            ];
            &&& append_possible(start, turns)
            &&& append_actions(start, turns).len() == 2
            &&& append_actions(start, turns)[0] is Query
            &&& append_actions(start, turns)[1] == AppendActionView::<
                P::Refusal,
                E::Error,
            >::Return(Err(PersistError::PreconditionFailed(refusal)))
        }),
{
    let start = append_start(entity_type, entity_id, events, Some(precondition));
    if let Some(version) = current {
        law_version_is_its_value(version, version@);
    }
    assert(version_of(reported_version(row)) == current);
    law_append_refused(start, row, refusal);
}

/// An append of any events, to any aggregate, is carried out if its precondition, if it has one,
/// holds of the version that the database tells, if every event can be written down and if the
/// database does what it is asked: every event is stored with the text that was written, under the
/// numbers that follow the version, the transaction is committed, and the answer is the first of
/// these numbers. The event numbers must not run out.
pub proof fn law_append_is_carried_out<P: Precondition, E: SerializableEvent>(
    entity_type: Seq<char>,
    entity_id: Seq<char>,
    events: Seq<E>,
    precondition: Option<P>,
    row: Option<Option<i64>>,
    version: nat,
    current: Option<Version>,
    texts: Seq<(Seq<char>, Seq<u8>)>,
)
    requires
        events.len() > 0,
        texts.len() == events.len(),
        forall|i: int|
            0 <= i < texts.len() ==> is_text_of(
                events[i],
                (#[trigger] texts[i]).0,
                texts[i].1,
            ),
        tells_number(max_in(row), version),
        tells_version(max_in(row), current),
        precondition is Some ==> call_ensures(P::verify, (precondition->0, current), Ok(())),
        version + events.len() < u64::MAX,
    ensures
        ({
            let start = append_start(entity_type, entity_id, events, precondition);
            let turns = good_turns::<P::Refusal, E::Error>(row, texts, texts.len()).push(
                plain_turn(AppendReply::Done),
            ).push(plain_turn(AppendReply::Done));
            let actions = append_actions(start, turns);
            let stored = executed(actions);
            &&& append_possible(start, turns)
            &&& actions.len() == events.len() + 4
            &&& actions[0] is Query
            &&& actions[1] == AppendActionView::<P::Refusal, E::Error>::Prepare(INSERT_EVENT@)
            &&& stored.len() == events.len()
            &&& forall|i: int|
                0 <= i < stored.len() ==> {
                    &&& stores_event(
                        #[trigger] stored[i],
                        entity_type,
                        entity_id,
                        events[i],
                        (version + 1 + i) as nat,
                    )
                    &&& stored[i].params[3] == SqlParamView::Text(texts[i].0)
                    &&& stored[i].params[4] == SqlParamView::RawJson(texts[i].1)
                }
            &&& actions[actions.len() - 2] == AppendActionView::<P::Refusal, E::Error>::Commit
            &&& actions.last() == AppendActionView::<P::Refusal, E::Error>::Return(
                Ok(version + 1),
            )
        }),
{
    let start = append_start(entity_type, entity_id, events, precondition);
    let inserted = good_turns::<P::Refusal, E::Error>(row, texts, texts.len());
    let turns = inserted.push(plain_turn(AppendReply::Done)).push(plain_turn(AppendReply::Done));
    if let Some(version) = current {
        law_version_is_its_value(version, version@);
    }
    assert(version_of(reported_version(row)) == current);
    assert(texts_of(events, texts)) by {
        assert forall|i: int| 0 <= i < texts.len() implies written_as(
            &events[i],
            Ok::<(Seq<char>, Seq<u8>), E::Error>(#[trigger] texts[i]),
        ) by {
            assert(is_text_of(events[i], texts[i].0, texts[i].1));
        }
    }
    law_append_succeeds(start, row, texts);
    lemma_good_run(start, row, texts, texts.len());
    lemma_good_run(start, row, texts, 0);
    lemma_good_actions_prefix::<P::Refusal, E::Error>(
        entity_type,
        entity_id,
        row,
        texts,
        texts.len(),
    );
    assert(turns[1] == inserted[1]);
    law_append_in_every_course(
        entity_type,
        entity_id,
        events,
        precondition,
        turns,
        version,
        current,
    );
}

proof fn lemma_good_actions_prefix<R, X>(
    entity_type: Seq<char>,
    entity_id: Seq<char>,
    row: Option<Option<i64>>,
    texts: Seq<(Seq<char>, Seq<u8>)>,
    k: nat,
)
    ensures
        good_actions::<R, X>(entity_type, entity_id, row, texts, k).len() == k + 2,
        good_actions::<R, X>(entity_type, entity_id, row, texts, k)[0] is Query,
        good_actions::<R, X>(entity_type, entity_id, row, texts, k)[1] == AppendActionView::<
            R,
            X,
        >::Prepare(INSERT_EVENT@),
    decreases k,
{
    if k > 0 {
        lemma_good_actions_prefix::<R, X>(entity_type, entity_id, row, texts, (k - 1) as nat);
    }
}

/// An append without events, to any aggregate and under any precondition, is answered with the
/// number after the version that the database tells, and stores nothing. The event numbers must
/// not run out.
pub proof fn law_append_of_no_events_tells_the_next_number<
    P: Precondition,
    E: SerializableEvent,
>(
    entity_type: Seq<char>,
    entity_id: Seq<char>,
    precondition: Option<P>,
    row: Option<Option<i64>>,
    version: nat,
)
    requires
        tells_number(max_in(row), version),
        version < u64::MAX,
    ensures
        ({
            let start = append_start::<P, E>(entity_type, entity_id, Seq::empty(), precondition);
            let turns = seq![
                plain_turn::<P::Refusal, E::Error>(AppendReply::Done),
                plain_turn::<P::Refusal, E::Error>(AppendReply::MaxSequence(row)),
            ];
            &&& append_possible(start, turns)
            &&& append_actions(start, turns).len() == 2
            &&& append_actions(start, turns)[0] is Query
            &&& append_actions(start, turns)[1] == AppendActionView::<
                P::Refusal,
                E::Error,
            >::Return(Ok(version + 1))
        }),
{
    let start = append_start::<P, E>(entity_type, entity_id, Seq::empty(), precondition);
    law_append_of_nothing(start, row);
}

/// An event that cannot be written down ends an append with the error that it reports, after the
/// events before it have been stored.
pub proof fn law_unwritable_event_ends_append<P: Precondition, E: SerializableEvent>(
    entity_type: Seq<char>,
    entity_id: Seq<char>,
    events: Seq<E>,
    precondition: Option<P>,
    row: Option<Option<i64>>,
    version: nat,
    current: Option<Version>,
    texts: Seq<(Seq<char>, Seq<u8>)>,
    left: Seq<u8>,
    error: E::Error,
)
    requires
        texts.len() < events.len(),
        forall|i: int|
            0 <= i < texts.len() ==> is_text_of(
                events[i],
                (#[trigger] texts[i]).0,
                texts[i].1,
            ),
        events[texts.len() as int].serializes(Seq::empty(), left, Err(error)),
        tells_number(max_in(row), version),
        tells_version(max_in(row), current),
        precondition is Some ==> call_ensures(P::verify, (precondition->0, current), Ok(())),
        version + texts.len() < u64::MAX,
    ensures
        ({
            let start = append_start(entity_type, entity_id, events, precondition);
            let turns = good_turns::<P::Refusal, E::Error>(row, texts, texts.len()).push(
                AppendTurn {
                    reply: AppendReply::Done,
                    answer: AppendAnswer::Written(Err(error)),
                },
            );
            &&& append_possible(start, turns)
            &&& executed(append_actions(start, turns)).len() == texts.len()
            &&& commits_nothing(append_actions(start, turns))
            &&& append_actions(start, turns).last() == AppendActionView::<
                P::Refusal,
                E::Error,
            >::Return(Err(PersistError::SerializationError(error)))
        }),
{
    let start = append_start(entity_type, entity_id, events, precondition);
    let inserted = good_turns::<P::Refusal, E::Error>(row, texts, texts.len());
    let turn = AppendTurn::<P::Refusal, E::Error> {
        reply: AppendReply::Done,
        answer: AppendAnswer::Written(Err(error)),
    };
    if let Some(version) = current {
        law_version_is_its_value(version, version@);
    }
    assert(version_of(reported_version(row)) == current);
    assert(texts_of(events, texts)) by {
        assert forall|i: int| 0 <= i < texts.len() implies written_as(
            &events[i],
            Ok::<(Seq<char>, Seq<u8>), E::Error>(#[trigger] texts[i]),
        ) by {
            assert(is_text_of(events[i], texts[i].0, texts[i].1));
        }
    }
    lemma_good_run(start, row, texts, texts.len());
    lemma_step(start, inserted, turn);
    assert(serialization_fails(&events[texts.len() as int], error));
    assert(inserted.push(turn).drop_last() =~= inserted);
    assert(texts.take(texts.len() as int) =~= texts);
    lemma_append_kept(start, inserted.push(turn));
    assert(written_down(inserted.push(turn)) == written_down(inserted));
}

/// Wherever an append has come to, an error of the database ends it and is the answer. Nothing is
/// asked of the application then.
pub proof fn law_append_stops_at_database_error<P: Precondition, E: SerializableEvent>(
    session: AppendSessionView<P, E>,
    error: postgres::error::Error,
    answer: AppendAnswer<P::Refusal, E::Error>,
)
    requires
        !(session.state is Closed),
    ensures
        append_accepts(session, AppendReply::Failed(error)),
        append_answered(session, AppendReply::Failed(error), answer) <==> answer is Unasked,
        append_next(session, AppendReply::Failed(error), answer).0.state is Closed,
        append_next(session, AppendReply::Failed(error), answer).1 == AppendActionView::<
            P::Refusal,
            E::Error,
        >::Return(Err(PersistError::Postgres(error))),
{
}

/// The version that is told is read from the answer to the query: none without a row or a value,
/// otherwise the value, as an unsigned number.
pub proof fn law_version_is_the_one_told(row: Option<Option<i64>>, version: Option<Version>)
    requires
        call_ensures(current_version, (row,), version),
    ensures
        tells_version(max_in(row), version),
{
    if let Some(Some(max)) = row {
        law_columns_hold_bytes(0, max as int);
        law_numbers_have_their_values(number_of(max as int));
    }
}

/// What a precondition says is what comes of holding it against the version, and without one
/// nothing is refused.
pub proof fn law_precondition_decides<P: Precondition>(
    precondition: Option<P>,
    current: Option<Version>,
    verdict: Result<(), P::Refusal>,
)
    requires
        call_ensures(verify_precondition::<P>, (precondition, current), verdict),
    ensures
        precondition is None ==> verdict is Ok,
        precondition matches Some(condition) ==> call_ensures(
            P::verify,
            (condition, current),
            verdict,
        ),
{
}

/// What is stored of an event is what the event writes into an empty buffer, and the name that it
/// gives its type; an error is one that it reports.
pub proof fn law_event_is_written_as_it_writes_itself<E: SerializableEvent>(
    event: &E,
    outcome: Result<(&'static str, Vec<u8>), E::Error>,
)
    requires
        call_ensures(serialize_event::<E>, (event,), outcome),
    ensures
        outcome matches Ok((event_type, payload)) ==> event.serializes(
            Seq::empty(),
            payload@,
            Ok(()),
        ) && call_ensures(E::event_type, (event,), event_type),
        outcome matches Err(error) ==> exists|left: Seq<u8>| #[trigger]
            event.serializes(Seq::empty(), left, Err(error)),
{
}

/// The actions of an append are looked at as they are: with their statements, texts and answers.
pub proof fn law_append_actions_are_looked_at_as_they_are<R, X>(action: AppendAction<'_, R, X>)
    ensures
        action@ == match action {
            AppendAction::Begin => AppendActionView::<R, X>::Begin,
            AppendAction::Query(statement) => AppendActionView::Query(statement@),
            AppendAction::Prepare(text) => AppendActionView::Prepare(text@),
            AppendAction::Execute(statement) => AppendActionView::Execute(statement@),
            AppendAction::Commit => AppendActionView::Commit,
            AppendAction::Return(Ok(number)) => AppendActionView::Return(Ok(number@)),
            AppendAction::Return(Err(error)) => AppendActionView::Return(Err(error)),
        },
{
}

} // verus!
