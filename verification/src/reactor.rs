//! Reactions to events, and the predicates that select the events they are for.

use vstd::prelude::*;

use crate::aggregate::{CqrsError, RawEvent};

verus! {

/// The aggregates whose events are selected.
#[derive(Clone, Copy, Debug, PartialEq, Eq, Hash)]
pub enum AggregatePredicate {
    /// Those of every kind, with one choice of event types for all.
    AllAggregates(EventTypesPredicate),
    /// Those of the kinds listed, each with its own choice of event types.
    SpecificAggregates(&'static [SpecificAggregatePredicate]),
}

impl Default for AggregatePredicate {
    /// Every event of every aggregate.
    fn default() -> (predicate: AggregatePredicate)
        ensures
            predicate == AggregatePredicate::AllAggregates(EventTypesPredicate::AllEventTypes),
    {
        AggregatePredicate::AllAggregates(EventTypesPredicate::default())
    }
}

/// The event types that are selected.
#[derive(Clone, Copy, Debug, PartialEq, Eq, Hash)]
pub enum EventTypesPredicate {
    AllEventTypes,
    SpecificEventTypes(&'static [&'static str]),
}

impl Default for EventTypesPredicate {
    /// Every event type.
    fn default() -> (predicate: EventTypesPredicate)
        ensures
            predicate == EventTypesPredicate::AllEventTypes,
    {
        EventTypesPredicate::AllEventTypes
    }
}

/// The events that a reaction is for.
#[derive(Clone, Copy, Debug, PartialEq, Eq, Hash)]
pub struct ReactionPredicate {
    pub aggregate_predicate: AggregatePredicate,
}

impl Default for ReactionPredicate {
    /// Every event of every aggregate.
    fn default() -> (predicate: ReactionPredicate)
        ensures
            predicate.aggregate_predicate == AggregatePredicate::AllAggregates(
                EventTypesPredicate::AllEventTypes,
            ),
    {
        ReactionPredicate { aggregate_predicate: AggregatePredicate::default() }
    }
}

/// One kind of aggregate, and the types of its events that are selected.
#[derive(Clone, Copy, Debug, PartialEq, Eq, Hash)]
pub struct SpecificAggregatePredicate {
    pub aggregate_type: &'static str,
    pub event_types: EventTypesPredicate,
}

impl Default for SpecificAggregatePredicate {
    /// Every event type of the aggregate kind without a name.
    fn default() -> (predicate: SpecificAggregatePredicate)
        ensures
            predicate.aggregate_type@ == Seq::<char>::empty(),
            predicate.event_types == EventTypesPredicate::AllEventTypes,
    {
        let aggregate_type = "";
        proof {
            reveal_strlit("");
        }
        SpecificAggregatePredicate { aggregate_type, event_types: EventTypesPredicate::default() }
    }
}

/// A Reactor "reacts" to events, as they are created.
pub trait Reactor {
    fn start_reaction<R: Reaction>(reaction: R);

    fn stop_reaction();
}

/// A Reaction is stateless, triggering side-effects in response to an event's creation.
pub trait Reaction {
    type Error: CqrsError;

    fn reaction_name() -> &'static str;

    fn react(&mut self, event: RawEvent) -> Result<(), Self::Error>;

    fn predicate(&self) -> ReactionPredicate;

    fn interval() -> std::time::Duration;
}

/// By default every event of every aggregate is selected, and no kind of aggregate is named.
pub proof fn law_everything_is_selected_by_default(
    types: EventTypesPredicate,
    aggregates: AggregatePredicate,
    reaction: ReactionPredicate,
    specific: SpecificAggregatePredicate,
)
    requires
        call_ensures(<EventTypesPredicate as Default>::default, (), types),
        call_ensures(<AggregatePredicate as Default>::default, (), aggregates),
        call_ensures(<ReactionPredicate as Default>::default, (), reaction),
        call_ensures(<SpecificAggregatePredicate as Default>::default, (), specific),
    ensures
        types is AllEventTypes,
        aggregates == AggregatePredicate::AllAggregates(types),
        reaction.aggregate_predicate == aggregates,
        specific.event_types == types,
        specific.aggregate_type@.len() == 0,
{
}

} // verus!
