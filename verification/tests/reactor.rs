use std::time::Duration;

use cqrs_postgres::aggregate::{CqrsError, RawEvent};
use cqrs_postgres::reactor::{
    AggregatePredicate, EventTypesPredicate, Reaction, ReactionPredicate,
    SpecificAggregatePredicate,
};
use cqrs_postgres::version::EventNumber;

#[test]
fn default_predicates_select_everything() {
    assert_eq!(
        EventTypesPredicate::default(),
        EventTypesPredicate::AllEventTypes
    );
    assert_eq!(
        AggregatePredicate::default(),
        AggregatePredicate::AllAggregates(EventTypesPredicate::AllEventTypes)
    );
    assert_eq!(
        ReactionPredicate::default(),
        ReactionPredicate {
            aggregate_predicate: AggregatePredicate::AllAggregates(
                EventTypesPredicate::AllEventTypes
            )
        }
    );
}

#[test]
fn default_specific_predicate_has_no_name() {
    assert_eq!(
        SpecificAggregatePredicate::default(),
        SpecificAggregatePredicate {
            aggregate_type: "",
            event_types: EventTypesPredicate::AllEventTypes
        }
    );
}

#[derive(Debug, PartialEq)]
struct Full;

impl CqrsError for Full {}

struct Collector(Vec<RawEvent>);

const SELECTED: &[SpecificAggregatePredicate] = &[SpecificAggregatePredicate {
    aggregate_type: "note",
    event_types: EventTypesPredicate::SpecificEventTypes(&["noted"]),
}];

impl Reaction for Collector {
    type Error = Full;

    fn reaction_name() -> &'static str {
        "collector"
    }

    fn react(&mut self, event: RawEvent) -> Result<(), Full> {
        if self.0.len() < 1 {
            self.0.push(event);
            Ok(())
        } else {
            Err(Full)
        }
    }

    fn predicate(&self) -> ReactionPredicate {
        ReactionPredicate {
            aggregate_predicate: AggregatePredicate::SpecificAggregates(SELECTED),
        }
    }

    fn interval() -> Duration {
        Duration::from_secs(5)
    }
}

#[test]
fn reactions_can_be_written() {
    let event = RawEvent {
        aggregate_type: "note".to_string(),
        entity_id: "n-1".to_string(),
        sequence: EventNumber::new(1).unwrap(),
        event_type: "noted".to_string(),
        payload: vec![123, 125],
    };
    let mut collector = Collector(Vec::new());
    assert_eq!(collector.react(event.clone()), Ok(()));
    assert_eq!(collector.react(event), Err(Full));
    assert_ne!(collector.predicate(), ReactionPredicate::default());
    assert_eq!(Collector::reaction_name(), "collector");
    assert_eq!(Collector::interval(), Duration::from_secs(5));
}
