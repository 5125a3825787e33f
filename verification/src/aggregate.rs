//! What an application supplies: aggregates, their identifiers, their events, and the conditions
//! and strategies that it has the store follow.

use vstd::prelude::*;

use crate::version::{EventNumber, Version};

verus! {

/// An error of the application's own code.
pub trait CqrsError {

}

/// A kind of entity whose state is the outcome of its events.
pub trait Aggregate {
    type Event: Event;

    /// The name under which the events of this kind of entity are stored.
    fn entity_type() -> &'static str;
}

/// The identifier of one aggregate.
pub trait AggregateId {
    type Aggregate: Aggregate;

    /// The text under which the aggregate is stored.
    fn as_ref(&self) -> &str;
}

/// Something that happened to an aggregate.
pub trait Event {
    /// The name of this kind of event.
    fn event_type(&self) -> &'static str;
}

/// An event that can be written down as JSON text.
pub trait SerializableEvent: Event {
    type Error;

    /// That serializing this event can take a buffer from `before` to `after` and report
    /// `outcome`. An implementation says here what it can about itself; one that says nothing
    /// allows everything.
    open spec fn serializes(
        &self,
        before: Seq<u8>,
        after: Seq<u8>,
        outcome: Result<(), Self::Error>,
    ) -> bool {
        true
    }

    /// Appends the event's text to `buffer`.
    fn serialize_event_to_buffer(&self, buffer: &mut Vec<u8>) -> (outcome: Result<(), Self::Error>)
        ensures
            self.serializes(old(buffer)@, final(buffer)@, outcome),
    ;
}

/// An event that can be read back from the name of its kind and its JSON text.
pub trait DeserializableEvent: Event + Sized {
    type Error;

    /// Reads an event back. There is none if the name is not known.
    fn deserialize_event_from_buffer(data: &[u8], event_type: &str) -> Result<
        Option<Self>,
        Self::Error,
    >;
}

/// A condition on the current version of an aggregate that must hold before events are appended.
pub trait Precondition: Sized {
    /// What is reported when the condition does not hold.
    type Refusal;

    /// Holds the condition against the current version. There is none for an aggregate without
    /// recorded events.
    fn verify(self, current_version: Option<Version>) -> Result<(), Self::Refusal>;
}

/// Whether a snapshot should be taken.
#[derive(Clone, Copy, Debug, PartialEq, Eq, Hash, Structural)]
pub enum SnapshotRecommendation {
    SnapshotNow,
    DoNotSnapshot,
}

/// Decides how often snapshots are taken.
pub trait SnapshotStrategy {
    /// Whether an aggregate at `version`, whose last snapshot has `last_snapshot_version`, should
    /// be stored.
    fn snapshot_recommendation(
        &self,
        version: Version,
        last_snapshot_version: Version,
    ) -> SnapshotRecommendation;
}

/// The strategy under which no snapshot is ever taken.
#[derive(Clone, Copy, Debug, PartialEq, Eq, Hash, Structural)]
pub struct NeverSnapshot;

impl Default for NeverSnapshot {
    fn default() -> (strategy: NeverSnapshot)
        ensures
            strategy == NeverSnapshot,
    {
        NeverSnapshot
    }
}

impl SnapshotStrategy for NeverSnapshot {
    fn snapshot_recommendation(
        &self,
        version: Version,
        last_snapshot_version: Version,
    ) -> (recommendation: SnapshotRecommendation)
        ensures
            recommendation == SnapshotRecommendation::DoNotSnapshot,
    {
        SnapshotRecommendation::DoNotSnapshot
    }
}

/// An event together with its number in the stream.
#[derive(Clone, Debug, PartialEq, Eq)]
pub struct VersionedEvent<E> {
    pub sequence: EventNumber,
    pub event: E,
}

/// The state of an aggregate together with the version that it has.
#[derive(Clone, Debug, PartialEq, Eq)]
pub struct VersionedAggregate<A> {
    pub version: Version,
    pub payload: A,
}

/// An event as it is stored, before it is read back into a value of the application.
#[derive(Clone, Debug, PartialEq, Eq, Hash)]
pub struct RawEvent {
    pub aggregate_type: String,
    pub entity_id: String,
    pub sequence: EventNumber,
    pub event_type: String,
    pub payload: Vec<u8>,
}

} // verus!
