//! An in-memory, append-only log of records, kept per aggregate.
//!
//! Each aggregate's records are numbered densely from 1 in the order they were
//! appended. Identifiers are 128-bit values (a UUID's bits); timestamps, given
//! by the caller, are milliseconds since the Unix epoch.
use vstd::prelude::*;
use std::collections::HashMap;

verus! {

broadcast use vstd::std_specs::hash::group_hash_axioms;

/// Version number of an aggregate or record.
pub type EventVersion = u64;

/// Correlation data carried by every record of one append.
#[derive(Debug, Clone, Copy, PartialEq, Eq, Structural)]
pub struct EventMetadata {
    pub correlation_id: Option<u128>,
    pub causation_id: Option<u128>,
    pub user_id: Option<u128>,
}

impl Default for EventMetadata {
    fn default() -> (r: Self)
        ensures
            r.correlation_id is None,
            r.causation_id is None,
            r.user_id is None,
    {
        EventMetadata { correlation_id: None, causation_id: None, user_id: None }
    }
}

/// Something that carries a version.
pub trait Versioned {
    fn version(&self) -> EventVersion;
}

/// An aggregate that records the events applied to it until they are taken.
pub trait AggregateRoot {
    type Event;

    fn apply_event(&mut self, event: &Self::Event);

    fn uncommitted_events(&self) -> &[Self::Event];

    fn take_uncommitted(&mut self) -> Vec<Self::Event>;
}

/// One stored record.
#[derive(Debug)]
pub struct EventEnvelope<T> {
    pub aggregate_id: u128,
    pub sequence: EventVersion,
    pub event_type: String,
    pub payload: T,
    pub metadata: EventMetadata,
    pub timestamp_ms: i64,
}

/// `b` is a copy of `a`: the same fields, the payload cloned.
pub open spec fn copy_of<T: Clone>(a: EventEnvelope<T>, b: EventEnvelope<T>) -> bool {
    &&& b.aggregate_id == a.aggregate_id
    &&& b.sequence == a.sequence
    &&& b.event_type == a.event_type
    &&& cloned(a.payload, b.payload)
    &&& b.metadata == a.metadata
    &&& b.timestamp_ms == a.timestamp_ms
}

fn copy_envelope<T: Clone>(e: &EventEnvelope<T>) -> (r: EventEnvelope<T>)
    ensures
        copy_of(*e, r),
{
    EventEnvelope {
        aggregate_id: e.aggregate_id,
        sequence: e.sequence,
        event_type: e.event_type.clone(),
        payload: e.payload.clone(),
        metadata: e.metadata,
        timestamp_ms: e.timestamp_ms,
    }
}

/// The in-memory log.
pub struct InMemoryEventStore<T> {
    streams: HashMap<u128, Vec<EventEnvelope<T>>>,
}

impl<T> InMemoryEventStore<T> {
    /// The records of `id`, in order; none when nothing was appended for it.
    pub closed spec fn stream(&self, id: u128) -> Seq<EventEnvelope<T>> {
        if self.streams@.contains_key(id) {
            self.streams@[id]@
        } else {
            Seq::empty()
        }
    }

    /// Every record sits under its own aggregate, numbered from 1 by position.
    pub open spec fn wf(&self) -> bool {
        forall|id: u128, i: int|
            0 <= i < self.stream(id).len() ==> (#[trigger] self.stream(id)[i]).aggregate_id == id
                && self.stream(id)[i].sequence == i + 1
    }

    /// An empty log.
    pub fn new() -> (r: Self)
        ensures
            r.wf(),
            forall|id: u128| #[trigger] r.stream(id).len() == 0,
    {
        InMemoryEventStore { streams: HashMap::new() }
    }

    /// `after` is `before` with `events` appended for `id`, stamped with
    /// `metadata` and `timestamp`, numbered on from the last record of `id`;
    /// `created` holds copies of the new records; other aggregates are untouched.
    pub open spec fn appended(
        before: Self,
        after: Self,
        id: u128,
        events: Seq<(String, T)>,
        metadata: EventMetadata,
        timestamp: i64,
        created: Seq<EventEnvelope<T>>,
    ) -> bool where T: Clone {
        let b = before.stream(id);
        let a = after.stream(id);
        &&& a.len() == b.len() + events.len()
        &&& a.subrange(0, b.len() as int) == b
        &&& forall|i: int|
            0 <= i < events.len() ==> {
                let e = #[trigger] a[b.len() + i];
                &&& e.sequence == b.len() + i + 1
                &&& e.aggregate_id == id
                &&& e.event_type == events[i].0
                &&& e.payload == events[i].1
                &&& e.metadata == metadata
                &&& e.timestamp_ms == timestamp
            }
        &&& created.len() == events.len()
        &&& forall|i: int| 0 <= i < events.len() ==> copy_of(a[b.len() + i], #[trigger] created[i])
        &&& forall|other: u128| other != id ==> #[trigger] after.stream(other) == before.stream(other)
    }

    /// Appends the records `events` (type and payload) for `id`, stamped with
    /// `metadata` and `timestamp_ms`, numbering them on from the last record
    /// of `id`; gives copies of the new records. Other aggregates are untouched.
    pub fn append_at(
        &mut self,
        aggregate_id: u128,
        events: Vec<(String, T)>,
        metadata: EventMetadata,
        timestamp_ms: i64,
    ) -> (r: Vec<EventEnvelope<T>>) where T: Clone
        requires
            old(self).wf(),
            old(self).stream(aggregate_id).len() + events@.len() <= u64::MAX,
        ensures
            final(self).wf(),
            Self::appended(*old(self), *final(self), aggregate_id, events@, metadata, timestamp_ms, r@),
    {
        let ghost before = self.stream(aggregate_id);
        let ghost old_self = *self;
        let mut stream = match self.streams.remove(&aggregate_id) {
            Some(v) => v,
            None => Vec::new(),
        };
        assert(stream@ == before);
        let mut events = events;
        let ghost all = events@;
        assert(all.len() == events.len());
        let mut created: Vec<EventEnvelope<T>> = Vec::new();
        let mut i: usize = 0;
        while events.len() > 0
            invariant
                0 <= i <= all.len(),
                all.len() <= usize::MAX,
                events@ == all.subrange(i as int, all.len() as int),
                stream@.len() == before.len() + i,
                stream@.subrange(0, before.len() as int) == before,
                before.len() + all.len() <= u64::MAX,
                created@.len() == i,
                forall|j: int|
                    0 <= j < stream@.len() ==> (#[trigger] stream@[j]).sequence == j + 1
                        && stream@[j].aggregate_id == aggregate_id,
                forall|j: int|
                    0 <= j < i ==> {
                        let e = #[trigger] stream@[before.len() + j];
                        &&& e.event_type == all[j].0
                        &&& e.payload == all[j].1
                        &&& e.metadata == metadata
                        &&& e.timestamp_ms == timestamp_ms
                    },
                forall|j: int| 0 <= j < i ==> copy_of(stream@[before.len() + j], #[trigger] created@[j]),
                forall|id: u128, j: int|
                    0 <= j < old_self.stream(id).len() ==> (
                    #[trigger] old_self.stream(id)[j]).aggregate_id == id && old_self.stream(
                        id,
                    )[j].sequence == j + 1,
            decreases events.len(),
        {
            let ghost pending = events@;
            let (event_type, payload) = events.remove(0);
            let sequence: u64 = stream.len() as u64 + 1;
            let envelope = EventEnvelope {
                aggregate_id,
                sequence,
                event_type,
                payload,
                metadata,
                timestamp_ms,
            };
            let copy = copy_envelope(&envelope);
            stream.push(envelope);
            created.push(copy);
            assert(all[i as int] == pending[0]);
            assert(i < all.len());
            i = i + 1;
            assert(events@ =~= all.subrange(i as int, all.len() as int));
            assert(stream@.subrange(0, before.len() as int) =~= before);
        }
        self.streams.insert(aggregate_id, stream);
        assert forall|id: u128, j: int|
            0 <= j < self.stream(id).len() implies (#[trigger] self.stream(id)[j]).aggregate_id == id
                && self.stream(id)[j].sequence == j + 1 by {
            if id != aggregate_id {
                assert(self.stream(id) == old_self.stream(id));
            }
        }
        created
    }

    /// Copies of the records of `id`, in order.
    pub fn read_stream(&self, aggregate_id: u128) -> (r: Vec<EventEnvelope<T>>) where T: Clone
        ensures
            r@.len() == self.stream(aggregate_id).len(),
            forall|i: int|
                0 <= i < r@.len() ==> copy_of(self.stream(aggregate_id)[i], #[trigger] r@[i]),
    {
        let mut out: Vec<EventEnvelope<T>> = Vec::new();
        match self.streams.get(&aggregate_id) {
            Some(stream) => {
                let mut i: usize = 0;
                while i < stream.len()
                    invariant
                        i <= stream@.len(),
                        stream@ == self.stream(aggregate_id),
                        out@.len() == i,
                        forall|j: int| 0 <= j < i ==> copy_of(stream@[j], #[trigger] out@[j]),
                    decreases stream.len() - i,
                {
                    out.push(copy_envelope(&stream[i]));
                    i = i + 1;
                }
            },
            None => {},
        }
        out
    }
}

} // verus!
