//! The entity sink: where records go. The library calls it and never
//! implements it.

use vstd::prelude::*;
use crate::entity::{Entity, ValueView};

verus! {

/// A store of named records, which the application implements. Whether a
/// call of `save` succeeds is for the sink to decide.
pub trait EntitySink {
    /// What the sink reports when it cannot save a record.
    type Error;

    /// Saves `entity` under `entity_name`, or fails.
    fn save(&mut self, entity_name: String, entity: Entity) -> Result<(), Self::Error>;
}

/// One call of a sink: the name and the record that were handed over, and
/// what the sink answered.
pub struct SaveCall<E> {
    pub entity_name: Seq<char>,
    pub record: Map<Seq<char>, ValueView>,
    pub answer: Result<(), E>,
}

/// The handle through which the library reaches a sink. Every call of the
/// sink goes through `save`, and `calls` is the history of those calls.
pub struct SinkHandle<K: EntitySink> {
    sink: K,
    calls: Ghost<Seq<SaveCall<K::Error>>>,
}

impl<K: EntitySink> SinkHandle<K> {
    /// The calls made through the handle so far, oldest first.
    pub closed spec fn calls(&self) -> Seq<SaveCall<K::Error>> {
        self.calls@
    }

    /// The sink behind the handle.
    pub closed spec fn inner(&self) -> K {
        self.sink
    }

    /// A handle on `sink`, through which no call has been made.
    pub fn new(sink: K) -> (handle: SinkHandle<K>)
        ensures
            handle.calls() == Seq::<SaveCall<K::Error>>::empty(),
            handle.inner() == sink,
    {
        SinkHandle { sink, calls: Ghost(Seq::empty()) }
    }

    /// Hands `entity` to the sink under `entity_name`, once, and hands back
    /// what the sink answered.
    pub fn save(&mut self, entity_name: String, entity: Entity) -> (r: Result<(), K::Error>)
        ensures
            final(self).calls() == old(self).calls().push(
                (SaveCall { entity_name: entity_name@, record: entity@, answer: r }),
            ),
    {
        let ghost name = entity_name@;
        let ghost record = entity@;
        let r = self.sink.save(entity_name, entity);
        proof {
            self.calls@ = self.calls@.push(SaveCall { entity_name: name, record, answer: r });
        }
        r
    }

    /// The sink behind the handle.
    pub fn sink(&self) -> (sink: &K)
        ensures
            *sink == self.inner(),
    {
        &self.sink
    }

    /// Gives the sink back.
    pub fn into_sink(self) -> (sink: K)
        ensures
            sink == self.inner(),
    {
        self.sink
    }
}

/// What a record can do with a sink.
pub trait EntityExt {
    /// The record as a mapping.
    spec fn attributes(&self) -> Map<Seq<char>, ValueView>;

    /// Saves a copy of the record under `entity_name`: one call of the sink,
    /// whose answer is handed back.
    fn save<K: EntitySink>(&self, sink: &mut SinkHandle<K>, entity_name: &str) -> (r: Result<
        (),
        K::Error,
    >)
        ensures
            final(sink).calls() == old(sink).calls().push(
                (SaveCall { entity_name: entity_name@, record: self.attributes(), answer: r }),
            ),
    ;
}

impl EntityExt for Entity {
    open spec fn attributes(&self) -> Map<Seq<char>, ValueView> {
        self@
    }

    fn save<K: EntitySink>(&self, sink: &mut SinkHandle<K>, entity_name: &str) -> (r: Result<
        (),
        K::Error,
    >) {
        sink.save(entity_name.to_owned(), self.clone())
    }
}

} // verus!
