//! Which actor last did something to a buffer.
//!
//! When a plugin or a peer is about to add, edit or remove a buffer, it
//! records itself here; the callback that Neovim then fires takes the record
//! back, so that the event carries the actor that caused it. An event that
//! nobody recorded is attributed to the unknown actor.

use vstd::prelude::*;

use crate::ids::{ActorId, BufferId};

verus! {

#[verifier::external_type_specification]
#[verifier::external_body]
#[verifier::reject_recursive_types(T)]
pub struct ExNoHashHasher<T>(nohash::NoHashHasher<T>);

#[verifier::external_type_specification]
#[verifier::external_body]
#[verifier::reject_recursive_types(H)]
pub struct ExBuildHasherDefault<H>(std::hash::BuildHasherDefault<H>);

/// The map behind the registry: buffer handles to actors, hashed by value.
pub type ActorIntMap = nohash::IntMap<i32, ActorId>;

/// The map with no record.
pub open spec fn no_records() -> Map<i32, ActorId> {
    Map::empty()
}

/// `nohash::IntMap::default`: an empty map.
#[verifier::external_body]
pub(crate) fn int_map_new() -> (records: ActorIntMap)
    ensures
        records@ == no_records(),
{
    nohash::IntMap::default()
}

/// `HashMap::insert` on a `nohash::IntMap`: maps `key` to `value`, replacing
/// any earlier value.
#[verifier::external_body]
fn int_map_insert(records: &mut ActorIntMap, key: i32, value: ActorId)
    ensures
        final(records)@ == old(records)@.insert(key, value),
{
    records.insert(key, value);
}

/// `HashMap::remove` on a `nohash::IntMap`: removes `key` and returns its
/// value, if it had one.
#[verifier::external_body]
fn int_map_remove(records: &mut ActorIntMap, key: i32) -> (value: Option<ActorId>)
    ensures
        value == if old(records)@.contains_key(key) {
            Some(old(records)@[key])
        } else {
            None::<ActorId>
        },
        final(records)@ == old(records)@.remove(key),
{
    records.remove(&key)
}

/// For each buffer, the actor that last recorded itself for it.
pub struct ActorRegistry {
    map: ActorIntMap,
}

impl View for ActorRegistry {
    type V = Map<i32, ActorId>;

    closed spec fn view(&self) -> Map<i32, ActorId> {
        self.map@
    }
}

/// The actor recorded in `registry` for `buffer`, or the unknown actor.
pub open spec fn recorded_actor(registry: Map<i32, ActorId>, buffer: BufferId) -> ActorId {
    if registry.contains_key(buffer.handle) {
        registry[buffer.handle]
    } else {
        ActorId::spec_unknown()
    }
}

impl ActorRegistry {
    /// A registry with no record.
    pub fn new() -> (registry: ActorRegistry)
        ensures
            registry@ == Map::<i32, ActorId>::empty(),
    {
        ActorRegistry { map: int_map_new() }
    }

    /// Records `actor` as the last one to act on `buffer`, replacing any
    /// earlier record.
    pub fn record(&mut self, buffer: BufferId, actor: ActorId)
        ensures
            final(self)@ == old(self)@.insert(buffer.handle, actor),
    {
        int_map_insert(&mut self.map, buffer.handle, actor);
    }

    /// Takes back the actor recorded for `buffer`, or the unknown actor when
    /// there is none. The record is gone afterwards.
    pub fn take(&mut self, buffer: BufferId) -> (actor: ActorId)
        ensures
            actor == recorded_actor(old(self)@, buffer),
            final(self)@ == old(self)@.remove(buffer.handle),
    {
        match int_map_remove(&mut self.map, buffer.handle) {
            Some(actor) => actor,
            None => ActorId::unknown(),
        }
    }
}

/// The actors that last added and last edited each buffer.
pub struct ActorMap {
    buffer_addition: ActorRegistry,
    edit: ActorRegistry,
}

impl ActorMap {
    /// The actors recorded as having added each buffer.
    pub closed spec fn additions(&self) -> Map<i32, ActorId> {
        self.buffer_addition@
    }

    /// The actors recorded as having edited each buffer.
    pub closed spec fn edits(&self) -> Map<i32, ActorId> {
        self.edit@
    }

    /// A map with no record.
    pub fn new() -> (map: ActorMap)
        ensures
            map.additions() == Map::<i32, ActorId>::empty(),
            map.edits() == Map::<i32, ActorId>::empty(),
    {
        ActorMap { buffer_addition: ActorRegistry::new(), edit: ActorRegistry::new() }
    }

    /// Records `actor` as the last one to add `buffer`.
    pub fn added_buffer(&mut self, buffer: BufferId, actor: ActorId)
        ensures
            final(self).additions() == old(self).additions().insert(buffer.handle, actor),
            final(self).edits() == old(self).edits(),
    {
        self.buffer_addition.record(buffer, actor);
    }

    /// Records `actor` as the last one to edit `buffer`.
    pub fn edited_buffer(&mut self, buffer: BufferId, actor: ActorId)
        ensures
            final(self).edits() == old(self).edits().insert(buffer.handle, actor),
            final(self).additions() == old(self).additions(),
    {
        self.edit.record(buffer, actor);
    }

    /// Takes back the actor that last added `buffer`, or the unknown actor.
    pub fn take_added_buffer(&mut self, buffer: BufferId) -> (actor: ActorId)
        ensures
            actor == recorded_actor(old(self).additions(), buffer),
            final(self).additions() == old(self).additions().remove(buffer.handle),
            final(self).edits() == old(self).edits(),
    {
        self.buffer_addition.take(buffer)
    }

    /// Takes back the actor that last edited `buffer`, or the unknown actor.
    pub fn take_edited_buffer(&mut self, buffer: BufferId) -> (actor: ActorId)
        ensures
            actor == recorded_actor(old(self).edits(), buffer),
            final(self).edits() == old(self).edits().remove(buffer.handle),
            final(self).additions() == old(self).additions(),
    {
        self.edit.take(buffer)
    }
}

} // verus!
