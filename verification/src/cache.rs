//! The state cache: an in-memory map fed from the event stream.
//!
//! The cache retains message resources only: a message-creation event
//! inserts or replaces the entry keyed by the message identifier, every
//! other event kind is a no-op. Entries are never evicted. The cache is
//! populated by the dispatcher and read through [`StateCache::get`].

use vstd::prelude::*;
use std::collections::HashMap;
use crate::event::GatewayEvent;

verus! {

broadcast use vstd::std_specs::hash::group_hash_axioms;

/// The subset of a message's fields the cache retains.
pub struct CacheEntry {
    /// The channel the message was posted in.
    pub channel_id: u64,
    /// The message's text content.
    pub content: String,
}

/// An in-memory map from message identifier to retained fields.
pub struct StateCache {
    entries: HashMap<u64, CacheEntry>,
}

/// The cache contents after one event: a message-creation event inserts
/// or replaces the entry keyed by the message identifier; every other
/// event leaves the cache unchanged.
pub open spec fn cache_after(m: Map<u64, CacheEntry>, event: GatewayEvent) -> Map<
    u64,
    CacheEntry,
> {
    match event {
        GatewayEvent::MessageCreated(rec) => m.insert(
            rec.id,
            CacheEntry { channel_id: rec.channel_id, content: rec.content },
        ),
        _ => m,
    }
}

impl View for StateCache {
    type V = Map<u64, CacheEntry>;

    closed spec fn view(&self) -> Map<u64, CacheEntry> {
        self.entries@
    }
}

impl StateCache {
    /// An empty cache.
    pub fn new() -> (c: Self)
        ensures
            c@ == Map::<u64, CacheEntry>::empty(),
    {
        StateCache { entries: HashMap::new() }
    }

    /// Feeds one event to the cache, per [`cache_after`].
    pub fn update(&mut self, event: &GatewayEvent)
        ensures
            final(self)@ == cache_after(old(self)@, *event),
    {
        match event {
            GatewayEvent::MessageCreated(rec) => {
                let entry = CacheEntry { channel_id: rec.channel_id, content: rec.content.clone() };
                self.entries.insert(rec.id, entry);
            },
            _ => {},
        }
    }

    /// Looks a message up by its identifier.
    pub fn get(&self, id: u64) -> (r: Option<&CacheEntry>)
        ensures
            match r {
                Some(e) => self@.contains_key(id) && *e == self@[id],
                None => !self@.contains_key(id),
            },
    {
        self.entries.get(&id)
    }

    /// How many messages the cache holds.
    pub fn len(&self) -> (n: usize)
        ensures
            n == self@.len(),
    {
        self.entries.len()
    }
}

} // verus!
