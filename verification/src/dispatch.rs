//! The dispatch step: what the event loop does per received event.
//!
//! For each `(shard, event)` pair the loop receives, the dispatcher first
//! feeds the event to the state cache, then decides the handler action.
//! [`dispatch`] performs both in that order and returns the action, which
//! the loop hands to a concurrently running task; so by the time any
//! handler task exists, the cache already reflects its event.

use vstd::prelude::*;
use crate::cache::{cache_after, CacheEntry, StateCache};
use crate::event::{GatewayEvent, MessageRecord};
use crate::handler::{action_matches_decision, handle, spec_decide, Action};

verus! {

/// Runs one iteration of the event loop's work on a received event:
/// updates the cache, then decides the action the handler owes.
pub fn dispatch(cache: &mut StateCache, shard_id: u64, event: &GatewayEvent) -> (a: Action)
    ensures
        final(cache)@ == cache_after(old(cache)@, *event),
        action_matches_decision(a, spec_decide(shard_id, *event)),
{
    cache.update(event);
    handle(shard_id, event)
}

/// Law: for every message-creation event, the cache a handler task could
/// observe — the cache as it stands when the action is decided, after the
/// update — already holds that event's entry, whether or not a trigger
/// matched; and no other entry is touched.
pub proof fn lemma_cache_updated_before_handling(m0: Map<u64, CacheEntry>, rec: MessageRecord)
    ensures
        cache_after(m0, GatewayEvent::MessageCreated(rec)).contains_key(rec.id),
        cache_after(m0, GatewayEvent::MessageCreated(rec))[rec.id].channel_id == rec.channel_id,
        cache_after(m0, GatewayEvent::MessageCreated(rec))[rec.id].content == rec.content,
        forall|k: u64|
            k != rec.id ==> cache_after(m0, GatewayEvent::MessageCreated(rec)).contains_key(k)
                == m0.contains_key(k),
        forall|k: u64|
            k != rec.id && m0.contains_key(k) ==> cache_after(
                m0,
                GatewayEvent::MessageCreated(rec),
            )[k] == m0[k],
{
}

} // verus!
