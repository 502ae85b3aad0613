//! The event model: what the gateway delivers to the dispatcher.
//!
//! Each incoming occurrence is a tagged variant; the library only
//! distinguishes the variants its logic reads. Identifiers are carried as
//! plain integers, the message text as a plain string.

use vstd::prelude::*;

verus! {

/// The fields of a newly created message that the bot reads.
pub struct MessageRecord {
    /// The message's own identifier.
    pub id: u64,
    /// The channel the message was posted in, and where a reply goes.
    pub channel_id: u64,
    /// The message's text content.
    pub content: String,
}

/// One occurrence delivered by the gateway.
pub enum GatewayEvent {
    /// A message was created.
    MessageCreated(MessageRecord),
    /// A shard connection came up.
    ShardConnected,
    /// Any other gateway occurrence; the bot ignores these.
    Other,
}

} // verus!
