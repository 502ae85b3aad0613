//! The command handler: from one event to one action.
//!
//! The handler inspects an event and decides exactly one action: send a
//! fixed reply to the originating channel when the message text equals a
//! trigger string exactly, log the shard identifier when a shard came up,
//! or do nothing. Matching is literal: no trimming, no case folding.

use vstd::prelude::*;
use crate::envelope::MessageEnvelope;
use crate::event::{GatewayEvent, MessageRecord};
use crate::replies::{
    is_salvation_envelope, is_trinity_envelope, salvation_envelope, salvation_description,
    salvation_title, trinity_description, trinity_envelope,
};

verus! {

/// The trigger text of the trinity reply.
pub open spec fn trinity_trigger() -> Seq<char> {
    "!trinity"@
}

/// The trigger text of the salvation reply.
pub open spec fn salvation_trigger() -> Seq<char> {
    "!salvation"@
}

/// What the handler asks its surroundings to do for one event.
pub enum Action {
    /// Send the envelope to the channel.
    Send { channel_id: u64, envelope: MessageEnvelope },
    /// Emit an operational log line for the shard that connected.
    Log { shard_id: u64 },
    /// Do nothing.
    Ignore,
}

/// The handler's decision, abstracted from the envelope contents.
pub enum Decision {
    SendTrinity { channel_id: u64 },
    SendSalvation { channel_id: u64 },
    LogConnected { shard_id: u64 },
    Ignore,
}

/// The decision the handler owes for an event arrived on a shard: the
/// guards are exact string equality of the message text with a trigger,
/// first the trinity trigger, then the salvation trigger.
pub open spec fn spec_decide(shard_id: u64, event: GatewayEvent) -> Decision {
    match event {
        GatewayEvent::MessageCreated(m) => if m.content@ == trinity_trigger() {
            Decision::SendTrinity { channel_id: m.channel_id }
        } else if m.content@ == salvation_trigger() {
            Decision::SendSalvation { channel_id: m.channel_id }
        } else {
            Decision::Ignore
        },
        GatewayEvent::ShardConnected => Decision::LogConnected { shard_id },
        GatewayEvent::Other => Decision::Ignore,
    }
}

/// The action carries out the decision: the right envelope to the right
/// channel, the right shard in the log, nothing otherwise.
pub open spec fn action_matches_decision(a: Action, d: Decision) -> bool {
    match d {
        Decision::SendTrinity { channel_id } => a matches Action::Send {
            channel_id: c,
            envelope,
        } && c == channel_id && is_trinity_envelope(envelope),
        Decision::SendSalvation { channel_id } => a matches Action::Send {
            channel_id: c,
            envelope,
        } && c == channel_id && is_salvation_envelope(envelope),
        Decision::LogConnected { shard_id } => a == (Action::Log { shard_id }),
        Decision::Ignore => a is Ignore,
    }
}

/// Decides whether the message text equals the trigger exactly.
fn content_is(content: &String, trigger: &str) -> (r: bool)
    ensures
        r == (content@ == trigger@),
{
    let t: String = trigger.to_owned();
    *content == t
}

/// Handles one event arrived on a shard: returns the one action owed for
/// it, per [`spec_decide`].
pub fn handle(shard_id: u64, event: &GatewayEvent) -> (a: Action)
    ensures
        action_matches_decision(a, spec_decide(shard_id, *event)),
{
    match event {
        GatewayEvent::MessageCreated(m) => {
            if content_is(&m.content, "!trinity") {
                Action::Send { channel_id: m.channel_id, envelope: trinity_envelope() }
            } else if content_is(&m.content, "!salvation") {
                Action::Send { channel_id: m.channel_id, envelope: salvation_envelope() }
            } else {
                Action::Ignore
            }
        },
        GatewayEvent::ShardConnected => Action::Log { shard_id },
        GatewayEvent::Other => Action::Ignore,
    }
}

/// Law: a message-creation event whose text is exactly the trinity
/// trigger decides exactly one send, to the originating channel, with an
/// envelope whose color is `0x00D68717` and whose description is the
/// fixed trinity text.
pub proof fn lemma_trinity_trigger_sends(shard_id: u64, m: MessageRecord, a: Action)
    requires
        m.content@ == trinity_trigger(),
        action_matches_decision(a, spec_decide(shard_id, GatewayEvent::MessageCreated(m))),
    ensures
        a matches Action::Send { channel_id, envelope } && channel_id == m.channel_id
            && envelope.color == Some(0x00D6_8717u32) && (envelope.description matches Some(d)
            && d@ == trinity_description()),
{
}

/// Law: a message-creation event whose text is exactly the salvation
/// trigger decides exactly one send, to the originating channel, with an
/// envelope whose title is `We are saved through faith` and whose
/// description is the fixed salvation text.
pub proof fn lemma_salvation_trigger_sends(shard_id: u64, m: MessageRecord, a: Action)
    requires
        m.content@ == salvation_trigger(),
        action_matches_decision(a, spec_decide(shard_id, GatewayEvent::MessageCreated(m))),
    ensures
        a matches Action::Send { channel_id, envelope } && channel_id == m.channel_id
            && (envelope.title matches Some(t) && t@ == salvation_title()) && (
        envelope.description matches Some(d) && d@ == salvation_description()),
{
    reveal_strlit("!trinity");
    reveal_strlit("!salvation");
    assert(trinity_trigger().len() == 8);
    assert(salvation_trigger().len() == 10);
    assert(salvation_trigger() != trinity_trigger());
}

/// Law: an event whose text equals neither trigger exactly — case
/// variants, added whitespace and partial matches included — decides no
/// send, whatever the event kind.
pub proof fn lemma_no_trigger_no_send(shard_id: u64, event: GatewayEvent, a: Action)
    requires
        event matches GatewayEvent::MessageCreated(m) ==> m.content@ != trinity_trigger()
            && m.content@ != salvation_trigger(),
        action_matches_decision(a, spec_decide(shard_id, event)),
    ensures
        !(a is Send),
{
}

/// Law: a shard-connected event decides a log emission carrying the very
/// shard identifier the event arrived on, and never a send.
pub proof fn lemma_shard_connected_logs(shard_id: u64, a: Action)
    requires
        action_matches_decision(a, spec_decide(shard_id, GatewayEvent::ShardConnected)),
    ensures
        a == (Action::Log { shard_id }),
        !(a is Send),
{
}

} // verus!
