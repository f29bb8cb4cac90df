//! What the gateway loop does with what a shard receives.

use vstd::prelude::*;

use twilight_cache_inmemory::InMemoryCache;
use twilight_model::id::Id;

verus! {

/// The in-memory cache of what the gateway has seen, messages among it.
#[verifier::external_type_specification]
#[verifier::external_body]
pub struct ExInMemoryCache(InMemoryCache);

/// The events the loop tells apart.
pub enum GatewayEvent {
    /// A slash command or another interaction.
    InteractionCreate,
    /// The message with this (non-zero) id was deleted.
    MessageDelete(u64),
    /// Any other event.
    Other,
}

/// What one attempt to receive from the shard gave.
pub enum ReceiveOutcome {
    /// An event other than the close of the gateway connection.
    Event(GatewayEvent),
    /// The gateway closed the connection.
    GatewayClose,
    /// Receiving failed in a way the shard cannot recover from.
    FatalError,
    /// Receiving failed in a way the shard recovers from.
    Error,
}

/// What the loop does next.
pub enum LoopControl {
    /// Leave the loop.
    Stop,
    /// Receive again.
    Continue,
    /// Handle the event, then receive again.
    Handle(GatewayEvent),
}

/// The loop's decision: a close of the connection ends the loop only while
/// the process shuts down, a fatal error ends it, any other error is skipped,
/// and every other event is handled.
pub open spec fn loop_control(outcome: ReceiveOutcome, shutting_down: bool) -> LoopControl {
    match outcome {
        ReceiveOutcome::Event(e) => LoopControl::Handle(e),
        ReceiveOutcome::GatewayClose => if shutting_down { LoopControl::Stop } else { LoopControl::Continue },
        ReceiveOutcome::FatalError => LoopControl::Stop,
        ReceiveOutcome::Error => LoopControl::Continue,
    }
}

/// Decides what the loop does after receiving `outcome`.
pub fn next_loop_control(outcome: ReceiveOutcome, shutting_down: bool) -> (c: LoopControl)
    ensures
        c == loop_control(outcome, shutting_down),
        outcome matches ReceiveOutcome::Event(e) ==> c == LoopControl::Handle(e),
{
    match outcome {
        ReceiveOutcome::Event(e) => LoopControl::Handle(e),
        ReceiveOutcome::GatewayClose => if shutting_down { LoopControl::Stop } else { LoopControl::Continue },
        ReceiveOutcome::FatalError => LoopControl::Stop,
        ReceiveOutcome::Error => LoopControl::Continue,
    }
}

/// A piece of work the loop does for an event.
pub enum EventTask {
    /// Apply the event to the cache.
    UpdateCache,
    /// Hand the interaction to the command framework.
    ProcessInteraction,
    /// Report the deleted message with this id, from what the cache holds.
    HandleMessageDelete(u64),
}

/// The work for each event, in order. A deletion is reported before the
/// cache applies it, while the cache still holds the message.
pub open spec fn tasks_for(event: GatewayEvent) -> Seq<EventTask> {
    match event {
        GatewayEvent::InteractionCreate => seq![EventTask::UpdateCache, EventTask::ProcessInteraction],
        GatewayEvent::MessageDelete(id) => seq![EventTask::HandleMessageDelete(id), EventTask::UpdateCache],
        GatewayEvent::Other => seq![EventTask::UpdateCache],
    }
}

/// The work to do for an event, in order.
pub fn event_tasks(event: &GatewayEvent) -> (tasks: Vec<EventTask>)
    ensures
        tasks@ == tasks_for(*event),
{
    let tasks = match event {
        GatewayEvent::InteractionCreate => vec![EventTask::UpdateCache, EventTask::ProcessInteraction],
        GatewayEvent::MessageDelete(id) => vec![EventTask::HandleMessageDelete(*id), EventTask::UpdateCache],
        GatewayEvent::Other => vec![EventTask::UpdateCache],
    };
    assert(tasks@ =~= tasks_for(*event));
    tasks
}

/// Every handled event is applied to the cache exactly once; only a message
/// deletion is reported, for the deleted message, and before the cache applies
/// the deletion; only an interaction goes to the command framework.
pub proof fn law_event_tasks(event: GatewayEvent)
    ensures
        ({
            let t = tasks_for(event);
            &&& exists|i: int| 0 <= i < t.len() && t[i] == EventTask::UpdateCache
            &&& forall|i: int, j: int| 0 <= i < t.len() && 0 <= j < t.len() && t[i] == EventTask::UpdateCache
                && t[j] == EventTask::UpdateCache ==> i == j
            &&& (exists|i: int| 0 <= i < t.len() && t[i] is ProcessInteraction) <==> event is InteractionCreate
            &&& forall|i: int, id: u64| 0 <= i < t.len() && t[i] == EventTask::HandleMessageDelete(id) ==> {
                &&& event == GatewayEvent::MessageDelete(id)
                &&& forall|j: int| 0 <= j < t.len() && t[j] == EventTask::UpdateCache ==> i < j
            }
            &&& (event is MessageDelete ==> t[0] is HandleMessageDelete)
        }),
{
    let t = tasks_for(event);
    match event {
        GatewayEvent::InteractionCreate => {
            assert(t[0] == EventTask::UpdateCache);
            assert(t[1] is ProcessInteraction);
        },
        GatewayEvent::MessageDelete(_) => assert(t[1] == EventTask::UpdateCache),
        GatewayEvent::Other => assert(t[0] == EventTask::UpdateCache),
    }
}

/// The shard's loop never ends on an event it can handle, nor on an error it
/// can recover from; it ends on a fatal error, and on the close of the
/// connection exactly when the process shuts down.
pub proof fn law_loop_stops(outcome: ReceiveOutcome, shutting_down: bool)
    ensures
        (loop_control(outcome, shutting_down) is Stop) <==> (outcome is FatalError || (outcome is GatewayClose && shutting_down)),
{
}

/// Every event the shard delivers is handled, whatever the shutdown flag:
/// receiving an event never stops or skips the loop, and the loop handles
/// nothing but a received event.
pub proof fn law_events_are_handled(outcome: ReceiveOutcome, e: GatewayEvent, shutting_down: bool)
    ensures
        loop_control(ReceiveOutcome::Event(e), shutting_down) == LoopControl::Handle(e),
        loop_control(outcome, shutting_down) matches LoopControl::Handle(h) ==> outcome == ReceiveOutcome::Event(h),
        (outcome is Error || (outcome is GatewayClose && !shutting_down))
            ==> loop_control(outcome, shutting_down) is Continue,
{
}

/// What is reported of a deleted message.
pub enum MessageDeleteReport {
    /// The cache held the message, with this content.
    Deleted { message_id: u64, content: String },
    /// The cache did not hold the message.
    NotCached { message_id: u64 },
}

/// Reports a deleted message from what the cache held of it.
pub fn message_delete_report(message_id: u64, content: Option<String>) -> (r: MessageDeleteReport)
    ensures
        match content {
            Some(c) => r matches MessageDeleteReport::Deleted { message_id: m, content: c2 } && m == message_id && c2@ == c@,
            None => r == (MessageDeleteReport::NotCached { message_id }),
        },
{
    match content {
        Some(c) => MessageDeleteReport::Deleted { message_id, content: c },
        None => MessageDeleteReport::NotCached { message_id },
    }
}

/// The contents of the cached messages: each cached message id with the
/// message's content.
pub uninterp spec fn cached_contents(cache: InMemoryCache) -> Map<u64, Seq<char>>;

/// Calls `InMemoryCache::message` with `Id::new(message_id)`, a lookup in the
/// cache's message map, and copies the content of the cached message
/// (`CachedMessage::content`). Trusted: the result is the content the cache
/// holds for the id, or `None` when it holds no such message. `Id::new` panics
/// on zero, which `requires` rules out.
#[verifier::external_body]
fn cached_message_content(cache: &InMemoryCache, message_id: u64) -> (content: Option<String>)
    requires
        message_id != 0,
    ensures
        content is Some <==> cached_contents(*cache).contains_key(message_id),
        content matches Some(c) ==> c@ == cached_contents(*cache)[message_id],
{
    cache.message(Id::new(message_id)).map(|message| message.content().to_owned())
}

/// Looks a deleted message up in the cache and reports it: with its content
/// when the cache holds it, as not cached otherwise.
pub fn handle_message_delete_events(message_id: u64, cache: &InMemoryCache) -> (r: MessageDeleteReport)
    requires
        message_id != 0,
    ensures
        match r {
            MessageDeleteReport::Deleted { message_id: m, content: c } => {
                &&& m == message_id
                &&& cached_contents(*cache).contains_key(message_id)
                &&& c@ == cached_contents(*cache)[message_id]
            },
            MessageDeleteReport::NotCached { message_id: m } => {
                &&& m == message_id
                &&& !cached_contents(*cache).contains_key(message_id)
            },
        },
{
    let content = cached_message_content(cache, message_id);
    message_delete_report(message_id, content)
}

} // verus!
