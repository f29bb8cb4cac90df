use guild_log::events::{
    event_tasks, handle_message_delete_events, message_delete_report, next_loop_control, EventTask, GatewayEvent,
    LoopControl, MessageDeleteReport, ReceiveOutcome,
};
use twilight_cache_inmemory::InMemoryCache;
use twilight_model::channel::message::MessageType;
use twilight_model::channel::Message;
use twilight_model::gateway::event::Event;
use twilight_model::gateway::payload::incoming::{MessageCreate, MessageDelete};
use twilight_model::id::Id;
use twilight_model::user::User;
use twilight_model::util::Timestamp;

#[test]
fn close_stops_only_when_shutting_down() {
    assert!(matches!(next_loop_control(ReceiveOutcome::GatewayClose, true), LoopControl::Stop));
    assert!(matches!(next_loop_control(ReceiveOutcome::GatewayClose, false), LoopControl::Continue));
}

#[test]
fn fatal_error_stops_and_other_errors_continue() {
    assert!(matches!(next_loop_control(ReceiveOutcome::FatalError, false), LoopControl::Stop));
    assert!(matches!(next_loop_control(ReceiveOutcome::Error, true), LoopControl::Continue));
}

#[test]
fn events_are_handled() {
    let c = next_loop_control(ReceiveOutcome::Event(GatewayEvent::MessageDelete(9)), true);
    assert!(matches!(c, LoopControl::Handle(GatewayEvent::MessageDelete(9))));
    let c = next_loop_control(ReceiveOutcome::Event(GatewayEvent::Other), false);
    assert!(matches!(c, LoopControl::Handle(GatewayEvent::Other)));
}

#[test]
fn interaction_updates_cache_then_runs_command() {
    let t = event_tasks(&GatewayEvent::InteractionCreate);
    assert_eq!(t.len(), 2);
    assert!(matches!(t[0], EventTask::UpdateCache));
    assert!(matches!(t[1], EventTask::ProcessInteraction));
}

#[test]
fn deletion_is_reported_before_cache_update() {
    let t = event_tasks(&GatewayEvent::MessageDelete(77));
    assert_eq!(t.len(), 2);
    assert!(matches!(t[0], EventTask::HandleMessageDelete(77)));
    assert!(matches!(t[1], EventTask::UpdateCache));
}

#[test]
fn other_events_only_update_cache() {
    let t = event_tasks(&GatewayEvent::Other);
    assert_eq!(t.len(), 1);
    assert!(matches!(t[0], EventTask::UpdateCache));
}

#[test]
fn report_of_cached_message_has_content() {
    match message_delete_report(5, Some("bye".to_string())) {
        MessageDeleteReport::Deleted { message_id, content } => {
            assert_eq!(message_id, 5);
            assert_eq!(content, "bye");
        }
        MessageDeleteReport::NotCached { .. } => panic!("expected a deleted message"),
    }
    assert!(matches!(message_delete_report(6, None), MessageDeleteReport::NotCached { message_id: 6 }));
}

#[test]
fn unknown_message_is_not_cached() {
    let cache = InMemoryCache::new();
    let r = handle_message_delete_events(1234, &cache);
    assert!(matches!(r, MessageDeleteReport::NotCached { message_id: 1234 }));
}

fn message(id: u64, content: &str) -> Message {
    let author = User {
        accent_color: None,
        avatar: None,
        avatar_decoration: None,
        banner: None,
        bot: false,
        discriminator: 1,
        email: None,
        flags: None,
        global_name: None,
        id: Id::new(3),
        locale: None,
        mfa_enabled: None,
        name: "someone".to_string(),
        premium_type: None,
        public_flags: None,
        system: None,
        verified: None,
    };
    Message {
        activity: None,
        application: None,
        application_id: None,
        attachments: Vec::new(),
        author,
        channel_id: Id::new(2),
        components: Vec::new(),
        content: content.to_string(),
        edited_timestamp: None,
        embeds: Vec::new(),
        flags: None,
        guild_id: None,
        id: Id::new(id),
        interaction: None,
        kind: MessageType::Regular,
        member: None,
        mention_channels: Vec::new(),
        mention_everyone: false,
        mention_roles: Vec::new(),
        mentions: Vec::new(),
        pinned: false,
        reactions: Vec::new(),
        reference: None,
        referenced_message: None,
        role_subscription_data: None,
        sticker_items: Vec::new(),
        timestamp: Timestamp::from_secs(1_700_000_000).unwrap(),
        thread: None,
        tts: false,
        webhook_id: None,
    }
}

#[test]
fn cached_message_is_reported_with_content_until_cache_applies_deletion() {
    let cache = InMemoryCache::new();
    cache.update(&Event::MessageCreate(Box::new(MessageCreate(message(77, "see you")))));
    match handle_message_delete_events(77, &cache) {
        MessageDeleteReport::Deleted { message_id, content } => {
            assert_eq!(message_id, 77);
            assert_eq!(content, "see you");
        }
        MessageDeleteReport::NotCached { .. } => panic!("the cache holds the message"),
    }
    cache.update(&Event::MessageDelete(MessageDelete { channel_id: Id::new(2), guild_id: None, id: Id::new(77) }));
    assert!(matches!(handle_message_delete_events(77, &cache), MessageDeleteReport::NotCached { message_id: 77 }));
}
