use guild_log::commands::{
    default_channel_config, default_channel_message, deferred_response, hello_response, pong_message, ResponseKind,
};
use guild_log::decimal::to_decimal;

#[test]
fn hello_answers_right_away() {
    let r = hello_response();
    assert!(r.kind == ResponseKind::ChannelMessageWithSource);
    assert_eq!(r.content.as_deref(), Some("Hello world"));
}

#[test]
fn deferred_response_has_no_content() {
    let r = deferred_response();
    assert!(r.kind == ResponseKind::DeferredChannelMessageWithSource);
    assert!(r.content.is_none());
}

#[test]
fn pong_reports_latency() {
    assert_eq!(pong_message(42), "🏓 | Pong! Latency: 42 ms");
    assert_eq!(pong_message(0), "🏓 | Pong! Latency: 0 ms");
}

#[test]
fn decimal_text_matches_display() {
    for n in [0u128, 7, 10, 99, 100, 1234567890, u64::MAX as u128, u128::MAX] {
        assert_eq!(to_decimal(n), n.to_string());
    }
}

#[test]
fn default_channel_config_stores_ids_as_text() {
    let v = default_channel_config(81384788765712384, 1000);
    assert_eq!(v.guild_id, "81384788765712384");
    assert_eq!(v.default_channel_id, "1000");
}

#[test]
fn default_channel_message_confirms_with_mention() {
    assert_eq!(
        default_channel_message(1234, &Ok(())),
        "Now default logging channel set to <#1234>"
    );
}

#[test]
fn default_channel_message_reports_error() {
    assert_eq!(
        default_channel_message(1234, &Err("pool timed out".to_string())),
        "Failed to set the default logging channel. Error: pool timed out"
    );
}
