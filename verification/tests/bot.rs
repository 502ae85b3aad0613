use trinity_bot::cache::StateCache;
use trinity_bot::command::commands;
use trinity_bot::config::{getconf, ConfigError};
use trinity_bot::dispatch::dispatch;
use trinity_bot::envelope::{check_image_url, has_prefix, EnvelopeBuilder, EnvelopeError};
use trinity_bot::event::{GatewayEvent, MessageRecord};
use trinity_bot::handler::{handle, Action};
use trinity_bot::logline::{connection_log_line, u64_to_decimal};
use trinity_bot::replies::{salvation_envelope, trinity_envelope, REPLY_COLOR};

const TRINITY_ICON: &str = "https://previews.123rf.com/images/ivandbajo/ivandbajo1903/ivandbajo190300252/118779642-trinity-logo-design-inspiration-trinity-love-logo-isolated-on-white-background.jpg";

fn message(id: u64, channel_id: u64, content: &str) -> GatewayEvent {
    GatewayEvent::MessageCreated(MessageRecord {
        id,
        channel_id,
        content: content.to_owned(),
    })
}

#[test]
fn trinity_message_sends_trinity_envelope_to_origin_channel() {
    let action = handle(0, &message(10, 77, "!trinity"));
    match action {
        Action::Send {
            channel_id,
            envelope,
        } => {
            assert_eq!(channel_id, 77);
            assert_eq!(envelope.color, Some(0x00D6_8717));
            assert!(envelope
                .description
                .as_deref()
                .unwrap()
                .starts_with("Simply, the trinity is a core doctrine"));
            assert_eq!(envelope.title, None);
            assert_eq!(envelope.author_name.as_deref(), Some("Trinity"));
            assert_eq!(envelope.author_icon_url.as_deref(), Some(TRINITY_ICON));
            assert_eq!(envelope.thumbnail_url.as_deref(), Some(TRINITY_ICON));
            assert_eq!(envelope.footer_text.as_deref(), Some("AL Library"));
            assert_eq!(envelope.footer_icon_url.as_deref(), Some(TRINITY_ICON));
            assert_eq!(envelope.image_url, None);
        }
        _ => panic!("expected a send"),
    }
}

#[test]
fn salvation_message_sends_salvation_envelope() {
    let action = handle(0, &message(11, 5, "!salvation"));
    match action {
        Action::Send {
            channel_id,
            envelope,
        } => {
            assert_eq!(channel_id, 5);
            assert_eq!(
                envelope.title.as_deref(),
                Some("We are saved through faith")
            );
            assert_eq!(envelope.color, Some(0x00D6_8717));
            assert!(envelope
                .description
                .as_deref()
                .unwrap()
                .starts_with("Salvation is NOT by works"));
            assert!(envelope.image_url.as_deref().unwrap().starts_with("https://images-ext-1.discordapp.net/"));
            assert_eq!(envelope.author_name, None);
            assert_eq!(envelope.thumbnail_url, None);
            assert_eq!(envelope.footer_text, None);
        }
        _ => panic!("expected a send"),
    }
}

#[test]
fn plain_message_sends_nothing() {
    let action = handle(0, &message(12, 5, "hello"));
    assert!(matches!(action, Action::Ignore));
}

#[test]
fn near_misses_send_nothing() {
    for content in [
        "!trinity ",
        " !trinity",
        "!TRINITY",
        "!Trinity",
        "!trinit",
        "!trinityy",
        "!salvation ",
        "!SALVATION",
        "salvation",
        "",
    ] {
        let action = handle(0, &message(13, 5, content));
        assert!(matches!(action, Action::Ignore), "sent for {content:?}");
    }
}

#[test]
fn shard_connected_logs_the_shard_and_sends_nothing() {
    let action = handle(42, &GatewayEvent::ShardConnected);
    match action {
        Action::Log { shard_id } => assert_eq!(shard_id, 42),
        _ => panic!("expected a log emission"),
    }
}

#[test]
fn other_events_are_ignored() {
    let action = handle(0, &GatewayEvent::Other);
    assert!(matches!(action, Action::Ignore));
}

#[test]
fn dispatch_updates_cache_then_decides_send() {
    let mut cache = StateCache::new();
    let action = dispatch(&mut cache, 0, &message(100, 7, "!trinity"));
    assert!(matches!(action, Action::Send { channel_id: 7, .. }));
    // exactly the generic message-cache update, nothing more
    assert_eq!(cache.len(), 1);
    let entry = cache.get(100).unwrap();
    assert_eq!(entry.channel_id, 7);
    assert_eq!(entry.content, "!trinity");
}

#[test]
fn dispatch_caches_untriggered_messages_too() {
    let mut cache = StateCache::new();
    let action = dispatch(&mut cache, 0, &message(101, 8, "hello"));
    assert!(matches!(action, Action::Ignore));
    assert_eq!(cache.len(), 1);
    assert_eq!(cache.get(101).unwrap().content, "hello");
}

#[test]
fn cache_ignores_non_message_events() {
    let mut cache = StateCache::new();
    cache.update(&GatewayEvent::ShardConnected);
    cache.update(&GatewayEvent::Other);
    assert_eq!(cache.len(), 0);
    assert!(cache.get(1).is_none());
}

#[test]
fn cache_replaces_entry_with_same_id() {
    let mut cache = StateCache::new();
    cache.update(&message(7, 1, "first"));
    cache.update(&message(7, 2, "second"));
    assert_eq!(cache.len(), 1);
    let entry = cache.get(7).unwrap();
    assert_eq!(entry.channel_id, 2);
    assert_eq!(entry.content, "second");
}

#[test]
fn missing_token_is_a_fatal_configuration_error() {
    let r = getconf(None);
    match r {
        Err(ConfigError::MissingToken) => {}
        _ => panic!("expected the missing-token error"),
    }
    assert_eq!(
        ConfigError::MissingToken.message(),
        "the token is missing from the environment"
    );
}

#[test]
fn supplied_token_is_kept_verbatim() {
    let token = getconf(Some("example-token".to_owned())).unwrap();
    assert_eq!(token.token, "example-token");
}

#[test]
fn one_command_is_registered() {
    let v = commands();
    assert_eq!(v.len(), 1);
    assert_eq!(v[0].name, "trinity");
    assert_eq!(v[0].description, "Gets information abount the trinity.");
    assert!(v[0].option_names.is_empty());
}

#[test]
fn image_urls_require_a_supported_protocol() {
    assert!(check_image_url("https://example.com/a.jpg"));
    assert!(check_image_url("http://example.com/a.jpg"));
    assert!(check_image_url("https:"));
    assert!(!check_image_url("ftp://example.com/a.jpg"));
    assert!(!check_image_url("example.com/a.jpg"));
    assert!(!check_image_url(""));
    assert!(!check_image_url("HTTPS://example.com"));
}

#[test]
fn prefix_check_is_exact() {
    assert!(has_prefix("hello world", "hello"));
    assert!(has_prefix("hello", "hello"));
    assert!(!has_prefix("hell", "hello"));
    assert!(!has_prefix("hallo world", "hello"));
    assert!(has_prefix("übung", "üb"));
    assert!(!has_prefix("übung", "ub"));
}

#[test]
fn builder_rejects_bad_image_url() {
    let r = EnvelopeBuilder::new()
        .image("ftp://example.com/a.jpg".to_owned())
        .build();
    match r {
        Err(EnvelopeError::UnsupportedProtocol) => {}
        _ => panic!("expected the unsupported-protocol error"),
    }
    assert_eq!(
        EnvelopeError::UnsupportedProtocol.message(),
        "an image URL uses an unsupported protocol"
    );
}

#[test]
fn builder_rejects_zero_color() {
    let r = EnvelopeBuilder::new().color(0).build();
    match r {
        Err(EnvelopeError::ColorZero) => {}
        _ => panic!("expected the color-zero error"),
    }
    assert_eq!(
        EnvelopeError::ColorZero.message(),
        "the color may not be zero"
    );
}

#[test]
fn builder_rejects_color_beyond_rgb() {
    let r = EnvelopeBuilder::new().color(0x0100_0000).build();
    match r {
        Err(EnvelopeError::ColorNotRgb) => {}
        _ => panic!("expected the color-not-rgb error"),
    }
    assert_eq!(
        EnvelopeError::ColorNotRgb.message(),
        "the color is not a valid RGB value"
    );
}

#[test]
fn builder_keeps_the_given_parts() {
    let e = EnvelopeBuilder::new()
        .title("t".to_owned())
        .description("d".to_owned())
        .color(5)
        .author("a".to_owned(), "https://i".to_owned())
        .thumbnail("https://th".to_owned())
        .footer("f".to_owned(), "https://fi".to_owned())
        .image("https://im".to_owned())
        .build()
        .unwrap();
    assert_eq!(e.title.as_deref(), Some("t"));
    assert_eq!(e.description.as_deref(), Some("d"));
    assert_eq!(e.color, Some(5));
    assert_eq!(e.author_name.as_deref(), Some("a"));
    assert_eq!(e.author_icon_url.as_deref(), Some("https://i"));
    assert_eq!(e.thumbnail_url.as_deref(), Some("https://th"));
    assert_eq!(e.footer_text.as_deref(), Some("f"));
    assert_eq!(e.footer_icon_url.as_deref(), Some("https://fi"));
    assert_eq!(e.image_url.as_deref(), Some("https://im"));
}

#[test]
fn fixed_reply_envelopes_build() {
    let t = trinity_envelope();
    assert_eq!(t.color, Some(REPLY_COLOR));
    assert_eq!(REPLY_COLOR, 0x00D6_8717);
    assert!(t.description.as_deref().unwrap().contains("hypostatic union"));
    let s = salvation_envelope();
    assert_eq!(s.title.as_deref(), Some("We are saved through faith"));
    assert_eq!(s.color, Some(0x00D6_8717));
}

#[test]
fn numbers_render_in_decimal() {
    assert_eq!(u64_to_decimal(0), "0");
    assert_eq!(u64_to_decimal(7), "7");
    assert_eq!(u64_to_decimal(42), "42");
    assert_eq!(u64_to_decimal(1000), "1000");
    assert_eq!(u64_to_decimal(u64::MAX), "18446744073709551615");
}

#[test]
fn connection_log_line_names_the_shard() {
    assert_eq!(connection_log_line(42), "Connected on shard 42");
    assert_eq!(connection_log_line(0), "Connected on shard 0");
}
