use gateway_client::bootstrap::{
    build_gateway_response, gateway_bot_endpoint, parse_gateway_response, with_gateway_query,
};
use gateway_client::channel::{
    auth_header_value, channels_endpoint, get_text_channels, messages_endpoint,
    messages_endpoint_after, parse_channels, parse_messages, Channel, ChannelType, Message,
};

fn channel(ctype: u8, id: &str) -> Channel {
    Channel {
        ctype,
        id: String::from(id),
        name: String::from("name"),
        last_message_id: None,
    }
}

#[test]
fn channel_type_from_u8_covers_every_tag() {
    assert_eq!(ChannelType::from_u8(0), ChannelType::Text);
    assert_eq!(ChannelType::from_u8(1), ChannelType::DM);
    assert_eq!(ChannelType::from_u8(2), ChannelType::Voice);
    assert_eq!(ChannelType::from_u8(3), ChannelType::GroupDM);
    assert_eq!(ChannelType::from_u8(4), ChannelType::GuildCategory);
    assert_eq!(ChannelType::from_u8(5), ChannelType::GuildNews);
    assert_eq!(ChannelType::from_u8(6), ChannelType::GuildStore);
    assert_eq!(ChannelType::from_u8(7), ChannelType::Unknown);
    assert_eq!(ChannelType::from_u8(255), ChannelType::Unknown);
}

#[test]
fn channel_type_labels() {
    assert_eq!(ChannelType::Text.label(), "Text");
    assert_eq!(ChannelType::Voice.label(), "Voice");
    assert_eq!(ChannelType::Unknown.label(), "Unknown");
    assert_eq!(ChannelType::DM.label(), "Not text/voice");
}

#[test]
fn get_channel_type_reads_the_tag() {
    assert_eq!(channel(0, "a").get_channel_type(), ChannelType::Text);
    assert_eq!(channel(2, "a").get_channel_type(), ChannelType::Voice);
}

#[test]
fn get_text_channels_keeps_exactly_the_text_ones() {
    let v = vec![channel(0, "a"), channel(2, "b"), channel(0, "c"), channel(4, "d")];
    let text = get_text_channels(v);
    assert_eq!(text.len(), 2);
    assert_eq!(text[0].id, "a");
    assert_eq!(text[1].id, "c");
}

#[test]
fn update_last_message_records_the_id() {
    let mut c = channel(0, "chan");
    let msg = Message {
        id: String::from("m-1"),
        channel_id: String::from("chan"),
        content: String::from("hi"),
    };
    c.update_last_message(&msg);
    assert_eq!(c.last_message_id.as_deref(), Some("m-1"));
}

#[test]
fn record_new_messages_takes_the_first_of_a_batch() {
    let mut c = channel(0, "chan");
    let msgs = vec![
        Message {
            id: String::from("newest"),
            channel_id: String::from("chan"),
            content: String::from("b"),
        },
        Message {
            id: String::from("older"),
            channel_id: String::from("chan"),
            content: String::from("a"),
        },
    ];
    c.record_new_messages(&msgs);
    assert_eq!(c.last_message_id.as_deref(), Some("newest"));
    let empty: Vec<Message> = Vec::new();
    c.record_new_messages(&empty);
    assert_eq!(c.last_message_id.as_deref(), Some("newest"));
}

#[test]
fn parse_channels_reads_a_listing_body() {
    let body = "[{\"type\":0,\"id\":\"1\",\"name\":\"general\",\"last_message_id\":\"9\"},\
                {\"type\":2,\"id\":\"2\",\"name\":\"talk\",\"last_message_id\":null}]";
    let v = parse_channels(body).unwrap();
    assert_eq!(v.len(), 2);
    assert_eq!(v[0].id, "1");
    assert_eq!(v[0].name, "general");
    assert_eq!(v[0].last_message_id.as_deref(), Some("9"));
    assert_eq!(v[1].ctype, 2);
    assert!(v[1].last_message_id.is_none());
}

#[test]
fn parse_channels_rejects_wrong_shapes() {
    assert!(parse_channels("{\"not\":\"an array\"}").is_none());
    assert!(parse_channels("[{\"id\":\"1\"}]").is_none());
    assert!(parse_channels("[{\"type\":300,\"id\":\"1\",\"name\":\"n\"}]").is_none());
    assert!(parse_channels("nonsense").is_none());
}

#[test]
fn parse_messages_reads_a_batch_body() {
    let body = "[{\"id\":\"5\",\"channel_id\":\"1\",\"content\":\"hello\"}]";
    let v = parse_messages(body).unwrap();
    assert_eq!(v.len(), 1);
    assert_eq!(v[0].id, "5");
    assert_eq!(v[0].channel_id, "1");
    assert_eq!(v[0].content, "hello");
    assert!(parse_messages("[{\"id\":\"5\"}]").is_none());
}

#[test]
fn auth_header_value_prefixes_the_token() {
    assert_eq!(auth_header_value("SECRET-REDACTED"), "Bot SECRET-REDACTED");
}

#[test]
fn endpoints_are_built_from_their_parts() {
    assert_eq!(
        channels_endpoint("g-1"),
        "https://discordapp.com/api/guilds/g-1/channels"
    );
    assert_eq!(
        messages_endpoint("c-1"),
        "https://discordapp.com/api/channels/c-1/messages"
    );
    assert_eq!(
        messages_endpoint_after("c-1", Some("99")),
        "https://discordapp.com/api/channels/c-1/messages?after=99"
    );
    assert_eq!(
        messages_endpoint_after("c-1", None),
        "https://discordapp.com/api/channels/c-1/messages"
    );
    assert_eq!(gateway_bot_endpoint(), "https://discordapp.com/api/gateway/bot");
    assert_eq!(
        with_gateway_query("wss://gateway.example"),
        "wss://gateway.example?v=6&encoding=json"
    );
}

#[test]
fn parse_gateway_response_reads_the_bootstrap_body() {
    let body = "{\"url\":\"wss://gateway.example\",\"shards\":2,\
                \"session_start_limit\":{\"total\":1000,\"remaining\":999,\"reset_after\":14400000}}";
    let g = parse_gateway_response(body).unwrap();
    assert_eq!(g.url, "wss://gateway.example");
    assert_eq!(g.shards, 2);
    assert_eq!(g.session_start_limit.total, 1000);
    assert_eq!(g.session_start_limit.remaining, 999);
    assert_eq!(g.session_start_limit.reset_after_ms, 14_400_000);
}

#[test]
fn parse_gateway_response_rejects_missing_fields() {
    assert!(parse_gateway_response("{\"url\":\"wss://x\"}").is_none());
    assert!(parse_gateway_response("nonsense").is_none());
    // a counter beyond the field width is rejected
    let body = "{\"url\":\"wss://x\",\"shards\":4294967296,\
                \"session_start_limit\":{\"total\":1,\"remaining\":1,\"reset_after\":1}}";
    assert!(parse_gateway_response(body).is_none());
}

#[test]
fn build_gateway_response_needs_every_field() {
    let g = build_gateway_response(
        Some(String::from("wss://x")),
        Some(1),
        Some(2),
        Some(3),
        Some(4),
    )
    .unwrap();
    assert_eq!(g.shards, 1);
    assert!(build_gateway_response(None, Some(1), Some(2), Some(3), Some(4)).is_none());
    assert!(
        build_gateway_response(Some(String::from("wss://x")), None, Some(2), Some(3), Some(4))
            .is_none()
    );
}
