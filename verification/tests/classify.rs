use sacana::events::{classify, decode_frame, Addressing, InboundEvent, RawEvent};
use sacana::runtime_error::{Error, JsonError};
use sacana::slack::{channel_type_of_flags, channel_type_of_value, ChannelType};

fn chat(channel: &str, user: &str, text: &str, ts: &str) -> RawEvent {
    RawEvent {
        event_type: Some("message".to_string()),
        channel: Some(channel.to_string()),
        user: Some(user.to_string()),
        text: Some(text.to_string()),
        ts: Some(ts.to_string()),
        changed_user_id: None,
        changed_user_name: None,
    }
}

fn monitored() -> Vec<String> {
    vec!["C1".to_string()]
}

#[test]
fn decoded_hello_classifies_as_hello() {
    let ev = decode_frame("{\"type\": \"hello\"}").unwrap();
    assert_eq!(ev.event_type.as_deref(), Some("hello"));
    let r = classify(&ev, None, "U1", &monitored()).unwrap();
    assert!(matches!(r, InboundEvent::Hello));
}

#[test]
fn decoded_chat_message_keeps_its_fields() {
    let ev = decode_frame(
        "{\"type\":\"message\",\"channel\":\"C1\",\"user\":\"U2\",\"text\":\"hi\",\"ts\":\"1.5\"}",
    )
    .unwrap();
    assert_eq!(ev.channel.as_deref(), Some("C1"));
    assert_eq!(ev.user.as_deref(), Some("U2"));
    assert_eq!(ev.text.as_deref(), Some("hi"));
    assert_eq!(ev.ts.as_deref(), Some("1.5"));
}

#[test]
fn unreadable_frames_decode_to_nothing() {
    assert!(decode_frame("not json").is_none());
}

#[test]
fn channel_message_without_mention_is_not_command_bearing() {
    let ev = chat("C1", "U2", "just chatting", "2.000000");
    let r = classify(&ev, Some(ChannelType::PublicChannel), "U1", &monitored()).unwrap();
    match r {
        InboundEvent::ChatMessage { addressed, ts, .. } => {
            assert!(matches!(addressed, Addressing::NotAddressed));
            assert_eq!(ts, "2.000000");
        },
        _ => panic!("expected a chat message"),
    }
}

#[test]
fn channel_message_with_mention_is_command_bearing() {
    let ev = chat("C1", "U2", "<@U1> ping", "2.000000");
    let r = classify(&ev, Some(ChannelType::PublicChannel), "U1", &monitored()).unwrap();
    match r {
        InboundEvent::ChatMessage { addressed, channel, .. } => {
            assert!(matches!(addressed, Addressing::InChannel));
            assert_eq!(channel, "C1");
        },
        _ => panic!("expected a chat message"),
    }
}

#[test]
fn mention_in_unmonitored_channel_is_not_command_bearing() {
    let ev = chat("C9", "U2", "<@U1> ping", "2.000000");
    let r = classify(&ev, Some(ChannelType::PublicChannel), "U1", &monitored()).unwrap();
    assert!(matches!(
        r,
        InboundEvent::ChatMessage { addressed: Addressing::NotAddressed, .. }
    ));
}

#[test]
fn direct_message_is_command_bearing() {
    let ev = chat("D1", "U2", "help", "2.000000");
    let r = classify(&ev, Some(ChannelType::DirectMessage), "U1", &monitored()).unwrap();
    assert!(matches!(r, InboundEvent::ChatMessage { addressed: Addressing::Direct, .. }));
}

#[test]
fn own_messages_are_never_command_bearing() {
    let ev = chat("D1", "U1", "help", "2.000000");
    let r = classify(&ev, Some(ChannelType::DirectMessage), "U1", &monitored()).unwrap();
    assert!(matches!(
        r,
        InboundEvent::ChatMessage { addressed: Addressing::NotAddressed, .. }
    ));
}

#[test]
fn failed_kind_lookup_is_a_per_event_error() {
    let ev = chat("D1", "U2", "help", "2.000000");
    let r = classify(&ev, None, "U1", &monitored());
    assert!(matches!(r, Err(Error::ConversationLookup)));
}

#[test]
fn goodbye_classifies_as_goodbye() {
    let ev = decode_frame("{\"type\": \"goodbye\"}").unwrap();
    let r = classify(&ev, None, "U1", &monitored()).unwrap();
    assert!(matches!(r, InboundEvent::Goodbye));
}

#[test]
fn directory_change_carries_id_and_name() {
    let ev = decode_frame(
        "{\"type\":\"user_change\",\"user\":{\"id\":\"U7\",\"profile\":{\"display_name_normalized\":\"bob\"}}}",
    )
    .unwrap();
    let r = classify(&ev, None, "U1", &monitored()).unwrap();
    match r {
        InboundEvent::UserChanged { id, name } => {
            assert_eq!(id, "U7");
            assert_eq!(name, "bob");
        },
        _ => panic!("expected a directory change"),
    }
}

#[test]
fn directory_change_without_name_is_a_decoding_failure() {
    let ev = decode_frame("{\"type\":\"user_change\",\"user\":{\"id\":\"U7\"}}").unwrap();
    let r = classify(&ev, None, "U1", &monitored());
    assert!(matches!(r, Err(Error::Json(JsonError::AsStr))));
}

#[test]
fn unknown_event_types_are_ignorable() {
    let ev = decode_frame("{\"type\": \"emoji_changed\"}").unwrap();
    let r = classify(&ev, None, "U1", &monitored()).unwrap();
    assert!(matches!(r, InboundEvent::Ignorable));
}

#[test]
fn message_without_text_is_a_decoding_failure() {
    let ev = decode_frame(
        "{\"type\":\"message\",\"channel\":\"C1\",\"user\":\"U2\",\"ts\":\"1.5\"}",
    )
    .unwrap();
    let r = classify(&ev, Some(ChannelType::PublicChannel), "U1", &monitored());
    assert!(matches!(r, Err(Error::Json(JsonError::AsStr))));
}

#[test]
fn conversation_kinds_follow_the_marker_flags() {
    assert!(matches!(
        channel_type_of_flags(Some(true), None, None, None),
        Ok(ChannelType::GroupDirectMessage)
    ));
    assert!(matches!(
        channel_type_of_flags(None, Some(true), None, None),
        Ok(ChannelType::PublicChannel)
    ));
    assert!(matches!(
        channel_type_of_flags(None, None, Some(true), None),
        Ok(ChannelType::PrivateChannel)
    ));
    assert!(matches!(
        channel_type_of_flags(None, None, None, Some(true)),
        Ok(ChannelType::DirectMessage)
    ));
    assert!(matches!(
        channel_type_of_flags(Some(false), None, None, None),
        Err(Error::InvalidConversation)
    ));
}

#[test]
fn conversation_kind_reads_from_a_record() {
    let v: serde_json::Value = "{\"is_im\": true}".parse().unwrap();
    assert!(matches!(channel_type_of_value(&v), Ok(ChannelType::DirectMessage)));
    let v: serde_json::Value = "{\"name\": \"general\"}".parse().unwrap();
    assert!(matches!(channel_type_of_value(&v), Err(Error::InvalidConversation)));
}
