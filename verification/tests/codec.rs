use mixer_chat::api::classify_status;
use mixer_chat::codec::{decode, encode_auth, encode_method, EventPayload, Packet};
use mixer_chat::common::RequestError;
use mixer_chat::constellation::constellation::interfaces;

fn strings(items: &[&str]) -> Vec<String> {
    items.iter().map(|s| s.to_string()).collect()
}

#[test]
fn encode_method_exact_text() {
    let text = encode_method("msg", &strings(&["hello"]), 3);
    assert_eq!(
        text,
        "{\"type\":\"method\",\"method\":\"msg\",\"arguments\":[\"hello\"],\"id\":3}"
    );
}

#[test]
fn encode_method_empty_arguments() {
    let text = encode_method("clearMessages", &strings(&[]), 0);
    assert_eq!(
        text,
        "{\"type\":\"method\",\"method\":\"clearMessages\",\"arguments\":[],\"id\":0}"
    );
}

#[test]
fn encode_auth_positional_arguments() {
    let text = encode_auth(123, 456, "SECRET-REDACTED", 0);
    assert_eq!(
        text,
        "{\"type\":\"method\",\"method\":\"auth\",\"arguments\":[123,456,\"SECRET-REDACTED\"],\"id\":0}"
    );
}

#[test]
fn method_round_trip_plain() {
    let text = encode_method("whisper", &strings(&["bob", "hi there"]), 17);
    match decode(&text) {
        Some(Packet::Method { method, arguments, id }) => {
            assert_eq!(method, "whisper");
            assert_eq!(arguments, strings(&["bob", "hi there"]));
            assert_eq!(id, 17);
        },
        other => panic!("expected a method packet, got {:?}", other),
    }
}

#[test]
fn method_round_trip_escapes() {
    let tricky = "a\"b\\c\nd\te";
    let text = encode_method("msg", &strings(&[tricky, ""]), u64::MAX);
    match decode(&text) {
        Some(Packet::Method { method, arguments, id }) => {
            assert_eq!(method, "msg");
            assert_eq!(arguments, strings(&[tricky, ""]));
            assert_eq!(id, u64::MAX);
        },
        other => panic!("expected a method packet, got {:?}", other),
    }
}

#[test]
fn encoded_frame_is_valid_json_for_serde() {
    let text = encode_method("timeout", &strings(&["bob", "30"]), 5);
    let v: serde_json::Value = serde_json::from_str(&text).expect("frame must be valid JSON");
    assert_eq!(v.get("type").and_then(|t| t.as_str()), Some("method"));
    assert_eq!(v.get("method").and_then(|t| t.as_str()), Some("timeout"));
    assert_eq!(v.get("id").and_then(|t| t.as_u64()), Some(5));
    let args = v.get("arguments").and_then(|a| a.as_array()).expect("arguments array");
    assert_eq!(args.len(), 2);
    assert_eq!(args[0].as_str(), Some("bob"));
    assert_eq!(args[1].as_str(), Some("30"));
}

#[test]
fn escaped_strings_are_standard_json() {
    let tricky = "line1\nline2\ttabbed \"quoted\" back\\slash \r\u{0008}\u{000C}";
    let text = encode_method("msg", &strings(&[tricky]), 1);
    let v: serde_json::Value = serde_json::from_str(&text).expect("frame must be valid JSON");
    let args = v.get("arguments").and_then(|a| a.as_array()).expect("arguments array");
    assert_eq!(args[0].as_str(), Some(tricky));
}

#[test]
fn decode_reply_frame() {
    let r = decode("{\"type\":\"reply\",\"error\":null,\"id\":1,\"data\":{}}");
    assert!(matches!(r, Some(Packet::Reply)));
}

#[test]
fn decode_garbage_is_discarded() {
    assert!(decode("not json at all").is_none());
    assert!(decode("{\"type\":\"method\"").is_none());
    assert!(decode("{\"kind\":\"method\"}").is_none());
    assert!(decode("42").is_none());
}

#[test]
fn decode_unknown_event_tag_is_ignored_not_rejected() {
    let r = decode("{\"type\":\"event\",\"event\":\"SomethingBrandNew\",\"data\":{\"x\":1}}");
    assert!(matches!(r, Some(Packet::Event(EventPayload::Ignored))));
}

#[test]
fn decode_known_but_unrouted_tags_are_ignored() {
    let r = decode("{\"type\":\"event\",\"event\":\"PollStart\",\"data\":{}}");
    assert!(matches!(r, Some(Packet::Event(EventPayload::Ignored))));
}

#[test]
fn decode_chat_message_event() {
    let frame = "{\"type\":\"event\",\"event\":\"ChatMessage\",\"data\":{\"channel\":1,\
\"id\":\"m-1\",\"user_name\":\"bob\",\"user_id\":7,\"user_roles\":[\"Mod\",\"User\"],\
\"user_level\":10,\"user_avatar\":\"av\",\"message\":{\"message\":[{\"type\":\"text\",\
\"text\":\"hi\"}],\"meta\":{\"me\":true}},\"target\":null}}";
    match decode(frame) {
        Some(Packet::Event(EventPayload::ChatMessage(d))) => {
            assert_eq!(d.channel, 1);
            assert_eq!(d.id, "m-1");
            assert_eq!(d.user_name, "bob");
            assert_eq!(d.user_id, 7);
            assert_eq!(d.user_roles, strings(&["Mod", "User"]));
            assert_eq!(d.user_level, 10);
            assert_eq!(d.user_avatar, "av");
            assert_eq!(d.message.message.len(), 1);
            assert_eq!(d.message.message[0].text.as_deref(), Some("hi"));
            assert!(d.message.message[0].data.is_none());
            assert_eq!(d.message.meta.me, Some(true));
            assert!(d.message.meta.whisper.is_none());
            assert!(d.target.is_none());
        },
        other => panic!("expected a chat message event, got {:?}", other),
    }
}

#[test]
fn decode_chat_message_with_bad_payload_is_discarded() {
    // user_id is mandatory; a frame without it fails strict decoding.
    let frame = "{\"type\":\"event\",\"event\":\"ChatMessage\",\"data\":{\"channel\":1}}";
    assert!(decode(frame).is_none());
}

#[test]
fn decode_user_join_event() {
    let frame = "{\"type\":\"event\",\"event\":\"UserJoin\",\"data\":{\
\"originatingChannel\":9,\"username\":\"ann\",\"roles\":[\"User\"],\"id\":4}}";
    match decode(frame) {
        Some(Packet::Event(EventPayload::UserJoin(d))) => {
            assert_eq!(d.originating_channel, 9);
            assert_eq!(d.username, "ann");
            assert_eq!(d.roles, strings(&["User"]));
            assert_eq!(d.id, 4);
        },
        other => panic!("expected a user join event, got {:?}", other),
    }
}

#[test]
fn decode_user_leave_event() {
    let frame = "{\"type\":\"event\",\"event\":\"UserLeave\",\"data\":{\
\"originatingChannel\":9,\"username\":\"ann\",\"id\":4}}";
    match decode(frame) {
        Some(Packet::Event(EventPayload::UserLeave(d))) => {
            assert_eq!(d.username, "ann");
        },
        other => panic!("expected a user leave event, got {:?}", other),
    }
}

#[test]
fn decode_timeout_event() {
    let frame = "{\"type\":\"event\",\"event\":\"UserTimeout\",\"data\":{\"user\":{\
\"user_name\":\"bob\",\"user_id\":7,\"user_roles\":[]}}}";
    match decode(frame) {
        Some(Packet::Event(EventPayload::UserTimeout(d))) => {
            assert_eq!(d.user.user_name, "bob");
            assert_eq!(d.user.user_id, 7);
            assert!(d.user.user_roles.is_empty());
        },
        other => panic!("expected a timeout event, got {:?}", other),
    }
}

#[test]
fn decode_purge_event_without_moderator() {
    let frame = "{\"type\":\"event\",\"event\":\"PurgeMessage\",\"data\":{\"user_id\":7}}";
    match decode(frame) {
        Some(Packet::Event(EventPayload::PurgeMessage(d))) => {
            assert_eq!(d.user_id, 7);
            assert!(d.moderator.is_none());
        },
        other => panic!("expected a purge event, got {:?}", other),
    }
}

#[test]
fn decode_purge_event_with_moderator() {
    let frame = "{\"type\":\"event\",\"event\":\"PurgeMessage\",\"data\":{\"moderator\":{\
\"user_name\":\"mod\",\"user_id\":1,\"user_roles\":[\"Mod\"],\"user_level\":50},\"user_id\":7}}";
    match decode(frame) {
        Some(Packet::Event(EventPayload::PurgeMessage(d))) => {
            let m = d.moderator.expect("moderator record");
            assert_eq!(m.user_name, "mod");
            assert_eq!(m.user_level, 50);
        },
        other => panic!("expected a purge event, got {:?}", other),
    }
}

#[test]
fn decode_welcome_and_clear_and_delete() {
    let welcome = "{\"type\":\"event\",\"event\":\"WelcomeEvent\",\"data\":{\"server\":\"s1\"}}";
    match decode(welcome) {
        Some(Packet::Event(EventPayload::Welcome(d))) => assert_eq!(d.server, "s1"),
        other => panic!("expected a welcome event, got {:?}", other),
    }
    let clear = "{\"type\":\"event\",\"event\":\"ClearMessages\",\"data\":{\"clearer\":{}}}";
    assert!(matches!(decode(clear), Some(Packet::Event(EventPayload::ClearMessages))));
    let del = "{\"type\":\"event\",\"event\":\"DeleteMessage\",\"data\":{\"id\":\"m-1\"}}";
    assert!(matches!(decode(del), Some(Packet::Event(EventPayload::DeleteMessage))));
}

#[test]
fn decode_emoticon_fragment_with_coords_and_alt() {
    let frame = "{\"type\":\"event\",\"event\":\"ChatMessage\",\"data\":{\"channel\":1,\
\"id\":\"m\",\"user_name\":\"b\",\"user_id\":1,\"user_roles\":[],\"user_level\":1,\
\"user_avatar\":\"a\",\"message\":{\"message\":[{\"type\":\"emoticon\",\"source\":\"builtin\",\
\"coords\":{\"x\":24,\"y\":48,\"width\":24,\"height\":24},\"alt\":{\"en\":\"smile\"}}],\
\"meta\":{}},\"target\":\"bob\"}}";
    match decode(frame) {
        Some(Packet::Event(EventPayload::ChatMessage(d))) => {
            let frag = &d.message.message[0];
            let coords = frag.coords.expect("coords");
            assert_eq!((coords.x, coords.y, coords.width, coords.height), (24, 48, 24, 24));
            let alt = frag.alt.as_ref().expect("alt");
            assert_eq!(alt, &vec![("en".to_string(), "smile".to_string())]);
            assert_eq!(d.target.as_deref(), Some("bob"));
        },
        other => panic!("expected a chat message event, got {:?}", other),
    }
}

#[test]
fn classify_status_maps_each_code() {
    assert!(classify_status(200).is_ok());
    assert!(matches!(classify_status(401), Err(RequestError::Unauthorized)));
    assert!(matches!(classify_status(403), Err(RequestError::BadOauth)));
    assert!(matches!(classify_status(500), Err(RequestError::UnknownStatusCode)));
    assert!(matches!(classify_status(404), Err(RequestError::UnknownStatusCode)));
}

#[test]
fn interfaces_name_all_six_feeds() {
    let v = interfaces(1234);
    assert_eq!(
        v,
        vec![
            "channel:1234:update".to_string(),
            "channel:1234:hosted".to_string(),
            "channel:1234:status".to_string(),
            "channel:1234:followed".to_string(),
            "channel:1234:subscribed".to_string(),
            "channel:1234:resubscribed".to_string(),
        ]
    );
}
