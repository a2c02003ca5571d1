use mixer_chat::chat::chat::{
    handle_handler_result, FrameOutcome, InboundFrame, MixerChat, SessionPhase,
};
use mixer_chat::chat::handler::{ChatHandler, ChatResult};
use mixer_chat::codec::{decode, encode_auth, encode_method, Packet};
use mixer_chat::common::MixerError;
use mixer_chat::packets::chat::{APIChatResponse, ChatMessageEventPacket};
use mixer_chat::packets::common::{Channel, User};
use mixer_chat::pool::EndpointPool;

fn channel_record(id: u32, user_id: u32) -> Channel {
    Channel {
        id,
        user_id,
        token: "chan".to_string(),
        online: true,
        featured: false,
        feature_level: 0,
        partnered: false,
        transcoding_profile_id: None,
        suspended: false,
        name: "A channel".to_string(),
        audience: "family".to_string(),
        viewers_total: 0,
        viewers_current: 0,
        num_followers: 0,
        description: None,
        type_id: None,
        interactive: false,
        interactive_game_id: None,
        ftl: 0,
        has_vod: false,
        language_id: None,
        cover_id: None,
        thumbnail_id: None,
        badge_id: None,
        banner_url: None,
        hostee_id: None,
        has_transcodes: false,
        vods_enabled: false,
        costream_id: None,
    }
}

fn bootstrap(endpoints: &[&str]) -> (User, Channel, APIChatResponse) {
    let me = User { channel: channel_record(900, 456), groups: Vec::new() };
    let channel_data = channel_record(123, 777);
    let chat = APIChatResponse {
        authkey: "SECRET-REDACTED".to_string(),
        endpoints: endpoints.iter().map(|e| e.to_string()).collect(),
        permissions: vec!["chat".to_string()],
    };
    (me, channel_data, chat)
}

/// Counts every callback and answers with a configurable result.
struct Recorder {
    messages: usize,
    joins: usize,
    leaves: usize,
    timeouts: usize,
    purges: usize,
    clears: usize,
    deletes: usize,
    connects: usize,
    reply_with: Option<String>,
    last_text: Option<String>,
}

impl Recorder {
    fn new() -> Recorder {
        Recorder {
            messages: 0,
            joins: 0,
            leaves: 0,
            timeouts: 0,
            purges: 0,
            clears: 0,
            deletes: 0,
            connects: 0,
            reply_with: None,
            last_text: None,
        }
    }

    fn answering(text: &str) -> Recorder {
        let mut r = Recorder::new();
        r.reply_with = Some(text.to_string());
        r
    }

    fn answer(&self) -> ChatResult {
        match &self.reply_with {
            Some(t) => ChatResult::Message(t.clone()),
            None => ChatResult::Nothing,
        }
    }
}

impl ChatHandler for Recorder {
    fn on_connect(&mut self) -> ChatResult {
        self.connects += 1;
        self.answer()
    }

    fn on_message(&mut self, message: ChatMessageEventPacket) -> ChatResult {
        self.messages += 1;
        self.last_text = message.data.message.message.get(0).and_then(|f| f.text.clone());
        self.answer()
    }

    fn on_user_join(&mut self, _packet: mixer_chat::packets::chat::UserJoinPacket) -> ChatResult {
        self.joins += 1;
        self.answer()
    }

    fn on_user_leave(
        &mut self,
        _packet: mixer_chat::packets::chat::UserLeavePacket,
    ) -> ChatResult {
        self.leaves += 1;
        self.answer()
    }

    fn on_user_timeout(&mut self, _packet: mixer_chat::packets::chat::TimeoutPacket) -> ChatResult {
        self.timeouts += 1;
        self.answer()
    }

    fn on_user_purged(&mut self, _packet: mixer_chat::packets::chat::PurgeUserPacket) -> ChatResult {
        self.purges += 1;
        self.answer()
    }

    fn on_chat_cleared(&mut self) -> ChatResult {
        self.clears += 1;
        self.answer()
    }

    fn on_message_deleted(&mut self) -> ChatResult {
        self.deletes += 1;
        self.answer()
    }
}

fn new_session(endpoints: &[&str]) -> MixerChat<Recorder> {
    let (me, channel_data, chat) = bootstrap(endpoints);
    MixerChat::new("cobalt".to_string(), me, channel_data, chat, Recorder::new())
        .expect("session over a nonempty pool")
}

const CHAT_MESSAGE_FRAME: &str = "{\"type\":\"event\",\"event\":\"ChatMessage\",\"data\":{\
\"channel\":1,\"id\":\"m-1\",\"user_name\":\"bob\",\"user_id\":7,\"user_roles\":[],\
\"user_level\":1,\"user_avatar\":\"a\",\"message\":{\"message\":[{\"type\":\"text\",\
\"text\":\"hi\"}],\"meta\":{}},\"target\":null}}";

#[test]
fn rotation_walks_and_wraps() {
    let mut pool = EndpointPool::new(vec!["a".to_string(), "b".to_string(), "c".to_string()]);
    let mut seen = Vec::new();
    for _ in 0..7 {
        seen.push(pool.rotate().expect("nonempty pool"));
    }
    assert_eq!(seen, vec!["a", "b", "c", "a", "b", "c", "a"]);
}

#[test]
fn rotation_single_endpoint_always_returns_it() {
    let mut pool = EndpointPool::new(vec!["only".to_string()]);
    for _ in 0..5 {
        assert_eq!(pool.rotate().expect("nonempty pool"), "only");
    }
}

#[test]
fn rotation_empty_pool_is_exhausted() {
    let mut pool = EndpointPool::new(Vec::new());
    assert!(matches!(pool.rotate(), Err(MixerError::ExhaustedPool)));
}

#[test]
fn session_requires_an_endpoint() {
    let (me, channel_data, chat) = bootstrap(&[]);
    let r = MixerChat::new("cobalt".to_string(), me, channel_data, chat, Recorder::new());
    assert!(matches!(r, Err(MixerError::ExhaustedPool)));
}

#[test]
fn first_connect_uses_first_endpoint() {
    let mut session = new_session(&["wss://a.example", "wss://b.example"]);
    let e = session.connect_endpoint().expect("pool has endpoints");
    assert_eq!(e, "wss://a.example");
    assert_eq!(session.phase(), SessionPhase::Connecting);
    let e2 = session.connect_endpoint().expect("pool has endpoints");
    assert_eq!(e2, "wss://b.example");
}

#[test]
fn join_sends_auth_packet_with_id_zero() {
    let mut session = new_session(&["wss://a.example"]);
    session.join().expect("join");
    assert_eq!(session.phase(), SessionPhase::Joined);
    let frames = session.take_outbox();
    assert_eq!(frames.len(), 1);
    assert_eq!(frames[0], encode_auth(123, 456, "SECRET-REDACTED", 0));
    assert_eq!(session.packet_id(), 1);
}

#[test]
fn packet_ids_increase_by_one_from_zero() {
    let mut session = new_session(&["wss://a.example"]);
    session.join().expect("join");
    session.send_message("one", None).expect("send");
    session.send_message("two", Some("bob".to_string())).expect("whisper");
    session.clear_chat().expect("clear");
    session.get_history(5).expect("history");
    let frames = session.take_outbox();
    assert_eq!(frames.len(), 5);
    for (i, frame) in frames.iter().enumerate() {
        let v: serde_json::Value = serde_json::from_str(frame).expect("frame is JSON");
        assert_eq!(v.get("id").and_then(|x| x.as_u64()), Some(i as u64));
    }
    // The command frames (after the auth frame) also decode as method
    // packets carrying those same ids.
    for (i, frame) in frames.iter().enumerate().skip(1) {
        match decode(frame) {
            Some(Packet::Method { id, .. }) => assert_eq!(id, i as u64),
            other => panic!("frame {} did not decode as a method packet: {:?}", i, other),
        }
    }
}

#[test]
fn get_history_rejects_more_than_one_hundred() {
    let mut session = new_session(&["wss://a.example"]);
    match session.get_history(101) {
        Err(MixerError::InvalidArgument(text)) => {
            assert_eq!(text, "cannot get more than 100 messages in history");
        },
        other => panic!("expected an invalid-argument failure, got {:?}", other),
    }
    assert_eq!(session.outbox_len(), 0);
    assert_eq!(session.packet_id(), 0);
}

#[test]
fn get_history_at_the_limit_sends_one_packet() {
    let mut session = new_session(&["wss://a.example"]);
    session.get_history(100).expect("limit is allowed");
    let frames = session.take_outbox();
    assert_eq!(frames.len(), 1);
    assert_eq!(frames[0], encode_method("history", &vec!["100".to_string()], 0));
}

#[test]
fn command_argument_shapes() {
    let mut session = new_session(&["wss://a.example"]);
    session.send_message("hello", None).expect("msg");
    session.send_message("psst", Some("bob".to_string())).expect("whisper");
    session.timeout_user("bob", 30).expect("timeout");
    session.purge_user("bob").expect("purge");
    session.delete_message("m-1").expect("delete");
    session.clear_chat().expect("clear");
    let frames = session.take_outbox();
    let s = |x: &[&str]| -> Vec<String> { x.iter().map(|v| v.to_string()).collect() };
    assert_eq!(frames[0], encode_method("msg", &s(&["hello"]), 0));
    assert_eq!(frames[1], encode_method("whisper", &s(&["bob", "psst"]), 1));
    assert_eq!(frames[2], encode_method("timeout", &s(&["bob", "30"]), 2));
    assert_eq!(frames[3], encode_method("purge", &s(&["bob"]), 3));
    assert_eq!(frames[4], encode_method("deleteMessage", &s(&["m-1"]), 4));
    assert_eq!(frames[5], encode_method("clearMessages", &s(&[]), 5));
}

#[test]
fn chat_message_dispatches_to_message_handler_only() {
    let mut session = new_session(&["wss://a.example"]);
    let outcome = session
        .handle_frame(InboundFrame::Text(CHAT_MESSAGE_FRAME.to_string()))
        .expect("frame is handled");
    assert!(matches!(outcome, FrameOutcome::Continue));
    let h = &session.handler;
    assert_eq!(h.messages, 1);
    assert_eq!(h.last_text.as_deref(), Some("hi"));
    assert_eq!(
        (h.joins, h.leaves, h.timeouts, h.purges, h.clears, h.deletes, h.connects),
        (0, 0, 0, 0, 0, 0, 0)
    );
}

#[test]
fn unknown_event_tag_reaches_no_handler_and_loop_continues() {
    let mut session = new_session(&["wss://a.example"]);
    let frame = "{\"type\":\"event\",\"event\":\"BrandNewThing\",\"data\":{\"x\":1}}";
    let outcome = session
        .handle_frame(InboundFrame::Text(frame.to_string()))
        .expect("frame is handled");
    assert!(matches!(outcome, FrameOutcome::Continue));
    let h = &session.handler;
    assert_eq!(
        (h.messages, h.joins, h.leaves, h.timeouts, h.purges, h.clears, h.deletes),
        (0, 0, 0, 0, 0, 0, 0)
    );
    assert_eq!(session.outbox_len(), 0);
}

#[test]
fn each_tag_selects_its_own_handler() {
    let mut session = new_session(&["wss://a.example"]);
    let join = "{\"type\":\"event\",\"event\":\"UserJoin\",\"data\":{\
\"originatingChannel\":9,\"username\":\"ann\",\"roles\":[],\"id\":4}}";
    let leave = "{\"type\":\"event\",\"event\":\"UserLeave\",\"data\":{\
\"originatingChannel\":9,\"username\":\"ann\",\"id\":4}}";
    let timeout = "{\"type\":\"event\",\"event\":\"UserTimeout\",\"data\":{\"user\":{\
\"user_name\":\"bob\",\"user_id\":7,\"user_roles\":[]}}}";
    let purge = "{\"type\":\"event\",\"event\":\"PurgeMessage\",\"data\":{\"user_id\":7}}";
    let clear = "{\"type\":\"event\",\"event\":\"ClearMessages\",\"data\":{}}";
    let delete = "{\"type\":\"event\",\"event\":\"DeleteMessage\",\"data\":{}}";
    for f in [join, leave, timeout, purge, clear, delete] {
        session.handle_frame(InboundFrame::Text(f.to_string())).expect("frame is handled");
    }
    let h = &session.handler;
    assert_eq!(
        (h.messages, h.joins, h.leaves, h.timeouts, h.purges, h.clears, h.deletes),
        (0, 1, 1, 1, 1, 1, 1)
    );
}

#[test]
fn handler_message_result_sends_one_msg_packet() {
    let (me, channel_data, chat) = bootstrap(&["wss://a.example"]);
    let mut session = MixerChat::new(
        "cobalt".to_string(),
        me,
        channel_data,
        chat,
        Recorder::answering("hello"),
    )
    .expect("session over a nonempty pool");
    let before = session.packet_id();
    session
        .handle_frame(InboundFrame::Text(CHAT_MESSAGE_FRAME.to_string()))
        .expect("frame is handled");
    let frames = session.take_outbox();
    assert_eq!(frames.len(), 1);
    assert_eq!(frames[0], encode_method("msg", &vec!["hello".to_string()], before));
    assert_eq!(session.packet_id(), before + 1);
}

#[test]
fn handler_error_result_is_logged_not_fatal() {
    let mut session = new_session(&["wss://a.example"]);
    handle_handler_result(ChatResult::Error("boom".to_string()), &mut session)
        .expect("errors are recoverable");
    let notes = session.take_diagnostics();
    assert_eq!(notes, vec!["An internal handler error has occurred: boom".to_string()]);
    assert_eq!(session.outbox_len(), 0);
}

#[test]
fn close_frame_stops_the_loop_gracefully() {
    let mut session = new_session(&["wss://a.example"]);
    session.join().expect("join");
    let outcome = session.handle_frame(InboundFrame::Close).expect("close is graceful");
    assert!(matches!(outcome, FrameOutcome::Stop));
    assert_eq!(session.phase(), SessionPhase::Closed);
}

#[test]
fn ping_is_echoed_without_reaching_handlers() {
    let mut session = new_session(&["wss://a.example"]);
    let outcome = session
        .handle_frame(InboundFrame::Ping(vec![1, 2, 3]))
        .expect("ping is echoed");
    match outcome {
        FrameOutcome::EchoPing(payload) => assert_eq!(payload, vec![1, 2, 3]),
        other => panic!("expected a ping echo, got {:?}", other),
    }
    assert_eq!(session.handler.messages, 0);
}

#[test]
fn unparseable_text_is_logged_and_skipped() {
    let mut session = new_session(&["wss://a.example"]);
    let outcome = session
        .handle_frame(InboundFrame::Text("this is not a frame".to_string()))
        .expect("bad frames are skipped");
    assert!(matches!(outcome, FrameOutcome::Continue));
    let notes = session.take_diagnostics();
    assert_eq!(notes, vec!["Could not parse text into JSON: this is not a frame".to_string()]);
}

#[test]
fn connect_callback_fires_and_result_is_applied() {
    let (me, channel_data, chat) = bootstrap(&["wss://a.example"]);
    let mut session = MixerChat::new(
        "cobalt".to_string(),
        me,
        channel_data,
        chat,
        Recorder::answering("welcome all"),
    )
    .expect("session over a nonempty pool");
    session.join().expect("join");
    session.notify_connected().expect("connect callback");
    assert_eq!(session.handler.connects, 1);
    let frames = session.take_outbox();
    assert_eq!(frames.len(), 2);
    assert_eq!(frames[1], encode_method("msg", &vec!["welcome all".to_string()], 1));
}

#[test]
fn identity_is_what_the_bootstrap_resolved() {
    let session = new_session(&["wss://a.example"]);
    let id = session.current_identity();
    assert_eq!(id.channel_id, 123);
    assert_eq!(id.user_id, 456);
    assert_eq!(id.auth_key, "SECRET-REDACTED");
}
