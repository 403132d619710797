//! The OneBot adapter: pauses, turns of the connection, and messages both ways.

use yomua::adapters::onebot::connection::{
    authorization, handle_connected_io, read_frame, Backoff, ConnectionLoop, FrameStep, IoAction,
    IoEvent, WsFrame,
};
use yomua::adapters::onebot::conversion::{
    build_group_send_request, build_private_send_request, contains_at_segment,
    extract_text_content, onebot_event_to_inbound, parse_qq_id, strip_cq_codes, InboundMessage,
    OneBotEvent,
};
use yomua::adapters::onebot::{
    enqueue_outgoing, handle_raw, is_message_event, publish_inbound, start,
    undelivered, unwritten, OneBotConfig, OneBotConnectionState, RawOutcome,
};
use yomua::domain::conversation::ConversationType;
use yomua::domain::event::{Command, CoreEvent};
use yomua::error::RuntimeError;
use yomua::json::{parse_json, Json};
use yomua::time::{Span, Timestamp};

fn json(text: &str) -> Json {
    parse_json(text.as_bytes().to_vec()).expect("valid JSON")
}

fn event(post_type: &str, time: i64, data: &str) -> OneBotEvent {
    OneBotEvent { post_type: post_type.to_string(), time, self_id: 1, data: json(data) }
}

fn adapter_text(e: RuntimeError) -> String {
    match e {
        RuntimeError::Adapter(text) => text,
        other => panic!("expected Adapter, got {other:?}"),
    }
}

fn refused(e: &OneBotEvent) -> String {
    match onebot_event_to_inbound(e) {
        Err(e) => adapter_text(e),
        Ok(_) => panic!("expected a refusal"),
    }
}

fn at(secs: i64) -> Timestamp {
    Timestamp { secs, nanos: 0 }
}

fn test_config() -> OneBotConfig {
    OneBotConfig {
        websocket_url: "ws://127.0.0.1:1".to_string(),
        access_token: None,
        reconnect_interval_secs: 1,
        max_reconnect_interval_secs: 4,
        heartbeat_interval_secs: 30,
        action_timeout_secs: 10,
    }
}

// Pauses.

#[test]
fn backoff_grows_exponentially_and_caps() {
    let mut b = Backoff::new(Span::from_secs(1), Span::from_secs(4));
    assert_eq!(b.next_delay(), Span::from_secs(1));
    assert_eq!(b.next_delay(), Span::from_secs(2));
    assert_eq!(b.next_delay(), Span::from_secs(4));
    assert_eq!(b.next_delay(), Span::from_secs(4));
    assert_eq!(b.attempts(), 4);
}

#[test]
fn backoff_resets_after_success() {
    let mut b = Backoff::new(Span::from_secs(1), Span::from_secs(8));
    b.next_delay();
    b.next_delay();
    assert_eq!(b.attempts(), 2);
    b.reset();
    assert_eq!(b.attempts(), 0);
    assert_eq!(b.next_delay(), Span::from_secs(1));
}

#[test]
fn backoff_peek_does_not_advance() {
    let b = Backoff::new(Span::from_secs(1), Span::from_secs(8));
    assert_eq!(b.peek_latest(), Span::from_secs(1));
    assert_eq!(b.peek_latest(), Span::from_secs(1));
    assert_eq!(b.attempts(), 0);
}

#[test]
fn doubling_stops_at_the_thirty_first_failure() {
    let mut b = Backoff { base: Span::from_secs(1), max: Span::from_secs(u64::MAX), attempt: 31 };
    assert_eq!(b.factor(), 0x8000_0000);
    assert_eq!(b.next_delay(), Span::from_secs(0x8000_0000));
    assert_eq!(b.next_delay(), Span::from_secs(0x8000_0000));
    b.attempt = u32::MAX;
    b.next_delay();
    assert_eq!(b.attempts(), u32::MAX);
    let huge = Backoff {
        base: Span::from_secs(u64::MAX),
        max: Span::from_secs(u64::MAX),
        attempt: 40,
    };
    assert_eq!(huge.peek_latest(), Span::from_secs(u64::MAX));
}

// The life of the connection.

#[test]
fn reconnects_after_initial_failure_then_disconnect() {
    let mut conn = ConnectionLoop::new(&test_config());
    assert_eq!(ConnectionLoop::begin(false), Some(OneBotConnectionState::Connecting));

    let failed = conn.attempted(Err(RuntimeError::Adapter("连接失败（脚本）".to_string())), at(1));
    assert_eq!(failed.state, OneBotConnectionState::Reconnecting);
    assert_eq!(failed.pause, Some(Span::from_secs(1)));
    match failed.event {
        CoreEvent::AdapterDisconnected(e) => {
            assert_eq!(e.adapter_name, "onebot");
            assert_eq!(e.reason.as_deref(), Some("适配器错误：连接失败（脚本）"));
        }
        other => panic!("unexpected {other:?}"),
    }

    let up = conn.attempted(Ok(()), at(2));
    assert_eq!(up.state, OneBotConnectionState::Connected);
    assert_eq!(up.pause, None);
    assert!(matches!(up.event, CoreEvent::AdapterConnected(_)));
    assert_eq!(conn.backoff.attempts(), 0);

    let lost = conn.lost(at(3));
    assert_eq!(lost.state, OneBotConnectionState::Reconnecting);
    assert_eq!(lost.pause, Some(Span::from_secs(1)));
    assert!(matches!(lost.event, CoreEvent::AdapterDisconnected(e) if e.reason.is_none()));

    let again = || Err(RuntimeError::Adapter("x".to_string()));
    assert_eq!(conn.attempted(again(), at(4)).pause, Some(Span::from_secs(2)));
    assert_eq!(conn.attempted(again(), at(5)).pause, Some(Span::from_secs(4)));
    assert_eq!(conn.attempted(again(), at(6)).pause, Some(Span::from_secs(4)));
    assert_eq!(ConnectionLoop::begin(true), None);
}

#[test]
fn inbound_message_forwarded_and_reconnect_occurs() {
    match handle_connected_io(IoEvent::Read(Ok(Some("hello-onebot".to_string())))) {
        IoAction::Forward(text) => assert_eq!(text, "hello-onebot"),
        other => panic!("unexpected {other:?}"),
    }
    assert!(matches!(handle_connected_io(IoEvent::Forwarded(true)), IoAction::Wait));
    assert!(matches!(handle_connected_io(IoEvent::Read(Ok(None))), IoAction::Stop));
    let mut conn = ConnectionLoop::new(&test_config());
    conn.attempted(Ok(()), at(1));
    assert!(conn.lost(at(2)).pause.is_some());
}

#[test]
fn every_failure_ends_the_connection() {
    let broken = || RuntimeError::Adapter("x".to_string());
    assert!(matches!(handle_connected_io(IoEvent::Shutdown), IoAction::Stop));
    assert!(matches!(handle_connected_io(IoEvent::Outbound(None)), IoAction::Stop));
    assert!(matches!(handle_connected_io(IoEvent::Sent(Err(broken()))), IoAction::Stop));
    assert!(matches!(handle_connected_io(IoEvent::Pinged(Err(broken()))), IoAction::Stop));
    assert!(matches!(handle_connected_io(IoEvent::Read(Err(broken()))), IoAction::Stop));
    assert!(matches!(handle_connected_io(IoEvent::Forwarded(false)), IoAction::Stop));
    assert!(matches!(handle_connected_io(IoEvent::Sent(Ok(()))), IoAction::Wait));
    assert!(matches!(handle_connected_io(IoEvent::Tick), IoAction::Ping));
    assert!(matches!(handle_connected_io(IoEvent::Pinged(Ok(()))), IoAction::Wait));
    match handle_connected_io(IoEvent::Outbound(Some("{}".to_string()))) {
        IoAction::Send(text) => assert_eq!(text, "{}"),
        other => panic!("unexpected {other:?}"),
    }
}

#[test]
fn frames_are_read_answered_or_skipped() {
    assert!(matches!(read_frame(WsFrame::Text("a".to_string())), FrameStep::Done(Some(t)) if t == "a"));
    assert!(matches!(read_frame(WsFrame::Ping(vec![1, 2])), FrameStep::Pong(d) if d == vec![1, 2]));
    for frame in [WsFrame::Binary, WsFrame::Pong, WsFrame::Raw] {
        assert!(matches!(read_frame(frame), FrameStep::Skip));
    }
    for frame in [WsFrame::Close, WsFrame::Broken, WsFrame::End] {
        assert!(matches!(read_frame(frame), FrameStep::Done(None)));
    }
}

#[test]
fn settings_below_one_second_are_raised() {
    let mut config = test_config();
    config.reconnect_interval_secs = 0;
    config.max_reconnect_interval_secs = 0;
    let conn = ConnectionLoop::new(&config);
    assert_eq!(conn.backoff.peek_latest(), Span::from_secs(1));
    assert_eq!(authorization(&config), None);
    config.access_token = Some("token123".to_string());
    assert_eq!(authorization(&config).as_deref(), Some("Bearer token123"));
    assert_eq!(OneBotConfig::default().websocket_url, "ws://127.0.0.1:3001");
}

// Events to messages.

fn group_event() -> OneBotEvent {
    OneBotEvent {
        post_type: "message".to_string(),
        time: 1690000000,
        self_id: 123456,
        data: json(
            r#"{
                "message_type": "group",
                "sub_type": "normal",
                "message_id": 1001,
                "group_id": 500000,
                "user_id": 900001,
                "message": [
                    {"type": "text", "data": {"text": "你好，"}},
                    {"type": "text", "data": {"text": "世界！"}},
                    {"type": "face", "data": {"id": "1"}}
                ],
                "sender": {"user_id": 900001, "nickname": "小明", "card": "", "role": "member"}
            }"#,
        ),
    }
}

#[test]
fn group_message_converts() {
    let inbound = onebot_event_to_inbound(&group_event()).unwrap();
    assert!(matches!(inbound.conversation_type, ConversationType::Group));
    assert_eq!(inbound.external_conversation_id, "500000");
    assert_eq!(inbound.external_sender_id, "900001");
    assert_eq!(inbound.display_name, "小明");
    assert_eq!(inbound.platform_message_id, 1001);
    assert_eq!(inbound.content, "你好，世界！");
    assert_eq!(inbound.unix_time, 1690000000);
}

#[test]
fn private_message_converts() {
    let e = event(
        "message",
        100,
        r#"{
            "message_type": "private",
            "message_id": 7,
            "user_id": 555,
            "message": "直接给你一段文本",
            "sender": {"user_id": 555, "nickname": "小红"}
        }"#,
    );
    let inbound = onebot_event_to_inbound(&e).unwrap();
    assert!(matches!(inbound.conversation_type, ConversationType::Private));
    assert_eq!(inbound.external_conversation_id, "555");
    assert_eq!(inbound.content, "直接给你一段文本");
    assert!(!inbound.is_mentioned);
}

#[test]
fn at_segment_sets_is_mentioned() {
    let e = event(
        "message",
        1,
        r#"{
            "message_type": "group",
            "message_id": 1,
            "group_id": 500000,
            "user_id": 900001,
            "message": [
                {"type": "at", "data": {"qq": "123456", "name": "小助手"}},
                {"type": "text", "data": {"text": "你好！"}}
            ],
            "sender": {"user_id": 900001, "nickname": "小明"}
        }"#,
    );
    let inbound = onebot_event_to_inbound(&e).unwrap();
    assert!(inbound.is_mentioned);
    assert_eq!(inbound.content, "你好！");
}

#[test]
fn no_at_segment_is_not_mentioned() {
    let e = event(
        "message",
        1,
        r#"{
            "message_type": "group",
            "message_id": 1,
            "group_id": 500000,
            "user_id": 900001,
            "message": [
                {"type": "text", "data": {"text": "大家早上好"}},
                {"type": "face", "data": {"id": "1"}}
            ],
            "sender": {"user_id": 900001, "nickname": "小明"}
        }"#,
    );
    let inbound = onebot_event_to_inbound(&e).unwrap();
    assert!(!inbound.is_mentioned);
}

#[test]
fn non_message_event_is_error() {
    let e = event("meta_event", 1, r#"{"meta_event_type": "heartbeat"}"#);
    assert!(onebot_event_to_inbound(&e).is_err());
    assert_eq!(refused(&e), "非消息事件: meta_event");
    assert!(!is_message_event(&e));
}

#[test]
fn cq_code_string_is_stripped() {
    let e = event(
        "message",
        1,
        r#"{
            "message_type": "group",
            "message_id": 1,
            "group_id": 1,
            "user_id": 2,
            "message": "看看这张图 [CQ:image,file=img.png] 怎么样",
            "sender": {"user_id": 2, "nickname": "a"}
        }"#,
    );
    let inbound = onebot_event_to_inbound(&e).unwrap();
    assert_eq!(inbound.content, "看看这张图  怎么样");
}

#[test]
fn codes_are_stripped_one_by_one() {
    assert_eq!(strip_cq_codes("  plain [text] "), "plain [text]");
    assert_eq!(strip_cq_codes("[CQ:at,qq=1]a[CQ:face,id=2]b"), "ab");
    assert_eq!(strip_cq_codes("before [CQ:image,file=x"), "before");
    assert_eq!(strip_cq_codes("a]b[CQ:x]c"), "a]bc");
    assert_eq!(strip_cq_codes("[CQ[CQ:a]:b]"), "[CQ:b]");
}

#[test]
fn events_without_what_is_needed_are_refused() {
    assert_eq!(refused(&event("message", 1, "{}")), "缺少 message_type");
    assert_eq!(
        refused(&event("message", 1, r#"{"message_type": "guild"}"#)),
        "不支持的消息类型: guild"
    );
    assert_eq!(
        refused(&event("message", 1, r#"{"message_type": "group", "user_id": 1}"#)),
        "缺少会话 ID"
    );
    assert_eq!(
        refused(&event("message", 1, r#"{"message_type": "group", "group_id": 1}"#)),
        "缺少 user_id"
    );
    assert_eq!(
        refused(&event("message", 1, r#"{"message_type": "private", "user_id": 1.5}"#)),
        "缺少会话 ID"
    );
    assert_eq!(
        refused(&event("message", 1, r#"{"message_type": "private", "user_id": 1}"#)),
        "缺少 message_id"
    );
}

#[test]
fn senders_are_named_by_card_or_nickname() {
    let named = |sender: &str| {
        let data = format!(
            r#"{{"message_type": "private", "user_id": -4, "message_id": 1{sender}}}"#
        );
        onebot_event_to_inbound(&event("message", 1, &data)).unwrap()
    };
    let both = named(r#", "sender": {"card": "名片", "nickname": "昵称"}"#);
    assert_eq!(both.display_name, "名片");
    assert_eq!(named(r#", "sender": {"card": ""}"#).display_name, "未知用户");
    let bare = named("");
    assert_eq!(bare.display_name, "未知用户");
    assert_eq!(bare.content, "");
    assert_eq!(bare.external_conversation_id, "-4");
    assert_eq!(parse_qq_id(&bare.external_conversation_id), -4);
}

#[test]
fn texts_of_segments_are_joined() {
    let doc = json(r#"[{"type": "text", "data": {"text": " a"}}, {"type": "text"}, 5, {"type": "text", "data": {"text": "b \n"}}]"#);
    assert_eq!(extract_text_content(Some(&doc)), " ab");
    assert!(!contains_at_segment(Some(&doc)));
    assert_eq!(extract_text_content(Some(&json("7"))), "");
    assert_eq!(extract_text_content(None), "");
    assert!(!contains_at_segment(Some(&json(r#""[CQ:at,qq=1]""#))));
}

// Messages to requests.

#[test]
fn build_group_request() {
    let req = build_group_send_request("500000", "回复你");
    assert_eq!(req.action, "send_group_msg");
    assert_eq!(req.params.i64_at("group_id"), Some(500000));
    assert_eq!(req.params.text_at("message").map(|s| s.as_str()), Some("回复你"));
}

#[test]
fn build_private_request() {
    let req = build_private_send_request("555", "私聊回复");
    assert_eq!(req.action, "send_private_msg");
    assert_eq!(req.params.i64_at("user_id"), Some(555));
    assert_eq!(req.params.text_at("message").map(|s| s.as_str()), Some("私聊回复"));
}

#[test]
fn platform_names_are_numbers() {
    assert_eq!(parse_qq_id(" 42 "), 42);
    assert_eq!(parse_qq_id("-9223372036854775808"), i64::MIN);
    assert_eq!(parse_qq_id("9223372036854775808"), 0);
    assert_eq!(parse_qq_id("abc"), 0);
}

#[test]
fn requests_are_framed_only_while_connected() {
    let req = build_group_send_request("1", "x");
    let frame = enqueue_outgoing(OneBotConnectionState::Connected, &req).unwrap();
    assert_eq!(frame.text_at("action").map(|s| s.as_str()), Some("send_group_msg"));
    assert_eq!(frame.text_at("echo").map(|s| s.as_str()), Some("send"));
    assert_eq!(frame.get("params").unwrap().i64_at("group_id"), Some(1));
    for state in [
        OneBotConnectionState::Disconnected,
        OneBotConnectionState::Connecting,
        OneBotConnectionState::Reconnecting,
    ] {
        let e = enqueue_outgoing(state, &req).unwrap_err();
        assert_eq!(adapter_text(e), "OneBot 未连接，暂时无法发送消息");
    }
    assert_eq!(adapter_text(unwritten("e")), "序列化出站请求失败: e");
    assert_eq!(adapter_text(undelivered("e")), "出站通道已关闭: e");
}

#[test]
fn adapters_start_once() {
    assert!(start(false).is_ok());
    assert_eq!(adapter_text(start(true).unwrap_err()), "适配器已启动");
}

// Frames to events.

#[test]
fn raw_frames_become_messages() {
    assert!(matches!(handle_raw(Err("bad".to_string())), RawOutcome::Malformed(e) if e == "bad"));
    assert!(matches!(handle_raw(Ok(event("notice", 1, "{}"))), RawOutcome::Ignored));
    assert!(matches!(handle_raw(Ok(event("message", 1, "{}"))), RawOutcome::Refused(_)));
    let inbound = match handle_raw(Ok(group_event())) {
        RawOutcome::Resolve(inbound) => inbound,
        other => panic!("unexpected {other:?}"),
    };
    match publish_inbound(inbound, Ok((3, 4)), at(5)) {
        Some(CoreEvent::MessageReceived(e)) => {
            assert_eq!(e.conversation_id, 3);
            assert_eq!(e.sender_id, 4);
            assert_eq!(e.message_id, 0);
            assert_eq!(e.content, "你好，世界！");
            assert_eq!(e.timestamp, at(1690000000));
            assert!(!e.is_mentioned);
        }
        other => panic!("unexpected {other:?}"),
    }
}

fn inbound_at(unix_time: i64) -> InboundMessage {
    let mut inbound = onebot_event_to_inbound(&group_event()).unwrap();
    inbound.unix_time = unix_time;
    inbound
}

#[test]
fn times_beyond_the_calendar_are_now() {
    let when = |unix_time| match publish_inbound(inbound_at(unix_time), Ok((1, 1)), at(9)) {
        Some(CoreEvent::MessageReceived(e)) => e.timestamp,
        other => panic!("unexpected {other:?}"),
    };
    for secs in [i64::MIN, -8_334_601_228_801, -8_334_601_228_800, 0, 8_210_266_876_799, 8_210_266_876_800] {
        let expected = match chrono::DateTime::from_timestamp(secs, 0) {
            Some(t) => at(t.timestamp()),
            None => at(9),
        };
        assert_eq!(when(secs), expected);
    }
    let failed = publish_inbound(inbound_at(1), Err(RuntimeError::Internal("x".to_string())), at(9));
    assert!(failed.is_none());
}

fn private_message(content: &str) -> InboundMessage {
    InboundMessage {
        conversation_type: ConversationType::Private,
        external_conversation_id: "10001".to_string(),
        external_sender_id: "10001".to_string(),
        display_name: "小油".to_string(),
        platform_message_id: 5,
        content: content.to_string(),
        unix_time: 1690000000,
        is_mentioned: false,
    }
}

#[test]
fn commands_are_cut_off_before_they_are_messages() {
    match publish_inbound(private_message("换角色 木然"), Ok((3, 4)), at(5)) {
        Some(CoreEvent::CommandReceived(e)) => {
            assert_eq!(e.conversation_id, 3);
            assert_eq!(e.sender_id, 4);
            assert_eq!(e.external_sender_id, "10001");
            assert_eq!(e.message_id, 0);
            assert_eq!(e.content, "换角色 木然");
            assert_eq!(e.timestamp, at(1690000000));
            assert_eq!(
                e.command,
                Command::SwitchCharacter { character_name: "木然".to_string() }
            );
        }
        other => panic!("unexpected {other:?}"),
    }
    let failed = Err(RuntimeError::Internal("x".to_string()));
    assert!(publish_inbound(private_message("换角色 木然"), failed, at(5)).is_none());
    assert!(matches!(
        publish_inbound(private_message("换角色木然"), Ok((3, 4)), at(5)),
        Some(CoreEvent::MessageReceived(_))
    ));
    let mut in_group = private_message("换角色 木然");
    in_group.conversation_type = ConversationType::Group;
    assert!(matches!(
        publish_inbound(in_group, Ok((3, 4)), at(5)),
        Some(CoreEvent::MessageReceived(_))
    ));
}
