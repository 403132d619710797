//! The control service and its client.

use yomua::application::config::RuntimeConfig;
use yomua::application::control::{
    handle_connection, handle_help, handle_reload_config, handle_shutdown, handle_state_get,
    handle_state_set, handle_status, interpret_request, read_request, requested_character,
    requested_conversation, route, BuiltinHandlers, CommandRegistry, ControlData,
    ControlErrorDetail, ControlResponse, Request, Routed, RuntimeStatus, StateFacts, StatePlan,
    StateWrite,
};
use yomua::ctl::{
    build_request, parse_args, rand_u32, received, request_number, show_response, Invocation,
    Options, Received, Response, Shown, StateParams,
};
use yomua::domain::character::{CharacterState, ConversationState};
use yomua::domain::emotion::Mood;
use yomua::error::RuntimeError;
use yomua::json::{parse_json, Json};
use yomua::scalar::Scalar;
use yomua::time::Timestamp;

fn s(x: f64) -> Scalar {
    Scalar { bits: x.to_bits() }
}

fn f(x: Scalar) -> f64 {
    f64::from_bits(x.bits)
}

fn now() -> Timestamp {
    Timestamp { secs: 1000, nanos: 0 }
}

fn json(text: &str) -> Json {
    parse_json(text.as_bytes().to_vec()).expect("valid JSON")
}

fn registry() -> CommandRegistry<u8> {
    CommandRegistry::builtin(BuiltinHandlers {
        status: 0,
        reload_config: 1,
        shutdown: 2,
        help: 3,
        state_set: 4,
        state_get: 5,
    })
}

fn facts() -> StateFacts {
    StateFacts {
        character: Ok(true),
        conversation: Ok(true),
        character_state: Ok(None),
        conversation_state: Ok(None),
        mood: Ok(None),
    }
}

fn error_of(response: &ControlResponse) -> (&str, &str) {
    let e = response.error.as_ref().expect("refused");
    (e.code, e.message.as_str())
}

// Requests.

#[test]
fn requests_find_their_handlers() {
    match handle_connection(&registry(), br#"{"id": 7, "cmd": "state-get", "params": {"a": 1}}"#.to_vec()) {
        Some(Routed::Run { handler, id, params }) => {
            assert_eq!(handler, 5);
            assert_eq!(id, 7);
            assert_eq!(params.i64_at("a"), Some(1));
        }
        other => panic!("unexpected {other:?}"),
    }
    assert!(handle_connection(&registry(), vec![]).is_none());
}

#[test]
fn bad_requests_are_answered_at_once() {
    let answer = |bytes: &[u8]| match handle_connection(&registry(), bytes.to_vec()) {
        Some(Routed::Answer(response)) => response,
        other => panic!("unexpected {other:?}"),
    };
    let broken = answer(b"{");
    assert_eq!(broken.id, 0);
    assert_eq!(error_of(&broken).0, "INVALID_JSON");
    assert!(error_of(&broken).1.starts_with("无效的 JSON: EOF"));
    let nameless = answer(br#"{"id": 9}"#);
    assert_eq!(nameless.id, 9);
    assert_eq!(error_of(&nameless), ("MISSING_CMD", "请求缺少 cmd 字段"));
    let unknown = answer(br#"{"id": 9, "cmd": "dance"}"#);
    assert_eq!(error_of(&unknown), ("UNKNOWN_COMMAND", "未知命令: dance，使用 help 查看可用命令"));
}

#[test]
fn requests_are_taken_apart() {
    match interpret_request(&json(r#"{"cmd": "help"}"#)) {
        Request::Command { id, cmd, params } => {
            assert_eq!(id, 0);
            assert_eq!(cmd, "help");
            assert!(params.is_null());
        }
        other => panic!("unexpected {other:?}"),
    }
    let r = route(&registry(), read_request(br#"{"cmd": "status", "id": 18446744073709551615}"#.to_vec()));
    assert!(matches!(r, Routed::Run { handler: 0, id: u64::MAX, .. }));
}

#[test]
fn commands_are_registered_once_by_name() {
    let mut commands: CommandRegistry<u8> = CommandRegistry::new();
    commands.register("ping", "a", 1);
    commands.register("ping", "b", 2);
    assert_eq!(commands.descriptions().len(), 1);
    assert_eq!(commands.descriptions()[0].description, "b");
    assert_eq!(commands.dispatch("ping"), Some(2));
    assert_eq!(commands.dispatch("pong"), None);
}

#[test]
fn simple_commands_are_answered() {
    match handle_help(1, &registry()).data {
        Some(ControlData::Commands(list)) => {
            assert_eq!(list.len(), 6);
            assert!(list.iter().any(|d| d.name == "state-set"));
        }
        _ => panic!("expected Commands"),
    }
    match handle_shutdown(2).data {
        Some(ControlData::Message(text)) => assert_eq!(text, "关停信号已发送"),
        _ => panic!("expected Message"),
    }
    let status = RuntimeStatus {
        adapter_state: "Connected".to_string(),
        plugin_count: 2,
        data_dir: "data".to_string(),
        log_level: "info".to_string(),
    };
    match handle_status(3, status).data {
        Some(ControlData::Status(s)) => assert_eq!(s.plugin_count, 2),
        _ => panic!("expected Status"),
    }
    assert_eq!(ControlErrorDetail::internal("x").message, "x");
}

#[test]
fn reloaded_settings_are_checked() {
    let good = RuntimeConfig {
        admin_users: Some(vec!["1".to_string()]),
        ..RuntimeConfig::default()
    };
    assert!(handle_reload_config(1, Ok(good)).unwrap().ok);
    let bad = RuntimeConfig { shutdown_timeout_secs: 0, ..RuntimeConfig::default() };
    let refused = handle_reload_config(1, Ok(bad)).unwrap();
    assert_eq!(error_of(&refused).0, "VALIDATION_ERROR");
    assert!(error_of(&refused).1.contains("; shutdown_timeout_secs 必须大于 0"));
    let failed = handle_reload_config(1, Err(RuntimeError::Config("x".to_string())));
    assert!(matches!(failed, Err(RuntimeError::Config(t)) if t == "配置错误：x"));
}

// States.

fn set(params: &str, facts: StateFacts) -> StatePlan {
    handle_state_set(1, &json(params), facts, now())
}

fn refusal(plan: StatePlan) -> String {
    assert!(plan.writes.is_empty(), "refused requests store nothing");
    error_of(&plan.outcome.unwrap()).0.to_string()
}

#[test]
fn global_states_are_set_and_bounded() {
    let plan = set(r#"{"character_id": 3, "energy": 150, "stress": 20.5, "activity": "读书"}"#, facts());
    assert!(plan.outcome.unwrap().ok);
    match &plan.writes[..] {
        [StateWrite::Character { character_id, state }] => {
            assert_eq!(*character_id, 3);
            assert_eq!(f(state.energy), 100.0);
            assert_eq!(f(state.stress), 20.5);
            assert_eq!(state.current_activity.as_deref(), Some("读书"));
        }
        other => panic!("unexpected {other:?}"),
    }
}

#[test]
fn states_in_a_conversation_are_set_before_the_mood() {
    let plan = set(r#"{"character_id": 3, "conversation_id": 8, "energy": 60, "mood": -5}"#, facts());
    match &plan.writes[..] {
        [StateWrite::Conversation { levels, .. }, StateWrite::Mood { conversation_id, mood, .. }] => {
            assert_eq!(f(levels.energy), 60.0);
            assert_eq!(f(levels.stress), f(ConversationState::default_at(now()).stress));
            assert_eq!(*conversation_id, 8);
            assert_eq!(f(mood.value), 0.0);
        }
        other => panic!("unexpected {other:?}"),
    }
}

#[test]
fn wrong_settings_are_refused() {
    assert_eq!(refusal(set("[]", facts())), "INVALID_PARAMS");
    assert_eq!(refusal(set(r#"{"character_id": 0, "energy": 1}"#, facts())), "INVALID_PARAMS");
    assert_eq!(refusal(set(r#"{"character_id": 1}"#, facts())), "INVALID_PARAMS");
    assert_eq!(
        refusal(set(r#"{"character_id": 1, "conversation_id": -1, "energy": 1}"#, facts())),
        "INVALID_PARAMS"
    );
    assert_eq!(
        refusal(set(r#"{"character_id": 1, "mood": 1}"#, facts())),
        "MOOD_REQUIRES_CONVERSATION"
    );
    assert_eq!(
        refusal(set(r#"{"character_id": 1, "conversation_id": 2, "activity": "x"}"#, facts())),
        "SCOPED_ACTIVITY_UNSUPPORTED"
    );
    let mut nobody = facts();
    nobody.character = Ok(false);
    assert_eq!(refusal(set(r#"{"character_id": 1, "energy": 1}"#, nobody)), "CHARACTER_NOT_FOUND");
    let mut nowhere = facts();
    nowhere.conversation = Ok(false);
    assert_eq!(
        refusal(set(r#"{"character_id": 1, "conversation_id": 2, "energy": 1}"#, nowhere)),
        "CONVERSATION_NOT_FOUND"
    );
    assert_eq!(
        refusal(set(r#"{"character_id": 1, "conversation_id": "10", "energy": 90}"#, facts())),
        "INVALID_PARAMS"
    );
    let plan = set(r#"{"character_id": 1, "energy": "high"}"#, facts());
    assert!(matches!(plan.outcome, Err(RuntimeError::Internal(t)) if t == "energy 必须是数字"));
}

#[test]
fn what_was_set_can_be_read() {
    let plan = set(r#"{"character_id": 3, "energy": 42}"#, facts());
    let state = match plan.writes.into_iter().next() {
        Some(StateWrite::Character { state, .. }) => state,
        other => panic!("unexpected {other:?}"),
    };
    let mut later = facts();
    later.character_state = Ok(Some(state));
    let read = handle_state_get(2, &json(r#"{"character_id": 3}"#), later);
    assert!(read.writes.is_empty());
    match read.outcome.unwrap().data {
        Some(ControlData::State(report)) => {
            assert_eq!(report.character_id, 3);
            assert_eq!(f(report.character_state.unwrap().unwrap().energy), 42.0);
        }
        _ => panic!("expected State"),
    }
}

#[test]
fn states_in_a_conversation_are_read() {
    let mut there = facts();
    there.conversation_state = Ok(Some(ConversationState {
        energy: s(11.0),
        stress: s(12.0),
        last_updated: now(),
    }));
    there.mood = Ok(Some(Mood { value: s(13.0), last_updated: now() }));
    there.character_state = Ok(Some(CharacterState::default_at(now())));
    let read = handle_state_get(2, &json(r#"{"character_id": 3, "conversation_id": 8}"#), there);
    match read.outcome.unwrap().data {
        Some(ControlData::State(report)) => {
            assert_eq!(report.conversation_id, Some(8));
            assert_eq!(f(report.conversation_state.unwrap().unwrap().energy), 11.0);
            assert_eq!(f(report.mood.unwrap().unwrap().value), 13.0);
        }
        _ => panic!("expected State"),
    }
    assert_eq!(requested_character(&json(r#"{"character_id": 3}"#)), Some(3));
    assert_eq!(requested_conversation(&json(r#"{"conversation_id": 0}"#)), Ok(None));
    assert_eq!(requested_conversation(&json(r#"{"conversation_id": -1}"#)), Err(()));
    assert_eq!(requested_conversation(&json(r#"{"conversation_id": "10"}"#)), Err(()));
    assert_eq!(requested_conversation(&json(r#"{"conversation_id": 1.5}"#)), Err(()));
    assert_eq!(requested_conversation(&json(r#"{"conversation_id": null}"#)), Ok(None));
    assert_eq!(requested_conversation(&json(r#"{}"#)), Ok(None));
}

#[test]
fn a_null_conversation_is_none() {
    let params = r#"{"character_id": 3, "conversation_id": null, "energy": 90}"#;
    let plan = set(params, facts());
    assert!(plan.outcome.unwrap().ok);
    assert!(matches!(&plan.writes[..], [StateWrite::Character { character_id: 3, .. }]));
    let read = handle_state_get(2, &json(params), facts());
    match read.outcome.unwrap().data {
        Some(ControlData::State(report)) => assert_eq!(report.conversation_id, None),
        _ => panic!("expected State"),
    }
}

#[test]
fn states_of_the_missing_are_not_read() {
    let get = |params: &str, facts| refusal(handle_state_get(2, &json(params), facts));
    let mut nobody = facts();
    nobody.character = Ok(false);
    assert_eq!(get(r#"{"character_id": 3}"#, nobody), "CHARACTER_NOT_FOUND");
    let mut nowhere = facts();
    nowhere.conversation = Ok(false);
    assert_eq!(
        get(r#"{"character_id": 3, "conversation_id": 8}"#, nowhere),
        "CONVERSATION_NOT_FOUND"
    );
    assert_eq!(
        get(r#"{"character_id": 3, "conversation_id": "8"}"#, facts()),
        "INVALID_PARAMS"
    );
    let mut elsewhere = facts();
    elsewhere.conversation = Ok(false);
    let read = handle_state_get(2, &json(r#"{"character_id": 3}"#), elsewhere);
    assert!(read.outcome.unwrap().ok, "no conversation is named");
    let mut broken = facts();
    broken.character = Err("断开".to_string());
    let read = handle_state_get(2, &json(r#"{"character_id": 3}"#), broken);
    assert!(matches!(read.outcome, Err(RuntimeError::Internal(t)) if t == "断开"));
}

// The client.

fn run(args: &[&str]) -> Invocation {
    let args: Vec<String> = args.iter().map(|a| a.to_string()).collect();
    let numbers = args.iter().map(|a| a.parse::<f64>().ok().map(s)).collect();
    parse_args(&args, &numbers)
}

fn options(args: &[&str]) -> Options {
    match run(args) {
        Invocation::Run(options) => options,
        other => panic!("unexpected {other:?}"),
    }
}

fn complaint(args: &[&str]) -> String {
    match run(args) {
        Invocation::Fail(text) => text,
        other => panic!("unexpected {other:?}"),
    }
}

#[test]
fn arguments_are_read() {
    let o = options(&["--socket", "/tmp/s", "--data-dir", "d", "status"]);
    assert_eq!(o.socket.as_deref(), Some("/tmp/s"));
    assert_eq!(o.data_dir, "d");
    assert_eq!(o.command.as_deref(), Some("status"));
    let o = options(&[
        "state-set", "--character", "3", "--conversation", "+8", "--mood", "1.5", "--energy", "2",
        "--stress", "-3",
    ]);
    assert_eq!(o.data_dir, "data");
    assert_eq!(o.state.character_id, Some(3));
    assert_eq!(o.state.conversation_id, Some(8));
    assert_eq!(o.state.mood, Some(s(1.5)));
    assert_eq!(o.state.energy, Some(s(2.0)));
    assert_eq!(o.state.stress, Some(s(-3.0)));
    assert!(matches!(run(&["status", "--help", "--nonsense"]), Invocation::Help));
    assert!(matches!(run(&["-h"]), Invocation::Help));
}

#[test]
fn the_first_wrong_argument_is_reported() {
    assert_eq!(complaint(&[]), "用法: yomua-ctl [选项] <命令>\n运行 yomua-ctl --help 查看帮助");
    assert_eq!(complaint(&["--socket"]), "错误: --socket 需要一个路径参数");
    assert_eq!(complaint(&["--data-dir"]), "错误: --data-dir 需要一个路径参数");
    assert_eq!(complaint(&["--character"]), "错误: --character 需要一个角色 ID");
    assert_eq!(complaint(&["--conversation"]), "错误: --conversation 需要一个会话 ID");
    assert_eq!(complaint(&["--mood"]), "错误: --mood 需要一个数值");
    assert_eq!(complaint(&["--energy"]), "错误: --energy 需要一个数值");
    assert_eq!(complaint(&["--stress"]), "错误: --stress 需要一个数值");
    assert_eq!(complaint(&["--activity"]), "错误: --activity 需要一个文本");
    assert_eq!(complaint(&["--character", "0"]), "错误: --character 必须是正整数");
    assert_eq!(complaint(&["--conversation", "x"]), "错误: --conversation 必须是正整数");
    assert_eq!(complaint(&["--mood", "x"]), "错误: --mood 必须是数字（0-100）");
    assert_eq!(complaint(&["--energy", "x"]), "错误: --energy 必须是数字（0-100）");
    assert_eq!(complaint(&["--stress", "x"]), "错误: --stress 必须是数字（0-100）");
    assert_eq!(complaint(&["status", "extra"]), "错误: 未知选项: extra");
    assert_eq!(complaint(&["--data-dir", "d"]), "错误: 未指定命令");
    assert_eq!(complaint(&["state-get"]), "错误: state-get 需要 --character <角色ID>");
    assert_eq!(
        complaint(&["state-set", "--character", "1"]),
        "错误: state-set 至少需要一个状态字段（--mood / --energy / --stress / --activity）"
    );
    assert_eq!(
        complaint(&["state-set", "--character", "1", "--mood", "5"]),
        "错误: mood 属于 Character × Conversation 范围，必须同时提供 --conversation"
    );
    assert_eq!(
        complaint(&["state-set", "--character", "1", "--conversation", "2", "--activity", "x"]),
        "错误: activity 仅存在于全局 Character State；会话级 activity 模型未定义"
    );
    assert_eq!(
        complaint(&["dance"]),
        "错误: 未知命令: dance\n可用命令: status, reload-config, shutdown, help, state-get, state-set"
    );
}

#[test]
fn the_server_grants_what_the_client_sends() {
    let o = options(&["state-set", "--character", "3", "--energy", "42.5", "--activity", "读书"]);
    let doc = build_request(7, o.command.as_deref().unwrap(), &o.state);
    match route(&registry(), interpret_request(&doc)) {
        Routed::Run { handler, id, params } => {
            assert_eq!((handler, id), (4, 7));
            let plan = handle_state_set(id, &params, facts(), now());
            assert!(plan.outcome.unwrap().ok);
            match &plan.writes[..] {
                [StateWrite::Character { state, .. }] => {
                    assert_eq!(f(state.energy), 42.5);
                    assert_eq!(state.current_activity.as_deref(), Some("读书"));
                }
                other => panic!("unexpected {other:?}"),
            }
        }
        other => panic!("unexpected {other:?}"),
    }
    let plain = build_request(8, "status", &StateParams::default());
    assert!(!plain.has_key("params"));
    assert_eq!(plain.get("id").unwrap().as_u64(), Some(8));
}

#[test]
fn levels_without_a_number_are_sent_as_null() {
    let state = StateParams { mood: Some(s(f64::NAN)), ..StateParams::default() };
    assert!(state.to_json().get("mood").unwrap().is_null());
    assert!(!state.to_json().has_key("energy"));
    let state = StateParams { energy: Some(s(f64::INFINITY)), ..StateParams::default() };
    assert!(state.to_json().get("energy").unwrap().is_null());
}

#[test]
fn answers_are_shown() {
    let response = |ok, data: Option<u8>, error: Option<(&str, &str)>| Response {
        id: 5,
        ok,
        data,
        error: error.map(|(c, m)| (c.to_string(), m.to_string())),
    };
    assert!(matches!(show_response(5, response(true, Some(1), None)), Shown::Data(1)));
    match show_response(5, response(true, None, None)) {
        Shown::Line(text) => assert_eq!(text, r#"{"id": 5, "ok": true}"#),
        other => panic!("unexpected {other:?}"),
    }
    let failure = |shown| match shown {
        Shown::<u8>::Failure(text) => text,
        other => panic!("unexpected {other:?}"),
    };
    assert_eq!(
        failure(show_response(5, response(false, None, Some(("E", "坏"))))),
        "错误[E@5]: 坏"
    );
    assert_eq!(
        failure(show_response(5, response(false, None, None))),
        "错误[UNKNOWN@5]: 未知错误"
    );
    assert_eq!(
        failure(show_response(6, response(true, None, None))),
        "错误: 响应 ID 不匹配（请求: 6, 响应: 5）"
    );
}

#[test]
fn answers_that_do_not_come_are_reported() {
    assert_eq!(received(Received::Bytes(12)), Ok(12));
    assert_eq!(received(Received::Bytes(0)), Err("错误: 服务器关闭了连接".to_string()));
    assert_eq!(
        received(Received::Failed("reset".to_string())),
        Err("错误: 读取响应失败: reset".to_string())
    );
    assert!(received(Received::TimedOut).unwrap_err().starts_with("错误: 服务器响应超时（5 秒）"));
}

#[test]
fn request_numbers_mix_time_and_chance() {
    assert_eq!(rand_u32(0x1_0000_0005, 3), 8);
    assert_eq!(rand_u32(0xFFFF_FFFF, 2), 1);
    assert_eq!(request_number(0b1100, 0b1010), 0b0110);
}
