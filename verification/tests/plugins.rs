//! What plugins may ask for.

use yomua::application::action::{execute, Delivery};
use yomua::application::llm_scheduler::LlmRole;
use yomua::application::plugin_api::{
    answered, api_character_state_write, api_relationship_write, carried_out, data_deleted,
    data_found, dispatch, llm_role_of, memory_type_of, optional_f64, optional_i64, optional_str,
    optional_u8, parse_llm_role, parse_memory_type, require_i64, require_str, stored, unwritten,
    ApiPlan, DataOp, MemoryFilter,
};
use yomua::domain::behavior::Action;
use yomua::domain::character::CharacterState;
use yomua::domain::conversation::{Conversation, ConversationType};
use yomua::domain::memory::MemoryType;
use yomua::domain::relationship::Relationship;
use yomua::error::{RepositoryError, RuntimeError};
use yomua::json::{parse_json, Json};
use yomua::scalar::Scalar;
use yomua::time::Timestamp;

fn s(x: f64) -> Scalar {
    Scalar { bits: x.to_bits() }
}

fn f(x: Scalar) -> f64 {
    f64::from_bits(x.bits)
}

fn now() -> Timestamp {
    Timestamp { secs: 1000, nanos: 0 }
}

fn json(text: &str) -> Json {
    parse_json(text.as_bytes().to_vec()).expect("valid JSON")
}

/// A call of a plugin that may do everything.
fn call(method: &str, params: &str) -> Result<ApiPlan, String> {
    dispatch("alpha", Some(Ok(())), method, &json(params), now())
}

fn refused(method: &str, params: &str) -> String {
    match call(method, params) {
        Err(e) => e,
        Ok(plan) => panic!("unexpected {plan:?}"),
    }
}

#[test]
fn message_send_via_group_conversation() {
    let action = match call(
        "message.send",
        r#"{ "conversation_id": 1, "content": "你好，插件消息" }"#,
    ) {
        Ok(ApiPlan::Send { conversation_id, content }) => {
            Action::SendMessage { conversation_id, content }
        }
        other => panic!("unexpected {other:?}"),
    };
    let group = Conversation {
        id: 1,
        conversation_type: ConversationType::Group,
        external_id: "12345".to_string(),
        name: None,
        created_at: now(),
        updated_at: now(),
    };
    match carried_out(execute(action, Ok(Some(group)))) {
        Ok(Some(Delivery::Group { group_id, content })) => {
            assert_eq!(group_id, "12345");
            assert_eq!(content, "你好，插件消息");
        }
        other => panic!("unexpected {other:?}"),
    }
}

#[test]
fn message_send_unknown_conversation_translates_error() {
    let action = Action::SendMessage { conversation_id: 99, content: "hi".to_string() };
    let err = carried_out(execute(action, Ok(None))).unwrap_err();
    assert!(err.contains("会话未找到"), "错误信息：{err}");
}

#[test]
fn dispatch_rejects_missing_permission() {
    let verdict = Some(Err("权限不足：需要 message.send".to_string()));
    let params = json(r#"{ "conversation_id": 1, "content": "x" }"#);
    let err = dispatch("beta", verdict, "message.send", &params, now()).unwrap_err();
    assert!(err.contains("权限不足"), "错误信息：{err}");
    assert!(err.contains("message.send"), "错误信息应含所需权限：{err}");
}

#[test]
fn dispatch_unknown_method_rejected() {
    assert_eq!(refused("no.such.method", "{}"), "未知方法：no.such.method");
}

#[test]
fn dispatch_unregistered_plugin_rejected() {
    let err = dispatch("stranger", None, "character.read", &json("{}"), now()).unwrap_err();
    assert!(err.contains("插件未注册"), "错误信息：{err}");
    let err = dispatch("stranger", None, "plugin_data.list", &json("{}"), now()).unwrap_err();
    assert!(err.contains("插件未注册"), "错误信息：{err}");
}

#[test]
fn dispatch_param_errors_are_chinese() {
    let err = refused("message.send", r#"{ "conversation_id": 1 }"#);
    assert!(err.contains("缺少参数"), "错误信息：{err}");
    let err = refused("message.send", r#"{ "conversation_id": "abc", "content": "x" }"#);
    assert!(err.contains("必须是整数"), "错误信息：{err}");
    let err = api_character_state_write(
        &json(r#"{ "character_id": 1, "state": "bad" }"#),
        Ok(true),
        Ok(None),
        now(),
    )
    .unwrap_err();
    assert!(err.contains("必须是对象"), "错误信息：{err}");
    let err = refused("memory.read", "5");
    assert!(err.contains("缺少参数"), "错误信息：{err}");
}

#[test]
fn message_read_not_implemented_even_with_permission() {
    assert_eq!(refused("message.read", "{}"), "message.read 暂未实现");
}

#[test]
fn scheduler_create_rejected() {
    assert_eq!(refused("scheduler.create", "{}"), "scheduler.create 本期不开放");
}

#[test]
fn character_read_all_and_by_id_and_null() {
    assert!(matches!(call("character.read", "{}"), Ok(ApiPlan::ReadCharacter(None))));
    assert!(matches!(
        call("character.read", r#"{ "character_id": 1 }"#),
        Ok(ApiPlan::ReadCharacter(Some(1)))
    ));
    assert!(matches!(
        call("character.read", r#"{ "character_id": null }"#),
        Ok(ApiPlan::ReadCharacter(None))
    ));
    let none: Result<Option<i64>, String> = stored(Ok(None));
    assert_eq!(none, Ok(None), "未知角色应返回 null");
}

#[test]
fn character_state_read_null_then_value() {
    assert!(matches!(
        call("character.state.read", r#"{ "character_id": 1 }"#),
        Ok(ApiPlan::ReadState(1))
    ));
    assert!(matches!(
        call("character.state.write", r#"{ "character_id": 1 }"#),
        Ok(ApiPlan::WriteState(1))
    ));
    let written = api_character_state_write(
        &json(r#"{ "character_id": 1, "state": { "energy": 80.0, "social_mood": "happy" } }"#),
        Ok(true),
        Ok(None),
        now(),
    )
    .unwrap();
    assert_eq!(f(written.energy), 80.0);
    assert_eq!(written.social_mood.as_deref(), Some("happy"));
}

#[test]
fn character_state_write_partial_patch_merge_and_clamp() {
    let merged = api_character_state_write(
        &json(r#"{ "character_id": 1, "state": { "energy": 250.0, "social_mood": "happy" } }"#),
        Ok(true),
        Ok(None),
        now(),
    )
    .unwrap();
    assert_eq!(f(merged.energy), 100.0, "超上限应被 clamped");
    assert_eq!(
        f(merged.attention),
        f(CharacterState::default_at(now()).attention),
        "未提供的字段保留默认"
    );
    assert_eq!(merged.social_mood.as_deref(), Some("happy"));

    let merged2 = api_character_state_write(
        &json(r#"{ "character_id": 1, "state": { "attention": 30.0 } }"#),
        Ok(true),
        Ok(Some(merged)),
        now(),
    )
    .unwrap();
    assert_eq!(f(merged2.energy), 100.0);
    assert_eq!(f(merged2.attention), 30.0);

    let err = api_character_state_write(
        &json(r#"{ "character_id": 99, "state": { "energy": 10.0 } }"#),
        Ok(false),
        Ok(None),
        now(),
    )
    .unwrap_err();
    assert!(err.contains("角色不存在"), "错误信息：{err}");
}

#[test]
fn patches_of_the_wrong_kind_are_refused() {
    let write = |state: &str| {
        api_character_state_write(
            &json(&format!(r#"{{ "state": {state} }}"#)),
            Ok(true),
            Ok(None),
            now(),
        )
    };
    assert_eq!(write(r#"{ "energy": null }"#).unwrap_err(), "参数 energy 必须是数字");
    assert_eq!(write(r#"{ "attention": "a" }"#).unwrap_err(), "参数 attention 必须是数字");
    assert_eq!(write(r#"{ "stress": [] }"#).unwrap_err(), "参数 stress 必须是数字");
    assert_eq!(
        write(r#"{ "current_activity": 1 }"#).unwrap_err(),
        "参数 current_activity 必须是字符串"
    );
    assert_eq!(write(r#"{ "social_mood": 1 }"#).unwrap_err(), "参数 social_mood 必须是字符串");
    let failed = api_character_state_write(
        &json(r#"{ "state": {} }"#),
        Err(RepositoryError::Database("断开".to_string())),
        Ok(None),
        now(),
    );
    assert!(failed.unwrap_err().contains("断开"));
}

#[test]
fn memory_read_filters_and_searches() {
    match call("memory.read", r#"{ "character_id": 1, "memory_type": "SEMANTIC" }"#) {
        Ok(ApiPlan::ReadMemories { character_id, filter: MemoryFilter::Kind(kind), .. }) => {
            assert_eq!(character_id, 1);
            assert_eq!(kind, Some(MemoryType::Semantic));
        }
        other => panic!("unexpected {other:?}"),
    }
    match call("memory.read", r#"{ "character_id": 1, "keywords": ["猫"] }"#) {
        Ok(ApiPlan::ReadMemories { filter: MemoryFilter::Keywords(words), .. }) => {
            assert_eq!(words, vec!["猫".to_string()]);
        }
        other => panic!("unexpected {other:?}"),
    }
    let err = refused("memory.read", r#"{ "character_id": 1, "memory_type": "bogus" }"#);
    assert!(err.contains("未知记忆类型"), "错误信息：{err}");
    assert_eq!(
        refused("memory.read", r#"{ "character_id": 1, "keywords": "猫" }"#),
        "参数 keywords 必须是字符串数组"
    );
    assert_eq!(
        refused("memory.read", r#"{ "character_id": 1, "keywords": ["猫", 1] }"#),
        "参数 keywords 的元素必须是字符串"
    );
}

#[test]
fn memory_read_limit_default_and_cap() {
    let limit = |params: &str| match call("memory.read", params) {
        Ok(ApiPlan::ReadMemories { limit, .. }) => limit,
        other => panic!("unexpected {other:?}"),
    };
    assert_eq!(limit(r#"{ "character_id": 1 }"#), 20, "默认 limit 应为 20");
    assert_eq!(limit(r#"{ "character_id": 1, "limit": 9999 }"#), 500, "limit 应封顶 500");
    assert_eq!(limit(r#"{ "character_id": 1, "limit": -3 }"#), 1);
}

#[test]
fn memory_write_defaults_and_returns_id() {
    match call("memory.write", r#"{ "character_id": 1, "content": "用户喜欢茶" }"#) {
        Ok(ApiPlan::WriteMemory(m)) => {
            assert_eq!(m.memory_type, MemoryType::Episodic, "默认 episodic");
            assert_eq!(f(m.importance), 0.5, "默认 importance 0.5");
            assert_eq!(m.conversation_id, None);
            assert_eq!(m.created_at, now());
        }
        other => panic!("unexpected {other:?}"),
    }
    match call(
        "memory.write",
        r#"{
            "character_id": 1,
            "content": "重要记忆",
            "memory_type": "system",
            "importance": 5.0,
            "conversation_id": 7
        }"#,
    ) {
        Ok(ApiPlan::WriteMemory(m)) => {
            assert_eq!(m.memory_type, MemoryType::System);
            assert_eq!(f(m.importance), 1.0);
            assert_eq!(m.conversation_id, Some(7));
        }
        other => panic!("unexpected {other:?}"),
    }
    assert_eq!(stored(Ok(2)), Ok(2));
}

#[test]
fn relationship_read_single_and_all() {
    assert!(matches!(
        call("relationship.read", r#"{ "character_id": 1 }"#),
        Ok(ApiPlan::ReadRelationships { character_id: 1, participant: None })
    ));
    assert!(matches!(
        call("relationship.read", r#"{ "character_id": 1, "participant_id": 11 }"#),
        Ok(ApiPlan::ReadRelationships { character_id: 1, participant: Some(11) })
    ));
}

#[test]
fn relationship_write_partial_update() {
    assert!(matches!(
        call("relationship.write", r#"{ "character_id": 1, "participant_id": 10 }"#),
        Ok(ApiPlan::WriteRelationship { character_id: 1, participant_id: 10 })
    ));
    let r = api_relationship_write(&json(r#"{ "familiarity": 0.5 }"#), 1, 10, Ok(None), now())
        .unwrap();
    assert_eq!(f(r.familiarity), 0.5);
    assert_eq!(f(r.affection), 0.2, "默认好感 0.2");
    assert_eq!(f(r.annoyance), 0.0, "默认厌烦 0.0");

    let later = Timestamp { secs: 2000, nanos: 0 };
    let r2 = api_relationship_write(&json(r#"{ "affection": 0.9 }"#), 1, 10, Ok(Some(r)), later)
        .unwrap();
    assert_eq!(f(r2.familiarity), 0.5);
    assert_eq!(f(r2.affection), 0.9);
    assert_eq!(f(r2.trust), 0.1, "未提供的维度保留既有值");
    assert_eq!(r2.updated_at, later);
    assert_eq!(r2.created_at, now());
}

#[test]
fn relationships_are_bounded_and_checked() {
    let stranger = Relationship::new(1, 2, now());
    let r = api_relationship_write(
        &json(r#"{ "trust": 7, "respect": -1, "annoyance": 0.25 }"#),
        1,
        2,
        Ok(Some(stranger)),
        now(),
    )
    .unwrap();
    assert_eq!(f(r.trust), 1.0);
    assert_eq!(f(r.respect), 0.0);
    assert_eq!(f(r.annoyance), 0.25);
    let err = api_relationship_write(&json(r#"{ "trust": "x" }"#), 1, 2, Ok(None), now());
    assert_eq!(err.unwrap_err(), "参数 trust 必须是数字");
}

#[test]
fn plugin_data_roundtrip_and_scope_isolation() {
    let data = |plugin: &str, method: &str, params: &str| {
        let verdict = Some(Err("权限不足".to_string()));
        match dispatch(plugin, verdict, method, &json(params), now()) {
            Ok(ApiPlan::Data { plugin, op }) => (plugin, op),
            other => panic!("unexpected {other:?}"),
        }
    };
    let mut store: Vec<((String, String), Json)> = vec![];
    let mut run = |plugin: &str, method: &str, params: &str| -> Json {
        let (owner, op) = data(plugin, method, params);
        assert_eq!(owner, plugin, "数据自作用域");
        match op {
            DataOp::Put { key, value } => {
                store.retain(|(k, _)| *k != (owner.clone(), key.clone()));
                store.push(((owner, key), value));
                Json::Null
            }
            DataOp::Get { key } => {
                let found = store.iter().find(|(k, _)| *k == (owner.clone(), key.clone()));
                data_found(Ok(found.map(|(_, v)| v.duplicate()))).unwrap()
            }
            DataOp::Delete { key } => {
                let found = store.iter().find(|(k, _)| *k == (owner.clone(), key.clone()));
                let existed = data_deleted(Ok(found.map(|(_, v)| v.duplicate())), Ok(())).unwrap();
                store.retain(|(k, _)| *k != (owner.clone(), key.clone()));
                Json::Bool(existed)
            }
            DataOp::List => {
                let own = store.iter().filter(|((p, _), _)| *p == owner);
                Json::Array(own.map(|((_, k), _)| Json::Text(k.clone())).collect())
            }
        }
    };
    run("alpha", "plugin_data.set", r#"{ "key": "counter", "value": 42 }"#);
    assert_eq!(run("alpha", "plugin_data.get", r#"{ "key": "counter" }"#).as_i64(), Some(42));

    run("alpha", "plugin_data.set", r#"{ "key": "cfg", "value": { "a": [1, 2, 3] } }"#);
    let second = |doc: &Json| doc.get("a").unwrap().as_array().unwrap()[1].as_i64();
    assert_eq!(second(&run("alpha", "plugin_data.get", r#"{ "key": "cfg" }"#)), Some(2));
    assert_eq!(run("alpha", "plugin_data.list", "{}").as_array().unwrap().len(), 2);

    let deleted = |doc: Json| matches!(doc, Json::Bool(true));
    assert!(deleted(run("alpha", "plugin_data.delete", r#"{ "key": "counter" }"#)));
    assert!(!deleted(run("alpha", "plugin_data.delete", r#"{ "key": "counter" }"#)));

    assert!(run("beta", "plugin_data.get", r#"{ "key": "cfg" }"#).is_null());
    run("beta", "plugin_data.set", r#"{ "key": "cfg", "value": "beta-own" }"#);
    assert_eq!(second(&run("alpha", "plugin_data.get", r#"{ "key": "cfg" }"#)), Some(2));
    let own = run("beta", "plugin_data.get", r#"{ "key": "cfg" }"#);
    assert_eq!(own.as_text().map(|s| s.as_str()), Some("beta-own"));
}

#[test]
fn a_null_value_is_one() {
    match call("plugin_data.set", r#"{ "key": "k", "value": null }"#) {
        Ok(ApiPlan::Data { op: DataOp::Put { value, .. }, .. }) => assert!(value.is_null()),
        other => panic!("unexpected {other:?}"),
    }
    assert_eq!(refused("plugin_data.set", r#"{ "key": "k" }"#), "缺少参数：value");
    assert_eq!(refused("plugin_data.get", "{}"), "缺少参数：key");
    assert_eq!(refused("plugin_data.what", "{}"), "未知方法：plugin_data.what");
}

#[test]
fn llm_call_success_and_request_passthrough() {
    match call(
        "llm.call",
        r#"{
            "system": "你是助手",
            "messages": [
                { "role": "user", "content": "你好" },
                { "role": "assistant", "content": "嗨" },
                { "role": "system", "content": "背景" }
            ],
            "priority": 0
        }"#,
    ) {
        Ok(ApiPlan::Llm(c)) => {
            assert_eq!(c.system.as_deref(), Some("你是助手"));
            assert_eq!(c.messages.len(), 3);
            assert_eq!(c.messages[0].role, LlmRole::User);
            assert_eq!(c.messages[1].role, LlmRole::Assistant);
            assert_eq!(c.messages[2].role, LlmRole::System);
            assert_eq!(c.messages[2].content, "背景");
            assert_eq!(c.priority, 0);
        }
        other => panic!("unexpected {other:?}"),
    }
    match call("llm.call", r#"{ "messages": [{ "role": "user", "content": "hi" }] }"#) {
        Ok(ApiPlan::Llm(c)) => assert_eq!(c.priority, 2),
        other => panic!("unexpected {other:?}"),
    }
}

#[test]
fn llm_call_validation_errors() {
    let err = refused("llm.call", r#"{ "messages": [{ "role": "bogus", "content": "x" }] }"#);
    assert!(err.contains("未知消息角色"), "错误信息：{err}");
    let err = refused("llm.call", r#"{ "messages": [] }"#);
    assert!(err.contains("不能为空"), "错误信息：{err}");
    let err = refused("llm.call", r#"{ "messages": { "role": "user" } }"#);
    assert!(err.contains("必须是数组"), "错误信息：{err}");
    assert_eq!(refused("llm.call", "{}"), "缺少参数：messages");
    assert_eq!(
        refused("llm.call", r#"{ "messages": [{ "content": "x" }] }"#),
        "消息缺少 role 字段"
    );
    assert_eq!(
        refused("llm.call", r#"{ "messages": [{ "role": "user" }] }"#),
        "消息缺少 content 字段"
    );
    assert_eq!(
        refused(
            "llm.call",
            r#"{ "messages": [{ "role": "user", "content": "x" }], "priority": 256 }"#
        ),
        "参数 priority 必须是 0..=255 的整数"
    );
}

#[test]
fn llm_call_without_scheduler_reports_not_enabled() {
    let nothing: Result<Option<String>, RuntimeError> = Ok(None);
    assert_eq!(answered(nothing).unwrap_err(), "LLM 未启用");
    assert_eq!(answered(Ok(Some("插件回复".to_string()))).unwrap(), "插件回复");
    let failed: Result<Option<String>, RuntimeError> = Err(RuntimeError::Llm("满".to_string()));
    assert_eq!(answered(failed).unwrap_err(), "LLM 错误：满");
}

#[test]
fn parameters_are_read_by_kind() {
    let params = json(r#"{ "i": -2, "x": 1.5, "s": "t", "n": null, "big": 300 }"#);
    assert_eq!(optional_i64(&params, "i"), Ok(Some(-2)));
    assert_eq!(optional_i64(&params, "n"), Ok(None));
    assert_eq!(optional_i64(&params, "x"), Err("参数 x 必须是整数".to_string()));
    assert_eq!(optional_f64(&params, "x"), Ok(Some(s(1.5))));
    assert_eq!(optional_f64(&params, "i"), Ok(Some(s(-2.0))));
    assert_eq!(optional_u8(&params, "missing"), Ok(None));
    assert!(optional_u8(&params, "i").is_err());
    assert!(optional_u8(&params, "big").is_err());
    assert_eq!(optional_str(&params, "s"), Ok(Some("t".to_string())));
    assert_eq!(require_str(&params, "n"), Err("缺少参数：n".to_string()));
    assert_eq!(require_i64(&params, "i"), Ok(-2));
    assert_eq!(unwritten("e"), "序列化失败：e");
}

#[test]
fn names_are_read_whatever_their_case() {
    assert_eq!(parse_memory_type("  RelationShip "), Ok(MemoryType::Relationship));
    assert_eq!(parse_llm_role("USER"), Ok(LlmRole::User));
    assert_eq!(parse_llm_role("Robot"), Err("未知消息角色：robot".to_string()));
    assert_eq!(memory_type_of("episodic"), Ok(MemoryType::Episodic));
    assert!(memory_type_of("Episodic").is_err());
    assert_eq!(llm_role_of("assistant"), Ok(LlmRole::Assistant));
}
