//! Emotions, moods, relationships, memories, bindings, conversations, commands and
//! settings.

use yomua::adapters::onebot::OneBotConfig;
use yomua::application::action::{conversation_of, execute, Delivery};
use yomua::application::binding::{bind, saved_binding, switch_character, BindReads, BindingTerms};
use yomua::application::command::{after_switch, classify, handle, is_admin, CommandStep};
use yomua::application::config::{
    load_llm, load_onebot, load_runtime, parse_failure, settings_text, validate_runtime, FileText,
    LlmConfig, RuntimeConfig, LLM_TEMPLATE, ONEBOT_TEMPLATE, RUNTIME_TEMPLATE,
};
use yomua::application::conversation::{
    resolve_or_create_conversation, resolve_or_create_participant, resolved_id, Resolution,
};
use yomua::application::emotion_service;
use yomua::application::event_processor::{command_in, process, Route};
use yomua::application::llm_scheduler::{
    closed_queue, dispatch, dispatch_embedding, dropped_embedding, dropped_request, Admission,
    SchedulerLimits,
};
use yomua::application::memory_service::{evaluate, extract, trigger_hit, weigh, MIN_IMPORTANCE};
use yomua::application::message_persistence;
use yomua::application::mood_service;
use yomua::application::relationship_service::{load_or_new, record_interaction};
use yomua::domain::behavior::Action;
use yomua::domain::character::{
    Character, CharacterBinding, CharacterDefinition, CharacterState, ReplyMode,
};
use yomua::domain::conversation::{Conversation, ConversationType, Participant, ParticipantRole};
use yomua::domain::emotion::{EmotionState, Mood};
use yomua::domain::event::{Command, CommandReceivedEvent, CoreEvent, MessageReceivedEvent};
use yomua::domain::memory::MemoryType;
use yomua::domain::message::MessageContent;
use yomua::domain::relationship::Relationship;
use yomua::error::{DomainError, RepositoryError, RuntimeError, StorageError};
use yomua::json::Json;
use yomua::scalar::Scalar;
use yomua::time::Timestamp;

fn s(x: f64) -> Scalar {
    Scalar { bits: x.to_bits() }
}

fn f(x: Scalar) -> f64 {
    f64::from_bits(x.bits)
}

fn sum(a: Scalar, b: Scalar) -> Scalar {
    s(f(a) + f(b))
}

fn at(secs: i64) -> Timestamp {
    Timestamp { secs, nanos: 0 }
}

fn text(s: &str) -> String {
    s.to_string()
}

fn definition(name: &str) -> CharacterDefinition {
    CharacterDefinition {
        name: text(name),
        description: None,
        personality: None,
        scenario: None,
        style: None,
        background: None,
        greetings: vec![],
        example_messages: vec![],
        system_prompt: None,
        post_history_instructions: None,
        lorebook: vec![],
        metadata: Json::empty_object(),
    }
}

fn sample_character(id: i64, name: &str) -> Character {
    Character {
        id,
        definition: definition(name),
        state: CharacterState::default_at(at(0)),
        created_at: at(0),
        updated_at: at(0),
    }
}

// Emotions.

fn relax_over(elapsed: i128) -> impl Fn(Scalar, Scalar) -> Scalar {
    move |value, rest| s(f(rest) + (f(value) - f(rest)) * (-0.0001 * elapsed as f64).exp())
}

#[test]
fn emotion_service_load_creates_and_persists_default() {
    let (state, store) = emotion_service::load(Ok(None), at(7)).unwrap();
    assert_eq!(f(state.happiness), f(EmotionState::default_at(at(7)).happiness));
    assert!(store);
    let (again, store) = emotion_service::load(Ok(Some(state)), at(9)).unwrap();
    assert_eq!(again.last_updated, at(7));
    assert!(!store);
    let failed = emotion_service::load(Err(RepositoryError::Internal(text("x"))), at(9));
    assert!(matches!(failed, Err(RuntimeError::Repository(_))));
}

#[test]
fn emotion_service_apply_message_event_updates_and_persists() {
    let (state, _) = emotion_service::load(Ok(None), at(7)).unwrap();
    let elapsed = emotion_service::elapsed_seconds(&state, at(7));
    assert_eq!(elapsed, 0);
    let (after, event) =
        emotion_service::apply_message_event(1, 10, state, &relax_over(elapsed), &sum, at(7));
    let before = EmotionState::default_at(at(7));
    assert!(f(after.happiness) > f(before.happiness));
    assert!(f(after.affection) > f(before.affection));
    assert!(f(after.energy) < f(before.energy));
    assert!((f(after.happiness) - 0.53).abs() < 1e-9);
    assert_eq!(event.character_id, 1);
    assert_eq!(event.conversation_id, 10);
}

#[test]
fn emotions_relax_by_whole_seconds() {
    let state = EmotionState::default_at(at(100));
    assert_eq!(
        emotion_service::elapsed_seconds(&state, Timestamp { secs: 103, nanos: 999_999_999 }),
        3
    );
    assert_eq!(emotion_service::elapsed_seconds(&state, at(99)), 0);
}

// Moods.

#[test]
fn mood_service_load_creates_and_persists_default() {
    let (mood, store) = mood_service::load(Ok(None), at(7)).unwrap();
    assert_eq!(f(mood.value), f(Mood::default_at(at(7)).value));
    assert!(store);
}

#[test]
fn mood_service_apply_message_event_updates_and_persists() {
    let (mood, _) = mood_service::load(Ok(None), at(7)).unwrap();
    let after = mood_service::apply_message_event(mood, &sum, at(8));
    assert!(f(after.value) > f(Mood::default_at(at(7)).value));
    assert_eq!(f(after.value), f(mood.value) + 2.0);
    assert_eq!(after.last_updated, at(8));
    let full = Mood { value: s(99.5), last_updated: at(0) };
    assert_eq!(f(mood_service::apply_message_event(full, &sum, at(8)).value), 100.0);
}

// Relationships.

fn familiarity(count: i64) -> Scalar {
    s(0.1 * ((count as f64) + 1.0).ln())
}

#[test]
fn load_or_new_creates_default_and_persists() {
    let (rel, store) = load_or_new(1, 2, Ok(None), at(3)).unwrap();
    assert_eq!(rel.character_id, 1);
    assert_eq!(rel.participant_id, 2);
    assert!(store);
    let (_, store) = load_or_new(1, 2, Ok(Some(rel)), at(4)).unwrap();
    assert!(!store);
}

#[test]
fn record_interaction_increments_and_publishes() {
    let (rel, event) = record_interaction(Relationship::new(1, 2, at(0)), &familiarity, &sum, at(5));
    assert_eq!(rel.interaction_count, 1);
    assert!(f(rel.affection) > 0.2);
    assert_eq!(rel.last_interaction, at(5));
    assert_eq!(event.character_id, 1);
    assert_eq!(event.participant_id, 2);
}

#[test]
fn record_interaction_accumulates() {
    let mut rel = Relationship::new(7, 9, at(0));
    for i in 0..3 {
        rel = record_interaction(rel, &familiarity, &sum, at(i)).0;
    }
    assert_eq!(rel.interaction_count, 3);
}

#[test]
fn interactions_never_lower_familiarity() {
    let mut rel = Relationship::new(7, 9, at(0));
    rel.familiarity = s(0.5);
    let (after, _) = record_interaction(rel, &familiarity, &sum, at(1));
    assert_eq!(f(after.familiarity), 0.5);
    rel.interaction_count = 999;
    let (after, _) = record_interaction(rel, &familiarity, &sum, at(1));
    assert_eq!(f(after.familiarity), f64::ln(1001.0) / 10.0);
    assert!(f(after.affection) > f(rel.affection));
}

#[test]
fn only_many_interactions_annoy() {
    let mut rel = Relationship::new(7, 9, at(0));
    for i in 0..20 {
        rel = record_interaction(rel, &familiarity, &sum, at(i)).0;
    }
    assert_eq!(f(rel.annoyance), 0.0);
    rel = record_interaction(rel, &familiarity, &sum, at(20)).0;
    assert_eq!(f(rel.annoyance), 0.005);
}

// Memories.

#[test]
fn short_boring_message_is_skipped() {
    assert!(evaluate("嗯 好", 1).is_none());
    assert!(evaluate("哈哈", 1).is_none());
}

#[test]
fn self_description_classified_semantic() {
    let c = evaluate("我喜欢喝咖啡，每天都要来一杯", 1).expect("应产生候选");
    assert_eq!(c.memory_type, MemoryType::Semantic);
    assert!(f(c.importance) >= f64::from_bits(MIN_IMPORTANCE));
}

#[test]
fn relationship_message_classified_relationship() {
    let c = evaluate("我妹妹下周要结婚了，我要去参加", 1).expect("应产生候选");
    assert_eq!(c.memory_type, MemoryType::Relationship);
}

#[test]
fn extract_stores_worthy_message_and_skips_trivial() {
    let kept = extract(1, Some(10), 99, "我今天考试考砸了，心情不太好", at(4)).expect("值得记忆");
    assert_eq!(kept.character_id, 1);
    assert_eq!(kept.conversation_id, Some(10));
    assert_eq!(kept.memory_type, MemoryType::Episodic);
    assert_eq!(kept.created_at, at(4));
    assert!(extract(1, Some(10), 99, "哈哈", at(4)).is_none());
}

#[test]
fn triggers_are_found_in_lower_case() {
    assert!(trigger_hit("我喜欢猫", &["讨厌", "喜欢"]));
    assert!(!trigger_hit("我喜欢猫", &["讨厌"]));
    let by_name = weigh("我喜欢喝咖啡，每天都要来一杯", "我喜欢喝咖啡，每天都要来一杯", 3).unwrap();
    assert_eq!(by_name.participant_id, Some(3));
    assert_eq!(by_name.content, "我喜欢喝咖啡，每天都要来一杯");
}

// The language model's queue.

#[test]
fn p0_is_not_blocked_when_full() {
    assert_eq!(dispatch(0, false), Admission::RunNow);
    assert_eq!(dispatch(0, true), Admission::RunNow);
}

#[test]
fn p3_is_dropped_when_full_but_p0_still_works() {
    assert_eq!(dispatch(3, false), Admission::Drop);
    assert_eq!(dispatch(200, false), Admission::Drop);
    assert_eq!(dispatch(3, true), Admission::RunNow);
    assert_eq!(dispatch(0, false), Admission::RunNow);
    assert_eq!(dropped_request().message(), "LLM 错误：P3 请求因满载被丢弃");
}

#[test]
fn ordinary_requests_wait_for_their_turn() {
    for priority in [1, 2] {
        assert_eq!(dispatch(priority, true), Admission::Queue);
        assert_eq!(dispatch(priority, false), Admission::Queue);
    }
    assert_eq!(dispatch_embedding(false), Admission::Drop);
    assert_eq!(dropped_embedding().message(), "LLM 错误：Embedding 请求因满载被丢弃");
    assert_eq!(closed_queue("closed").message(), "LLM 错误：信号量已关闭: closed");
}

#[test]
fn limits_are_at_least_one() {
    assert_eq!(SchedulerLimits::new().pending, 4);
    assert_eq!(SchedulerLimits::with_limit(0).embedding, 1);
    let limits = SchedulerLimits::with_limits(7, 0);
    assert_eq!((limits.pending, limits.embedding), (7, 1));
}

// Bindings.

fn terms(mode: ReplyMode, proactive: bool) -> BindingTerms {
    BindingTerms {
        reply_mode: mode,
        proactive_enabled: proactive,
        mute_schedule: None,
        behavior_overrides: Json::empty_object(),
        context_policy: Json::empty_object(),
    }
}

fn reads(character: bool, conversation: bool, existing: Vec<CharacterBinding>) -> BindReads {
    BindReads {
        character: Ok(character),
        conversation: Ok(conversation),
        existing: Ok(existing),
        in_conversation: Ok(vec![]),
    }
}

#[test]
fn bind_creates_and_returns_binding() {
    let made = bind(1, 1, terms(ReplyMode::MentionOnly, true), reads(true, true, vec![]), at(1))
        .expect("bind 应成功");
    assert_eq!(made.character_id, 1);
    assert_eq!(made.conversation_id, 1);
    assert_eq!(made.reply_mode, ReplyMode::MentionOnly);
    assert!(made.proactive_enabled);
    let mut recorded =
        bind(1, 1, terms(ReplyMode::MentionOnly, true), reads(true, true, vec![]), at(1)).unwrap();
    recorded.id = 5;
    assert!(saved_binding(made, Ok(vec![recorded])).unwrap().id > 0);
}

#[test]
fn bind_rejects_duplicate_for_same_conversation() {
    let first =
        bind(1, 1, terms(ReplyMode::MentionOnly, true), reads(true, true, vec![]), at(1)).unwrap();
    let dup = bind(1, 1, terms(ReplyMode::Natural, false), reads(true, true, vec![first]), at(2));
    match dup {
        Err(RuntimeError::Domain(DomainError::InvalidState(text))) => {
            assert_eq!(text, "角色 1 已绑定到会话 1")
        }
        other => panic!("unexpected {other:?}"),
    }
}

#[test]
fn a_conversation_holds_one_character() {
    let first =
        bind(1, 1, terms(ReplyMode::MentionOnly, true), reads(true, true, vec![]), at(1)).unwrap();
    let mut taken = reads(true, true, vec![]);
    taken.in_conversation = Ok(vec![first]);
    match bind(2, 1, terms(ReplyMode::Natural, false), taken, at(2)) {
        Err(RuntimeError::Domain(DomainError::InvalidState(text))) => {
            assert_eq!(text, "会话 1 已绑定角色 1")
        }
        other => panic!("unexpected {other:?}"),
    }
    let mut broken = reads(true, true, vec![]);
    broken.in_conversation = Err(RepositoryError::Database(text("断开")));
    assert!(matches!(
        bind(2, 1, terms(ReplyMode::Natural, false), broken, at(2)),
        Err(RuntimeError::Repository(RepositoryError::Database(_)))
    ));
}

#[test]
fn bind_rejects_missing_character_or_conversation() {
    let no_character =
        bind(999, 1, terms(ReplyMode::Natural, true), reads(false, true, vec![]), at(1));
    assert!(matches!(
        no_character,
        Err(RuntimeError::Domain(DomainError::CharacterNotFound(999)))
    ));
    let no_conversation =
        bind(1, 999, terms(ReplyMode::Natural, true), reads(true, false, vec![]), at(1));
    assert!(matches!(
        no_conversation,
        Err(RuntimeError::Domain(DomainError::ConversationNotFound(999)))
    ));
}

#[test]
fn switching_keeps_the_rest_of_a_binding() {
    let made =
        bind(1, 3, terms(ReplyMode::Natural, true), reads(true, true, vec![]), at(1)).unwrap();
    let switched = switch_character(made, 2, at(9));
    assert_eq!(switched.character_id, 2);
    assert_eq!(switched.switched_at, Some(at(9)));
    assert_eq!(switched.conversation_id, 3);
    assert!(switched.proactive_enabled);
    assert_eq!(switched.created_at, at(1));
}

// Conversations.

#[test]
fn known_names_are_resolved_and_new_ones_created() {
    let made = match resolve_or_create_conversation(ConversationType::Group, "500", Ok(None), at(1))
    {
        Ok(Resolution::Create(c)) => c,
        other => panic!("unexpected {other:?}"),
    };
    assert_eq!(made.external_id, "500");
    let known = Conversation { id: 8, ..made };
    let found = resolve_or_create_conversation(
        ConversationType::Group,
        "500",
        Ok(Some(known)),
        at(2),
    )
    .unwrap();
    assert_eq!(resolved_id(&found, Ok(1)).unwrap(), 8);
}

#[test]
fn a_conversation_keeps_its_kind() {
    let known = Conversation {
        id: 8,
        conversation_type: ConversationType::Private,
        external_id: text("500"),
        name: None,
        created_at: at(0),
        updated_at: at(0),
    };
    match resolve_or_create_conversation(ConversationType::Group, "500", Ok(Some(known)), at(2)) {
        Err(RuntimeError::Domain(DomainError::InvalidState(text))) => {
            assert_eq!(text, "外部会话 500 已存在但类型不一致")
        }
        other => panic!("unexpected {other:?}"),
    }
}

#[test]
fn new_participants_are_users() {
    let r = resolve_or_create_participant(4, "u9", "小油", Ok(None)).unwrap();
    assert_eq!(resolved_id(&r, Ok(77)).unwrap(), 77);
    assert!(resolved_id(&r, Err(RepositoryError::Internal(text("x")))).is_err());
    match r {
        Resolution::Create(p) => {
            assert_eq!(p.conversation_id, 4);
            assert_eq!(p.display_name, "小油");
            assert_eq!(p.role, ParticipantRole::User);
        }
        other => panic!("unexpected {other:?}"),
    }
    let known = Participant {
        id: 6,
        conversation_id: 4,
        external_id: text("u9"),
        display_name: text("旧名"),
        role: ParticipantRole::User,
        metadata: Json::Null,
    };
    let r = resolve_or_create_participant(4, "u9", "新名", Ok(Some(known))).unwrap();
    assert!(matches!(r, Resolution::Known(6)));
}

// Actions.

fn conversation(kind: ConversationType, external_id: &str) -> Conversation {
    Conversation {
        id: 1,
        conversation_type: kind,
        external_id: text(external_id),
        name: None,
        created_at: at(0),
        updated_at: at(0),
    }
}

fn send(conversation_id: i64) -> Action {
    Action::SendMessage { conversation_id, content: text("嗨") }
}

#[test]
fn messages_go_where_the_conversation_is() {
    assert_eq!(conversation_of(&send(3)), Some(3));
    assert_eq!(conversation_of(&Action::DoNothing), None);
    let group = execute(send(1), Ok(Some(conversation(ConversationType::Group, "g100"))));
    assert!(matches!(group, Ok(Some(Delivery::Group { group_id, .. })) if group_id == "g100"));
    let private = execute(send(1), Ok(Some(conversation(ConversationType::Private, "u100"))));
    assert!(matches!(private, Ok(Some(Delivery::Private { content, .. })) if content == "嗨"));
    let missing = execute(send(9), Ok(None));
    assert!(matches!(
        missing,
        Err(RuntimeError::Domain(DomainError::ConversationNotFound(9)))
    ));
    assert!(matches!(execute(Action::DoNothing, Ok(None)), Ok(None)));
}

// Commands.

fn named(command: Option<Command>) -> Option<String> {
    command.map(|c| match c {
        Command::SwitchCharacter { character_name } => character_name,
    })
}

#[test]
fn classify_group_requires_mention() {
    assert_eq!(named(classify("换角色 木然", false, ConversationType::Group)), None);
    assert_eq!(
        named(classify("换角色 木然", true, ConversationType::Group)),
        Some(text("木然"))
    );
}

#[test]
fn classify_private_no_mention_needed() {
    assert_eq!(
        named(classify("换角色 木然", false, ConversationType::Private)),
        Some(text("木然"))
    );
}

#[test]
fn classify_matches_switch_character() {
    assert_eq!(
        named(classify("换角色 木然", true, ConversationType::Group)),
        Some(text("木然"))
    );
    assert_eq!(
        named(classify("换角色   木然", true, ConversationType::Group)),
        Some(text("木然"))
    );
}

#[test]
fn classify_rejects_glued_text() {
    assert_eq!(named(classify("换角色木然", true, ConversationType::Group)), None);
}

#[test]
fn classify_rejects_missing_name() {
    assert_eq!(named(classify("换角色", true, ConversationType::Group)), None);
    assert_eq!(named(classify("换角色  ", true, ConversationType::Group)), None);
}

#[test]
fn classify_ignores_unrelated_text() {
    assert_eq!(named(classify("你好 换角色", true, ConversationType::Group)), None);
    assert_eq!(named(classify("换角色牌", true, ConversationType::Group)), None);
}

#[test]
fn is_admin_checks_membership() {
    assert!(!is_admin("123", None));
    let admins = vec![text("123")];
    assert!(is_admin("123", Some(&admins)));
    assert!(!is_admin("456", Some(&admins)));
}

fn sample_event(character_name: &str) -> CommandReceivedEvent {
    CommandReceivedEvent {
        conversation_id: 100,
        sender_id: 55,
        external_sender_id: text("900001"),
        message_id: 1001,
        content: format!("换角色 {character_name}"),
        timestamp: at(0),
        command: Command::SwitchCharacter { character_name: text(character_name) },
    }
}

fn cast() -> Vec<Character> {
    vec![sample_character(1, "木然"), sample_character(2, "苏苏")]
}

fn reply_of(step: CommandStep) -> (i64, String) {
    match step {
        CommandStep::Reply(Action::SendMessage { conversation_id, content }) => {
            (conversation_id, content)
        }
        other => panic!("unexpected {other:?}"),
    }
}

#[test]
fn handle_switch_character_success() {
    let admins = vec![text("900001")];
    let event = sample_event("苏苏");
    match handle(&event, Some(&admins), Ok(cast())).unwrap() {
        CommandStep::Switch { conversation_id, character_id } => {
            assert_eq!(conversation_id, 100);
            assert_eq!(character_id, 2);
        }
        other => panic!("unexpected {other:?}"),
    }
    let (to, said) = reply_of(after_switch(&event, Ok(())));
    assert_eq!(to, 100);
    assert_eq!(said, "已把本会话角色切换为「苏苏」。");
}

#[test]
fn handle_rejects_non_admin() {
    let (_, said) = reply_of(handle(&sample_event("苏苏"), None, Ok(cast())).unwrap());
    assert_eq!(said, "你没有权限执行该指令。");
}

#[test]
fn handle_character_not_found() {
    let admins = vec![text("900001")];
    let step = handle(&sample_event("不存在的角色"), Some(&admins), Ok(cast())).unwrap();
    assert_eq!(reply_of(step).1, "未找到角色「不存在的角色」，请先导入该角色。");
}

// Events.

fn received(content: &str) -> CoreEvent {
    CoreEvent::MessageReceived(MessageReceivedEvent {
        conversation_id: 1,
        sender_id: 2,
        message_id: 3,
        content: text(content),
        timestamp: at(4),
        is_mentioned: true,
    })
}

#[test]
fn messages_are_answered_and_commands_handled() {
    let message = received("hello");
    match process(&message) {
        Route::Reply(e) => assert_eq!(e.content, "hello"),
        Route::Record => panic!("expected Reply"),
    }
    assert!(command_in(&message).is_none());
    let command = CoreEvent::CommandReceived(sample_event("苏苏"));
    assert!(matches!(process(&command), Route::Record));
    assert_eq!(command_in(&command).unwrap().conversation_id, 100);
}

#[test]
fn onebot_message_ends_up_persisted() {
    let stored = message_persistence::handle(&received("你好，世界！")).expect("消息应被持久化");
    match stored.content {
        MessageContent::Text(t) => assert_eq!(t, "你好，世界！"),
        _ => panic!("期望文本消息"),
    }
    assert_eq!(stored.conversation_id, 1);
    assert_eq!(stored.sender_id, 2);
    assert_eq!(stored.timestamp, at(4));
    let other = CoreEvent::CommandReceived(sample_event("苏苏"));
    assert!(message_persistence::handle(&other).is_none());
}

// Settings.

#[test]
fn runtime_config_default_when_missing() {
    let cfg = load_runtime(Ok(None)).unwrap();
    assert_eq!(cfg.data_dir, "data");
    assert_eq!(cfg.log_level, "info");
}

#[test]
fn runtime_config_plugins_dir_default_none() {
    let cfg = load_runtime(Ok(None)).unwrap();
    assert_eq!(cfg.plugins_dir, None);
}

#[test]
fn runtime_config_admin_users_default_none() {
    let cfg = load_runtime(Ok(None)).unwrap();
    assert_eq!(cfg.admin_users, None);
}

#[test]
fn llm_config_disable_by_default() {
    let cfg = load_llm(Ok(None)).unwrap();
    assert!(!cfg.enabled);
    assert!(!LlmConfig::default().enabled);
}

fn table(path: &str, content: &str) -> Result<Option<toml::Table>, RuntimeError> {
    match settings_text(path, FileText::Text(text(content)))? {
        None => Ok(None),
        Some(t) => match t.parse::<toml::Table>() {
            Ok(table) => Ok(Some(table)),
            Err(e) => Err(parse_failure(path, &e.to_string())),
        },
    }
}

fn string_in(t: &toml::Table, key: &str) -> Option<String> {
    t.get(key).and_then(|v| v.as_str()).map(String::from)
}

fn number_in(t: &toml::Table, key: &str) -> u64 {
    t[key].as_integer().unwrap() as u64
}

fn runtime_settings(content: &str) -> Result<RuntimeConfig, RuntimeError> {
    load_runtime(table("runtime.toml", content).map(|file| {
        file.map(|t| RuntimeConfig {
            data_dir: string_in(&t, "data_dir").unwrap(),
            log_level: string_in(&t, "log_level").unwrap(),
            shutdown_timeout_secs: number_in(&t, "shutdown_timeout_secs"),
            plugins_dir: string_in(&t, "plugins_dir"),
            admin_users: t.get("admin_users").and_then(|v| v.as_array()).map(|list| {
                list.iter().filter_map(|v| v.as_str()).map(String::from).collect()
            }),
            broadcast_capacity: None,
        })
    }))
}

#[test]
fn runtime_config_parses_file() {
    let cfg = runtime_settings(
        "data_dir = \"/tmp/runtime-data\"\nlog_level = \"debug\"\nshutdown_timeout_secs = 5\n",
    )
    .unwrap();
    assert_eq!(cfg.data_dir, "/tmp/runtime-data");
    assert_eq!(cfg.log_level, "debug");
    assert_eq!(cfg.shutdown_timeout_secs, 5);
}

#[test]
fn runtime_config_plugins_dir_parses_some() {
    let cfg = runtime_settings(
        "data_dir = \"/tmp/runtime-data\"\nlog_level = \"info\"\nshutdown_timeout_secs = 10\nplugins_dir = \"plugins\"\n",
    )
    .unwrap();
    assert_eq!(cfg.plugins_dir.as_deref(), Some("plugins"));
}

#[test]
fn runtime_config_admin_users_parses() {
    let cfg = runtime_settings(
        "data_dir = \"/tmp/runtime-data\"\nlog_level = \"info\"\nshutdown_timeout_secs = 10\nadmin_users = [\"10001\", \"10002\"]\n",
    )
    .unwrap();
    assert_eq!(
        cfg.admin_users,
        Some(vec!["10001".to_string(), "10002".to_string()])
    );
}

#[test]
fn onebot_config_parses_file() {
    let file = table(
        "onebot.toml",
        "websocket_url = \"ws://127.0.0.1:3001\"\naccess_token = \"token123\"\nreconnect_interval_secs = 2\nmax_reconnect_interval_secs = 30\nheartbeat_interval_secs = 20\naction_timeout_secs = 10\n",
    );
    let cfg = load_onebot(file.map(|file| {
        file.map(|t| OneBotConfig {
            websocket_url: string_in(&t, "websocket_url").unwrap(),
            access_token: string_in(&t, "access_token"),
            reconnect_interval_secs: number_in(&t, "reconnect_interval_secs"),
            max_reconnect_interval_secs: number_in(&t, "max_reconnect_interval_secs"),
            heartbeat_interval_secs: number_in(&t, "heartbeat_interval_secs"),
            action_timeout_secs: number_in(&t, "action_timeout_secs"),
        })
    }))
    .unwrap();
    assert_eq!(cfg.websocket_url, "ws://127.0.0.1:3001");
    assert_eq!(cfg.access_token.as_deref(), Some("token123"));
    assert_eq!(cfg.reconnect_interval_secs, 2);
    assert_eq!(cfg.max_reconnect_interval_secs, 30);
    assert_eq!(cfg.heartbeat_interval_secs, 20);
    assert_eq!(cfg.action_timeout_secs, 10);
    assert_eq!(OneBotConfig::default().action_timeout_secs, 10);
}

#[test]
fn malformed_config_returns_error() {
    assert!(runtime_settings("data_dir = \nlog_level =").is_err());
}

#[test]
fn settings_from_a_file_are_kept() {
    let given = RuntimeConfig { log_level: text("debug"), ..RuntimeConfig::default() };
    assert_eq!(load_runtime(Ok(Some(given))).unwrap().log_level, "debug");
    assert_eq!(load_onebot(Ok(None)).unwrap().max_reconnect_interval_secs, 60);
    let failed = load_onebot(Err(parse_failure("onebot.toml", "expected value")));
    match failed {
        Err(RuntimeError::Config(text)) => {
            assert_eq!(text, "无法解析配置文件 onebot.toml: expected value")
        }
        _ => panic!("expected Config"),
    }
}

#[test]
fn files_are_missing_unreadable_or_text() {
    assert!(matches!(settings_text("a.toml", FileText::Missing), Ok(None)));
    assert!(matches!(settings_text("a.toml", FileText::Text(text("x"))), Ok(Some(t)) if t == "x"));
    match settings_text("a.toml", FileText::Unreadable(text("denied"))) {
        Err(RuntimeError::Config(text)) => assert_eq!(text, "无法读取配置文件 a.toml: denied"),
        _ => panic!("expected Config"),
    }
}

#[test]
fn settings_are_checked_one_by_one() {
    let good = RuntimeConfig { admin_users: Some(vec![text("1")]), ..RuntimeConfig::default() };
    assert!(validate_runtime(&good).is_empty());
    let bad = RuntimeConfig {
        log_level: text("loud"),
        shutdown_timeout_secs: 0,
        broadcast_capacity: Some(0),
        ..RuntimeConfig::default()
    };
    let errors = validate_runtime(&bad);
    assert_eq!(errors.len(), 4);
    assert!(errors[0].starts_with("admin_users 未配置或为空！"));
    assert_eq!(
        errors[1],
        r#"无效的 log_level：loud，有效值：["trace", "debug", "info", "warn", "error"]"#
    );
    assert_eq!(errors[2], "shutdown_timeout_secs 必须大于 0");
    assert_eq!(errors[3], "broadcast_capacity 必须大于 0");
}

#[test]
fn templates_hold_the_settings() {
    assert!(RUNTIME_TEMPLATE.contains("admin_users = []"));
    assert!(ONEBOT_TEMPLATE.contains("websocket_url = \"ws://127.0.0.1:3001\""));
    assert!(LLM_TEMPLATE.contains("enabled = false"));
}

// Errors.

#[test]
fn errors_name_what_went_wrong() {
    let storage: RuntimeError = StorageError::Connection(text("拒绝")).into();
    assert!(storage.message().starts_with("存储错误："));
    assert!(storage.message().ends_with("拒绝"));
    let domain: RuntimeError = DomainError::CharacterNotFound(7).into();
    assert!(domain.message().contains('7'));
    let repository: RuntimeError = RepositoryError::NotFound(text("x")).into();
    assert!(repository.message().starts_with("仓储错误："));
    assert!(matches!(RepositoryError::from_query(true, text("q")), RepositoryError::NotFound(_)));
    assert!(matches!(RepositoryError::from_query(false, text("q")), RepositoryError::Database(_)));
}
