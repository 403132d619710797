//! Answering messages: context, prompt, pipeline; acting and thinking unasked;
//! loading and importing characters.

use yomua::application::action::{execute, Delivery};
use yomua::application::behavior_engine::{
    decide_proactive, decide_response, load_context, ContextReads,
};
use yomua::application::binding::{bind, BindReads};
use yomua::application::character_import::{
    card_failure, card_format, card_text, unreadable_card, BindOptions, CardFormat, CardImport,
    ImportOptions, ImportStage,
};
use yomua::application::cognition::{
    render_system_prompt, reply_request, EmotionFigures, RelationshipFigures,
};
use yomua::application::cognition_driver::{
    build_cognition_prompt, cognize, digest_response, settle_thought, CognitionDriver,
};
use yomua::application::context::{
    build, extract_keywords, match_lorebook, memory_keywords, merge_memories, message_text,
    recent_messages_text, BuildReads, ContextLimits, ConversationContext,
};
use yomua::application::llm_scheduler::LlmRole;
use yomua::application::proactive::{evaluate_binding, may_act, ProactiveUpdate, PROACTIVE_COOLDOWN};
use yomua::application::relationship_service::record_interaction;
use yomua::application::reply_processor::{
    capped_delay_ms, deterministic_reply, generate_reply, get_my_participant_id, ReplyAnswer,
    ReplyProcessor, ReplyRequest, ReplyStage, MAX_REPLY_DELAY_MS,
};
use yomua::application::runtime::{
    load_character_unlocked, merge_patch, settle_patch, CharacterRuntime,
};
use yomua::domain::behavior::{Action, BehaviorAction, BehaviorDecision};
use yomua::domain::character::{
    Character, CharacterBinding, CharacterDefinition, CharacterState, LorebookEntry, ReplyMode,
};
use yomua::domain::conversation::{Conversation, ConversationType, Participant, ParticipantRole};
use yomua::domain::emotion::EmotionState;
use yomua::domain::event::{MessageReceivedEvent, ResponseSource};
use yomua::domain::memory::{Memory, MemoryType};
use yomua::domain::message::{Message, MessageContent, MixedContentSegment};
use yomua::domain::relationship::Relationship;
use yomua::error::{DomainError, RepositoryError, RuntimeError};
use yomua::json::{parse_json, Json};
use yomua::scalar::Scalar;
use yomua::time::{Span, Timestamp};

/// The first second of 2026.
const NEW_YEAR: i64 = 1_767_225_600;

fn s(x: f64) -> Scalar {
    Scalar { bits: x.to_bits() }
}

fn f(x: Scalar) -> f64 {
    f64::from_bits(x.bits)
}

fn sum(a: Scalar, b: Scalar) -> Scalar {
    s(f(a) + f(b))
}

fn at(secs: i64) -> Timestamp {
    Timestamp { secs, nanos: 0 }
}

fn json(text: &str) -> Json {
    parse_json(text.as_bytes().to_vec()).expect("valid JSON")
}

fn definition(name: &str) -> CharacterDefinition {
    CharacterDefinition {
        name: name.to_string(),
        description: None,
        personality: None,
        scenario: None,
        style: None,
        background: None,
        greetings: vec![],
        example_messages: vec![],
        system_prompt: None,
        post_history_instructions: None,
        lorebook: vec![],
        metadata: Json::empty_object(),
    }
}

fn character(id: i64, definition: CharacterDefinition) -> Character {
    Character {
        id,
        definition,
        state: CharacterState::default_at(at(0)),
        created_at: at(0),
        updated_at: at(0),
    }
}

fn text_message(id: i64, content: &str) -> Message {
    Message {
        id,
        conversation_id: 10,
        sender_id: 1,
        content: MessageContent::Text(content.to_string()),
        timestamp: at(0),
        reply_to: None,
        mentions: vec![],
        attachments: vec![],
        metadata: Json::empty_object(),
    }
}

fn memory(id: i64, importance: f64) -> Memory {
    Memory {
        id,
        character_id: 1,
        conversation_id: Some(10),
        memory_type: MemoryType::Episodic,
        content: format!("记忆-{id}"),
        importance: s(importance),
        created_at: at(0),
        last_accessed: at(0),
        metadata: Json::empty_object(),
    }
}

fn lorebook_entry(keywords: &[&str], priority: i32, enabled: bool) -> LorebookEntry {
    LorebookEntry {
        keywords: keywords.iter().map(|s| s.to_string()).collect(),
        content: format!("content-{priority}"),
        enabled,
        priority,
    }
}

fn conversation(id: i64) -> Conversation {
    Conversation {
        id,
        conversation_type: ConversationType::Private,
        external_id: "u1".to_string(),
        name: None,
        created_at: at(0),
        updated_at: at(0),
    }
}

fn binding(id: i64, character_id: i64, conversation_id: i64) -> CharacterBinding {
    CharacterBinding {
        id,
        character_id,
        conversation_id,
        reply_mode: ReplyMode::MentionOnly,
        proactive_enabled: true,
        mute_schedule: None,
        behavior_overrides: Json::empty_object(),
        context_policy: Json::empty_object(),
        switched_at: None,
        cross_reply_enabled: false,
        created_at: at(0),
    }
}

// Context.

fn build_character() -> Character {
    let mut d = definition("Alice");
    d.scenario = Some("咖啡馆".to_string());
    d.post_history_instructions = Some("请以角色身份回答".to_string());
    d.lorebook = vec![
        lorebook_entry(&["chat"], 2, true),
        lorebook_entry(&["cat"], 5, true),
        lorebook_entry(&["disabled"], 9, false),
    ];
    character(1, d)
}

/// The reads of a builder over these messages and memories.
fn reads(messages: Vec<Message>, memories: Vec<Memory>) -> BuildReads {
    let words = memory_keywords(&messages);
    let hits: Vec<Memory> = memories
        .iter()
        .filter(|m| words.iter().any(|w| m.content.contains(w.as_str())))
        .map(|m| Memory { content: m.content.clone(), metadata: Json::Null, ..memory(m.id, f(m.importance)) })
        .collect();
    BuildReads {
        conversation: Ok(Some(conversation(10))),
        recent_messages: Ok(messages),
        bindings: Ok(vec![]),
        by_importance: Ok(memories),
        by_keyword: Ok(hits),
        relationship: Ok(None),
        emotion: Ok(None),
    }
}

#[test]
fn build_assembles_full_context() {
    let alice = build_character();
    let r = reads(
        vec![text_message(1, "My cat is lovely"), text_message(2, "We chatted all day")],
        vec![memory(1, 0.9), memory(2, 0.4)],
    );
    let ctx = build(&alice, 10, ContextLimits::default(), r).expect("build 应成功");
    assert_eq!(ctx.conversation.id, 10);
    assert_eq!(ctx.recent_messages.len(), 2);
    assert_eq!(ctx.matching_lorebook.len(), 2);
    assert_eq!(ctx.matching_lorebook[0].priority, 5);
    assert_eq!(ctx.memory.len(), 2);
    assert!(f(ctx.memory[0].importance) > f(ctx.memory[1].importance));
    assert_eq!(ctx.scenario.as_deref(), Some("咖啡馆"));
    assert_eq!(ctx.post_history_instructions.as_deref(), Some("请以角色身份回答"));
}

#[test]
fn build_populates_binding_and_relationship() {
    let mut r = reads(vec![], vec![]);
    let mut natural = binding(1, 1, 10);
    natural.reply_mode = ReplyMode::Natural;
    r.bindings = Ok(vec![natural]);
    let mut rel = Relationship::new(1, 99, at(0));
    rel.affection = s(0.6);
    r.relationship = Ok(Some(rel));
    let alice = build_character();
    let ctx = build(&alice, 10, ContextLimits::default(), r).unwrap();
    assert!(ctx.binding.is_some());
    assert_eq!(ctx.binding.as_ref().unwrap().character_id, 1);
    assert_eq!(f(ctx.relationship.as_ref().unwrap().affection), 0.6);
}

#[test]
fn memory_limit_truncates() {
    let r = reads(vec![], vec![memory(1, 0.9), memory(2, 0.4), memory(3, 0.7)]);
    let limits = ContextLimits { memory_limit: 2, ..ContextLimits::default() };
    let alice = build_character();
    let ctx = build(&alice, 10, limits, r).unwrap();
    assert_eq!(ctx.memory.len(), 2);
    assert!(ctx.memory.iter().all(|m| f(m.importance) >= 0.7));
}

#[test]
fn lorebook_limit_truncates() {
    let r = reads(vec![text_message(1, "cat and chat happen")], vec![]);
    let limits = ContextLimits { lorebook_limit: 1, ..ContextLimits::default() };
    let alice = build_character();
    let ctx = build(&alice, 10, limits, r).unwrap();
    assert_eq!(ctx.matching_lorebook.len(), 1);
}

#[test]
fn keyword_retrieval_includes_matching_memory() {
    let cat = Memory {
        memory_type: MemoryType::Semantic,
        content: "用户喜欢猫".to_string(),
        ..memory(3, 0.3)
    };
    let alice = build_character();
    let r = reads(vec![text_message(1, "猫，真可爱")], vec![cat]);
    let ctx = build(&alice, 10, ContextLimits::default(), r).expect("build 应成功");
    assert!(ctx.memory.iter().any(|m| m.content == "用户喜欢猫"));
    assert_eq!(ctx.memory.len(), 1);
}

#[test]
fn extract_keywords_splits_and_filters() {
    assert_eq!(extract_keywords("猫，真可爱"), vec!["猫".to_string(), "真可爱".to_string()]);
    assert_eq!(extract_keywords("的 吗 猫"), vec!["猫".to_string()]);
}

#[test]
fn build_errors_when_conversation_missing() {
    let alice = build_character();
    let mut r = reads(vec![], vec![]);
    r.conversation = Ok(None);
    let result = build(&alice, 999, ContextLimits::default(), r);
    assert!(matches!(
        result,
        Err(RuntimeError::Domain(DomainError::ConversationNotFound(999)))
    ));
    let mut r = reads(vec![], vec![]);
    r.emotion = Err(RepositoryError::Internal("x".to_string()));
    assert!(build(&alice, 10, ContextLimits::default(), r).is_err());
}

#[test]
fn merged_memories_are_ranked_and_distinct() {
    let merged = merge_memories(
        vec![memory(1, 0.2), memory(2, 0.9)],
        vec![memory(2, 0.9), memory(3, 0.5)],
        10,
    );
    let ids: Vec<i64> = merged.iter().map(|m| m.id).collect();
    assert_eq!(ids, vec![2, 3, 1]);
}

#[test]
fn entries_match_whatever_their_case() {
    let book = vec![lorebook_entry(&["CAT"], 1, true), lorebook_entry(&["dog"], 2, true)];
    let picked = match_lorebook(&book, &vec![text_message(1, "a Cat!")]);
    assert_eq!(picked.len(), 1);
    assert_eq!(picked[0].content, "content-1");
}

#[test]
fn messages_are_read_as_text() {
    assert_eq!(message_text(&text_message(1, "hello")), "hello");
    let mut mixed = text_message(2, "");
    mixed.content = MessageContent::Mixed(vec![
        MixedContentSegment::Text("a".to_string()),
        MixedContentSegment::Text("b".to_string()),
    ]);
    let text = message_text(&mixed);
    assert!(text.contains('a') && text.contains('b'));
    let all = recent_messages_text(&vec![text_message(1, "x"), text_message(2, "y")]);
    assert!(all.contains('x') && all.contains('y'));
}

// The prompt.

fn barista() -> Character {
    let mut d = definition("Alice");
    d.description = Some("一个温柔的咖啡师".to_string());
    d.personality = Some("开朗".to_string());
    d.scenario = Some("清晨的咖啡馆".to_string());
    d.style = Some("温柔细语".to_string());
    d.post_history_instructions = Some("请以 Alice 的身份回答".to_string());
    character(1, d)
}

fn minimal_ctx(character: &Character) -> ConversationContext<'_> {
    ConversationContext {
        character,
        conversation: conversation(1),
        recent_messages: vec![],
        matching_lorebook: vec![],
        binding: None,
        memory: vec![],
        relationship: None,
        current_emotion: None,
        scenario: Some("清晨的咖啡馆".to_string()),
        post_history_instructions: Some("请以 Alice 的身份回答".to_string()),
    }
}

#[test]
fn render_system_prompt_includes_identity() {
    let alice = barista();
    let prompt = render_system_prompt(&minimal_ctx(&alice), &None, &None);
    assert!(prompt.contains("你是Alice"));
    assert!(prompt.contains("一个温柔的咖啡师"));
    assert!(prompt.contains("清晨的咖啡馆"));
    assert!(prompt.contains("请以 Alice 的身份回答"));
}

#[test]
fn render_system_prompt_includes_emotion_and_relationship() {
    let alice = barista();
    let mut ctx = minimal_ctx(&alice);
    ctx.current_emotion = Some(EmotionState::default_at(at(0)));
    ctx.relationship = Some(Relationship::new(1, 99, at(0)));
    let two = |x: Scalar| format!("{:.2}", f(x));
    let rel = ctx.relationship.as_ref().unwrap();
    let emo = ctx.current_emotion.as_ref().unwrap();
    let relationship = Some(RelationshipFigures {
        familiarity: two(rel.familiarity),
        affection: two(rel.affection),
        trust: two(rel.trust),
        annoyance: two(rel.annoyance),
        intimacy: two(rel.intimacy),
    });
    let emotion = Some(EmotionFigures {
        happiness: two(emo.happiness),
        anger: two(emo.anger),
        sadness: two(emo.sadness),
        fear: two(emo.fear),
        affection: two(emo.affection),
        stress: two(emo.stress),
        energy: two(emo.energy),
    });
    let prompt = render_system_prompt(&ctx, &relationship, &emotion);
    assert!(prompt.contains("当前情绪"));
    assert!(prompt.contains("关系"));
    assert!(prompt.contains("0.20"));
    assert!(prompt.contains("0.70"));
}

#[test]
fn mentions_make_requests_urgent() {
    let r = reply_request(1, 2, 3, "系统".to_string(), "你好", true);
    assert_eq!(r.priority, 0);
    assert_eq!(r.messages[0].role, LlmRole::User);
    assert_eq!(r.messages[0].content, "你好");
    assert_eq!(r.temperature, Some(s(0.8)));
    assert_eq!(r.origin.unwrap().participant_id, Some(3));
    assert_eq!(reply_request(1, 2, 3, "系统".to_string(), "你好", false).priority, 1);
}

// The pipeline.

fn received_event(is_mentioned: bool) -> MessageReceivedEvent {
    MessageReceivedEvent {
        conversation_id: 100,
        sender_id: 55,
        message_id: 0,
        content: "你好".to_string(),
        timestamp: at(0),
        is_mentioned,
    }
}

fn reply_decision(delay_ms: u64) -> BehaviorDecision {
    let ctx = load_context(
        1,
        None,
        ContextReads {
            bindings: Ok(vec![binding(1, 1, 100)]),
            mood: Ok(None),
            relationship: Ok(None),
            closeness: None,
            state: Ok(None),
            conversation_state: Ok(None),
            behavior_state: Ok(None),
        },
    )
    .unwrap();
    BehaviorDecision { delay_ms, ..decide_response(&ctx, "你好", true, at(0)) }
}

/// Takes the one binding of a message through the pipeline.
fn pipe(decision: Option<BehaviorDecision>, text: Option<String>) -> ReplyProcessor {
    let mut only = binding(4, 1, 100);
    only.cross_reply_enabled = false;
    let mut run = ReplyProcessor::process(received_event(true), Ok(vec![only])).unwrap();
    let mut decision = decision;
    let mut text = text;
    loop {
        let answer = match run.request() {
            ReplyRequest::FindParticipants { .. } => ReplyAnswer::Participants(Ok(vec![Participant {
                id: 55,
                conversation_id: 100,
                external_id: "me".to_string(),
                display_name: "me".to_string(),
                role: ParticipantRole::Character,
                metadata: Json::Null,
            }])),
            ReplyRequest::LoadCharacter { character_id } => ReplyAnswer::Loaded(character_id == 1),
            ReplyRequest::ExtractMemory { .. }
            | ReplyRequest::RecordInteraction { .. }
            | ReplyRequest::ApplyEmotion { .. } => ReplyAnswer::Tried,
            ReplyRequest::Decide { .. } => ReplyAnswer::Decided(decision.take()),
            ReplyRequest::Generate { .. } => ReplyAnswer::Generated(text.take()),
            ReplyRequest::Deliver => return run,
        };
        run = run.advance(answer, at(1)).0;
    }
}

#[test]
fn no_binding_ignores_message() {
    let run = ReplyProcessor::process(received_event(true), Ok(vec![])).unwrap();
    assert_eq!(run.stage, ReplyStage::Deliver);
    assert!(run.deliveries().is_empty());
    let failed = ReplyProcessor::process(
        received_event(true),
        Err(RuntimeError::Internal("x".to_string())),
    );
    assert!(failed.is_err());
}

#[test]
fn disabled_llm_uses_deterministic_reply() {
    let (content, known) = generate_reply(&received_event(true), 1, None, at(2)).unwrap();
    assert_eq!(content, "我听到了：你好");
    assert_eq!(known.source, ResponseSource::Rule);
    let sent = pipe(Some(reply_decision(1600)), Some(content)).deliveries();
    assert_eq!(sent.len(), 1);
    assert_eq!(sent[0].conversation_id, 100);
    assert_eq!(sent[0].binding_id, 4);
}

#[test]
fn enabled_llm_uses_provider_reply() {
    let model = Some(Ok(Some("AI 回复".to_string())));
    let (content, known) = generate_reply(&received_event(true), 1, model, at(2)).unwrap();
    assert!(content.contains("AI 回复"));
    assert_eq!(known.source, ResponseSource::Llm);
    let empty = generate_reply(&received_event(true), 1, Some(Ok(None)), at(2)).unwrap();
    assert_eq!(empty.1.source, ResponseSource::Rule);
    let failed = generate_reply(
        &received_event(true),
        1,
        Some(Err(RuntimeError::Llm("满".to_string()))),
        at(2),
    );
    assert!(failed.is_err());
}

#[test]
fn group_conversation_routes_to_group_adapter() {
    let sent = pipe(Some(reply_decision(1600)), Some("嗨".to_string())).deliveries();
    let group = Conversation {
        conversation_type: ConversationType::Group,
        external_id: "g100".to_string(),
        ..conversation(100)
    };
    let action = Action::SendMessage {
        conversation_id: sent[0].conversation_id,
        content: sent[0].content.clone(),
    };
    match execute(action, Ok(Some(group))) {
        Ok(Some(Delivery::Group { group_id, content })) => {
            assert!(group_id.contains("g100"));
            assert_eq!(content, "嗨");
        }
        other => panic!("unexpected {other:?}"),
    }
}

#[test]
fn deterministic_reply_variants() {
    assert!(deterministic_reply("你好").contains("我听到了"));
    assert!(deterministic_reply("   ").contains("嗯"));
    let long = "x".repeat(200);
    let out = deterministic_reply(&long);
    assert!(out.chars().count() < 100);
}

#[test]
fn capped_delay_ms_clamps_to_max() {
    assert_eq!(capped_delay_ms(0), 0);
    assert_eq!(capped_delay_ms(1500), 1500);
    assert_eq!(capped_delay_ms(3000), 3000);
    assert_eq!(capped_delay_ms(3001), MAX_REPLY_DELAY_MS);
    assert_eq!(capped_delay_ms(10_000), MAX_REPLY_DELAY_MS);
}

#[test]
fn reply_waits_for_decision_delay_before_sending() {
    let decision = reply_decision(reply_decision(0).delay_ms);
    assert_eq!(decision.action, BehaviorAction::Reply);
    let sent = pipe(Some(reply_decision(1600)), Some("嗨".to_string())).deliveries();
    assert!(sent[0].delay_ms > 0);
    let late = pipe(Some(reply_decision(9000)), Some("嗨".to_string())).deliveries();
    assert_eq!(late[0].delay_ms, MAX_REPLY_DELAY_MS);
}

#[test]
fn reply_records_delay_and_sends_given_capacity() {
    let familiarity = |n: i64| s(0.1 * ((n as f64) + 1.0).ln());
    let (rel, _) = record_interaction(Relationship::new(1, 55, at(0)), &familiarity, &sum, at(0));
    let closeness =
        s((f(rel.familiarity) + f(rel.affection) + f(rel.trust) + f(rel.intimacy)) / 4.0);
    let ctx = load_context(
        1,
        Some(55),
        ContextReads {
            bindings: Ok(vec![binding(1, 1, 100)]),
            mood: Ok(None),
            relationship: Ok(Some(rel)),
            closeness: Some(closeness),
            state: Ok(Some(CharacterState::default_at(at(0)))),
            conversation_state: Ok(None),
            behavior_state: Ok(None),
        },
    )
    .unwrap();
    let decision = decide_response(&ctx, "你好", true, at(0));
    assert_eq!(decision.delay_ms, 2000);
    let sent = pipe(Some(decision), Some("嗨".to_string())).deliveries();
    assert_eq!(sent.len(), 1);
    assert_eq!(sent[0].delay_ms, 2000);
}

#[test]
fn the_walk_ends_after_seven_answers_for_each_binding() {
    let mut run = ReplyProcessor::process(
        received_event(true),
        Ok(vec![binding(4, 1, 100), binding(5, 2, 100)]),
    )
    .unwrap();
    let mut answers = 0;
    while run.stage != ReplyStage::Deliver {
        let answer = match run.request() {
            ReplyRequest::FindParticipants { .. } => ReplyAnswer::Participants(Ok(vec![Participant {
                id: 55,
                conversation_id: 100,
                external_id: "me".to_string(),
                display_name: "me".to_string(),
                role: ParticipantRole::Character,
                metadata: Json::Null,
            }])),
            ReplyRequest::LoadCharacter { .. } => ReplyAnswer::Loaded(true),
            ReplyRequest::Decide { .. } => ReplyAnswer::Decided(Some(reply_decision(10))),
            ReplyRequest::Generate { .. } => ReplyAnswer::Generated(Some("嗯".to_string())),
            _ => ReplyAnswer::Tried,
        };
        run = run.advance(answer, at(1)).0;
        answers += 1;
    }
    assert_eq!(answers, 14);
    assert_eq!(run.deliveries().len(), 2);
}

#[test]
fn messages_of_others_are_passed_by() {
    let run = ReplyProcessor::process(received_event(true), Ok(vec![binding(4, 1, 100)])).unwrap();
    let other = Participant {
        id: 56,
        conversation_id: 100,
        external_id: "me".to_string(),
        display_name: "me".to_string(),
        role: ParticipantRole::Character,
        metadata: Json::Null,
    };
    let (run, decided) = run.advance(ReplyAnswer::Participants(Ok(vec![other])), at(1));
    assert!(decided.is_none());
    assert_eq!(run.stage, ReplyStage::Deliver);
    assert!(run.deliveries().is_empty());
}

#[test]
fn bindings_are_dropped_where_nothing_comes() {
    assert!(pipe(None, Some("嗨".to_string())).deliveries().is_empty());
    assert!(pipe(Some(reply_decision(1)), None).deliveries().is_empty());
    let ignore = BehaviorDecision { action: BehaviorAction::Ignore, ..reply_decision(1) };
    assert!(pipe(Some(ignore), Some("嗨".to_string())).deliveries().is_empty());
}

#[test]
fn all_replies_are_sent_whatever_their_order() {
    let mut run = pipe(Some(reply_decision(1)), Some("0".to_string()));
    for i in 1..20 {
        let mut more = pipe(Some(reply_decision(i)), Some(format!("{i}")));
        run.pending.append(&mut more.pending);
    }
    let mut sent: Vec<u64> = run.deliveries().iter().map(|r| r.content.parse().unwrap()).collect();
    sent.sort();
    assert_eq!(sent, (0..20).collect::<Vec<u64>>());
}

#[test]
fn a_character_finds_itself_among_participants() {
    let user = Participant {
        id: 1,
        conversation_id: 100,
        external_id: "u".to_string(),
        display_name: "u".to_string(),
        role: ParticipantRole::User,
        metadata: Json::Null,
    };
    let failed = get_my_participant_id(&binding(1, 1, 100), Ok(vec![user]));
    assert!(failed.is_err());
    let failed = get_my_participant_id(
        &binding(1, 1, 100),
        Err(RepositoryError::Internal("x".to_string())),
    );
    assert!(matches!(failed, Err(RuntimeError::Repository(_))));
}

// Acting unasked.

fn ten_o_clock() -> Timestamp {
    at(NEW_YEAR + 10 * 3600)
}

fn minutes_later(minutes: i64) -> Timestamp {
    at(NEW_YEAR + 10 * 3600 + minutes * 60)
}

fn proactive_binding(enabled: bool, mute: Option<&str>) -> CharacterBinding {
    CharacterBinding {
        reply_mode: ReplyMode::Natural,
        proactive_enabled: enabled,
        mute_schedule: mute.map(String::from),
        ..binding(1, 2, 20)
    }
}

fn copy(b: &CharacterBinding) -> CharacterBinding {
    CharacterBinding {
        reply_mode: b.reply_mode,
        proactive_enabled: b.proactive_enabled,
        mute_schedule: b.mute_schedule.clone(),
        ..binding(b.id, b.character_id, b.conversation_id)
    }
}

/// One round of the driver over a binding with a close friend.
fn tick(
    b: &CharacterBinding,
    state: Option<CharacterState>,
    now: Timestamp,
) -> Option<ProactiveUpdate> {
    let known = state.as_ref().map(|s| s.duplicate());
    let ctx = load_context(
        2,
        None,
        ContextReads {
            bindings: Ok(vec![copy(b)]),
            mood: Ok(None),
            relationship: Ok(None),
            closeness: None,
            state: Ok(known),
            conversation_state: Ok(None),
            behavior_state: Ok(None),
        },
    )
    .unwrap();
    let decision = decide_proactive(&ctx, &vec![s(0.95)], 2, 20, now);
    evaluate_binding(b, Ok(state), Ok(decision), Span::from_secs(PROACTIVE_COOLDOWN), now).unwrap()
}

fn willing(b: &CharacterBinding, state: Option<CharacterState>, now: Timestamp) -> Option<ProactiveUpdate> {
    let decision = BehaviorDecision {
        action: BehaviorAction::UpdateState,
        ..reply_decision(0)
    };
    evaluate_binding(b, Ok(state), Ok(decision), Span::from_secs(PROACTIVE_COOLDOWN), now).unwrap()
}

#[test]
fn disabled_proactive_binding_never_touches_state() {
    assert!(tick(&proactive_binding(false, None), None, ten_o_clock()).is_none());
    assert!(willing(&proactive_binding(false, None), None, ten_o_clock()).is_none());
}

#[test]
fn cooldown_blocks_trigger_within_window() {
    let b = proactive_binding(true, None);
    let first = willing(&b, None, ten_o_clock()).expect("首轮应落库状态");
    assert_eq!(first.state.last_proactive_at, Some(ten_o_clock()));
    let second = willing(&b, Some(first.state), minutes_later(5));
    assert!(second.is_none());
}

#[test]
fn after_cooldown_triggers_and_updates_timestamp() {
    let b = proactive_binding(true, None);
    let first = willing(&b, None, ten_o_clock()).unwrap();
    let second = willing(&b, Some(first.state), minutes_later(31)).expect("过冷却后应再次写入");
    assert_eq!(second.state.last_proactive_at, Some(minutes_later(31)));
    assert_eq!(second.event.character_id, 2);
    assert_eq!(second.event.conversation_id, 20);
}

#[test]
fn mute_window_skips_proactive() {
    let b = proactive_binding(true, Some("09:00-12:00"));
    assert!(tick(&b, None, ten_o_clock()).is_none());
    assert!(willing(&b, None, ten_o_clock()).is_none());
    assert!(willing(&b, None, minutes_later(121)).is_some());
}

#[test]
fn whoever_is_unwilling_does_nothing() {
    let b = proactive_binding(true, None);
    assert!(may_act(&b, &Ok(None), Span::from_secs(1800), ten_o_clock()).unwrap());
    let ignore = BehaviorDecision { action: BehaviorAction::Ignore, ..reply_decision(0) };
    let none = evaluate_binding(&b, Ok(None), Ok(ignore), Span::from_secs(1800), ten_o_clock());
    assert!(none.unwrap().is_none());
    let failed = evaluate_binding(
        &b,
        Err(RepositoryError::Internal("x".to_string())),
        Ok(reply_decision(0)),
        Span::from_secs(1800),
        ten_o_clock(),
    );
    assert!(failed.is_err());
    let mut rested = CharacterState::default_at(at(0));
    rested.last_proactive_at = Some(at(0));
    let endless = may_act(&b, &Ok(Some(rested)), Span::from_secs(u64::MAX), ten_o_clock());
    match endless {
        Err(DomainError::Internal(text)) => assert!(text.starts_with("冷却时长无效: ")),
        other => panic!("unexpected {other:?}"),
    }
}

// Thinking unasked.

fn driver() -> CognitionDriver {
    CognitionDriver::with_config(Span::from_secs(300), Span::from_secs(600), Span::from_secs(300))
}

#[test]
fn idle_binding_triggers_cognition() {
    let now = ten_o_clock();
    assert!(driver().process_binding(100, Ok(Some(minutes_later(-10))), now).unwrap());
    assert!(driver().is_idle(Ok(Some(minutes_later(-6))), now).unwrap());
    assert!(!driver().is_idle(Ok(Some(minutes_later(-5))), now).unwrap());
    assert!(driver().is_idle(Ok(None), now).unwrap());
}

#[test]
fn non_idle_binding_skips_cognition() {
    let now = ten_o_clock();
    assert!(!driver().process_binding(100, Ok(Some(minutes_later(-1))), now).unwrap());
    assert!(!driver().process_binding(100, Ok(Some(now)), now).unwrap());
    let failed = driver().is_idle(Err(RepositoryError::Internal("x".to_string())), now);
    assert!(matches!(failed, Err(RuntimeError::Repository(_))));
}

#[test]
fn cooldown_blocks_second_cognition() {
    let mut d = driver();
    let old = minutes_later(-14_400);
    assert!(d.process_binding(100, Ok(Some(old)), ten_o_clock()).unwrap());
    d.note_cognition(100, ten_o_clock());
    assert!(d.is_in_cooldown(100, minutes_later(5)).unwrap());
    assert!(!d.process_binding(100, Ok(Some(old)), minutes_later(5)).unwrap());
    assert!(d.process_binding(101, Ok(Some(old)), minutes_later(5)).unwrap());
    assert!(d.process_binding(100, Ok(Some(old)), minutes_later(10)).unwrap());
}

#[test]
fn thoughts_are_asked_for_and_kept() {
    let b = binding(1, 100, 1);
    let small = character(100, definition("小爱"));
    let prompt = build_cognition_prompt(&small, &vec![text_message(1, "你好")]);
    assert!(prompt.contains("小爱"));
    assert!(prompt.contains("你好"));
    let request = cognize(&b, Ok(Some(small)), Ok(vec![text_message(1, "你好")])).unwrap();
    assert!(request.priority >= 2);
    assert!(cognize(&b, Ok(None), Ok(vec![])).is_err());
    assert_eq!(digest_response(Ok("  想法 ".to_string())).unwrap().as_deref(), Some("想法"));
    assert!(digest_response(Ok("  ".to_string())).unwrap().is_none());
    let kept = settle_thought(&b, "想法".to_string(), Ok(vec![7u8])).unwrap();
    assert_eq!(kept.content, "想法");
    assert_eq!(kept.embedding, 7);
    assert_eq!(kept.character_id, 100);
    let none: Result<Vec<u8>, RuntimeError> = Ok(vec![]);
    assert!(settle_thought(&b, "想法".to_string(), none).is_err());
}

// Loading characters.

#[test]
fn load_character_persists_default_state_and_publishes_event() {
    let loaded =
        load_character_unlocked(1, Ok(Some(character(1, definition("Alice")))), Ok(None), at(5))
            .expect("load 应成功");
    assert_eq!(f(loaded.character.state.energy), f(CharacterState::default_at(at(5)).energy));
    assert_eq!(loaded.initialised.expect("应收到状态变更事件").character_id, 1);
}

#[test]
fn load_character_uses_persisted_state_when_present() {
    let mut persisted = CharacterState::default_at(at(0));
    persisted.energy = s(20.0);
    let loaded = load_character_unlocked(
        1,
        Ok(Some(character(1, definition("Alice")))),
        Ok(Some(persisted)),
        at(5),
    )
    .unwrap();
    assert_eq!(f(loaded.character.state.energy), 20.0);
    assert!(loaded.initialised.is_none());
    let missing = load_character_unlocked(1, Ok(None), Ok(None), at(5));
    assert!(matches!(missing, Err(RuntimeError::Domain(DomainError::CharacterNotFound(1)))));
}

#[test]
fn apply_state_patch_merges_clamps_and_publishes() {
    let merged = merge_patch(
        json(r#"{ "energy": 72.0, "stress": 10.0, "social_mood": "calm" }"#),
        &json(r#"{ "energy": 150.0, "social_mood": "开心" }"#),
    )
    .unwrap();
    assert_eq!(merged.get("stress").unwrap().as_double(), Some(s(10.0)));
    let mut state = CharacterState::default_at(at(0));
    state.energy = merged.get("energy").unwrap().as_double().unwrap();
    state.social_mood = merged.text_at("social_mood").cloned();
    let new_state = settle_patch(state, at(9));
    assert_eq!(f(new_state.energy), 100.0);
    assert_eq!(new_state.social_mood.as_deref(), Some("开心"));
    assert_eq!(new_state.last_updated, at(9));
    let mut runtime = CharacterRuntime::new();
    runtime.remember(1, character(1, definition("Alice")));
    let event = runtime.update_state(1, new_state, at(9));
    assert_eq!(event.character_id, 1);
    assert_eq!(f(runtime.get_cached(1).unwrap().state.energy), 100.0);
}

#[test]
fn update_state_publishes_event() {
    let mut runtime = CharacterRuntime::new();
    let event = runtime.update_state(1, CharacterState::default_at(at(0)), at(3));
    assert_eq!(event.character_id, 1);
    assert_eq!(event.timestamp, at(3));
}

#[test]
fn many_loads_make_the_state_once() {
    let mut runtime = CharacterRuntime::new();
    let mut stored: Option<CharacterState> = None;
    let mut made = 0;
    for turn in 0..8 {
        // Every other load waited for its turn and asks the storage all the same.
        if turn % 2 == 1 {
            let cached = runtime.get_cached(1).expect("in memory");
            assert_eq!(cached.state.last_updated, at(100));
            continue;
        }
        let state = stored.as_ref().map(|s| s.duplicate());
        let found = Ok(Some(character(1, definition("Alice"))));
        let loaded = load_character_unlocked(1, found, Ok(state), at(100 + turn)).unwrap();
        assert_eq!(loaded.character.state.last_updated, at(100));
        if loaded.initialised.is_some() {
            stored = Some(loaded.character.state.duplicate());
            made += 1;
        }
        runtime.remember(1, loaded.character);
    }
    assert_eq!(made, 1);
    assert!(matches!(
        load_character_unlocked(9, Ok(None), Ok(None), at(1)),
        Err(RuntimeError::Domain(DomainError::CharacterNotFound(9)))
    ));
}

#[test]
fn the_cache_holds_what_was_loaded() {
    let mut runtime = CharacterRuntime::new();
    runtime.remember(1, character(1, definition("Alice")));
    runtime.remember(2, character(2, definition("Bob")));
    assert_eq!(runtime.cache_size(), 2);
    let mut ids = runtime.loaded_ids();
    ids.sort();
    assert_eq!(ids, vec![1, 2]);
    runtime.evict(1);
    assert!(runtime.get_cached(1).is_none());
    assert_eq!(runtime.get_cached(2).unwrap().definition.name, "Bob");
}

// Importing characters.

fn card(name: &str) -> CharacterDefinition {
    let mut d = definition(name);
    d.metadata = json(r#"{ "spec_version": "chara_card_v3" }"#);
    d
}

#[test]
fn import_without_bind_inserts_character_and_state() {
    let run =
        CardImport::import_card(Ok(card("油木然-bot")), ImportOptions::default(), at(1)).unwrap();
    assert_eq!(run.stage, ImportStage::Insert);
    assert_eq!(f(run.character.state.energy), 72.0);
    let run = run.advance(Ok(7)).unwrap();
    assert_eq!(run.stage, ImportStage::StoreState);
    let run = run.advance(Ok(0)).unwrap();
    assert_eq!(run.stage, ImportStage::Finished);
    assert!(run.result.character_id > 0);
    assert_eq!(run.result.name, "油木然-bot");
    assert_eq!(run.result.spec_version.as_deref(), Some("chara_card_v3"));
    assert!(run.result.conversation_id.is_none());
    assert!(run.result.binding_id.is_none());
}

fn bind_options() -> ImportOptions {
    ImportOptions {
        bind: Some(BindOptions {
            conversation_type: ConversationType::Group,
            external_conversation_id: "123456".to_string(),
            participant_external_id: Some("u99".to_string()),
            participant_display_name: Some("小油".to_string()),
            reply_mode: ReplyMode::Natural,
            proactive_enabled: false,
        }),
    }
}

#[test]
fn import_with_bind_creates_conversation_binding_and_participant() {
    let mut run = CardImport::import_card(Ok(card("油木然-bot")), bind_options(), at(1)).unwrap();
    let mut stages = vec![];
    for id in [7, 0, 8, 9, 10] {
        stages.push(run.stage);
        run = run.advance(Ok(id)).unwrap();
    }
    assert_eq!(
        stages,
        vec![
            ImportStage::Insert,
            ImportStage::StoreState,
            ImportStage::Conversation,
            ImportStage::Participant,
            ImportStage::Bind,
        ]
    );
    assert_eq!(run.stage, ImportStage::Finished);
    assert_eq!(run.result.character_id, 7);
    assert_eq!(run.result.conversation_id, Some(8));
    assert_eq!(run.result.participant_id, Some(9));
    assert_eq!(run.result.binding_id, Some(10));

    let mut second = CardImport::import_card(Ok(card("油木然-bot")), bind_options(), at(1)).unwrap();
    for id in [11, 0, 8, 9] {
        second = second.advance(Ok(id)).unwrap();
    }
    let reads = BindReads {
        character: Ok(true),
        conversation: Ok(true),
        existing: Ok(vec![]),
        in_conversation: Ok(vec![binding(10, 7, 8)]),
    };
    let taken = second.bind(reads, at(2));
    assert!(matches!(
        &taken,
        Err(RuntimeError::Domain(DomainError::InvalidState(t))) if t == "会话 8 已绑定角色 7"
    ));
    let ended = second.advance(taken.map(|made| made.id));
    assert!(ended.is_err(), "同会话第二次绑定应被拒绝");
}

#[test]
fn rejects_blank_name_card() {
    let bad = CardImport::import_card(Ok(card("   ")), ImportOptions::default(), at(1));
    assert!(matches!(
        bad,
        Err(RuntimeError::Domain(DomainError::InvalidDefinition(_)))
    ));
    let unparsed = CardImport::import_card(
        Err(card_failure("缺少 name".to_string())),
        ImportOptions::default(),
        at(1),
    );
    assert!(matches!(unparsed, Err(RuntimeError::CardImport(t)) if t == "缺少 name"));
}

#[test]
fn imported_characters_take_part_as_asked() {
    let options = bind_options().bind.unwrap();
    assert_eq!(options.participant_name().as_deref(), Some("小油"));
    let made = bind(
        7,
        8,
        options.terms(),
        BindReads {
            character: Ok(true),
            conversation: Ok(true),
            existing: Ok(vec![]),
            in_conversation: Ok(vec![]),
        },
        at(1),
    )
    .unwrap();
    assert_eq!(made.reply_mode, ReplyMode::Natural);
    assert_eq!(made.mute_schedule, None);
    let unnamed = BindOptions { participant_display_name: None, ..bind_options().bind.unwrap() };
    assert_eq!(unnamed.participant_name().as_deref(), Some("u99"));
    assert_eq!(BindOptions::default().participant_name(), None);
}

#[test]
fn cards_are_told_apart_by_their_first_bytes() {
    let png = [137, 80, 78, 71, 13, 10, 26, 10, 0];
    assert_eq!(card_format(&png), CardFormat::Png);
    assert_eq!(card_format(&png[..7]), CardFormat::Json);
    assert_eq!(card_format(b"{\"name\": 1}"), CardFormat::Json);
    assert_eq!(card_text("卡".as_bytes()).unwrap(), "卡");
    match card_text(&[0x7b, 0xff]) {
        Err(RuntimeError::Config(text)) => assert_eq!(
            text,
            format!("卡片不是合法 UTF-8 文本：{}", std::str::from_utf8(&[0x7b, 0xff]).unwrap_err())
        ),
        other => panic!("unexpected {other:?}"),
    }
    match unreadable_card("a.png", "denied") {
        RuntimeError::Config(text) => assert_eq!(text, "无法读取角色卡文件 a.png: denied"),
        other => panic!("unexpected {other:?}"),
    }
}
