//! Deciding whether, how soon and why a character answers or acts.

use yomua::application::behavior_engine::{
    base_params, build_reply_reason, decide_proactive, decide_proactive_in, decide_response,
    deterministic_roll, find_binding, ignore_decision, load_context, refrain, repo_err,
    time_of_day, ContextReads, DecisionContext, ReplyReasonFlags,
};
use yomua::domain::behavior::{BehaviorAction, BehaviorDecision, CognitionLevel};
use yomua::domain::character::{CharacterBinding, CharacterState, ConversationState, ReplyMode};
use yomua::domain::mute::TimeOfDay;
use yomua::domain::relationship::Relationship;
use yomua::error::{DomainError, RepositoryError};
use yomua::json::Json;
use yomua::scalar::Scalar;
use yomua::time::Timestamp;

/// The first second of 2026.
const NEW_YEAR: i64 = 1_767_225_600;

fn s(x: f64) -> Scalar {
    Scalar { bits: x.to_bits() }
}

fn f(x: Scalar) -> f64 {
    f64::from_bits(x.bits)
}

fn clock_at(hour: i64, minute: i64) -> Timestamp {
    Timestamp { secs: NEW_YEAR + hour * 3600 + minute * 60, nanos: 0 }
}

fn noon() -> Timestamp {
    clock_at(12, 0)
}

fn binding_mute(
    conversation_id: i64,
    mode: ReplyMode,
    mute_schedule: Option<&str>,
) -> CharacterBinding {
    CharacterBinding {
        id: 1,
        character_id: 1,
        conversation_id,
        reply_mode: mode,
        proactive_enabled: false,
        mute_schedule: mute_schedule.map(String::from),
        behavior_overrides: Json::empty_object(),
        context_policy: Json::empty_object(),
        switched_at: None,
        cross_reply_enabled: false,
        created_at: noon(),
    }
}

fn binding(conversation_id: i64, mode: ReplyMode) -> CharacterBinding {
    binding_mute(conversation_id, mode, None)
}

fn binding_proactive(
    conversation_id: i64,
    mode: ReplyMode,
    mute_schedule: Option<&str>,
) -> CharacterBinding {
    CharacterBinding {
        proactive_enabled: true,
        ..binding_mute(conversation_id, mode, mute_schedule)
    }
}

fn relationship_full(
    annoyance: f64,
    affection: f64,
    familiarity: f64,
    trust: f64,
    intimacy: f64,
) -> Relationship {
    Relationship {
        character_id: 1,
        participant_id: 1,
        familiarity: s(familiarity),
        affection: s(affection),
        trust: s(trust),
        respect: s(0.1),
        annoyance: s(annoyance),
        intimacy: s(intimacy),
        interaction_count: 1,
        last_interaction: noon(),
        created_at: noon(),
        updated_at: noon(),
    }
}

fn relationship(annoyance: f64, affection: f64) -> Relationship {
    relationship_full(annoyance, affection, 0.1, 0.1, 0.0)
}

fn closeness(r: &Relationship) -> Scalar {
    s((f(r.familiarity) + f(r.affection) + f(r.trust) + f(r.intimacy)) / 4.0)
}

fn state_with(energy: f64, stress: f64) -> CharacterState {
    let mut state = CharacterState::default_at(noon());
    state.energy = s(energy);
    state.stress = s(stress);
    state
}

fn conversation_state_with(energy: f64, stress: f64) -> ConversationState {
    ConversationState { energy: s(energy), stress: s(stress), last_updated: noon() }
}

fn context(
    bindings: Vec<CharacterBinding>,
    state: Option<CharacterState>,
    conversation_state: Option<ConversationState>,
    rel: Option<Relationship>,
    participant_id: Option<i64>,
) -> DecisionContext {
    let closeness = rel.as_ref().map(closeness);
    load_context(
        1,
        participant_id,
        ContextReads {
            bindings: Ok(bindings),
            mood: Ok(None),
            relationship: Ok(rel),
            closeness,
            state: Ok(state),
            conversation_state: Ok(conversation_state),
            behavior_state: Ok(None),
        },
    )
    .expect("reads are all fine")
}

fn respond(ctx: &DecisionContext, content: &str, mentioned: bool) -> BehaviorDecision {
    decide_response(ctx, content, mentioned, noon())
}

#[test]
fn no_binding_ignores() {
    let ctx = context(vec![], None, None, None, None);
    assert_eq!(respond(&ctx, "你好", false).action, BehaviorAction::Ignore);
}

#[test]
fn mention_only_mentions_replies() {
    for mentioned in [true, false] {
        let ctx = context(vec![binding(10, ReplyMode::MentionOnly)], None, None, None, None);
        let d = respond(&ctx, "看看这个", mentioned);
        if mentioned {
            assert_eq!(d.action, BehaviorAction::Reply);
            assert_eq!(d.cognition_level, CognitionLevel::Light);
        } else {
            assert_eq!(d.action, BehaviorAction::Ignore);
        }
    }
}

#[test]
fn occasionally_mentions_always_replies() {
    let ctx = context(vec![binding(10, ReplyMode::Occasionally)], None, None, None, None);
    assert_eq!(respond(&ctx, "你好呀", true).action, BehaviorAction::Reply);
}

#[test]
fn occasional_unmentioned_deterministic() {
    let ctx = context(vec![binding(10, ReplyMode::Occasionally)], None, None, None, None);
    let content = "随便聊点什么";
    let d1 = respond(&ctx, content, false);
    let d2 = respond(&ctx, content, false);
    assert_eq!(d1.action, d2.action);
}

#[test]
fn high_annoyance_raises_delay_and_can_suppress() {
    let mut state = CharacterState::default_at(noon());
    state.energy = s(90.0);
    let ctx = context(
        vec![binding(10, ReplyMode::Natural)],
        Some(state),
        None,
        Some(relationship(0.9, 0.2)),
        Some(1),
    );
    let d = respond(&ctx, "喂", true);
    assert_eq!(d.action, BehaviorAction::Reply);
    assert!(d.delay_ms >= 1400, "高厌烦应增加延迟，实际 {}", d.delay_ms);
}

#[test]
fn high_affection_low_annoyance_reduces_delay() {
    let mut state = CharacterState::default_at(noon());
    state.energy = s(90.0);
    let ctx = context(
        vec![binding(10, ReplyMode::Natural)],
        Some(state),
        None,
        Some(relationship(0.0, 0.9)),
        Some(1),
    );
    let d = respond(&ctx, "你好", true);
    assert_eq!(d.action, BehaviorAction::Reply);
    assert!(d.delay_ms <= 1000, "高好感应降低延迟，实际 {}", d.delay_ms);
}

#[test]
fn proactive_disabled_ignores() {
    let ctx = context(vec![binding(10, ReplyMode::Natural)], None, None, None, None);
    let d = decide_proactive(&ctx, &vec![], 1, 10, noon());
    assert_eq!(d.action, BehaviorAction::Ignore);
    assert!(d.reason.contains("未启用"));
}

#[test]
fn what_is_forbidden_needs_no_relationships() {
    let off = context(vec![binding(10, ReplyMode::Natural)], None, None, None, None);
    assert_eq!(refrain(&off, noon()).unwrap().reason, "未启用主动行为");
    let unbound = context(vec![], None, None, None, None);
    assert!(refrain(&unbound, noon()).is_some());
    let free = context(
        vec![binding_proactive(10, ReplyMode::Natural, None)],
        None,
        None,
        None,
        None,
    );
    assert!(refrain(&free, noon()).is_none());
}

#[test]
fn proactive_same_input_is_deterministic() {
    let ctx = context(
        vec![binding_proactive(10, ReplyMode::Natural, None)],
        None,
        None,
        None,
        None,
    );
    let d1 = decide_proactive(&ctx, &vec![], 1, 10, clock_at(14, 0));
    let d2 = decide_proactive(&ctx, &vec![], 1, 10, clock_at(14, 0));
    assert_eq!(d1.action, d2.action);
    assert_eq!(d1.reason, d2.reason);
}

#[test]
fn proactive_mute_overrides_to_ignore() {
    let ctx = context(
        vec![binding_proactive(10, ReplyMode::Natural, Some("10:00-12:00"))],
        None,
        None,
        None,
        None,
    );
    let d = decide_proactive(&ctx, &vec![], 1, 10, clock_at(10, 30));
    assert_eq!(d.action, BehaviorAction::Ignore);
    assert!(d.reason.contains("静默时段"));
}

#[test]
fn the_hour_decides_as_its_text_does() {
    let ctx = context(
        vec![binding_proactive(10, ReplyMode::Natural, None)],
        Some(state_with(90.0, 5.0)),
        Some(conversation_state_with(90.0, 5.0)),
        None,
        None,
    );
    let close = vec![s(0.9)];
    for hour in 0..24 {
        let now = clock_at(hour, 17);
        let bucket = format!("2026-01-01-{hour:02}");
        let by_clock = decide_proactive(&ctx, &close, 1, 10, now);
        let by_text = decide_proactive_in(&ctx, &close, 1, 10, &bucket, now);
        assert_eq!(by_clock.action, by_text.action);
        assert_eq!(by_clock.reason, by_text.reason);
        assert_eq!(by_clock.delay_ms, by_text.delay_ms);
    }
}

#[test]
fn deterministic_roll_is_stable_in_unit_range() {
    for text in ["a", "hello", "你好", "测试内容 long string", ""] {
        let r = deterministic_roll(text);
        assert_eq!(r, deterministic_roll(text));
        let unit = r as f64 / 4_294_967_296.0;
        assert!((0.0..1.0).contains(&unit), "roll 应在 [0,1)，got {unit}");
    }
}

#[test]
fn mute_window_unmentioned_tends_to_ignore() {
    let content = "你好今天天气不错";
    let mute = "10:00-12:00";
    let ctx = context(
        vec![binding_mute(10, ReplyMode::Natural, Some(mute))],
        None,
        None,
        None,
        None,
    );
    let in_decision = decide_response(&ctx, content, false, clock_at(10, 30));
    assert_eq!(in_decision.action, BehaviorAction::Ignore, "静默时段未提及消息应忽略");
    let out_decision = decide_response(&ctx, content, false, clock_at(14, 0));
    assert_eq!(out_decision.action, BehaviorAction::Reply, "静默时段外应正常回复");
}

#[test]
fn mute_window_mentioned_still_replies() {
    let ctx = context(
        vec![binding_mute(10, ReplyMode::Natural, Some("10:00-12:00"))],
        None,
        None,
        None,
        Some(1),
    );
    let d = decide_response(&ctx, "紧急找我", true, clock_at(10, 30));
    assert_eq!(d.action, BehaviorAction::Reply, "被 @ 的消息应照常回复");
}

#[test]
fn mute_same_clock_is_deterministic() {
    let ctx = context(
        vec![binding_mute(10, ReplyMode::Natural, Some("10:00-12:00"))],
        None,
        None,
        None,
        None,
    );
    let content = "在忙吗";
    let d1 = decide_response(&ctx, content, false, clock_at(11, 0));
    let d2 = decide_response(&ctx, content, false, clock_at(11, 0));
    assert_eq!(d1.action, d2.action);
}

#[test]
fn high_conversation_stress_raises_delay() {
    let content = "在吗";
    let stressed = context(
        vec![binding(10, ReplyMode::Natural)],
        Some(state_with(90.0, 10.0)),
        Some(conversation_state_with(50.0, 90.0)),
        None,
        Some(1),
    );
    let calm = context(
        vec![binding(10, ReplyMode::Natural)],
        Some(state_with(90.0, 10.0)),
        Some(conversation_state_with(50.0, 10.0)),
        None,
        Some(1),
    );
    let stressed_d = respond(&stressed, content, true);
    let calm_d = respond(&calm, content, true);
    assert!(
        stressed_d.delay_ms > calm_d.delay_ms,
        "高压力应比低压力延迟更长（{} vs {}）",
        stressed_d.delay_ms,
        calm_d.delay_ms
    );
}

#[test]
fn high_global_stress_raises_delay() {
    let content = "在吗";
    let stressed = context(
        vec![binding(10, ReplyMode::Natural)],
        Some(state_with(90.0, 90.0)),
        None,
        None,
        Some(1),
    );
    let calm = context(
        vec![binding(10, ReplyMode::Natural)],
        Some(state_with(90.0, 10.0)),
        None,
        None,
        Some(1),
    );
    let stressed_d = respond(&stressed, content, true);
    let calm_d = respond(&calm, content, true);
    assert!(
        stressed_d.delay_ms > calm_d.delay_ms,
        "高压力应比低压力延迟更长（{} vs {}）",
        stressed_d.delay_ms,
        calm_d.delay_ms
    );
}

#[test]
fn close_relation_lowers_delay_and_stranger_raises_it() {
    let content = "在吗";
    let close = context(
        vec![binding(10, ReplyMode::Natural)],
        None,
        None,
        Some(relationship_full(0.0, 0.8, 0.9, 0.9, 0.9)),
        Some(1),
    );
    let stranger = context(
        vec![binding(10, ReplyMode::Natural)],
        None,
        None,
        Some(relationship_full(0.0, 0.1, 0.0, 0.0, 0.0)),
        Some(1),
    );
    let close_d = respond(&close, content, true);
    let stranger_d = respond(&stranger, content, true);
    assert_eq!(close_d.action, BehaviorAction::Reply);
    assert_eq!(stranger_d.action, BehaviorAction::Reply);
    assert!(
        close_d.delay_ms < stranger_d.delay_ms,
        "高亲密度应比陌生人更快回复（{} vs {}）",
        close_d.delay_ms,
        stranger_d.delay_ms
    );
}

#[test]
fn same_state_same_content_is_deterministic() {
    let ctx = context(
        vec![binding(10, ReplyMode::Natural)],
        Some(state_with(40.0, 40.0)),
        None,
        Some(relationship_full(0.5, 0.5, 0.5, 0.5, 0.5)),
        Some(1),
    );
    let content = "随机聊天内容 abc";
    let d1 = respond(&ctx, content, false);
    let d2 = respond(&ctx, content, false);
    assert_eq!(d1.action, d2.action);
    assert_eq!(d1.delay_ms, d2.delay_ms, "相同状态应得到一致的延迟");
    assert_eq!(d1.reason, d2.reason, "相同状态应得到一致的原因");
}

#[test]
fn reasons_name_everything_that_counted() {
    let none = ReplyReasonFlags {
        mentioned: false,
        muted: false,
        annoyed: false,
        low_energy: false,
        stressed: false,
        high_affection: false,
        close_relation: false,
        distant_relation: false,
    };
    assert_eq!(build_reply_reason(&none), "回复：达到参与阈值");
    let some = ReplyReasonFlags { mentioned: true, close_relation: true, stressed: true, ..none };
    assert_eq!(build_reply_reason(&some), "回复：用户提到了角色；与对方亲密度高；压力较高");
}

#[test]
fn a_mention_is_answered_after_the_base_delay() {
    assert_eq!(base_params(&ReplyMode::MentionOnly, true).1, 1600);
    assert_eq!(base_params(&ReplyMode::Natural, true).1, 1200);
    let ctx = context(vec![binding(10, ReplyMode::MentionOnly)], None, None, None, None);
    let d = respond(&ctx, "在吗", true);
    assert_eq!(d.action, BehaviorAction::Reply);
    assert_eq!(d.decided_at, noon());
}

#[test]
fn the_time_of_day_is_utc() {
    assert_eq!(time_of_day(clock_at(10, 30)), TimeOfDay { hour: 10, minute: 30 });
    assert_eq!(
        time_of_day(Timestamp { secs: -60, nanos: 0 }),
        TimeOfDay { hour: 23, minute: 59 }
    );
}

#[test]
fn bindings_are_found_by_character() {
    let mut other = binding(10, ReplyMode::Natural);
    other.character_id = 2;
    let found = find_binding(vec![other, binding(10, ReplyMode::Occasionally)], 1);
    assert_eq!(found.unwrap().reply_mode, ReplyMode::Occasionally);
    assert!(find_binding(vec![], 1).is_none());
}

#[test]
fn failed_reads_are_internal_errors() {
    match repo_err(RepositoryError::Database("断开".to_string())) {
        DomainError::Internal(text) => assert!(text.contains("断开")),
        _ => panic!("expected Internal"),
    }
    let failed = load_context(
        1,
        Some(2),
        ContextReads {
            bindings: Ok(vec![]),
            mood: Err(RepositoryError::Internal("x".to_string())),
            relationship: Ok(None),
            closeness: None,
            state: Ok(None),
            conversation_state: Ok(None),
            behavior_state: Ok(None),
        },
    );
    assert!(matches!(failed, Err(DomainError::Internal(_))));
}

#[test]
fn ignoring_takes_no_time() {
    let d = ignore_decision("静默", noon());
    assert_eq!(d.action, BehaviorAction::Ignore);
    assert_eq!(d.cognition_level, CognitionLevel::NoCognition);
    assert_eq!(d.delay_ms, 0);
    assert_eq!(d.reason, "静默");
}
