//! Characters, conversations, messages, emotions, relationships and quiet hours.

use yomua::domain::behavior::{Action, BehaviorAction, BehaviorDecision, CognitionLevel, Priority};
use yomua::domain::character::{
    Character, CharacterDefinition, CharacterState, ConversationState, ReplyMode,
};
use yomua::domain::conversation::{ConversationType, ParticipantRole};
use yomua::domain::emotion::{
    EmotionAdjustment, EmotionEvent, EmotionEventType, EmotionState, Mood,
};
use yomua::domain::event::{
    AdapterConnectedEvent, AdapterDisconnectedEvent, CoreEvent, ResponseSource,
};
use yomua::domain::memory::{Memory, MemoryType};
use yomua::domain::message::MessageContent;
use yomua::domain::mute::{
    is_muted, is_within_window, parse_mute_schedule, parse_time, MuteWindow, TimeOfDay,
};
use yomua::domain::relationship::Relationship;
use yomua::error::DomainError;
use yomua::json::Json;
use yomua::scalar::Scalar;
use yomua::time::Timestamp;

fn s(x: f64) -> Scalar {
    Scalar { bits: x.to_bits() }
}

fn f(x: Scalar) -> f64 {
    f64::from_bits(x.bits)
}

fn at(secs: i64) -> Timestamp {
    Timestamp { secs, nanos: 0 }
}

fn time(hour: u32, minute: u32) -> TimeOfDay {
    TimeOfDay { hour, minute }
}

fn sum(a: Scalar, b: Scalar) -> Scalar {
    s(f(a) + f(b))
}

fn definition(name: &str) -> CharacterDefinition {
    CharacterDefinition {
        name: name.to_string(),
        description: None,
        personality: None,
        scenario: None,
        style: None,
        background: None,
        greetings: vec![],
        example_messages: vec![],
        system_prompt: None,
        post_history_instructions: None,
        lorebook: vec![],
        metadata: Json::empty_object(),
    }
}

// Behavior.

#[test]
fn behavior_decision_creation() {
    let decision = BehaviorDecision {
        action: BehaviorAction::Reply,
        priority: Priority::Normal,
        cognition_level: CognitionLevel::Light,
        delay_ms: 0,
        reason: "User mentioned character".to_string(),
        decided_at: at(1),
    };
    assert_eq!(decision.action, BehaviorAction::Reply);
    assert_eq!(decision.priority, Priority::Normal);
}

#[test]
fn priority_ordering() {
    assert!(Priority::Realtime < Priority::Urgent);
    assert!(Priority::Urgent < Priority::Normal);
    assert!(Priority::Normal < Priority::Background);
}

#[test]
fn behavior_action_variants() {
    let actions = [
        BehaviorAction::Reply,
        BehaviorAction::Ignore,
        BehaviorAction::Delay,
        BehaviorAction::InitiateProactive,
        BehaviorAction::UpdateState,
    ];
    for (i, a1) in actions.iter().enumerate() {
        for (j, a2) in actions.iter().enumerate() {
            if i != j {
                assert_ne!(a1, a2);
                assert_ne!(a1.name(), a2.name());
            }
        }
    }
}

#[test]
fn cognition_level_variants() {
    assert_ne!(CognitionLevel::NoCognition, CognitionLevel::Light);
    assert_ne!(CognitionLevel::Light, CognitionLevel::Deep);
}

#[test]
fn actions_hold_what_they_are_given() {
    let action = Action::SendMessage { conversation_id: 1, content: "hello".to_string() };
    match action {
        Action::SendMessage { conversation_id, content } => {
            assert_eq!(conversation_id, 1);
            assert_eq!(content, "hello");
        }
        _ => panic!("expected SendMessage"),
    }
}

// Emotions.

#[test]
fn default_emotion_state() {
    let state = EmotionState::default_at(at(0));
    assert_eq!(f(state.happiness), 0.5);
    assert_eq!(f(state.anger), 0.0);
    assert_eq!(f(state.sadness), 0.0);
    assert_eq!(f(state.fear), 0.0);
    assert_eq!(f(state.affection), 0.3);
    assert_eq!(f(state.stress), 0.1);
    assert_eq!(f(state.energy), 0.7);
}

#[test]
fn apply_event_adjusts_emotion() {
    let initial = EmotionState::default_at(at(0));
    let event = EmotionEvent {
        event_type: EmotionEventType::MessageReceived,
        adjustments: vec![
            EmotionAdjustment { dimension: "happiness".to_string(), value: s(0.2) },
            EmotionAdjustment { dimension: "anger".to_string(), value: s(-0.1) },
        ],
        description: None,
    };
    let new_state = initial.apply_event(&event, &sum);
    assert!((f(new_state.happiness) - 0.7).abs() < 0.001);
    assert_eq!(f(new_state.anger), 0.0);
}

#[test]
fn apply_event_clamps_values() {
    let mut initial = EmotionState::default_at(at(0));
    initial.happiness = s(0.9);
    let event = EmotionEvent {
        event_type: EmotionEventType::MessageReceived,
        adjustments: vec![EmotionAdjustment {
            dimension: "happiness".to_string(),
            value: s(0.5),
        }],
        description: None,
    };
    let new_state = initial.apply_event(&event, &sum);
    assert_eq!(f(new_state.happiness), 1.0);
}

#[test]
fn unknown_dimensions_change_nothing() {
    let initial = EmotionState::default_at(at(0));
    let event = EmotionEvent {
        event_type: EmotionEventType::MessageReceived,
        adjustments: vec![EmotionAdjustment { dimension: "hunger".to_string(), value: s(0.5) }],
        description: None,
    };
    let same = initial.apply_event(&event, &sum);
    assert_eq!(same.happiness, initial.happiness);
    assert_eq!(same.energy, initial.energy);
    assert_eq!(same.stress, initial.stress);
}

fn relax(elapsed: f64, rate: f64) -> impl Fn(Scalar, Scalar) -> Scalar {
    move |value, baseline| s(f(baseline) + (f(value) - f(baseline)) * (-rate * elapsed).exp())
}

#[test]
fn time_decay_moves_toward_baseline() {
    let mut state = EmotionState::default_at(at(0));
    state.happiness = s(0.9);
    state.anger = s(0.5);
    state.apply_decay(&relax(100.0, 0.01));
    assert!(f(state.happiness) < 0.9);
    assert!(f(state.happiness) > 0.5);
    assert!(f(state.anger) < 0.5);
    assert!(f(state.anger) > 0.0);
}

#[test]
fn time_decay_zero_duration_no_change() {
    let mut state = EmotionState::default_at(at(0));
    let happiness = state.happiness;
    let anger = state.anger;
    state.apply_decay(&relax(0.0, 0.01));
    assert_eq!(f(state.happiness), f(happiness));
    assert_eq!(f(state.anger), f(anger));
}

#[test]
fn moods_are_bounded() {
    let high = Mood { value: s(250.0), last_updated: at(3) }.clamped();
    assert_eq!(f(high.value), 100.0);
    assert_eq!(high.last_updated, at(3));
    assert_eq!(f(Mood { value: s(-1.0), last_updated: at(3) }.clamped().value), 0.0);
}

// Events.

#[test]
fn adapter_events() {
    let connected = CoreEvent::AdapterConnected(AdapterConnectedEvent {
        adapter_name: "onebot".to_string(),
        timestamp: at(1),
    });
    let disconnected = CoreEvent::AdapterDisconnected(AdapterDisconnectedEvent {
        adapter_name: "onebot".to_string(),
        reason: Some("NapCat crashed".to_string()),
        timestamp: at(2),
    });
    assert!(matches!(connected, CoreEvent::AdapterConnected(_)));
    assert!(matches!(disconnected, CoreEvent::AdapterDisconnected(e) if e.reason.is_some()));
}

#[test]
fn response_source_variants() {
    assert_ne!(ResponseSource::Rule, ResponseSource::Llm);
    assert_ne!(ResponseSource::Llm, ResponseSource::Plugin);
}

// Quiet hours.

#[test]
fn parse_valid_schedule() {
    let w = parse_mute_schedule("22:00-06:00")
        .expect("合法窗口应解析成功")
        .expect("非空应返回 Some");
    assert_eq!(w.from, time(22, 0));
    assert_eq!(w.until, time(6, 0));
}

#[test]
fn parse_whitespace_or_empty_returns_none() {
    assert!(parse_mute_schedule("").unwrap().is_none());
    assert!(parse_mute_schedule("   ").unwrap().is_none());
    assert!(parse_mute_schedule(" \t ").unwrap().is_none());
}

#[test]
fn parse_invalid_shapes_return_error() {
    assert!(parse_mute_schedule("22:00").is_err(), "缺少分隔符");
    assert!(parse_mute_schedule("22:00-06").is_err(), "缺少分号");
    assert!(parse_mute_schedule("ab:00-06:00").is_err(), "非法小时");
    assert!(parse_mute_schedule("25:00-06:00").is_err(), "小时越界");
    assert!(parse_mute_schedule("22:60-06:00").is_err(), "分钟越界");
}

#[test]
fn within_window_within_same_day() {
    let mut w = parse_mute_schedule("09:00-17:00").unwrap().unwrap();
    assert!(is_within_window(&w, &time(9, 0)), "下界包含");
    assert!(is_within_window(&w, &time(12, 30)));
    assert!(!is_within_window(&w, &time(17, 0)), "上界不包含");
    assert!(!is_within_window(&w, &time(8, 59)));

    w = parse_mute_schedule("09:00-17:00").unwrap().unwrap();
    assert!(!is_within_window(&w, &time(23, 0)));
}

#[test]
fn within_window_crosses_midnight() {
    let w = parse_mute_schedule("22:00-06:00").unwrap().unwrap();
    assert!(is_within_window(&w, &time(22, 0)));
    assert!(is_within_window(&w, &time(23, 59)));
    assert!(is_within_window(&w, &time(0, 0)));
    assert!(is_within_window(&w, &time(5, 59)));
    assert!(!is_within_window(&w, &time(6, 0)));
    assert!(!is_within_window(&w, &time(12, 0)));
}

#[test]
fn exchanged_ends_cover_the_rest_of_the_day() {
    let night = MuteWindow { from: time(22, 0), until: time(6, 0) };
    let day = MuteWindow { from: time(6, 0), until: time(22, 0) };
    for hour in 0..24 {
        for minute in 0..60 {
            let t = time(hour, minute);
            assert_ne!(is_within_window(&night, &t), is_within_window(&day, &t));
        }
    }
}

#[test]
fn times_of_day() {
    assert_eq!(TimeOfDay::new(23, 59).unwrap().to_minutes(), 1439);
    assert!(TimeOfDay::new(24, 0).is_err());
    assert!(TimeOfDay::new(0, 60).is_err());
    assert_eq!(parse_time(" 7:05 ").unwrap(), time(7, 5));
    assert!(parse_time("-1:00").is_err());
}

#[test]
fn schedules_that_cannot_be_read_mute_nothing() {
    assert!(is_muted(&Some("22:00-06:00".to_string()), &time(23, 0)));
    assert!(!is_muted(&Some("nonsense".to_string()), &time(23, 0)));
    assert!(!is_muted(&None, &time(23, 0)));
}

// Relationships and memories.

#[test]
fn new_relationship_defaults() {
    let rel = Relationship::new(1, 2, at(5));
    assert_eq!(rel.character_id, 1);
    assert_eq!(rel.participant_id, 2);
    assert_eq!(f(rel.familiarity), 0.0);
    assert_eq!(f(rel.affection), 0.2);
    assert_eq!(f(rel.trust), 0.1);
    assert_eq!(rel.interaction_count, 0);
}

fn familiarity_of(count: i64) -> Scalar {
    s(0.1 * ((count as f64) + 1.0).ln())
}

fn interact(rel: &mut Relationship) {
    let next = rel.interaction_count + 1;
    rel.record_interaction(familiarity_of(next), at(next));
}

#[test]
fn record_interaction_increments_count() {
    let mut rel = Relationship::new(1, 2, at(0));
    interact(&mut rel);
    assert_eq!(rel.interaction_count, 1);
    interact(&mut rel);
    assert_eq!(rel.interaction_count, 2);
}

#[test]
fn familiarity_grows_logarithmically() {
    let mut rel = Relationship::new(1, 2, at(0));
    interact(&mut rel);
    let fam1 = f(rel.familiarity);
    for _ in 0..99 {
        interact(&mut rel);
    }
    let fam100 = f(rel.familiarity);
    assert!(fam100 > fam1);
    assert!(fam100 <= 1.0);
}

#[test]
fn new_memories_are_bounded_and_touched() {
    let mut m = Memory::new(1, Some(7), MemoryType::System, "重要".to_string(), s(5.0), at(10));
    assert_eq!(m.id, 0);
    assert_eq!(f(m.importance), 1.0);
    assert_eq!(m.created_at, at(10));
    m.touch(at(20));
    assert_eq!(m.last_accessed, at(20));
    assert_eq!(m.created_at, at(10));
}

// Characters.

#[test]
fn character_state_default() {
    let state = CharacterState::default_at(at(0));
    assert_eq!(f(state.energy), 72.0);
    assert_eq!(f(state.attention), 50.0);
    assert_eq!(f(state.stress), 10.0);
    assert_eq!(state.social_mood.as_deref(), Some("calm"));
}

#[test]
fn character_definition_fields() {
    let mut def = definition("Alice");
    def.description = Some("A friendly girl".to_string());
    def.personality = Some("Cheerful, curious".to_string());
    def.style = Some("Casual, uses emoji".to_string());
    def.greetings = vec!["Hi there!".to_string()];
    def.system_prompt = Some("You are Alice.".to_string());
    assert_eq!(def.name, "Alice");
    assert!(def.greetings.contains(&"Hi there!".to_string()));
}

#[test]
fn character_binding_reply_modes() {
    assert_ne!(ReplyMode::MentionOnly, ReplyMode::Natural);
    assert_eq!(ReplyMode::Occasionally, ReplyMode::Occasionally);
}

#[test]
fn character_definition_validate_rejects_blank_name() {
    let def = definition("   ");
    match def.validate() {
        Err(DomainError::InvalidDefinition(text)) => assert_eq!(text, "角色名称不能为空"),
        _ => panic!("expected InvalidDefinition"),
    }
    let mut valid = definition("   ");
    valid.name = "Alice".to_string();
    assert!(valid.validate().is_ok());
}

#[test]
fn character_state_clamped_bounds_numeric_fields() {
    let mut state = CharacterState::default_at(at(0));
    state.energy = s(150.0);
    state.attention = s(-20.0);
    state.stress = s(999.0);
    let clamped = state.clamped();
    assert_eq!(f(clamped.energy), 100.0);
    assert_eq!(f(clamped.attention), 0.0);
    assert_eq!(f(clamped.stress), 100.0);

    let mut in_range = CharacterState::default_at(at(0));
    in_range.energy = s(50.0);
    in_range.attention = s(60.0);
    in_range.stress = s(30.0);
    let in_range = in_range.clamped();
    assert_eq!(f(in_range.energy), 50.0);
    assert_eq!(f(in_range.attention), 60.0);
    assert_eq!(f(in_range.stress), 30.0);
}

#[test]
fn conversation_states_start_in_the_middle() {
    let state = ConversationState::default_at(at(4));
    assert_eq!(f(state.energy), 50.0);
    assert_eq!(f(state.stress), 10.0);
    assert_eq!(state.last_updated, at(4));
}

#[test]
fn characters_hold_their_state() {
    let character = Character {
        id: 1,
        definition: definition("Test"),
        state: CharacterState::default_at(at(0)),
        created_at: at(0),
        updated_at: at(0),
    };
    assert_eq!(character.id, 1);
    assert_eq!(character.definition.name, "Test");
    assert_eq!(character.state.duplicate().social_mood, character.state.social_mood);
}

// Conversations and messages.

#[test]
fn conversation_type_variants() {
    assert_ne!(ConversationType::Private, ConversationType::Group);
}

#[test]
fn participant_role_variants() {
    assert_ne!(ParticipantRole::User, ParticipantRole::Character);
    assert_ne!(ParticipantRole::User, ParticipantRole::System);
}

#[test]
fn message_content_variants() {
    let text = MessageContent::Text("hello".to_string());
    match text {
        MessageContent::Text(s) => assert_eq!(s, "hello"),
        _ => panic!("expected text"),
    }
}
