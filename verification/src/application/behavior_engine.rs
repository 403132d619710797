//! The rule-based behaviour engine: whether a character answers, and how soon.
//!
//! Binding, relationship and state set a willingness in hundredths; a hash of the
//! message, taken as a fraction of 2^32, is held against it.

use vstd::prelude::*;

use crate::domain::behavior::{BehaviorAction, BehaviorDecision, CognitionLevel, Priority};
use crate::domain::character::{
    text_of, BehaviorState, CharacterBinding, CharacterState, ConversationState, ReplyMode,
};
use crate::domain::emotion::Mood;
use crate::domain::mute::{is_muted, muted_at, TimeOfDay};
use crate::domain::relationship::Relationship;
use crate::error::{DomainError, RepositoryError};
use crate::scalar::{
    Scalar, FIFTY, FORTY, QUARTER, SEVENTY, SEVENTY_TWO, SEVEN_TENTHS, SIXTY, SIX_TENTHS, TEN,
    THIRTY, ZERO,
};
use crate::text::{concat, i64_text, integer_text, join, joined, owned, texts};
use crate::time::Timestamp;
use vstd::utf8::encode_utf8;

verus! {

/// The basic willingness to act unasked, in hundredths.
pub const PROACTIVE_BASE_THRESHOLD: i64 = 50;

/// The start value of the message hash.
pub const HASH_START: u64 = 0xcbf2_9ce4_8422_2325;

/// The factor of the message hash.
pub const HASH_FACTOR: u64 = 0x0100_0000_01b3;

/// What is known when a decision is taken.
pub struct DecisionContext {
    /// The character's place in the conversation, if it has one.
    pub binding: Option<CharacterBinding>,
    pub mood: Option<Mood>,
    pub conversation_state: Option<ConversationState>,
    pub behavior_state: Option<BehaviorState>,
    /// The relationship to the sender, if there is one.
    pub relationship: Option<Relationship>,
    /// How close that relationship is: the mean of familiarity, affection, trust
    /// and intimacy. There where the relationship is.
    pub closeness: Option<Scalar>,
    pub state: Option<CharacterState>,
}

/// What the storage answers when a context is loaded, or its failures.
pub struct ContextReads {
    pub bindings: Result<Vec<CharacterBinding>, RepositoryError>,
    pub mood: Result<Option<Mood>, RepositoryError>,
    pub relationship: Result<Option<Relationship>, RepositoryError>,
    pub closeness: Option<Scalar>,
    pub state: Result<Option<CharacterState>, RepositoryError>,
    pub conversation_state: Result<Option<ConversationState>, RepositoryError>,
    pub behavior_state: Result<Option<BehaviorState>, RepositoryError>,
}

/// Turns an error of the storage into one of the domain.
pub fn repo_err(e: RepositoryError) -> (r: DomainError)
    ensures
        r matches DomainError::Internal(s) && s@ == "仓储错误: "@ + e.text(),
{
    DomainError::Internal(concat("仓储错误: ", e.message().as_str()))
}

/// The first index at or after `from` of a binding of the character; the length
/// where there is none.
pub open spec fn binding_index(bindings: Seq<CharacterBinding>, character_id: i64, from: int) -> int
    decreases bindings.len() - from,
{
    if from < 0 || from >= bindings.len() {
        bindings.len() as int
    } else if bindings[from].character_id == character_id {
        from
    } else {
        binding_index(bindings, character_id, from + 1)
    }
}

/// The first binding of the character.
pub open spec fn first_binding(bindings: Seq<CharacterBinding>, character_id: i64) -> Option<
    CharacterBinding,
> {
    let i = binding_index(bindings, character_id, 0);
    if i < bindings.len() {
        Some(bindings[i])
    } else {
        None
    }
}

/// Picks the first binding of the character.
pub fn find_binding(bindings: Vec<CharacterBinding>, character_id: i64) -> (r: Option<
    CharacterBinding,
>)
    ensures
        r == first_binding(bindings@, character_id),
{
    let mut rest = bindings;
    let mut i: usize = 0;
    while i < rest.len()
        invariant
            i <= rest@.len(),
            rest@ == bindings@,
            binding_index(bindings@, character_id, i as int) == binding_index(
                bindings@,
                character_id,
                0,
            ),
        decreases rest@.len() - i,
    {
        if rest[i].character_id == character_id {
            return Some(rest.swap_remove(i));
        }
        i += 1;
    }
    None
}

/// The first failure among what was read, in the order of reading.
pub open spec fn first_failure(reads: ContextReads, asked_relationship: bool) -> Option<
    RepositoryError,
> {
    if reads.bindings is Err {
        Some(reads.bindings->Err_0)
    } else if reads.mood is Err {
        Some(reads.mood->Err_0)
    } else if asked_relationship && reads.relationship is Err {
        Some(reads.relationship->Err_0)
    } else if reads.state is Err {
        Some(reads.state->Err_0)
    } else if reads.conversation_state is Err {
        Some(reads.conversation_state->Err_0)
    } else if reads.behavior_state is Err {
        Some(reads.behavior_state->Err_0)
    } else {
        None
    }
}

/// Puts together what was read for a decision; the relationship only where a
/// participant was given.
pub fn load_context(
    character_id: i64,
    participant_id: Option<i64>,
    reads: ContextReads,
) -> (r: Result<DecisionContext, DomainError>)
    ensures
        match first_failure(reads, participant_id is Some) {
            Some(e) => r matches Err(DomainError::Internal(s)) && s@ == "仓储错误: "@ + e.text(),
            None => r matches Ok(ctx) && ({
                &&& ctx.binding == first_binding(reads.bindings->Ok_0@, character_id)
                &&& ctx.mood == reads.mood->Ok_0
                &&& participant_id is Some ==> ctx.relationship == reads.relationship->Ok_0
                    && ctx.closeness == reads.closeness
                &&& participant_id is None ==> ctx.relationship is None && ctx.closeness is None
                &&& ctx.state == reads.state->Ok_0
                &&& ctx.conversation_state == reads.conversation_state->Ok_0
                &&& ctx.behavior_state == reads.behavior_state->Ok_0
            }),
        },
{
    let bindings = match reads.bindings {
        Ok(b) => b,
        Err(e) => {
            return Err(repo_err(e));
        },
    };
    let binding = find_binding(bindings, character_id);
    let mood = match reads.mood {
        Ok(m) => m,
        Err(e) => {
            return Err(repo_err(e));
        },
    };
    let (relationship, closeness) = match participant_id {
        Some(_) => match reads.relationship {
            Ok(rel) => (rel, reads.closeness),
            Err(e) => {
                return Err(repo_err(e));
            },
        },
        None => (None, None),
    };
    let state = match reads.state {
        Ok(s) => s,
        Err(e) => {
            return Err(repo_err(e));
        },
    };
    let conversation_state = match reads.conversation_state {
        Ok(s) => s,
        Err(e) => {
            return Err(repo_err(e));
        },
    };
    let behavior_state = match reads.behavior_state {
        Ok(s) => s,
        Err(e) => {
            return Err(repo_err(e));
        },
    };
    Ok(
        DecisionContext {
            binding,
            mood,
            conversation_state,
            behavior_state,
            relationship,
            closeness,
            state,
        },
    )
}

// ---------------------------------------------------------------------------
// The parts of a decision
// ---------------------------------------------------------------------------

/// The time of day, UTC.
pub open spec fn clock_time(t: Timestamp) -> TimeOfDay {
    TimeOfDay {
        hour: (t.second_of_day() / 3600) as u32,
        minute: (t.second_of_day() % 3600 / 60) as u32,
    }
}

/// The time of day, UTC.
pub fn time_of_day(t: Timestamp) -> (r: TimeOfDay)
    ensures
        r == clock_time(t),
        r.valid(),
{
    let s: u32 = t.seconds_into_day();
    TimeOfDay { hour: s / 3600, minute: s % 3600 / 60 }
}

/// The hash of a run of bytes: each byte is mixed in by exclusive or, then the
/// sum is multiplied, modulo 2^64.
pub open spec fn hash_of(bytes: Seq<u8>) -> u64
    decreases bytes.len(),
{
    if bytes.len() == 0 {
        HASH_START
    } else {
        (hash_of(bytes.drop_last()) ^ (bytes.last() as u64)).wrapping_mul(HASH_FACTOR)
    }
}

/// The throw that a text stands for, between 0 and 2^32: the lower half of the
/// hash of its bytes.
pub open spec fn throw_of(content: Seq<char>) -> u64 {
    hash_of(encode_utf8(content)) & 0xFFFF_FFFF
}

/// Throws a die that depends on the text alone.
pub fn deterministic_roll(content: &str) -> (r: u64)
    ensures
        r == throw_of(content@),
        r < 0x1_0000_0000,
{
    let bytes = content.as_bytes();
    let mut hash: u64 = HASH_START;
    let mut i: usize = 0;
    assert(bytes@.take(0) =~= Seq::<u8>::empty());
    while i < bytes.len()
        invariant
            i <= bytes@.len(),
            hash == hash_of(bytes@.take(i as int)),
        decreases bytes@.len() - i,
    {
        proof {
            let next = bytes@.take(i + 1);
            assert(next.drop_last() =~= bytes@.take(i as int));
            assert(next.last() == bytes@[i as int]);
        }
        hash = (hash ^ (bytes[i] as u64)).wrapping_mul(HASH_FACTOR);
        i += 1;
    }
    assert(bytes@.take(i as int) =~= bytes@);
    assert(hash & 0xFFFF_FFFF < 0x1_0000_0000) by (bit_vector);
    hash & 0xFFFF_FFFF
}

/// What sways an answer.
#[derive(Debug, Clone, Copy, PartialEq, Eq, Structural)]
pub struct ReplyReasonFlags {
    pub mentioned: bool,
    pub muted: bool,
    pub annoyed: bool,
    pub low_energy: bool,
    pub stressed: bool,
    pub high_affection: bool,
    pub close_relation: bool,
    pub distant_relation: bool,
}

impl ReplyReasonFlags {
    /// Something holds the character back.
    pub open spec fn withholds(self) -> bool {
        self.annoyed || self.low_energy || self.stressed || self.distant_relation
    }
}

/// The basic willingness, in hundredths, and the basic delay, in milliseconds.
pub open spec fn base_of(mode: ReplyMode, mentioned: bool) -> (int, int) {
    match mode {
        ReplyMode::MentionOnly => if mentioned {
            (100, 1600)
        } else {
            (0, 1600)
        },
        ReplyMode::Occasionally => if mentioned {
            (100, 1400)
        } else {
            (30, 1800)
        },
        ReplyMode::Natural => if mentioned {
            (100, 1200)
        } else {
            (70, 1000)
        },
    }
}

/// The basic willingness, in hundredths, and the basic delay, in milliseconds.
pub fn base_params(reply_mode: &ReplyMode, is_mentioned: bool) -> (r: (i64, u64))
    ensures
        (r.0 as int, r.1 as int) == base_of(*reply_mode, is_mentioned),
{
    match reply_mode {
        ReplyMode::MentionOnly => if is_mentioned {
            (100, 1600)
        } else {
            (0, 1600)
        },
        ReplyMode::Occasionally => if is_mentioned {
            (100, 1400)
        } else {
            (30, 1800)
        },
        ReplyMode::Natural => if is_mentioned {
            (100, 1200)
        } else {
            (70, 1000)
        },
    }
}

/// A part of a sum that counts only under a condition.
pub open spec fn part(condition: bool, n: int) -> int {
    if condition {
        n
    } else {
        0
    }
}

/// A number of hundredths bounded to the whole.
pub open spec fn hundredths(n: int) -> int {
    if n < 0 {
        0
    } else if n > 100 {
        100
    } else {
        n
    }
}

/// The willingness to answer, in hundredths. What holds the character back and
/// quiet hours count only against messages that do not mention it.
pub open spec fn willingness(mode: ReplyMode, f: ReplyReasonFlags) -> int {
    hundredths(
        base_of(mode, f.mentioned).0 - part(!f.mentioned && f.withholds(), 20) - part(
            !f.mentioned && f.stressed,
            5,
        ) + part(f.high_affection, 15) + part(f.close_relation, 10) - part(
            !f.mentioned && f.muted,
            35,
        ),
    )
}

/// The delay before an answer, in milliseconds.
pub open spec fn reply_delay(mode: ReplyMode, f: ReplyReasonFlags) -> int {
    base_of(mode, f.mentioned).1 + part(f.withholds(), 400) + part(f.stressed, 300) - part(
        f.high_affection,
        200,
    ) - part(f.close_relation, 300) + part(!f.mentioned && f.muted, 800)
}

/// A throw wins against a willingness: as fractions, it is smaller.
pub open spec fn wins(throw: u64, hundredths: int) -> bool {
    throw * 100 < hundredths * 0x1_0000_0000
}

/// Tells whether a throw wins against a willingness.
fn throw_wins(throw: u64, hundredths: i64) -> (r: bool)
    requires
        throw < 0x1_0000_0000,
        0 <= hundredths <= 100,
    ensures
        r == wins(throw, hundredths as int),
{
    throw * 100 < (hundredths as u64) * 0x1_0000_0000
}

fn bound_hundredths(n: i64) -> (r: i64)
    ensures
        r == hundredths(n as int),
{
    if n < 0 {
        0
    } else if n > 100 {
        100
    } else {
        n
    }
}

/// The parts of the reason for an answer.
pub open spec fn reason_parts(f: ReplyReasonFlags) -> Seq<Seq<char>> {
    let parts = one(f.mentioned, "用户提到了角色"@) + one(f.muted, "处于静默时段（未提及）"@) + one(
        f.close_relation,
        "与对方亲密度高"@,
    ) + one(f.distant_relation, "与对方较疏离"@) + one(f.high_affection, "好感度高"@) + one(
        f.annoyed,
        "当前厌烦度高"@,
    ) + one(f.low_energy, "精力较低"@) + one(f.stressed, "压力较高"@);
    if parts.len() == 0 {
        seq!["达到参与阈值"@]
    } else {
        parts
    }
}

/// The part under a condition, nothing else.
pub open spec fn one(condition: bool, s: Seq<char>) -> Seq<Seq<char>> {
    if condition {
        seq![s]
    } else {
        Seq::empty()
    }
}

/// The reason for an answer.
pub open spec fn reply_reason(f: ReplyReasonFlags) -> Seq<char> {
    "回复："@ + joined(reason_parts(f), "；"@)
}

fn add_part(parts: &mut Vec<String>, condition: bool, s: &str)
    ensures
        texts(final(parts)@) == texts(old(parts)@) + one(condition, s@),
{
    if condition {
        parts.push(owned(s));
    }
    assert(texts(parts@) =~= texts(old(parts)@) + one(condition, s@));
}

/// Explains an answer.
pub fn build_reply_reason(f: &ReplyReasonFlags) -> (r: String)
    ensures
        r@ == reply_reason(*f),
{
    let mut parts: Vec<String> = Vec::new();
    add_part(&mut parts, f.mentioned, "用户提到了角色");
    add_part(&mut parts, f.muted, "处于静默时段（未提及）");
    add_part(&mut parts, f.close_relation, "与对方亲密度高");
    add_part(&mut parts, f.distant_relation, "与对方较疏离");
    add_part(&mut parts, f.high_affection, "好感度高");
    add_part(&mut parts, f.annoyed, "当前厌烦度高");
    add_part(&mut parts, f.low_energy, "精力较低");
    add_part(&mut parts, f.stressed, "压力较高");
    let ghost listed = texts(parts@);
    assert(listed.len() == parts@.len());
    if parts.len() == 0 {
        parts.push(owned("达到参与阈值"));
        assert(texts(parts@) =~= seq!["达到参与阈值"@]);
    }
    assert(listed =~= one(f.mentioned, "用户提到了角色"@) + one(f.muted, "处于静默时段（未提及）"@)
        + one(f.close_relation, "与对方亲密度高"@) + one(f.distant_relation, "与对方较疏离"@) + one(
        f.high_affection,
        "好感度高"@,
    ) + one(f.annoyed, "当前厌烦度高"@) + one(f.low_energy, "精力较低"@) + one(
        f.stressed,
        "压力较高"@,
    ));
    let list = join(&parts, "；");
    concat("回复：", list.as_str())
}

/// The decision is to do nothing, for this reason.
pub open spec fn ignores(d: BehaviorDecision, reason: Seq<char>, now: Timestamp) -> bool {
    &&& d.action == BehaviorAction::Ignore
    &&& d.priority == Priority::Background
    &&& d.cognition_level == CognitionLevel::NoCognition
    &&& d.delay_ms == 0
    &&& d.reason@ == reason
    &&& d.decided_at == now
}

/// The decision to do nothing.
pub fn ignore_decision(reason: &str, decided_at: Timestamp) -> (r: BehaviorDecision)
    ensures
        ignores(r, reason@, decided_at),
{
    BehaviorDecision {
        action: BehaviorAction::Ignore,
        priority: Priority::Background,
        cognition_level: CognitionLevel::NoCognition,
        delay_ms: 0,
        reason: owned(reason),
        decided_at,
    }
}

// ---------------------------------------------------------------------------
// Answers
// ---------------------------------------------------------------------------

/// The higher of the stress levels, of the character and in the conversation; a
/// state that is not stored counts as a fresh one.
pub open spec fn stress_level(ctx: DecisionContext) -> Scalar {
    let own = match ctx.state {
        Some(s) => s.stress,
        None => Scalar { bits: TEN },
    };
    let scoped = match ctx.conversation_state {
        Some(s) => s.stress,
        None => Scalar { bits: TEN },
    };
    own.greater(scoped)
}

/// The lower of the energy levels, of the character and in the conversation; a
/// state that is not stored counts as a fresh one.
pub open spec fn energy_level(ctx: DecisionContext) -> Scalar {
    let own = match ctx.state {
        Some(s) => s.energy,
        None => Scalar { bits: SEVENTY_TWO },
    };
    let scoped = match ctx.conversation_state {
        Some(s) => s.energy,
        None => Scalar { bits: FIFTY },
    };
    own.lesser(scoped)
}

/// What sways the answer to a message.
pub open spec fn reply_flags(
    ctx: DecisionContext,
    binding: CharacterBinding,
    mentioned: bool,
    now: Timestamp,
) -> ReplyReasonFlags {
    ReplyReasonFlags {
        mentioned,
        muted: muted_at(text_of(binding.mute_schedule), clock_time(now)),
        annoyed: ctx.relationship matches Some(r) && (Scalar { bits: SIX_TENTHS }).below(
            r.annoyance,
        ),
        low_energy: energy_level(ctx).below(Scalar { bits: THIRTY }),
        stressed: (Scalar { bits: SIXTY }).below(stress_level(ctx)),
        high_affection: ctx.relationship matches Some(r) && (Scalar { bits: SEVEN_TENTHS }).below(
            r.affection,
        ),
        close_relation: ctx.closeness matches Some(c) && (Scalar { bits: SIX_TENTHS }).below(c),
        distant_relation: ctx.closeness matches Some(c) && c.below(Scalar { bits: QUARTER }),
    }
}

/// The decision on a message.
pub open spec fn response(
    ctx: DecisionContext,
    content: Seq<char>,
    mentioned: bool,
    now: Timestamp,
    d: BehaviorDecision,
) -> bool {
    match ctx.binding {
        None => ignores(d, "该会话没有为本角色配置绑定，忽略"@, now),
        Some(binding) => {
            let f = reply_flags(ctx, binding, mentioned, now);
            if wins(throw_of(content), willingness(binding.reply_mode, f)) {
                &&& d.action == BehaviorAction::Reply
                &&& d.priority == Priority::Realtime
                &&& d.cognition_level == CognitionLevel::Light
                &&& d.delay_ms == reply_delay(binding.reply_mode, f)
                &&& d.reason@ == reply_reason(f)
                &&& d.decided_at == now
            } else {
                ignores(d, "未达到回复阈值，本次忽略"@, now)
            }
        },
    }
}

/// Decides how to respond to a message.
pub fn decide_response(
    ctx: &DecisionContext,
    message_content: &str,
    is_mentioned: bool,
    decided_at: Timestamp,
) -> (r: BehaviorDecision)
    ensures
        response(*ctx, message_content@, is_mentioned, decided_at, r),
{
    let binding = match &ctx.binding {
        Some(b) => b,
        None => {
            return ignore_decision("该会话没有为本角色配置绑定，忽略", decided_at);
        },
    };
    let roll: u64 = deterministic_roll(message_content);
    let (base_threshold, base_delay) = base_params(&binding.reply_mode, is_mentioned);
    let mut threshold: i64 = if is_mentioned {
        100
    } else {
        base_threshold
    };
    let mut delay_ms: u64 = base_delay;

    let close_relation = match ctx.closeness {
        Some(c) => (Scalar { bits: SIX_TENTHS }).less_than(c),
        None => false,
    };
    let distant_relation = match ctx.closeness {
        Some(c) => c.less_than(Scalar { bits: QUARTER }),
        None => false,
    };
    let annoyed = match &ctx.relationship {
        Some(rel) => (Scalar { bits: SIX_TENTHS }).less_than(rel.annoyance),
        None => false,
    };
    let high_affection = match &ctx.relationship {
        Some(rel) => (Scalar { bits: SEVEN_TENTHS }).less_than(rel.affection),
        None => false,
    };
    let global_stress = match &ctx.state {
        Some(s) => s.stress,
        None => Scalar { bits: TEN },
    };
    let scoped_stress = match &ctx.conversation_state {
        Some(s) => s.stress,
        None => Scalar { bits: TEN },
    };
    let stressed = (Scalar { bits: SIXTY }).less_than(global_stress.max(scoped_stress));
    let global_energy = match &ctx.state {
        Some(s) => s.energy,
        None => Scalar { bits: SEVENTY_TWO },
    };
    let scoped_energy = match &ctx.conversation_state {
        Some(s) => s.energy,
        None => Scalar { bits: FIFTY },
    };
    let low_energy = global_energy.min(scoped_energy).less_than(Scalar { bits: THIRTY });
    let in_mute = is_muted(&binding.mute_schedule, &time_of_day(decided_at));
    let withholds = annoyed || low_energy || stressed || distant_relation;

    if !is_mentioned && withholds {
        threshold = threshold - 20;
    }
    if !is_mentioned && stressed {
        threshold = threshold - 5;
    }
    if withholds {
        delay_ms = delay_ms + 400;
    }
    if stressed {
        delay_ms = delay_ms + 300;
    }
    if high_affection {
        threshold = threshold + 15;
        delay_ms = delay_ms - 200;
    }
    if close_relation {
        threshold = threshold + 10;
        delay_ms = delay_ms - 300;
    }
    if in_mute && !is_mentioned {
        threshold = threshold - 35;
        delay_ms = delay_ms + 800;
    }
    let flags = ReplyReasonFlags {
        mentioned: is_mentioned,
        muted: in_mute,
        annoyed,
        low_energy,
        stressed,
        high_affection,
        close_relation,
        distant_relation,
    };
    assert(flags == reply_flags(*ctx, *binding, is_mentioned, decided_at));
    if throw_wins(roll, bound_hundredths(threshold)) {
        BehaviorDecision {
            action: BehaviorAction::Reply,
            priority: Priority::Realtime,
            cognition_level: CognitionLevel::Light,
            delay_ms,
            reason: build_reply_reason(&flags),
            decided_at,
        }
    } else {
        ignore_decision("未达到回复阈值，本次忽略", decided_at)
    }
}

// ---------------------------------------------------------------------------
// Acting unasked
// ---------------------------------------------------------------------------

/// What `chrono` writes for a second of UTC under a pattern.
pub uninterp spec fn utc_text(secs: i64, pattern: Seq<char>) -> Seq<char>;

/// Writes a point in time with `chrono`'s `DateTime::format`. Claimed: the text
/// is a function of the second and the pattern. The second must be one that
/// `DateTime::from_timestamp` accepts, and the pattern the one for hours, which
/// `format` can write.
#[verifier::external_body]
fn format_utc(secs: i64, pattern: &str) -> (r: String)
    requires
        crate::time::FIRST_SECOND <= secs <= crate::time::LAST_SECOND,
        pattern@ == "%Y-%m-%d-%H"@,
    ensures
        r@ == utc_text(secs, pattern@),
{
    chrono::DateTime::from_timestamp(secs, 0).unwrap().format(pattern).to_string()
}

/// The greatest of some values and zero.
pub open spec fn best_of(values: Seq<Scalar>) -> Scalar
    decreases values.len(),
{
    if values.len() == 0 {
        Scalar { bits: ZERO }
    } else {
        best_of(values.drop_last()).greater(values.last())
    }
}

fn best_closeness(values: &Vec<Scalar>) -> (r: Scalar)
    ensures
        r == best_of(values@),
{
    let mut best = Scalar { bits: ZERO };
    let mut i: usize = 0;
    assert(values@.take(0) =~= Seq::<Scalar>::empty());
    while i < values.len()
        invariant
            i <= values@.len(),
            best == best_of(values@.take(i as int)),
        decreases values@.len() - i,
    {
        assert(values@.take(i + 1).drop_last() =~= values@.take(i as int));
        best = best.max(values[i]);
        i += 1;
    }
    assert(values@.take(i as int) =~= values@);
    best
}

/// The lower of the energy levels; a state that is not stored counts as zero.
pub open spec fn proactive_energy(ctx: DecisionContext) -> Scalar {
    let own = match ctx.state {
        Some(s) => s.energy,
        None => Scalar { bits: ZERO },
    };
    let scoped = match ctx.conversation_state {
        Some(s) => s.energy,
        None => Scalar { bits: ZERO },
    };
    own.lesser(scoped)
}

/// The higher of the stress levels; a state that is not stored counts as zero.
pub open spec fn proactive_stress(ctx: DecisionContext) -> Scalar {
    let own = match ctx.state {
        Some(s) => s.stress,
        None => Scalar { bits: ZERO },
    };
    let scoped = match ctx.conversation_state {
        Some(s) => s.stress,
        None => Scalar { bits: ZERO },
    };
    own.greater(scoped)
}

/// The willingness to act unasked, in hundredths.
pub open spec fn initiative(ctx: DecisionContext, closenesses: Seq<Scalar>) -> int {
    let best = best_of(closenesses);
    let close = (Scalar { bits: SIX_TENTHS }).below(best);
    let strange = !close && (closenesses.len() == 0 || best.below(Scalar { bits: QUARTER }));
    let energy = proactive_energy(ctx);
    let stress = proactive_stress(ctx);
    hundredths(
        PROACTIVE_BASE_THRESHOLD + part(close, 20) - part(strange, 15) - part(
            energy.below(Scalar { bits: THIRTY }),
            10,
        ) - part((Scalar { bits: SIXTY }).below(stress), 10) + part(
            (Scalar { bits: SEVENTY }).below(energy) && stress.below(Scalar { bits: FORTY }),
            10,
        ),
    )
}

/// The text that stands for a character, a conversation and an hour.
pub open spec fn initiative_key(
    character_id: i64,
    conversation_id: i64,
    bucket: Seq<char>,
) -> Seq<char> {
    integer_text(character_id as int) + "|"@ + integer_text(conversation_id as int) + "|"@ + bucket
}

/// The decision whether to act unasked, given the text for the hour.
pub open spec fn proactive_response(
    ctx: DecisionContext,
    closenesses: Seq<Scalar>,
    character_id: i64,
    conversation_id: i64,
    bucket: Seq<char>,
    now: Timestamp,
    d: BehaviorDecision,
) -> bool {
    match forbidden(ctx, now) {
        Some(reason) => ignores(d, reason, now),
        None => if wins(
            throw_of(initiative_key(character_id, conversation_id, bucket)),
            initiative(ctx, closenesses),
        ) {
            &&& d.action == BehaviorAction::UpdateState
            &&& d.priority == Priority::Background
            &&& d.cognition_level == CognitionLevel::NoCognition
            &&& d.delay_ms == 0
            &&& d.reason@ == "主动行为检查通过（MVP：仅更新内部状态）"@
            &&& d.decided_at == now
        } else {
            ignores(d, "主动意愿未达阈值，等待下一轮"@, now)
        },
    }
}

/// What forbids to act unasked, whatever the relationships: no binding, one that does
/// not allow it, or quiet hours.
pub open spec fn forbidden(ctx: DecisionContext, now: Timestamp) -> Option<Seq<char>> {
    match ctx.binding {
        None => Some("该会话没有为本角色配置绑定，不主动"@),
        Some(binding) => if !binding.proactive_enabled {
            Some("未启用主动行为"@)
        } else if muted_at(text_of(binding.mute_schedule), clock_time(now)) {
            Some("处于静默时段，主动行为被覆盖"@)
        } else {
            None
        },
    }
}

/// The decision not to act unasked where that is forbidden; nothing where it is
/// allowed, and the relationships count.
pub fn refrain(ctx: &DecisionContext, decided_at: Timestamp) -> (r: Option<BehaviorDecision>)
    ensures
        match forbidden(*ctx, decided_at) {
            Some(reason) => r matches Some(d) && ignores(d, reason, decided_at),
            None => r is None,
        },
{
    let binding = match &ctx.binding {
        Some(b) => b,
        None => {
            return Some(ignore_decision("该会话没有为本角色配置绑定，不主动", decided_at));
        },
    };
    if !binding.proactive_enabled {
        return Some(ignore_decision("未启用主动行为", decided_at));
    }
    if is_muted(&binding.mute_schedule, &time_of_day(decided_at)) {
        return Some(ignore_decision("处于静默时段，主动行为被覆盖", decided_at));
    }
    None
}

/// Decides whether to act unasked, given the text for the hour. `closenesses`
/// are those of all relationships of the character.
pub fn decide_proactive_in(
    ctx: &DecisionContext,
    closenesses: &Vec<Scalar>,
    character_id: i64,
    conversation_id: i64,
    bucket: &str,
    decided_at: Timestamp,
) -> (r: BehaviorDecision)
    ensures
        proactive_response(
            *ctx,
            closenesses@,
            character_id,
            conversation_id,
            bucket@,
            decided_at,
            r,
        ),
{
    if let Some(d) = refrain(ctx, decided_at) {
        return d;
    }
    let mut threshold: i64 = PROACTIVE_BASE_THRESHOLD;
    let best = best_closeness(closenesses);
    if (Scalar { bits: SIX_TENTHS }).less_than(best) {
        threshold = threshold + 20;
    } else if closenesses.len() == 0 || best.less_than(Scalar { bits: QUARTER }) {
        threshold = threshold - 15;
    }
    let global_energy = match &ctx.state {
        Some(s) => s.energy,
        None => Scalar { bits: ZERO },
    };
    let global_stress = match &ctx.state {
        Some(s) => s.stress,
        None => Scalar { bits: ZERO },
    };
    let scoped_energy = match &ctx.conversation_state {
        Some(s) => s.energy,
        None => Scalar { bits: ZERO },
    };
    let scoped_stress = match &ctx.conversation_state {
        Some(s) => s.stress,
        None => Scalar { bits: ZERO },
    };
    let energy = global_energy.min(scoped_energy);
    let stress = global_stress.max(scoped_stress);
    if energy.less_than(Scalar { bits: THIRTY }) {
        threshold = threshold - 10;
    }
    if (Scalar { bits: SIXTY }).less_than(stress) {
        threshold = threshold - 10;
    }
    if (Scalar { bits: SEVENTY }).less_than(energy) && stress.less_than(Scalar { bits: FORTY }) {
        threshold = threshold + 10;
    }
    let head = concat(i64_text(character_id).as_str(), "|");
    let middle = concat(head.as_str(), i64_text(conversation_id).as_str());
    let bar = concat(middle.as_str(), "|");
    let key = concat(bar.as_str(), bucket);
    let roll: u64 = deterministic_roll(key.as_str());
    if throw_wins(roll, bound_hundredths(threshold)) {
        BehaviorDecision {
            action: BehaviorAction::UpdateState,
            priority: Priority::Background,
            cognition_level: CognitionLevel::NoCognition,
            delay_ms: 0,
            reason: owned("主动行为检查通过（MVP：仅更新内部状态）"),
            decided_at,
        }
    } else {
        ignore_decision("主动意愿未达阈值，等待下一轮", decided_at)
    }
}

/// Decides whether to act unasked. The throw depends on the character, the
/// conversation and the hour.
pub fn decide_proactive(
    ctx: &DecisionContext,
    closenesses: &Vec<Scalar>,
    character_id: i64,
    conversation_id: i64,
    decided_at: Timestamp,
) -> (r: BehaviorDecision)
    requires
        decided_at.in_calendar(),
    ensures
        proactive_response(
            *ctx,
            closenesses@,
            character_id,
            conversation_id,
            utc_text(decided_at.secs, "%Y-%m-%d-%H"@),
            decided_at,
            r,
        ),
{
    let bucket = format_utc(decided_at.secs, "%Y-%m-%d-%H");
    decide_proactive_in(
        ctx,
        closenesses,
        character_id,
        conversation_id,
        bucket.as_str(),
        decided_at,
    )
}

// ---------------------------------------------------------------------------
// Laws
// ---------------------------------------------------------------------------

/// A character that is mentioned in a conversation it takes part in always
/// answers, whatever its state and whatever the hour.
pub proof fn mentions_are_always_answered(
    ctx: DecisionContext,
    content: Seq<char>,
    now: Timestamp,
    d: BehaviorDecision,
)
    requires
        ctx.binding is Some,
        response(ctx, content, true, now, d),
    ensures
        d.action == BehaviorAction::Reply,
{
    let h = hash_of(encode_utf8(content));
    assert(h & 0xFFFF_FFFF < 0x1_0000_0000) by (bit_vector);
}

/// A character that answers only when mentioned lets every other message pass,
/// unless affection or closeness moves it.
pub proof fn mention_only_lets_others_pass(
    ctx: DecisionContext,
    content: Seq<char>,
    now: Timestamp,
    d: BehaviorDecision,
)
    requires
        ctx.binding matches Some(b) && b.reply_mode == ReplyMode::MentionOnly,
        response(ctx, content, false, now, d),
        !reply_flags(ctx, ctx.binding->0, false, now).high_affection,
        !reply_flags(ctx, ctx.binding->0, false, now).close_relation,
    ensures
        d.action == BehaviorAction::Ignore,
{
}

/// Whatever holds a character back never makes it more willing nor quicker, and
/// quiet hours make it less willing and slower towards those who do not mention it.
pub proof fn burdens_never_speed_up(mode: ReplyMode, f: ReplyReasonFlags)
    ensures
        ({
            let tired = ReplyReasonFlags { low_energy: true, ..f };
            &&& willingness(mode, tired) <= willingness(mode, f)
            &&& reply_delay(mode, tired) >= reply_delay(mode, f)
        }),
        ({
            let stressed = ReplyReasonFlags { stressed: true, ..f };
            &&& willingness(mode, stressed) <= willingness(mode, f)
            &&& reply_delay(mode, stressed) >= reply_delay(mode, f)
        }),
        ({
            let annoyed = ReplyReasonFlags { annoyed: true, ..f };
            &&& willingness(mode, annoyed) <= willingness(mode, f)
            &&& reply_delay(mode, annoyed) >= reply_delay(mode, f)
        }),
        ({
            let muted = ReplyReasonFlags { muted: true, ..f };
            &&& willingness(mode, muted) <= willingness(mode, f)
            &&& reply_delay(mode, muted) >= reply_delay(mode, f)
            &&& f.mentioned ==> willingness(mode, muted) == willingness(mode, f) && reply_delay(
                mode,
                muted,
            ) == reply_delay(mode, f)
        }),
{
}

/// Affection and closeness never make a character less willing nor slower.
pub proof fn bonds_never_slow_down(mode: ReplyMode, f: ReplyReasonFlags)
    ensures
        ({
            let fond = ReplyReasonFlags { high_affection: true, ..f };
            &&& willingness(mode, fond) >= willingness(mode, f)
            &&& reply_delay(mode, fond) <= reply_delay(mode, f)
        }),
        ({
            let close = ReplyReasonFlags { close_relation: true, ..f };
            &&& willingness(mode, close) >= willingness(mode, f)
            &&& reply_delay(mode, close) <= reply_delay(mode, f)
        }),
{
}

/// An answer takes between half a second and 3.3 seconds.
pub proof fn delays_are_human(mode: ReplyMode, f: ReplyReasonFlags)
    ensures
        500 <= reply_delay(mode, f) <= 3300,
{
}

/// The same message in the same situation gets the same decision.
pub proof fn decisions_are_reproducible(
    ctx: DecisionContext,
    content: Seq<char>,
    mentioned: bool,
    now: Timestamp,
    a: BehaviorDecision,
    b: BehaviorDecision,
)
    requires
        response(ctx, content, mentioned, now, a),
        response(ctx, content, mentioned, now, b),
    ensures
        a.action == b.action,
        a.priority == b.priority,
        a.cognition_level == b.cognition_level,
        a.delay_ms == b.delay_ms,
        a.reason@ == b.reason@,
        a.decided_at == b.decided_at,
{
}

/// A character acts unasked only where it takes part, where that is switched on
/// and outside quiet hours; and then it sends nothing and asks no model.
pub proof fn initiative_is_silent_and_bounded(
    ctx: DecisionContext,
    closenesses: Seq<Scalar>,
    character_id: i64,
    conversation_id: i64,
    bucket: Seq<char>,
    now: Timestamp,
    d: BehaviorDecision,
)
    requires
        proactive_response(ctx, closenesses, character_id, conversation_id, bucket, now, d),
    ensures
        d.action == BehaviorAction::UpdateState || d.action == BehaviorAction::Ignore,
        d.cognition_level == CognitionLevel::NoCognition,
        d.action == BehaviorAction::UpdateState ==> ctx.binding is Some
            && ctx.binding->0.proactive_enabled && !muted_at(
            text_of(ctx.binding->0.mute_schedule),
            clock_time(now),
        ),
{
}

/// Nothing about the sender's relationship or the character's states sways it: none
/// of the levels lies beyond 0.6 of annoyance, 0.7 of affection, 0.25 to 0.6 of
/// closeness, 30 of energy and 60 of stress.
pub open spec fn undisturbed(ctx: DecisionContext) -> bool {
    let quarter = Scalar { bits: 0x3FD0_0000_0000_0000 };
    let six_tenths = Scalar { bits: 0x3FE3_3333_3333_3333 };
    let seven_tenths = Scalar { bits: 0x3FE6_6666_6666_6666 };
    let thirty = Scalar { bits: 0x403E_0000_0000_0000 };
    let sixty = Scalar { bits: 0x404E_0000_0000_0000 };
    &&& ctx.relationship matches Some(r) ==> !six_tenths.below(r.annoyance) && !seven_tenths.below(
        r.affection,
    )
    &&& ctx.closeness matches Some(c) ==> !six_tenths.below(c) && !c.below(quarter)
    &&& ctx.state matches Some(s) ==> !s.energy.below(thirty) && !sixty.below(s.stress)
    &&& ctx.conversation_state matches Some(s) ==> !s.energy.below(thirty) && !sixty.below(s.stress)
}

/// Where nothing sways a character, a message that does not mention it is answered
/// never under `MentionOnly`, where its throw is below 0.30 under `Occasionally`,
/// and where it is below 0.70 under `Natural`; after 1.8 seconds and after one.
pub proof fn unswayed_answers_follow_the_mode(
    ctx: DecisionContext,
    content: &str,
    now: Timestamp,
    d: BehaviorDecision,
)
    requires
        call_ensures(decide_response, (&ctx, content, false, now), d),
        ctx.binding matches Some(b) && !muted_at(text_of(b.mute_schedule), clock_time(now)),
        undisturbed(ctx),
    ensures
        d.action == BehaviorAction::Reply || d.action == BehaviorAction::Ignore,
        ctx.binding->0.reply_mode == ReplyMode::MentionOnly ==> d.action == BehaviorAction::Ignore,
        ctx.binding->0.reply_mode == ReplyMode::Occasionally ==> (d.action == BehaviorAction::Reply
            <==> throw_of(content@) * 100 < 30 * 0x1_0000_0000),
        ctx.binding->0.reply_mode == ReplyMode::Natural ==> (d.action == BehaviorAction::Reply
            <==> throw_of(content@) * 100 < 70 * 0x1_0000_0000),
        d.action == BehaviorAction::Reply ==> d.delay_ms == if ctx.binding->0.reply_mode
            == ReplyMode::Occasionally {
            1800int
        } else {
            1000int
        },
{
}

/// Where nothing holds a character back or draws it on, a message that mentions it
/// is answered after 1.6 seconds under `MentionOnly`, 1.4 under `Occasionally` and
/// 1.2 under `Natural`.
pub proof fn unswayed_mentions_wait_by_mode(
    ctx: DecisionContext,
    content: &str,
    now: Timestamp,
    d: BehaviorDecision,
)
    requires
        call_ensures(decide_response, (&ctx, content, true, now), d),
        ctx.binding is Some,
        undisturbed(ctx),
    ensures
        d.action == BehaviorAction::Reply,
        d.priority == Priority::Realtime,
        d.cognition_level == CognitionLevel::Light,
        d.delay_ms == match ctx.binding->0.reply_mode {
            ReplyMode::MentionOnly => 1600int,
            ReplyMode::Occasionally => 1400int,
            ReplyMode::Natural => 1200int,
        },
{
    mentions_are_always_answered(ctx, content@, now, d);
}

/// A character that answers now and then is less willing than one in a natural
/// conversation and no less than one that waits for a mention; where nothing sways
/// it, strictly so.
pub proof fn modes_differ_in_willingness(f: ReplyReasonFlags)
    requires
        !f.mentioned,
    ensures
        willingness(ReplyMode::MentionOnly, f) <= willingness(ReplyMode::Occasionally, f),
        willingness(ReplyMode::Occasionally, f) <= willingness(ReplyMode::Natural, f),
        !(f.muted || f.annoyed || f.low_energy || f.stressed || f.distant_relation) ==> {
            &&& willingness(ReplyMode::MentionOnly, f) + 30 == willingness(
                ReplyMode::Occasionally,
                f,
            )
            &&& willingness(ReplyMode::Occasionally, f) + 40 == willingness(ReplyMode::Natural, f)
        },
        !(f.muted || f.annoyed || f.low_energy || f.stressed || f.distant_relation
            || f.high_affection || f.close_relation) ==> willingness(ReplyMode::Natural, f) == 70,
{
}

/// What sways a character is read off its binding, the relationship and the states:
/// it is tired where one of its stored energies is below 30, and stressed where one
/// of its stored stresses is above 60. The message is answered exactly where its
/// throw, as a fraction of 2^32, is below the willingness that comes of this, and
/// the answer waits for the delay that comes of it.
pub proof fn answers_follow_what_is_known(
    ctx: DecisionContext,
    content: &str,
    mentioned: bool,
    now: Timestamp,
    d: BehaviorDecision,
    f: ReplyReasonFlags,
)
    requires
        call_ensures(decide_response, (&ctx, content, mentioned, now), d),
        ctx.binding is Some,
        f.mentioned == mentioned,
        f.muted == muted_at(text_of(ctx.binding->0.mute_schedule), clock_time(now)),
        f.annoyed == (ctx.relationship matches Some(r) && (Scalar {
            bits: 0x3FE3_3333_3333_3333,
        }).below(r.annoyance)),
        f.high_affection == (ctx.relationship matches Some(r) && (Scalar {
            bits: 0x3FE6_6666_6666_6666,
        }).below(r.affection)),
        f.close_relation == (ctx.closeness matches Some(c) && (Scalar {
            bits: 0x3FE3_3333_3333_3333,
        }).below(c)),
        f.distant_relation == (ctx.closeness matches Some(c) && c.below(
            Scalar { bits: 0x3FD0_0000_0000_0000 },
        )),
        f.low_energy == ((ctx.state matches Some(s) && s.energy.below(
            Scalar { bits: 0x403E_0000_0000_0000 },
        )) || (ctx.conversation_state matches Some(s) && s.energy.below(
            Scalar { bits: 0x403E_0000_0000_0000 },
        ))),
        f.stressed == ((ctx.state matches Some(s) && (Scalar { bits: 0x404E_0000_0000_0000 }).below(
            s.stress,
        )) || (ctx.conversation_state matches Some(s) && (Scalar {
            bits: 0x404E_0000_0000_0000,
        }).below(s.stress))),
    ensures
        d.action == BehaviorAction::Reply <==> throw_of(content@) * 100 < willingness(
            ctx.binding->0.reply_mode,
            f,
        ) * 0x1_0000_0000,
        d.action == BehaviorAction::Reply ==> d.delay_ms == reply_delay(
            ctx.binding->0.reply_mode,
            f,
        ) && d.reason@ == reply_reason(f),
        d.action != BehaviorAction::Reply ==> d.action == BehaviorAction::Ignore && d.delay_ms == 0
            && d.reason@ == "未达到回复阈值，本次忽略"@,
        d.decided_at == now,
{
    assert(f == reply_flags(ctx, ctx.binding->0, mentioned, now));
}

/// Without a place in the conversation a character lets everything pass.
pub proof fn the_absent_stay_silent(
    ctx: DecisionContext,
    content: &str,
    mentioned: bool,
    now: Timestamp,
    d: BehaviorDecision,
)
    requires
        call_ensures(decide_response, (&ctx, content, mentioned, now), d),
        ctx.binding is None,
    ensures
        d.action == BehaviorAction::Ignore,
        d.priority == Priority::Background,
        d.cognition_level == CognitionLevel::NoCognition,
        d.delay_ms == 0,
        d.decided_at == now,
{
}

/// Towards messages that do not mention it, quiet hours take 35 hundredths off a
/// character's willingness and add 0.8 seconds; the first of annoyance, tiredness
/// and distance takes 20 and adds 0.4 seconds, stress 5 more and 0.3 seconds more.
/// Willingness does not fall below nothing.
pub proof fn what_burdens_cost(mode: ReplyMode, f: ReplyReasonFlags)
    requires
        !f.mentioned,
    ensures
        !f.muted ==> {
            let g = ReplyReasonFlags { muted: true, ..f };
            &&& willingness(mode, g) == if willingness(mode, f) > 35 {
                willingness(mode, f) - 35
            } else {
                0
            }
            &&& reply_delay(mode, g) == reply_delay(mode, f) + 800
        },
        !(f.annoyed || f.low_energy || f.stressed || f.distant_relation) ==> {
            let less = if willingness(mode, f) > 20 {
                willingness(mode, f) - 20
            } else {
                0
            };
            let annoyed = ReplyReasonFlags { annoyed: true, ..f };
            let tired = ReplyReasonFlags { low_energy: true, ..f };
            let distant = ReplyReasonFlags { distant_relation: true, ..f };
            let all = ReplyReasonFlags {
                annoyed: true,
                low_energy: true,
                distant_relation: true,
                ..f
            };
            &&& willingness(mode, annoyed) == less && reply_delay(mode, annoyed) == reply_delay(
                mode,
                f,
            ) + 400
            &&& willingness(mode, tired) == less && reply_delay(mode, tired) == reply_delay(mode, f)
                + 400
            &&& willingness(mode, distant) == less && reply_delay(mode, distant) == reply_delay(
                mode,
                f,
            ) + 400
            &&& willingness(mode, all) == less && reply_delay(mode, all) == reply_delay(mode, f)
                + 400
        },
        f.stressed ==> {
            let tired = ReplyReasonFlags { stressed: false, low_energy: true, ..f };
            &&& willingness(mode, f) == if willingness(mode, tired) > 5 {
                willingness(mode, tired) - 5
            } else {
                0
            }
            &&& reply_delay(mode, f) == reply_delay(mode, tired) + 300
        },
{
}

/// High affection adds 15 hundredths to the willingness and takes 0.2 seconds off
/// the delay, closeness 10 hundredths and 0.3 seconds.
pub proof fn what_bonds_add(mode: ReplyMode, f: ReplyReasonFlags)
    ensures
        !f.high_affection ==> {
            let fond = ReplyReasonFlags { high_affection: true, ..f };
            &&& !f.mentioned ==> willingness(mode, f) == if willingness(mode, fond) > 15 {
                willingness(mode, fond) - 15
            } else {
                0
            }
            &&& reply_delay(mode, fond) == reply_delay(mode, f) - 200
        },
        !f.close_relation ==> {
            let close = ReplyReasonFlags { close_relation: true, ..f };
            &&& !f.mentioned ==> willingness(mode, f) == if willingness(mode, close) > 10 {
                willingness(mode, close) - 10
            } else {
                0
            }
            &&& reply_delay(mode, close) == reply_delay(mode, f) - 300
        },
        f.mentioned ==> willingness(mode, f) == 100,
{
}

/// The throw of a text is the lower half of a hash of its bytes in UTF-8, which
/// starts at 0xcbf29ce484222325 and takes each byte by exclusive or and then a
/// factor of 0x100000001b3, modulo 2^64.
pub proof fn the_throw_takes_every_byte(bytes: Seq<u8>, b: u8, content: &str, r: u64)
    requires
        call_ensures(deterministic_roll, (content,), r),
    ensures
        hash_of(Seq::empty()) == 0xcbf2_9ce4_8422_2325,
        hash_of(bytes.push(b)) == ((hash_of(bytes) ^ (b as u64)) * 0x0100_0000_01b3)
            % 0x1_0000_0000_0000_0000,
        r == hash_of(encode_utf8(content@)) % 0x1_0000_0000,
        throw_of(content@) == r,
{
    assert(bytes.push(b).drop_last() =~= bytes);
    let h = hash_of(encode_utf8(content@));
    assert(h & 0xFFFF_FFFF == h % 0x1_0000_0000) by (bit_vector);
}

/// The hour and the minute are those of the second of the day.
pub proof fn the_clock_shows_the_minute(t: Timestamp, r: TimeOfDay)
    requires
        call_ensures(time_of_day, (t,), r),
    ensures
        r == clock_time(t),
        clock_time(t).hour <= 23,
        clock_time(t).minute <= 59,
        0 <= t.secs % 86_400 - clock_time(t).hour * 3600 - clock_time(t).minute * 60 < 60,
{
}

/// The binding that is found is the character's, and no binding before it is; where
/// none is found, none of them is the character's.
pub proof fn the_found_binding_is_the_first(
    bindings: Vec<CharacterBinding>,
    character_id: i64,
    r: Option<CharacterBinding>,
)
    requires
        call_ensures(find_binding, (bindings, character_id), r),
    ensures
        match r {
            Some(b) => exists|i: int|
                0 <= i < bindings@.len() && #[trigger] bindings@[i] == b && b.character_id
                    == character_id && forall|j: int|
                    0 <= j < i ==> (#[trigger] bindings@[j]).character_id != character_id,
            None => forall|j: int|
                0 <= j < bindings@.len() ==> (#[trigger] bindings@[j]).character_id
                    != character_id,
        },
{
    lemma_binding_index(bindings@, character_id, 0);
    let i = binding_index(bindings@, character_id, 0);
    if i < bindings@.len() {
        assert(bindings@[i] == first_binding(bindings@, character_id)->0);
    }
}

proof fn lemma_binding_index(bindings: Seq<CharacterBinding>, character_id: i64, from: int)
    requires
        0 <= from <= bindings.len(),
    ensures
        from <= binding_index(bindings, character_id, from) <= bindings.len(),
        forall|j: int|
            from <= j < binding_index(bindings, character_id, from) ==> (
            #[trigger] bindings[j]).character_id != character_id,
        binding_index(bindings, character_id, from) < bindings.len() ==> bindings[binding_index(
            bindings,
            character_id,
            from,
        )].character_id == character_id,
    decreases bindings.len() - from,
{
    if from < bindings.len() && bindings[from].character_id != character_id {
        lemma_binding_index(bindings, character_id, from + 1);
    }
}

/// One of the relationships is close: beyond 0.6.
pub open spec fn has_close(closenesses: Seq<Scalar>) -> bool {
    exists|i: int|
        0 <= i < closenesses.len() && (Scalar { bits: 0x3FE3_3333_3333_3333 }).below(
            #[trigger] closenesses[i],
        )
}

/// One of the relationships is more than that of strangers: 0.25 or more.
pub open spec fn has_acquainted(closenesses: Seq<Scalar>) -> bool {
    exists|i: int|
        0 <= i < closenesses.len() && !(#[trigger] closenesses[i]).nan() && !closenesses[i].below(
            Scalar { bits: 0x3FD0_0000_0000_0000 },
        )
}

/// No closeness counts for more than the best, and the best is one of them or zero.
pub proof fn the_best_is_the_greatest(values: Seq<Scalar>)
    ensures
        !best_of(values).nan(),
        best_of(values).bits == 0 || exists|i: int|
            0 <= i < values.len() && #[trigger] values[i] == best_of(values),
        forall|i: int| 0 <= i < values.len() ==> !best_of(values).below(#[trigger] values[i]),
        !best_of(values).below(Scalar { bits: 0 }),
    decreases values.len(),
{
    if values.len() > 0 {
        let rest = values.drop_last();
        the_best_is_the_greatest(rest);
        assert forall|i: int| 0 <= i < values.len() implies !best_of(values).below(
            #[trigger] values[i],
        ) by {
            if i < rest.len() {
                assert(!best_of(rest).below(rest[i]));
            }
        }
        if best_of(values) == values.last() {
            assert(values[values.len() - 1] == best_of(values));
        } else if best_of(rest).bits != 0 {
            let i = choose|i: int| 0 <= i < rest.len() && #[trigger] rest[i] == best_of(rest);
            assert(values[i] == best_of(values));
        }
    }
}

/// A close relationship adds 20 hundredths to the willingness to act unasked;
/// where all are strangers, or there is nobody, it is 15 lower.
pub proof fn closeness_moves_to_act(ctx: DecisionContext, closenesses: Seq<Scalar>, even: Seq<Scalar>)
    requires
        has_acquainted(even) && !has_close(even),
    ensures
        initiative(ctx, closenesses) == if has_close(closenesses) {
            initiative(ctx, even) + 20
        } else if has_acquainted(closenesses) {
            initiative(ctx, even)
        } else {
            initiative(ctx, even) - 15
        },
{
    lemma_best(closenesses);
    lemma_best(even);
}

proof fn lemma_best(values: Seq<Scalar>)
    ensures
        (Scalar { bits: SIX_TENTHS }).below(best_of(values)) == has_close(values),
        best_of(values).below(Scalar { bits: QUARTER }) == !has_acquainted(values),
{
    the_best_is_the_greatest(values);
    let best = best_of(values);
    if (Scalar { bits: SIX_TENTHS }).below(best) {
        let i = choose|i: int| 0 <= i < values.len() && #[trigger] values[i] == best;
        assert((Scalar { bits: SIX_TENTHS }).below(values[i]));
    }
    if !best.below(Scalar { bits: QUARTER }) {
        let i = choose|i: int| 0 <= i < values.len() && #[trigger] values[i] == best;
        assert(!values[i].nan() && !values[i].below(Scalar { bits: QUARTER }));
    }
}

/// One more relationship never makes a character less willing to act unasked, nor
/// does a better one in the place of another.
pub proof fn friends_never_discourage(
    ctx: DecisionContext,
    closenesses: Seq<Scalar>,
    more: Scalar,
    i: int,
)
    ensures
        initiative(ctx, closenesses.push(more)) >= initiative(ctx, closenesses),
        0 <= i < closenesses.len() && closenesses[i].below(more) ==> initiative(
            ctx,
            closenesses.update(i, more),
        ) >= initiative(ctx, closenesses),
{
    let pushed = closenesses.push(more);
    let updated = closenesses.update(i, more);
    lemma_best(closenesses);
    lemma_best(pushed);
    lemma_best(updated);
    if has_close(closenesses) {
        let k = choose|k: int|
            0 <= k < closenesses.len() && (Scalar { bits: 0x3FE3_3333_3333_3333 }).below(
                #[trigger] closenesses[k],
            );
        assert(pushed[k] == closenesses[k]);
        if 0 <= i < closenesses.len() && closenesses[i].below(more) {
            assert((Scalar { bits: 0x3FE3_3333_3333_3333 }).below(updated[k]));
        }
    }
    if has_acquainted(closenesses) {
        let k = choose|k: int|
            0 <= k < closenesses.len() && !(#[trigger] closenesses[k]).nan()
                && !closenesses[k].below(Scalar { bits: 0x3FD0_0000_0000_0000 });
        assert(pushed[k] == closenesses[k]);
        if 0 <= i < closenesses.len() && closenesses[i].below(more) {
            assert(!updated[k].nan() && !updated[k].below(Scalar { bits: 0x3FD0_0000_0000_0000 }));
        }
    }
}

/// Among acquaintances, none of them close, the willingness to act unasked is 50
/// hundredths; 10 less where an energy is below 30 or not known, 10 less where a
/// stress is above 60, and 10 more where every energy is above 70 and every stress
/// below 40.
pub proof fn states_move_to_act(ctx: DecisionContext, even: Seq<Scalar>)
    requires
        has_acquainted(even) && !has_close(even),
        ctx.state matches Some(s) ==> !s.energy.nan() && !s.stress.nan(),
        ctx.conversation_state matches Some(s) ==> !s.energy.nan() && !s.stress.nan(),
    ensures
        ({
            let thirty = Scalar { bits: 0x403E_0000_0000_0000 };
            let forty = Scalar { bits: 0x4044_0000_0000_0000 };
            let sixty = Scalar { bits: 0x404E_0000_0000_0000 };
            let seventy = Scalar { bits: 0x4051_8000_0000_0000 };
            let tired = ctx.state is None || ctx.conversation_state is None
                || ctx.state->0.energy.below(thirty) || ctx.conversation_state->0.energy.below(
                thirty,
            );
            let strained = (ctx.state matches Some(s) && sixty.below(s.stress)) || (
            ctx.conversation_state matches Some(s) && sixty.below(s.stress));
            let lively = ctx.state is Some && ctx.conversation_state is Some && seventy.below(
                ctx.state->0.energy,
            ) && seventy.below(ctx.conversation_state->0.energy) && ctx.state->0.stress.below(forty)
                && ctx.conversation_state->0.stress.below(forty);
            &&& !tired && !strained && !lively ==> initiative(ctx, even) == 50
            &&& tired && !strained ==> initiative(ctx, even) == 40
            &&& !tired && strained ==> initiative(ctx, even) == 40
            &&& tired && strained ==> initiative(ctx, even) == 30
            &&& lively ==> initiative(ctx, even) == 60
        }),
{
    lemma_best(even);
}

/// A character acts unasked exactly where it takes part, where that is switched on,
/// outside quiet hours, and where the throw of its number, the conversation's and
/// the hour, parted by bars, is below its willingness as a fraction of 2^32.
pub proof fn initiative_follows_the_throw(
    ctx: DecisionContext,
    closenesses: Vec<Scalar>,
    character_id: i64,
    conversation_id: i64,
    bucket: &str,
    now: Timestamp,
    d: BehaviorDecision,
)
    requires
        call_ensures(
            decide_proactive_in,
            (&ctx, &closenesses, character_id, conversation_id, bucket, now),
            d,
        ),
    ensures
        d.action == BehaviorAction::UpdateState <==> {
            &&& ctx.binding is Some
            &&& ctx.binding->0.proactive_enabled
            &&& !muted_at(text_of(ctx.binding->0.mute_schedule), clock_time(now))
            &&& throw_of(
                integer_text(character_id as int) + seq!['|'] + integer_text(conversation_id as int)
                    + seq!['|'] + bucket@,
            ) * 100 < initiative(ctx, closenesses@) * 0x1_0000_0000
        },
        d.action != BehaviorAction::UpdateState ==> d.action == BehaviorAction::Ignore,
        d.priority == Priority::Background,
        d.delay_ms == 0,
        d.decided_at == now,
{
    reveal_strlit("|");
    assert("|"@ =~= seq!['|']);
}

/// Within one hour, named by year, month, day and hour of UTC, a character decides as
/// it does under that hour's text.
pub proof fn initiative_goes_by_the_hour(
    ctx: DecisionContext,
    closenesses: Vec<Scalar>,
    character_id: i64,
    conversation_id: i64,
    hour: &str,
    now: Timestamp,
    d: BehaviorDecision,
    in_hour: BehaviorDecision,
)
    requires
        now.in_calendar(),
        call_ensures(
            decide_proactive,
            (&ctx, &closenesses, character_id, conversation_id, now),
            d,
        ),
        hour@ == utc_text(now.secs, "%Y-%m-%d-%H"@),
        call_ensures(
            decide_proactive_in,
            (&ctx, &closenesses, character_id, conversation_id, hour, now),
            in_hour,
        ),
    ensures
        d.action == in_hour.action,
        d.reason@ == in_hour.reason@,
        d.decided_at == now,
{
}

/// A context for a decision holds what was read: of the bindings the character's
/// first, and the relationship only where a participant was given. It fails exactly
/// where something that is asked for could not be read.
pub proof fn decisions_rest_on_what_was_read(
    character_id: i64,
    participant_id: Option<i64>,
    reads: ContextReads,
    r: Result<DecisionContext, DomainError>,
    found: Option<CharacterBinding>,
)
    requires
        call_ensures(load_context, (character_id, participant_id, reads), r),
        reads.bindings is Ok ==> call_ensures(
            find_binding,
            (reads.bindings->Ok_0, character_id),
            found,
        ),
    ensures
        r is Ok <==> {
            &&& reads.bindings is Ok && reads.mood is Ok && reads.state is Ok
            &&& reads.conversation_state is Ok && reads.behavior_state is Ok
            &&& participant_id is None || reads.relationship is Ok
        },
        r matches Ok(ctx) ==> {
            &&& ctx.binding == found
            &&& Ok::<Option<Mood>, RepositoryError>(ctx.mood) == reads.mood
            &&& Ok::<Option<CharacterState>, RepositoryError>(ctx.state) == reads.state
            &&& Ok::<Option<ConversationState>, RepositoryError>(ctx.conversation_state)
                == reads.conversation_state
            &&& Ok::<Option<BehaviorState>, RepositoryError>(ctx.behavior_state)
                == reads.behavior_state
            &&& participant_id is Some ==> Ok::<Option<Relationship>, RepositoryError>(
                ctx.relationship,
            ) == reads.relationship && ctx.closeness == reads.closeness
            &&& participant_id is None ==> ctx.relationship is None && ctx.closeness is None
        },
{
}

/// The reason for an answer names the mention, quiet hours and everything else that
/// swayed it.
pub proof fn reasons_name_what_swayed(f: ReplyReasonFlags)
    ensures
        f.mentioned ==> crate::text::has_part(reply_reason(f), "用户提到了角色"@),
        f.muted ==> crate::text::has_part(reply_reason(f), "处于静默时段（未提及）"@),
        f.close_relation ==> crate::text::has_part(reply_reason(f), "与对方亲密度高"@),
        f.distant_relation ==> crate::text::has_part(reply_reason(f), "与对方较疏离"@),
        f.high_affection ==> crate::text::has_part(reply_reason(f), "好感度高"@),
        f.annoyed ==> crate::text::has_part(reply_reason(f), "当前厌烦度高"@),
        f.low_energy ==> crate::text::has_part(reply_reason(f), "精力较低"@),
        f.stressed ==> crate::text::has_part(reply_reason(f), "压力较高"@),
        f == (ReplyReasonFlags {
            mentioned: false,
            muted: false,
            annoyed: false,
            low_energy: false,
            stressed: false,
            high_affection: false,
            close_relation: false,
            distant_relation: false,
        }) ==> crate::text::has_part(reply_reason(f), "达到参与阈值"@),
{
    let a = one(f.mentioned, "用户提到了角色"@);
    let b = one(f.muted, "处于静默时段（未提及）"@);
    let c = one(f.close_relation, "与对方亲密度高"@);
    let d = one(f.distant_relation, "与对方较疏离"@);
    let e = one(f.high_affection, "好感度高"@);
    let g = one(f.annoyed, "当前厌烦度高"@);
    let h = one(f.low_energy, "精力较低"@);
    let i = one(f.stressed, "压力较高"@);
    let all = a + b + c + d + e + g + h + i;
    if f.mentioned {
        lemma_listed(a, b, c, d, e, g, h, i, a[0]);
        lemma_named(f, all, a[0]);
    }
    if f.muted {
        lemma_listed(a, b, c, d, e, g, h, i, b[0]);
        lemma_named(f, all, b[0]);
    }
    if f.close_relation {
        lemma_listed(a, b, c, d, e, g, h, i, c[0]);
        lemma_named(f, all, c[0]);
    }
    if f.distant_relation {
        lemma_listed(a, b, c, d, e, g, h, i, d[0]);
        lemma_named(f, all, d[0]);
    }
    if f.high_affection {
        lemma_listed(a, b, c, d, e, g, h, i, e[0]);
        lemma_named(f, all, e[0]);
    }
    if f.annoyed {
        lemma_listed(a, b, c, d, e, g, h, i, g[0]);
        lemma_named(f, all, g[0]);
    }
    if f.low_energy {
        lemma_listed(a, b, c, d, e, g, h, i, h[0]);
        lemma_named(f, all, h[0]);
    }
    if f.stressed {
        lemma_listed(a, b, c, d, e, g, h, i, i[0]);
        lemma_named(f, all, i[0]);
    }
    if all.len() == 0 {
        let fallback = seq!["达到参与阈值"@];
        assert(fallback[0] == "达到参与阈值"@);
        lemma_named(f, fallback, "达到参与阈值"@);
    }
}

proof fn lemma_listed(
    a: Seq<Seq<char>>,
    b: Seq<Seq<char>>,
    c: Seq<Seq<char>>,
    d: Seq<Seq<char>>,
    e: Seq<Seq<char>>,
    g: Seq<Seq<char>>,
    h: Seq<Seq<char>>,
    i: Seq<Seq<char>>,
    s: Seq<char>,
)
    requires
        a.contains(s) || b.contains(s) || c.contains(s) || d.contains(s) || e.contains(s)
            || g.contains(s) || h.contains(s) || i.contains(s),
    ensures
        (a + b + c + d + e + g + h + i).contains(s),
{
    crate::text::either_list_holds(a, b, s);
    crate::text::either_list_holds(a + b, c, s);
    crate::text::either_list_holds(a + b + c, d, s);
    crate::text::either_list_holds(a + b + c + d, e, s);
    crate::text::either_list_holds(a + b + c + d + e, g, s);
    crate::text::either_list_holds(a + b + c + d + e + g, h, s);
    crate::text::either_list_holds(a + b + c + d + e + g + h, i, s);
}

proof fn lemma_named(f: ReplyReasonFlags, parts: Seq<Seq<char>>, s: Seq<char>)
    requires
        parts.contains(s),
        reply_reason(f) == "回复："@ + joined(parts, "；"@),
    ensures
        crate::text::has_part(reply_reason(f), s),
{
    let k = parts.index_of(s);
    let list = joined(parts, "；"@);
    crate::text::joining_keeps_every_part(parts, "；"@, k);
    crate::text::longer_texts_keep_parts("回复："@, list, Seq::empty(), s);
    assert("回复："@ + list + Seq::empty() =~= reply_reason(f));
}

/// Without a place in the conversation, with acting unasked switched off, and in quiet
/// hours a character refrains, whatever else is known; otherwise the relationships
/// count.
pub proof fn when_characters_refrain(
    ctx: DecisionContext,
    now: Timestamp,
    r: Option<BehaviorDecision>,
)
    requires
        call_ensures(refrain, (&ctx, now), r),
    ensures
        r is None <==> ctx.binding is Some && ctx.binding->0.proactive_enabled && !muted_at(
            text_of(ctx.binding->0.mute_schedule),
            clock_time(now),
        ),
        r matches Some(d) ==> d.action == BehaviorAction::Ignore && d.priority
            == Priority::Background && d.cognition_level == CognitionLevel::NoCognition
            && d.delay_ms == 0 && d.decided_at == now,
{
}

} // verus!
