//! The background cognition: now and then a character thinks about what was
//! said, and what it makes of it becomes a memory.

use vstd::prelude::*;

use std::collections::HashMap;

use crate::application::llm_scheduler::{LlmMessage, LlmRequest, LlmRole, RequestOrigin};
use crate::domain::character::{copy_text, text_of, Character, CharacterBinding};
use crate::domain::message::{Message, MessageContent};
use crate::error::{RepositoryError, RuntimeError};
use crate::scalar::{Scalar, SEVEN_TENTHS};
use crate::text::{
    concat, has_part, i64_text, integer_text, join, joined, joining_keeps_every_part,
    longer_texts_keep_parts, owned, texts, the_middle_is_a_part, trim, trimmed,
};
use crate::time::{Span, Timestamp};

verus! {

/// How many recent messages a character thinks about.
pub const RECENT_MESSAGES: i64 = 20;

/// The driver of the background cognition.
pub struct CognitionDriver {
    /// The pause between two rounds.
    pub tick_interval: Span,
    /// The least time between two thoughts of a character.
    pub cooldown: Span,
    /// The time without messages after which a conversation counts as idle.
    pub idle_threshold: Span,
    /// When each character last had a thought.
    pub last_cognition: HashMap<i64, Timestamp>,
}

/// The text for a span that is too long to be compared.
pub open spec fn out_of_range() -> Seq<char> {
    "Source duration value is out of range for the target type"@
}

/// It is less than a span since a point in time.
pub open spec fn too_soon(now: Timestamp, last: Timestamp, span: Span) -> bool {
    now.instant() - last.instant() < span.nanos
}

impl CognitionDriver {
    /// Rounds of five minutes, thoughts at least ten minutes apart, idle after five.
    pub fn new() -> (r: CognitionDriver)
        ensures
            r.tick_interval.nanos == 300_000_000_000,
            r.cooldown.nanos == 600_000_000_000,
            r.idle_threshold.nanos == 300_000_000_000,
            r.last_cognition@ == Map::<i64, Timestamp>::empty(),
    {
        CognitionDriver::with_config(
            Span::from_secs(300),
            Span::from_secs(600),
            Span::from_secs(300),
        )
    }

    /// A driver with times of its own.
    pub fn with_config(tick_interval: Span, cooldown: Span, idle_threshold: Span) -> (r:
        CognitionDriver)
        ensures
            r.tick_interval == tick_interval,
            r.cooldown == cooldown,
            r.idle_threshold == idle_threshold,
            r.last_cognition@ == Map::<i64, Timestamp>::empty(),
    {
        CognitionDriver { tick_interval, cooldown, idle_threshold, last_cognition: HashMap::new() }
    }

    /// Whether a character had a thought too recently.
    pub open spec fn cooling(self, character_id: i64, now: Timestamp) -> bool {
        self.last_cognition@.contains_key(character_id) && too_soon(
            now,
            self.last_cognition@[character_id],
            self.cooldown,
        )
    }

    /// Tells whether a character had a thought too recently.
    pub fn is_in_cooldown(&self, character_id: i64, now: Timestamp) -> (r: Result<
        bool,
        RuntimeError,
    >)
        ensures
            if self.last_cognition@.contains_key(character_id) && !self.cooldown.comparable() {
                r matches Err(RuntimeError::Internal(s)) && s@ == "冷却时长无效: "@ + out_of_range()
            } else {
                r == Ok::<bool, RuntimeError>(self.cooling(character_id, now))
            },
    {
        broadcast use vstd::std_specs::hash::group_hash_axioms;

        match self.last_cognition.get(&character_id) {
            Some(last) => {
                if !self.cooldown.is_comparable() {
                    return Err(
                        RuntimeError::Internal(
                            concat(
                                "冷却时长无效: ",
                                "Source duration value is out of range for the target type",
                            ),
                        ),
                    );
                }
                Ok(now.since(*last) < self.cooldown.nanos as i128)
            },
            None => Ok(false),
        }
    }

    /// Whether a conversation is idle; one without messages always is.
    pub open spec fn idle(self, latest: Option<Timestamp>, now: Timestamp) -> bool {
        match latest {
            Some(t) => now.instant() - t.instant() > self.idle_threshold.nanos,
            None => true,
        }
    }

    /// Tells whether a conversation is idle, from the time of its last message.
    pub fn is_idle(&self, latest: Result<Option<Timestamp>, RepositoryError>, now: Timestamp) -> (r:
        Result<bool, RuntimeError>)
        ensures
            match latest {
                Err(e) => r == Err::<bool, RuntimeError>(RuntimeError::Repository(e)),
                Ok(t) => if t is Some && !self.idle_threshold.comparable() {
                    r matches Err(RuntimeError::Internal(s)) && s@ == "idle 阈值无效: "@
                        + out_of_range()
                } else {
                    r == Ok::<bool, RuntimeError>(self.idle(t, now))
                },
            },
    {
        match latest {
            Err(e) => Err(RuntimeError::Repository(e)),
            Ok(None) => Ok(true),
            Ok(Some(t)) => {
                if !self.idle_threshold.is_comparable() {
                    return Err(
                        RuntimeError::Internal(
                            concat(
                                "idle 阈值无效: ",
                                "Source duration value is out of range for the target type",
                            ),
                        ),
                    );
                }
                Ok(now.since(t) > self.idle_threshold.nanos as i128)
            },
        }
    }

    /// Decides whether a character thinks now: it had no thought too recently, and
    /// the conversation is idle. The time of the last message is looked at only
    /// where the first holds.
    pub fn process_binding(
        &self,
        character_id: i64,
        latest: Result<Option<Timestamp>, RepositoryError>,
        now: Timestamp,
    ) -> (r: Result<bool, RuntimeError>)
        ensures
            if self.last_cognition@.contains_key(character_id) && !self.cooldown.comparable() {
                r matches Err(RuntimeError::Internal(s)) && s@ == "冷却时长无效: "@ + out_of_range()
            } else if self.cooling(character_id, now) {
                r == Ok::<bool, RuntimeError>(false)
            } else {
                match latest {
                    Err(e) => r == Err::<bool, RuntimeError>(RuntimeError::Repository(e)),
                    Ok(t) => if t is Some && !self.idle_threshold.comparable() {
                        r matches Err(RuntimeError::Internal(s)) && s@ == "idle 阈值无效: "@
                            + out_of_range()
                    } else {
                        r == Ok::<bool, RuntimeError>(self.idle(t, now))
                    },
                }
            },
    {
        match self.is_in_cooldown(character_id, now) {
            Err(e) => Err(e),
            Ok(cooling) => {
                if cooling {
                    return Ok(false);
                }
                self.is_idle(latest, now)
            },
        }
    }

    /// Notes that a character had a thought.
    pub fn note_cognition(&mut self, character_id: i64, now: Timestamp)
        ensures
            final(self).last_cognition@ == old(self).last_cognition@.insert(character_id, now),
            final(self).tick_interval == old(self).tick_interval,
            final(self).cooldown == old(self).cooldown,
            final(self).idle_threshold == old(self).idle_threshold,
    {
        broadcast use vstd::std_specs::hash::group_hash_axioms;

        self.last_cognition.insert(character_id, now);
    }
}

/// A message as a line of a dialogue.
pub open spec fn dialogue_line(m: Message) -> Seq<char> {
    let sender = if m.sender_id == 0 {
        "用户"@
    } else {
        "角色"@ + integer_text(m.sender_id as int)
    };
    let text = match m.content {
        MessageContent::Text(t) => t@,
        _ => "[非文本消息]"@,
    };
    sender + ": "@ + text
}

/// Messages as the lines of a dialogue.
pub open spec fn dialogue(messages: Seq<Message>) -> Seq<Seq<char>> {
    messages.map_values(|m: Message| dialogue_line(m))
}

/// What a character is asked to think about.
pub open spec fn cognition_prompt(name: Seq<char>, messages: Seq<Message>) -> Seq<char> {
    "基于以下最近的对话，角色\""@ + name
        + "\"有什么新的认知或理解？请简洁回答（不超过 200 字），只输出认知内容，不需要复述对话。\n\n=== 最近对话 ===\n"@
        + joined(dialogue(messages), "\n"@) + "\n\n=== 认知 ==="@
}

/// Writes what a character is asked to think about.
pub fn build_cognition_prompt(character: &Character, recent_messages: &Vec<Message>) -> (r: String)
    ensures
        r@ == cognition_prompt(character.definition.name@, recent_messages@),
{
    let mut lines: Vec<String> = Vec::new();
    let mut i: usize = 0;
    while i < recent_messages.len()
        invariant
            i <= recent_messages@.len(),
            lines@.len() == i,
            forall|j: int| 0 <= j < i ==> (#[trigger] lines@[j])@ == dialogue_line(recent_messages@[j]),
        decreases recent_messages@.len() - i,
    {
        let m = &recent_messages[i];
        let mut line = if m.sender_id == 0 {
            owned("用户")
        } else {
            concat("角色", i64_text(m.sender_id).as_str())
        };
        line.append(": ");
        match &m.content {
            MessageContent::Text(t) => {
                line.append(t.as_str());
            },
            _ => {
                line.append("[非文本消息]");
            },
        }
        lines.push(line);
        i += 1;
    }
    assert(texts(lines@) =~= dialogue(recent_messages@));
    let body = join(&lines, "\n");
    let mut r = concat("基于以下最近的对话，角色\"", character.definition.name.as_str());
    r.append(
        "\"有什么新的认知或理解？请简洁回答（不超过 200 字），只输出认知内容，不需要复述对话。\n\n=== 最近对话 ===\n",
    );
    r.append(body.as_str());
    r.append("\n\n=== 认知 ===");
    r
}

/// The request with which a character is asked to think, as background work.
pub open spec fn asks_to_think(
    r: LlmRequest,
    binding: CharacterBinding,
    character: Character,
    messages: Seq<Message>,
) -> bool {
    &&& text_of(r.system) == text_of(character.definition.system_prompt)
    &&& r.messages@.len() == 1
    &&& r.messages@[0].role == LlmRole::User
    &&& r.messages@[0].content@ == cognition_prompt(character.definition.name@, messages)
    &&& r.model is None
    &&& r.temperature == Some(Scalar { bits: SEVEN_TENTHS })
    &&& r.max_tokens == Some(256u32)
    &&& r.priority == 3
    &&& r.origin == Some(
        RequestOrigin {
            character_id: binding.character_id,
            conversation_id: binding.conversation_id,
            participant_id: None,
        },
    )
}

/// Begins a thought: from the character and the recent messages to the request.
pub fn cognize(
    binding: &CharacterBinding,
    character: Result<Option<Character>, RepositoryError>,
    recent_messages: Result<Vec<Message>, RepositoryError>,
) -> (r: Result<LlmRequest, RuntimeError>)
    ensures
        match (character, recent_messages) {
            (Err(e), _) => r == Err::<LlmRequest, RuntimeError>(RuntimeError::Repository(e)),
            (Ok(None), _) => r matches Err(RuntimeError::Internal(s)) && s@ == "角色 "@
                + integer_text(binding.character_id as int) + " 未找到，无法执行认知"@,
            (Ok(Some(_)), Err(e)) => r == Err::<LlmRequest, RuntimeError>(
                RuntimeError::Repository(e),
            ),
            (Ok(Some(c)), Ok(messages)) => r matches Ok(request) && asks_to_think(
                request,
                *binding,
                c,
                messages@,
            ),
        },
{
    let character = match character {
        Err(e) => {
            return Err(RuntimeError::Repository(e));
        },
        Ok(None) => {
            let head = concat("角色 ", i64_text(binding.character_id).as_str());
            return Err(RuntimeError::Internal(concat(head.as_str(), " 未找到，无法执行认知")));
        },
        Ok(Some(c)) => c,
    };
    let recent = match recent_messages {
        Err(e) => {
            return Err(RuntimeError::Repository(e));
        },
        Ok(m) => m,
    };
    let mut messages: Vec<LlmMessage> = Vec::new();
    messages.push(
        LlmMessage { role: LlmRole::User, content: build_cognition_prompt(&character, &recent) },
    );
    Ok(
        LlmRequest {
            system: copy_text(&character.definition.system_prompt),
            messages,
            model: None,
            temperature: Some(Scalar { bits: SEVEN_TENTHS }),
            max_tokens: Some(256),
            priority: 3,
            origin: Some(
                RequestOrigin {
                    character_id: binding.character_id,
                    conversation_id: binding.conversation_id,
                    participant_id: None,
                },
            ),
        },
    )
}

/// Takes the model's answer: the thought without white space around it; nothing
/// where it is blank.
pub fn digest_response(response: Result<String, RuntimeError>) -> (r: Result<
    Option<String>,
    RuntimeError,
>)
    ensures
        match response {
            Err(e) => r matches Err(RuntimeError::Llm(s)) && s@ == e.text(),
            Ok(content) => if trimmed(content@).len() == 0 {
                r == Ok::<Option<String>, RuntimeError>(None)
            } else {
                r matches Ok(Some(thought)) && thought@ == trimmed(content@)
            },
        },
{
    match response {
        Err(e) => Err(RuntimeError::Llm(e.message())),
        Ok(content) => {
            let thought = trim(content.as_str());
            if thought.as_str().is_empty() {
                Ok(None)
            } else {
                Ok(Some(thought))
            }
        },
    }
}

/// A thought to be stored, with the vector by which it is found again.
#[derive(Debug)]
pub struct SemanticMemory<E> {
    pub character_id: i64,
    pub conversation_id: Option<i64>,
    pub memory_type: &'static str,
    pub content: String,
    pub embedding: E,
    pub importance: Scalar,
    pub metadata: &'static str,
}

/// Ends a thought: from its vector to the memory to be stored.
pub fn settle_thought<E>(
    binding: &CharacterBinding,
    thought: String,
    embeddings: Result<Vec<E>, RuntimeError>,
) -> (r: Result<SemanticMemory<E>, RuntimeError>)
    ensures
        match embeddings {
            Err(e) => r matches Err(RuntimeError::Llm(s)) && s@ == e.text(),
            Ok(list) => if list@.len() == 0 {
                r matches Err(RuntimeError::Internal(s)) && s@ == "Embedding 返回为空"@
            } else {
                r matches Ok(m) && ({
                    &&& m.character_id == binding.character_id
                    &&& m.conversation_id == Some(binding.conversation_id)
                    &&& m.memory_type@ == "semantic"@
                    &&& m.content == thought
                    &&& m.embedding == list@[0]
                    &&& m.importance == Scalar { bits: SEVEN_TENTHS }
                    &&& m.metadata@ == "{}"@
                })
            },
        },
{
    let mut list = match embeddings {
        Err(e) => {
            return Err(RuntimeError::Llm(e.message()));
        },
        Ok(list) => list,
    };
    if list.len() == 0 {
        return Err(RuntimeError::Internal(owned("Embedding 返回为空")));
    }
    let embedding = list.swap_remove(0);
    Ok(
        SemanticMemory {
            character_id: binding.character_id,
            conversation_id: Some(binding.conversation_id),
            memory_type: "semantic",
            content: thought,
            embedding,
            importance: Scalar { bits: SEVEN_TENTHS },
            metadata: "{}",
        },
    )
}

/// After a thought a character has none until the cooldown is over, and other
/// characters are not held up by it.
pub proof fn thoughts_keep_their_distance(
    before: CognitionDriver,
    after: CognitionDriver,
    character_id: i64,
    other: i64,
    thought_at: Timestamp,
    now: Timestamp,
)
    requires
        after.last_cognition@ == before.last_cognition@.insert(character_id, thought_at),
        after.cooldown == before.cooldown,
    ensures
        after.cooling(character_id, now) <==> now.instant() - thought_at.instant()
            < after.cooldown.nanos,
        other != character_id ==> after.cooling(other, now) == before.cooling(other, now),
{
}

/// A character thinks in a conversation exactly where it had no thought within the
/// cooldown and the last message lies further back than the idle threshold, or
/// there is none.
pub proof fn thoughts_come_in_idle_hours(
    driver: CognitionDriver,
    character_id: i64,
    latest: Option<Timestamp>,
    now: Timestamp,
    r: Result<bool, RuntimeError>,
)
    requires
        call_ensures(
            CognitionDriver::process_binding,
            (&driver, character_id, Ok::<Option<Timestamp>, RepositoryError>(latest), now),
            r,
        ),
        driver.cooldown.nanos <= 9_223_372_036_854_775_807_000_000,
        driver.idle_threshold.nanos <= 9_223_372_036_854_775_807_000_000,
    ensures
        r == Ok::<bool, RuntimeError>(
            {
                let rested = !driver.last_cognition@.contains_key(character_id) || (now.secs
                    * 1_000_000_000 + now.nanos) - (driver.last_cognition@[character_id].secs
                    * 1_000_000_000 + driver.last_cognition@[character_id].nanos)
                    >= driver.cooldown.nanos;
                let quiet = latest is None || (now.secs * 1_000_000_000 + now.nanos) - (
                latest->0.secs * 1_000_000_000 + latest->0.nanos) > driver.idle_threshold.nanos;
                rested && quiet
            },
        ),
{
}

/// A span that no two points in time can lie apart is refused, and so is a message
/// time that could not be read, unless the character rests anyway.
pub proof fn what_cannot_be_compared_is_refused(
    driver: CognitionDriver,
    character_id: i64,
    latest: Result<Option<Timestamp>, RepositoryError>,
    now: Timestamp,
    r: Result<bool, RuntimeError>,
)
    requires
        call_ensures(
            CognitionDriver::process_binding,
            (&driver, character_id, latest, now),
            r,
        ),
    ensures
        driver.last_cognition@.contains_key(character_id) && driver.cooldown.nanos
            > 9_223_372_036_854_775_807_000_000 ==> r is Err,
        latest is Err && !driver.last_cognition@.contains_key(character_id) ==> r
            == Err::<bool, RuntimeError>(RuntimeError::Repository(latest->Err_0)),
{
}

/// Everything that was said stands in what a character is asked to think about, each
/// message as a line that says who spoke, and so does the character's name.
pub proof fn prompts_hold_the_dialogue(
    character: Character,
    messages: Vec<Message>,
    r: String,
    i: int,
)
    requires
        call_ensures(build_cognition_prompt, (&character, &messages), r),
        0 <= i < messages@.len(),
    ensures
        has_part(r@, "角色\""@ + character.definition.name@ + "\""@),
        messages@[i].sender_id == 0 && messages@[i].content is Text ==> has_part(
            r@,
            "用户: "@ + messages@[i].content->Text_0@,
        ),
        messages@[i].sender_id == 0 && !(messages@[i].content is Text) ==> has_part(
            r@,
            "用户: [非文本消息]"@,
        ),
        messages@[i].sender_id != 0 && messages@[i].content is Text ==> has_part(
            r@,
            "角色"@ + integer_text(messages@[i].sender_id as int) + ": "@
                + messages@[i].content->Text_0@,
        ),
        messages@[i].sender_id != 0 && !(messages@[i].content is Text) ==> has_part(
            r@,
            "角色"@ + integer_text(messages@[i].sender_id as int) + ": [非文本消息]"@,
        ),
{
    let m = messages@[i];
    let lines = dialogue(messages@);
    let line = lines[i];
    assert(line == dialogue_line(m));
    let name = character.definition.name@;
    let open = "基于以下最近的对话，角色\""@;
    let ask = "\"有什么新的认知或理解？请简洁回答（不超过 200 字），只输出认知内容，不需要复述对话。\n\n=== 最近对话 ===\n"@;
    let close = "\n\n=== 认知 ==="@;
    let body = joined(lines, "\n"@);
    joining_keeps_every_part(lines, "\n"@, i);
    longer_texts_keep_parts(open + name + ask, body, close, line);
    reveal_strlit("用户");
    reveal_strlit(": ");
    reveal_strlit("[非文本消息]");
    reveal_strlit("用户: ");
    reveal_strlit("用户: [非文本消息]");
    reveal_strlit(": [非文本消息]");
    assert("用户"@ + ": "@ =~= "用户: "@);
    assert("用户"@ + ": "@ + "[非文本消息]"@ =~= "用户: [非文本消息]"@);
    assert(": "@ + "[非文本消息]"@ =~= ": [非文本消息]"@);
    let who = "角色"@ + integer_text(m.sender_id as int);
    assert(who + ": "@ + "[非文本消息]"@ =~= who + ": [非文本消息]"@);
    reveal_strlit("基于以下最近的对话，角色\"");
    reveal_strlit("角色\"");
    reveal_strlit("\"");
    reveal_strlit(
        "\"有什么新的认知或理解？请简洁回答（不超过 200 字），只输出认知内容，不需要复述对话。\n\n=== 最近对话 ===\n",
    );
    let n = open.len() - 3;
    let part = "角色\""@ + name + "\""@;
    let rest = ask.skip(1) + body + close;
    assert(r@ =~= open.take(n) + part + rest);
    the_middle_is_a_part(open.take(n), part, rest);
}

/// A thought is asked for as background work, briefly, at a temperature of 0.7, for
/// the character in the conversation, under the character's own system prompt.
pub proof fn thoughts_are_background_work(
    binding: CharacterBinding,
    character: Character,
    messages: Vec<Message>,
    r: Result<LlmRequest, RuntimeError>,
    prompt: String,
)
    requires
        call_ensures(
            cognize,
            (
                &binding,
                Ok::<Option<Character>, RepositoryError>(Some(character)),
                Ok::<Vec<Message>, RepositoryError>(messages),
            ),
            r,
        ),
        call_ensures(build_cognition_prompt, (&character, &messages), prompt),
    ensures
        r matches Ok(q) && {
            &&& q.priority == 3
            &&& q.max_tokens == Some(256u32)
            &&& q.temperature == Some(Scalar { bits: 0x3FE6_6666_6666_6666 })
            &&& q.model is None
            &&& q.messages@.len() == 1
            &&& q.messages@[0].role == LlmRole::User
            &&& q.messages@[0].content@ == prompt@
            &&& text_of(q.system) == text_of(character.definition.system_prompt)
            &&& q.origin matches Some(o) && o.character_id == binding.character_id
                && o.conversation_id == binding.conversation_id && o.participant_id is None
        },
{
}

/// A thought is stored as a fact of the character in the conversation, without the
/// white space around it, with the first of its vectors and an importance of 0.7. A
/// blank one is not stored.
pub proof fn thoughts_become_memories<E>(
    binding: CharacterBinding,
    answer: String,
    digested: Result<Option<String>, RuntimeError>,
    vectors: Vec<E>,
    r: Result<SemanticMemory<E>, RuntimeError>,
)
    requires
        call_ensures(digest_response, (Ok::<String, RuntimeError>(answer),), digested),
        digested is Ok && digested->Ok_0 is Some ==> call_ensures(
            settle_thought::<E>,
            (&binding, digested->Ok_0->0, Ok::<Vec<E>, RuntimeError>(vectors)),
            r,
        ),
    ensures
        digested is Ok,
        digested->Ok_0 is Some <==> trimmed(answer@).len() > 0,
        digested->Ok_0 is Some ==> {
            &&& r is Ok <==> vectors@.len() > 0
            &&& r matches Ok(m) ==> {
                &&& m.content@ == trimmed(answer@)
                &&& m.character_id == binding.character_id
                &&& m.conversation_id == Some(binding.conversation_id)
                &&& m.memory_type@ == "semantic"@
                &&& m.embedding == vectors@[0]
                &&& m.importance.bits == 0x3FE6_6666_6666_6666
            }
        },
{
}

/// What was said stands in its order, a line each.
pub proof fn dialogues_keep_the_order(
    character: Character,
    messages: Vec<Message>,
    r: String,
    i: int,
)
    requires
        call_ensures(build_cognition_prompt, (&character, &messages), r),
        0 <= i,
        i + 1 < messages@.len(),
        messages@[i].sender_id == 0 && messages@[i].content is Text,
        messages@[i + 1].sender_id != 0 && messages@[i + 1].content is Text,
    ensures
        has_part(
            r@,
            "用户"@ + ": "@ + messages@[i].content->Text_0@ + "\n"@ + ("角色"@ + integer_text(
                messages@[i + 1].sender_id as int,
            ) + ": "@ + messages@[i + 1].content->Text_0@),
        ),
{
    let lines = dialogue(messages@);
    assert(lines[i] == dialogue_line(messages@[i]));
    assert(lines[i + 1] == dialogue_line(messages@[i + 1]));
    let open = "基于以下最近的对话，角色\""@ + character.definition.name@
        + "\"有什么新的认知或理解？请简洁回答（不超过 200 字），只输出认知内容，不需要复述对话。\n\n=== 最近对话 ===\n"@;
    crate::text::joining_keeps_neighbours(lines, "\n"@, i);
    longer_texts_keep_parts(
        open,
        joined(lines, "\n"@),
        "\n\n=== 认知 ==="@,
        lines[i] + "\n"@ + lines[i + 1],
    );
}

/// A driver makes its rounds every five minutes, keeps thoughts ten minutes apart and
/// takes five minutes of silence for idleness, unless it is told otherwise; it starts
/// without a thought, and characters think about twenty messages.
pub proof fn drivers_start_rested(
    usual: CognitionDriver,
    tick: Span,
    cooldown: Span,
    idle: Span,
    told: CognitionDriver,
)
    requires
        call_ensures(CognitionDriver::new, (), usual),
        call_ensures(CognitionDriver::with_config, (tick, cooldown, idle), told),
    ensures
        usual.tick_interval.nanos == 300 * 1_000_000_000,
        usual.cooldown.nanos == 600 * 1_000_000_000,
        usual.idle_threshold.nanos == 300 * 1_000_000_000,
        usual.last_cognition@.dom().is_empty() && told.last_cognition@.dom().is_empty(),
        told.tick_interval == tick && told.cooldown == cooldown && told.idle_threshold == idle,
        RECENT_MESSAGES == 20,
{
}

/// A thought is noted for the character that had it, at the time it had it, and for no
/// other.
pub proof fn thoughts_are_noted(id: i64, other: i64, now: Timestamp)
    requires
        other != id,
    ensures
        forall|d: &mut CognitionDriver|
            #[trigger] call_ensures(CognitionDriver::note_cognition, (d, id, now), ()) ==> {
                &&& final(d).last_cognition@.contains_key(id) && final(d).last_cognition@[id] == now
                &&& final(d).last_cognition@.contains_key(other)
                    <==> d.last_cognition@.contains_key(other)
                &&& d.last_cognition@.contains_key(other) ==> final(d).last_cognition@[other]
                    == d.last_cognition@[other]
                &&& final(d).cooldown == d.cooldown && final(d).idle_threshold == d.idle_threshold
                    && final(d).tick_interval == d.tick_interval
            },
{
}

/// A thought that cannot be begun, had or kept is a failure: without the character or
/// its messages, where the model fails, and without a vector.
pub proof fn thoughts_can_fail<E>(
    binding: CharacterBinding,
    messages: Result<Vec<Message>, RepositoryError>,
    e: RuntimeError,
    unknown: Result<LlmRequest, RuntimeError>,
    unanswered: Result<Option<String>, RuntimeError>,
    thought: String,
    lost: Result<SemanticMemory<E>, RuntimeError>,
)
    requires
        call_ensures(
            cognize,
            (&binding, Ok::<Option<Character>, RepositoryError>(None), messages),
            unknown,
        ),
        call_ensures(digest_response, (Err::<String, RuntimeError>(e),), unanswered),
        call_ensures(
            settle_thought::<E>,
            (&binding, thought, Err::<Vec<E>, RuntimeError>(e)),
            lost,
        ),
    ensures
        unknown is Err,
        unanswered is Err && unanswered->Err_0 is Llm && unanswered->Err_0->Llm_0@ == e.text(),
        lost is Err && lost->Err_0 is Llm && lost->Err_0->Llm_0@ == e.text(),
{
}

} // verus!
