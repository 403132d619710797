//! The reply pipeline: what happens to a message after it was received.
//!
//! A [`ReplyProcessor`] walks through the bindings of the conversation. At every
//! moment it asks for one thing ([`ReplyProcessor::request`]) and goes on with
//! the answer ([`ReplyProcessor::advance`]). At the end stand the replies to be
//! sent, in an order of chance.

use vstd::prelude::*;

use crate::domain::behavior::{BehaviorAction, BehaviorDecision};
use crate::domain::character::CharacterBinding;
use crate::domain::conversation::{Participant, ParticipantRole};
use crate::domain::event::{
    BehaviorDecidedEvent, MessageReceivedEvent, ResponseGeneratedEvent, ResponseSource,
};
use crate::error::{RepositoryError, RuntimeError};
use crate::text::{
    concat, first_chars, i64_text, integer_text, owned, take_chars, trim, trimmed,
};
use crate::time::Timestamp;
use rand::seq::SliceRandom;

verus! {

/// The longest delay before a reply, in milliseconds.
pub const MAX_REPLY_DELAY_MS: u64 = 3_000;

/// Cuts a delay down to the longest one.
pub fn capped_delay_ms(delay_ms: u64) -> (r: u64)
    ensures
        r == if delay_ms < MAX_REPLY_DELAY_MS {
            delay_ms
        } else {
            MAX_REPLY_DELAY_MS
        },
{
    if delay_ms < MAX_REPLY_DELAY_MS {
        delay_ms
    } else {
        MAX_REPLY_DELAY_MS
    }
}

/// A reply that waits to be sent.
#[derive(Debug)]
pub struct PendingReply {
    /// The binding that it comes from.
    pub binding_id: i64,
    pub content: String,
    pub conversation_id: i64,
    /// How long to wait before it is sent, in milliseconds.
    pub delay_ms: u64,
}

/// What the pipeline waits for.
#[derive(Debug, Clone, Copy, PartialEq, Eq, Structural)]
pub enum ReplyStage {
    /// Who takes part in the conversation.
    Identify,
    /// The character.
    Load,
    /// That the message was searched for memories.
    Remember,
    /// That the interaction was recorded.
    Relate,
    /// That the emotion was updated.
    Feel,
    /// The decision.
    Decide,
    /// The text of the reply, to be sent after a delay in milliseconds.
    Generate { delay_ms: u64 },
    /// Nothing: all bindings are through.
    Deliver,
}

/// What the pipeline asks for.
#[derive(Debug, Clone, Copy, PartialEq, Eq, Structural)]
pub enum ReplyRequest {
    /// The participants of a conversation.
    FindParticipants { conversation_id: i64 },
    /// The character, loaded.
    LoadCharacter { character_id: i64 },
    /// Memories out of the message, stored.
    ExtractMemory { character_id: i64 },
    /// One more interaction with the sender, recorded.
    RecordInteraction { character_id: i64 },
    /// The effect of the message on the emotion, stored.
    ApplyEmotion { character_id: i64 },
    /// The decision on the message.
    Decide { character_id: i64 },
    /// The text of the reply.
    Generate { character_id: i64 },
    /// The pending replies, sent.
    Deliver,
}

/// An answer to what the pipeline asked for.
#[derive(Debug)]
pub enum ReplyAnswer {
    /// The participants of the conversation, or the failure to find them.
    Participants(Result<Vec<Participant>, RepositoryError>),
    /// Whether the character could be loaded.
    Loaded(bool),
    /// It was tried; whether it succeeded does not matter.
    Tried,
    /// The decision; nothing where none could be taken.
    Decided(Option<BehaviorDecision>),
    /// The text of the reply; nothing where none could be made.
    Generated(Option<String>),
}

impl ReplyAnswer {
    /// The answer is one to what is asked for in a stage.
    pub open spec fn fits(self, stage: ReplyStage) -> bool {
        match stage {
            ReplyStage::Identify => self is Participants,
            ReplyStage::Load => self is Loaded,
            ReplyStage::Remember => self is Tried,
            ReplyStage::Relate => self is Tried,
            ReplyStage::Feel => self is Tried,
            ReplyStage::Decide => self is Decided,
            ReplyStage::Generate { .. } => self is Generated,
            ReplyStage::Deliver => false,
        }
    }
}

/// A message on its way through the pipeline.
#[derive(Debug)]
pub struct ReplyProcessor {
    pub event: MessageReceivedEvent,
    pub bindings: Vec<CharacterBinding>,
    /// The binding at work.
    pub index: usize,
    pub stage: ReplyStage,
    pub pending: Vec<PendingReply>,
}

/// The first index at or after `from` of a participant that is a character; the
/// length where there is none.
pub open spec fn character_index(participants: Seq<Participant>, from: int) -> int
    decreases participants.len() - from,
{
    if from < 0 || from >= participants.len() {
        participants.len() as int
    } else if participants[from].role == ParticipantRole::Character {
        from
    } else {
        character_index(participants, from + 1)
    }
}

/// The participant that the bot itself is.
pub open spec fn own_participant(participants: Seq<Participant>) -> Option<i64> {
    let i = character_index(participants, 0);
    if i < participants.len() {
        Some(participants[i].id)
    } else {
        None
    }
}

/// Finds the participant that the bot itself is in the conversation of a binding.
pub fn get_my_participant_id(
    binding: &CharacterBinding,
    participants: Result<Vec<Participant>, RepositoryError>,
) -> (r: Result<i64, RuntimeError>)
    ensures
        match participants {
            Err(e) => r == Err::<i64, RuntimeError>(RuntimeError::Repository(e)),
            Ok(list) => match own_participant(list@) {
                Some(id) => r == Ok::<i64, RuntimeError>(id),
                None => r matches Err(RuntimeError::Repository(RepositoryError::NotFound(s))) && s@
                    == "未找到会话 "@ + integer_text(binding.conversation_id as int)
                    + " 中的 character 参与者"@,
            },
        },
{
    let list = match participants {
        Ok(list) => list,
        Err(e) => {
            return Err(RuntimeError::Repository(e));
        },
    };
    let mut i: usize = 0;
    while i < list.len()
        invariant
            i <= list@.len(),
            participants == Ok::<Vec<Participant>, RepositoryError>(list),
            character_index(list@, i as int) == character_index(list@, 0),
        decreases list@.len() - i,
    {
        if list[i].role == ParticipantRole::Character {
            return Ok(list[i].id);
        }
        i += 1;
    }
    let head = concat("未找到会话 ", i64_text(binding.conversation_id).as_str());
    Err(
        RuntimeError::Repository(
            RepositoryError::NotFound(concat(head.as_str(), " 中的 character 参与者")),
        ),
    )
}

/// Shuffles with `rand`'s `SliceRandom::shuffle` and the thread's generator.
/// Claimed: the same replies are there afterwards, in some order.
#[verifier::external_body]
fn shuffle(replies: &mut Vec<PendingReply>)
    ensures
        final(replies)@.to_multiset() == old(replies)@.to_multiset(),
{
    replies.shuffle(&mut rand::thread_rng());
}

impl ReplyProcessor {
    /// The stage in which work on a binding begins: a binding that does not answer
    /// for others first asks who is who.
    pub open spec fn entry(bindings: Seq<CharacterBinding>, index: int) -> ReplyStage {
        if index >= bindings.len() {
            ReplyStage::Deliver
        } else if bindings[index].cross_reply_enabled {
            ReplyStage::Load
        } else {
            ReplyStage::Identify
        }
    }

    /// The walk is at a binding, or past the last one; every pending reply goes to
    /// the conversation of the message within the longest delay and comes from a
    /// binding that is through, of which each left one at most.
    pub open spec fn wf(self) -> bool {
        &&& self.index <= self.bindings@.len()
        &&& self.stage == ReplyStage::Deliver <==> self.index == self.bindings@.len()
        &&& self.pending@.len() <= self.index
        &&& forall|i: int| #![trigger self.pending@[i]]
            0 <= i < self.pending@.len() ==> self.pending@[i].delay_ms <= MAX_REPLY_DELAY_MS
                && self.pending@[i].conversation_id == self.event.conversation_id && self.answered(
                self.pending@[i].binding_id,
            )
    }

    /// A binding of this number is through.
    pub open spec fn answered(self, binding_id: i64) -> bool {
        exists|j: int| 0 <= j < self.index && #[trigger] self.bindings@[j].id == binding_id
    }

    /// Another stage for the same binding.
    pub open spec fn at(self, stage: ReplyStage) -> ReplyProcessor {
        ReplyProcessor { stage, ..self }
    }

    /// The next binding.
    pub open spec fn past(self) -> ReplyProcessor {
        ReplyProcessor {
            index: (self.index + 1) as usize,
            stage: ReplyProcessor::entry(self.bindings@, self.index + 1),
            ..self
        }
    }

    /// The walk after an answer that leaves no reply behind.
    pub open spec fn after(self, answer: ReplyAnswer) -> ReplyProcessor {
        match (self.stage, answer) {
            (ReplyStage::Identify, ReplyAnswer::Participants(Ok(list))) => if own_participant(
                list@,
            ) == Some(self.event.sender_id) {
                self.at(ReplyStage::Load)
            } else {
                self.past()
            },
            (ReplyStage::Load, ReplyAnswer::Loaded(true)) => self.at(ReplyStage::Remember),
            (ReplyStage::Remember, ReplyAnswer::Tried) => self.at(ReplyStage::Relate),
            (ReplyStage::Relate, ReplyAnswer::Tried) => self.at(ReplyStage::Feel),
            (ReplyStage::Feel, ReplyAnswer::Tried) => self.at(ReplyStage::Decide),
            (ReplyStage::Decide, ReplyAnswer::Decided(Some(d))) => if d.action
                == BehaviorAction::Reply {
                self.at(ReplyStage::Generate { delay_ms: d.delay_ms })
            } else {
                self.past()
            },
            _ => self.past(),
        }
    }

    /// What is asked for.
    pub open spec fn asked(self) -> ReplyRequest {
        if self.stage == ReplyStage::Deliver {
            ReplyRequest::Deliver
        } else {
            let binding = self.bindings@[self.index as int];
            let character_id = binding.character_id;
            match self.stage {
                ReplyStage::Identify => ReplyRequest::FindParticipants {
                    conversation_id: binding.conversation_id,
                },
                ReplyStage::Load => ReplyRequest::LoadCharacter { character_id },
                ReplyStage::Remember => ReplyRequest::ExtractMemory { character_id },
                ReplyStage::Relate => ReplyRequest::RecordInteraction { character_id },
                ReplyStage::Feel => ReplyRequest::ApplyEmotion { character_id },
                ReplyStage::Decide => ReplyRequest::Decide { character_id },
                ReplyStage::Generate { .. } => ReplyRequest::Generate { character_id },
                ReplyStage::Deliver => ReplyRequest::Deliver,
            }
        }
    }

    fn entry_stage(bindings: &Vec<CharacterBinding>, index: usize) -> (r: ReplyStage)
        ensures
            r == ReplyProcessor::entry(bindings@, index as int),
    {
        if index >= bindings.len() {
            ReplyStage::Deliver
        } else if bindings[index].cross_reply_enabled {
            ReplyStage::Load
        } else {
            ReplyStage::Identify
        }
    }

    /// Takes a message into the pipeline; `bindings` are those of its conversation.
    pub fn process(
        event: MessageReceivedEvent,
        bindings: Result<Vec<CharacterBinding>, RuntimeError>,
    ) -> (r: Result<ReplyProcessor, RuntimeError>)
        ensures
            match bindings {
                Err(e) => r == Err::<ReplyProcessor, RuntimeError>(e),
                Ok(list) => r matches Ok(run) && ({
                    &&& run.wf()
                    &&& run.event == event
                    &&& run.bindings == list
                    &&& run.index == 0
                    &&& run.stage == ReplyProcessor::entry(list@, 0)
                    &&& run.pending@.len() == 0
                }),
            },
    {
        match bindings {
            Err(e) => Err(e),
            Ok(list) => {
                let stage = ReplyProcessor::entry_stage(&list, 0);
                Ok(ReplyProcessor { event, bindings: list, index: 0, stage, pending: Vec::new() })
            },
        }
    }

    /// What is asked for.
    pub fn request(&self) -> (r: ReplyRequest)
        requires
            self.wf(),
        ensures
            r == self.asked(),
    {
        if self.index >= self.bindings.len() {
            return ReplyRequest::Deliver;
        }
        let binding = &self.bindings[self.index];
        let character_id: i64 = binding.character_id;
        match self.stage {
            ReplyStage::Identify => ReplyRequest::FindParticipants {
                conversation_id: binding.conversation_id,
            },
            ReplyStage::Load => ReplyRequest::LoadCharacter { character_id },
            ReplyStage::Remember => ReplyRequest::ExtractMemory { character_id },
            ReplyStage::Relate => ReplyRequest::RecordInteraction { character_id },
            ReplyStage::Feel => ReplyRequest::ApplyEmotion { character_id },
            ReplyStage::Decide => ReplyRequest::Decide { character_id },
            ReplyStage::Generate { .. } => ReplyRequest::Generate { character_id },
            ReplyStage::Deliver => ReplyRequest::Deliver,
        }
    }

    fn skip(self) -> (r: ReplyProcessor)
        requires
            self.wf(),
            self.index < self.bindings@.len(),
        ensures
            r == self.past(),
            r.index == self.index + 1,
            r.wf(),
    {
        assert(self.bindings.len() == self.bindings@.len());
        let index: usize = self.index + 1;
        let stage = ReplyProcessor::entry_stage(&self.bindings, index);
        let r = ReplyProcessor {
            event: self.event,
            bindings: self.bindings,
            index,
            stage,
            pending: self.pending,
        };
        assert forall|i: int| #![trigger r.pending@[i]] 0 <= i < r.pending@.len() implies r.answered(
            r.pending@[i].binding_id,
        ) by {
            assert(self.answered(self.pending@[i].binding_id));
        }
        r
    }

    fn enter(self, stage: ReplyStage) -> (r: ReplyProcessor)
        requires
            self.wf(),
            self.index < self.bindings@.len(),
            stage != ReplyStage::Deliver,
        ensures
            r == self.at(stage),
            r.wf(),
    {
        ReplyProcessor {
            event: self.event,
            bindings: self.bindings,
            index: self.index,
            stage,
            pending: self.pending,
        }
    }

    /// Goes on with an answer. A binding is dropped where it is not addressed, where
    /// its character cannot be loaded, where no decision or no reply comes, and
    /// where the decision is not to reply. Every decision is handed out to be made
    /// known.
    pub fn advance(self, answer: ReplyAnswer, now: Timestamp) -> (r: (
        ReplyProcessor,
        Option<BehaviorDecidedEvent>,
    ))
        requires
            self.wf(),
            answer.fits(self.stage),
        ensures
            r.0.wf(),
            match (self.stage, answer) {
                (ReplyStage::Generate { delay_ms }, ReplyAnswer::Generated(Some(content))) => {
                    &&& r.0 == (ReplyProcessor { pending: r.0.pending, ..self.past() })
                    &&& r.0.pending@ == self.pending@.push(
                        PendingReply {
                            binding_id: self.bindings@[self.index as int].id,
                            content,
                            conversation_id: self.event.conversation_id,
                            delay_ms: if delay_ms < MAX_REPLY_DELAY_MS {
                                delay_ms
                            } else {
                                MAX_REPLY_DELAY_MS
                            },
                        },
                    )
                },
                _ => r.0 == self.after(answer),
            },
            match answer {
                ReplyAnswer::Decided(Some(d)) => r.1 matches Some(e) && ({
                    &&& e.character_id == self.bindings@[self.index as int].character_id
                    &&& e.conversation_id == self.event.conversation_id
                    &&& e.action@ == d.action.label()
                    &&& e.reason@ == d.reason@
                    &&& e.timestamp == now
                }),
                _ => r.1 is None,
            },
    {
        match answer {
            ReplyAnswer::Participants(list) => {
                let mine = match get_my_participant_id(&self.bindings[self.index], list) {
                    Ok(id) => Some(id),
                    Err(_) => None,
                };
                match mine {
                    Some(id) => if id == self.event.sender_id {
                        (self.enter(ReplyStage::Load), None)
                    } else {
                        (self.skip(), None)
                    },
                    None => (self.skip(), None),
                }
            },
            ReplyAnswer::Loaded(ok) => if ok {
                (self.enter(ReplyStage::Remember), None)
            } else {
                (self.skip(), None)
            },
            ReplyAnswer::Tried => match self.stage {
                ReplyStage::Remember => (self.enter(ReplyStage::Relate), None),
                ReplyStage::Relate => (self.enter(ReplyStage::Feel), None),
                _ => (self.enter(ReplyStage::Decide), None),
            },
            ReplyAnswer::Decided(decision) => match decision {
                Some(d) => {
                    let known = BehaviorDecidedEvent {
                        character_id: self.bindings[self.index].character_id,
                        conversation_id: self.event.conversation_id,
                        action: owned(d.action.name()),
                        reason: d.reason.clone(),
                        timestamp: now,
                    };
                    if d.action == BehaviorAction::Reply {
                        (self.enter(ReplyStage::Generate { delay_ms: d.delay_ms }), Some(known))
                    } else {
                        (self.skip(), Some(known))
                    }
                },
                None => (self.skip(), None),
            },
            ReplyAnswer::Generated(text) => match text {
                Some(content) => {
                    let delay_ms: u64 = match self.stage {
                        ReplyStage::Generate { delay_ms } => delay_ms,
                        _ => 0,
                    };
                    let reply = PendingReply {
                        binding_id: self.bindings[self.index].id,
                        content,
                        conversation_id: self.event.conversation_id,
                        delay_ms: capped_delay_ms(delay_ms),
                    };
                    let mut run = self.skip();
                    let ghost passed = run;
                    run.pending.push(reply);
                    proof {
                        assert(run.bindings@[self.index as int].id == reply.binding_id);
                        assert(run.answered(reply.binding_id));
                        assert forall|i: int| #![trigger run.pending@[i]]
                            0 <= i < run.pending@.len() implies run.answered(
                            run.pending@[i].binding_id,
                        ) by {
                            if i < passed.pending@.len() {
                                assert(passed.answered(passed.pending@[i].binding_id));
                            }
                        }
                    }
                    (run, None)
                },
                None => (self.skip(), None),
            },
        }
    }

    /// The replies to be sent, one after the other, each after its delay. Their
    /// order is one of chance.
    pub fn deliveries(self) -> (r: Vec<PendingReply>)
        requires
            self.wf(),
            self.stage == ReplyStage::Deliver,
        ensures
            r@.to_multiset() == self.pending@.to_multiset(),
    {
        let mut replies = self.pending;
        shuffle(&mut replies);
        replies
    }
}

/// What the character says without a language model.
pub open spec fn plain_reply(message: Seq<char>) -> Seq<char> {
    let t = trimmed(message);
    if t.len() == 0 {
        "嗯？"@
    } else {
        "我听到了："@ + first_chars(t, 40)
    }
}

/// What the character says without a language model.
pub fn deterministic_reply(user_message: &str) -> (r: String)
    ensures
        r@ == plain_reply(user_message@),
{
    let t = trim(user_message);
    if t.as_str().is_empty() {
        owned("嗯？")
    } else {
        concat("我听到了：", take_chars(t.as_str(), 40).as_str())
    }
}

/// Makes the text of a reply, from what came of asking the language model
/// (nothing where there is none): its answer, or else what the character says
/// without it. The reply is handed out to be made known.
pub fn generate_reply(
    event: &MessageReceivedEvent,
    character_id: i64,
    model: Option<Result<Option<String>, RuntimeError>>,
    now: Timestamp,
) -> (r: Result<(String, ResponseGeneratedEvent), RuntimeError>)
    ensures
        match model {
            Some(Err(e)) => r == Err::<(String, ResponseGeneratedEvent), RuntimeError>(e),
            _ => r matches Ok((content, known)) && ({
                &&& known.character_id == character_id
                &&& known.conversation_id == event.conversation_id
                &&& known.content@ == content@
                &&& known.timestamp == now
                &&& match model {
                    Some(Ok(Some(text))) => content == text && known.source
                        == ResponseSource::Llm,
                    _ => content@ == plain_reply(event.content@) && known.source
                        == ResponseSource::Rule,
                }
            }),
        },
{
    let mut source = ResponseSource::Rule;
    let content = match model {
        Some(Err(e)) => {
            return Err(e);
        },
        Some(Ok(Some(text))) => {
            source = ResponseSource::Llm;
            text
        },
        _ => deterministic_reply(event.content.as_str()),
    };
    let known = ResponseGeneratedEvent {
        character_id,
        conversation_id: event.conversation_id,
        content: content.clone(),
        source,
        timestamp: now,
    };
    Ok((content, known))
}

// ---------------------------------------------------------------------------
// Laws
// ---------------------------------------------------------------------------

impl ReplyStage {
    /// How many stages a binding has been through when it reaches this one.
    pub open spec fn rank(self) -> int {
        match self {
            ReplyStage::Identify => 0,
            ReplyStage::Load => 1,
            ReplyStage::Remember => 2,
            ReplyStage::Relate => 3,
            ReplyStage::Feel => 4,
            ReplyStage::Decide => 5,
            ReplyStage::Generate { .. } => 6,
            ReplyStage::Deliver => 0,
        }
    }
}

impl ReplyProcessor {
    /// How many answers the walk can still take: seven for each binding.
    pub open spec fn answers_left(self) -> int {
        (self.bindings@.len() - self.index) * 7 - self.stage.rank()
    }

    /// The walk after an answer, but for the replies that are pending.
    pub open spec fn goes_on_to(self, answer: ReplyAnswer, next: ReplyProcessor) -> bool {
        match (self.stage, answer) {
            (ReplyStage::Generate { .. }, ReplyAnswer::Generated(Some(_))) => next == (
            ReplyProcessor { pending: next.pending, ..self.past() }),
            _ => next == self.after(answer),
        }
    }
}

/// Every answer brings the walk nearer to its end, whatever it says: a message is
/// through after seven answers for each binding at most.
pub proof fn the_walk_ends(run: ReplyProcessor, answer: ReplyAnswer, next: ReplyProcessor)
    requires
        run.wf(),
        answer.fits(run.stage),
        run.goes_on_to(answer, next),
        next.wf(),
    ensures
        0 <= next.answers_left() < run.answers_left() <= run.bindings@.len() * 7,
        next.answers_left() == 0 ==> next.stage == ReplyStage::Deliver,
{
    assert(run.bindings.len() == run.bindings@.len());
}

/// A binding that does not answer for others leaves no reply to a message that
/// another participant sent: the walk passes it by.
pub proof fn others_messages_are_passed_by(
    run: ReplyProcessor,
    participants: Result<Vec<Participant>, RepositoryError>,
    next: ReplyProcessor,
)
    requires
        run.wf(),
        run.index < run.bindings@.len(),
        run.stage == ReplyProcessor::entry(run.bindings@, run.index as int),
        !run.bindings@[run.index as int].cross_reply_enabled,
        match participants {
            Ok(list) => own_participant(list@) != Some(run.event.sender_id),
            Err(_) => true,
        },
        run.goes_on_to(ReplyAnswer::Participants(participants), next),
    ensures
        run.asked() == (ReplyRequest::FindParticipants {
            conversation_id: run.bindings@[run.index as int].conversation_id,
        }),
        next.pending == run.pending,
        next.index == run.index + 1,
{
    assert(run.bindings.len() == run.bindings@.len());
}

/// A message starts at the first binding of its conversation, with nothing pending;
/// without bindings it is through at once.
pub proof fn the_walk_starts_at_the_first(
    event: MessageReceivedEvent,
    bindings: Vec<CharacterBinding>,
    r: Result<ReplyProcessor, RuntimeError>,
)
    requires
        call_ensures(
            ReplyProcessor::process,
            (event, Ok::<Vec<CharacterBinding>, RuntimeError>(bindings)),
            r,
        ),
    ensures
        r matches Ok(run) && {
            &&& run.event == event
            &&& run.bindings == bindings
            &&& run.index == 0
            &&& run.pending@.len() == 0
            &&& bindings@.len() == 0 ==> run.stage == ReplyStage::Deliver
            &&& bindings@.len() > 0 ==> run.stage == if bindings@[0].cross_reply_enabled {
                ReplyStage::Load
            } else {
                ReplyStage::Identify
            }
        },
{
}

/// Once its character is loaded, a binding searches the message for memories,
/// records the interaction, moves the emotion and decides, in this order and each
/// for its own character, whatever comes of the steps before the decision.
pub proof fn steps_come_in_order(
    run: ReplyProcessor,
    answer: ReplyAnswer,
    now: Timestamp,
    r: (ReplyProcessor, Option<BehaviorDecidedEvent>),
)
    requires
        run.wf(),
        answer.fits(run.stage),
        call_ensures(ReplyProcessor::advance, (run, answer, now), r),
    ensures
        ({
            let id = run.bindings@[run.index as int].character_id;
            let next = r.0;
            &&& run.stage == ReplyStage::Load && answer == ReplyAnswer::Loaded(true)
                ==> next.asked() == (ReplyRequest::ExtractMemory { character_id: id })
            &&& run.stage == ReplyStage::Remember ==> next.asked() == (
            ReplyRequest::RecordInteraction { character_id: id })
            &&& run.stage == ReplyStage::Relate ==> next.asked() == (ReplyRequest::ApplyEmotion {
                character_id: id,
            })
            &&& run.stage == ReplyStage::Feel ==> next.asked() == (ReplyRequest::Decide {
                character_id: id,
            })
            &&& (run.stage == ReplyStage::Remember || run.stage == ReplyStage::Relate || run.stage
                == ReplyStage::Feel || (run.stage == ReplyStage::Load && answer
                == ReplyAnswer::Loaded(true))) ==> next.index == run.index && next.pending
                == run.pending
            &&& answer == ReplyAnswer::Loaded(false) ==> next.index == run.index + 1 && next.pending
                == run.pending
            &&& next.event == run.event && next.bindings == run.bindings
        }),
{
    assert(run.bindings.len() == run.bindings@.len());
}

/// A binding that does not answer for others goes on only where the bot itself, the
/// first participant that is a character, sent the message.
pub proof fn identification_compares_the_sender(
    run: ReplyProcessor,
    list: Vec<Participant>,
    now: Timestamp,
    r: (ReplyProcessor, Option<BehaviorDecidedEvent>),
    i: int,
)
    requires
        run.wf(),
        run.stage == ReplyStage::Identify,
        call_ensures(
            ReplyProcessor::advance,
            (run, ReplyAnswer::Participants(Ok::<Vec<Participant>, RepositoryError>(list)), now),
            r,
        ),
        0 <= i < list@.len(),
        list@[i].role == ParticipantRole::Character,
        forall|j: int| 0 <= j < i ==> (#[trigger] list@[j]).role != ParticipantRole::Character,
    ensures
        list@[i].id == run.event.sender_id ==> r.0.index == run.index && r.0.asked() == (
        ReplyRequest::LoadCharacter {
            character_id: run.bindings@[run.index as int].character_id,
        }),
        list@[i].id != run.event.sender_id ==> r.0.index == run.index + 1 && r.0.pending
            == run.pending,
{
    assert(run.bindings.len() == run.bindings@.len());
    lemma_character_index(list@, 0, i);
}

proof fn lemma_character_index(participants: Seq<Participant>, from: int, i: int)
    requires
        0 <= from <= i < participants.len(),
        participants[i].role == ParticipantRole::Character,
        forall|j: int|
            from <= j < i ==> (#[trigger] participants[j]).role != ParticipantRole::Character,
    ensures
        character_index(participants, from) == i,
    decreases i - from,
{
    if from < i {
        lemma_character_index(participants, from + 1, i);
    }
}

/// A text is asked for exactly where the decision is to reply, and the decision is
/// made known either way.
pub proof fn only_decisions_to_reply_are_answered(
    run: ReplyProcessor,
    decision: BehaviorDecision,
    now: Timestamp,
    r: (ReplyProcessor, Option<BehaviorDecidedEvent>),
)
    requires
        run.wf(),
        run.stage == ReplyStage::Decide,
        call_ensures(
            ReplyProcessor::advance,
            (run, ReplyAnswer::Decided(Some(decision)), now),
            r,
        ),
    ensures
        decision.action == BehaviorAction::Reply ==> r.0.index == run.index && r.0.asked() == (
        ReplyRequest::Generate { character_id: run.bindings@[run.index as int].character_id })
            && r.0.stage == (ReplyStage::Generate { delay_ms: decision.delay_ms }),
        decision.action != BehaviorAction::Reply ==> r.0.index == run.index + 1,
        r.0.pending == run.pending,
        r.1 matches Some(e) && e.character_id == run.bindings@[run.index as int].character_id
            && e.conversation_id == run.event.conversation_id && e.reason@ == decision.reason@
            && e.timestamp == now,
        decision.action == BehaviorAction::Reply ==> r.1->0.action@ == "Reply"@,
        decision.action == BehaviorAction::Ignore ==> r.1->0.action@ == "Ignore"@,
{
    assert(run.bindings.len() == run.bindings@.len());
}

/// A text that was made waits as the last reply, to the conversation of the message,
/// for as long as was decided but three seconds at most; without a text nothing is
/// added. Either way the walk goes on to the next binding.
pub proof fn every_text_becomes_a_reply(
    run: ReplyProcessor,
    text: Option<String>,
    now: Timestamp,
    r: (ReplyProcessor, Option<BehaviorDecidedEvent>),
)
    requires
        run.wf(),
        run.stage is Generate,
        call_ensures(ReplyProcessor::advance, (run, ReplyAnswer::Generated(text), now), r),
    ensures
        r.0.index == run.index + 1,
        text is None ==> r.0.pending == run.pending,
        text matches Some(content) ==> {
            let n = run.pending@.len();
            let last = r.0.pending@.last();
            &&& r.0.pending@.len() == n + 1
            &&& r.0.pending@.take(n as int) == run.pending@
            &&& last.content == content
            &&& last.conversation_id == run.event.conversation_id
            &&& last.binding_id == run.bindings@[run.index as int].id
            &&& last.delay_ms <= 3000
            &&& run.stage->delay_ms <= 3000 ==> last.delay_ms == run.stage->delay_ms
            &&& run.stage->delay_ms > 3000 ==> last.delay_ms == 3000
        },
{
    assert(run.bindings.len() == run.bindings@.len());
    if text is Some {
        assert(r.0.pending@.take(run.pending@.len() as int) =~= run.pending@);
    }
}

/// A delay beyond three seconds is cut to three seconds, and any other is kept.
pub proof fn delays_are_capped(delay_ms: u64, r: u64)
    requires
        call_ensures(capped_delay_ms, (delay_ms,), r),
    ensures
        delay_ms <= 3000 ==> r == delay_ms,
        delay_ms > 3000 ==> r == 3000,
{
}

/// Without a language model a character repeats what it heard: the message without
/// the white space around it, its first forty characters where it is longer; to a
/// blank message it only asks back.
pub proof fn without_a_model_characters_repeat(message: &str, r: String)
    requires
        call_ensures(deterministic_reply, (message,), r),
    ensures
        trimmed(message@).len() == 0 ==> r@ == "嗯？"@,
        0 < trimmed(message@).len() <= 40 ==> r@ == "我听到了："@ + trimmed(message@),
        trimmed(message@).len() > 40 ==> r@ == "我听到了："@ + trimmed(message@).take(40),
{
}

/// What the model answers is what is said, and is known as the model's; without a
/// model, or where it has no answer, the character repeats what it heard, by rule;
/// and a failure of the model is a failure to answer.
pub proof fn the_model_has_the_first_word(
    event: MessageReceivedEvent,
    character_id: i64,
    model: Option<Result<Option<String>, RuntimeError>>,
    now: Timestamp,
    r: Result<(String, ResponseGeneratedEvent), RuntimeError>,
    heard: &str,
    plain: String,
)
    requires
        call_ensures(generate_reply, (&event, character_id, model, now), r),
        heard@ == event.content@,
        call_ensures(deterministic_reply, (heard,), plain),
    ensures
        (model matches Some(Err(_))) <==> r is Err,
        model matches Some(Ok(Some(text))) ==> (r matches Ok((said, known)) && said == text
            && known.content@ == text@ && known.source == ResponseSource::Llm),
        (model is None || model matches Some(Ok(None))) ==> (r matches Ok((said, known)) && said@
            == plain@ && known.content@ == plain@ && known.source == ResponseSource::Rule),
        r matches Ok((_, known)) ==> known.character_id == character_id && known.conversation_id
            == event.conversation_id && known.timestamp == now,
{
}

/// In each stage the binding at work asks for the one thing that the stage waits for,
/// for its own character; past the last binding the replies are to be sent.
pub proof fn stages_ask_for_one_thing(run: ReplyProcessor, r: ReplyRequest)
    requires
        run.wf(),
        call_ensures(ReplyProcessor::request, (&run,), r),
    ensures
        ({
            let binding = run.bindings@[run.index as int];
            let id = binding.character_id;
            &&& run.stage == ReplyStage::Identify ==> r == (ReplyRequest::FindParticipants {
                conversation_id: binding.conversation_id,
            })
            &&& run.stage == ReplyStage::Load ==> r == (ReplyRequest::LoadCharacter {
                character_id: id,
            })
            &&& run.stage == ReplyStage::Remember ==> r == (ReplyRequest::ExtractMemory {
                character_id: id,
            })
            &&& run.stage == ReplyStage::Relate ==> r == (ReplyRequest::RecordInteraction {
                character_id: id,
            })
            &&& run.stage == ReplyStage::Feel ==> r == (ReplyRequest::ApplyEmotion {
                character_id: id,
            })
            &&& run.stage == ReplyStage::Decide ==> r == (ReplyRequest::Decide {
                character_id: id,
            })
            &&& run.stage is Generate ==> r == (ReplyRequest::Generate { character_id: id })
            &&& run.index == run.bindings@.len() <==> r == ReplyRequest::Deliver
        }),
{
}

/// Once all bindings are through, each pending reply is sent, once.
pub proof fn every_pending_reply_is_sent(run: ReplyProcessor, r: Vec<PendingReply>)
    requires
        run.wf(),
        run.stage == ReplyStage::Deliver,
        call_ensures(ReplyProcessor::deliveries, (run,), r),
    ensures
        r@.len() == run.pending@.len(),
        forall|p: PendingReply| #[trigger] r@.contains(p) <==> run.pending@.contains(p),
        r@.to_multiset() == run.pending@.to_multiset(),
{
    broadcast use vstd::seq_lib::group_to_multiset_ensures;

    assert(r@.len() == r@.to_multiset().len());
    assert forall|p: PendingReply| #[trigger] r@.contains(p) <==> run.pending@.contains(p) by {
        assert(r@.contains(p) <==> r@.to_multiset().count(p) > 0);
        assert(run.pending@.contains(p) <==> run.pending@.to_multiset().count(p) > 0);
    }
}

/// A walk goes from one binding to the next, and at each it starts by asking who is
/// who, unless the binding answers for others.
pub proof fn walks_go_binding_by_binding(
    run: ReplyProcessor,
    answer: ReplyAnswer,
    now: Timestamp,
    r: (ReplyProcessor, Option<BehaviorDecidedEvent>),
)
    requires
        run.wf(),
        answer.fits(run.stage),
        call_ensures(ReplyProcessor::advance, (run, answer, now), r),
    ensures
        r.0.index == run.index || r.0.index == run.index + 1,
        r.0.index == run.index + 1 && r.0.index < run.bindings@.len() ==> r.0.stage
            == if run.bindings@[run.index + 1].cross_reply_enabled {
            ReplyStage::Load
        } else {
            ReplyStage::Identify
        },
        r.0.index == run.bindings@.len() ==> r.0.stage == ReplyStage::Deliver,
        answer == ReplyAnswer::Decided(None) || answer == ReplyAnswer::Generated(None)
            ==> r.0.index == run.index + 1 && r.0.pending == run.pending && r.1 is None,
        !(answer matches ReplyAnswer::Decided(Some(_))) ==> r.1 is None,
{
    assert(run.bindings.len() == run.bindings@.len());
}

/// The bot is the first participant of a conversation that is a character; without one
/// it cannot be found.
pub proof fn the_bot_is_the_first_character(
    binding: CharacterBinding,
    list: Vec<Participant>,
    r: Result<i64, RuntimeError>,
    i: int,
)
    requires
        call_ensures(
            get_my_participant_id,
            (&binding, Ok::<Vec<Participant>, RepositoryError>(list)),
            r,
        ),
    ensures
        0 <= i < list@.len() && list@[i].role == ParticipantRole::Character && (forall|j: int|
            0 <= j < i ==> (#[trigger] list@[j]).role != ParticipantRole::Character) ==> r == Ok::<
            i64,
            RuntimeError,
        >(list@[i].id),
        (forall|j: int|
            0 <= j < list@.len() ==> (#[trigger] list@[j]).role != ParticipantRole::Character)
            ==> r is Err,
{
    if 0 <= i < list@.len() && list@[i].role == ParticipantRole::Character && (forall|j: int|
        0 <= j < i ==> (#[trigger] list@[j]).role != ParticipantRole::Character) {
        lemma_character_index(list@, 0, i);
    }
    if forall|j: int|
        0 <= j < list@.len() ==> (#[trigger] list@[j]).role != ParticipantRole::Character {
        lemma_no_character(list@, 0);
    }
}

proof fn lemma_no_character(participants: Seq<Participant>, from: int)
    requires
        0 <= from <= participants.len(),
        forall|j: int|
            0 <= j < participants.len() ==> (#[trigger] participants[j]).role
                != ParticipantRole::Character,
    ensures
        character_index(participants, from) == participants.len(),
    decreases participants.len() - from,
{
    if from < participants.len() {
        lemma_no_character(participants, from + 1);
    }
}

/// Where it cannot be told who the bot is, a binding that does not answer for others is
/// passed by.
pub proof fn the_unidentified_are_passed_by(
    run: ReplyProcessor,
    answer: Result<Vec<Participant>, RepositoryError>,
    now: Timestamp,
    r: (ReplyProcessor, Option<BehaviorDecidedEvent>),
)
    requires
        run.wf(),
        run.stage == ReplyStage::Identify,
        call_ensures(ReplyProcessor::advance, (run, ReplyAnswer::Participants(answer), now), r),
        answer is Err || forall|j: int|
            0 <= j < answer->Ok_0@.len() ==> (#[trigger] answer->Ok_0@[j]).role
                != ParticipantRole::Character,
    ensures
        r.0.index == run.index + 1,
        r.0.pending == run.pending,
        r.1 is None,
{
    assert(run.bindings.len() == run.bindings@.len());
    if answer is Ok {
        lemma_no_character(answer->Ok_0@, 0);
    }
}

} // verus!
