//! What a character decides to do.

use vstd::prelude::*;

use crate::json::Json;
use crate::scalar::Scalar;
use crate::time::Timestamp;

verus! {

/// What the behaviour engine decided to do.
#[derive(Debug, Clone, Copy, PartialEq, Eq, Structural)]
pub enum BehaviorAction {
    /// Answer the message.
    Reply,
    /// Do nothing.
    Ignore,
    /// Decide later.
    Delay,
    /// Start a conversation.
    InitiateProactive,
    /// Update internal state only.
    UpdateState,
}

impl BehaviorAction {
    /// The name of the action.
    pub open spec fn label(self) -> Seq<char> {
        match self {
            BehaviorAction::Reply => "Reply"@,
            BehaviorAction::Ignore => "Ignore"@,
            BehaviorAction::Delay => "Delay"@,
            BehaviorAction::InitiateProactive => "InitiateProactive"@,
            BehaviorAction::UpdateState => "UpdateState"@,
        }
    }

    /// The name of the action.
    pub fn name(self) -> (r: &'static str)
        ensures
            r@ == self.label(),
    {
        match self {
            BehaviorAction::Reply => "Reply",
            BehaviorAction::Ignore => "Ignore",
            BehaviorAction::Delay => "Delay",
            BehaviorAction::InitiateProactive => "InitiateProactive",
            BehaviorAction::UpdateState => "UpdateState",
        }
    }
}

/// How urgent a decision is, most urgent first.
#[derive(Debug, Clone, Copy, PartialEq, Eq, PartialOrd, Ord, Structural)]
pub enum Priority {
    /// A user is waiting.
    Realtime,
    /// An urgent system action.
    Urgent,
    /// Normal.
    Normal,
    /// Background work and maintenance.
    Background,
}

/// How much of the language model a decision needs.
#[derive(Debug, Clone, Copy, PartialEq, Eq, Structural)]
pub enum CognitionLevel {
    /// None of it: rules suffice.
    NoCognition,
    /// One call for a simple answer.
    Light,
    /// Deep processing.
    Deep,
}

/// A decision of the behaviour engine.
#[derive(Debug)]
pub struct BehaviorDecision {
    pub action: BehaviorAction,
    pub priority: Priority,
    pub cognition_level: CognitionLevel,
    /// Delay before execution, in milliseconds.
    pub delay_ms: u64,
    /// Why it was taken.
    pub reason: String,
    pub decided_at: Timestamp,
}

/// An action for the runtime to execute.
#[derive(Debug)]
pub enum Action {
    /// Send a message.
    SendMessage { conversation_id: i64, content: String },
    /// Update a character's state.
    UpdateState { character_id: i64, state_patch: Json },
    /// Create a memory.
    CreateMemory { character_id: i64, content: String, memory_type: String, importance: Scalar },
    /// Do something later.
    Schedule { run_at: Timestamp, action: Box<Action> },
    /// Ask the language model.
    CognitionRequest { character_id: i64, conversation_id: i64, request_type: String },
    /// Do nothing.
    DoNothing,
}

/// Actions go by their names.
pub proof fn actions_go_by_their_names(a: BehaviorAction, r: &'static str)
    requires
        call_ensures(BehaviorAction::name, (a,), r),
    ensures
        a == BehaviorAction::Reply ==> r@ == "Reply"@,
        a == BehaviorAction::Ignore ==> r@ == "Ignore"@,
        a == BehaviorAction::Delay ==> r@ == "Delay"@,
        a == BehaviorAction::InitiateProactive ==> r@ == "InitiateProactive"@,
        a == BehaviorAction::UpdateState ==> r@ == "UpdateState"@,
{
}

} // verus!
