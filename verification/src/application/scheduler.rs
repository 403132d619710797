//! Tasks that are due at some time.

use vstd::prelude::*;

use crate::json::Json;
use crate::time::Timestamp;

verus! {

/// What a task does.
#[derive(Debug)]
pub enum TaskType {
    EmotionDecay,
    StateDecay,
    MemoryMaintenance,
    RelationshipMaintenance,
    ProactiveCheck,
    AdapterHealthCheck,
    PluginHealthCheck,
    Custom(String),
}

/// How urgent a task is, most urgent first.
#[derive(Debug, Clone, Copy, PartialEq, Eq, PartialOrd, Ord, Structural)]
pub enum TaskPriority {
    Realtime,
    Urgent,
    Proactive,
    Maintenance,
}

/// A scheduled task.
#[derive(Debug)]
pub struct ScheduledTask {
    pub id: i64,
    pub task_type: TaskType,
    pub character_id: Option<i64>,
    pub payload: Json,
    pub run_at: Timestamp,
    pub recurring: bool,
    pub interval_secs: Option<u64>,
    pub enabled: bool,
}

} // verus!
