//! The one way to the language model: what is asked of it, and which requests
//! are let through when it is busy.

use vstd::prelude::*;

use crate::error::RuntimeError;
use crate::scalar::Scalar;
use crate::text::{concat, owned};

verus! {

/// Who says something in a dialogue with the model.
#[derive(Debug, Clone, Copy, PartialEq, Eq, Structural)]
pub enum LlmRole {
    System,
    User,
    Assistant,
}

/// Something said in a dialogue with the model.
#[derive(Debug)]
pub struct LlmMessage {
    pub role: LlmRole,
    pub content: String,
}

/// On whose behalf a request is made.
#[derive(Debug, Clone, Copy, PartialEq, Eq, Structural)]
pub struct RequestOrigin {
    pub character_id: i64,
    pub conversation_id: i64,
    pub participant_id: Option<i64>,
}

/// A request to the model.
#[derive(Debug)]
pub struct LlmRequest {
    pub system: Option<String>,
    pub messages: Vec<LlmMessage>,
    /// The model; the provider's choice where none is named.
    pub model: Option<String>,
    pub temperature: Option<Scalar>,
    pub max_tokens: Option<u32>,
    /// 0 is the most urgent, 3 and above is background work.
    pub priority: u8,
    pub origin: Option<RequestOrigin>,
}

/// What becomes of a request to the model.
#[derive(Debug, Clone, Copy, PartialEq, Eq, Structural)]
pub enum Admission {
    /// It runs at once; with a permit where one was free.
    RunNow,
    /// It waits for a permit.
    Queue,
    /// It is dropped.
    Drop,
}

/// What becomes of a request of some priority: the most urgent ones always run
/// at once, background work only where a permit is free, the rest waits.
pub open spec fn admission(priority: u8, permit_free: bool) -> Admission {
    if priority == 0 {
        Admission::RunNow
    } else if priority >= 3 {
        if permit_free {
            Admission::RunNow
        } else {
            Admission::Drop
        }
    } else {
        Admission::Queue
    }
}

/// Decides what becomes of a request.
pub fn dispatch(priority: u8, permit_free: bool) -> (r: Admission)
    ensures
        r == admission(priority, permit_free),
{
    if priority == 0 {
        return Admission::RunNow;
    }
    if priority >= 3 {
        if permit_free {
            Admission::RunNow
        } else {
            Admission::Drop
        }
    } else {
        Admission::Queue
    }
}

/// Decides what becomes of an embedding request, which is background work.
pub fn dispatch_embedding(permit_free: bool) -> (r: Admission)
    ensures
        r == admission(3, permit_free),
{
    dispatch(3, permit_free)
}

/// The error for a request that was dropped.
pub fn dropped_request() -> (r: RuntimeError)
    ensures
        r matches RuntimeError::Llm(s) && s@ == "P3 请求因满载被丢弃"@,
{
    RuntimeError::Llm(owned("P3 请求因满载被丢弃"))
}

/// The error for an embedding request that was dropped.
pub fn dropped_embedding() -> (r: RuntimeError)
    ensures
        r matches RuntimeError::Llm(s) && s@ == "Embedding 请求因满载被丢弃"@,
{
    RuntimeError::Llm(owned("Embedding 请求因满载被丢弃"))
}

/// The error for a request that can no longer get a permit.
pub fn closed_queue(reason: &str) -> (r: RuntimeError)
    ensures
        r matches RuntimeError::Llm(s) && s@ == "信号量已关闭: "@ + reason@,
{
    RuntimeError::Llm(concat("信号量已关闭: ", reason))
}

/// How many requests may run at the same time: as many as are wanted, at least one.
#[derive(Debug, Clone, Copy, PartialEq, Eq, Structural)]
pub struct SchedulerLimits {
    pub pending: usize,
    pub embedding: usize,
}

impl SchedulerLimits {
    /// Four requests and four embeddings.
    pub fn new() -> (r: SchedulerLimits)
        ensures
            r.pending == 4 && r.embedding == 4,
    {
        SchedulerLimits::with_limits(4, 4)
    }

    /// The same limit for both.
    pub fn with_limit(pending_limit: usize) -> (r: SchedulerLimits)
        ensures
            r.pending == if pending_limit < 1 {
                1
            } else {
                pending_limit
            },
            r.embedding == r.pending,
    {
        SchedulerLimits::with_limits(pending_limit, pending_limit)
    }

    /// A limit for each.
    pub fn with_limits(pending_limit: usize, embedding_limit: usize) -> (r: SchedulerLimits)
        ensures
            r.pending == if pending_limit < 1 {
                1
            } else {
                pending_limit
            },
            r.embedding == if embedding_limit < 1 {
                1
            } else {
                embedding_limit
            },
    {
        SchedulerLimits {
            pending: if pending_limit < 1 {
                1
            } else {
                pending_limit
            },
            embedding: if embedding_limit < 1 {
                1
            } else {
                embedding_limit
            },
        }
    }
}

/// The most urgent requests are never dropped and never wait; only background
/// work is ever dropped, and only when no permit is free.
pub proof fn only_background_work_is_dropped(priority: u8, permit_free: bool)
    ensures
        priority == 0 ==> admission(priority, permit_free) == Admission::RunNow,
        admission(priority, permit_free) == Admission::Drop <==> priority >= 3 && !permit_free,
{
}

/// Priority 0 runs at once, 1 and 2 wait for a permit, 3 and above run only where one
/// is free; embeddings are treated as the latter.
pub proof fn priorities_decide(priority: u8, permit_free: bool, r: Admission, e: Admission)
    requires
        call_ensures(dispatch, (priority, permit_free), r),
        call_ensures(dispatch_embedding, (permit_free,), e),
    ensures
        priority == 0 ==> r == Admission::RunNow,
        priority == 1 || priority == 2 ==> r == Admission::Queue,
        priority >= 3 && permit_free ==> r == Admission::RunNow,
        priority >= 3 && !permit_free ==> r == Admission::Drop,
        permit_free ==> e == Admission::RunNow,
        !permit_free ==> e == Admission::Drop,
{
}

/// A limit is what was asked for, but one at least; both are four where nothing was.
pub proof fn limits_allow_something(
    pending: usize,
    embedding: usize,
    both: SchedulerLimits,
    same: SchedulerLimits,
    usual: SchedulerLimits,
)
    requires
        call_ensures(SchedulerLimits::with_limits, (pending, embedding), both),
        call_ensures(SchedulerLimits::with_limit, (pending,), same),
        call_ensures(SchedulerLimits::new, (), usual),
    ensures
        both.pending >= 1 && both.embedding >= 1,
        pending >= 1 ==> both.pending == pending && same.pending == pending && same.embedding
            == pending,
        embedding >= 1 ==> both.embedding == embedding,
        pending == 0 ==> both.pending == 1 && same.pending == 1 && same.embedding == 1,
        embedding == 0 ==> both.embedding == 1,
        usual.pending == 4 && usual.embedding == 4,
{
}

} // verus!
