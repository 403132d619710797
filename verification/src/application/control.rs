//! The control service: commands that come in over the control socket.
//!
//! A request is `{"id": .., "cmd": .., "params": ..}`. `state-set` and `state-get`
//! write and read character states: without a conversation the state of the
//! character as a whole, with one its state and mood in that conversation.

use vstd::prelude::*;

use crate::application::config::{complaints, validate_runtime, RuntimeConfig};
use crate::domain::character::{CharacterState, CharacterStateView, ConversationState};
use crate::domain::emotion::Mood;
use crate::error::RuntimeError;
use crate::json::{json_reading, parse_json, Json, JsonView};
use crate::scalar::Scalar;
use crate::text::{concat, i64_text, integer_text, join, joined, owned, same_text, texts};
use crate::time::Timestamp;

verus! {

/// What a command does, for `help`.
#[derive(Debug, Clone, Copy)]
pub struct CommandDesc {
    pub name: &'static str,
    pub description: &'static str,
}

/// Why a request was refused.
#[derive(Debug)]
pub struct ControlErrorDetail {
    pub code: &'static str,
    pub message: String,
}

impl ControlErrorDetail {
    /// The detail has this code and message.
    pub open spec fn says(self, code: Seq<char>, message: Seq<char>) -> bool {
        self.code@ == code && self.message@ == message
    }

    /// A refusal with a code and a message.
    pub fn new(code: &'static str, message: String) -> (r: ControlErrorDetail)
        ensures
            r.code == code,
            r.message == message,
    {
        ControlErrorDetail { code, message }
    }

    /// The command does not exist.
    pub fn unknown_command(cmd: &str) -> (r: ControlErrorDetail)
        ensures
            r.says("UNKNOWN_COMMAND"@, "未知命令: "@ + cmd@ + "，使用 help 查看可用命令"@),
    {
        let head = concat("未知命令: ", cmd);
        ControlErrorDetail::new("UNKNOWN_COMMAND", concat(head.as_str(), "，使用 help 查看可用命令"))
    }

    /// The request names no command.
    pub fn missing_cmd() -> (r: ControlErrorDetail)
        ensures
            r.says("MISSING_CMD"@, "请求缺少 cmd 字段"@),
    {
        ControlErrorDetail::new("MISSING_CMD", owned("请求缺少 cmd 字段"))
    }

    /// The request is no JSON.
    pub fn invalid_json(e: &str) -> (r: ControlErrorDetail)
        ensures
            r.says("INVALID_JSON"@, "无效的 JSON: "@ + e@),
    {
        ControlErrorDetail::new("INVALID_JSON", concat("无效的 JSON: ", e))
    }

    /// Something else went wrong.
    pub fn internal(msg: &str) -> (r: ControlErrorDetail)
        ensures
            r.says("INTERNAL_ERROR"@, msg@),
    {
        ControlErrorDetail::new("INTERNAL_ERROR", owned(msg))
    }
}

/// How the runtime is doing.
#[derive(Debug)]
pub struct RuntimeStatus {
    pub adapter_state: String,
    pub plugin_count: usize,
    pub data_dir: String,
    pub log_level: String,
}

/// The states that a command wrote or read. A part that is not there was not
/// asked for; one that is there and empty is not stored.
#[derive(Debug)]
pub struct StateReport {
    pub character_id: i64,
    pub conversation_id: Option<i64>,
    pub character_state: Option<Option<CharacterState>>,
    pub conversation_state: Option<Option<ConversationState>>,
    pub mood: Option<Option<Mood>>,
}

/// What a state report says.
#[verifier::ext_equal]
pub struct StateReportView {
    pub character_id: i64,
    pub conversation_id: Option<i64>,
    pub character_state: Option<Option<CharacterStateView>>,
    pub conversation_state: Option<Option<ConversationState>>,
    pub mood: Option<Option<Mood>>,
}

/// What an optional character state says.
pub open spec fn state_of(s: Option<CharacterState>) -> Option<CharacterStateView> {
    match s {
        Some(t) => Some(t@),
        None => None,
    }
}

impl View for StateReport {
    type V = StateReportView;

    open spec fn view(&self) -> StateReportView {
        StateReportView {
            character_id: self.character_id,
            conversation_id: self.conversation_id,
            character_state: match self.character_state {
                Some(s) => Some(state_of(s)),
                None => None,
            },
            conversation_state: self.conversation_state,
            mood: self.mood,
        }
    }
}

/// What a command answers.
#[derive(Debug)]
pub enum ControlData {
    Status(RuntimeStatus),
    Config { log_level: String, data_dir: String, admin_users: Option<Vec<String>> },
    Message(String),
    Commands(Vec<CommandDesc>),
    State(StateReport),
}

/// The answer to a request.
#[derive(Debug)]
pub struct ControlResponse {
    /// The number of the request.
    pub id: u64,
    pub ok: bool,
    pub data: Option<ControlData>,
    pub error: Option<ControlErrorDetail>,
}

impl ControlResponse {
    /// The response refuses request `id` with this code and message.
    pub open spec fn refuses(self, id: u64, code: Seq<char>, message: Seq<char>) -> bool {
        &&& self.id == id
        &&& !self.ok
        &&& self.data is None
        &&& self.error matches Some(e) && e.says(code, message)
    }

    /// The response grants request `id` with this data.
    pub open spec fn grants(self, id: u64, data: ControlData) -> bool {
        &&& self.id == id
        &&& self.ok
        &&& self.data == Some(data)
        &&& self.error is None
    }

    /// The answer to a request that was granted.
    pub fn granted(id: u64, data: ControlData) -> (r: ControlResponse)
        ensures
            r.grants(id, data),
    {
        ControlResponse { id, ok: true, data: Some(data), error: None }
    }

    /// The answer to a request that was refused.
    pub fn refused(id: u64, detail: ControlErrorDetail) -> (r: ControlResponse)
        ensures
            r.refuses(id, detail.code@, detail.message@),
    {
        ControlResponse { id, ok: false, data: None, error: Some(detail) }
    }
}

// ---------------------------------------------------------------------------
// Requests
// ---------------------------------------------------------------------------

/// What a request asks for.
#[derive(Debug)]
pub enum Request {
    /// A command to be looked up and run.
    Command { id: u64, cmd: String, params: Json },
    /// A request that is answered at once.
    Answer(ControlResponse),
}

/// The number of a request; zero where it gives none.
pub open spec fn request_id(doc: JsonView) -> u64 {
    match doc.field("id"@) {
        Some(v) => match v.unsigned() {
            Some(n) => n,
            None => 0,
        },
        None => 0,
    }
}

/// The parameters of a request; `null` where it gives none.
pub open spec fn request_params(doc: JsonView) -> JsonView {
    match doc.field("params"@) {
        Some(v) => v,
        None => JsonView::Null,
    }
}

/// The request that a document makes.
pub open spec fn request_of(doc: JsonView, r: Request) -> bool {
    match doc.string_at("cmd"@) {
        Some(name) => r matches Request::Command { id, cmd, params } && id == request_id(doc)
            && cmd@ == name && params.model() == request_params(doc),
        None => r matches Request::Answer(resp) && resp.refuses(
            request_id(doc),
            "MISSING_CMD"@,
            "请求缺少 cmd 字段"@,
        ),
    }
}

/// Takes a request document apart.
pub fn interpret_request(doc: &Json) -> (r: Request)
    ensures
        request_of(doc.model(), r),
{
    let id: u64 = match doc.get("id") {
        Some(v) => match v.as_u64() {
            Some(n) => n,
            None => 0,
        },
        None => 0,
    };
    let cmd = match doc.text_at("cmd") {
        Some(name) => name.clone(),
        None => {
            return Request::Answer(ControlResponse::refused(id, ControlErrorDetail::missing_cmd()));
        },
    };
    let params = match doc.get("params") {
        Some(v) => v.duplicate(),
        None => Json::Null,
    };
    Request::Command { id, cmd, params }
}

/// Reads a request from the bytes of one message. Bytes that are no JSON are
/// refused under the number zero.
pub fn read_request(bytes: Vec<u8>) -> (r: Request)
    ensures
        match json_reading(bytes@) {
            Ok(doc) => request_of(doc, r),
            Err(e) => r matches Request::Answer(resp) && resp.refuses(
                0,
                "INVALID_JSON"@,
                "无效的 JSON: "@ + e,
            ),
        },
{
    match parse_json(bytes) {
        Ok(doc) => interpret_request(&doc),
        Err(e) => Request::Answer(
            ControlResponse::refused(0, ControlErrorDetail::invalid_json(e.as_str())),
        ),
    }
}

// ---------------------------------------------------------------------------
// The registry of commands
// ---------------------------------------------------------------------------

/// The known commands, each with a handler of type `H`.
pub struct CommandRegistry<H> {
    pub entries: Vec<(CommandDesc, H)>,
}

/// The handlers of the commands that are always there.
pub struct BuiltinHandlers<H> {
    pub status: H,
    pub reload_config: H,
    pub shutdown: H,
    pub help: H,
    pub state_set: H,
    pub state_get: H,
}

impl<H: Copy> CommandRegistry<H> {
    /// No name occurs twice.
    pub open spec fn wf(self) -> bool {
        forall|i: int, j: int|
            0 <= i < j < self.entries@.len() ==> (#[trigger] self.entries@[i]).0.name@ != (
            #[trigger] self.entries@[j]).0.name@
    }

    /// The command at an index has this name.
    pub open spec fn named_at(self, i: int, name: Seq<char>) -> bool {
        0 <= i < self.entries@.len() && self.entries@[i].0.name@ == name
    }

    /// Some command has this name.
    pub open spec fn knows(self, name: Seq<char>) -> bool {
        exists|i: int| self.named_at(i, name)
    }

    /// A registry without commands.
    pub fn new() -> (r: CommandRegistry<H>)
        ensures
            r.wf(),
            r.entries@.len() == 0,
    {
        CommandRegistry { entries: Vec::new() }
    }

    fn position(&self, name: &str) -> (r: Option<usize>)
        ensures
            match r {
                Some(i) => self.named_at(i as int, name@),
                None => !self.knows(name@),
            },
    {
        let mut i: usize = 0;
        while i < self.entries.len()
            invariant
                i <= self.entries@.len(),
                forall|j: int| 0 <= j < i ==> !self.named_at(j, name@),
            decreases self.entries@.len() - i,
        {
            if same_text(self.entries[i].0.name, name) {
                return Some(i);
            }
            i += 1;
        }
        None
    }

    /// Adds a command; one of the same name is replaced.
    pub fn register(&mut self, name: &'static str, description: &'static str, handler: H)
        requires
            old(self).wf(),
        ensures
            final(self).wf(),
            final(self).knows(name@),
            forall|i: int|
                final(self).named_at(i, name@) ==> final(self).entries@[i] == (
                    CommandDesc { name, description },
                    handler,
                ),
            old(self).knows(name@) ==> final(self).entries@.len() == old(self).entries@.len()
                && forall|i: int|
                0 <= i < old(self).entries@.len() && !old(self).named_at(i, name@)
                    ==> final(self).entries@[i] == old(self).entries@[i],
            !old(self).knows(name@) ==> final(self).entries@ == old(self).entries@.push(
                (CommandDesc { name, description }, handler),
            ),
    {
        let entry = (CommandDesc { name, description }, handler);
        let ghost before = self.entries@;
        match self.position(name) {
            Some(i) => {
                self.entries[i] = entry;
                assert(self.entries@ == before.update(i as int, entry));
                assert(self.named_at(i as int, name@));
            },
            None => {
                self.entries.push(entry);
                proof {
                    let n = before.len() as int;
                    assert(self.named_at(n, name@));
                    assert forall|i: int| self.named_at(i, name@) implies i == n by {
                        if i < n {
                            assert(old(self).named_at(i, name@));
                        }
                    }
                    assert forall|i: int, j: int| 0 <= i < j < self.entries@.len() implies (
                    #[trigger] self.entries@[i]).0.name@ != (#[trigger] self.entries@[j]).0.name@ by {
                        if j == n && self.entries@[i].0.name@ == name@ {
                            assert(old(self).named_at(i, name@));
                        }
                    }
                }
            },
        }
    }

    /// The handler of a command; nothing where there is none of that name.
    pub fn dispatch(&self, cmd: &str) -> (r: Option<H>)
        requires
            self.wf(),
        ensures
            r is Some <==> self.knows(cmd@),
            r matches Some(h) ==> forall|i: int|
                self.named_at(i, cmd@) ==> (#[trigger] self.entries@[i]).1 == h,
    {
        match self.position(cmd) {
            Some(i) => Some(self.entries[i].1),
            None => None,
        }
    }

    /// What all the commands do, each once.
    pub fn descriptions(&self) -> (r: Vec<CommandDesc>)
        ensures
            r@.len() == self.entries@.len(),
            forall|i: int| 0 <= i < r@.len() ==> #[trigger] r@[i] == self.entries@[i].0,
    {
        let mut r: Vec<CommandDesc> = Vec::new();
        let mut i: usize = 0;
        while i < self.entries.len()
            invariant
                i <= self.entries@.len(),
                r@.len() == i,
                forall|j: int| 0 <= j < i ==> #[trigger] r@[j] == self.entries@[j].0,
            decreases self.entries@.len() - i,
        {
            r.push(self.entries[i].0);
            i += 1;
        }
        r
    }

    /// The registry of the commands that are always there.
    pub fn builtin(handlers: BuiltinHandlers<H>) -> (r: CommandRegistry<H>)
        ensures
            r.wf(),
            r.entries@.len() == 6,
            r.entries@[0].0.name@ == "status"@ && r.entries@[0].1 == handlers.status,
            r.entries@[1].0.name@ == "reload-config"@ && r.entries@[1].1 == handlers.reload_config,
            r.entries@[2].0.name@ == "shutdown"@ && r.entries@[2].1 == handlers.shutdown,
            r.entries@[3].0.name@ == "help"@ && r.entries@[3].1 == handlers.help,
            r.entries@[4].0.name@ == "state-set"@ && r.entries@[4].1 == handlers.state_set,
            r.entries@[5].0.name@ == "state-get"@ && r.entries@[5].1 == handlers.state_get,
            r.entries@[0].0.description@ == "查询运行时状态"@,
            r.entries@[1].0.description@ == "重新加载并校验配置文件"@,
            r.entries@[2].0.description@ == "发送优雅关停信号"@,
            r.entries@[3].0.description@ == "显示所有可用命令"@,
            r.entries@[4].0.description@
                == "修改角色状态（全局 energy/stress/activity，或 Character×Conversation 的 energy/stress/mood）"@,
            r.entries@[5].0.description@ == "查询角色状态（全局与 Character×Conversation 范围）"@,
    {
        proof {
            reveal_strlit("status");
            reveal_strlit("reload-config");
            reveal_strlit("shutdown");
            reveal_strlit("help");
            reveal_strlit("state-set");
            reveal_strlit("state-get");
        }
        let mut entries: Vec<(CommandDesc, H)> = Vec::new();
        entries.push((CommandDesc { name: "status", description: "查询运行时状态" }, handlers.status));
        entries.push(
            (
                CommandDesc { name: "reload-config", description: "重新加载并校验配置文件" },
                handlers.reload_config,
            ),
        );
        entries.push(
            (CommandDesc { name: "shutdown", description: "发送优雅关停信号" }, handlers.shutdown),
        );
        entries.push((CommandDesc { name: "help", description: "显示所有可用命令" }, handlers.help));
        entries.push(
            (
                CommandDesc {
                    name: "state-set",
                    description: "修改角色状态（全局 energy/stress/activity，或 Character×Conversation 的 energy/stress/mood）",
                },
                handlers.state_set,
            ),
        );
        entries.push(
            (
                CommandDesc {
                    name: "state-get",
                    description: "查询角色状态（全局与 Character×Conversation 范围）",
                },
                handlers.state_get,
            ),
        );
        let r = CommandRegistry { entries };
        proof {
            assert("status"@.len() == 6 && "reload-config"@.len() == 13 && "shutdown"@.len() == 8
                && "help"@.len() == 4 && "state-set"@.len() == 9 && "state-get"@.len() == 9);
            assert("state-set"@[6] == 's' && "state-get"@[6] == 'g');
            assert forall|i: int, j: int| 0 <= i < j < 6 implies (#[trigger] r.entries@[i]).0.name@
                != (#[trigger] r.entries@[j]).0.name@ by {
                assert(i == 0 || i == 1 || i == 2 || i == 3 || i == 4);
                assert(j == 1 || j == 2 || j == 3 || j == 4 || j == 5);
            }
        }
        r
    }
}

/// What a request leads to, with handlers of type `H`.
#[derive(Debug)]
pub enum Routed<H> {
    /// The handler is run for the request of this number with these parameters.
    Run { handler: H, id: u64, params: Json },
    /// The request is answered at once.
    Answer(ControlResponse),
}

/// The document leads to this.
pub open spec fn leads_to<H: Copy>(
    registry: CommandRegistry<H>,
    doc: JsonView,
    r: Routed<H>,
) -> bool {
    match doc.string_at("cmd"@) {
        None => r matches Routed::Answer(resp) && resp.refuses(
            request_id(doc),
            "MISSING_CMD"@,
            "请求缺少 cmd 字段"@,
        ),
        Some(name) => if registry.knows(name) {
            r matches Routed::Run { handler, id, params } && id == request_id(doc)
                && params.model() == request_params(doc) && forall|i: int|
                registry.named_at(i, name) ==> (#[trigger] registry.entries@[i]).1 == handler
        } else {
            r matches Routed::Answer(resp) && resp.refuses(
                request_id(doc),
                "UNKNOWN_COMMAND"@,
                "未知命令: "@ + name + "，使用 help 查看可用命令"@,
            )
        },
    }
}

/// What a request leads to: the handler of its command, or a refusal where there
/// is none.
pub fn route<H: Copy>(registry: &CommandRegistry<H>, request: Request) -> (r: Routed<H>)
    requires
        registry.wf(),
    ensures
        match request {
            Request::Answer(resp) => r == Routed::<H>::Answer(resp),
            Request::Command { id, cmd, params } => if registry.knows(cmd@) {
                r matches Routed::Run { handler, id: i, params: p } && i == id && p == params
                    && forall|k: int|
                    registry.named_at(k, cmd@) ==> (#[trigger] registry.entries@[k]).1 == handler
            } else {
                r matches Routed::Answer(resp) && resp.refuses(
                    id,
                    "UNKNOWN_COMMAND"@,
                    "未知命令: "@ + cmd@ + "，使用 help 查看可用命令"@,
                )
            },
        },
{
    match request {
        Request::Answer(resp) => Routed::Answer(resp),
        Request::Command { id, cmd, params } => match registry.dispatch(cmd.as_str()) {
            Some(handler) => Routed::Run { handler, id, params },
            None => Routed::Answer(
                ControlResponse::refused(id, ControlErrorDetail::unknown_command(cmd.as_str())),
            ),
        },
    }
}

/// What the bytes of one message lead to; nothing where there are none.
pub fn handle_connection<H: Copy>(registry: &CommandRegistry<H>, bytes: Vec<u8>) -> (r: Option<
    Routed<H>,
>)
    requires
        registry.wf(),
    ensures
        r is None <==> bytes@.len() == 0,
        r matches Some(routed) ==> match json_reading(bytes@) {
            Ok(doc) => leads_to(*registry, doc, routed),
            Err(e) => routed matches Routed::Answer(resp) && resp.refuses(
                0,
                "INVALID_JSON"@,
                "无效的 JSON: "@ + e,
            ),
        },
{
    if bytes.len() == 0 {
        return None;
    }
    Some(route(registry, read_request(bytes)))
}

// ---------------------------------------------------------------------------
// status, reload-config, shutdown, help
// ---------------------------------------------------------------------------

/// Answers `status`.
pub fn handle_status(id: u64, status: RuntimeStatus) -> (r: ControlResponse)
    ensures
        r.grants(id, ControlData::Status(status)),
{
    ControlResponse::granted(id, ControlData::Status(status))
}

/// Answers `reload-config`, from what came of loading the settings: settings
/// that do not pass their checks are refused with all complaints.
pub fn handle_reload_config(id: u64, loaded: Result<RuntimeConfig, RuntimeError>) -> (r: Result<
    ControlResponse,
    RuntimeError,
>)
    ensures
        match loaded {
            Err(e) => r matches Err(RuntimeError::Config(s)) && s@ == e.text(),
            Ok(cfg) => if complaints(cfg).len() > 0 {
                r matches Ok(resp) && resp.refuses(
                    id,
                    "VALIDATION_ERROR"@,
                    joined(complaints(cfg), "; "@),
                )
            } else {
                r matches Ok(resp) && resp.grants(
                    id,
                    (ControlData::Config {
                        log_level: cfg.log_level,
                        data_dir: cfg.data_dir,
                        admin_users: cfg.admin_users,
                    }),
                )
            },
        },
{
    match loaded {
        Err(e) => Err(RuntimeError::Config(e.message())),
        Ok(cfg) => {
            let errors = validate_runtime(&cfg);
            if errors.len() > 0 {
                assert(texts(errors@).len() == errors@.len());
                let msg = join(&errors, "; ");
                Ok(
                    ControlResponse::refused(id, ControlErrorDetail::new("VALIDATION_ERROR", msg)),
                )
            } else {
                assert(texts(errors@).len() == 0);
                Ok(
                    ControlResponse::granted(
                        id,
                        ControlData::Config {
                            log_level: cfg.log_level,
                            data_dir: cfg.data_dir,
                            admin_users: cfg.admin_users,
                        },
                    ),
                )
            }
        },
    }
}

/// Answers `shutdown`.
pub fn handle_shutdown(id: u64) -> (r: ControlResponse)
    ensures
        r.id == id && r.ok && r.error is None,
        r.data matches Some(ControlData::Message(s)) && s@ == "关停信号已发送"@,
{
    ControlResponse::granted(id, ControlData::Message(owned("关停信号已发送")))
}

/// Answers `help`.
pub fn handle_help<H: Copy>(id: u64, registry: &CommandRegistry<H>) -> (r: ControlResponse)
    ensures
        r.id == id && r.ok && r.error is None,
        r.data matches Some(ControlData::Commands(list)) && list@.len()
            == registry.entries@.len() && forall|i: int|
            0 <= i < list@.len() ==> #[trigger] list@[i] == registry.entries@[i].0,
{
    ControlResponse::granted(id, ControlData::Commands(registry.descriptions()))
}

// ---------------------------------------------------------------------------
// state-set
// ---------------------------------------------------------------------------

/// What the storage says that `state-set` and `state-get` may ask, each answer
/// as it would come at the moment of asking, or the text of the failure.
#[derive(Debug)]
pub struct StateFacts {
    /// Whether the character exists.
    pub character: Result<bool, String>,
    /// Whether the conversation exists.
    pub conversation: Result<bool, String>,
    /// The state of the character as a whole.
    pub character_state: Result<Option<CharacterState>, String>,
    /// The state of the character in the conversation.
    pub conversation_state: Result<Option<ConversationState>, String>,
    /// The mood of the character in the conversation.
    pub mood: Result<Option<Mood>, String>,
}

/// A state to be stored.
#[derive(Debug)]
pub enum StateWrite {
    Character { character_id: i64, state: CharacterState },
    Conversation { character_id: i64, conversation_id: i64, levels: ConversationState },
    Mood { character_id: i64, conversation_id: i64, mood: Mood },
}

/// What a write stores.
pub enum StateWriteView {
    Character(i64, CharacterStateView),
    Conversation(i64, i64, ConversationState),
    Mood(i64, i64, Mood),
}

impl View for StateWrite {
    type V = StateWriteView;

    open spec fn view(&self) -> StateWriteView {
        match self {
            StateWrite::Character { character_id, state } => StateWriteView::Character(
                *character_id,
                state@,
            ),
            StateWrite::Conversation { character_id, conversation_id, levels } =>
                StateWriteView::Conversation(*character_id, *conversation_id, *levels),
            StateWrite::Mood { character_id, conversation_id, mood } => StateWriteView::Mood(
                *character_id,
                *conversation_id,
                *mood,
            ),
        }
    }
}

/// What becomes of a request: the states to be stored, in this order, and the
/// outcome once all of them are. Where storing one fails, the rest is dropped
/// and the outcome is that failure.
#[derive(Debug)]
pub struct StatePlan {
    pub writes: Vec<StateWrite>,
    pub outcome: Result<ControlResponse, RuntimeError>,
}

/// How a request ends.
pub enum Ending {
    /// Refused, with a code and a message.
    Refused(Seq<char>, Seq<char>),
    /// Broken off by an internal error of this text.
    Failed(Seq<char>),
    /// Granted, with a report.
    Granted(StateReportView),
}

/// What becomes of a request.
pub struct StatePlanView {
    pub writes: Seq<StateWriteView>,
    pub ending: Ending,
}

impl StatePlan {
    /// The plan for request `id` is this one.
    pub open spec fn shows(self, id: u64, plan: StatePlanView) -> bool {
        &&& self.writes@.len() == plan.writes.len()
        &&& forall|i: int| 0 <= i < plan.writes.len() ==> (#[trigger] self.writes@[i])@
            == plan.writes[i]
        &&& match plan.ending {
            Ending::Refused(code, message) => self.outcome matches Ok(resp) && resp.refuses(
                id,
                code,
                message,
            ),
            Ending::Failed(text) => self.outcome matches Err(RuntimeError::Internal(s)) && s@
                == text,
            Ending::Granted(report) => self.outcome matches Ok(resp) && resp.id == id && resp.ok
                && resp.error is None && (resp.data matches Some(ControlData::State(s)) && s@
                == report),
        }
    }

    fn refused(id: u64, code: &'static str, message: String) -> (r: StatePlan)
        ensures
            r.shows(
                id,
                (StatePlanView {
                    writes: Seq::empty(),
                    ending: Ending::Refused(code@, message@),
                }),
            ),
    {
        StatePlan {
            writes: Vec::new(),
            outcome: Ok(ControlResponse::refused(id, ControlErrorDetail::new(code, message))),
        }
    }

    fn failed(writes: Vec<StateWrite>, text: String) -> (r: StatePlan)
        ensures
            r.writes == writes,
            r.outcome matches Err(RuntimeError::Internal(s)) && s@ == text@,
    {
        StatePlan { writes, outcome: Err(RuntimeError::Internal(text)) }
    }

    fn granted(id: u64, writes: Vec<StateWrite>, report: StateReport) -> (r: StatePlan)
        ensures
            r.writes == writes,
            r.outcome matches Ok(resp) && resp.grants(id, ControlData::State(report)),
    {
        StatePlan { writes, outcome: Ok(ControlResponse::granted(id, ControlData::State(report))) }
    }
}

/// A plan that stores nothing.
pub open spec fn nothing_stored(ending: Ending) -> StatePlanView {
    StatePlanView { writes: Seq::empty(), ending }
}

/// The character that a request is about: a positive number.
pub open spec fn target_character(params: JsonView) -> Option<i64> {
    match params.signed_at("character_id"@) {
        Some(n) => if n > 0 {
            Some(n)
        } else {
            None
        },
        None => None,
    }
}

/// The conversation that a request is about: none where it gives none, `null` or
/// zero; an error where what it gives is no integer or is negative.
pub open spec fn target_conversation(params: JsonView) -> Result<Option<i64>, ()> {
    match params.field("conversation_id"@) {
        None => Ok(None),
        Some(JsonView::Null) => Ok(None),
        Some(v) => match v.signed() {
            None => Err(()),
            Some(n) => if n == 0 {
                Ok(None)
            } else if n > 0 {
                Ok(Some(n))
            } else {
                Err(())
            },
        },
    }
}

/// The request gives a state to be set.
pub open spec fn sets_something(params: JsonView) -> bool {
    params.has("mood"@) || params.has("energy"@) || params.has("stress"@) || params.has(
        "activity"@,
    )
}

/// A level after a request: as given, as before where none is given; an error
/// where what is given is no number.
pub open spec fn level_after(params: JsonView, key: Seq<char>, before: Scalar) -> Option<Scalar> {
    match params.field(key) {
        None => Some(before),
        Some(v) => v.double(),
    }
}

/// The activity after a request: as given, none for `null`, as before where none
/// is given; an error where what is given is no text.
pub open spec fn activity_after(params: JsonView, before: Option<Seq<char>>) -> Option<
    Option<Seq<char>>,
> {
    match params.field("activity"@) {
        None => Some(before),
        Some(JsonView::Null) => Some(None),
        Some(JsonView::Text(s)) => Some(Some(s)),
        Some(_) => None,
    }
}

/// The stored character state, or a fresh one.
pub open spec fn state_or_fresh(s: Option<CharacterState>, now: Timestamp) -> CharacterStateView {
    match s {
        Some(t) => t@,
        None => CharacterStateView::fresh(now),
    }
}

/// The stored conversation state, or a fresh one.
pub open spec fn conversation_or_fresh(
    s: Option<ConversationState>,
    now: Timestamp,
) -> ConversationState {
    match s {
        Some(t) => t,
        None => ConversationState::fresh(now),
    }
}

/// The stored mood, or a fresh one.
pub open spec fn mood_or_fresh(m: Option<Mood>, now: Timestamp) -> Mood {
    match m {
        Some(t) => t,
        None => Mood::fresh(now),
    }
}

/// What becomes of setting the state of a character as a whole.
pub open spec fn set_character(
    character_id: i64,
    params: JsonView,
    stored: Result<Option<CharacterState>, String>,
    now: Timestamp,
) -> StatePlanView {
    match stored {
        Err(e) => nothing_stored(Ending::Failed(e@)),
        Ok(s) => {
            let before = state_or_fresh(s, now);
            match (
                level_after(params, "energy"@, before.energy),
                level_after(params, "stress"@, before.stress),
                activity_after(params, before.current_activity),
            ) {
                (None, _, _) => nothing_stored(Ending::Failed("energy 必须是数字"@)),
                (_, None, _) => nothing_stored(Ending::Failed("stress 必须是数字"@)),
                (_, _, None) => nothing_stored(Ending::Failed("activity 必须是字符串"@)),
                (Some(energy), Some(stress), Some(activity)) => {
                    let after = CharacterStateView {
                        energy,
                        stress,
                        current_activity: activity,
                        ..before
                    }.bounded();
                    StatePlanView {
                        writes: seq![StateWriteView::Character(character_id, after)],
                        ending: Ending::Granted(
                            StateReportView {
                                character_id,
                                conversation_id: None,
                                character_state: Some(Some(after)),
                                conversation_state: None,
                                mood: None,
                            },
                        ),
                    }
                },
            }
        },
    }
}

/// What becomes of setting energy and stress in a conversation: the new state,
/// nothing where neither is given, or the text of the failure.
pub open spec fn set_levels(
    params: JsonView,
    stored: Result<Option<ConversationState>, String>,
    now: Timestamp,
) -> Result<Option<ConversationState>, Seq<char>> {
    if !(params.has("energy"@) || params.has("stress"@)) {
        Ok(None)
    } else {
        match stored {
            Err(e) => Err(e@),
            Ok(s) => {
                let before = conversation_or_fresh(s, now);
                match (
                    level_after(params, "energy"@, before.energy),
                    level_after(params, "stress"@, before.stress),
                ) {
                    (None, _) => Err("energy 必须是数字"@),
                    (_, None) => Err("stress 必须是数字"@),
                    (Some(energy), Some(stress)) => Ok(
                        Some(
                            ConversationState {
                                energy,
                                stress,
                                last_updated: before.last_updated,
                            }.bounded(),
                        ),
                    ),
                }
            },
        }
    }
}

/// What becomes of setting the mood in a conversation.
pub open spec fn set_mood(
    params: JsonView,
    stored: Result<Option<Mood>, String>,
    now: Timestamp,
) -> Result<Option<Mood>, Seq<char>> {
    match params.field("mood"@) {
        None => Ok(None),
        Some(v) => match v.double() {
            None => Err("mood 必须是数字"@),
            Some(value) => match stored {
                Err(e) => Err(e@),
                Ok(m) => Ok(
                    Some(
                        Mood { value, last_updated: mood_or_fresh(m, now).last_updated }.bounded(),
                    ),
                ),
            },
        },
    }
}

/// What becomes of setting the state of a character in a conversation. The levels
/// are stored before the mood is looked at.
pub open spec fn set_conversation(
    character_id: i64,
    conversation_id: i64,
    params: JsonView,
    facts: StateFacts,
    now: Timestamp,
) -> StatePlanView {
    match set_levels(params, facts.conversation_state, now) {
        Err(text) => nothing_stored(Ending::Failed(text)),
        Ok(levels) => {
            let first = match levels {
                Some(state) => seq![
                    StateWriteView::Conversation(character_id, conversation_id, state),
                ],
                None => Seq::empty(),
            };
            match set_mood(params, facts.mood, now) {
                Err(text) => StatePlanView { writes: first, ending: Ending::Failed(text) },
                Ok(mood) => StatePlanView {
                    writes: match mood {
                        Some(m) => first.push(
                            StateWriteView::Mood(character_id, conversation_id, m),
                        ),
                        None => first,
                    },
                    ending: Ending::Granted(
                        StateReportView {
                            character_id,
                            conversation_id: Some(conversation_id),
                            character_state: None,
                            conversation_state: match levels {
                                Some(state) => Some(Some(state)),
                                None => None,
                            },
                            mood: match mood {
                                Some(m) => Some(Some(m)),
                                None => None,
                            },
                        },
                    ),
                },
            }
        },
    }
}

/// What becomes of a `state-set` request.
pub open spec fn state_set(params: JsonView, facts: StateFacts, now: Timestamp) -> StatePlanView {
    if !(params is Object) {
        nothing_stored(Ending::Refused("INVALID_PARAMS"@, "params 必须是 JSON 对象"@))
    } else if target_character(params) is None {
        nothing_stored(Ending::Refused("INVALID_PARAMS"@, "缺少或非法参数 character_id"@))
    } else if !sets_something(params) {
        nothing_stored(
            Ending::Refused(
                "INVALID_PARAMS"@,
                "至少提供一个字段：mood / energy / stress / activity"@,
            ),
        )
    } else {
        let character_id = target_character(params)->0;
        match facts.character {
            Err(e) => nothing_stored(Ending::Failed(e@)),
            Ok(false) => nothing_stored(
                Ending::Refused(
                    "CHARACTER_NOT_FOUND"@,
                    "角色不存在："@ + integer_text(character_id as int),
                ),
            ),
            Ok(true) => match target_conversation(params) {
                Err(_) => nothing_stored(
                    Ending::Refused("INVALID_PARAMS"@, "非法参数 conversation_id"@),
                ),
                Ok(None) => if params.has("mood"@) {
                    nothing_stored(
                        Ending::Refused(
                            "MOOD_REQUIRES_CONVERSATION"@,
                            "mood 属于 Character × Conversation 范围，必须提供 conversation_id"@,
                        ),
                    )
                } else {
                    set_character(character_id, params, facts.character_state, now)
                },
                Ok(Some(conversation_id)) => if params.has("activity"@) {
                    nothing_stored(
                        Ending::Refused(
                            "SCOPED_ACTIVITY_UNSUPPORTED"@,
                            "activity 当前仅存在于全局 Character State；会话级 activity 模型未定义"@,
                        ),
                    )
                } else {
                    match facts.conversation {
                        Err(e) => nothing_stored(Ending::Failed(e@)),
                        Ok(false) => nothing_stored(
                            Ending::Refused(
                                "CONVERSATION_NOT_FOUND"@,
                                "会话不存在："@ + integer_text(conversation_id as int),
                            ),
                        ),
                        Ok(true) => set_conversation(
                            character_id,
                            conversation_id,
                            params,
                            facts,
                            now,
                        ),
                    }
                },
            },
        }
    }
}

/// The character that a request is about.
pub fn requested_character(params: &Json) -> (r: Option<i64>)
    ensures
        r == target_character(params.model()),
{
    match params.i64_at("character_id") {
        Some(n) => if n > 0 {
            Some(n)
        } else {
            None
        },
        None => None,
    }
}

/// The conversation that a request is about.
pub fn requested_conversation(params: &Json) -> (r: Result<Option<i64>, ()>)
    ensures
        r == target_conversation(params.model()),
{
    match params.get("conversation_id") {
        None => Ok(None),
        Some(v) => match v.as_i64() {
            None => if v.is_null() {
                Ok(None)
            } else {
                Err(())
            },
            Some(n) => if n == 0 {
                Ok(None)
            } else if n > 0 {
                Ok(Some(n))
            } else {
                Err(())
            },
        },
    }
}

fn new_level(params: &Json, key: &str, before: Scalar) -> (r: Option<Scalar>)
    ensures
        r == level_after(params.model(), key@, before),
{
    match params.get(key) {
        None => Some(before),
        Some(v) => v.as_double(),
    }
}

fn plan_character(
    id: u64,
    character_id: i64,
    params: &Json,
    stored: Result<Option<CharacterState>, String>,
    now: Timestamp,
) -> (r: StatePlan)
    ensures
        r.shows(id, set_character(character_id, params.model(), stored, now)),
{
    let mut state = match stored {
        Err(e) => {
            return StatePlan::failed(Vec::new(), e);
        },
        Ok(Some(s)) => s,
        Ok(None) => CharacterState::default_at(now),
    };
    let ghost before = state@;
    let energy = match new_level(params, "energy", state.energy) {
        Some(x) => x,
        None => {
            return StatePlan::failed(Vec::new(), owned("energy 必须是数字"));
        },
    };
    let stress = match new_level(params, "stress", state.stress) {
        Some(x) => x,
        None => {
            return StatePlan::failed(Vec::new(), owned("stress 必须是数字"));
        },
    };
    if let Some(v) = params.get("activity") {
        match v {
            Json::Null => {
                state.current_activity = None;
            },
            Json::Text(s) => {
                state.current_activity = Some(s.clone());
            },
            _ => {
                return StatePlan::failed(Vec::new(), owned("activity 必须是字符串"));
            },
        }
    }
    state.energy = energy;
    state.stress = stress;
    let state = state.clamped();
    let report = StateReport {
        character_id,
        conversation_id: None,
        character_state: Some(Some(state.duplicate())),
        conversation_state: None,
        mood: None,
    };
    let mut writes: Vec<StateWrite> = Vec::new();
    writes.push(StateWrite::Character { character_id, state });
    StatePlan::granted(id, writes, report)
}

fn plan_levels(
    params: &Json,
    stored: Result<Option<ConversationState>, String>,
    now: Timestamp,
) -> (r: Result<Option<ConversationState>, String>)
    ensures
        match (r, set_levels(params.model(), stored, now)) {
            (Ok(a), Ok(b)) => a == b,
            (Err(a), Err(b)) => a@ == b,
            _ => false,
        },
{
    if !(params.has_key("energy") || params.has_key("stress")) {
        return Ok(None);
    }
    let before = match stored {
        Err(e) => {
            return Err(e);
        },
        Ok(Some(s)) => s,
        Ok(None) => ConversationState::default_at(now),
    };
    let energy = match new_level(params, "energy", before.energy) {
        Some(x) => x,
        None => {
            return Err(owned("energy 必须是数字"));
        },
    };
    let stress = match new_level(params, "stress", before.stress) {
        Some(x) => x,
        None => {
            return Err(owned("stress 必须是数字"));
        },
    };
    Ok(Some(ConversationState { energy, stress, last_updated: before.last_updated }.clamped()))
}

fn plan_mood(params: &Json, stored: Result<Option<Mood>, String>, now: Timestamp) -> (r: Result<
    Option<Mood>,
    String,
>)
    ensures
        match (r, set_mood(params.model(), stored, now)) {
            (Ok(a), Ok(b)) => a == b,
            (Err(a), Err(b)) => a@ == b,
            _ => false,
        },
{
    match params.get("mood") {
        None => Ok(None),
        Some(v) => match v.as_double() {
            None => Err(owned("mood 必须是数字")),
            Some(value) => {
                let before = match stored {
                    Err(e) => {
                        return Err(e);
                    },
                    Ok(Some(m)) => m,
                    Ok(None) => Mood::default_at(now),
                };
                Ok(Some(Mood { value, last_updated: before.last_updated }.clamped()))
            },
        },
    }
}

fn plan_conversation(
    id: u64,
    character_id: i64,
    conversation_id: i64,
    params: &Json,
    facts: StateFacts,
    now: Timestamp,
) -> (r: StatePlan)
    ensures
        r.shows(id, set_conversation(character_id, conversation_id, params.model(), facts, now)),
{
    let mut writes: Vec<StateWrite> = Vec::new();
    let levels = match plan_levels(params, facts.conversation_state, now) {
        Err(text) => {
            return StatePlan::failed(writes, text);
        },
        Ok(levels) => levels,
    };
    if let Some(state) = levels {
        writes.push(StateWrite::Conversation { character_id, conversation_id, levels: state });
    }
    let mood = match plan_mood(params, facts.mood, now) {
        Err(text) => {
            return StatePlan::failed(writes, text);
        },
        Ok(mood) => mood,
    };
    if let Some(m) = mood {
        writes.push(StateWrite::Mood { character_id, conversation_id, mood: m });
    }
    let report = StateReport {
        character_id,
        conversation_id: Some(conversation_id),
        character_state: None,
        conversation_state: match levels {
            Some(state) => Some(Some(state)),
            None => None,
        },
        mood: match mood {
            Some(m) => Some(Some(m)),
            None => None,
        },
    };
    StatePlan::granted(id, writes, report)
}

/// Decides a `state-set` request: what is stored, and what is answered.
pub fn handle_state_set(id: u64, params: &Json, facts: StateFacts, now: Timestamp) -> (r: StatePlan)
    ensures
        r.shows(id, state_set(params.model(), facts, now)),
{
    if !params.is_object() {
        return StatePlan::refused(id, "INVALID_PARAMS", owned("params 必须是 JSON 对象"));
    }
    let character_id = match requested_character(params) {
        Some(n) => n,
        None => {
            return StatePlan::refused(id, "INVALID_PARAMS", owned("缺少或非法参数 character_id"));
        },
    };
    if !(params.has_key("mood") || params.has_key("energy") || params.has_key("stress")
        || params.has_key("activity")) {
        return StatePlan::refused(
            id,
            "INVALID_PARAMS",
            owned("至少提供一个字段：mood / energy / stress / activity"),
        );
    }
    match facts.character {
        Err(e) => {
            return StatePlan::failed(Vec::new(), e);
        },
        Ok(exists) => {
            if !exists {
                return StatePlan::refused(
                    id,
                    "CHARACTER_NOT_FOUND",
                    concat("角色不存在：", i64_text(character_id).as_str()),
                );
            }
        },
    }
    match requested_conversation(params) {
        Err(_) => StatePlan::refused(id, "INVALID_PARAMS", owned("非法参数 conversation_id")),
        Ok(None) => {
            if params.has_key("mood") {
                return StatePlan::refused(
                    id,
                    "MOOD_REQUIRES_CONVERSATION",
                    owned("mood 属于 Character × Conversation 范围，必须提供 conversation_id"),
                );
            }
            plan_character(id, character_id, params, facts.character_state, now)
        },
        Ok(Some(conversation_id)) => {
            if params.has_key("activity") {
                return StatePlan::refused(
                    id,
                    "SCOPED_ACTIVITY_UNSUPPORTED",
                    owned("activity 当前仅存在于全局 Character State；会话级 activity 模型未定义"),
                );
            }
            match facts.conversation {
                Err(e) => StatePlan::failed(Vec::new(), e),
                Ok(exists) => {
                    if !exists {
                        return StatePlan::refused(
                            id,
                            "CONVERSATION_NOT_FOUND",
                            concat("会话不存在：", i64_text(conversation_id).as_str()),
                        );
                    }
                    plan_conversation(id, character_id, conversation_id, params, facts, now)
                },
            }
        },
    }
}

// ---------------------------------------------------------------------------
// state-get
// ---------------------------------------------------------------------------

/// What is reported of a character, and of its part in a conversation where one is
/// named; both exist.
pub open spec fn report_states(
    character_id: i64,
    conversation_id: Option<i64>,
    facts: StateFacts,
) -> Ending {
    match (conversation_id, facts.character_state) {
        (_, Err(e)) => Ending::Failed(e@),
        (None, Ok(state)) => Ending::Granted(
            StateReportView {
                character_id,
                conversation_id: None,
                character_state: Some(state_of(state)),
                conversation_state: None,
                mood: None,
            },
        ),
        (Some(c), Ok(state)) => match (facts.conversation_state, facts.mood) {
            (Err(e), _) => Ending::Failed(e@),
            (_, Err(e)) => Ending::Failed(e@),
            (Ok(levels), Ok(mood)) => Ending::Granted(
                StateReportView {
                    character_id,
                    conversation_id: Some(c),
                    character_state: Some(state_of(state)),
                    conversation_state: Some(levels),
                    mood: Some(mood),
                },
            ),
        },
    }
}

/// What becomes of a `state-get` request. Nothing is ever stored.
pub open spec fn state_get(params: JsonView, facts: StateFacts) -> Ending {
    if !(params is Object) {
        Ending::Refused("INVALID_PARAMS"@, "params 必须是 JSON 对象"@)
    } else if target_character(params) is None {
        Ending::Refused("INVALID_PARAMS"@, "缺少或非法参数 character_id"@)
    } else {
        let character_id = target_character(params)->0;
        match (target_conversation(params), facts.character) {
            (Err(_), _) => Ending::Refused("INVALID_PARAMS"@, "非法参数 conversation_id"@),
            (_, Err(e)) => Ending::Failed(e@),
            (_, Ok(false)) => Ending::Refused(
                "CHARACTER_NOT_FOUND"@,
                "角色不存在："@ + integer_text(character_id as int),
            ),
            (Ok(None), Ok(true)) => report_states(character_id, None, facts),
            (Ok(Some(conversation_id)), Ok(true)) => match facts.conversation {
                Err(e) => Ending::Failed(e@),
                Ok(false) => Ending::Refused(
                    "CONVERSATION_NOT_FOUND"@,
                    "会话不存在："@ + integer_text(conversation_id as int),
                ),
                Ok(true) => report_states(character_id, Some(conversation_id), facts),
            },
        }
    }
}

/// Decides a `state-get` request.
pub fn handle_state_get(id: u64, params: &Json, facts: StateFacts) -> (r: StatePlan)
    ensures
        r.shows(id, nothing_stored(state_get(params.model(), facts))),
{
    if !params.is_object() {
        return StatePlan::refused(id, "INVALID_PARAMS", owned("params 必须是 JSON 对象"));
    }
    let character_id = match requested_character(params) {
        Some(n) => n,
        None => {
            return StatePlan::refused(id, "INVALID_PARAMS", owned("缺少或非法参数 character_id"));
        },
    };
    let conversation_id = match requested_conversation(params) {
        Err(_) => {
            return StatePlan::refused(id, "INVALID_PARAMS", owned("非法参数 conversation_id"));
        },
        Ok(c) => c,
    };
    match facts.character {
        Err(e) => {
            return StatePlan::failed(Vec::new(), e);
        },
        Ok(exists) => {
            if !exists {
                return StatePlan::refused(
                    id,
                    "CHARACTER_NOT_FOUND",
                    concat("角色不存在：", i64_text(character_id).as_str()),
                );
            }
        },
    }
    if let Some(c) = conversation_id {
        match facts.conversation {
            Err(e) => {
                return StatePlan::failed(Vec::new(), e);
            },
            Ok(exists) => {
                if !exists {
                    return StatePlan::refused(
                        id,
                        "CONVERSATION_NOT_FOUND",
                        concat("会话不存在：", i64_text(c).as_str()),
                    );
                }
            },
        }
    }
    let mut report = StateReport {
        character_id,
        conversation_id: None,
        character_state: None,
        conversation_state: None,
        mood: None,
    };
    match facts.character_state {
        Err(e) => {
            return StatePlan::failed(Vec::new(), e);
        },
        Ok(state) => {
            report.character_state = Some(state);
        },
    }
    if let Some(c) = conversation_id {
        report.conversation_id = Some(c);
        match facts.conversation_state {
            Err(e) => {
                return StatePlan::failed(Vec::new(), e);
            },
            Ok(levels) => {
                report.conversation_state = Some(levels);
            },
        }
        match facts.mood {
            Err(e) => {
                return StatePlan::failed(Vec::new(), e);
            },
            Ok(mood) => {
                report.mood = Some(mood);
            },
        }
    }
    StatePlan::granted(id, Vec::new(), report)
}

// ---------------------------------------------------------------------------
// Laws
// ---------------------------------------------------------------------------

/// Nothing is stored for a character or a conversation that does not exist: what
/// `state-set` stores belongs to the character and the conversation that the
/// request names, and both exist.
pub proof fn no_orphan_states(params: JsonView, facts: StateFacts, now: Timestamp, i: int)
    requires
        0 <= i < state_set(params, facts, now).writes.len(),
    ensures
        facts.character == Ok::<bool, String>(true),
        match state_set(params, facts, now).writes[i] {
            StateWriteView::Character(character_id, _) => Some(character_id) == target_character(
                params,
            ) && target_conversation(params) == Ok::<Option<i64>, ()>(None),
            StateWriteView::Conversation(character_id, conversation_id, _) => Some(character_id)
                == target_character(params) && target_conversation(params) == Ok::<
                Option<i64>,
                (),
            >(Some(conversation_id)) && facts.conversation == Ok::<bool, String>(true),
            StateWriteView::Mood(character_id, conversation_id, _) => Some(character_id)
                == target_character(params) && target_conversation(params) == Ok::<
                Option<i64>,
                (),
            >(Some(conversation_id)) && facts.conversation == Ok::<bool, String>(true),
        },
{
}

/// With a conversation given, whatever it is given as, the state of the character
/// as a whole is never written. `null` and zero give none.
pub proof fn a_given_conversation_spares_the_whole(
    params: JsonView,
    facts: StateFacts,
    now: Timestamp,
    i: int,
)
    requires
        params.field("conversation_id"@) matches Some(v) && !(v is Null) && v.signed() != Some(0i64),
        0 <= i < state_set(params, facts, now).writes.len(),
    ensures
        !(state_set(params, facts, now).writes[i] is Character),
{
}

/// Neither command grants anything on a character that does not exist, nor on a
/// conversation that does not exist.
pub proof fn nothing_is_granted_on_the_missing(
    params: JsonView,
    facts: StateFacts,
    now: Timestamp,
)
    requires
        facts.character != Ok::<bool, String>(true) || (target_conversation(params) matches Ok(
            Some(_),
        ) && facts.conversation != Ok::<bool, String>(true)),
    ensures
        !(state_set(params, facts, now).ending is Granted),
        !(state_get(params, facts) is Granted),
{
}

/// A refused request stores nothing.
pub proof fn refused_requests_store_nothing(params: JsonView, facts: StateFacts, now: Timestamp)
    ensures
        state_set(params, facts, now).ending is Refused ==> state_set(
            params,
            facts,
            now,
        ).writes.len() == 0,
{
}

/// What is stored is within bounds: storing it bounded once more would change
/// nothing.
pub proof fn stored_levels_are_bounded(
    params: JsonView,
    facts: StateFacts,
    now: Timestamp,
    i: int,
)
    requires
        0 <= i < state_set(params, facts, now).writes.len(),
    ensures
        match state_set(params, facts, now).writes[i] {
            StateWriteView::Character(_, state) => state.bounded() == state,
            StateWriteView::Conversation(_, _, state) => state.bounded() == state,
            StateWriteView::Mood(_, _, mood) => mood.bounded() == mood,
        },
{
}

/// The storage holds what a write stored.
pub open spec fn holds(later: StateFacts, w: StateWriteView) -> bool {
    match w {
        StateWriteView::Character(_, state) => later.character_state matches Ok(Some(s)) && s@
            == state,
        StateWriteView::Conversation(_, _, state) => later.conversation_state == Ok::<
            Option<ConversationState>,
            String,
        >(Some(state)),
        StateWriteView::Mood(_, _, mood) => later.mood == Ok::<Option<Mood>, String>(Some(mood)),
    }
}

/// What was set is what is read: where `state-set` was granted, `state-get` on a
/// storage that holds what was stored, and the character and the conversation
/// still, reports the same states.
pub proof fn reading_what_was_set(
    params: JsonView,
    facts: StateFacts,
    later: StateFacts,
    now: Timestamp,
)
    requires
        state_set(params, facts, now).ending is Granted,
        later.character == facts.character,
        later.conversation == facts.conversation,
        later.character_state is Ok,
        later.conversation_state is Ok,
        later.mood is Ok,
        forall|i: int|
            0 <= i < state_set(params, facts, now).writes.len() ==> #[trigger] holds(
                later,
                state_set(params, facts, now).writes[i],
            ),
    ensures
        state_get(params, later) is Granted,
        ({
            let set = state_set(params, facts, now).ending->Granted_0;
            let got = state_get(params, later)->Granted_0;
            &&& got.character_id == set.character_id
            &&& got.conversation_id == set.conversation_id
            &&& set.character_state is Some ==> got.character_state == set.character_state
            &&& set.conversation_state is Some ==> got.conversation_state == set.conversation_state
            &&& set.mood is Some ==> got.mood == set.mood
        }),
{
    let plan = state_set(params, facts, now);
    if plan.writes.len() > 0 {
        assert(holds(later, plan.writes[0]));
    }
    if plan.writes.len() > 1 {
        assert(holds(later, plan.writes[1]));
    }
}

/// The request names a positive number as its character, and no conversation: it
/// gives none, `null` or zero.
pub open spec fn names_the_whole(params: JsonView, character_id: i64) -> bool {
    &&& params.signed_at("character_id"@) == Some(character_id)
    &&& character_id > 0
    &&& params.field("conversation_id"@) is None || params.field("conversation_id"@) == Some(
        JsonView::Null,
    ) || params.signed_at("conversation_id"@) == Some(0i64)
}

/// The request names positive numbers as its character and its conversation.
pub open spec fn names_a_part(params: JsonView, character_id: i64, conversation_id: i64) -> bool {
    &&& params.signed_at("character_id"@) == Some(character_id)
    &&& character_id > 0
    &&& params.signed_at("conversation_id"@) == Some(conversation_id)
    &&& conversation_id > 0
}

/// A level between 0 and 100: the one that the request gives under this name, else
/// the one before.
pub open spec fn becomes(params: JsonView, key: Seq<char>, before: Scalar, after: Scalar) -> bool {
    let zero = Scalar { bits: 0 };
    let hundred = Scalar { bits: 0x4059_0000_0000_0000 };
    match params.field(key) {
        None => after == before.bounded(zero, hundred),
        Some(v) => v.double() matches Some(x) && after == x.bounded(zero, hundred),
    }
}

/// Setting the state of a character as a whole stores, once, the levels that are
/// given, within 0 and 100, with everything that is not given as it was; a text sets
/// the activity, and `null` clears it. The answer reports what was stored.
pub proof fn the_whole_is_set_as_given(
    id: u64,
    params: Json,
    facts: StateFacts,
    now: Timestamp,
    r: StatePlan,
    character_id: i64,
    before: CharacterState,
)
    requires
        call_ensures(handle_state_set, (id, &params, facts, now), r),
        params.model() is Object,
        names_the_whole(params.model(), character_id),
        params.model().field("energy"@) is Some || params.model().field("stress"@) is Some
            || params.model().field("activity"@) is Some,
        params.model().field("mood"@) is None,
        facts.character == Ok::<bool, String>(true),
        facts.character_state == Ok::<Option<CharacterState>, String>(Some(before)),
        params.model().field("energy"@) matches Some(v) ==> v.double() is Some,
        params.model().field("stress"@) matches Some(v) ==> v.double() is Some,
        params.model().field("activity"@) matches Some(v) ==> v is Text || v is Null,
    ensures
        r.writes@.len() == 1,
        r.writes@[0] matches StateWrite::Character { character_id: c, state } && {
            &&& c == character_id
            &&& becomes(params.model(), "energy"@, before.energy, state@.energy)
            &&& becomes(params.model(), "stress"@, before.stress, state@.stress)
            &&& state@.attention == before.attention.bounded(
                Scalar { bits: 0 },
                Scalar { bits: 0x4059_0000_0000_0000 },
            )
            &&& state@.current_activity == match params.model().field("activity"@) {
                Some(JsonView::Text(s)) => Some(s),
                Some(_) => None,
                None => before@.current_activity,
            }
            &&& state@.social_mood == before@.social_mood
            &&& state@.last_proactive_at == before@.last_proactive_at
        },
        r.outcome matches Ok(resp) && resp.id == id && resp.ok && resp.error is None && (
        resp.data matches Some(ControlData::State(report)) && report@.character_id == character_id
            && report@.conversation_id is None && report@.character_state == Some(
            Some(r.writes@[0]->state@),
        )),
{
    assert(r.writes@[0]@ == state_set(params.model(), facts, now).writes[0]);
}

/// Setting the state of a character in a conversation stores the levels, where one is
/// given, and the mood, where that is, within 0 and 100, and nothing of the character
/// as a whole.
pub proof fn a_part_is_set_as_given(
    id: u64,
    params: Json,
    facts: StateFacts,
    now: Timestamp,
    r: StatePlan,
    character_id: i64,
    conversation_id: i64,
    before: ConversationState,
    mood: Mood,
)
    requires
        call_ensures(handle_state_set, (id, &params, facts, now), r),
        params.model() is Object,
        names_a_part(params.model(), character_id, conversation_id),
        params.model().field("energy"@) is Some || params.model().field("stress"@) is Some
            || params.model().field("mood"@) is Some,
        params.model().field("activity"@) is None,
        facts.character == Ok::<bool, String>(true),
        facts.conversation == Ok::<bool, String>(true),
        facts.conversation_state == Ok::<Option<ConversationState>, String>(Some(before)),
        facts.mood == Ok::<Option<Mood>, String>(Some(mood)),
        params.model().field("energy"@) matches Some(v) ==> v.double() is Some,
        params.model().field("stress"@) matches Some(v) ==> v.double() is Some,
        params.model().field("mood"@) matches Some(v) ==> v.double() is Some,
    ensures
        ({
            let leveled = params.model().field("energy"@) is Some || params.model().field(
                "stress"@,
            ) is Some;
            let mooded = params.model().field("mood"@) is Some;
            &&& r.writes@.len() == if leveled && mooded {
                2int
            } else {
                1int
            }
            &&& leveled ==> (r.writes@[0] matches StateWrite::Conversation {
                character_id: c,
                conversation_id: d,
                levels,
            } && c == character_id && d == conversation_id && becomes(
                params.model(),
                "energy"@,
                before.energy,
                levels.energy,
            ) && becomes(params.model(), "stress"@, before.stress, levels.stress))
            &&& mooded ==> (r.writes@.last() matches StateWrite::Mood {
                character_id: c,
                conversation_id: d,
                mood: m,
            } && c == character_id && d == conversation_id && becomes(
                params.model(),
                "mood"@,
                mood.value,
                m.value,
            ))
            &&& r.outcome matches Ok(resp) && resp.id == id && resp.ok && resp.error is None && (
            resp.data matches Some(ControlData::State(report)) && report@.character_id
                == character_id && report@.conversation_id == Some(conversation_id)
                && report@.character_state is None && (report@.conversation_state is Some
                <==> leveled) && (report@.mood is Some <==> mooded))
        }),
{
    let plan = state_set(params.model(), facts, now);
    assert(r.writes@[0]@ == plan.writes[0]);
    assert(r.writes@[r.writes@.len() - 1]@ == plan.writes[plan.writes.len() - 1]);
}

/// A request to set states is refused where its parameters are no object or name no
/// positive character, where it sets nothing, where the character does not exist,
/// where the conversation is no integer or negative, where a mood is set without a
/// conversation or an activity with one, and where the conversation does not exist:
/// in this order, under these codes.
pub proof fn wrong_settings_are_refused(
    id: u64,
    params: Json,
    facts: StateFacts,
    now: Timestamp,
    r: StatePlan,
)
    requires
        call_ensures(handle_state_set, (id, &params, facts, now), r),
    ensures
        ({
            let p = params.model();
            let named = p is Object && p.signed_at("character_id"@) is Some && p.signed_at(
                "character_id"@,
            )->0 > 0;
            let something = p.field("mood"@) is Some || p.field("energy"@) is Some || p.field(
                "stress"@,
            ) is Some || p.field("activity"@) is Some;
            let found = named && something && facts.character == Ok::<bool, String>(true);
            let odd = p.field("conversation_id"@) is Some && p.field("conversation_id"@) != Some(
                JsonView::Null,
            ) && (p.signed_at("conversation_id"@) is None || p.signed_at("conversation_id"@)->0
                < 0);
            let scoped = !odd && p.signed_at("conversation_id"@) is Some && p.signed_at(
                "conversation_id"@,
            )->0 > 0;
            &&& !named || !something || (found && odd) ==> refused_with(r, id, "INVALID_PARAMS"@)
            &&& named && something && facts.character == Ok::<bool, String>(false)
                ==> refused_with(r, id, "CHARACTER_NOT_FOUND"@)
            &&& found && !odd && !scoped && p.field("mood"@) is Some ==> refused_with(
                r,
                id,
                "MOOD_REQUIRES_CONVERSATION"@,
            )
            &&& found && scoped && p.field("activity"@) is Some ==> refused_with(
                r,
                id,
                "SCOPED_ACTIVITY_UNSUPPORTED"@,
            )
            &&& found && scoped && p.field("activity"@) is None && facts.conversation == Ok::<
                bool,
                String,
            >(false) ==> refused_with(r, id, "CONVERSATION_NOT_FOUND"@)
        }),
{
}

/// The request of this number is refused with this code, and nothing is stored.
pub open spec fn refused_with(r: StatePlan, id: u64, code: Seq<char>) -> bool {
    &&& r.writes@.len() == 0
    &&& r.outcome is Ok
    &&& r.outcome->Ok_0.id == id
    &&& !r.outcome->Ok_0.ok
    &&& r.outcome->Ok_0.data is None
    &&& r.outcome->Ok_0.error is Some
    &&& r.outcome->Ok_0.error->0.code@ == code
}

/// Reading the state of a character reports what is stored of it, as a whole and,
/// where a conversation is named, in that conversation; it stores nothing, and it is
/// refused where what is named does not exist or is named wrongly.
pub proof fn states_are_read_as_stored(
    id: u64,
    params: Json,
    facts: StateFacts,
    r: StatePlan,
    character_id: i64,
    conversation_id: i64,
)
    requires
        call_ensures(handle_state_get, (id, &params, facts), r),
        params.model() is Object,
        facts.character is Ok,
        facts.conversation is Ok,
        facts.character_state is Ok,
        facts.conversation_state is Ok,
        facts.mood is Ok,
    ensures
        r.writes@.len() == 0,
        facts.character->Ok_0 && names_the_whole(params.model(), character_id) ==> (
        r.outcome matches Ok(resp) && resp.id == id && resp.ok && (resp.data matches Some(
            ControlData::State(report),
        ) && report@.character_id == character_id && report@.conversation_id is None
            && report@.character_state == Some(state_of(facts.character_state->Ok_0))
            && report@.conversation_state is None && report@.mood is None)),
        facts.character->Ok_0 && facts.conversation->Ok_0 && names_a_part(
            params.model(),
            character_id,
            conversation_id,
        ) ==> (r.outcome matches Ok(resp) && resp.id == id && resp.ok && (resp.data matches Some(
            ControlData::State(report),
        ) && report@.character_id == character_id && report@.conversation_id == Some(
            conversation_id,
        ) && report@.character_state == Some(state_of(facts.character_state->Ok_0))
            && report@.conversation_state == Some(facts.conversation_state->Ok_0) && report@.mood
            == Some(facts.mood->Ok_0))),
        !facts.character->Ok_0 && (names_the_whole(params.model(), character_id) || names_a_part(
            params.model(),
            character_id,
            conversation_id,
        )) ==> refused_with(r, id, "CHARACTER_NOT_FOUND"@),
        facts.character->Ok_0 && !facts.conversation->Ok_0 && names_a_part(
            params.model(),
            character_id,
            conversation_id,
        ) ==> refused_with(r, id, "CONVERSATION_NOT_FOUND"@),
        params.model().signed_at("character_id"@) is None || params.model().signed_at(
            "character_id"@,
        )->0 <= 0 ==> refused_with(r, id, "INVALID_PARAMS"@),
{
}

/// A request goes by its number, zero where it gives none, and hands its parameters
/// on, `null` where it gives none; one without the name of a command is refused.
pub proof fn requests_are_taken_apart(doc: Json, r: Request)
    requires
        call_ensures(interpret_request, (&doc,), r),
    ensures
        ({
            let number = if doc.model().field("id"@) is Some && doc.model().field(
                "id"@,
            )->0.unsigned() is Some {
                doc.model().field("id"@)->0.unsigned()->0
            } else {
                0
            };
            &&& doc.model().string_at("cmd"@) is Some ==> (r matches Request::Command {
                id,
                cmd,
                params,
            } && id == number && cmd@ == doc.model().string_at("cmd"@)->0 && (doc.model().field(
                "params"@,
            ) is Some ==> params.model() == doc.model().field("params"@)->0) && (
            doc.model().field("params"@) is None ==> params.model() is Null))
            &&& doc.model().string_at("cmd"@) is None ==> (r matches Request::Answer(resp)
                && resp.id == number && !resp.ok && resp.error is Some && resp.error->0.code@
                == "MISSING_CMD"@)
        }),
{
}

/// A command that is registered runs its own handler with the request's number and
/// parameters; one that is not is refused under the request's number.
pub proof fn commands_reach_their_handler<H: Copy>(
    registry: CommandRegistry<H>,
    id: u64,
    cmd: String,
    params: Json,
    r: Routed<H>,
    k: int,
)
    requires
        registry.wf(),
        call_ensures(
            route::<H>,
            (&registry, Request::Command { id, cmd, params }),
            r,
        ),
    ensures
        0 <= k < registry.entries@.len() && registry.entries@[k].0.name@ == cmd@ ==> r == (
        Routed::Run { handler: registry.entries@[k].1, id, params }),
        (forall|j: int|
            0 <= j < registry.entries@.len() ==> (#[trigger] registry.entries@[j]).0.name@ != cmd@)
            ==> (r matches Routed::Answer(resp) && resp.id == id && !resp.ok && resp.error is Some
            && resp.error->0.code@ == "UNKNOWN_COMMAND"@),
{
    if 0 <= k < registry.entries@.len() && registry.entries@[k].0.name@ == cmd@ {
        assert(registry.named_at(k, cmd@));
    }
    if registry.knows(cmd@) {
        let j = choose|j: int| registry.named_at(j, cmd@);
        assert(registry.entries@[j].0.name@ == cmd@);
    }
}

/// Of the commands that are always there each name runs its handler.
pub proof fn builtin_commands_run_their_handlers<H: Copy>(
    handlers: BuiltinHandlers<H>,
    registry: CommandRegistry<H>,
    id: u64,
    cmd: String,
    params: Json,
    r: Routed<H>,
)
    requires
        call_ensures(CommandRegistry::<H>::builtin, (handlers,), registry),
        call_ensures(
            route::<H>,
            (&registry, Request::Command { id, cmd, params }),
            r,
        ),
    ensures
        cmd@ == "status"@ ==> r == (Routed::Run { handler: handlers.status, id, params }),
        cmd@ == "reload-config"@ ==> r == (Routed::Run {
            handler: handlers.reload_config,
            id,
            params,
        }),
        cmd@ == "shutdown"@ ==> r == (Routed::Run { handler: handlers.shutdown, id, params }),
        cmd@ == "help"@ ==> r == (Routed::Run { handler: handlers.help, id, params }),
        cmd@ == "state-set"@ ==> r == (Routed::Run { handler: handlers.state_set, id, params }),
        cmd@ == "state-get"@ ==> r == (Routed::Run { handler: handlers.state_get, id, params }),
{
    assert(registry.wf());
    if cmd@ == "status"@ {
        commands_reach_their_handler(registry, id, cmd, params, r, 0);
    } else if cmd@ == "reload-config"@ {
        commands_reach_their_handler(registry, id, cmd, params, r, 1);
    } else if cmd@ == "shutdown"@ {
        commands_reach_their_handler(registry, id, cmd, params, r, 2);
    } else if cmd@ == "help"@ {
        commands_reach_their_handler(registry, id, cmd, params, r, 3);
    } else if cmd@ == "state-set"@ {
        commands_reach_their_handler(registry, id, cmd, params, r, 4);
    } else if cmd@ == "state-get"@ {
        commands_reach_their_handler(registry, id, cmd, params, r, 5);
    }
}

/// New settings are taken exactly where there is nothing to complain of, and every
/// complaint stands in the refusal.
pub proof fn reloaded_settings_are_checked(
    id: u64,
    cfg: RuntimeConfig,
    errors: Vec<String>,
    r: Result<ControlResponse, RuntimeError>,
    i: int,
)
    requires
        call_ensures(handle_reload_config, (id, Ok::<RuntimeConfig, RuntimeError>(cfg)), r),
        call_ensures(validate_runtime, (&cfg,), errors),
    ensures
        r matches Ok(resp) && {
            &&& resp.id == id
            &&& resp.ok <==> errors@.len() == 0
            &&& resp.ok ==> resp.data == Some(
                ControlData::Config {
                    log_level: cfg.log_level,
                    data_dir: cfg.data_dir,
                    admin_users: cfg.admin_users,
                },
            )
            &&& !resp.ok ==> resp.error is Some && resp.error->0.code@ == "VALIDATION_ERROR"@
            &&& 0 <= i < errors@.len() ==> crate::text::has_part(
                resp.error->0.message@,
                errors@[i]@,
            )
        },
{
    let all = texts(errors@);
    assert(all.len() == errors@.len());
    if 0 <= i < errors@.len() {
        assert(all[i] == errors@[i]@);
        crate::text::joining_keeps_every_part(all, "; "@, i);
    }
}

/// The simple commands are granted under the request's number, with what was asked.
pub proof fn simple_commands_are_granted<H: Copy>(
    id: u64,
    status: RuntimeStatus,
    registry: CommandRegistry<H>,
    a: ControlResponse,
    b: ControlResponse,
    c: ControlResponse,
)
    requires
        call_ensures(handle_status, (id, status), a),
        call_ensures(handle_shutdown, (id,), b),
        call_ensures(handle_help::<H>, (id, &registry), c),
    ensures
        a.id == id && a.ok && a.error is None && a.data == Some(ControlData::Status(status)),
        b.id == id && b.ok && b.error is None && b.data is Some,
        c.id == id && c.ok && c.error is None && (c.data matches Some(ControlData::Commands(list))
            && list@.len() == registry.entries@.len() && forall|i: int|
            0 <= i < list@.len() ==> (#[trigger] list@[i]).name == registry.entries@[i].0.name),
{
}

/// No bytes lead to nothing, bytes that are no JSON are refused under the number zero,
/// and a handler runs for the request that the bytes make.
pub proof fn bytes_lead_to_requests<H: Copy>(
    registry: CommandRegistry<H>,
    bytes: Vec<u8>,
    r: Option<Routed<H>>,
    request: Request,
    routed: Routed<H>,
)
    requires
        registry.wf(),
        call_ensures(handle_connection::<H>, (&registry, bytes), r),
        call_ensures(read_request, (bytes,), request),
        call_ensures(route::<H>, (&registry, request), routed),
    ensures
        bytes@.len() == 0 <==> r is None,
        json_reading(bytes@) is Err && bytes@.len() > 0 ==> (r matches Some(Routed::Answer(resp))
            && resp.id == 0 && !resp.ok && resp.error is Some && resp.error->0.code@
            == "INVALID_JSON"@),
        r matches Some(Routed::Run { handler, id, params }) ==> (routed matches Routed::Run {
            handler: h,
            id: i,
            params: p,
        } && h == handler && i == id && p.model() == params.model()),
{
    if let Some(Routed::Run { handler, id, params }) = r {
        let doc = json_reading(bytes@)->Ok_0;
        let name = doc.string_at("cmd"@)->0;
        let k = choose|k: int| registry.named_at(k, name);
        assert(registry.entries@[k].1 == handler);
    }
}

/// A failure of the storage breaks a request off with its text, and a level or an
/// activity of the wrong kind with one that names it; nothing is stored then, but for
/// the levels in a conversation where only the mood fails.
pub proof fn failures_break_off(
    id: u64,
    params: Json,
    facts: StateFacts,
    now: Timestamp,
    r: StatePlan,
    character_id: i64,
    conversation_id: i64,
)
    requires
        call_ensures(handle_state_set, (id, &params, facts, now), r),
        params.model() is Object,
        params.model().field("energy"@) is Some,
        names_the_whole(params.model(), character_id) || names_a_part(
            params.model(),
            character_id,
            conversation_id,
        ),
    ensures
        facts.character matches Err(e) ==> broken_off(r, e@),
        facts.character == Ok::<bool, String>(true) && names_the_whole(
            params.model(),
            character_id,
        ) && params.model().field("mood"@) is None ==> {
            &&& facts.character_state matches Err(e) ==> broken_off(r, e@)
            &&& facts.character_state is Ok && params.model().field("energy"@)->0.double() is None
                ==> broken_off(r, "energy 必须是数字"@)
        },
        facts.character == Ok::<bool, String>(true) && names_a_part(
            params.model(),
            character_id,
            conversation_id,
        ) && params.model().field("activity"@) is None ==> {
            &&& facts.conversation matches Err(e) ==> broken_off(r, e@)
            &&& facts.conversation == Ok::<bool, String>(true) && facts.conversation_state is Err
                ==> broken_off(r, facts.conversation_state->Err_0@)
            &&& facts.conversation == Ok::<bool, String>(true) && facts.conversation_state is Ok
                && params.model().field("energy"@)->0.double() is None ==> broken_off(
                r,
                "energy 必须是数字"@,
            )
        },
{
}

/// The request is broken off with this text, and nothing is stored.
pub open spec fn broken_off(r: StatePlan, text: Seq<char>) -> bool {
    &&& r.writes@.len() == 0
    &&& r.outcome is Err
    &&& r.outcome->Err_0 is Internal
    &&& r.outcome->Err_0->Internal_0@ == text
}

/// A command that is registered is found under its name with its handler, in the place
/// of one that had the name before; every other command is found as before.
pub proof fn registered_commands_are_found<H: Copy>(
    name: &'static str,
    description: &'static str,
    handler: H,
    other: Seq<char>,
    h: H,
)
    requires
        other != name@,
    ensures
        forall|k: &mut CommandRegistry<H>|
            #[trigger] call_ensures(
                CommandRegistry::<H>::register,
                (k, name, description, handler),
                (),
            ) && k.wf() ==> {
                &&& runs(*final(k), name@, handler)
                &&& runs(*k, other, h) <==> runs(*final(k), other, h)
            },
{
    assert forall|k: &mut CommandRegistry<H>|
        #[trigger] call_ensures(
            CommandRegistry::<H>::register,
            (k, name, description, handler),
            (),
        ) && k.wf() implies {
        &&& runs(*final(k), name@, handler)
        &&& runs(*k, other, h) <==> runs(*final(k), other, h)
    } by {
        let before = *k;
        let after = *final(k);
        let i = choose|i: int| after.named_at(i, name@);
        assert(after.named_at(i, name@));
        assert(after.entries@[i].0.name@ == name@ && after.entries@[i].1 == handler);
        if runs(before, other, h) {
            let j = choose|j: int|
                0 <= j < before.entries@.len() && (#[trigger] before.entries@[j]).0.name@ == other
                    && before.entries@[j].1 == h;
            assert(!before.named_at(j, name@));
            assert(after.entries@[j] == before.entries@[j]);
        }
        if runs(after, other, h) {
            let j = choose|j: int|
                0 <= j < after.entries@.len() && (#[trigger] after.entries@[j]).0.name@ == other
                    && after.entries@[j].1 == h;
            if before.knows(name@) {
                assert(before.named_at(i, name@)) by {
                    if !before.named_at(i, name@) {
                        assert(after.entries@[i] == before.entries@[i]);
                    }
                }
                assert(!before.named_at(j, name@)) by {
                    if before.named_at(j, name@) && i != j {
                        assert(before.entries@[i].0.name@ == before.entries@[j].0.name@);
                        assert(false);
                    }
                }
                assert(after.entries@[j] == before.entries@[j]);
            } else {
                assert(j < before.entries@.len());
            }
            assert(before.entries@[j].0.name@ == other);
        }
    }
}

/// A command of this name runs this handler.
pub open spec fn runs<H: Copy>(registry: CommandRegistry<H>, name: Seq<char>, handler: H) -> bool {
    exists|i: int|
        0 <= i < registry.entries@.len() && (#[trigger] registry.entries@[i]).0.name@ == name
            && registry.entries@[i].1 == handler
}

/// A request is about the character it names by a positive integer, and about the
/// conversation it names likewise; none, `null` and zero are no conversation, and
/// anything else is wrong.
pub proof fn what_requests_are_about(
    params: Json,
    c: Option<i64>,
    d: Result<Option<i64>, ()>,
)
    requires
        call_ensures(requested_character, (&params,), c),
        call_ensures(requested_conversation, (&params,), d),
    ensures
        ({
            let p = params.model();
            let n = p.signed_at("character_id"@);
            let m = p.signed_at("conversation_id"@);
            let absent = p.field("conversation_id"@) is None || p.field("conversation_id"@) == Some(
                JsonView::Null,
            );
            &&& n is Some && n->0 > 0 ==> c == n
            &&& n is None || n->0 <= 0 ==> c is None
            &&& absent || m == Some(0i64) ==> d == Ok::<Option<i64>, ()>(None)
            &&& m is Some && m->0 > 0 ==> d == Ok::<Option<i64>, ()>(m)
            &&& !absent && (m is None || m->0 < 0) ==> d is Err
        }),
{
}

/// What was never stored is set on top of a fresh state: of a character as a whole an
/// energy of 72 and a stress of 10, in a conversation an energy of 50 and a stress of
/// 10.
pub proof fn fresh_states_are_set_on_top(
    id: u64,
    params: Json,
    facts: StateFacts,
    now: Timestamp,
    r: StatePlan,
    character_id: i64,
    conversation_id: i64,
)
    requires
        call_ensures(handle_state_set, (id, &params, facts, now), r),
        params.model() is Object,
        params.model().field("energy"@) is Some || params.model().field("stress"@) is Some,
        params.model().field("mood"@) is None,
        params.model().field("activity"@) is None,
        params.model().field("energy"@) matches Some(v) ==> v.double() is Some,
        params.model().field("stress"@) matches Some(v) ==> v.double() is Some,
        facts.character == Ok::<bool, String>(true),
        facts.conversation == Ok::<bool, String>(true),
        facts.character_state == Ok::<Option<CharacterState>, String>(None),
        facts.conversation_state == Ok::<Option<ConversationState>, String>(None),
    ensures
        names_the_whole(params.model(), character_id) ==> r.writes@.len() == 1 && (
        r.writes@[0] matches StateWrite::Character { character_id: c, state } && c == character_id
            && becomes(
            params.model(),
            "energy"@,
            Scalar { bits: 0x4052_0000_0000_0000 },
            state@.energy,
        ) && becomes(
            params.model(),
            "stress"@,
            Scalar { bits: 0x4024_0000_0000_0000 },
            state@.stress,
        ) && state@.social_mood == Some("calm"@) && state@.current_activity is None),
        names_a_part(params.model(), character_id, conversation_id) ==> r.writes@.len() == 1 && (
        r.writes@[0] matches StateWrite::Conversation {
            character_id: c,
            conversation_id: d,
            levels,
        } && c == character_id && d == conversation_id && becomes(
            params.model(),
            "energy"@,
            Scalar { bits: 0x4049_0000_0000_0000 },
            levels.energy,
        ) && becomes(
            params.model(),
            "stress"@,
            Scalar { bits: 0x4024_0000_0000_0000 },
            levels.stress,
        )),
{
    let plan = state_set(params.model(), facts, now);
    if plan.writes.len() > 0 {
        assert(r.writes@[0]@ == plan.writes[0]);
    }
}

} // verus!
