//! What plugins may ask for: from the name of a method and its parameters to what
//! is to be done, and from what came of it to the answer.

use vstd::prelude::*;

use crate::application::llm_scheduler::{LlmMessage, LlmRole};
use crate::domain::character::{CharacterState, CharacterStateView};
use crate::domain::memory::{clamp_share, share, Memory, MemoryType, MemoryView};
use crate::domain::relationship::Relationship;
use crate::error::{RepositoryError, RuntimeError};
use crate::json::{Json, JsonView};
use crate::scalar::{within, Scalar, HALF, HUNDRED, ZERO};
use crate::text::{
    begins_with, concat, lowercase, owned, same_text, starts_with, texts, to_lowercase, trim,
    trimmed,
};
use crate::time::Timestamp;

verus! {

// ---------------------------------------------------------------------------
// Parameters
// ---------------------------------------------------------------------------

/// The outcome is this one, errors by their text.
pub open spec fn same_outcome<T>(r: Result<T, String>, m: Result<T, Seq<char>>) -> bool {
    match (r, m) {
        (Ok(a), Ok(b)) => a == b,
        (Err(e), Err(text)) => e@ == text,
        _ => false,
    }
}

/// The text of an outcome, and of its error.
pub open spec fn told(r: Result<String, String>) -> Result<Seq<char>, Seq<char>> {
    match r {
        Ok(s) => Ok(s@),
        Err(e) => Err(e@),
    }
}

/// The text of an outcome that may be missing, and of its error.
pub open spec fn told_if_any(r: Result<Option<String>, String>) -> Result<
    Option<Seq<char>>,
    Seq<char>,
> {
    match r {
        Ok(Some(s)) => Ok(Some(s@)),
        Ok(None) => Ok(None),
        Err(e) => Err(e@),
    }
}

/// A parameter that is given: neither missing nor `null`.
pub open spec fn given(params: JsonView, key: Seq<char>) -> Option<JsonView> {
    match params.field(key) {
        Some(v) => if v is Null {
            None
        } else {
            Some(v)
        },
        None => None,
    }
}

/// What is said of a parameter of the wrong kind.
pub open spec fn must_be(key: Seq<char>, kind: Seq<char>) -> Seq<char> {
    "参数 "@ + key + " 必须是"@ + kind
}

/// What is said of a parameter that is missing.
pub open spec fn missing(key: Seq<char>) -> Seq<char> {
    "缺少参数："@ + key
}

/// An integer, if one is given.
pub open spec fn i64_param(params: JsonView, key: Seq<char>) -> Result<Option<i64>, Seq<char>> {
    match given(params, key) {
        None => Ok(None),
        Some(v) => match v.signed() {
            Some(n) => Ok(Some(n)),
            None => Err(must_be(key, "整数"@)),
        },
    }
}

/// A number, if one is given.
pub open spec fn f64_param(params: JsonView, key: Seq<char>) -> Result<Option<Scalar>, Seq<char>> {
    match given(params, key) {
        None => Ok(None),
        Some(v) => match v.double() {
            Some(x) => Ok(Some(x)),
            None => Err(must_be(key, "数字"@)),
        },
    }
}

/// An integer below 256, if one is given.
pub open spec fn u8_param(params: JsonView, key: Seq<char>) -> Result<Option<u8>, Seq<char>> {
    match given(params, key) {
        None => Ok(None),
        Some(v) => match v.unsigned() {
            Some(n) if n <= 255 => Ok(Some(n as u8)),
            _ => Err(must_be(key, " 0..=255 的整数"@)),
        },
    }
}

/// A text, if one is given.
pub open spec fn str_param(params: JsonView, key: Seq<char>) -> Result<
    Option<Seq<char>>,
    Seq<char>,
> {
    match given(params, key) {
        None => Ok(None),
        Some(v) => match v.string() {
            Some(s) => Ok(Some(s)),
            None => Err(must_be(key, "字符串"@)),
        },
    }
}

/// An integer that must be given.
pub open spec fn i64_needed(params: JsonView, key: Seq<char>) -> Result<i64, Seq<char>> {
    match i64_param(params, key) {
        Ok(Some(n)) => Ok(n),
        Ok(None) => Err(missing(key)),
        Err(e) => Err(e),
    }
}

/// A text that must be given.
pub open spec fn str_needed(params: JsonView, key: Seq<char>) -> Result<Seq<char>, Seq<char>> {
    match str_param(params, key) {
        Ok(Some(s)) => Ok(s),
        Ok(None) => Err(missing(key)),
        Err(e) => Err(e),
    }
}

fn given_in<'a>(params: &'a Json, key: &str) -> (r: Option<&'a Json>)
    ensures
        match (r, given(params.model(), key@)) {
            (Some(v), Some(w)) => v.model() == w,
            (None, None) => true,
            _ => false,
        },
{
    match params.get(key) {
        Some(v) => if v.is_null() {
            None
        } else {
            Some(v)
        },
        None => None,
    }
}

fn wrong_kind(key: &str, kind: &str) -> (r: String)
    ensures
        r@ == must_be(key@, kind@),
{
    let head = concat("参数 ", key);
    let head = concat(head.as_str(), " 必须是");
    concat(head.as_str(), kind)
}

/// Reads an integer, if one is given.
pub fn optional_i64(params: &Json, key: &str) -> (r: Result<Option<i64>, String>)
    ensures
        same_outcome(r, i64_param(params.model(), key@)),
{
    match given_in(params, key) {
        None => Ok(None),
        Some(v) => match v.as_i64() {
            Some(n) => Ok(Some(n)),
            None => Err(wrong_kind(key, "整数")),
        },
    }
}

/// Reads a number, if one is given.
pub fn optional_f64(params: &Json, key: &str) -> (r: Result<Option<Scalar>, String>)
    ensures
        same_outcome(r, f64_param(params.model(), key@)),
{
    match given_in(params, key) {
        None => Ok(None),
        Some(v) => match v.as_double() {
            Some(x) => Ok(Some(x)),
            None => Err(wrong_kind(key, "数字")),
        },
    }
}

/// Reads an integer below 256, if one is given.
pub fn optional_u8(params: &Json, key: &str) -> (r: Result<Option<u8>, String>)
    ensures
        same_outcome(r, u8_param(params.model(), key@)),
{
    match given_in(params, key) {
        None => Ok(None),
        Some(v) => match v.as_u64() {
            Some(n) => if n <= 255 {
                Ok(Some(n as u8))
            } else {
                Err(wrong_kind(key, " 0..=255 的整数"))
            },
            None => Err(wrong_kind(key, " 0..=255 的整数")),
        },
    }
}

/// Reads a text, if one is given.
pub fn optional_str(params: &Json, key: &str) -> (r: Result<Option<String>, String>)
    ensures
        told_if_any(r) == str_param(params.model(), key@),
{
    match given_in(params, key) {
        None => Ok(None),
        Some(v) => match v.as_text() {
            Some(s) => Ok(Some(s.clone())),
            None => Err(wrong_kind(key, "字符串")),
        },
    }
}

/// Reads an integer that must be given.
pub fn require_i64(params: &Json, key: &str) -> (r: Result<i64, String>)
    ensures
        same_outcome(r, i64_needed(params.model(), key@)),
{
    match optional_i64(params, key) {
        Ok(Some(n)) => Ok(n),
        Ok(None) => Err(concat("缺少参数：", key)),
        Err(e) => Err(e),
    }
}

/// Reads a text that must be given.
pub fn require_str(params: &Json, key: &str) -> (r: Result<String, String>)
    ensures
        told(r) == str_needed(params.model(), key@),
{
    match optional_str(params, key) {
        Ok(Some(s)) => Ok(s),
        Ok(None) => Err(concat("缺少参数：", key)),
        Err(e) => Err(e),
    }
}

/// The kind of memory of this name, which is in lower case.
pub open spec fn memory_type_named(name: Seq<char>) -> Result<MemoryType, Seq<char>> {
    if name == "episodic"@ {
        Ok(MemoryType::Episodic)
    } else if name == "semantic"@ {
        Ok(MemoryType::Semantic)
    } else if name == "relationship"@ {
        Ok(MemoryType::Relationship)
    } else if name == "system"@ {
        Ok(MemoryType::System)
    } else {
        Err("未知记忆类型："@ + name)
    }
}

/// The kind of memory of a name in lower case.
pub fn memory_type_of(name: &str) -> (r: Result<MemoryType, String>)
    ensures
        same_outcome(r, memory_type_named(name@)),
{
    if same_text(name, "episodic") {
        Ok(MemoryType::Episodic)
    } else if same_text(name, "semantic") {
        Ok(MemoryType::Semantic)
    } else if same_text(name, "relationship") {
        Ok(MemoryType::Relationship)
    } else if same_text(name, "system") {
        Ok(MemoryType::System)
    } else {
        Err(concat("未知记忆类型：", name))
    }
}

/// Reads a kind of memory, whatever the case of its letters.
pub fn parse_memory_type(s: &str) -> (r: Result<MemoryType, String>)
    ensures
        same_outcome(r, memory_type_named(lowercase(trimmed(s@)))),
{
    let name = to_lowercase(trim(s).as_str());
    memory_type_of(name.as_str())
}

/// The role of this name, which is in lower case.
pub open spec fn role_named(name: Seq<char>) -> Result<LlmRole, Seq<char>> {
    if name == "user"@ {
        Ok(LlmRole::User)
    } else if name == "assistant"@ {
        Ok(LlmRole::Assistant)
    } else if name == "system"@ {
        Ok(LlmRole::System)
    } else {
        Err("未知消息角色："@ + name)
    }
}

/// The role of a name in lower case.
pub fn llm_role_of(name: &str) -> (r: Result<LlmRole, String>)
    ensures
        same_outcome(r, role_named(name@)),
{
    if same_text(name, "user") {
        Ok(LlmRole::User)
    } else if same_text(name, "assistant") {
        Ok(LlmRole::Assistant)
    } else if same_text(name, "system") {
        Ok(LlmRole::System)
    } else {
        Err(concat("未知消息角色：", name))
    }
}

/// Reads a role, whatever the case of its letters.
pub fn parse_llm_role(s: &str) -> (r: Result<LlmRole, String>)
    ensures
        same_outcome(r, role_named(lowercase(trimmed(s@)))),
{
    let name = to_lowercase(trim(s).as_str());
    llm_role_of(name.as_str())
}

// ---------------------------------------------------------------------------
// What is to be done
// ---------------------------------------------------------------------------

/// Which memories are asked for.
#[derive(Debug)]
pub enum MemoryFilter {
    /// Those that one of these words occurs in.
    Keywords(Vec<String>),
    /// Those of a kind, or all.
    Kind(Option<MemoryType>),
}

/// What is done to a plugin's own data.
#[derive(Debug)]
pub enum DataOp {
    Get { key: String },
    Put { key: String, value: Json },
    Delete { key: String },
    List,
}

/// A call of the language model.
#[derive(Debug)]
pub struct LlmCall {
    pub system: Option<String>,
    pub messages: Vec<LlmMessage>,
    pub priority: u8,
}

/// What a call of a plugin asks for.
#[derive(Debug)]
pub enum ApiPlan {
    /// Send a message to a conversation.
    Send { conversation_id: i64, content: String },
    /// Look up one character, or all.
    ReadCharacter(Option<i64>),
    /// Look up the state of a character.
    ReadState(i64),
    /// Change the state of a character.
    WriteState(i64),
    /// Look up memories, at most so many.
    ReadMemories { character_id: i64, limit: i64, filter: MemoryFilter },
    /// Store a memory.
    WriteMemory(Memory),
    /// Look up the relationship to one participant, or to all.
    ReadRelationships { character_id: i64, participant: Option<i64> },
    /// Change a relationship.
    WriteRelationship { character_id: i64, participant_id: i64 },
    /// Look up or change the data of a plugin.
    Data { plugin: String, op: DataOp },
    /// Ask the language model.
    Llm(LlmCall),
}

/// Which memories are asked for.
pub enum MemoryFilterView {
    Keywords(Seq<Seq<char>>),
    Kind(Option<MemoryType>),
}

/// What is done to a plugin's own data.
pub enum DataOpView {
    Get(Seq<char>),
    Put(Seq<char>, JsonView),
    Delete(Seq<char>),
    List,
}

/// What a call of a plugin asks for.
pub enum ApiPlanView {
    Send(i64, Seq<char>),
    ReadCharacter(Option<i64>),
    ReadState(i64),
    WriteState(i64),
    ReadMemories(i64, i64, MemoryFilterView),
    WriteMemory(MemoryView),
    ReadRelationships(i64, Option<i64>),
    WriteRelationship(i64, i64),
    Data(Seq<char>, DataOpView),
    Llm(Option<Seq<char>>, Seq<(LlmRole, Seq<char>)>, u8),
}

/// What messages say.
pub open spec fn messages_said(list: Seq<LlmMessage>) -> Seq<(LlmRole, Seq<char>)> {
    list.map_values(|m: LlmMessage| (m.role, m.content@))
}

impl View for MemoryFilter {
    type V = MemoryFilterView;

    open spec fn view(&self) -> MemoryFilterView {
        match self {
            MemoryFilter::Keywords(list) => MemoryFilterView::Keywords(texts(list@)),
            MemoryFilter::Kind(kind) => MemoryFilterView::Kind(*kind),
        }
    }
}

impl View for DataOp {
    type V = DataOpView;

    open spec fn view(&self) -> DataOpView {
        match self {
            DataOp::Get { key } => DataOpView::Get(key@),
            DataOp::Put { key, value } => DataOpView::Put(key@, value.model()),
            DataOp::Delete { key } => DataOpView::Delete(key@),
            DataOp::List => DataOpView::List,
        }
    }
}

impl View for ApiPlan {
    type V = ApiPlanView;

    open spec fn view(&self) -> ApiPlanView {
        match self {
            ApiPlan::Send { conversation_id, content } => ApiPlanView::Send(
                *conversation_id,
                content@,
            ),
            ApiPlan::ReadCharacter(id) => ApiPlanView::ReadCharacter(*id),
            ApiPlan::ReadState(id) => ApiPlanView::ReadState(*id),
            ApiPlan::WriteState(id) => ApiPlanView::WriteState(*id),
            ApiPlan::ReadMemories { character_id, limit, filter } => ApiPlanView::ReadMemories(
                *character_id,
                *limit,
                filter@,
            ),
            ApiPlan::WriteMemory(memory) => ApiPlanView::WriteMemory(memory@),
            ApiPlan::ReadRelationships { character_id, participant } =>
                ApiPlanView::ReadRelationships(*character_id, *participant),
            ApiPlan::WriteRelationship { character_id, participant_id } =>
                ApiPlanView::WriteRelationship(*character_id, *participant_id),
            ApiPlan::Data { plugin, op } => ApiPlanView::Data(plugin@, op@),
            ApiPlan::Llm(call) => ApiPlanView::Llm(
                match call.system {
                    Some(s) => Some(s@),
                    None => None,
                },
                messages_said(call.messages@),
                call.priority,
            ),
        }
    }
}

/// What is to be done, or the text of the error.
pub open spec fn plan_of(r: Result<ApiPlan, String>) -> Result<ApiPlanView, Seq<char>> {
    match r {
        Ok(plan) => Ok(plan@),
        Err(e) => Err(e@),
    }
}

/// What `message.send` asks for.
pub open spec fn send_plan(params: JsonView) -> Result<ApiPlanView, Seq<char>> {
    match i64_needed(params, "conversation_id"@) {
        Err(e) => Err(e),
        Ok(id) => match str_needed(params, "content"@) {
            Err(e) => Err(e),
            Ok(content) => Ok(ApiPlanView::Send(id, content)),
        },
    }
}

fn api_message_send(params: &Json) -> (r: Result<ApiPlan, String>)
    ensures
        plan_of(r) == send_plan(params.model()),
{
    match require_i64(params, "conversation_id") {
        Err(e) => Err(e),
        Ok(conversation_id) => match require_str(params, "content") {
            Err(e) => Err(e),
            Ok(content) => Ok(ApiPlan::Send { conversation_id, content }),
        },
    }
}

/// What `character.read` asks for.
pub open spec fn character_read_plan(params: JsonView) -> Result<ApiPlanView, Seq<char>> {
    match i64_param(params, "character_id"@) {
        Err(e) => Err(e),
        Ok(id) => Ok(ApiPlanView::ReadCharacter(id)),
    }
}

fn api_character_read(params: &Json) -> (r: Result<ApiPlan, String>)
    ensures
        plan_of(r) == character_read_plan(params.model()),
{
    match optional_i64(params, "character_id") {
        Err(e) => Err(e),
        Ok(id) => Ok(ApiPlan::ReadCharacter(id)),
    }
}

/// What `character.state.read` asks for.
pub open spec fn state_read_plan(params: JsonView) -> Result<ApiPlanView, Seq<char>> {
    match i64_needed(params, "character_id"@) {
        Err(e) => Err(e),
        Ok(id) => Ok(ApiPlanView::ReadState(id)),
    }
}

fn api_character_state_read(params: &Json) -> (r: Result<ApiPlan, String>)
    ensures
        plan_of(r) == state_read_plan(params.model()),
{
    match require_i64(params, "character_id") {
        Err(e) => Err(e),
        Ok(id) => Ok(ApiPlan::ReadState(id)),
    }
}

/// What `character.state.write` asks for.
pub open spec fn state_write_plan(params: JsonView) -> Result<ApiPlanView, Seq<char>> {
    match i64_needed(params, "character_id"@) {
        Err(e) => Err(e),
        Ok(id) => Ok(ApiPlanView::WriteState(id)),
    }
}

fn api_state_write_target(params: &Json) -> (r: Result<ApiPlan, String>)
    ensures
        plan_of(r) == state_write_plan(params.model()),
{
    match require_i64(params, "character_id") {
        Err(e) => Err(e),
        Ok(id) => Ok(ApiPlan::WriteState(id)),
    }
}

/// The kind of memory that is asked for, if one is.
pub open spec fn memory_type_param(params: JsonView) -> Result<Option<MemoryType>, Seq<char>> {
    match str_param(params, "memory_type"@) {
        Err(e) => Err(e),
        Ok(None) => Ok(None),
        Ok(Some(s)) => match memory_type_named(lowercase(trimmed(s))) {
            Err(e) => Err(e),
            Ok(kind) => Ok(Some(kind)),
        },
    }
}

fn optional_memory_type(params: &Json) -> (r: Result<Option<MemoryType>, String>)
    ensures
        same_outcome(r, memory_type_param(params.model())),
{
    match optional_str(params, "memory_type") {
        Err(e) => Err(e),
        Ok(None) => Ok(None),
        Ok(Some(s)) => match parse_memory_type(s.as_str()) {
            Err(e) => Err(e),
            Ok(kind) => Ok(Some(kind)),
        },
    }
}

/// The words of a list; an error where one is no text.
pub open spec fn words_of(items: Seq<JsonView>) -> Result<Seq<Seq<char>>, Seq<char>>
    decreases items.len(),
{
    if items.len() == 0 {
        Ok(Seq::empty())
    } else {
        match words_of(items.drop_last()) {
            Err(e) => Err(e),
            Ok(list) => match items.last().string() {
                Some(s) => Ok(list.push(s)),
                None => Err("参数 keywords 的元素必须是字符串"@),
            },
        }
    }
}

/// The words that are searched for, if any are.
pub open spec fn keywords_param(params: JsonView) -> Result<Option<Seq<Seq<char>>>, Seq<char>> {
    match given(params, "keywords"@) {
        None => Ok(None),
        Some(v) => match v {
            JsonView::Array(items) => match words_of(items) {
                Err(e) => Err(e),
                Ok(list) => Ok(Some(list)),
            },
            _ => Err("参数 keywords 必须是字符串数组"@),
        },
    }
}

/// The words of an outcome, and the text of its error.
pub open spec fn words_told(r: Result<Option<Vec<String>>, String>) -> Result<
    Option<Seq<Seq<char>>>,
    Seq<char>,
> {
    match r {
        Ok(Some(list)) => Ok(Some(texts(list@))),
        Ok(None) => Ok(None),
        Err(e) => Err(e@),
    }
}

proof fn lemma_words_fail(items: Seq<JsonView>, i: int)
    requires
        0 <= i <= items.len(),
        words_of(items.take(i)) is Err,
    ensures
        words_of(items) == words_of(items.take(i)),
    decreases items.len(),
{
    if i < items.len() {
        assert(items.drop_last().take(i) == items.take(i));
        lemma_words_fail(items.drop_last(), i);
    } else {
        assert(items.take(i) == items);
    }
}

fn optional_keywords(params: &Json) -> (r: Result<Option<Vec<String>>, String>)
    ensures
        words_told(r) == keywords_param(params.model()),
{
    let list = match given_in(params, "keywords") {
        None => {
            return Ok(None);
        },
        Some(list) => list,
    };
    let ghost view = list.model();
    match list.as_array() {
        None => Err(owned("参数 keywords 必须是字符串数组")),
        Some(items) => {
            let ghost all = view->Array_0;
            let mut out: Vec<String> = Vec::new();
            let mut i: usize = 0;
            assert(texts(out@) =~= Seq::empty());
            while i < items.len()
                invariant
                    i <= items@.len() == all.len(),
                    given(params.model(), "keywords"@) == Some(JsonView::Array(all)),
                    forall|j: int| 0 <= j < all.len() ==> #[trigger] all[j] == items@[j].model(),
                    words_of(all.take(i as int)) == Ok::<Seq<Seq<char>>, Seq<char>>(texts(out@)),
                decreases items@.len() - i,
            {
                proof {
                    assert(all.take(i + 1).drop_last() == all.take(i as int));
                    assert(all.take(i + 1).last() == items@[i as int].model());
                }
                match items[i].as_text() {
                    Some(s) => {
                        let ghost before = out@;
                        out.push(s.clone());
                        assert(texts(out@) == texts(before).push(s@));
                    },
                    None => {
                        proof {
                            lemma_words_fail(all, i + 1);
                        }
                        return Err(owned("参数 keywords 的元素必须是字符串"));
                    },
                }
                i += 1;
            }
            assert(all.take(i as int) == all);
            Ok(Some(out))
        },
    }
}

/// How many memories are looked up: twenty unless a number is given, and between
/// one and five hundred.
pub open spec fn memory_limit(wanted: Option<i64>) -> i64 {
    let n: i64 = match wanted {
        Some(n) => n,
        None => 20,
    };
    if n < 1 {
        1
    } else if n > 500 {
        500
    } else {
        n
    }
}

/// What `memory.read` asks for.
pub open spec fn memory_read_plan(params: JsonView) -> Result<ApiPlanView, Seq<char>> {
    match i64_needed(params, "character_id"@) {
        Err(e) => Err(e),
        Ok(id) => match i64_param(params, "limit"@) {
            Err(e) => Err(e),
            Ok(wanted) => match memory_type_param(params) {
                Err(e) => Err(e),
                Ok(kind) => match keywords_param(params) {
                    Err(e) => Err(e),
                    Ok(words) => Ok(
                        ApiPlanView::ReadMemories(
                            id,
                            memory_limit(wanted),
                            match words {
                                Some(list) => MemoryFilterView::Keywords(list),
                                None => MemoryFilterView::Kind(kind),
                            },
                        ),
                    ),
                },
            },
        },
    }
}

fn api_memory_read(params: &Json) -> (r: Result<ApiPlan, String>)
    ensures
        plan_of(r) == memory_read_plan(params.model()),
{
    let character_id: i64 = match require_i64(params, "character_id") {
        Err(e) => {
            return Err(e);
        },
        Ok(id) => id,
    };
    let wanted: Option<i64> = match optional_i64(params, "limit") {
        Err(e) => {
            return Err(e);
        },
        Ok(n) => n,
    };
    let n: i64 = match wanted {
        Some(n) => n,
        None => 20,
    };
    let limit: i64 = if n < 1 {
        1
    } else if n > 500 {
        500
    } else {
        n
    };
    let kind = match optional_memory_type(params) {
        Err(e) => {
            return Err(e);
        },
        Ok(kind) => kind,
    };
    match optional_keywords(params) {
        Err(e) => Err(e),
        Ok(words) => Ok(
            ApiPlan::ReadMemories {
                character_id,
                limit,
                filter: match words {
                    Some(list) => MemoryFilter::Keywords(list),
                    None => MemoryFilter::Kind(kind),
                },
            },
        ),
    }
}

/// What `memory.write` asks for.
pub open spec fn memory_write_plan(params: JsonView, now: Timestamp) -> Result<
    ApiPlanView,
    Seq<char>,
> {
    match i64_needed(params, "character_id"@) {
        Err(e) => Err(e),
        Ok(character_id) => match str_needed(params, "content"@) {
            Err(e) => Err(e),
            Ok(content) => match memory_type_param(params) {
                Err(e) => Err(e),
                Ok(kind) => match f64_param(params, "importance"@) {
                    Err(e) => Err(e),
                    Ok(importance) => match i64_param(params, "conversation_id"@) {
                        Err(e) => Err(e),
                        Ok(conversation_id) => Ok(
                            ApiPlanView::WriteMemory(
                                MemoryView {
                                    id: 0,
                                    character_id,
                                    conversation_id,
                                    memory_type: match kind {
                                        Some(kind) => kind,
                                        None => MemoryType::Episodic,
                                    },
                                    content,
                                    importance: share(
                                        match importance {
                                            Some(x) => x,
                                            None => Scalar { bits: HALF },
                                        },
                                    ),
                                    created_at: now,
                                    last_accessed: now,
                                    metadata: JsonView::Null,
                                },
                            ),
                        ),
                    },
                },
            },
        },
    }
}

fn api_memory_write(params: &Json, now: Timestamp) -> (r: Result<ApiPlan, String>)
    ensures
        plan_of(r) == memory_write_plan(params.model(), now),
{
    let character_id: i64 = match require_i64(params, "character_id") {
        Err(e) => {
            return Err(e);
        },
        Ok(id) => id,
    };
    let content = match require_str(params, "content") {
        Err(e) => {
            return Err(e);
        },
        Ok(content) => content,
    };
    let kind = match optional_memory_type(params) {
        Err(e) => {
            return Err(e);
        },
        Ok(Some(kind)) => kind,
        Ok(None) => MemoryType::Episodic,
    };
    let importance = match optional_f64(params, "importance") {
        Err(e) => {
            return Err(e);
        },
        Ok(Some(x)) => x,
        Ok(None) => Scalar { bits: HALF },
    };
    match optional_i64(params, "conversation_id") {
        Err(e) => Err(e),
        Ok(conversation_id) => Ok(
            ApiPlan::WriteMemory(
                Memory::new(character_id, conversation_id, kind, content, importance, now),
            ),
        ),
    }
}

/// What `relationship.read` asks for.
pub open spec fn relationship_read_plan(params: JsonView) -> Result<ApiPlanView, Seq<char>> {
    match i64_needed(params, "character_id"@) {
        Err(e) => Err(e),
        Ok(character_id) => match i64_param(params, "participant_id"@) {
            Err(e) => Err(e),
            Ok(participant_id) => Ok(ApiPlanView::ReadRelationships(character_id, participant_id)),
        },
    }
}

fn api_relationship_read(params: &Json) -> (r: Result<ApiPlan, String>)
    ensures
        plan_of(r) == relationship_read_plan(params.model()),
{
    match require_i64(params, "character_id") {
        Err(e) => Err(e),
        Ok(character_id) => match optional_i64(params, "participant_id") {
            Err(e) => Err(e),
            Ok(participant) => Ok(ApiPlan::ReadRelationships { character_id, participant }),
        },
    }
}

/// What `relationship.write` asks for.
pub open spec fn relationship_write_plan(params: JsonView) -> Result<ApiPlanView, Seq<char>> {
    match i64_needed(params, "character_id"@) {
        Err(e) => Err(e),
        Ok(character_id) => match i64_needed(params, "participant_id"@) {
            Err(e) => Err(e),
            Ok(participant_id) => Ok(ApiPlanView::WriteRelationship(character_id, participant_id)),
        },
    }
}

fn api_relationship_write_target(params: &Json) -> (r: Result<ApiPlan, String>)
    ensures
        plan_of(r) == relationship_write_plan(params.model()),
{
    match require_i64(params, "character_id") {
        Err(e) => Err(e),
        Ok(character_id) => match require_i64(params, "participant_id") {
            Err(e) => Err(e),
            Ok(participant_id) => Ok(ApiPlan::WriteRelationship { character_id, participant_id }),
        },
    }
}

/// What `plugin_data.get` asks for.
pub open spec fn data_get_plan(plugin: Seq<char>, params: JsonView) -> Result<
    ApiPlanView,
    Seq<char>,
> {
    match str_needed(params, "key"@) {
        Err(e) => Err(e),
        Ok(key) => Ok(ApiPlanView::Data(plugin, DataOpView::Get(key))),
    }
}

fn api_plugin_data_get(plugin: &str, params: &Json) -> (r: Result<ApiPlan, String>)
    ensures
        plan_of(r) == data_get_plan(plugin@, params.model()),
{
    match require_str(params, "key") {
        Err(e) => Err(e),
        Ok(key) => Ok(ApiPlan::Data { plugin: owned(plugin), op: DataOp::Get { key } }),
    }
}

/// What `plugin_data.set` asks for. A value of `null` is one.
pub open spec fn data_set_plan(plugin: Seq<char>, params: JsonView) -> Result<
    ApiPlanView,
    Seq<char>,
> {
    match str_needed(params, "key"@) {
        Err(e) => Err(e),
        Ok(key) => match params.field("value"@) {
            None => Err("缺少参数：value"@),
            Some(value) => Ok(ApiPlanView::Data(plugin, DataOpView::Put(key, value))),
        },
    }
}

fn api_plugin_data_set(plugin: &str, params: &Json) -> (r: Result<ApiPlan, String>)
    ensures
        plan_of(r) == data_set_plan(plugin@, params.model()),
{
    match require_str(params, "key") {
        Err(e) => Err(e),
        Ok(key) => match params.get("value") {
            None => Err(owned("缺少参数：value")),
            Some(value) => Ok(
                ApiPlan::Data {
                    plugin: owned(plugin),
                    op: DataOp::Put { key, value: value.duplicate() },
                },
            ),
        },
    }
}

/// What `plugin_data.delete` asks for.
pub open spec fn data_delete_plan(plugin: Seq<char>, params: JsonView) -> Result<
    ApiPlanView,
    Seq<char>,
> {
    match str_needed(params, "key"@) {
        Err(e) => Err(e),
        Ok(key) => Ok(ApiPlanView::Data(plugin, DataOpView::Delete(key))),
    }
}

fn api_plugin_data_delete(plugin: &str, params: &Json) -> (r: Result<ApiPlan, String>)
    ensures
        plan_of(r) == data_delete_plan(plugin@, params.model()),
{
    match require_str(params, "key") {
        Err(e) => Err(e),
        Ok(key) => Ok(ApiPlan::Data { plugin: owned(plugin), op: DataOp::Delete { key } }),
    }
}

/// A message of a dialogue, as a plugin gives it.
pub open spec fn message_of(item: JsonView) -> Result<(LlmRole, Seq<char>), Seq<char>> {
    match item.string_at("role"@) {
        None => Err("消息缺少 role 字段"@),
        Some(name) => match role_named(lowercase(trimmed(name))) {
            Err(e) => Err(e),
            Ok(role) => match item.string_at("content"@) {
                None => Err("消息缺少 content 字段"@),
                Some(content) => Ok((role, content)),
            },
        },
    }
}

/// The messages of a dialogue; the error of the first that is none.
pub open spec fn messages_of(items: Seq<JsonView>) -> Result<
    Seq<(LlmRole, Seq<char>)>,
    Seq<char>,
>
    decreases items.len(),
{
    if items.len() == 0 {
        Ok(Seq::empty())
    } else {
        match messages_of(items.drop_last()) {
            Err(e) => Err(e),
            Ok(list) => match message_of(items.last()) {
                Err(e) => Err(e),
                Ok(message) => Ok(list.push(message)),
            },
        }
    }
}

proof fn lemma_messages_fail(items: Seq<JsonView>, i: int)
    requires
        0 <= i <= items.len(),
        messages_of(items.take(i)) is Err,
    ensures
        messages_of(items) == messages_of(items.take(i)),
    decreases items.len(),
{
    if i < items.len() {
        assert(items.drop_last().take(i) == items.take(i));
        lemma_messages_fail(items.drop_last(), i);
    } else {
        assert(items.take(i) == items);
    }
}

fn read_message(item: &Json) -> (r: Result<LlmMessage, String>)
    ensures
        match (r, message_of(item.model())) {
            (Ok(m), Ok((role, content))) => m.role == role && m.content@ == content,
            (Err(e), Err(text)) => e@ == text,
            _ => false,
        },
{
    match item.text_at("role") {
        None => Err(owned("消息缺少 role 字段")),
        Some(name) => match parse_llm_role(name.as_str()) {
            Err(e) => Err(e),
            Ok(role) => match item.text_at("content") {
                None => Err(owned("消息缺少 content 字段")),
                Some(content) => Ok(LlmMessage { role, content: content.clone() }),
            },
        },
    }
}

fn read_messages(items: &Vec<Json>, Ghost(all): Ghost<Seq<JsonView>>) -> (r: Result<
    Vec<LlmMessage>,
    String,
>)
    requires
        all.len() == items@.len(),
        forall|j: int| 0 <= j < all.len() ==> #[trigger] all[j] == items@[j].model(),
    ensures
        match (r, messages_of(all)) {
            (Ok(list), Ok(view)) => messages_said(list@) == view,
            (Err(e), Err(text)) => e@ == text,
            _ => false,
        },
{
    let mut out: Vec<LlmMessage> = Vec::new();
    let mut i: usize = 0;
    assert(messages_said(out@) =~= Seq::empty());
    while i < items.len()
        invariant
            i <= items@.len() == all.len(),
            forall|j: int| 0 <= j < all.len() ==> #[trigger] all[j] == items@[j].model(),
            messages_of(all.take(i as int)) == Ok::<Seq<(LlmRole, Seq<char>)>, Seq<char>>(
                messages_said(out@),
            ),
        decreases items@.len() - i,
    {
        proof {
            assert(all.take(i + 1).drop_last() == all.take(i as int));
            assert(all.take(i + 1).last() == items@[i as int].model());
        }
        match read_message(&items[i]) {
            Err(e) => {
                proof {
                    lemma_messages_fail(all, i + 1);
                }
                return Err(e);
            },
            Ok(message) => {
                let ghost before = out@;
                out.push(message);
                assert(messages_said(out@) == messages_said(before).push(
                    (message.role, message.content@),
                ));
            },
        }
        i += 1;
    }
    assert(all.take(i as int) == all);
    Ok(out)
}

/// What `llm.call` asks for. The priority is two unless one is given.
pub open spec fn llm_plan(params: JsonView) -> Result<ApiPlanView, Seq<char>> {
    match str_param(params, "system"@) {
        Err(e) => Err(e),
        Ok(system) => match params.field("messages"@) {
            None => Err("缺少参数：messages"@),
            Some(JsonView::Array(items)) => if items.len() == 0 {
                Err("messages 不能为空"@)
            } else {
                match messages_of(items) {
                    Err(e) => Err(e),
                    Ok(messages) => match u8_param(params, "priority"@) {
                        Err(e) => Err(e),
                        Ok(priority) => Ok(
                            ApiPlanView::Llm(
                                system,
                                messages,
                                match priority {
                                    Some(n) => n,
                                    None => 2,
                                },
                            ),
                        ),
                    },
                }
            },
            Some(_) => Err("参数 messages 必须是数组"@),
        },
    }
}

fn api_llm_call(params: &Json) -> (r: Result<ApiPlan, String>)
    ensures
        plan_of(r) == llm_plan(params.model()),
{
    let system = match optional_str(params, "system") {
        Err(e) => {
            return Err(e);
        },
        Ok(system) => system,
    };
    let list = match params.get("messages") {
        None => {
            return Err(owned("缺少参数：messages"));
        },
        Some(list) => list,
    };
    let ghost view = list.model();
    let items = match list.as_array() {
        None => {
            return Err(owned("参数 messages 必须是数组"));
        },
        Some(items) => items,
    };
    if items.len() == 0 {
        return Err(owned("messages 不能为空"));
    }
    let messages = match read_messages(items, Ghost(view->Array_0)) {
        Err(e) => {
            return Err(e);
        },
        Ok(messages) => messages,
    };
    match optional_u8(params, "priority") {
        Err(e) => Err(e),
        Ok(priority) => Ok(
            ApiPlan::Llm(
                LlmCall {
                    system,
                    messages,
                    priority: match priority {
                        Some(n) => n,
                        None => 2,
                    },
                },
            ),
        ),
    }
}

/// What a method asks for.
pub open spec fn method_plan(
    plugin: Seq<char>,
    method: Seq<char>,
    params: JsonView,
    now: Timestamp,
) -> Result<ApiPlanView, Seq<char>> {
    if method == "message.send"@ {
        send_plan(params)
    } else if method == "character.read"@ {
        character_read_plan(params)
    } else if method == "character.state.read"@ {
        state_read_plan(params)
    } else if method == "character.state.write"@ {
        state_write_plan(params)
    } else if method == "memory.read"@ {
        memory_read_plan(params)
    } else if method == "memory.write"@ {
        memory_write_plan(params, now)
    } else if method == "relationship.read"@ {
        relationship_read_plan(params)
    } else if method == "relationship.write"@ {
        relationship_write_plan(params)
    } else if method == "plugin_data.get"@ {
        data_get_plan(plugin, params)
    } else if method == "plugin_data.set"@ {
        data_set_plan(plugin, params)
    } else if method == "plugin_data.delete"@ {
        data_delete_plan(plugin, params)
    } else if method == "plugin_data.list"@ {
        Ok(ApiPlanView::Data(plugin, DataOpView::List))
    } else if method == "llm.call"@ {
        llm_plan(params)
    } else if method == "message.read"@ {
        Err("message.read 暂未实现"@)
    } else if method == "scheduler.create"@ {
        Err("scheduler.create 本期不开放"@)
    } else {
        Err("未知方法："@ + method)
    }
}

/// A method that works on a plugin's own data, which needs no permission.
pub open spec fn is_own_data(method: Seq<char>) -> bool {
    begins_with(method, "plugin_data."@)
}

fn plan_method(plugin: &str, method: &str, params: &Json, now: Timestamp) -> (r: Result<
    ApiPlan,
    String,
>)
    ensures
        plan_of(r) == method_plan(plugin@, method@, params.model(), now),
{
    if same_text(method, "message.send") {
        api_message_send(params)
    } else if same_text(method, "character.read") {
        api_character_read(params)
    } else if same_text(method, "character.state.read") {
        api_character_state_read(params)
    } else if same_text(method, "character.state.write") {
        api_state_write_target(params)
    } else if same_text(method, "memory.read") {
        api_memory_read(params)
    } else if same_text(method, "memory.write") {
        api_memory_write(params, now)
    } else if same_text(method, "relationship.read") {
        api_relationship_read(params)
    } else if same_text(method, "relationship.write") {
        api_relationship_write_target(params)
    } else if same_text(method, "plugin_data.get") {
        api_plugin_data_get(plugin, params)
    } else if same_text(method, "plugin_data.set") {
        api_plugin_data_set(plugin, params)
    } else if same_text(method, "plugin_data.delete") {
        api_plugin_data_delete(plugin, params)
    } else if same_text(method, "plugin_data.list") {
        Ok(ApiPlan::Data { plugin: owned(plugin), op: DataOp::List })
    } else if same_text(method, "llm.call") {
        api_llm_call(params)
    } else if same_text(method, "message.read") {
        Err(owned("message.read 暂未实现"))
    } else if same_text(method, "scheduler.create") {
        Err(owned("scheduler.create 本期不开放"))
    } else {
        Err(concat("未知方法：", method))
    }
}

/// What a call of a plugin comes to, given what the permissions of the plugin say
/// of the method.
pub open spec fn call_plan(
    plugin: Seq<char>,
    verdict: Option<Result<(), Seq<char>>>,
    method: Seq<char>,
    params: JsonView,
    now: Timestamp,
) -> Result<ApiPlanView, Seq<char>> {
    match verdict {
        None => Err("插件未注册"@),
        Some(Err(e)) => if is_own_data(method) {
            method_plan(plugin, method, params, now)
        } else {
            Err(e)
        },
        Some(Ok(_)) => method_plan(plugin, method, params, now),
    }
}

/// The verdict, errors by their text.
pub open spec fn verdict_of(verdict: Option<Result<(), String>>) -> Option<Result<(), Seq<char>>> {
    match verdict {
        None => None,
        Some(Ok(_)) => Some(Ok(())),
        Some(Err(e)) => Some(Err(e@)),
    }
}

/// Decides what a call of a plugin comes to. `verdict` is what the permissions of
/// the plugin say of the method, and nothing where the plugin is not registered.
/// Methods on a plugin's own data need no permission.
pub fn dispatch(
    plugin: &str,
    verdict: Option<Result<(), String>>,
    method: &str,
    params: &Json,
    now: Timestamp,
) -> (r: Result<ApiPlan, String>)
    ensures
        plan_of(r) == call_plan(plugin@, verdict_of(verdict), method@, params.model(), now),
{
    let permitted = match verdict {
        None => {
            return Err(owned("插件未注册"));
        },
        Some(permitted) => permitted,
    };
    if !starts_with(method, "plugin_data.") {
        match permitted {
            Err(e) => {
                return Err(e);
            },
            Ok(_) => {},
        }
    }
    plan_method(plugin, method, params, now)
}

// ---------------------------------------------------------------------------
// What came of it
// ---------------------------------------------------------------------------

/// The answer where the storage did its work, else the text of its error.
pub fn stored<T>(outcome: Result<T, RepositoryError>) -> (r: Result<T, String>)
    ensures
        match outcome {
            Ok(value) => r == Ok::<T, String>(value),
            Err(e) => r matches Err(s) && s@ == e.text(),
        },
{
    match outcome {
        Ok(value) => Ok(value),
        Err(e) => Err(e.message()),
    }
}

/// The answer where an action was carried out, else the text of its error.
pub fn carried_out<T>(outcome: Result<T, RuntimeError>) -> (r: Result<T, String>)
    ensures
        match outcome {
            Ok(value) => r == Ok::<T, String>(value),
            Err(e) => r matches Err(s) && s@ == e.text(),
        },
{
    match outcome {
        Ok(value) => Ok(value),
        Err(e) => Err(e.message()),
    }
}

/// The answer of the language model; an error where there is none.
pub fn answered<T>(outcome: Result<Option<T>, RuntimeError>) -> (r: Result<T, String>)
    ensures
        match outcome {
            Ok(Some(value)) => r == Ok::<T, String>(value),
            Ok(None) => r matches Err(s) && s@ == "LLM 未启用"@,
            Err(e) => r matches Err(s) && s@ == e.text(),
        },
{
    match outcome {
        Ok(Some(value)) => Ok(value),
        Ok(None) => Err(owned("LLM 未启用")),
        Err(e) => Err(e.message()),
    }
}

/// The error for an answer that cannot be written down.
pub fn unwritten(reason: &str) -> (r: String)
    ensures
        r@ == "序列化失败："@ + reason@,
{
    concat("序列化失败：", reason)
}

/// Answers `plugin_data.get`: what is there, or `null`.
pub fn data_found(found: Result<Option<Json>, RepositoryError>) -> (r: Result<Json, String>)
    ensures
        match found {
            Ok(Some(value)) => r == Ok::<Json, String>(value),
            Ok(None) => r == Ok::<Json, String>(Json::Null),
            Err(e) => r matches Err(s) && s@ == e.text(),
        },
{
    match found {
        Ok(Some(value)) => Ok(value),
        Ok(None) => Ok(Json::Null),
        Err(e) => Err(e.message()),
    }
}

/// Answers `plugin_data.delete`: whether there was something, once it is gone.
pub fn data_deleted(
    found: Result<Option<Json>, RepositoryError>,
    gone: Result<(), RepositoryError>,
) -> (r: Result<bool, String>)
    ensures
        match (found, gone) {
            (Err(e), _) => r matches Err(s) && s@ == e.text(),
            (Ok(_), Err(e)) => r matches Err(s) && s@ == e.text(),
            (Ok(value), Ok(_)) => r == Ok::<bool, String>(value is Some),
        },
{
    match found {
        Err(e) => Err(e.message()),
        Ok(value) => match gone {
            Err(e) => Err(e.message()),
            Ok(_) => Ok(value.is_some()),
        },
    }
}

/// A level that a patch gives: the old one where it gives none.
pub open spec fn patched_level(patch: JsonView, key: Seq<char>, level: Scalar) -> Result<
    Scalar,
    Seq<char>,
> {
    match patch.field(key) {
        None => Ok(level),
        Some(v) => match v.double() {
            Some(x) => Ok(x),
            None => Err(must_be(key, "数字"@)),
        },
    }
}

/// A text that a patch gives: the old one where it gives none.
pub open spec fn patched_text(patch: JsonView, key: Seq<char>, text: Option<Seq<char>>) -> Result<
    Option<Seq<char>>,
    Seq<char>,
> {
    match patch.field(key) {
        None => Ok(text),
        Some(v) => match v.string() {
            Some(s) => Ok(Some(s)),
            None => Err(must_be(key, "字符串"@)),
        },
    }
}

fn patch_level(patch: &Json, key: &str, level: Scalar) -> (r: Result<Scalar, String>)
    ensures
        same_outcome(r, patched_level(patch.model(), key@, level)),
{
    match patch.get(key) {
        None => Ok(level),
        Some(v) => match v.as_double() {
            Some(x) => Ok(x),
            None => Err(wrong_kind(key, "数字")),
        },
    }
}

fn patch_text(patch: &Json, key: &str, text: Option<String>) -> (r: Result<Option<String>, String>)
    ensures
        told_if_any(r) == patched_text(
            patch.model(),
            key@,
            match text {
                Some(s) => Some(s@),
                None => None,
            },
        ),
{
    match patch.get(key) {
        None => Ok(text),
        Some(v) => match v.as_text() {
            Some(s) => Ok(Some(s.clone())),
            None => Err(wrong_kind(key, "字符串")),
        },
    }
}

/// A state with what a patch gives, its levels bounded.
pub open spec fn patched_state(patch: JsonView, before: CharacterStateView, now: Timestamp) -> Result<
    CharacterStateView,
    Seq<char>,
> {
    match patched_level(patch, "energy"@, before.energy) {
        Err(e) => Err(e),
        Ok(energy) => match patched_level(patch, "attention"@, before.attention) {
            Err(e) => Err(e),
            Ok(attention) => match patched_level(patch, "stress"@, before.stress) {
                Err(e) => Err(e),
                Ok(stress) => match patched_text(
                    patch,
                    "current_activity"@,
                    before.current_activity,
                ) {
                    Err(e) => Err(e),
                    Ok(current_activity) => match patched_text(
                        patch,
                        "social_mood"@,
                        before.social_mood,
                    ) {
                        Err(e) => Err(e),
                        Ok(social_mood) => Ok(
                            (CharacterStateView {
                                energy,
                                attention,
                                stress,
                                current_activity,
                                social_mood,
                                last_updated: now,
                                ..before
                            }).bounded(),
                        ),
                    },
                },
            },
        },
    }
}

/// What `character.state.write` stores, given whether the character exists and what
/// is stored of its state.
pub open spec fn written_state(
    params: JsonView,
    character: Result<bool, RepositoryError>,
    before: Result<Option<CharacterState>, RepositoryError>,
    now: Timestamp,
) -> Result<CharacterStateView, Seq<char>> {
    match character {
        Err(e) => Err(e.text()),
        Ok(known) => if !known {
            Err("角色不存在"@)
        } else {
            match params.field("state"@) {
                Some(JsonView::Object(fields)) => match before {
                    Err(e) => Err(e.text()),
                    Ok(found) => patched_state(
                        JsonView::Object(fields),
                        match found {
                            Some(state) => state@,
                            None => CharacterStateView::fresh(now),
                        },
                        now,
                    ),
                },
                _ => Err("缺少参数：state（或 state 必须是对象）"@),
            }
        },
    }
}

/// What an outcome says of a state, and the text of its error.
pub open spec fn state_told(r: Result<CharacterState, String>) -> Result<
    CharacterStateView,
    Seq<char>,
> {
    match r {
        Ok(state) => Ok(state@),
        Err(e) => Err(e@),
    }
}

fn patch_state(patch: &Json, before: CharacterState, now: Timestamp) -> (r: Result<
    CharacterState,
    String,
>)
    ensures
        state_told(r) == patched_state(patch.model(), before@, now),
{
    let energy = match patch_level(patch, "energy", before.energy) {
        Err(e) => {
            return Err(e);
        },
        Ok(x) => x,
    };
    let attention = match patch_level(patch, "attention", before.attention) {
        Err(e) => {
            return Err(e);
        },
        Ok(x) => x,
    };
    let stress = match patch_level(patch, "stress", before.stress) {
        Err(e) => {
            return Err(e);
        },
        Ok(x) => x,
    };
    let current_activity = match patch_text(patch, "current_activity", before.current_activity) {
        Err(e) => {
            return Err(e);
        },
        Ok(s) => s,
    };
    let social_mood = match patch_text(patch, "social_mood", before.social_mood) {
        Err(e) => {
            return Err(e);
        },
        Ok(s) => s,
    };
    let state = CharacterState {
        energy,
        attention,
        stress,
        current_activity,
        social_mood,
        last_proactive_at: before.last_proactive_at,
        last_updated: now,
    };
    Ok(state.clamped())
}

/// What `character.state.write` stores: the stored state, or a fresh one, with the
/// fields that are given, levels bounded to `[0, 100]`.
pub fn api_character_state_write(
    params: &Json,
    character: Result<bool, RepositoryError>,
    before: Result<Option<CharacterState>, RepositoryError>,
    now: Timestamp,
) -> (r: Result<CharacterState, String>)
    ensures
        state_told(r) == written_state(params.model(), character, before, now),
{
    match character {
        Err(e) => {
            return Err(e.message());
        },
        Ok(known) => if !known {
            return Err(owned("角色不存在"));
        },
    }
    let patch = match params.get("state") {
        Some(patch) => patch,
        None => {
            return Err(owned("缺少参数：state（或 state 必须是对象）"));
        },
    };
    if !patch.is_object() {
        return Err(owned("缺少参数：state（或 state 必须是对象）"));
    }
    let found = match before {
        Err(e) => {
            return Err(e.message());
        },
        Ok(found) => found,
    };
    let state = match found {
        Some(state) => state,
        None => CharacterState::default_at(now),
    };
    patch_state(patch, state, now)
}

/// A dimension of a relationship that is given, bounded; the old one where none is.
pub open spec fn written_share(params: JsonView, key: Seq<char>, level: Scalar) -> Result<
    Scalar,
    Seq<char>,
> {
    match f64_param(params, key) {
        Err(e) => Err(e),
        Ok(None) => Ok(level),
        Ok(Some(x)) => Ok(share(x)),
    }
}

fn write_share(params: &Json, key: &str, level: Scalar) -> (r: Result<Scalar, String>)
    ensures
        same_outcome(r, written_share(params.model(), key@, level)),
{
    match optional_f64(params, key) {
        Err(e) => Err(e),
        Ok(None) => Ok(level),
        Ok(Some(x)) => Ok(clamp_share(x)),
    }
}

/// A relationship with the dimensions that are given.
pub open spec fn patched_relationship(
    params: JsonView,
    before: Relationship,
    now: Timestamp,
) -> Result<Relationship, Seq<char>> {
    match written_share(params, "familiarity"@, before.familiarity) {
        Err(e) => Err(e),
        Ok(familiarity) => match written_share(params, "affection"@, before.affection) {
            Err(e) => Err(e),
            Ok(affection) => match written_share(params, "trust"@, before.trust) {
                Err(e) => Err(e),
                Ok(trust) => match written_share(params, "respect"@, before.respect) {
                    Err(e) => Err(e),
                    Ok(respect) => match written_share(params, "annoyance"@, before.annoyance) {
                        Err(e) => Err(e),
                        Ok(annoyance) => Ok(
                            Relationship {
                                familiarity,
                                affection,
                                trust,
                                respect,
                                annoyance,
                                updated_at: now,
                                ..before
                            },
                        ),
                    },
                },
            },
        },
    }
}

/// What `relationship.write` stores, given what is stored.
pub open spec fn written_relationship(
    params: JsonView,
    character_id: i64,
    participant_id: i64,
    before: Result<Option<Relationship>, RepositoryError>,
    now: Timestamp,
) -> Result<Relationship, Seq<char>> {
    match before {
        Err(e) => Err(e.text()),
        Ok(found) => patched_relationship(
            params,
            match found {
                Some(r) => r,
                None => Relationship::strangers(character_id, participant_id, now),
            },
            now,
        ),
    }
}

/// What `relationship.write` stores: the stored relationship, or that between
/// strangers, with the dimensions that are given bounded to `[0, 1]`.
pub fn api_relationship_write(
    params: &Json,
    character_id: i64,
    participant_id: i64,
    before: Result<Option<Relationship>, RepositoryError>,
    now: Timestamp,
) -> (r: Result<Relationship, String>)
    ensures
        same_outcome(
            r,
            written_relationship(params.model(), character_id, participant_id, before, now),
        ),
{
    let found = match before {
        Err(e) => {
            return Err(e.message());
        },
        Ok(found) => found,
    };
    let mut relationship = match found {
        Some(r) => r,
        None => Relationship::new(character_id, participant_id, now),
    };
    relationship.familiarity = match write_share(params, "familiarity", relationship.familiarity) {
        Err(e) => {
            return Err(e);
        },
        Ok(x) => x,
    };
    relationship.affection = match write_share(params, "affection", relationship.affection) {
        Err(e) => {
            return Err(e);
        },
        Ok(x) => x,
    };
    relationship.trust = match write_share(params, "trust", relationship.trust) {
        Err(e) => {
            return Err(e);
        },
        Ok(x) => x,
    };
    relationship.respect = match write_share(params, "respect", relationship.respect) {
        Err(e) => {
            return Err(e);
        },
        Ok(x) => x,
    };
    relationship.annoyance = match write_share(params, "annoyance", relationship.annoyance) {
        Err(e) => {
            return Err(e);
        },
        Ok(x) => x,
    };
    relationship.updated_at = now;
    Ok(relationship)
}

// ---------------------------------------------------------------------------
// Laws
// ---------------------------------------------------------------------------

/// The data of all plugins, by plugin and key, after an operation of a plugin.
pub open spec fn data_after(
    store: Map<(Seq<char>, Seq<char>), JsonView>,
    plugin: Seq<char>,
    op: DataOpView,
) -> Map<(Seq<char>, Seq<char>), JsonView> {
    match op {
        DataOpView::Put(key, value) => store.insert((plugin, key), value),
        DataOpView::Delete(key) => store.remove((plugin, key)),
        _ => store,
    }
}

/// What a plugin reads under a key.
pub open spec fn data_read(
    store: Map<(Seq<char>, Seq<char>), JsonView>,
    plugin: Seq<char>,
    key: Seq<char>,
) -> JsonView {
    if store.contains_key((plugin, key)) {
        store[(plugin, key)]
    } else {
        JsonView::Null
    }
}

/// Plugins are kept apart: whatever a plugin calls, the data it works on are its
/// own, and no other plugin reads anything else afterwards.
pub proof fn plugins_are_kept_apart(
    store: Map<(Seq<char>, Seq<char>), JsonView>,
    plugin: Seq<char>,
    verdict: Option<Result<(), Seq<char>>>,
    method: Seq<char>,
    params: JsonView,
    now: Timestamp,
    other: Seq<char>,
    key: Seq<char>,
)
    requires
        other != plugin,
    ensures
        call_plan(plugin, verdict, method, params, now) matches Ok(ApiPlanView::Data(owner, op))
            ==> owner == plugin && data_read(data_after(store, owner, op), other, key) == data_read(
            store,
            other,
            key,
        ),
{
}

/// A plugin reads back what it stored, reads `null` once it is deleted, and finds
/// what it has under other keys unchanged either way.
pub proof fn data_comes_back(
    store: Map<(Seq<char>, Seq<char>), JsonView>,
    plugin: Seq<char>,
    key: Seq<char>,
    value: JsonView,
    other: Seq<char>,
)
    requires
        other != key,
    ensures
        data_read(data_after(store, plugin, DataOpView::Put(key, value)), plugin, key) == value,
        data_read(data_after(store, plugin, DataOpView::Delete(key)), plugin, key)
            == JsonView::Null,
        data_read(data_after(store, plugin, DataOpView::Put(key, value)), plugin, other)
            == data_read(store, plugin, other),
        data_read(data_after(store, plugin, DataOpView::Delete(key)), plugin, other) == data_read(
            store,
            plugin,
            other,
        ),
{
}

/// A plugin that is not registered gets nothing done, and one that lacks the
/// permission for a method only gets its own data.
pub proof fn nothing_without_permission(
    plugin: Seq<char>,
    method: Seq<char>,
    complaint: Seq<char>,
    params: JsonView,
    now: Timestamp,
)
    ensures
        call_plan(plugin, None, method, params, now) is Err,
        call_plan(plugin, Some(Err(complaint)), method, params, now) matches Ok(plan)
            ==> plan is Data,
{
    reveal_strlit("plugin_data.");
    reveal_strlit("message.send");
    reveal_strlit("character.read");
    reveal_strlit("character.state.read");
    reveal_strlit("character.state.write");
    reveal_strlit("memory.read");
    reveal_strlit("memory.write");
    reveal_strlit("relationship.read");
    reveal_strlit("relationship.write");
    reveal_strlit("llm.call");
    if is_own_data(method) {
        let head = method.subrange(0, "plugin_data."@.len() as int);
        assert(head[0] == 'p');
        assert(method[0] == 'p');
    }
}

/// A level between 0 and 100.
pub open spec fn is_percent(x: Scalar) -> bool {
    within(x, Scalar { bits: ZERO }, Scalar { bits: HUNDRED })
}

/// What is stored of a state has its levels, where they are numbers, between 0 and
/// 100, and what a patch does not give stays as it was.
pub proof fn patches_are_bounded_and_partial(
    patch: JsonView,
    before: CharacterStateView,
    now: Timestamp,
)
    ensures
        patched_state(patch, before, now) matches Ok(after) ==> {
            &&& !after.energy.nan() ==> is_percent(after.energy)
            &&& !after.attention.nan() ==> is_percent(after.attention)
            &&& !after.stress.nan() ==> is_percent(after.stress)
            &&& after.last_proactive_at == before.last_proactive_at
            &&& !patch.has("energy"@) ==> after.energy == before.bounded().energy
            &&& !patch.has("attention"@) ==> after.attention == before.bounded().attention
            &&& !patch.has("stress"@) ==> after.stress == before.bounded().stress
            &&& !patch.has("current_activity"@) ==> after.current_activity
                == before.current_activity
            &&& !patch.has("social_mood"@) ==> after.social_mood == before.social_mood
        },
{
    match patched_state(patch, before, now) {
        Ok(after) => {
            let zero = Scalar { bits: ZERO };
            let hundred = Scalar { bits: HUNDRED };
            let energy = patched_level(patch, "energy"@, before.energy)->Ok_0;
            let attention = patched_level(patch, "attention"@, before.attention)->Ok_0;
            let stress = patched_level(patch, "stress"@, before.stress)->Ok_0;
            crate::scalar::bounding_is_a_projection(energy, zero, hundred);
            crate::scalar::bounding_is_a_projection(attention, zero, hundred);
            crate::scalar::bounding_is_a_projection(stress, zero, hundred);
        },
        Err(_) => {},
    }
}

proof fn lemma_methods_differ()
    ensures
        "message.send"@.len() == 12 && "message.send"@[2] == 's' && "message.send"@[8] == 's',
        "character.read"@.len() == 14,
        "character.state.read"@.len() == 20,
        "character.state.write"@.len() == 21,
        "memory.read"@.len() == 11,
        "memory.write"@.len() == 12 && "memory.write"@[2] == 'm',
        "relationship.read"@.len() == 17,
        "relationship.write"@.len() == 18 && "relationship.write"@[0] == 'r',
        "plugin_data.get"@.len() == 15 && "plugin_data.get"@[12] == 'g',
        "plugin_data.set"@.len() == 15 && "plugin_data.set"@[12] == 's',
        "plugin_data.delete"@.len() == 18 && "plugin_data.delete"@[0] == 'p',
        "plugin_data.list"@.len() == 16 && "plugin_data.list"@[0] == 'p',
        "llm.call"@.len() == 8,
        "message.read"@.len() == 12 && "message.read"@[2] == 's' && "message.read"@[8] == 'r',
        "scheduler.create"@.len() == 16 && "scheduler.create"@[0] == 's',
{
    reveal_strlit("message.send");
    reveal_strlit("character.read");
    reveal_strlit("character.state.read");
    reveal_strlit("character.state.write");
    reveal_strlit("memory.read");
    reveal_strlit("memory.write");
    reveal_strlit("relationship.read");
    reveal_strlit("relationship.write");
    reveal_strlit("plugin_data.get");
    reveal_strlit("plugin_data.set");
    reveal_strlit("plugin_data.delete");
    reveal_strlit("plugin_data.list");
    reveal_strlit("llm.call");
    reveal_strlit("message.read");
    reveal_strlit("scheduler.create");
}

/// A message is sent to the conversation that is named, with the content that is
/// given; both must be given, as an integer and as a text.
pub proof fn plugins_send_what_they_give(
    plugin: &str,
    method: &str,
    params: Json,
    now: Timestamp,
    r: Result<ApiPlan, String>,
)
    requires
        method@ == "message.send"@,
        call_ensures(dispatch, (plugin, Some(Ok::<(), String>(())), method, &params, now), r),
    ensures
        r is Ok <==> params.model().signed_at("conversation_id"@) is Some
            && params.model().string_at("content"@) is Some,
        r matches Ok(plan) ==> (plan matches ApiPlan::Send { conversation_id, content } && Some(
            conversation_id,
        ) == params.model().signed_at("conversation_id"@) && Some(content@)
            == params.model().string_at("content"@)),
{
    lemma_methods_differ();
}

/// Characters, states and relationships are looked up, or written, for the numbers
/// that are named: one character or, where none is named, all; the state of one; the
/// relationship of one to one participant or, where none is named, to all.
pub proof fn plugins_reach_what_they_name(
    plugin: &str,
    method: &str,
    params: Json,
    now: Timestamp,
    r: Result<ApiPlan, String>,
)
    requires
        call_ensures(dispatch, (plugin, Some(Ok::<(), String>(())), method, &params, now), r),
    ensures
        ({
            let p = params.model();
            let c = p.signed_at("character_id"@);
            let q = p.signed_at("participant_id"@);
            &&& method@ == "character.read"@ && c is Some ==> r == Ok::<ApiPlan, String>(
                ApiPlan::ReadCharacter(c),
            )
            &&& method@ == "character.read"@ && p.field("character_id"@) is None ==> r == Ok::<
                ApiPlan,
                String,
            >(ApiPlan::ReadCharacter(None))
            &&& method@ == "character.state.read"@ ==> if c is Some {
                r == Ok::<ApiPlan, String>(ApiPlan::ReadState(c->0))
            } else {
                r is Err
            }
            &&& method@ == "character.state.write"@ ==> if c is Some {
                r == Ok::<ApiPlan, String>(ApiPlan::WriteState(c->0))
            } else {
                r is Err
            }
            &&& method@ == "relationship.read"@ && c is Some && q is Some ==> r == Ok::<
                ApiPlan,
                String,
            >(ApiPlan::ReadRelationships { character_id: c->0, participant: q })
            &&& method@ == "relationship.read"@ && c is Some && p.field("participant_id"@) is None
                ==> r == Ok::<ApiPlan, String>(
                ApiPlan::ReadRelationships { character_id: c->0, participant: None },
            )
            &&& method@ == "relationship.read"@ && c is None ==> r is Err
            &&& method@ == "relationship.write"@ ==> if c is Some && q is Some {
                r == Ok::<ApiPlan, String>(
                    ApiPlan::WriteRelationship { character_id: c->0, participant_id: q->0 },
                )
            } else {
                r is Err
            }
        }),
{
    lemma_methods_differ();
    match r {
        Ok(plan) => {
            assert(plan@ == plan_of(r)->Ok_0);
        },
        Err(e) => {},
    }
}

/// Memories are looked up for the character that is named: as many as are wanted,
/// between 1 and 500, and 20 where no number is given; by all the words that are
/// given, else by the kind, else all.
pub proof fn plugins_search_memories(
    plugin: &str,
    method: &str,
    params: Json,
    now: Timestamp,
    r: Result<ApiPlan, String>,
    i: int,
)
    requires
        method@ == "memory.read"@,
        call_ensures(dispatch, (plugin, Some(Ok::<(), String>(())), method, &params, now), r),
        r is Ok,
    ensures
        ({
            let p = params.model();
            let n = p.signed_at("limit"@);
            r->Ok_0 matches ApiPlan::ReadMemories { character_id, limit, filter } && {
                &&& Some(character_id) == p.signed_at("character_id"@)
                &&& n is None ==> limit == 20
                &&& n is Some && 1 <= n->0 <= 500 ==> limit == n->0
                &&& n is Some && n->0 < 1 ==> limit == 1
                &&& n is Some && n->0 > 500 ==> limit == 500
                &&& p.field("keywords"@) matches Some(JsonView::Array(items)) ==> (
                filter matches MemoryFilter::Keywords(words) && words@.len() == items.len() && (0
                    <= i < items.len() ==> items[i] == JsonView::Text(words@[i]@)))
                &&& p.field("keywords"@) is None && p.field("memory_type"@) is None ==> filter
                    == MemoryFilter::Kind(None)
                &&& p.field("keywords"@) is None && p.string_at("memory_type"@) is Some ==> (
                filter matches MemoryFilter::Kind(Some(kind)) && memory_type_named(
                    lowercase(trimmed(p.string_at("memory_type"@)->0)),
                ) == Ok::<MemoryType, Seq<char>>(kind))
            }
        }),
{
    lemma_methods_differ();
    let p = params.model();
    assert(r->Ok_0@ == plan_of(r)->Ok_0);
    if let Some(JsonView::Array(items)) = p.field("keywords"@) {
        if 0 <= i < items.len() {
            lemma_words(items, i);
        }
        lemma_words_len(items);
        if let ApiPlan::ReadMemories { character_id, limit, filter } = r->Ok_0 {
            if let MemoryFilter::Keywords(words) = filter {
                assert(texts(words@).len() == words@.len());
                if 0 <= i < items.len() {
                    assert(texts(words@)[i] == words@[i]@);
                }
            }
        }
    }
}

proof fn lemma_words_len(items: Seq<JsonView>)
    ensures
        words_of(items) matches Ok(words) ==> words.len() == items.len(),
    decreases items.len(),
{
    if items.len() > 0 {
        lemma_words_len(items.drop_last());
    }
}

proof fn lemma_words(items: Seq<JsonView>, i: int)
    requires
        0 <= i < items.len(),
    ensures
        words_of(items) matches Ok(words) ==> words.len() == items.len() && items[i]
            == JsonView::Text(words[i]),
    decreases items.len(),
{
    lemma_words_len(items.drop_last());
    if i < items.len() - 1 {
        lemma_words(items.drop_last(), i);
    }
}

/// The kinds of memories and the roles go by their names.
pub proof fn kinds_and_roles_go_by_name(name: Seq<char>)
    ensures
        memory_type_named("episodic"@) == Ok::<MemoryType, Seq<char>>(MemoryType::Episodic),
        memory_type_named("semantic"@) == Ok::<MemoryType, Seq<char>>(MemoryType::Semantic),
        memory_type_named("relationship"@) == Ok::<MemoryType, Seq<char>>(
            MemoryType::Relationship,
        ),
        memory_type_named("system"@) == Ok::<MemoryType, Seq<char>>(MemoryType::System),
        memory_type_named(name) is Ok ==> name == "episodic"@ || name == "semantic"@ || name
            == "relationship"@ || name == "system"@,
        role_named("user"@) == Ok::<LlmRole, Seq<char>>(LlmRole::User),
        role_named("assistant"@) == Ok::<LlmRole, Seq<char>>(LlmRole::Assistant),
        role_named("system"@) == Ok::<LlmRole, Seq<char>>(LlmRole::System),
        role_named(name) is Ok ==> name == "user"@ || name == "assistant"@ || name == "system"@,
{
    reveal_strlit("episodic");
    reveal_strlit("semantic");
    reveal_strlit("relationship");
    reveal_strlit("system");
    reveal_strlit("user");
    reveal_strlit("assistant");
    assert("episodic"@.len() == 8 && "semantic"@.len() == 8 && "relationship"@.len() == 12
        && "system"@.len() == 6 && "user"@.len() == 4 && "assistant"@.len() == 9);
    assert("episodic"@[0] == 'e' && "semantic"@[0] == 's');
}

/// A memory is stored for the character and the conversation that are named, with its
/// content; without a kind it is an event, without an importance it has 0.5, and an
/// importance that is given is bounded to 0 and 1.
pub proof fn plugins_store_memories(
    plugin: &str,
    method: &str,
    params: Json,
    now: Timestamp,
    r: Result<ApiPlan, String>,
)
    requires
        method@ == "memory.write"@,
        call_ensures(dispatch, (plugin, Some(Ok::<(), String>(())), method, &params, now), r),
    ensures
        ({
            let p = params.model();
            &&& p.signed_at("character_id"@) is None || p.string_at("content"@) is None ==> r is Err
            &&& r matches Ok(plan) ==> (plan matches ApiPlan::WriteMemory(m) && {
                &&& m.id == 0
                &&& Some(m.character_id) == p.signed_at("character_id"@)
                &&& Some(m.content@) == p.string_at("content"@)
                &&& m.conversation_id == p.signed_at("conversation_id"@)
                &&& p.field("memory_type"@) is None ==> m.memory_type == MemoryType::Episodic
                &&& p.string_at("memory_type"@) is Some ==> memory_type_named(
                    lowercase(trimmed(p.string_at("memory_type"@)->0)),
                ) == Ok::<MemoryType, Seq<char>>(m.memory_type)
                &&& p.field("importance"@) is None ==> m.importance.bits == 0x3FE0_0000_0000_0000
                &&& p.field("importance"@) is Some && p.field("importance"@)->0.double() is Some
                    ==> m.importance == p.field("importance"@)->0.double()->0.bounded(
                    Scalar { bits: 0 },
                    Scalar { bits: 0x3FF0_0000_0000_0000 },
                )
                &&& m.created_at == now && m.last_accessed == now
            })
        }),
{
    lemma_methods_differ();
    match r {
        Ok(plan) => {
            assert(plan@ == plan_of(r)->Ok_0);
        },
        Err(e) => {},
    }
}

/// A plugin works on its own data by key, whatever its permissions: it looks one up,
/// puts a value, `null` too, deletes one, or lists all.
pub proof fn plugins_keep_data_by_key(
    plugin: &str,
    verdict: Result<(), String>,
    method: &str,
    params: Json,
    now: Timestamp,
    r: Result<ApiPlan, String>,
)
    requires
        call_ensures(dispatch, (plugin, Some(verdict), method, &params, now), r),
    ensures
        ({
            let key = params.model().string_at("key"@);
            let value = params.model().field("value"@);
            &&& method@ == "plugin_data.get"@ && key is Some ==> plan_of(r) == Ok::<
                ApiPlanView,
                Seq<char>,
            >(ApiPlanView::Data(plugin@, DataOpView::Get(key->0)))
            &&& method@ == "plugin_data.set"@ && key is Some && value is Some ==> plan_of(r) == Ok::<
                ApiPlanView,
                Seq<char>,
            >(ApiPlanView::Data(plugin@, DataOpView::Put(key->0, value->0)))
            &&& method@ == "plugin_data.delete"@ && key is Some ==> plan_of(r) == Ok::<
                ApiPlanView,
                Seq<char>,
            >(ApiPlanView::Data(plugin@, DataOpView::Delete(key->0)))
            &&& method@ == "plugin_data.list"@ ==> plan_of(r) == Ok::<ApiPlanView, Seq<char>>(
                ApiPlanView::Data(plugin@, DataOpView::List),
            )
            &&& (method@ == "plugin_data.get"@ || method@ == "plugin_data.set"@ || method@
                == "plugin_data.delete"@) && key is None ==> r is Err
            &&& method@ == "plugin_data.set"@ && value is None ==> r is Err
        }),
{
    lemma_methods_differ();
    reveal_strlit("plugin_data.");
    reveal_strlit("plugin_data.get");
    reveal_strlit("plugin_data.set");
    reveal_strlit("plugin_data.delete");
    reveal_strlit("plugin_data.list");
    let n = "plugin_data."@.len() as int;
    assert("plugin_data.get"@.subrange(0, n) =~= "plugin_data."@);
    assert("plugin_data.set"@.subrange(0, n) =~= "plugin_data."@);
    assert("plugin_data.delete"@.subrange(0, n) =~= "plugin_data."@);
    assert("plugin_data.list"@.subrange(0, n) =~= "plugin_data."@);
}

/// A call of the model hands on every message in its order, each with its role and its
/// content; there must be one at least. Its priority is 2 unless one below 256 is
/// given.
pub proof fn plugins_ask_the_model(
    plugin: &str,
    method: &str,
    params: Json,
    now: Timestamp,
    r: Result<ApiPlan, String>,
    i: int,
)
    requires
        method@ == "llm.call"@,
        call_ensures(dispatch, (plugin, Some(Ok::<(), String>(())), method, &params, now), r),
    ensures
        ({
            let p = params.model();
            &&& r matches Ok(plan) ==> (plan matches ApiPlan::Llm(call)
                && p.field("messages"@) matches Some(JsonView::Array(items)) && {
                &&& items.len() > 0
                &&& call.messages@.len() == items.len()
                &&& 0 <= i < items.len() ==> items[i].string_at("content"@) == Some(
                    call.messages@[i].content@,
                ) && items[i].string_at("role"@) is Some && role_named(
                    lowercase(trimmed(items[i].string_at("role"@)->0)),
                ) == Ok::<LlmRole, Seq<char>>(call.messages@[i].role)
                &&& p.field("priority"@) is None ==> call.priority == 2
                &&& p.field("priority"@) is Some && p.field("priority"@)->0.unsigned() is Some
                    ==> call.priority == p.field("priority"@)->0.unsigned()->0
                &&& p.field("system"@) is None ==> call.system is None
                &&& p.string_at("system"@) is Some ==> call.system is Some && call.system->0@
                    == p.string_at("system"@)->0
            })
            &&& !(p.field("messages"@) matches Some(JsonView::Array(_))) ==> r is Err
        }),
{
    lemma_methods_differ();
    let p = params.model();
    if let Ok(plan) = r {
        assert(plan@ == plan_of(r)->Ok_0);
        if let Some(JsonView::Array(items)) = p.field("messages"@) {
            lemma_messages_len(items);
            if 0 <= i < items.len() {
                lemma_messages(items, i);
            }
            if let ApiPlan::Llm(call) = plan {
                assert(messages_said(call.messages@).len() == call.messages@.len());
                if 0 <= i < items.len() {
                    assert(messages_said(call.messages@)[i] == (
                        call.messages@[i].role,
                        call.messages@[i].content@,
                    ));
                }
            }
        }
    }
}

proof fn lemma_messages_len(items: Seq<JsonView>)
    ensures
        messages_of(items) matches Ok(list) ==> list.len() == items.len(),
    decreases items.len(),
{
    if items.len() > 0 {
        lemma_messages_len(items.drop_last());
    }
}

proof fn lemma_messages(items: Seq<JsonView>, i: int)
    requires
        0 <= i < items.len(),
    ensures
        messages_of(items) matches Ok(list) ==> list.len() == items.len() && message_of(items[i])
            == Ok::<(LlmRole, Seq<char>), Seq<char>>(list[i]),
    decreases items.len(),
{
    lemma_messages_len(items.drop_last());
    if i < items.len() - 1 {
        lemma_messages(items.drop_last(), i);
    }
}

/// A method that no name stands for, and one that is not open, is refused, and so is
/// any method for a plugin that is not registered or lacks the permission, but for
/// its own data.
pub proof fn what_plugins_are_refused(
    plugin: &str,
    verdict: Option<Result<(), String>>,
    method: &str,
    params: Json,
    now: Timestamp,
    r: Result<ApiPlan, String>,
)
    requires
        call_ensures(dispatch, (plugin, verdict, method, &params, now), r),
    ensures
        verdict is None ==> r is Err,
        (verdict matches Some(Err(e)) && method@ == "message.send"@) ==> r is Err && r->Err_0@
            == verdict->0->Err_0@,
        (verdict matches Some(Err(_))) && (method@ == "character.read"@ || method@
            == "character.state.read"@ || method@ == "character.state.write"@ || method@
            == "memory.read"@ || method@ == "memory.write"@ || method@ == "relationship.read"@
            || method@ == "relationship.write"@ || method@ == "llm.call"@) ==> r is Err,
        method@ == "message.read"@ || method@ == "scheduler.create"@ ==> r is Err,
        r is Ok ==> method@ == "message.send"@ || method@ == "character.read"@ || method@
            == "character.state.read"@ || method@ == "character.state.write"@ || method@
            == "memory.read"@ || method@ == "memory.write"@ || method@ == "relationship.read"@
            || method@ == "relationship.write"@ || method@ == "plugin_data.get"@ || method@
            == "plugin_data.set"@ || method@ == "plugin_data.delete"@ || method@
            == "plugin_data.list"@ || method@ == "llm.call"@,
{
    lemma_methods_differ();
    reveal_strlit("plugin_data.");
    reveal_strlit("message.send");
    reveal_strlit("character.read");
    reveal_strlit("character.state.read");
    reveal_strlit("character.state.write");
    reveal_strlit("memory.read");
    reveal_strlit("memory.write");
    reveal_strlit("relationship.read");
    reveal_strlit("relationship.write");
    reveal_strlit("llm.call");
    if is_own_data(method@) {
        let head = method@.subrange(0, "plugin_data."@.len() as int);
        assert(head[0] == 'p');
        assert(method@[0] == 'p');
    }
}

/// Writing a state sets what is given, within 0 and 100, and keeps the rest; the
/// character must exist, and `state` must be an object.
pub proof fn plugins_write_states_in_part(
    params: Json,
    known: bool,
    before: CharacterState,
    now: Timestamp,
    r: Result<CharacterState, String>,
)
    requires
        call_ensures(
            api_character_state_write,
            (
                &params,
                Ok::<bool, RepositoryError>(known),
                Ok::<Option<CharacterState>, RepositoryError>(Some(before)),
                now,
            ),
            r,
        ),
    ensures
        !known ==> r is Err,
        !(params.model().field("state"@) matches Some(JsonView::Object(_))) ==> r is Err,
        r matches Ok(after) ==> {
            let patch = params.model().field("state"@)->0;
            &&& set_within(patch, "energy"@, before.energy, after@.energy)
            &&& set_within(patch, "attention"@, before.attention, after@.attention)
            &&& set_within(patch, "stress"@, before.stress, after@.stress)
            &&& after@.current_activity == if patch.field("current_activity"@) is Some {
                patch.string_at("current_activity"@)
            } else {
                before@.current_activity
            }
            &&& after@.social_mood == if patch.field("social_mood"@) is Some {
                patch.string_at("social_mood"@)
            } else {
                before@.social_mood
            }
            &&& after@.last_updated == now
            &&& after@.last_proactive_at == before.last_proactive_at
        },
{
    if let Ok(after) = r {
        assert(after@ == state_told(r)->Ok_0);
    }
}

/// A level within 0 and 100: the one that is given, else the one before.
pub open spec fn set_within(patch: JsonView, key: Seq<char>, before: Scalar, after: Scalar) -> bool {
    let zero = Scalar { bits: 0 };
    let hundred = Scalar { bits: 0x4059_0000_0000_0000 };
    match patch.field(key) {
        None => after == before.bounded(zero, hundred),
        Some(v) => v.double() matches Some(x) && after == x.bounded(zero, hundred),
    }
}

/// Writing a relationship sets each dimension that is given, within 0 and 1, and keeps
/// the rest; the relationship to somebody new starts as that between strangers.
pub proof fn plugins_write_relationships_in_part(
    params: Json,
    character_id: i64,
    participant_id: i64,
    found: Option<Relationship>,
    now: Timestamp,
    fresh: Relationship,
    r: Result<Relationship, String>,
)
    requires
        call_ensures(
            api_relationship_write,
            (
                &params,
                character_id,
                participant_id,
                Ok::<Option<Relationship>, RepositoryError>(found),
                now,
            ),
            r,
        ),
        call_ensures(Relationship::new, (character_id, participant_id, now), fresh),
    ensures
        r matches Ok(after) ==> {
            let before = match found {
                Some(x) => x,
                None => fresh,
            };
            let p = params.model();
            &&& shared(p, "familiarity"@, before.familiarity, after.familiarity)
            &&& shared(p, "affection"@, before.affection, after.affection)
            &&& shared(p, "trust"@, before.trust, after.trust)
            &&& shared(p, "respect"@, before.respect, after.respect)
            &&& shared(p, "annoyance"@, before.annoyance, after.annoyance)
            &&& after.intimacy == before.intimacy
            &&& after.interaction_count == before.interaction_count
            &&& after.last_interaction == before.last_interaction
            &&& after.character_id == before.character_id && after.participant_id
                == before.participant_id && after.created_at == before.created_at
            &&& after.updated_at == now
        },
{
}

/// A dimension: the one that is given, within 0 and 1, else the one before.
pub open spec fn shared(params: JsonView, key: Seq<char>, before: Scalar, after: Scalar) -> bool {
    match params.field(key) {
        None => after == before,
        Some(JsonView::Null) => after == before,
        Some(v) => v.double() matches Some(x) && after == x.bounded(
            Scalar { bits: 0 },
            Scalar { bits: 0x3FF0_0000_0000_0000 },
        ),
    }
}

/// A parameter that is missing or `null` is not given; one of the wrong kind is an
/// error; any other is read as it is.
pub proof fn parameters_are_read_by_kind(
    params: Json,
    key: &str,
    a: Result<Option<i64>, String>,
    b: Result<Option<Scalar>, String>,
    c: Result<Option<u8>, String>,
    d: Result<Option<String>, String>,
    e: Result<i64, String>,
    f: Result<String, String>,
)
    requires
        call_ensures(optional_i64, (&params, key), a),
        call_ensures(optional_f64, (&params, key), b),
        call_ensures(optional_u8, (&params, key), c),
        call_ensures(optional_str, (&params, key), d),
        call_ensures(require_i64, (&params, key), e),
        call_ensures(require_str, (&params, key), f),
    ensures
        ({
            let v = params.model().field(key@);
            let absent = v is None || v == Some(JsonView::Null);
            &&& absent ==> a == Ok::<Option<i64>, String>(None) && b == Ok::<Option<Scalar>, String>(
                None,
            ) && c == Ok::<Option<u8>, String>(None) && d == Ok::<Option<String>, String>(None)
                && e is Err && f is Err
            &&& !absent && v->0.signed() is Some ==> a == Ok::<Option<i64>, String>(v->0.signed())
                && e == Ok::<i64, String>(v->0.signed()->0)
            &&& !absent && v->0.signed() is None ==> a is Err && e is Err
            &&& !absent && v->0.double() is Some ==> b == Ok::<Option<Scalar>, String>(
                v->0.double(),
            )
            &&& !absent && v->0.double() is None ==> b is Err
            &&& !absent && v->0.unsigned() is Some && v->0.unsigned()->0 < 256 ==> c == Ok::<
                Option<u8>,
                String,
            >(Some(v->0.unsigned()->0 as u8))
            &&& !absent && (v->0.unsigned() is None || v->0.unsigned()->0 >= 256) ==> c is Err
            &&& v matches Some(JsonView::Text(s)) ==> d is Ok && d->Ok_0 is Some && d->Ok_0->0@ == s
                && f is Ok && f->Ok_0@ == s
            &&& !absent && !(v->0 is Text) ==> d is Err && f is Err
        }),
{
    let v = params.model().field(key@);
    if let Ok(Some(s)) = d {
        assert(told_if_any(d) == Ok::<Option<Seq<char>>, Seq<char>>(Some(s@)));
    }
    if let Ok(s) = f {
        assert(told(f) == Ok::<Seq<char>, Seq<char>>(s@));
    }
}

/// What is found under a key is given, `null` where nothing is; deleting tells whether
/// there was something.
pub proof fn plugin_data_is_answered(
    value: Json,
    found: Result<Json, String>,
    nothing: Result<Json, String>,
    there: Result<bool, String>,
    not_there: Result<bool, String>,
)
    requires
        call_ensures(data_found, (Ok::<Option<Json>, RepositoryError>(Some(value)),), found),
        call_ensures(data_found, (Ok::<Option<Json>, RepositoryError>(None),), nothing),
        call_ensures(
            data_deleted,
            (Ok::<Option<Json>, RepositoryError>(Some(value)), Ok::<(), RepositoryError>(())),
            there,
        ),
        call_ensures(
            data_deleted,
            (Ok::<Option<Json>, RepositoryError>(None), Ok::<(), RepositoryError>(())),
            not_there,
        ),
    ensures
        found == Ok::<Json, String>(value),
        nothing == Ok::<Json, String>(Json::Null),
        there == Ok::<bool, String>(true),
        not_there == Ok::<bool, String>(false),
{
}

/// What was done is answered with what came of it, and what failed with the text of
/// the error; a model that is not there is an error too.
pub proof fn outcomes_are_answered<T>(
    value: T,
    e: RepositoryError,
    f: RuntimeError,
    a: Result<T, String>,
    b: Result<T, String>,
    c: Result<T, String>,
    d: Result<T, String>,
    g: Result<T, String>,
    h: Result<T, String>,
)
    requires
        call_ensures(stored::<T>, (Ok::<T, RepositoryError>(value),), a),
        call_ensures(stored::<T>, (Err::<T, RepositoryError>(e),), b),
        call_ensures(carried_out::<T>, (Ok::<T, RuntimeError>(value),), c),
        call_ensures(carried_out::<T>, (Err::<T, RuntimeError>(f),), d),
        call_ensures(answered::<T>, (Ok::<Option<T>, RuntimeError>(Some(value)),), g),
        call_ensures(answered::<T>, (Ok::<Option<T>, RuntimeError>(None),), h),
    ensures
        a == Ok::<T, String>(value) && c == Ok::<T, String>(value) && g == Ok::<T, String>(value),
        b is Err && b->Err_0@ == e.text(),
        d is Err && d->Err_0@ == f.text(),
        h is Err,
{
}

/// A state that was never stored is written on top of a fresh one: an energy of 72, an
/// attention of 50 and a stress of 10, calm and without an activity.
pub proof fn plugins_write_fresh_states(
    params: Json,
    now: Timestamp,
    r: Result<CharacterState, String>,
)
    requires
        call_ensures(
            api_character_state_write,
            (
                &params,
                Ok::<bool, RepositoryError>(true),
                Ok::<Option<CharacterState>, RepositoryError>(None),
                now,
            ),
            r,
        ),
    ensures
        r matches Ok(after) ==> {
            let patch = params.model().field("state"@)->0;
            &&& set_within(patch, "energy"@, Scalar { bits: 0x4052_0000_0000_0000 }, after@.energy)
            &&& set_within(
                patch,
                "attention"@,
                Scalar { bits: 0x4049_0000_0000_0000 },
                after@.attention,
            )
            &&& set_within(patch, "stress"@, Scalar { bits: 0x4024_0000_0000_0000 }, after@.stress)
            &&& patch.field("social_mood"@) is None ==> after@.social_mood == Some("calm"@)
            &&& patch.field("current_activity"@) is None ==> after@.current_activity is None
            &&& after@.last_updated == now
        },
{
    if let Ok(after) = r {
        assert(after@ == state_told(r)->Ok_0);
    }
}

} // verus!
