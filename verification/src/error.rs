//! Error types and the texts that users and plugins read.

use vstd::prelude::*;

use crate::text::{concat, i64_text, integer_text, owned};

verus! {

/// Errors of the storage layer.
#[derive(Debug)]
pub enum StorageError {
    Database(String),
    Connection(String),
    Migration(String),
    Serialization(String),
}

/// Errors of the repositories.
#[derive(Debug)]
pub enum RepositoryError {
    NotFound(String),
    AlreadyExists(String),
    Database(String),
    Internal(String),
}

/// Errors of the domain layer.
#[derive(Debug)]
pub enum DomainError {
    CharacterNotFound(i64),
    CharacterAlreadyExists(String),
    ConversationNotFound(i64),
    MessageNotFound(i64),
    MemoryNotFound(i64),
    RelationshipNotFound { character_id: i64, participant_id: i64 },
    InvalidState(String),
    InvalidDefinition(String),
    Internal(String),
}

/// Errors of the runtime as a whole.
#[derive(Debug)]
pub enum RuntimeError {
    Storage(StorageError),
    Repository(RepositoryError),
    Domain(DomainError),
    Config(String),
    Adapter(String),
    Plugin(String),
    Llm(String),
    CardImport(String),
    Internal(String),
}

impl StorageError {
    /// The text that names the error.
    pub open spec fn text(self) -> Seq<char> {
        match self {
            StorageError::Database(s) => "数据库错误："@ + s@,
            StorageError::Connection(s) => "连接错误："@ + s@,
            StorageError::Migration(s) => "迁移错误："@ + s@,
            StorageError::Serialization(s) => "序列化错误："@ + s@,
        }
    }

    /// The text that names the error.
    pub fn message(&self) -> (r: String)
        ensures
            r@ == self.text(),
    {
        match self {
            StorageError::Database(s) => concat("数据库错误：", s.as_str()),
            StorageError::Connection(s) => concat("连接错误：", s.as_str()),
            StorageError::Migration(s) => concat("迁移错误：", s.as_str()),
            StorageError::Serialization(s) => concat("序列化错误：", s.as_str()),
        }
    }
}

impl RepositoryError {
    /// The text that names the error.
    pub open spec fn text(self) -> Seq<char> {
        match self {
            RepositoryError::NotFound(s) => "未找到："@ + s@,
            RepositoryError::AlreadyExists(s) => "已存在："@ + s@,
            RepositoryError::Database(s) => "数据库错误："@ + s@,
            RepositoryError::Internal(s) => "内部错误："@ + s@,
        }
    }

    /// The text that names the error.
    pub fn message(&self) -> (r: String)
        ensures
            r@ == self.text(),
    {
        match self {
            RepositoryError::NotFound(s) => concat("未找到：", s.as_str()),
            RepositoryError::AlreadyExists(s) => concat("已存在：", s.as_str()),
            RepositoryError::Database(s) => concat("数据库错误：", s.as_str()),
            RepositoryError::Internal(s) => concat("内部错误：", s.as_str()),
        }
    }

    /// The error for a failed query: a missing row is "not found", anything else
    /// a database error with its text.
    pub fn from_query(row_not_found: bool, text: String) -> (r: RepositoryError)
        ensures
            row_not_found ==> (r matches RepositoryError::NotFound(s) && s@ == "row not found"@),
            !row_not_found ==> r == RepositoryError::Database(text),
    {
        if row_not_found {
            RepositoryError::NotFound(owned("row not found"))
        } else {
            RepositoryError::Database(text)
        }
    }
}

impl DomainError {
    /// The text that names the error.
    pub open spec fn text(self) -> Seq<char> {
        match self {
            DomainError::CharacterNotFound(id) => "角色未找到："@ + integer_text(id as int),
            DomainError::CharacterAlreadyExists(s) => "角色已存在："@ + s@,
            DomainError::ConversationNotFound(id) => "会话未找到："@ + integer_text(id as int),
            DomainError::MessageNotFound(id) => "消息未找到："@ + integer_text(id as int),
            DomainError::MemoryNotFound(id) => "记忆未找到："@ + integer_text(id as int),
            DomainError::RelationshipNotFound { character_id, participant_id } => "关系未找到："@
                + integer_text(character_id as int) + "/"@ + integer_text(participant_id as int),
            DomainError::InvalidState(s) => "状态无效："@ + s@,
            DomainError::InvalidDefinition(s) => "角色定义无效："@ + s@,
            DomainError::Internal(s) => "内部错误："@ + s@,
        }
    }

    /// The text that names the error.
    pub fn message(&self) -> (r: String)
        ensures
            r@ == self.text(),
    {
        match self {
            DomainError::CharacterNotFound(id) => concat("角色未找到：", i64_text(*id).as_str()),
            DomainError::CharacterAlreadyExists(s) => concat("角色已存在：", s.as_str()),
            DomainError::ConversationNotFound(id) => concat("会话未找到：", i64_text(*id).as_str()),
            DomainError::MessageNotFound(id) => concat("消息未找到：", i64_text(*id).as_str()),
            DomainError::MemoryNotFound(id) => concat("记忆未找到：", i64_text(*id).as_str()),
            DomainError::RelationshipNotFound { character_id, participant_id } => {
                let head = concat("关系未找到：", i64_text(*character_id).as_str());
                let slash = concat(head.as_str(), "/");
                concat(slash.as_str(), i64_text(*participant_id).as_str())
            },
            DomainError::InvalidState(s) => concat("状态无效：", s.as_str()),
            DomainError::InvalidDefinition(s) => concat("角色定义无效：", s.as_str()),
            DomainError::Internal(s) => concat("内部错误：", s.as_str()),
        }
    }
}

impl RuntimeError {
    /// The text that names the error.
    pub open spec fn text(self) -> Seq<char> {
        match self {
            RuntimeError::Storage(e) => "存储错误："@ + e.text(),
            RuntimeError::Repository(e) => "仓储错误："@ + e.text(),
            RuntimeError::Domain(e) => "领域错误："@ + e.text(),
            RuntimeError::Config(s) => "配置错误："@ + s@,
            RuntimeError::Adapter(s) => "适配器错误："@ + s@,
            RuntimeError::Plugin(s) => "插件错误："@ + s@,
            RuntimeError::Llm(s) => "LLM 错误："@ + s@,
            RuntimeError::CardImport(s) => "角色卡导入错误："@ + s@,
            RuntimeError::Internal(s) => "内部错误："@ + s@,
        }
    }

    /// The text that names the error.
    pub fn message(&self) -> (r: String)
        ensures
            r@ == self.text(),
    {
        match self {
            RuntimeError::Storage(e) => concat("存储错误：", e.message().as_str()),
            RuntimeError::Repository(e) => concat("仓储错误：", e.message().as_str()),
            RuntimeError::Domain(e) => concat("领域错误：", e.message().as_str()),
            RuntimeError::Config(s) => concat("配置错误：", s.as_str()),
            RuntimeError::Adapter(s) => concat("适配器错误：", s.as_str()),
            RuntimeError::Plugin(s) => concat("插件错误：", s.as_str()),
            RuntimeError::Llm(s) => concat("LLM 错误：", s.as_str()),
            RuntimeError::CardImport(s) => concat("角色卡导入错误：", s.as_str()),
            RuntimeError::Internal(s) => concat("内部错误：", s.as_str()),
        }
    }
}

impl From<StorageError> for RuntimeError {
    fn from(e: StorageError) -> (r: Self) {
        RuntimeError::Storage(e)
    }
}

impl vstd::std_specs::convert::FromSpecImpl<StorageError> for RuntimeError {
    open spec fn obeys_from_spec() -> bool {
        true
    }

    open spec fn from_spec(e: StorageError) -> Self {
        RuntimeError::Storage(e)
    }
}

impl From<RepositoryError> for RuntimeError {
    fn from(e: RepositoryError) -> (r: Self) {
        RuntimeError::Repository(e)
    }
}

impl vstd::std_specs::convert::FromSpecImpl<RepositoryError> for RuntimeError {
    open spec fn obeys_from_spec() -> bool {
        true
    }

    open spec fn from_spec(e: RepositoryError) -> Self {
        RuntimeError::Repository(e)
    }
}

impl From<DomainError> for RuntimeError {
    fn from(e: DomainError) -> (r: Self) {
        RuntimeError::Domain(e)
    }
}

impl vstd::std_specs::convert::FromSpecImpl<DomainError> for RuntimeError {
    open spec fn obeys_from_spec() -> bool {
        true
    }

    open spec fn from_spec(e: DomainError) -> Self {
        RuntimeError::Domain(e)
    }
}

/// The text of an error ends with what it is about, whatever layers it came through.
pub proof fn errors_tell_what_they_are_about(s: String, id: i64, e: RepositoryError, d: DomainError)
    ensures
        RepositoryError::NotFound(s).text() == "未找到："@ + s@,
        RepositoryError::AlreadyExists(s).text() == "已存在："@ + s@,
        RepositoryError::Database(s).text() == "数据库错误："@ + s@,
        RepositoryError::Internal(s).text() == "内部错误："@ + s@,
        DomainError::CharacterNotFound(id).text() == "角色未找到："@ + integer_text(id as int),
        DomainError::ConversationNotFound(id).text() == "会话未找到："@ + integer_text(id as int),
        DomainError::InvalidState(s).text() == "状态无效："@ + s@,
        DomainError::InvalidDefinition(s).text() == "角色定义无效："@ + s@,
        DomainError::Internal(s).text() == "内部错误："@ + s@,
        RuntimeError::Repository(e).text() == "仓储错误："@ + e.text(),
        RuntimeError::Domain(d).text() == "领域错误："@ + d.text(),
        RuntimeError::Config(s).text() == "配置错误："@ + s@,
        RuntimeError::Adapter(s).text() == "适配器错误："@ + s@,
        RuntimeError::Plugin(s).text() == "插件错误："@ + s@,
        RuntimeError::Llm(s).text() == "LLM 错误："@ + s@,
        RuntimeError::CardImport(s).text() == "角色卡导入错误："@ + s@,
        RuntimeError::Internal(s).text() == "内部错误："@ + s@,
{
}

/// A row that is missing is "not found", and any other failure of a query is one of
/// the database.
pub proof fn missing_rows_are_not_found(text: String, a: RepositoryError, b: RepositoryError)
    requires
        call_ensures(RepositoryError::from_query, (true, text), a),
        call_ensures(RepositoryError::from_query, (false, text), b),
    ensures
        a is NotFound,
        b == RepositoryError::Database(text),
{
}

} // verus!
