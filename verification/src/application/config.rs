//! Configuration: defaults, validation and the templates for a first start.

use vstd::prelude::*;

use crate::adapters::onebot::OneBotConfig;
use crate::error::RuntimeError;
use crate::json::{Json, JsonView};
use crate::text::{concat, has_part, occurs_at, owned, same_text, texts, the_middle_is_a_part};

verus! {

/// Basic settings of the runtime.
#[derive(Debug)]
pub struct RuntimeConfig {
    /// Where the data lies.
    pub data_dir: String,
    /// Which log records are kept.
    pub log_level: String,
    /// How long an orderly stop may take, in seconds.
    pub shutdown_timeout_secs: u64,
    /// Where the plugins lie; without it there are none.
    pub plugins_dir: Option<String>,
    /// Who may give system commands; without it nobody may.
    pub admin_users: Option<Vec<String>>,
    /// How many events the event bus holds back for slow readers.
    pub broadcast_capacity: Option<usize>,
}

impl RuntimeConfig {
    /// The settings where no file gives any.
    pub open spec fn is_default(self) -> bool {
        &&& self.data_dir@ == "data"@
        &&& self.log_level@ == "info"@
        &&& self.shutdown_timeout_secs == 10
        &&& self.plugins_dir is None
        &&& self.admin_users is None
        &&& self.broadcast_capacity is None
    }
}

impl Default for RuntimeConfig {
    fn default() -> (r: RuntimeConfig)
        ensures
            r.is_default(),
    {
        RuntimeConfig {
            data_dir: owned("data"),
            log_level: owned("info"),
            shutdown_timeout_secs: 10,
            plugins_dir: None,
            admin_users: None,
            broadcast_capacity: None,
        }
    }
}

/// Settings of the language model.
#[derive(Debug)]
pub struct LlmConfig {
    /// Whether one is used at all.
    pub enabled: bool,
    /// The preferred provider.
    pub provider: Option<String>,
    /// Anything else that the provider wants to know.
    pub options: Json,
}

impl LlmConfig {
    /// The settings where no file gives any.
    pub open spec fn is_default(self) -> bool {
        &&& !self.enabled
        &&& self.provider is None
        &&& self.options.model() == JsonView::Object(Seq::empty())
    }
}

impl Default for LlmConfig {
    fn default() -> (r: LlmConfig)
        ensures
            r.is_default(),
    {
        LlmConfig { enabled: false, provider: None, options: Json::empty_object() }
    }
}

/// The level of detail is one that the log knows.
pub open spec fn known_level(level: Seq<char>) -> bool {
    level == "trace"@ || level == "debug"@ || level == "info"@ || level == "warn"@ || level
        == "error"@
}

/// Everything that is wrong with the settings, in the order of the checks.
pub open spec fn complaints(cfg: RuntimeConfig) -> Seq<Seq<char>> {
    let admins = if cfg.admin_users is None || cfg.admin_users->0@.len() == 0 {
        seq![
            "admin_users 未配置或为空！系统指令将无法执行。请在 runtime.toml 中添加 admin_users 字段。"@,
        ]
    } else {
        Seq::empty()
    };
    let level = if known_level(cfg.log_level@) {
        Seq::empty()
    } else {
        seq![
            "无效的 log_level："@ + cfg.log_level@
                + "，有效值：[\"trace\", \"debug\", \"info\", \"warn\", \"error\"]"@,
        ]
    };
    let timeout = if cfg.shutdown_timeout_secs == 0 {
        seq!["shutdown_timeout_secs 必须大于 0"@]
    } else {
        Seq::empty()
    };
    let capacity = if cfg.broadcast_capacity == Some(0usize) {
        seq!["broadcast_capacity 必须大于 0"@]
    } else {
        Seq::empty()
    };
    admins + level + timeout + capacity
}

/// Checks the settings and lists everything that is wrong with them.
pub fn validate_runtime(cfg: &RuntimeConfig) -> (errors: Vec<String>)
    ensures
        texts(errors@) == complaints(*cfg),
{
    let mut errors: Vec<String> = Vec::new();
    let unmanned = match &cfg.admin_users {
        None => true,
        Some(list) => list.len() == 0,
    };
    if unmanned {
        errors.push(
            owned(
                "admin_users 未配置或为空！系统指令将无法执行。请在 runtime.toml 中添加 admin_users 字段。",
            ),
        );
    }
    let level = cfg.log_level.as_str();
    if !(same_text(level, "trace") || same_text(level, "debug") || same_text(level, "info")
        || same_text(level, "warn") || same_text(level, "error")) {
        let head = concat("无效的 log_level：", level);
        errors.push(
            concat(
                head.as_str(),
                "，有效值：[\"trace\", \"debug\", \"info\", \"warn\", \"error\"]",
            ),
        );
    }
    if cfg.shutdown_timeout_secs == 0 {
        errors.push(owned("shutdown_timeout_secs 必须大于 0"));
    }
    if let Some(cap) = cfg.broadcast_capacity {
        if cap == 0 {
            errors.push(owned("broadcast_capacity 必须大于 0"));
        }
    }
    assert(texts(errors@) =~= complaints(*cfg));
    errors
}

/// The runtime settings, from what came of reading their file: nothing where it
/// does not exist.
pub fn load_runtime(file: Result<Option<RuntimeConfig>, RuntimeError>) -> (r: Result<
    RuntimeConfig,
    RuntimeError,
>)
    ensures
        match file {
            Ok(Some(cfg)) => r == Ok::<RuntimeConfig, RuntimeError>(cfg),
            Ok(None) => r matches Ok(cfg) && cfg.is_default(),
            Err(e) => r == Err::<RuntimeConfig, RuntimeError>(e),
        },
{
    match file {
        Ok(Some(cfg)) => Ok(cfg),
        Ok(None) => Ok(RuntimeConfig::default()),
        Err(e) => Err(e),
    }
}

/// The OneBot settings, from what came of reading their file.
pub fn load_onebot(file: Result<Option<OneBotConfig>, RuntimeError>) -> (r: Result<
    OneBotConfig,
    RuntimeError,
>)
    ensures
        match file {
            Ok(Some(cfg)) => r == Ok::<OneBotConfig, RuntimeError>(cfg),
            Ok(None) => r matches Ok(cfg) && cfg.is_default(),
            Err(e) => r == Err::<OneBotConfig, RuntimeError>(e),
        },
{
    match file {
        Ok(Some(cfg)) => Ok(cfg),
        Ok(None) => Ok(OneBotConfig::default()),
        Err(e) => Err(e),
    }
}

/// The settings of the language model, from what came of reading their file.
pub fn load_llm(file: Result<Option<LlmConfig>, RuntimeError>) -> (r: Result<
    LlmConfig,
    RuntimeError,
>)
    ensures
        match file {
            Ok(Some(cfg)) => r == Ok::<LlmConfig, RuntimeError>(cfg),
            Ok(None) => r matches Ok(cfg) && cfg.is_default(),
            Err(e) => r == Err::<LlmConfig, RuntimeError>(e),
        },
{
    match file {
        Ok(Some(cfg)) => Ok(cfg),
        Ok(None) => Ok(LlmConfig::default()),
        Err(e) => Err(e),
    }
}

/// What reading a settings file came to.
#[derive(Debug)]
pub enum FileText {
    /// The file does not exist.
    Missing,
    /// The file could not be read, for this reason.
    Unreadable(String),
    /// The file holds this text.
    Text(String),
}

/// The text of a settings file to be parsed; nothing where it does not exist.
pub fn settings_text(path: &str, file: FileText) -> (r: Result<Option<String>, RuntimeError>)
    ensures
        match file {
            FileText::Missing => r == Ok::<Option<String>, RuntimeError>(None),
            FileText::Text(t) => r == Ok::<Option<String>, RuntimeError>(Some(t)),
            FileText::Unreadable(e) => r matches Err(RuntimeError::Config(s)) && s@
                == "无法读取配置文件 "@ + path@ + ": "@ + e@,
        },
{
    match file {
        FileText::Missing => Ok(None),
        FileText::Text(t) => Ok(Some(t)),
        FileText::Unreadable(e) => {
            let head = concat("无法读取配置文件 ", path);
            let colon = concat(head.as_str(), ": ");
            Err(RuntimeError::Config(concat(colon.as_str(), e.as_str())))
        },
    }
}

/// The error for a settings file that does not parse.
pub fn parse_failure(path: &str, reason: &str) -> (r: RuntimeError)
    ensures
        r matches RuntimeError::Config(s) && s@ == "无法解析配置文件 "@ + path@ + ": "@ + reason@,
{
    let head = concat("无法解析配置文件 ", path);
    let colon = concat(head.as_str(), ": ");
    RuntimeError::Config(concat(colon.as_str(), reason))
}

/// What a new `runtime.toml` holds.
pub const RUNTIME_TEMPLATE: &'static str = r#"# yomua-bot 运行时配置
# 首次启动自动生成，请根据实际情况修改各字段。

# 数据目录（存放 SQLite 数据库、插件 socket 等）。
# 建议使用绝对路径。
data_dir = "data"

# 日志级别：trace / debug / info / warn / error。
log_level = "info"

# 优雅关停最大等待秒数。
shutdown_timeout_secs = 10

# 插件目录（为 null 则禁用插件系统）。
# plugins_dir = "plugins"

# 管理员用户外部 ID 列表（如 QQ 号）。
# 【重要】未配置或为空将导致所有系统指令（换角色等）无法执行！
admin_users = []

# 事件总线广播通道容量（默认 256）。
# high-throughput 场景可调大。
# broadcast_capacity = 256
"#;

/// What a new `onebot.toml` holds.
pub const ONEBOT_TEMPLATE: &'static str = r#"# yomua-bot OneBot 连接配置
# 首次启动自动生成，请根据实际情况修改。

# NapCat WebSocket 地址。
websocket_url = "ws://127.0.0.1:3001"

# 访问令牌（与 NapCat 配置的 access_token 一致，留空则不认证）。
# access_token = ""

# 重连相关。
reconnect_interval_secs = 1
max_reconnect_interval_secs = 30
heartbeat_interval_secs = 30
"#;

/// What a new `llm.toml` holds.
pub const LLM_TEMPLATE: &'static str = r#"# yomua-bot LLM 配置
# 首次启动自动生成。默认 LLM 未启用（enabled = false）。

enabled = false

# Provider：ollama / openai / openai-compatible。
# provider = "ollama"

# 附加选项（provider 不同配置项不同）。
[options]
# model = "qwen2.5"
# base_url = "http://localhost:11434/v1"
# api_key = "ollama"
"#;

/// There is nothing to complain of exactly where somebody may give commands, the log
/// level is one of five, and neither the time for stopping nor the capacity of the
/// bus is zero; and each of these that is wrong is complained of once.
pub proof fn settings_are_complained_of(cfg: RuntimeConfig, errors: Vec<String>)
    requires
        call_ensures(validate_runtime, (&cfg,), errors),
    ensures
        ({
            let unmanned = cfg.admin_users is None || cfg.admin_users->0@.len() == 0;
            let unknown = cfg.log_level@ != "trace"@ && cfg.log_level@ != "debug"@ && cfg.log_level@
                != "info"@ && cfg.log_level@ != "warn"@ && cfg.log_level@ != "error"@;
            let hasty = cfg.shutdown_timeout_secs == 0;
            let narrow = cfg.broadcast_capacity == Some(0usize);
            &&& errors@.len() == count(unmanned) + count(unknown) + count(hasty) + count(narrow)
            &&& unmanned ==> has_part(errors@[0]@, "admin_users"@)
            &&& unknown && !unmanned ==> has_part(errors@[0]@, cfg.log_level@)
            &&& unknown && unmanned ==> has_part(errors@[1]@, cfg.log_level@)
            &&& narrow ==> errors@.last()@ == "broadcast_capacity 必须大于 0"@
            &&& hasty && !narrow ==> errors@.last()@ == "shutdown_timeout_secs 必须大于 0"@
        }),
{
    let all = texts(errors@);
    assert(all.len() == errors@.len());
    let first = "admin_users 未配置或为空！系统指令将无法执行。请在 runtime.toml 中添加 admin_users 字段。"@;
    reveal_strlit("admin_users");
    reveal_strlit(
        "admin_users 未配置或为空！系统指令将无法执行。请在 runtime.toml 中添加 admin_users 字段。",
    );
    assert(first.subrange(0, 11) =~= "admin_users"@);
    assert(occurs_at(first, "admin_users"@, 0));
    the_middle_is_a_part(
        "无效的 log_level："@,
        cfg.log_level@,
        "，有效值：[\"trace\", \"debug\", \"info\", \"warn\", \"error\"]"@,
    );
    if all.len() > 0 {
        assert(all[0] == errors@[0]@);
        assert(all.last() == errors@.last()@);
    }
    if all.len() > 1 {
        assert(all[1] == errors@[1]@);
    }
}

/// One where something holds, none where it does not.
pub open spec fn count(holds: bool) -> int {
    if holds {
        1
    } else {
        0
    }
}

/// Where there is no file the settings are the usual ones.
pub proof fn missing_files_mean_the_usual(
    runtime: RuntimeConfig,
    onebot: OneBotConfig,
    llm: LlmConfig,
)
    requires
        call_ensures(
            load_runtime,
            (Ok::<Option<RuntimeConfig>, RuntimeError>(None),),
            Ok::<RuntimeConfig, RuntimeError>(runtime),
        ),
        call_ensures(
            load_onebot,
            (Ok::<Option<OneBotConfig>, RuntimeError>(None),),
            Ok::<OneBotConfig, RuntimeError>(onebot),
        ),
        call_ensures(
            load_llm,
            (Ok::<Option<LlmConfig>, RuntimeError>(None),),
            Ok::<LlmConfig, RuntimeError>(llm),
        ),
    ensures
        runtime.data_dir@ == "data"@ && runtime.log_level@ == "info"@,
        runtime.shutdown_timeout_secs == 10,
        runtime.plugins_dir is None && runtime.admin_users is None && runtime.broadcast_capacity
            is None,
        onebot.websocket_url@ == "ws://127.0.0.1:3001"@ && onebot.access_token is None,
        onebot.reconnect_interval_secs == 1 && onebot.max_reconnect_interval_secs == 60,
        onebot.heartbeat_interval_secs == 30 && onebot.action_timeout_secs == 10,
        !llm.enabled && llm.provider is None,
{
}

/// A file that was read is taken as it is, and a failure to read one is handed on.
pub proof fn files_are_taken_as_they_are(
    runtime: Result<RuntimeConfig, RuntimeError>,
    onebot: Result<OneBotConfig, RuntimeError>,
    llm: Result<LlmConfig, RuntimeError>,
    a: RuntimeConfig,
    b: OneBotConfig,
    c: LlmConfig,
    e: RuntimeError,
    failed: Result<RuntimeConfig, RuntimeError>,
)
    requires
        call_ensures(load_runtime, (Ok::<Option<RuntimeConfig>, RuntimeError>(Some(a)),), runtime),
        call_ensures(load_onebot, (Ok::<Option<OneBotConfig>, RuntimeError>(Some(b)),), onebot),
        call_ensures(load_llm, (Ok::<Option<LlmConfig>, RuntimeError>(Some(c)),), llm),
        call_ensures(load_runtime, (Err::<Option<RuntimeConfig>, RuntimeError>(e),), failed),
    ensures
        runtime == Ok::<RuntimeConfig, RuntimeError>(a),
        onebot == Ok::<OneBotConfig, RuntimeError>(b),
        llm == Ok::<LlmConfig, RuntimeError>(c),
        failed == Err::<RuntimeConfig, RuntimeError>(e),
{
}

/// A file that does not exist gives no text, one that can be read gives its text, and
/// one that cannot is an error.
pub proof fn files_give_their_text(
    path: &str,
    t: String,
    e: String,
    missing: Result<Option<String>, RuntimeError>,
    there: Result<Option<String>, RuntimeError>,
    broken: Result<Option<String>, RuntimeError>,
)
    requires
        call_ensures(settings_text, (path, FileText::Missing), missing),
        call_ensures(settings_text, (path, FileText::Text(t)), there),
        call_ensures(settings_text, (path, FileText::Unreadable(e)), broken),
    ensures
        missing == Ok::<Option<String>, RuntimeError>(None),
        there == Ok::<Option<String>, RuntimeError>(Some(t)),
        broken is Err,
{
}

} // verus!
