//! The control client: from its arguments to a request, and from the answer to
//! what is shown.

use vstd::prelude::*;

use crate::application::control::{state_set, target_character, target_conversation, StateFacts};
use crate::domain::character::text_of;
use crate::json::{Json, JsonNumber, JsonView};
use crate::scalar::Scalar;
use crate::text::{
    concat, decimal, owned, parse_i64, read_i64, same_text, texts, u64_text,
};
use crate::time::Timestamp;

verus! {

// ---------------------------------------------------------------------------
// Arguments
// ---------------------------------------------------------------------------

/// An option that takes a value.
#[derive(Debug, Clone, Copy, PartialEq, Eq, Structural)]
pub enum Flag {
    Socket,
    DataDir,
    Character,
    Conversation,
    Mood,
    Energy,
    Stress,
    Activity,
}

/// What the arguments say.
#[derive(Debug)]
pub struct Options {
    /// Where the control socket is, if that is said.
    pub socket: Option<String>,
    pub data_dir: String,
    pub command: Option<String>,
    pub state: StateParams,
}

/// The parameters of a command on states.
#[derive(Debug)]
pub struct StateParams {
    pub character_id: Option<i64>,
    pub conversation_id: Option<i64>,
    pub mood: Option<Scalar>,
    pub energy: Option<Scalar>,
    pub stress: Option<Scalar>,
    pub activity: Option<String>,
}

/// What the arguments say.
pub struct OptionsView {
    pub socket: Option<Seq<char>>,
    pub data_dir: Seq<char>,
    pub command: Option<Seq<char>>,
    pub state: StateParamsView,
}

/// The parameters of a command on states.
pub struct StateParamsView {
    pub character_id: Option<i64>,
    pub conversation_id: Option<i64>,
    pub mood: Option<Scalar>,
    pub energy: Option<Scalar>,
    pub stress: Option<Scalar>,
    pub activity: Option<Seq<char>>,
}

impl View for StateParams {
    type V = StateParamsView;

    open spec fn view(&self) -> StateParamsView {
        StateParamsView {
            character_id: self.character_id,
            conversation_id: self.conversation_id,
            mood: self.mood,
            energy: self.energy,
            stress: self.stress,
            activity: text_of(self.activity),
        }
    }
}

impl View for Options {
    type V = OptionsView;

    open spec fn view(&self) -> OptionsView {
        OptionsView {
            socket: text_of(self.socket),
            data_dir: self.data_dir@,
            command: text_of(self.command),
            state: self.state@,
        }
    }
}

impl StateParamsView {
    /// No parameter at all.
    pub open spec fn none() -> StateParamsView {
        StateParamsView {
            character_id: None,
            conversation_id: None,
            mood: None,
            energy: None,
            stress: None,
            activity: None,
        }
    }
}

impl OptionsView {
    /// What no argument says.
    pub open spec fn none() -> OptionsView {
        OptionsView {
            socket: None,
            data_dir: "data"@,
            command: None,
            state: StateParamsView::none(),
        }
    }
}

impl Default for StateParams {
    fn default() -> (r: StateParams)
        ensures
            r@ == StateParamsView::none(),
    {
        StateParams {
            character_id: None,
            conversation_id: None,
            mood: None,
            energy: None,
            stress: None,
            activity: None,
        }
    }
}

/// The option that an argument names.
pub open spec fn flag_named(arg: Seq<char>) -> Option<Flag> {
    if arg == "--socket"@ {
        Some(Flag::Socket)
    } else if arg == "--data-dir"@ {
        Some(Flag::DataDir)
    } else if arg == "--character"@ {
        Some(Flag::Character)
    } else if arg == "--conversation"@ {
        Some(Flag::Conversation)
    } else if arg == "--mood"@ {
        Some(Flag::Mood)
    } else if arg == "--energy"@ {
        Some(Flag::Energy)
    } else if arg == "--stress"@ {
        Some(Flag::Stress)
    } else if arg == "--activity"@ {
        Some(Flag::Activity)
    } else {
        None
    }
}

fn flag_of(arg: &str) -> (r: Option<Flag>)
    ensures
        r == flag_named(arg@),
{
    if same_text(arg, "--socket") {
        Some(Flag::Socket)
    } else if same_text(arg, "--data-dir") {
        Some(Flag::DataDir)
    } else if same_text(arg, "--character") {
        Some(Flag::Character)
    } else if same_text(arg, "--conversation") {
        Some(Flag::Conversation)
    } else if same_text(arg, "--mood") {
        Some(Flag::Mood)
    } else if same_text(arg, "--energy") {
        Some(Flag::Energy)
    } else if same_text(arg, "--stress") {
        Some(Flag::Stress)
    } else if same_text(arg, "--activity") {
        Some(Flag::Activity)
    } else {
        None
    }
}

impl Flag {
    /// What is said where the value is missing.
    pub open spec fn lacking(self) -> Seq<char> {
        match self {
            Flag::Socket => "错误: --socket 需要一个路径参数"@,
            Flag::DataDir => "错误: --data-dir 需要一个路径参数"@,
            Flag::Character => "错误: --character 需要一个角色 ID"@,
            Flag::Conversation => "错误: --conversation 需要一个会话 ID"@,
            Flag::Mood => "错误: --mood 需要一个数值"@,
            Flag::Energy => "错误: --energy 需要一个数值"@,
            Flag::Stress => "错误: --stress 需要一个数值"@,
            Flag::Activity => "错误: --activity 需要一个文本"@,
        }
    }

    fn complaint(self) -> (r: &'static str)
        ensures
            r@ == self.lacking(),
    {
        match self {
            Flag::Socket => "错误: --socket 需要一个路径参数",
            Flag::DataDir => "错误: --data-dir 需要一个路径参数",
            Flag::Character => "错误: --character 需要一个角色 ID",
            Flag::Conversation => "错误: --conversation 需要一个会话 ID",
            Flag::Mood => "错误: --mood 需要一个数值",
            Flag::Energy => "错误: --energy 需要一个数值",
            Flag::Stress => "错误: --stress 需要一个数值",
            Flag::Activity => "错误: --activity 需要一个文本",
        }
    }
}

/// A positive number.
pub open spec fn positive(value: Seq<char>) -> Option<i64> {
    match read_i64(value) {
        Some(n) => if n > 0 {
            Some(n as i64)
        } else {
            None
        },
        None => None,
    }
}

fn read_positive(value: &str) -> (r: Option<i64>)
    ensures
        r == positive(value@),
{
    match parse_i64(value) {
        Some(n) => if n > 0 {
            Some(n)
        } else {
            None
        },
        None => None,
    }
}

/// What the arguments say once an option has its value. `number` is what the value
/// reads as, as a number.
pub open spec fn with_value(
    options: OptionsView,
    flag: Flag,
    value: Seq<char>,
    number: Option<Scalar>,
) -> Result<OptionsView, Seq<char>> {
    match flag {
        Flag::Socket => Ok(OptionsView { socket: Some(value), ..options }),
        Flag::DataDir => Ok(OptionsView { data_dir: value, ..options }),
        Flag::Character => match positive(value) {
            Some(n) => Ok(
                OptionsView {
                    state: StateParamsView { character_id: Some(n), ..options.state },
                    ..options
                },
            ),
            None => Err("错误: --character 必须是正整数"@),
        },
        Flag::Conversation => match positive(value) {
            Some(n) => Ok(
                OptionsView {
                    state: StateParamsView { conversation_id: Some(n), ..options.state },
                    ..options
                },
            ),
            None => Err("错误: --conversation 必须是正整数"@),
        },
        Flag::Mood => match number {
            Some(x) => Ok(
                OptionsView {
                    state: StateParamsView { mood: Some(x), ..options.state },
                    ..options
                },
            ),
            None => Err("错误: --mood 必须是数字（0-100）"@),
        },
        Flag::Energy => match number {
            Some(x) => Ok(
                OptionsView {
                    state: StateParamsView { energy: Some(x), ..options.state },
                    ..options
                },
            ),
            None => Err("错误: --energy 必须是数字（0-100）"@),
        },
        Flag::Stress => match number {
            Some(x) => Ok(
                OptionsView {
                    state: StateParamsView { stress: Some(x), ..options.state },
                    ..options
                },
            ),
            None => Err("错误: --stress 必须是数字（0-100）"@),
        },
        Flag::Activity => Ok(
            OptionsView {
                state: StateParamsView { activity: Some(value), ..options.state },
                ..options
            },
        ),
    }
}

/// What reading the arguments comes to.
pub enum Scan {
    /// They say this.
    Done(OptionsView),
    /// They ask for help.
    Help,
    /// They are wrong, and this is said of it.
    Wrong(Seq<char>),
}

/// What reading the arguments from index `i` on comes to, after those before said
/// `options`.
pub open spec fn scan(
    args: Seq<Seq<char>>,
    numbers: Seq<Option<Scalar>>,
    i: int,
    options: OptionsView,
) -> Scan
    decreases args.len() - i,
{
    if i < 0 || i >= args.len() {
        Scan::Done(options)
    } else {
        match flag_named(args[i]) {
            Some(flag) => if i + 1 >= args.len() {
                Scan::Wrong(flag.lacking())
            } else {
                match with_value(options, flag, args[i + 1], numbers[i + 1]) {
                    Ok(next) => scan(args, numbers, i + 2, next),
                    Err(e) => Scan::Wrong(e),
                }
            },
            None => if args[i] == "--help"@ || args[i] == "-h"@ {
                Scan::Help
            } else if options.command is Some {
                Scan::Wrong("错误: 未知选项: "@ + args[i])
            } else {
                scan(
                    args,
                    numbers,
                    i + 1,
                    OptionsView { command: Some(args[i]), ..options },
                )
            },
        }
    }
}

/// What the program is asked to do.
#[derive(Debug)]
pub enum Invocation {
    /// Send a request.
    Run(Options),
    /// Show the help.
    Help,
    /// Say this and fail.
    Fail(String),
}

fn take_value(options: Options, flag: Flag, value: &str, number: Option<Scalar>) -> (r: Result<
    Options,
    String,
>)
    ensures
        match (r, with_value(options@, flag, value@, number)) {
            (Ok(a), Ok(b)) => a@ == b,
            (Err(e), Err(text)) => e@ == text,
            _ => false,
        },
{
    let mut o = options;
    match flag {
        Flag::Socket => {
            o.socket = Some(owned(value));
        },
        Flag::DataDir => {
            o.data_dir = owned(value);
        },
        Flag::Character => match read_positive(value) {
            Some(n) => {
                o.state.character_id = Some(n);
            },
            None => {
                return Err(owned("错误: --character 必须是正整数"));
            },
        },
        Flag::Conversation => match read_positive(value) {
            Some(n) => {
                o.state.conversation_id = Some(n);
            },
            None => {
                return Err(owned("错误: --conversation 必须是正整数"));
            },
        },
        Flag::Mood => match number {
            Some(x) => {
                o.state.mood = Some(x);
            },
            None => {
                return Err(owned("错误: --mood 必须是数字（0-100）"));
            },
        },
        Flag::Energy => match number {
            Some(x) => {
                o.state.energy = Some(x);
            },
            None => {
                return Err(owned("错误: --energy 必须是数字（0-100）"));
            },
        },
        Flag::Stress => match number {
            Some(x) => {
                o.state.stress = Some(x);
            },
            None => {
                return Err(owned("错误: --stress 必须是数字（0-100）"));
            },
        },
        Flag::Activity => {
            o.state.activity = Some(owned(value));
        },
    }
    Ok(o)
}

/// The command works on states.
pub open spec fn is_state_command(command: Seq<char>) -> bool {
    command == "state-set"@ || command == "state-get"@
}

/// The command is one that can be sent.
pub open spec fn is_command(command: Seq<char>) -> bool {
    ||| command == "status"@
    ||| command == "reload-config"@
    ||| command == "shutdown"@
    ||| command == "help"@
    ||| is_state_command(command)
}

/// What is wrong with what the arguments say.
pub open spec fn objection(options: OptionsView) -> Option<Seq<char>> {
    let state = options.state;
    match options.command {
        None => Some("错误: 未指定命令"@),
        Some(command) => if is_state_command(command) && state.character_id is None {
            Some("错误: "@ + command + " 需要 --character <角色ID>"@)
        } else if command == "state-set"@ && state.mood is None && state.energy is None
            && state.stress is None && state.activity is None {
            Some("错误: state-set 至少需要一个状态字段（--mood / --energy / --stress / --activity）"@)
        } else if state.mood is Some && state.conversation_id is None {
            Some("错误: mood 属于 Character × Conversation 范围，必须同时提供 --conversation"@)
        } else if state.activity is Some && state.conversation_id is Some {
            Some("错误: activity 仅存在于全局 Character State；会话级 activity 模型未定义"@)
        } else if !is_command(command) {
            Some(
                "错误: 未知命令: "@ + command
                    + "\n可用命令: status, reload-config, shutdown, help, state-get, state-set"@,
            )
        } else {
            None
        },
    }
}

fn object(options: &Options) -> (r: Option<String>)
    ensures
        match (r, objection(options@)) {
            (Some(s), Some(text)) => s@ == text,
            (None, None) => true,
            _ => false,
        },
{
    let state = &options.state;
    let command = match &options.command {
        None => {
            return Some(owned("错误: 未指定命令"));
        },
        Some(command) => command.as_str(),
    };
    let sets = same_text(command, "state-set");
    let is_state = sets || same_text(command, "state-get");
    if is_state && state.character_id.is_none() {
        let head = concat("错误: ", command);
        return Some(concat(head.as_str(), " 需要 --character <角色ID>"));
    }
    if sets && state.mood.is_none() && state.energy.is_none() && state.stress.is_none()
        && state.activity.is_none() {
        return Some(
            owned(
                "错误: state-set 至少需要一个状态字段（--mood / --energy / --stress / --activity）",
            ),
        );
    }
    if state.mood.is_some() && state.conversation_id.is_none() {
        return Some(
            owned("错误: mood 属于 Character × Conversation 范围，必须同时提供 --conversation"),
        );
    }
    if state.activity.is_some() && state.conversation_id.is_some() {
        return Some(
            owned("错误: activity 仅存在于全局 Character State；会话级 activity 模型未定义"),
        );
    }
    if !(is_state || same_text(command, "status") || same_text(command, "reload-config")
        || same_text(command, "shutdown") || same_text(command, "help")) {
        let head = concat("错误: 未知命令: ", command);
        return Some(
            concat(
                head.as_str(),
                "\n可用命令: status, reload-config, shutdown, help, state-get, state-set",
            ),
        );
    }
    None
}

/// What the arguments ask the program to do. `numbers` holds for each argument what
/// it reads as, as a number.
pub open spec fn asked(args: Seq<Seq<char>>, numbers: Seq<Option<Scalar>>, r: Invocation) -> bool {
    if args.len() == 0 {
        r matches Invocation::Fail(s) && s@
            == "用法: yomua-ctl [选项] <命令>\n运行 yomua-ctl --help 查看帮助"@
    } else {
        match scan(args, numbers, 0, OptionsView::none()) {
            Scan::Help => r is Help,
            Scan::Wrong(e) => r matches Invocation::Fail(s) && s@ == e,
            Scan::Done(options) => match objection(options) {
                Some(e) => r matches Invocation::Fail(s) && s@ == e,
                None => r matches Invocation::Run(o) && o@ == options,
            },
        }
    }
}

/// Reads the arguments. `numbers` holds for each argument what it reads as, as a
/// number. They are read from left to right and the first that is wrong, or asks
/// for help, decides.
pub fn parse_args(args: &Vec<String>, numbers: &Vec<Option<Scalar>>) -> (r: Invocation)
    requires
        numbers@.len() == args@.len(),
    ensures
        asked(texts(args@), numbers@, r),
{
    if args.len() == 0 {
        return Invocation::Fail(
            owned("用法: yomua-ctl [选项] <命令>\n运行 yomua-ctl --help 查看帮助"),
        );
    }
    let ghost all = texts(args@);
    let mut options = Options {
        socket: None,
        data_dir: owned("data"),
        command: None,
        state: StateParams::default(),
    };
    let mut i: usize = 0;
    while i < args.len()
        invariant
            i <= args@.len() == numbers@.len(),
            args@.len() > 0,
            all == texts(args@),
            scan(all, numbers@, i as int, options@) == scan(
                all,
                numbers@,
                0,
                OptionsView::none(),
            ),
        decreases args@.len() - i,
    {
        let arg = args[i].as_str();
        assert(all[i as int] == arg@);
        match flag_of(arg) {
            Some(flag) => {
                i += 1;
                if i >= args.len() {
                    return Invocation::Fail(owned(flag.complaint()));
                }
                assert(all[i as int] == args@[i as int]@);
                match take_value(options, flag, args[i].as_str(), numbers[i]) {
                    Ok(next) => {
                        options = next;
                    },
                    Err(e) => {
                        return Invocation::Fail(e);
                    },
                }
            },
            None => {
                if same_text(arg, "--help") || same_text(arg, "-h") {
                    return Invocation::Help;
                }
                if options.command.is_some() {
                    return Invocation::Fail(concat("错误: 未知选项: ", arg));
                }
                options.command = Some(owned(arg));
            },
        }
        i += 1;
    }
    match object(&options) {
        Some(e) => Invocation::Fail(e),
        None => Invocation::Run(options),
    }
}

// ---------------------------------------------------------------------------
// The request
// ---------------------------------------------------------------------------

/// A number that is hard to foresee, from two readings of a clock: the nanoseconds
/// that passed, and the nanoseconds past the second at a later reading.
pub fn rand_u32(nanos: u128, later: u32) -> (r: u32)
    ensures
        r == (nanos + later) % 0x1_0000_0000,
{
    let low: u32 = (nanos % 0x1_0000_0000) as u32;
    let sum: u64 = low as u64 + later as u64;
    (sum % 0x1_0000_0000) as u32
}

/// The number of a request, from the time and a number that is hard to foresee.
pub fn request_number(nanos: u64, salt: u32) -> (r: u64)
    ensures
        r == nanos ^ (salt as u64),
{
    nanos ^ (salt as u64)
}

/// A level as it is written: what is no finite number is written as `null`.
pub open spec fn level_doc(x: Scalar) -> JsonView {
    if x.finite() {
        JsonView::Number(JsonNumber::of_double(x))
    } else {
        JsonView::Null
    }
}

/// A field, if there is something to be put into it.
pub open spec fn field_if(key: Seq<char>, value: Option<JsonView>) -> Seq<(Seq<char>, JsonView)> {
    match value {
        Some(v) => seq![(key, v)],
        None => Seq::empty(),
    }
}

/// An integer as it is written.
pub open spec fn id_doc(id: Option<i64>) -> Option<JsonView> {
    match id {
        Some(n) => Some(JsonView::Number(JsonNumber::of(n))),
        None => None,
    }
}

/// A level as it is written, if there is one.
pub open spec fn level_doc_if(level: Option<Scalar>) -> Option<JsonView> {
    match level {
        Some(x) => Some(level_doc(x)),
        None => None,
    }
}

/// The fields of the parameters, by their names in order.
pub open spec fn state_fields(state: StateParamsView) -> Seq<(Seq<char>, JsonView)> {
    field_if(
        "activity"@,
        match state.activity {
            Some(s) => Some(JsonView::Text(s)),
            None => None,
        },
    ) + field_if("character_id"@, id_doc(state.character_id)) + field_if(
        "conversation_id"@,
        id_doc(state.conversation_id),
    ) + field_if("energy"@, level_doc_if(state.energy)) + field_if(
        "mood"@,
        level_doc_if(state.mood),
    ) + field_if("stress"@, level_doc_if(state.stress))
}

fn write_level(x: Scalar) -> (r: Json)
    ensures
        r.model() == level_doc(x),
{
    if x.is_finite() {
        Json::Number(JsonNumber::fraction(x))
    } else {
        Json::Null
    }
}

/// The fields of a list.
pub open spec fn fields_model(fields: Seq<(String, Json)>) -> Seq<(Seq<char>, JsonView)> {
    fields.map_values(|f: (String, Json)| (f.0@, f.1.model()))
}

fn push_field(fields: &mut Vec<(String, Json)>, key: &str, value: Option<Json>)
    ensures
        fields_model(final(fields)@) == fields_model(old(fields)@) + field_if(
            key@,
            match value {
                Some(v) => Some(v.model()),
                None => None,
            },
        ),
{
    let ghost before = fields@;
    match value {
        Some(v) => {
            let ghost doc = v.model();
            fields.push((owned(key), v));
            assert(fields_model(fields@) =~= fields_model(before) + seq![(key@, doc)]);
        },
        None => {
            assert(fields_model(before) + Seq::<(Seq<char>, JsonView)>::empty() =~= fields_model(
                before,
            ));
        },
    }
}

fn write_id(id: Option<i64>) -> (r: Option<Json>)
    ensures
        match (r, id_doc(id)) {
            (Some(a), Some(b)) => a.model() == b,
            (None, None) => true,
            _ => false,
        },
{
    match id {
        Some(n) => Some(Json::Number(JsonNumber::integer(n))),
        None => None,
    }
}

fn write_level_if(level: Option<Scalar>) -> (r: Option<Json>)
    ensures
        match (r, level_doc_if(level)) {
            (Some(a), Some(b)) => a.model() == b,
            (None, None) => true,
            _ => false,
        },
{
    match level {
        Some(x) => Some(write_level(x)),
        None => None,
    }
}

impl StateParams {
    /// The parameters as they are sent: the ones that are given, and no others.
    pub fn to_json(&self) -> (r: Json)
        ensures
            r.model() == JsonView::Object(state_fields(self@)),
    {
        let mut fields: Vec<(String, Json)> = Vec::new();
        assert(fields_model(fields@) =~= Seq::empty());
        let activity = match &self.activity {
            Some(s) => Some(Json::Text(s.clone())),
            None => None,
        };
        push_field(&mut fields, "activity", activity);
        push_field(&mut fields, "character_id", write_id(self.character_id));
        push_field(&mut fields, "conversation_id", write_id(self.conversation_id));
        push_field(&mut fields, "energy", write_level_if(self.energy));
        push_field(&mut fields, "mood", write_level_if(self.mood));
        push_field(&mut fields, "stress", write_level_if(self.stress));
        proof {
            let state = self@;
            let empty = Seq::<(Seq<char>, JsonView)>::empty();
            let first = field_if(
                "activity"@,
                match state.activity {
                    Some(s) => Some(JsonView::Text(s)),
                    None => None,
                },
            );
            assert(empty + first =~= first);
            assert(fields_model(fields@) == state_fields(state));
        }
        let r = Json::Object(fields);
        assert(r.model()->Object_0 =~= fields_model(fields@));
        r
    }
}

/// The request for a command, by the names of its fields in order. Parameters go
/// with commands on states only.
pub open spec fn request_doc(id: u64, command: Seq<char>, state: StateParamsView) -> JsonView {
    let head = seq![
        ("cmd"@, JsonView::Text(command)),
        ("id"@, JsonView::Number(JsonNumber::of_unsigned(id))),
    ];
    if is_state_command(command) {
        JsonView::Object(head.push(("params"@, JsonView::Object(state_fields(state)))))
    } else {
        JsonView::Object(head)
    }
}

/// The request for a command.
pub fn build_request(id: u64, command: &str, state: &StateParams) -> (r: Json)
    ensures
        r.model() == request_doc(id, command@, state@),
{
    let cmd = (owned("cmd"), Json::Text(owned(command)));
    let number = (owned("id"), Json::Number(JsonNumber::natural(id)));
    if same_text(command, "state-set") || same_text(command, "state-get") {
        let r = Json::triple(cmd, number, (owned("params"), state.to_json()));
        assert(r.model()->Object_0 =~= request_doc(id, command@, state@)->Object_0);
        r
    } else {
        Json::pair(cmd, number)
    }
}

// ---------------------------------------------------------------------------
// The answer
// ---------------------------------------------------------------------------

/// What reading from the socket came to.
#[derive(Debug)]
pub enum Received {
    /// So many bytes.
    Bytes(usize),
    /// A failure of this text.
    Failed(String),
    /// Nothing in time.
    TimedOut,
}

/// How many bytes of the answer came; else what is said of it.
pub fn received(outcome: Received) -> (r: Result<usize, String>)
    ensures
        match outcome {
            Received::Bytes(n) => if n == 0 {
                r matches Err(s) && s@ == "错误: 服务器关闭了连接"@
            } else {
                r == Ok::<usize, String>(n)
            },
            Received::Failed(e) => r matches Err(s) && s@ == "错误: 读取响应失败: "@ + e@,
            Received::TimedOut => r matches Err(s) && s@
                == "错误: 服务器响应超时（5 秒）\n提示: 确认 yomua-bot 正在正常运行"@,
        },
{
    match outcome {
        Received::Bytes(n) => if n == 0 {
            Err(owned("错误: 服务器关闭了连接"))
        } else {
            Ok(n)
        },
        Received::Failed(e) => Err(concat("错误: 读取响应失败: ", e.as_str())),
        Received::TimedOut => Err(
            owned("错误: 服务器响应超时（5 秒）\n提示: 确认 yomua-bot 正在正常运行"),
        ),
    }
}

/// An answer of the server, with data of type `T`.
#[derive(Debug)]
pub struct Response<T> {
    pub id: u64,
    pub ok: bool,
    pub data: Option<T>,
    /// The code and the message of an error.
    pub error: Option<(String, String)>,
}

/// What is shown of an answer.
#[derive(Debug)]
pub enum Shown<T> {
    /// These data.
    Data(T),
    /// This line.
    Line(String),
    /// This error.
    Failure(String),
}

/// The line for an answer without data.
pub open spec fn plain_line(id: u64) -> Seq<char> {
    "{\"id\": "@ + decimal(id as nat) + ", \"ok\": true}"@
}

/// The line for an answer that reports an error.
pub open spec fn error_line(id: u64, error: Option<(String, String)>) -> Seq<char> {
    let code = match error {
        Some(e) => e.0@,
        None => "UNKNOWN"@,
    };
    let message = match error {
        Some(e) => e.1@,
        None => "未知错误"@,
    };
    "错误["@ + code + "@"@ + decimal(id as nat) + "]: "@ + message
}

/// What is shown of the answer to request `id`: an answer to another request is an
/// error.
pub fn show_response<T>(id: u64, response: Response<T>) -> (r: Shown<T>)
    ensures
        if response.id != id {
            r matches Shown::Failure(s) && s@ == "错误: 响应 ID 不匹配（请求: "@ + decimal(id as nat)
                + ", 响应: "@ + decimal(response.id as nat) + "）"@
        } else if !response.ok {
            r matches Shown::Failure(s) && s@ == error_line(id, response.error)
        } else {
            match response.data {
                Some(data) => r == Shown::Data(data),
                None => r matches Shown::<T>::Line(s) && s@ == plain_line(id),
            }
        },
{
    let own = u64_text(id);
    if response.id != id {
        let other = u64_text(response.id);
        let s = concat("错误: 响应 ID 不匹配（请求: ", own.as_str());
        let s = concat(s.as_str(), ", 响应: ");
        let s = concat(s.as_str(), other.as_str());
        return Shown::Failure(concat(s.as_str(), "）"));
    }
    if !response.ok {
        let (code, message) = match response.error {
            Some(e) => e,
            None => (owned("UNKNOWN"), owned("未知错误")),
        };
        let s = concat("错误[", code.as_str());
        let s = concat(s.as_str(), "@");
        let s = concat(s.as_str(), own.as_str());
        let s = concat(s.as_str(), "]: ");
        return Shown::Failure(concat(s.as_str(), message.as_str()));
    }
    match response.data {
        Some(data) => Shown::Data(data),
        None => {
            let s = concat("{\"id\": ", own.as_str());
            Shown::Line(concat(s.as_str(), ", \"ok\": true}"))
        },
    }
}

// ---------------------------------------------------------------------------
// Laws
// ---------------------------------------------------------------------------

proof fn lemma_key_index_add(
    a: Seq<(Seq<char>, JsonView)>,
    b: Seq<(Seq<char>, JsonView)>,
    key: Seq<char>,
    i: int,
)
    requires
        0 <= i <= a.len(),
    ensures
        JsonView::key_index(a + b, key, i) == if JsonView::key_index(a, key, i) < a.len() {
            JsonView::key_index(a, key, i)
        } else {
            a.len() + JsonView::key_index(b, key, 0)
        },
        i <= JsonView::key_index(a, key, i) <= a.len(),
    decreases a.len() - i,
{
    if i < a.len() {
        assert((a + b)[i] == a[i]);
        lemma_key_index_add(a, b, key, i + 1);
    } else {
        lemma_key_index_shift(a, b, key, 0);
    }
}

proof fn lemma_key_index_shift(
    a: Seq<(Seq<char>, JsonView)>,
    b: Seq<(Seq<char>, JsonView)>,
    key: Seq<char>,
    j: int,
)
    requires
        0 <= j <= b.len(),
    ensures
        JsonView::key_index(a + b, key, a.len() + j) == a.len() + JsonView::key_index(b, key, j),
        j <= JsonView::key_index(b, key, j) <= b.len(),
    decreases b.len() - j,
{
    if j < b.len() {
        assert((a + b)[a.len() + j] == b[j]);
        lemma_key_index_shift(a, b, key, j + 1);
    }
}

proof fn lemma_field_add(
    a: Seq<(Seq<char>, JsonView)>,
    b: Seq<(Seq<char>, JsonView)>,
    key: Seq<char>,
)
    ensures
        JsonView::Object(a + b).field(key) == match JsonView::Object(a).field(key) {
            Some(v) => Some(v),
            None => JsonView::Object(b).field(key),
        },
{
    lemma_key_index_add(a, b, key, 0);
    lemma_key_index_shift(a, b, key, 0);
    let i = JsonView::key_index(a, key, 0);
    let j = JsonView::key_index(b, key, 0);
    if i < a.len() {
        assert((a + b)[i] == a[i]);
    } else if j < b.len() {
        assert((a + b)[a.len() + j] == b[j]);
    }
}

proof fn lemma_field_if(key: Seq<char>, value: Option<JsonView>, wanted: Seq<char>)
    ensures
        JsonView::Object(field_if(key, value)).field(wanted) == if key == wanted {
            value
        } else {
            None
        },
{
    reveal_with_fuel(JsonView::key_index, 3);
}

proof fn lemma_keys_differ()
    ensures
        "activity"@ != "character_id"@,
        "activity"@ != "conversation_id"@,
        "activity"@ != "energy"@,
        "activity"@ != "mood"@,
        "activity"@ != "stress"@,
        "character_id"@ != "conversation_id"@,
        "character_id"@ != "energy"@,
        "character_id"@ != "mood"@,
        "character_id"@ != "stress"@,
        "conversation_id"@ != "energy"@,
        "conversation_id"@ != "mood"@,
        "conversation_id"@ != "stress"@,
        "energy"@ != "mood"@,
        "energy"@ != "stress"@,
        "mood"@ != "stress"@,
{
    reveal_strlit("activity");
    reveal_strlit("character_id");
    reveal_strlit("conversation_id");
    reveal_strlit("energy");
    reveal_strlit("mood");
    reveal_strlit("stress");
    assert("energy"@[0] == 'e' && "stress"@[0] == 's');
    assert("activity"@.len() == 8 && "character_id"@.len() == 12 && "conversation_id"@.len() == 15
        && "mood"@.len() == 4);
}

/// What the parameters that are sent hold under a name.
proof fn lemma_state_field(state: StateParamsView, wanted: Seq<char>)
    ensures
        JsonView::Object(state_fields(state)).field(wanted) == if wanted == "activity"@ {
            match state.activity {
                Some(s) => Some(JsonView::Text(s)),
                None => None,
            }
        } else if wanted == "character_id"@ {
            id_doc(state.character_id)
        } else if wanted == "conversation_id"@ {
            id_doc(state.conversation_id)
        } else if wanted == "energy"@ {
            level_doc_if(state.energy)
        } else if wanted == "mood"@ {
            level_doc_if(state.mood)
        } else if wanted == "stress"@ {
            level_doc_if(state.stress)
        } else {
            None
        },
{
    lemma_keys_differ();
    let activity = match state.activity {
        Some(s) => Some(JsonView::Text(s)),
        None => None,
    };
    let a = field_if("activity"@, activity);
    let b = field_if("character_id"@, id_doc(state.character_id));
    let c = field_if("conversation_id"@, id_doc(state.conversation_id));
    let d = field_if("energy"@, level_doc_if(state.energy));
    let e = field_if("mood"@, level_doc_if(state.mood));
    let f = field_if("stress"@, level_doc_if(state.stress));
    lemma_field_if("activity"@, activity, wanted);
    lemma_field_if("character_id"@, id_doc(state.character_id), wanted);
    lemma_field_if("conversation_id"@, id_doc(state.conversation_id), wanted);
    lemma_field_if("energy"@, level_doc_if(state.energy), wanted);
    lemma_field_if("mood"@, level_doc_if(state.mood), wanted);
    lemma_field_if("stress"@, level_doc_if(state.stress), wanted);
    lemma_field_add(a, b, wanted);
    lemma_field_add(a + b, c, wanted);
    lemma_field_add(a + b + c, d, wanted);
    lemma_field_add(a + b + c + d, e, wanted);
    lemma_field_add(a + b + c + d + e, f, wanted);
}

/// The server reads from a request what it was made of: its number, its command,
/// and, for a command on states, the parameters.
pub proof fn requests_say_what_was_asked(id: u64, command: Seq<char>, state: StateParamsView)
    ensures
        crate::application::control::request_id(request_doc(id, command, state)) == id,
        request_doc(id, command, state).string_at("cmd"@) == Some(command),
        crate::application::control::request_params(request_doc(id, command, state))
            == if is_state_command(command) {
            JsonView::Object(state_fields(state))
        } else {
            JsonView::Null
        },
{
    reveal_strlit("cmd");
    reveal_strlit("id");
    reveal_strlit("params");
    reveal_with_fuel(JsonView::key_index, 5);
    assert("cmd"@.len() == 3 && "id"@.len() == 2 && "params"@.len() == 6);
}

/// The answers that the server finds where character and conversation exist and
/// the storage works.
pub open spec fn all_there(facts: StateFacts) -> bool {
    &&& facts.character == Ok::<bool, String>(true)
    &&& facts.conversation == Ok::<bool, String>(true)
    &&& facts.character_state is Ok
    &&& facts.conversation_state is Ok
    &&& facts.mood is Ok
}

/// The levels that are given are finite numbers.
pub open spec fn levels_finite(state: StateParamsView) -> bool {
    &&& state.mood matches Some(x) ==> x.finite()
    &&& state.energy matches Some(x) ==> x.finite()
    &&& state.stress matches Some(x) ==> x.finite()
}

/// Identifiers, where given, are positive, as the arguments must have them.
pub open spec fn ids_positive(state: StateParamsView) -> bool {
    &&& state.character_id matches Some(n) ==> n > 0
    &&& state.conversation_id matches Some(n) ==> n > 0
}

proof fn lemma_ids_positive(
    args: Seq<Seq<char>>,
    numbers: Seq<Option<Scalar>>,
    i: int,
    options: OptionsView,
)
    requires
        ids_positive(options.state),
    ensures
        scan(args, numbers, i, options) matches Scan::Done(o) ==> ids_positive(o.state),
    decreases args.len() - i,
{
    if 0 <= i < args.len() {
        match flag_named(args[i]) {
            Some(flag) => if i + 1 < args.len() {
                match with_value(options, flag, args[i + 1], numbers[i + 1]) {
                    Ok(next) => {
                        lemma_ids_positive(args, numbers, i + 2, next);
                    },
                    Err(_) => {},
                }
            },
            None => {
                lemma_ids_positive(
                    args,
                    numbers,
                    i + 1,
                    OptionsView { command: Some(args[i]), ..options },
                );
            },
        }
    }
}

/// What the client lets through, the server grants: a `state-set` request that
/// comes of arguments without objection, with finite levels, is granted wherever
/// character and conversation exist and the storage works.
pub proof fn accepted_settings_are_granted(
    args: Seq<Seq<char>>,
    numbers: Seq<Option<Scalar>>,
    facts: StateFacts,
    now: Timestamp,
)
    requires
        all_there(facts),
    ensures
        scan(args, numbers, 0, OptionsView::none()) matches Scan::Done(o) ==> objection(o) is None
            && o.command == Some("state-set"@) && levels_finite(o.state) ==> state_set(
            JsonView::Object(state_fields(o.state)),
            facts,
            now,
        ).ending is Granted,
{
    lemma_ids_positive(args, numbers, 0, OptionsView::none());
    match scan(args, numbers, 0, OptionsView::none()) {
        Scan::Done(o) => {
            let params = JsonView::Object(state_fields(o.state));
            lemma_state_field(o.state, "activity"@);
            lemma_state_field(o.state, "character_id"@);
            lemma_state_field(o.state, "conversation_id"@);
            lemma_state_field(o.state, "energy"@);
            lemma_state_field(o.state, "mood"@);
            lemma_state_field(o.state, "stress"@);
            lemma_keys_differ();
            if objection(o) is None && o.command == Some("state-set"@) && levels_finite(o.state) {
                assert(target_character(params) == o.state.character_id);
                assert(target_conversation(params) == Ok::<Option<i64>, ()>(
                    o.state.conversation_id,
                ));
            }
        },
        _ => {},
    }
}

/// Each option goes by its name, and nothing else is an option.
pub proof fn options_go_by_their_names(arg: Seq<char>)
    ensures
        flag_named("--socket"@) == Some(Flag::Socket),
        flag_named("--data-dir"@) == Some(Flag::DataDir),
        flag_named("--character"@) == Some(Flag::Character),
        flag_named("--conversation"@) == Some(Flag::Conversation),
        flag_named("--mood"@) == Some(Flag::Mood),
        flag_named("--energy"@) == Some(Flag::Energy),
        flag_named("--stress"@) == Some(Flag::Stress),
        flag_named("--activity"@) == Some(Flag::Activity),
        flag_named("--help"@) is None,
        flag_named("-h"@) is None,
        arg.len() > 0 && arg[0] != '-' ==> flag_named(arg) is None,
        flag_named(arg) is Some ==> arg == "--socket"@ || arg == "--data-dir"@ || arg
            == "--character"@ || arg == "--conversation"@ || arg == "--mood"@ || arg == "--energy"@
            || arg == "--stress"@ || arg == "--activity"@,
{
    reveal_strlit("--socket");
    reveal_strlit("--data-dir");
    reveal_strlit("--character");
    reveal_strlit("--conversation");
    reveal_strlit("--mood");
    reveal_strlit("--energy");
    reveal_strlit("--stress");
    reveal_strlit("--activity");
    reveal_strlit("--help");
    reveal_strlit("-h");
    assert("--socket"@.len() == 8 && "--data-dir"@.len() == 10 && "--character"@.len() == 11
        && "--conversation"@.len() == 14 && "--mood"@.len() == 6 && "--energy"@.len() == 8
        && "--stress"@.len() == 8 && "--activity"@.len() == 10 && "--help"@.len() == 6
        && "-h"@.len() == 2);
    assert("--socket"@[3] == 'o' && "--energy"@[3] == 'n' && "--stress"@[3] == 't');
    assert("--data-dir"@[2] == 'd' && "--activity"@[2] == 'a');
    assert("--mood"@[2] == 'm' && "--help"@[2] == 'h');
    assert("--socket"@[0] == '-' && "--data-dir"@[0] == '-' && "--character"@[0] == '-'
        && "--conversation"@[0] == '-' && "--mood"@[0] == '-' && "--energy"@[0] == '-'
        && "--stress"@[0] == '-' && "--activity"@[0] == '-');
}

/// A value is taken under its own option and changes nothing else: texts as they are,
/// levels as numbers, characters and conversations as positive numbers.
pub proof fn values_are_taken_under_their_option(
    o: OptionsView,
    flag: Flag,
    value: Seq<char>,
    number: Option<Scalar>,
)
    ensures
        with_value(o, flag, value, number) is Ok <==> match flag {
            Flag::Character => read_i64(value) is Some && read_i64(value)->0 > 0,
            Flag::Conversation => read_i64(value) is Some && read_i64(value)->0 > 0,
            Flag::Mood => number is Some,
            Flag::Energy => number is Some,
            Flag::Stress => number is Some,
            _ => true,
        },
        with_value(o, flag, value, number) matches Ok(after) ==> {
            &&& after.command == o.command
            &&& after.socket == if flag == Flag::Socket {
                Some(value)
            } else {
                o.socket
            }
            &&& after.data_dir == if flag == Flag::DataDir {
                value
            } else {
                o.data_dir
            }
            &&& flag == Flag::Character ==> after.state.character_id is Some
                && after.state.character_id->0 == read_i64(value)->0
            &&& flag != Flag::Character ==> after.state.character_id == o.state.character_id
            &&& flag == Flag::Conversation ==> after.state.conversation_id is Some
                && after.state.conversation_id->0 == read_i64(value)->0
            &&& flag != Flag::Conversation ==> after.state.conversation_id
                == o.state.conversation_id
            &&& after.state.mood == if flag == Flag::Mood {
                number
            } else {
                o.state.mood
            }
            &&& after.state.energy == if flag == Flag::Energy {
                number
            } else {
                o.state.energy
            }
            &&& after.state.stress == if flag == Flag::Stress {
                number
            } else {
                o.state.stress
            }
            &&& after.state.activity == if flag == Flag::Activity {
                Some(value)
            } else {
                o.state.activity
            }
        },
{
}

proof fn lemma_scan_append(
    args: Seq<Seq<char>>,
    numbers: Seq<Option<Scalar>>,
    more: Seq<Seq<char>>,
    more_numbers: Seq<Option<Scalar>>,
    i: int,
    o: OptionsView,
)
    requires
        0 <= i <= args.len() == numbers.len(),
        more.len() == more_numbers.len(),
        scan(args, numbers, i, o) is Done,
    ensures
        scan(args + more, numbers + more_numbers, i, o) == scan(
            args + more,
            numbers + more_numbers,
            args.len() as int,
            scan(args, numbers, i, o)->Done_0,
        ),
    decreases args.len() - i,
{
    let all = args + more;
    let nums = numbers + more_numbers;
    if i < args.len() {
        assert(all[i] == args[i]);
        match flag_named(args[i]) {
            Some(flag) => {
                if i + 1 < args.len() {
                    assert(all[i + 1] == args[i + 1]);
                    assert(nums[i + 1] == numbers[i + 1]);
                    let next = with_value(o, flag, args[i + 1], numbers[i + 1])->Ok_0;
                    lemma_scan_append(args, numbers, more, more_numbers, i + 2, next);
                }
            },
            None => {
                lemma_scan_append(
                    args,
                    numbers,
                    more,
                    more_numbers,
                    i + 1,
                    OptionsView { command: Some(args[i]), ..o },
                );
            },
        }
    }
}

/// Arguments are read from left to right. One more option with its value is taken on
/// top of what the arguments before said; an option without a value is wrong; a word
/// is the command where there is none yet, and wrong where there is; and "--help" or
/// "-h" asks for help.
pub proof fn one_more_argument(
    args: Seq<Seq<char>>,
    numbers: Seq<Option<Scalar>>,
    word: Seq<char>,
    value: Seq<char>,
    x: Option<Scalar>,
    number: Option<Scalar>,
)
    requires
        args.len() == numbers.len(),
        scan(args, numbers, 0, OptionsView::none()) is Done,
    ensures
        ({
            let o = scan(args, numbers, 0, OptionsView::none())->Done_0;
            let one = scan(args + seq![word], numbers + seq![x], 0, OptionsView::none());
            let two = scan(
                args + seq![word, value],
                numbers + seq![x, number],
                0,
                OptionsView::none(),
            );
            &&& flag_named(word) matches Some(flag) ==> one is Wrong && match with_value(
                o,
                flag,
                value,
                number,
            ) {
                Ok(after) => two == Scan::Done(after),
                Err(e) => two == Scan::Wrong(e),
            }
            &&& word == "--help"@ || word == "-h"@ ==> one is Help
            &&& flag_named(word) is None && word != "--help"@ && word != "-h"@ && o.command is None
                ==> one == Scan::Done(OptionsView { command: Some(word), ..o })
            &&& flag_named(word) is None && word != "--help"@ && word != "-h"@ && o.command is Some
                ==> one is Wrong
        }),
        scan(Seq::empty(), Seq::empty(), 0, OptionsView::none()) == Scan::Done(
            OptionsView::none(),
        ),
{
    options_go_by_their_names(word);
    let n = args.len() as int;
    lemma_scan_append(args, numbers, seq![word], seq![x], 0, OptionsView::none());
    lemma_scan_append(args, numbers, seq![word, value], seq![x, number], 0, OptionsView::none());
    assert((args + seq![word])[n] == word);
    assert((args + seq![word, value])[n] == word);
    assert((args + seq![word, value])[n + 1] == value);
    assert((numbers + seq![x, number])[n + 1] == number);
    reveal_with_fuel(scan, 3);
}

/// Where nothing is said, the data lie in "data", and nothing else is set.
pub proof fn what_no_argument_says()
    ensures
        OptionsView::none().data_dir == "data"@,
        OptionsView::none().socket is None && OptionsView::none().command is None,
        OptionsView::none().state.character_id is None
            && OptionsView::none().state.conversation_id is None,
        OptionsView::none().state.mood is None && OptionsView::none().state.energy is None
            && OptionsView::none().state.stress is None && OptionsView::none().state.activity
            is None,
{
}

/// What is run says what the arguments said: one of the six commands. A command on
/// states names a character, setting states sets one, a mood comes with a
/// conversation and an activity without; and nothing else is held against it.
pub proof fn arguments_are_checked(
    args: Vec<String>,
    numbers: Vec<Option<Scalar>>,
    r: Invocation,
)
    requires
        args@.len() > 0,
        numbers@.len() == args@.len(),
        call_ensures(parse_args, (&args, &numbers), r),
    ensures
        match scan(texts(args@), numbers@, 0, OptionsView::none()) {
            Scan::Help => r is Help,
            Scan::Wrong(e) => r matches Invocation::Fail(s) && s@ == e,
            Scan::Done(o) => {
                let c = o.command;
                let state = c == Some("state-set"@) || c == Some("state-get"@);
                let known = state || c == Some("status"@) || c == Some("reload-config"@) || c
                    == Some("shutdown"@) || c == Some("help"@);
                &&& r is Run <==> {
                    &&& known
                    &&& state ==> o.state.character_id is Some
                    &&& c == Some("state-set"@) ==> o.state.mood is Some || o.state.energy is Some
                        || o.state.stress is Some || o.state.activity is Some
                    &&& o.state.mood is Some ==> o.state.conversation_id is Some
                    &&& o.state.activity is Some ==> o.state.conversation_id is None
                }
                &&& r matches Invocation::Run(said) ==> said@ == o
                &&& r is Run || r is Fail
            },
        },
{
    assert(texts(args@).len() == args@.len());
}

/// A request on states carries what was given under its name, and nothing under the
/// name of what was not.
pub proof fn requests_carry_what_was_given(id: u64, command: &str, state: StateParams, r: Json)
    requires
        call_ensures(build_request, (id, command, &state), r),
    ensures
        r.model().string_at("cmd"@) == Some(command@),
        command@ == "state-set"@ || command@ == "state-get"@ ==> {
            let p = r.model().field("params"@);
            &&& p is Some
            &&& state.character_id is Some ==> p->0.signed_at("character_id"@)
                == state.character_id
            &&& state.character_id is None ==> p->0.field("character_id"@) is None
            &&& state.conversation_id is Some ==> p->0.signed_at("conversation_id"@)
                == state.conversation_id
            &&& state.conversation_id is None ==> p->0.field("conversation_id"@) is None
            &&& carries(p->0, "mood"@, state.mood)
            &&& carries(p->0, "energy"@, state.energy)
            &&& carries(p->0, "stress"@, state.stress)
            &&& state.activity is Some ==> p->0.string_at("activity"@) == Some(state.activity->0@)
            &&& state.activity is None ==> p->0.field("activity"@) is None
        },
        command@ != "state-set"@ && command@ != "state-get"@ ==> r.model().field("params"@) is None,
{
    reveal_strlit("cmd");
    reveal_strlit("id");
    reveal_strlit("params");
    reveal_with_fuel(JsonView::key_index, 5);
    assert("cmd"@.len() == 3 && "id"@.len() == 2 && "params"@.len() == 6);
    lemma_keys_differ();
    lemma_state_field(state@, "activity"@);
    lemma_state_field(state@, "character_id"@);
    lemma_state_field(state@, "conversation_id"@);
    lemma_state_field(state@, "energy"@);
    lemma_state_field(state@, "mood"@);
    lemma_state_field(state@, "stress"@);
}

/// A level that is given stands under its name, as `null` where it is not finite, and
/// one that is not given does not.
pub open spec fn carries(params: JsonView, key: Seq<char>, level: Option<Scalar>) -> bool {
    match level {
        None => params.field(key) is None,
        Some(x) => if x.finite() {
            params.field(key) is Some && params.field(key)->0.double() == Some(x)
        } else {
            params.field(key) == Some(JsonView::Null)
        },
    }
}

/// An answer is shown only where it is the one to the request: its data where it was
/// granted, its error where it was not. An answer to another request is a failure.
pub proof fn only_the_own_answer_is_shown<T>(id: u64, response: Response<T>, r: Shown<T>)
    requires
        call_ensures(show_response::<T>, (id, response), r),
    ensures
        response.id != id ==> r is Failure,
        response.id == id && response.ok && response.data is Some ==> r == Shown::Data(
            response.data->0,
        ),
        response.id == id && response.ok && response.data is None ==> r is Line,
        response.id == id && !response.ok ==> (r matches Shown::Failure(s) && (
        response.error matches Some(e) ==> crate::text::has_part(s@, e.0@)
            && crate::text::has_part(s@, e.1@))),
{
    if response.id == id && !response.ok && response.error is Some {
        let e = response.error->0;
        let code = e.0@;
        let message = e.1@;
        let n = decimal(id as nat);
        crate::text::the_middle_is_a_part("错误["@, code, "@"@ + n + "]: "@ + message);
        crate::text::the_middle_is_a_part("错误["@ + code + "@"@ + n + "]: "@, message, Seq::empty());
        assert("错误["@ + code + ("@"@ + n + "]: "@ + message) =~= error_line(id, response.error));
        assert("错误["@ + code + "@"@ + n + "]: "@ + message + Seq::empty() =~= error_line(
            id,
            response.error,
        ));
    }
}

/// An answer came exactly where bytes did.
pub proof fn answers_are_bytes(n: usize, e: String, some: Result<usize, String>, failed: Result<
    usize,
    String,
>, late: Result<usize, String>)
    requires
        call_ensures(received, (Received::Bytes(n),), some),
        call_ensures(received, (Received::Failed(e),), failed),
        call_ensures(received, (Received::TimedOut,), late),
    ensures
        n > 0 ==> some == Ok::<usize, String>(n),
        n == 0 ==> some is Err,
        failed is Err && late is Err,
{
}

/// A number that is hard to foresee is the sum of both readings, modulo 2^32; the
/// number of a request differs from the time exactly by it, bit by bit.
pub proof fn request_numbers_are_mixed(nanos: u128, later: u32, r: u32, time: u64, number: u64)
    requires
        call_ensures(rand_u32, (nanos, later), r),
        call_ensures(request_number, (time, r), number),
    ensures
        r as int == (nanos as int + later as int) % 0x1_0000_0000,
        number ^ time == r as u64,
{
    let s = r as u64;
    assert(number == time ^ s ==> number ^ time == s) by (bit_vector);
}

} // verus!
