//! The OneBot 11 adapter.

use vstd::prelude::*;

use crate::adapters::onebot::conversion::{
    onebot_event_to_inbound, refusal, taken_in, InboundMessage, OneBotEvent, OutgoingRequest,
};
use crate::application::command::{classify, command_target};
use crate::domain::event::{Command, CommandReceivedEvent, CoreEvent, MessageReceivedEvent};
use crate::error::RuntimeError;
use crate::json::{Json, JsonView};
use crate::text::{concat, owned, same_text};
use crate::time::{Timestamp, FIRST_SECOND, LAST_SECOND};

pub mod connection;
pub mod conversion;

verus! {

/// Settings of the OneBot connection.
#[derive(Debug)]
pub struct OneBotConfig {
    /// Where the WebSocket server listens.
    pub websocket_url: String,
    /// The token that the server asks for.
    pub access_token: Option<String>,
    /// The first pause before a new attempt to connect, in seconds.
    pub reconnect_interval_secs: u64,
    /// The longest pause before a new attempt to connect, in seconds.
    pub max_reconnect_interval_secs: u64,
    /// The pause between two heartbeats, in seconds.
    pub heartbeat_interval_secs: u64,
    /// How long an action may take, in seconds.
    pub action_timeout_secs: u64,
}

/// How long an action may take where no file says it, in seconds.
pub const ACTION_TIMEOUT_SECS: u64 = 10;

impl OneBotConfig {
    /// The settings where no file gives any.
    pub open spec fn is_default(self) -> bool {
        &&& self.websocket_url@ == "ws://127.0.0.1:3001"@
        &&& self.access_token is None
        &&& self.reconnect_interval_secs == 1
        &&& self.max_reconnect_interval_secs == 60
        &&& self.heartbeat_interval_secs == 30
        &&& self.action_timeout_secs == ACTION_TIMEOUT_SECS
    }
}

impl Default for OneBotConfig {
    fn default() -> (r: OneBotConfig)
        ensures
            r.is_default(),
    {
        OneBotConfig {
            websocket_url: owned("ws://127.0.0.1:3001"),
            access_token: None,
            reconnect_interval_secs: 1,
            max_reconnect_interval_secs: 60,
            heartbeat_interval_secs: 30,
            action_timeout_secs: ACTION_TIMEOUT_SECS,
        }
    }
}

/// How the connection to the server stands.
#[derive(Debug, Clone, Copy, PartialEq, Eq, Structural)]
pub enum OneBotConnectionState {
    Disconnected,
    Connecting,
    Connected,
    Reconnecting,
}

/// The answer of the server to a request.
#[derive(Debug)]
pub struct OneBotApiResponse {
    pub status: Option<String>,
    pub retcode: Option<i32>,
    pub data: Option<Json>,
    pub message: Option<String>,
    pub wording: Option<String>,
}

/// Tells whether an adapter can be started: once only.
pub fn start(started: bool) -> (r: Result<(), RuntimeError>)
    ensures
        if started {
            r matches Err(RuntimeError::Adapter(s)) && s@ == "适配器已启动"@
        } else {
            r is Ok
        },
{
    if started {
        Err(RuntimeError::Adapter(owned("适配器已启动")))
    } else {
        Ok(())
    }
}

/// What is sent for a request, by the names of its fields in order.
pub open spec fn framed(request: OutgoingRequest) -> JsonView {
    JsonView::Object(
        seq![
            ("action"@, JsonView::Text(request.action@)),
            ("echo"@, JsonView::Text("send"@)),
            ("params"@, request.params.model()),
        ],
    )
}

/// What is sent for a request. Nothing can be sent unless the connection stands.
pub fn enqueue_outgoing(state: OneBotConnectionState, request: &OutgoingRequest) -> (r: Result<
    Json,
    RuntimeError,
>)
    ensures
        if state == OneBotConnectionState::Connected {
            r matches Ok(frame) && frame.model() == framed(*request)
        } else {
            r matches Err(RuntimeError::Adapter(s)) && s@ == "OneBot 未连接，暂时无法发送消息"@
        },
{
    if state != OneBotConnectionState::Connected {
        return Err(RuntimeError::Adapter(owned("OneBot 未连接，暂时无法发送消息")));
    }
    Ok(
        Json::triple(
            (owned("action"), Json::Text(request.action.clone())),
            (owned("echo"), Json::Text(owned("send"))),
            (owned("params"), request.params.duplicate()),
        ),
    )
}

/// The error for a request that could not be written down.
pub fn unwritten(reason: &str) -> (r: RuntimeError)
    ensures
        r matches RuntimeError::Adapter(s) && s@ == "序列化出站请求失败: "@ + reason@,
{
    RuntimeError::Adapter(concat("序列化出站请求失败: ", reason))
}

/// The error for a request that nobody takes any more.
pub fn undelivered(reason: &str) -> (r: RuntimeError)
    ensures
        r matches RuntimeError::Adapter(s) && s@ == "出站通道已关闭: "@ + reason@,
{
    RuntimeError::Adapter(concat("出站通道已关闭: ", reason))
}

/// Tells whether an event is a message.
pub fn is_message_event(event: &OneBotEvent) -> (r: bool)
    ensures
        r == (event.post_type@ == "message"@),
{
    same_text(event.post_type.as_str(), "message")
}

/// When a message came: the second it gives, or now where the calendar lacks it.
pub open spec fn time_of_message(unix_time: i64, now: Timestamp) -> Timestamp {
    if FIRST_SECOND <= unix_time <= LAST_SECOND {
        Timestamp { secs: unix_time, nanos: 0 }
    } else {
        now
    }
}

/// What becomes of a frame from the server.
#[derive(Debug)]
pub enum RawOutcome {
    /// It could not be read.
    Malformed(String),
    /// It is no message.
    Ignored,
    /// It is a message that cannot be taken in.
    Refused(RuntimeError),
    /// It is a message whose conversation and sender are to be resolved.
    Resolve(InboundMessage),
}

/// Decides what becomes of a frame, from what came of reading it. Nothing that
/// comes from the server stops the adapter.
pub fn handle_raw(read: Result<OneBotEvent, String>) -> (r: RawOutcome)
    ensures
        match read {
            Err(e) => r == RawOutcome::Malformed(e),
            Ok(event) => if event.post_type@ != "message"@ {
                r is Ignored
            } else {
                match refusal(event) {
                    Some(why) => r matches RawOutcome::Refused(RuntimeError::Adapter(s)) && s@
                        == why,
                    None => r matches RawOutcome::Resolve(m) && taken_in(event, m),
                }
            },
        },
{
    match read {
        Err(e) => RawOutcome::Malformed(e),
        Ok(event) => match onebot_event_to_inbound(&event) {
            Ok(inbound) => RawOutcome::Resolve(inbound),
            Err(e) => if !is_message_event(&event) {
                RawOutcome::Ignored
            } else {
                RawOutcome::Refused(e)
            },
        },
    }
}

/// What is made known of a message whose conversation and sender are resolved: the
/// command that it is, else the message. It has no number of its own yet. Nothing is
/// made known where resolving failed.
pub open spec fn made_known(
    inbound: InboundMessage,
    resolved: Result<(i64, i64), RuntimeError>,
    now: Timestamp,
    r: Option<CoreEvent>,
) -> bool {
    match resolved {
        Err(_) => r is None,
        Ok((conversation_id, sender_id)) => match command_target(
            inbound.content@,
            inbound.is_mentioned,
            inbound.conversation_type,
        ) {
            Some(name) => r matches Some(CoreEvent::CommandReceived(e)) && ({
                &&& e.conversation_id == conversation_id
                &&& e.sender_id == sender_id
                &&& e.external_sender_id == inbound.external_sender_id
                &&& e.message_id == 0
                &&& e.content == inbound.content
                &&& e.timestamp == time_of_message(inbound.unix_time, now)
                &&& e.command matches Command::SwitchCharacter { character_name }
                    && character_name@ == name
            }),
            None => r == Some(
                CoreEvent::MessageReceived(
                    MessageReceivedEvent {
                        conversation_id,
                        sender_id,
                        message_id: 0,
                        content: inbound.content,
                        timestamp: time_of_message(inbound.unix_time, now),
                        is_mentioned: inbound.is_mentioned,
                    },
                ),
            ),
        },
    }
}

/// What is made known of a message once it is resolved. A command is cut off here:
/// it is never made known as a message.
pub fn publish_inbound(
    inbound: InboundMessage,
    resolved: Result<(i64, i64), RuntimeError>,
    now: Timestamp,
) -> (r: Option<CoreEvent>)
    ensures
        made_known(inbound, resolved, now, r),
{
    let (conversation_id, sender_id) = match resolved {
        Err(_) => {
            return None;
        },
        Ok(ids) => ids,
    };
    let unix_time: i64 = inbound.unix_time;
    let timestamp = if FIRST_SECOND <= unix_time && unix_time <= LAST_SECOND {
        Timestamp { secs: unix_time, nanos: 0 }
    } else {
        now
    };
    let command = classify(
        inbound.content.as_str(),
        inbound.is_mentioned,
        inbound.conversation_type,
    );
    match command {
        Some(command) => Some(
            CoreEvent::CommandReceived(
                CommandReceivedEvent {
                    conversation_id,
                    sender_id,
                    external_sender_id: inbound.external_sender_id,
                    message_id: 0,
                    content: inbound.content,
                    timestamp,
                    command,
                },
            ),
        ),
        None => Some(
            CoreEvent::MessageReceived(
                MessageReceivedEvent {
                    conversation_id,
                    sender_id,
                    message_id: 0,
                    content: inbound.content,
                    timestamp,
                    is_mentioned: inbound.is_mentioned,
                },
            ),
        ),
    }
}

/// A command is never made known as a message, so that it is neither stored nor
/// answered; where its conversation and sender are resolved, it is made known as the
/// command. Nothing but a command is made known as one.
pub proof fn commands_are_cut_off(
    inbound: InboundMessage,
    resolved: Result<(i64, i64), RuntimeError>,
    now: Timestamp,
    r: Option<CoreEvent>,
)
    requires
        made_known(inbound, resolved, now, r),
    ensures
        ({
            let target = command_target(
                inbound.content@,
                inbound.is_mentioned,
                inbound.conversation_type,
            );
            &&& target is Some ==> !(r matches Some(CoreEvent::MessageReceived(_)))
            &&& target is Some && resolved is Ok ==> (r matches Some(CoreEvent::CommandReceived(_)))
            &&& target is None ==> !(r matches Some(CoreEvent::CommandReceived(_)))
        }),
{
}

/// Whatever is made known of a message carries its conversation, its sender, its text
/// and its time: the second that it gives, where the calendar has it. A message keeps
/// its mention, a command the sender's name on the platform.
pub proof fn messages_are_made_known_whole(
    inbound: InboundMessage,
    conversation_id: i64,
    sender_id: i64,
    now: Timestamp,
    r: Option<CoreEvent>,
    command: Option<Command>,
    content: &str,
)
    requires
        call_ensures(
            publish_inbound,
            (inbound, Ok::<(i64, i64), RuntimeError>((conversation_id, sender_id)), now),
            r,
        ),
        content@ == inbound.content@,
        call_ensures(
            classify,
            (content, inbound.is_mentioned, inbound.conversation_type),
            command,
        ),
    ensures
        ({
            let time = if -8_334_601_228_800 <= inbound.unix_time <= 8_210_266_876_799 {
                Timestamp { secs: inbound.unix_time, nanos: 0 }
            } else {
                now
            };
            &&& command is None ==> (r matches Some(CoreEvent::MessageReceived(e)) && {
                &&& e.conversation_id == conversation_id && e.sender_id == sender_id
                &&& e.content@ == inbound.content@
                &&& e.is_mentioned == inbound.is_mentioned
                &&& e.timestamp == time
            })
            &&& command matches Some(Command::SwitchCharacter { character_name: name }) ==> (
            r matches Some(CoreEvent::CommandReceived(e)) && {
                &&& e.conversation_id == conversation_id && e.sender_id == sender_id
                &&& e.external_sender_id@ == inbound.external_sender_id@
                &&& e.content@ == inbound.content@
                &&& e.timestamp == time
                &&& e.command->character_name@ == name@
            })
        }),
{
}

/// A frame that is no message is passed over, one that cannot be read or taken in is
/// told apart, and every message that can be taken in goes on.
pub proof fn frames_are_told_apart(
    event: OneBotEvent,
    outcome: RawOutcome,
    inbound: Result<InboundMessage, RuntimeError>,
    garbled: RawOutcome,
    why: String,
)
    requires
        call_ensures(handle_raw, (Ok::<OneBotEvent, String>(event),), outcome),
        call_ensures(onebot_event_to_inbound, (&event,), inbound),
        call_ensures(handle_raw, (Err::<OneBotEvent, String>(why),), garbled),
    ensures
        event.post_type@ != "message"@ ==> outcome is Ignored,
        event.post_type@ == "message"@ && inbound is Err ==> outcome is Refused,
        inbound matches Ok(m) ==> (outcome matches RawOutcome::Resolve(n) && n.content@
            == m.content@ && n.is_mentioned == m.is_mentioned && n.external_sender_id@
            == m.external_sender_id@ && n.external_conversation_id@ == m.external_conversation_id@
            && n.conversation_type == m.conversation_type && n.unix_time == m.unix_time),
        garbled == RawOutcome::Malformed(why),
{
}

/// A request goes out, with its action and its parameters, exactly while the
/// connection stands.
pub proof fn requests_go_out_while_connected(
    state: OneBotConnectionState,
    request: OutgoingRequest,
    r: Result<Json, RuntimeError>,
)
    requires
        call_ensures(enqueue_outgoing, (state, &request), r),
    ensures
        r is Ok <==> state == OneBotConnectionState::Connected,
        r matches Ok(frame) ==> frame.model().string_at("action"@) == Some(request.action@)
            && frame.model().field("params"@) == Some(request.params.model())
            && frame.model().string_at("echo"@) == Some("send"@),
{
    reveal_strlit("action");
    reveal_strlit("echo");
    reveal_strlit("params");
    assert("action"@.len() == 6 && "echo"@.len() == 4 && "params"@.len() == 6);
    assert("action"@[0] == 'a' && "params"@[0] == 'p');
    reveal_with_fuel(JsonView::key_index, 4);
}

/// An adapter starts once.
pub proof fn adapters_start_once(first: Result<(), RuntimeError>, again: Result<(), RuntimeError>)
    requires
        call_ensures(start, (false,), first),
        call_ensures(start, (true,), again),
    ensures
        first is Ok,
        again is Err,
{
}

} // verus!
