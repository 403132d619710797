//! Keeping the connection to the OneBot server: pauses between attempts, and what
//! to do at each turn of the connection's life.

use vstd::prelude::*;

use crate::adapters::onebot::{OneBotConfig, OneBotConnectionState};
use crate::domain::event::{AdapterConnectedEvent, AdapterDisconnectedEvent, CoreEvent};
use crate::error::RuntimeError;
use crate::text::{concat, owned};
use crate::time::{Span, Timestamp};
use vstd::arithmetic::power2::{lemma2_to64, lemma_pow2_strictly_increases, pow2};
use vstd::bits::lemma_u32_shl_is_mul;

verus! {

/// Pauses that double with each failure, up to a longest one.
#[derive(Debug)]
pub struct Backoff {
    /// The first pause.
    pub base: Span,
    /// The longest pause.
    pub max: Span,
    /// Failures in a row.
    pub attempt: u32,
}

/// The pause after some failures in a row, in nanoseconds. The doubling stops at
/// the thirty-first.
pub open spec fn pause_after(base: int, max: int, failures: int) -> int {
    let doublings: int = if failures < 31 {
        failures
    } else {
        31
    };
    let grown = base * pow2(doublings as nat);
    if grown < max {
        grown
    } else {
        max
    }
}

impl Backoff {
    /// The spans are ones that can be waited.
    pub open spec fn wf(self) -> bool {
        self.base.wf() && self.max.wf()
    }

    /// The pause before the next attempt, in nanoseconds.
    pub open spec fn pause(self) -> int {
        pause_after(self.base.nanos as int, self.max.nanos as int, self.attempt as int)
    }

    /// A backoff without a failure.
    pub fn new(base: Span, max: Span) -> (r: Backoff)
        ensures
            r == (Backoff { base, max, attempt: 0 }),
    {
        Backoff { base, max, attempt: 0 }
    }

    /// The pause before the next attempt; counts a failure.
    pub fn next_delay(&mut self) -> (r: Span)
        requires
            old(self).wf(),
        ensures
            r.wf(),
            r.nanos == old(self).pause(),
            final(self).base == old(self).base,
            final(self).max == old(self).max,
            final(self).attempt == if old(self).attempt < u32::MAX {
                old(self).attempt + 1
            } else {
                u32::MAX as int
            },
    {
        let delay = self.peek_latest();
        self.attempt = self.attempt.saturating_add(1);
        delay
    }

    /// Forgets the failures.
    pub fn reset(&mut self)
        ensures
            *final(self) == (Backoff { attempt: 0, ..*old(self) }),
    {
        self.attempt = 0;
    }

    /// The failures in a row.
    pub fn attempts(&self) -> (r: u32)
        ensures
            r == self.attempt,
    {
        self.attempt
    }

    /// The pause before the next attempt; counts nothing.
    pub fn peek_latest(&self) -> (r: Span)
        requires
            self.wf(),
        ensures
            r.wf(),
            r.nanos == self.pause(),
    {
        let factor: u32 = self.factor();
        proof {
            let b = self.base.nanos as int;
            let f = factor as int;
            assert(0 <= b * f <= crate::time::LONGEST * 0x8000_0000) by (nonlinear_arith)
                requires
                    0 <= b <= crate::time::LONGEST,
                    0 <= f <= 0x8000_0000,
            ;
        }
        let grown: u128 = self.base.nanos * (factor as u128);
        if grown < self.max.nanos {
            Span { nanos: grown }
        } else {
            self.max
        }
    }

    /// By what the first pause is multiplied.
    pub fn factor(&self) -> (r: u32)
        ensures
            r == pow2(
                (if self.attempt < 31 {
                    self.attempt
                } else {
                    31
                }) as nat,
            ),
            1 <= r <= 0x8000_0000,
    {
        let shift: u32 = if self.attempt < 31 {
            self.attempt
        } else {
            31
        };
        proof {
            lemma2_to64();
            if shift < 31 {
                lemma_pow2_strictly_increases(shift as nat, 31);
            }
            if shift > 0 {
                lemma_pow2_strictly_increases(0, shift as nat);
            }
            lemma_u32_shl_is_mul(1, shift);
        }
        1u32 << shift
    }
}

/// What a turn in the connection's life calls for.
#[derive(Debug)]
pub struct Turn {
    /// The state that the connection is in from now on.
    pub state: OneBotConnectionState,
    /// What is made known.
    pub event: CoreEvent,
    /// How long to wait before the next attempt; nothing where the connection stands.
    pub pause: Option<Span>,
}

/// The connection to the server.
#[derive(Debug)]
pub struct ConnectionLoop {
    pub backoff: Backoff,
}

/// The first or the longest pause as the settings give it, at least one second.
pub open spec fn pause_setting(secs: u64) -> int {
    (if secs < 1 {
        1
    } else {
        secs
    }) * 1_000_000_000
}

fn at_least_one_second(secs: u64) -> (r: Span)
    ensures
        r.wf(),
        r.nanos == pause_setting(secs),
{
    Span::from_secs(
        if secs < 1 {
            1
        } else {
            secs
        },
    )
}

impl ConnectionLoop {
    /// A loop for these settings that has not failed yet.
    pub fn new(config: &OneBotConfig) -> (r: ConnectionLoop)
        ensures
            r.backoff.wf(),
            r.backoff.attempt == 0,
            r.backoff.base.nanos == pause_setting(config.reconnect_interval_secs),
            r.backoff.max.nanos == pause_setting(config.max_reconnect_interval_secs),
    {
        ConnectionLoop {
            backoff: Backoff::new(
                at_least_one_second(config.reconnect_interval_secs),
                at_least_one_second(config.max_reconnect_interval_secs),
            ),
        }
    }

    /// Opens a round: nothing where the program shuts down, else the state while
    /// an attempt to connect is made.
    pub fn begin(shutting_down: bool) -> (r: Option<OneBotConnectionState>)
        ensures
            r == if shutting_down {
                None
            } else {
                Some(OneBotConnectionState::Connecting)
            },
    {
        if shutting_down {
            None
        } else {
            Some(OneBotConnectionState::Connecting)
        }
    }

    /// What an attempt to connect calls for.
    pub fn attempted(&mut self, outcome: Result<(), RuntimeError>, now: Timestamp) -> (r: Turn)
        requires
            old(self).backoff.wf(),
        ensures
            final(self).backoff.wf(),
            match outcome {
                Ok(_) => {
                    &&& final(self).backoff == (Backoff { attempt: 0, ..old(self).backoff })
                    &&& r.state == OneBotConnectionState::Connected
                    &&& r.pause is None
                    &&& r.event matches CoreEvent::AdapterConnected(e) && e.adapter_name@
                        == "onebot"@ && e.timestamp == now
                },
                Err(error) => {
                    &&& after_failure(old(self).backoff, final(self).backoff, r)
                    &&& r.event matches CoreEvent::AdapterDisconnected(e) && e.adapter_name@
                        == "onebot"@ && e.timestamp == now && (e.reason matches Some(s) && s@
                        == error.text())
                },
            },
    {
        match outcome {
            Ok(_) => {
                self.backoff.reset();
                Turn {
                    state: OneBotConnectionState::Connected,
                    event: CoreEvent::AdapterConnected(
                        AdapterConnectedEvent { adapter_name: owned("onebot"), timestamp: now },
                    ),
                    pause: None,
                }
            },
            Err(error) => self.failed(Some(error.message()), now),
        }
    }

    /// What the end of a connection that stood calls for.
    pub fn lost(&mut self, now: Timestamp) -> (r: Turn)
        requires
            old(self).backoff.wf(),
        ensures
            final(self).backoff.wf(),
            after_failure(old(self).backoff, final(self).backoff, r),
            r.event matches CoreEvent::AdapterDisconnected(e) && e.adapter_name@ == "onebot"@
                && e.timestamp == now && e.reason is None,
    {
        self.failed(None, now)
    }

    fn failed(&mut self, reason: Option<String>, now: Timestamp) -> (r: Turn)
        requires
            old(self).backoff.wf(),
        ensures
            final(self).backoff.wf(),
            after_failure(old(self).backoff, final(self).backoff, r),
            r.event matches CoreEvent::AdapterDisconnected(e) && e.adapter_name@ == "onebot"@
                && e.timestamp == now && e.reason == reason,
    {
        let pause = self.backoff.next_delay();
        Turn {
            state: OneBotConnectionState::Reconnecting,
            event: CoreEvent::AdapterDisconnected(
                AdapterDisconnectedEvent { adapter_name: owned("onebot"), reason, timestamp: now },
            ),
            pause: Some(pause),
        }
    }
}

/// The next attempt waits for the pause that is due, and the failure is counted:
/// the first failure in a row waits for the first pause.
pub open spec fn after_failure(before: Backoff, after: Backoff, turn: Turn) -> bool {
    &&& after.base == before.base
    &&& after.max == before.max
    &&& after.attempt == if before.attempt < u32::MAX {
        before.attempt + 1
    } else {
        u32::MAX as int
    }
    &&& turn.state == OneBotConnectionState::Reconnecting
    &&& turn.pause matches Some(p) && p.nanos == before.pause()
}

/// What can happen while a connection stands.
#[derive(Debug)]
pub enum IoEvent {
    /// The signal to shut down came.
    Shutdown,
    /// A message to be sent came, or none can come any more.
    Outbound(Option<String>),
    /// A message was sent, or could not be.
    Sent(Result<(), RuntimeError>),
    /// It is time for a heartbeat.
    Tick,
    /// A heartbeat was sent, or could not be.
    Pinged(Result<(), RuntimeError>),
    /// A message was read, or the other side closed, or reading failed.
    Read(Result<Option<String>, RuntimeError>),
    /// A message was handed on; false where nobody takes messages any more.
    Forwarded(bool),
}

/// What to do while a connection stands.
#[derive(Debug)]
pub enum IoAction {
    /// Wait for what happens next.
    Wait,
    /// Send this message.
    Send(String),
    /// Send a heartbeat.
    Ping,
    /// Hand this message on.
    Forward(String),
    /// Give the connection up.
    Stop,
}

/// What to do about something that happens while a connection stands: messages go
/// through in both directions; any failure, closing or the signal to shut down
/// ends the connection.
pub fn handle_connected_io(event: IoEvent) -> (r: IoAction)
    ensures
        r == match event {
            IoEvent::Shutdown => IoAction::Stop,
            IoEvent::Outbound(Some(text)) => IoAction::Send(text),
            IoEvent::Outbound(None) => IoAction::Stop,
            IoEvent::Sent(Ok(_)) => IoAction::Wait,
            IoEvent::Sent(Err(_)) => IoAction::Stop,
            IoEvent::Tick => IoAction::Ping,
            IoEvent::Pinged(Ok(_)) => IoAction::Wait,
            IoEvent::Pinged(Err(_)) => IoAction::Stop,
            IoEvent::Read(Ok(Some(text))) => IoAction::Forward(text),
            IoEvent::Read(Ok(None)) => IoAction::Stop,
            IoEvent::Read(Err(_)) => IoAction::Stop,
            IoEvent::Forwarded(taken) => if taken {
                IoAction::Wait
            } else {
                IoAction::Stop
            },
        },
{
    match event {
        IoEvent::Shutdown => IoAction::Stop,
        IoEvent::Outbound(out) => match out {
            Some(text) => IoAction::Send(text),
            None => IoAction::Stop,
        },
        IoEvent::Sent(outcome) => match outcome {
            Ok(_) => IoAction::Wait,
            Err(_) => IoAction::Stop,
        },
        IoEvent::Tick => IoAction::Ping,
        IoEvent::Pinged(outcome) => match outcome {
            Ok(_) => IoAction::Wait,
            Err(_) => IoAction::Stop,
        },
        IoEvent::Read(outcome) => match outcome {
            Ok(read) => match read {
                Some(text) => IoAction::Forward(text),
                None => IoAction::Stop,
            },
            Err(_) => IoAction::Stop,
        },
        IoEvent::Forwarded(taken) => if taken {
            IoAction::Wait
        } else {
            IoAction::Stop
        },
    }
}

/// A frame that came over the socket.
#[derive(Debug)]
pub enum WsFrame {
    Text(String),
    Binary,
    Ping(Vec<u8>),
    Pong,
    Raw,
    Close,
    /// Reading failed.
    Broken,
    /// No frame can come any more.
    End,
}

/// What to do about a frame.
#[derive(Debug)]
pub enum FrameStep {
    /// Read the next frame.
    Skip,
    /// Send these bytes back, then read the next frame; where they cannot be sent
    /// the connection is closed.
    Pong(Vec<u8>),
    /// This is what was read; nothing where the connection is closed.
    Done(Option<String>),
}

/// What to do about a frame: texts are read, pings are answered, the end of the
/// connection is told, the rest is passed over.
pub fn read_frame(frame: WsFrame) -> (r: FrameStep)
    ensures
        r == match frame {
            WsFrame::Text(text) => FrameStep::Done(Some(text)),
            WsFrame::Ping(data) => FrameStep::Pong(data),
            WsFrame::Binary | WsFrame::Pong | WsFrame::Raw => FrameStep::Skip,
            WsFrame::Close | WsFrame::Broken | WsFrame::End => FrameStep::Done(None),
        },
{
    match frame {
        WsFrame::Text(text) => FrameStep::Done(Some(text)),
        WsFrame::Ping(data) => FrameStep::Pong(data),
        WsFrame::Binary | WsFrame::Pong | WsFrame::Raw => FrameStep::Skip,
        WsFrame::Close | WsFrame::Broken | WsFrame::End => FrameStep::Done(None),
    }
}

/// The header by which the server knows the client, where a token is set.
pub fn authorization(config: &OneBotConfig) -> (r: Option<String>)
    ensures
        match (r, config.access_token) {
            (Some(header), Some(token)) => header@ == "Bearer "@ + token@,
            (None, None) => true,
            _ => false,
        },
{
    match &config.access_token {
        Some(token) => Some(concat("Bearer ", token.as_str())),
        None => None,
    }
}

/// Pauses never shrink from one failure to the next, and never pass the longest one.
pub proof fn pauses_grow_up_to_the_longest(base: int, max: int, fewer: int, more: int)
    requires
        0 <= base,
        0 <= max,
        0 <= fewer <= more,
    ensures
        pause_after(base, max, fewer) <= pause_after(base, max, more) <= max,
{
    let a: int = if fewer < 31 {
        fewer
    } else {
        31
    };
    let b: int = if more < 31 {
        more
    } else {
        31
    };
    if a < b {
        lemma_pow2_strictly_increases(a as nat, b as nat);
    }
    let low = pow2(a as nat);
    let high = pow2(b as nat);
    assert(base * low <= base * high) by (nonlinear_arith)
        requires
            0 <= base,
            low <= high,
    ;
}

/// Until the longest pause is reached, each pause is twice the one before.
pub proof fn pauses_double(base: int, max: int, failures: int)
    requires
        0 <= base,
        0 <= failures < 31,
        pause_after(base, max, failures + 1) < max,
    ensures
        pause_after(base, max, failures + 1) == 2 * pause_after(base, max, failures),
{
    vstd::arithmetic::power2::lemma_pow2_unfold((failures + 1) as nat);
    let p = pow2(failures as nat);
    let q = pow2((failures + 1) as nat);
    vstd::arithmetic::power2::lemma_pow2_pos(failures as nat);
    assert(base * q == 2 * (base * p) && 0 <= base * p) by (nonlinear_arith)
        requires
            q == 2 * p,
            0 <= base,
            0 <= p,
    ;
}

/// Without a failure the pause is the first one, unless the longest is shorter.
pub proof fn a_reset_starts_over(backoff: Backoff)
    ensures
        (Backoff { attempt: 0, ..backoff }).pause() == if backoff.base.nanos < backoff.max.nanos {
            backoff.base.nanos as int
        } else {
            backoff.max.nanos as int
        },
{
    lemma2_to64();
    assert(backoff.base.nanos * 1 == backoff.base.nanos);
}

proof fn lemma_failures_are_counted(backoffs: Seq<Backoff>, turns: Seq<Turn>, k: int)
    requires
        backoffs.len() == turns.len() + 1,
        backoffs[0].attempt == 0,
        forall|i: int|
            0 <= i < turns.len() ==> after_failure(
                backoffs[i],
                backoffs[i + 1],
                #[trigger] turns[i],
            ),
        0 <= k <= turns.len(),
    ensures
        backoffs[k].base == backoffs[0].base,
        backoffs[k].max == backoffs[0].max,
        backoffs[k].attempt == if k < u32::MAX {
            k
        } else {
            u32::MAX as int
        },
    decreases k,
{
    if k > 0 {
        lemma_failures_are_counted(backoffs, turns, k - 1);
        assert(after_failure(backoffs[k - 1], backoffs[k], turns[k - 1]));
    }
}

/// Of failures in a row, the first waits for the first pause, and each for the one
/// that is due after those before it.
pub proof fn failures_wait_their_turn(backoffs: Seq<Backoff>, turns: Seq<Turn>, k: int)
    requires
        backoffs.len() == turns.len() + 1,
        backoffs[0].attempt == 0,
        forall|i: int|
            0 <= i < turns.len() ==> after_failure(
                backoffs[i],
                backoffs[i + 1],
                #[trigger] turns[i],
            ),
        0 <= k < turns.len(),
    ensures
        turns[k].pause matches Some(p) && p.nanos == pause_after(
            backoffs[0].base.nanos as int,
            backoffs[0].max.nanos as int,
            k,
        ),
        turns[k].state == OneBotConnectionState::Reconnecting,
{
    lemma_failures_are_counted(backoffs, turns, k);
    assert(after_failure(backoffs[k], backoffs[k + 1], turns[k]));
}

/// The pause after so many failures in a row is the first pause doubled as often, but
/// not beyond the longest; from the thirty-first on it does not grow.
pub proof fn pauses_by_failures(base: int, max: int, failures: int)
    requires
        0 <= base,
        0 <= failures,
    ensures
        pause_after(base, max, 0) == if base < max {
            base
        } else {
            max
        },
        pause_after(base, max, 1) == if base * 2 < max {
            base * 2
        } else {
            max
        },
        pause_after(base, max, 3) == if base * 8 < max {
            base * 8
        } else {
            max
        },
        failures >= 31 ==> pause_after(base, max, failures) == if base * 0x8000_0000 < max {
            base * 0x8000_0000
        } else {
            max
        },
{
    lemma2_to64();
    assert(pow2(31) == 0x8000_0000);
    assert(pow2(3) == 8);
    assert(pow2(1) == 2);
    assert(pow2(0) == 1);
    assert(base * 1 == base);
}

/// A new connection has not failed yet and takes its pauses from the settings, a
/// second at least.
pub proof fn pauses_come_from_the_settings(config: OneBotConfig, r: ConnectionLoop)
    requires
        call_ensures(ConnectionLoop::new, (&config,), r),
    ensures
        r.backoff.attempt == 0,
        config.reconnect_interval_secs >= 1 ==> r.backoff.base.nanos
            == config.reconnect_interval_secs * 1_000_000_000,
        config.max_reconnect_interval_secs >= 1 ==> r.backoff.max.nanos
            == config.max_reconnect_interval_secs * 1_000_000_000,
        config.reconnect_interval_secs == 0 ==> r.backoff.base.nanos == 1_000_000_000,
        config.max_reconnect_interval_secs == 0 ==> r.backoff.max.nanos == 1_000_000_000,
{
}

/// No attempt is made while the program shuts down.
pub proof fn nothing_begins_at_the_end(
    running: Option<OneBotConnectionState>,
    ending: Option<OneBotConnectionState>,
)
    requires
        call_ensures(ConnectionLoop::begin, (false,), running),
        call_ensures(ConnectionLoop::begin, (true,), ending),
    ensures
        running == Some(OneBotConnectionState::Connecting),
        ending is None,
{
}

/// While a connection stands, what is to be sent is sent and what is read is handed
/// on, unchanged; every failure and every end stops it, and nothing else does.
pub proof fn connections_carry_both_ways(event: IoEvent, r: IoAction)
    requires
        call_ensures(handle_connected_io, (event,), r),
    ensures
        event matches IoEvent::Outbound(Some(text)) ==> r == IoAction::Send(text),
        event matches IoEvent::Read(Ok(Some(text))) ==> r == IoAction::Forward(text),
        event is Tick ==> r is Ping,
        r is Stop <==> event is Shutdown || event == IoEvent::Outbound(None) || (
        event matches IoEvent::Sent(Err(_))) || (event matches IoEvent::Pinged(Err(_))) || (
        event matches IoEvent::Read(Err(_))) || (event matches IoEvent::Read(Ok(None))) || event
            == IoEvent::Forwarded(false),
        r is Wait <==> (event matches IoEvent::Sent(Ok(_))) || (event matches IoEvent::Pinged(Ok(
            _,
        ))) || event == IoEvent::Forwarded(true),
{
}

/// A text is read as it is, a ping is answered with its own bytes, the end of the
/// socket is told, and other frames are passed over.
pub proof fn frames_are_read(frame: WsFrame, r: FrameStep)
    requires
        call_ensures(read_frame, (frame,), r),
    ensures
        frame matches WsFrame::Text(text) ==> r == FrameStep::Done(Some(text)),
        frame matches WsFrame::Ping(data) ==> r == FrameStep::Pong(data),
        r == FrameStep::Done(None) <==> frame is Close || frame is Broken || frame is End,
        r is Skip <==> frame is Binary || frame is Pong || frame is Raw,
{
}

/// A token that is set is shown, and without one nothing is.
pub proof fn tokens_are_shown(config: OneBotConfig, r: Option<String>)
    requires
        call_ensures(authorization, (&config,), r),
    ensures
        r is Some <==> config.access_token is Some,
        r matches Some(header) ==> header@ == "Bearer "@ + config.access_token->0@,
{
}

/// Each pause that is taken counts one failure more, and the pauses to choose from
/// stay; the pause is the one that is due, and looking at it counts nothing.
pub proof fn each_pause_counts_a_failure()
    ensures
        forall|b: &mut Backoff, r: Span|
            #[trigger] call_ensures(Backoff::next_delay, (b,), r) && b.attempt < 0xFFFF_FFFF ==> {
                &&& final(b).attempt == b.attempt + 1
                &&& final(b).base == b.base && final(b).max == b.max
                &&& r.nanos == pause_after(
                    b.base.nanos as int,
                    b.max.nanos as int,
                    b.attempt as int,
                )
            },
        forall|b: Backoff, r: Span|
            #[trigger] call_ensures(Backoff::peek_latest, (&b,), r) ==> r.nanos == pause_after(
                b.base.nanos as int,
                b.max.nanos as int,
                b.attempt as int,
            ),
        forall|b: &mut Backoff|
            #[trigger] call_ensures(Backoff::reset, (b,), ()) ==> final(b).attempt == 0
                && final(b).base == b.base && final(b).max == b.max,
{
}

/// A connection that stands is made known and forgets the failures; one that could not
/// be made, or was lost, is made known with the reason, if there is one, and tried
/// again after the pause that is due.
pub proof fn connections_are_tried_again(now: Timestamp, e: RuntimeError)
    ensures
        forall|c: &mut ConnectionLoop, r: Turn| #[trigger]
            call_ensures(ConnectionLoop::attempted, (c, Ok::<(), RuntimeError>(()), now), r) ==> {
                &&& r.state == OneBotConnectionState::Connected
                &&& r.pause is None
                &&& r.event is AdapterConnected
                &&& final(c).backoff.attempt == 0
                &&& final(c).backoff.base == c.backoff.base && final(c).backoff.max
                    == c.backoff.max
            },
        forall|c: &mut ConnectionLoop, r: Turn| #[trigger]
            call_ensures(ConnectionLoop::attempted, (c, Err::<(), RuntimeError>(e), now), r)
                && c.backoff.attempt < 0xFFFF_FFFF ==> {
                &&& r.state == OneBotConnectionState::Reconnecting
                &&& r.pause is Some && r.pause->0.nanos == pause_after(
                    c.backoff.base.nanos as int,
                    c.backoff.max.nanos as int,
                    c.backoff.attempt as int,
                )
                &&& r.event is AdapterDisconnected && r.event->AdapterDisconnected_0.reason is Some
                    && r.event->AdapterDisconnected_0.reason->0@ == e.text()
                &&& final(c).backoff.attempt == c.backoff.attempt + 1
            },
        forall|c: &mut ConnectionLoop, r: Turn| #[trigger]
            call_ensures(ConnectionLoop::lost, (c, now), r) && c.backoff.attempt < 0xFFFF_FFFF
                ==> {
                &&& r.state == OneBotConnectionState::Reconnecting
                &&& r.pause is Some && r.pause->0.nanos == pause_after(
                    c.backoff.base.nanos as int,
                    c.backoff.max.nanos as int,
                    c.backoff.attempt as int,
                )
                &&& r.event is AdapterDisconnected && r.event->AdapterDisconnected_0.reason is None
                &&& final(c).backoff.attempt == c.backoff.attempt + 1
            },
{
}

} // verus!
