//! The decisions of the Gateway connection loop.
//!
//! The connection is driven from outside: the driver performs each
//! `GatewayAction` (connect, send, sleep, ...) and reports what happened as a
//! `GatewayEvent`; `GatewaySession::step` decides what comes next.

use vstd::prelude::*;
use crate::gateway::events::{event_of, handle_event, state_after_message, Event};
use crate::gateway::state::{default_heartbeat_interval, GatewayState, GatewayStateView};
use crate::json::{json_valid, parses, u64_at, u64_at_pointer};
use crate::payload::{
    build_heartbeat_frame, build_identify_frame, build_resume_frame, is_heartbeat_frame,
    is_identify_frame, is_resume_frame, GatewayFrame,
};
use crate::status::ActivityStatus;

verus! {

/// The Gateway address used when no resume address is known.
pub open spec fn default_gateway_url() -> Seq<char> {
    "wss://gateway.discord.gg/?v=10&encoding=json"@
}

/// The most reconnect attempts before giving up.
pub open spec fn max_reconnect_attempts() -> u32 {
    7
}

/// The most heartbeats that may go unacknowledged.
pub open spec fn max_missed_acks() -> u32 {
    3
}

/// The shortest heartbeat interval used, in milliseconds.
pub open spec fn min_heartbeat_interval() -> u64 {
    5_000
}

/// How a session ended.
#[derive(Debug, Clone, Copy, PartialEq, Eq, Structural)]
pub enum SessionResult {
    Stop,
    Reconnect,
    Fatal,
}

/// A message read from the WebSocket.
#[derive(Debug)]
pub enum Inbound {
    Text(String),
    /// A close frame, with its code when it carries one.
    Close(Option<u16>),
    Ping(Vec<u8>),
    Pong,
    Binary,
    /// Any other kind of frame.
    Other,
    /// The stream reported an error.
    Error,
    /// The stream ended.
    End,
}

/// The mathematical form of an inbound message.
pub enum InboundView {
    Text(Seq<char>),
    Close(Option<u16>),
    Ping(Seq<u8>),
    Pong,
    Binary,
    Other,
    Error,
    End,
}

impl View for Inbound {
    type V = InboundView;

    open spec fn view(&self) -> InboundView {
        match self {
            Inbound::Text(t) => InboundView::Text(t@),
            Inbound::Close(c) => InboundView::Close(*c),
            Inbound::Ping(d) => InboundView::Ping(d@),
            Inbound::Pong => InboundView::Pong,
            Inbound::Binary => InboundView::Binary,
            Inbound::Other => InboundView::Other,
            Inbound::Error => InboundView::Error,
            Inbound::End => InboundView::End,
        }
    }
}

/// What was received from the presence channel.
#[derive(Debug)]
pub enum PresenceRecv {
    /// A presence update (JSON text) to forward.
    Payload(String),
    /// This many updates were missed.
    Lagged(u64),
    /// The channel was closed.
    Closed,
}

/// The mathematical form of a presence receipt.
pub enum PresenceRecvView {
    Payload(Seq<char>),
    Lagged(u64),
    Closed,
}

impl View for PresenceRecv {
    type V = PresenceRecvView;

    open spec fn view(&self) -> PresenceRecvView {
        match self {
            PresenceRecv::Payload(p) => PresenceRecvView::Payload(p@),
            PresenceRecv::Lagged(n) => PresenceRecvView::Lagged(*n),
            PresenceRecv::Closed => PresenceRecvView::Closed,
        }
    }
}

/// The address to connect to: the resume address when one is known.
pub open spec fn url_of(s: GatewayStateView) -> Seq<char> {
    match s.resume_url {
        Some(u) => u,
        None => default_gateway_url(),
    }
}

/// The Gateway address for the next connection.
pub fn gateway_url(state: &GatewayState) -> (u: String)
    ensures
        u@ == url_of(state@),
{
    match &state.resume_url {
        Some(u) => u.clone(),
        None => String::from_str("wss://gateway.discord.gg/?v=10&encoding=json"),
    }
}

/// The state and result after a close frame with `code`.
pub open spec fn close_outcome(s: GatewayStateView, code: Option<u16>, before_hello: bool) -> (GatewayStateView, SessionResult) {
    match code {
        None => (s, SessionResult::Reconnect),
        Some(c) => if c == 4004 {
            (GatewayStateView { status: ActivityStatus::TokenInvalid, ..s }, SessionResult::Fatal)
        } else if c == 4009 && !before_hello {
            (GatewayStateView { session_id: None, ready: false, ..s }, SessionResult::Reconnect)
        } else {
            (s, SessionResult::Reconnect)
        },
    }
}

/// Handle a close frame. Code 4004 (authentication failed) is fatal and
/// marks the token invalid; code 4009 (session timed out) during a session
/// forgets the session; anything else asks for a reconnect.
pub fn handle_close_frame(code: Option<u16>, before_hello: bool, state: &mut GatewayState) -> (r: SessionResult)
    ensures
        (final(state)@, r) == close_outcome(old(state)@, code, before_hello),
{
    match code {
        None => SessionResult::Reconnect,
        Some(c) => {
            if c == 4004 {
                state.set_async(ActivityStatus::TokenInvalid);
                SessionResult::Fatal
            } else if c == 4009 && !before_hello {
                state.session_id = None;
                state.ready = false;
                SessionResult::Reconnect
            } else {
                SessionResult::Reconnect
            }
        },
    }
}

/// The heartbeat interval to use, from whether the HELLO parsed and the
/// interval it announced: none when it did not parse; the default when it
/// announced none; never below the minimum.
pub open spec fn interval_of(parsed: bool, announced: Option<u64>) -> Option<u64> {
    if parsed {
        let i = match announced {
            Some(v) => v,
            None => default_heartbeat_interval(),
        };
        Some(if i < min_heartbeat_interval() { min_heartbeat_interval() } else { i })
    } else {
        None
    }
}

/// The heartbeat interval announced by the HELLO message `text`.
pub open spec fn hello_interval_of(text: Seq<char>) -> Option<u64> {
    interval_of(json_valid(text), u64_at(text, "/d/heartbeat_interval"@))
}

/// The heartbeat interval to use, from whether the HELLO parsed and the
/// interval it announced.
pub fn interval_from(parsed: bool, announced: Option<u64>) -> (r: Option<u64>)
    ensures
        r == interval_of(parsed, announced),
{
    if !parsed {
        return None;
    }
    let i = match announced {
        Some(v) => v,
        None => 41_250,
    };
    Some(if i < 5_000 { 5_000 } else { i })
}

/// The heartbeat interval that a HELLO message announces.
pub fn hello_interval(text: &str) -> (r: Option<u64>)
    ensures
        r == hello_interval_of(text@),
{
    let parsed = parses(text);
    let announced = u64_at_pointer(text, "/d/heartbeat_interval");
    interval_from(parsed, announced)
}

/// The state and outcome after the first message of a connection.
pub open spec fn hello_outcome(s: GatewayStateView, m: InboundView) -> (GatewayStateView, Result<u64, SessionResult>) {
    match m {
        InboundView::Text(t) => match hello_interval_of(t) {
            Some(i) => (GatewayStateView { heartbeat_interval_ms: i, ..s }, Ok(i)),
            None => (s, Err(SessionResult::Reconnect)),
        },
        InboundView::Close(c) => {
            let (s1, r) = close_outcome(s, c, true);
            (s1, Err(r))
        },
        _ => (s, Err(SessionResult::Reconnect)),
    }
}

/// Wait for the initial HELLO and extract the heartbeat interval.
pub fn wait_for_hello(msg: &Inbound, state: &mut GatewayState) -> (r: Result<u64, SessionResult>)
    ensures
        (final(state)@, r) == hello_outcome(old(state)@, msg@),
{
    match msg {
        Inbound::Text(t) => match hello_interval(t.as_str()) {
            Some(i) => {
                state.heartbeat_interval_ms = i;
                Ok(i)
            },
            None => Err(SessionResult::Reconnect),
        },
        Inbound::Close(c) => Err(handle_close_frame(*c, true, state)),
        _ => Err(SessionResult::Reconnect),
    }
}

/// The session can be resumed rather than identified anew.
pub open spec fn resumes(s: GatewayStateView) -> bool {
    s.session_id is Some && s.ready
}

/// `f` is the frame that opens a session from state `s`: RESUME when the
/// session can be resumed, IDENTIFY otherwise.
pub open spec fn is_opening_frame(f: GatewayFrame, s: GatewayStateView, app_id: Seq<char>, token: Seq<char>) -> bool {
    if resumes(s) {
        is_resume_frame(f, token, s.session_id->0, s.last_seq)
    } else {
        is_identify_frame(f, app_id, token)
    }
}

/// The IDENTIFY or RESUME frame, based on the current session state.
pub fn identify_or_resume(state: &GatewayState, app_id: &str, token: &str) -> (f: GatewayFrame)
    ensures
        is_opening_frame(f, state@, app_id@, token@),
{
    match &state.session_id {
        Some(sid) => {
            if state.ready {
                build_resume_frame(token, sid.as_str(), state.last_seq)
            } else {
                build_identify_frame(app_id, token)
            }
        },
        None => build_identify_frame(app_id, token),
    }
}

/// What to do about a heartbeat that was sent (or failed to be sent).
pub open spec fn heartbeat_outcome(sent: bool, missed: u32) -> (u32, Option<SessionResult>) {
    if !sent {
        (missed, Some(SessionResult::Reconnect))
    } else if missed >= max_missed_acks() {
        (missed, Some(SessionResult::Reconnect))
    } else {
        ((missed + 1) as u32, None)
    }
}

/// After a heartbeat: a failed send, or too many unacknowledged heartbeats,
/// ends the session; otherwise one more heartbeat awaits its acknowledgement.
pub fn after_heartbeat(sent: bool, missed_acks: &mut u32) -> (r: Option<SessionResult>)
    ensures
        (*final(missed_acks), r) == heartbeat_outcome(sent, *old(missed_acks)),
{
    if !sent {
        return Some(SessionResult::Reconnect);
    }
    if *missed_acks >= 3 {
        return Some(SessionResult::Reconnect);
    }
    *missed_acks = *missed_acks + 1;
    None
}

/// What the session does with a WebSocket message.
#[derive(Debug)]
pub enum MessageOutcome {
    Continue,
    /// Answer a ping with these bytes.
    Pong(Vec<u8>),
    End(SessionResult),
}

/// The mathematical form of a message outcome.
pub enum MessageOutcomeView {
    Continue,
    Pong(Seq<u8>),
    End(SessionResult),
}

/// The state, count of unacknowledged heartbeats, and outcome after a
/// WebSocket message during a session.
pub open spec fn message_effect(s: GatewayStateView, missed: u32, m: InboundView) -> (GatewayStateView, u32, MessageOutcomeView) {
    match m {
        InboundView::Text(t) => {
            let s1 = state_after_message(s, t);
            match event_of(t) {
                Event::Continue => (s1, missed, MessageOutcomeView::Continue),
                Event::Ready | Event::Resumed => (
                    GatewayStateView { ready: true, status: ActivityStatus::Active, ..s1 },
                    missed,
                    MessageOutcomeView::Continue,
                ),
                Event::HeartbeatAck => (s1, 0, MessageOutcomeView::Continue),
                Event::InvalidSession(resumable) => (
                    if resumable {
                        s1
                    } else {
                        GatewayStateView { session_id: None, ready: false, ..s1 }
                    },
                    missed,
                    MessageOutcomeView::End(SessionResult::Reconnect),
                ),
                Event::Reconnect => (s1, missed, MessageOutcomeView::End(SessionResult::Reconnect)),
            }
        },
        InboundView::Close(c) => {
            let (s1, r) = close_outcome(s, c, false);
            (s1, missed, MessageOutcomeView::End(r))
        },
        InboundView::Ping(d) => (s, missed, MessageOutcomeView::Pong(d)),
        InboundView::Error | InboundView::End => (s, missed, MessageOutcomeView::End(SessionResult::Reconnect)),
        _ => (s, missed, MessageOutcomeView::Continue),
    }
}

/// The view of a message outcome.
pub open spec fn outcome_view(o: MessageOutcome) -> MessageOutcomeView {
    match o {
        MessageOutcome::Continue => MessageOutcomeView::Continue,
        MessageOutcome::Pong(d) => MessageOutcomeView::Pong(d@),
        MessageOutcome::End(r) => MessageOutcomeView::End(r),
    }
}

/// Process a single WebSocket message received during a session.
pub fn handle_ws_message(msg: Inbound, state: &mut GatewayState, missed_acks: &mut u32) -> (o: MessageOutcome)
    ensures
        (final(state)@, *final(missed_acks), outcome_view(o)) == message_effect(old(state)@, *old(missed_acks), msg@),
{
    match msg {
        Inbound::Text(t) => match handle_event(t.as_str(), state) {
            Event::Continue => MessageOutcome::Continue,
            Event::Ready | Event::Resumed => {
                state.ready = true;
                state.set_async(ActivityStatus::Active);
                MessageOutcome::Continue
            },
            Event::HeartbeatAck => {
                *missed_acks = 0;
                MessageOutcome::Continue
            },
            Event::InvalidSession(resumable) => {
                if !resumable {
                    state.session_id = None;
                    state.ready = false;
                }
                MessageOutcome::End(SessionResult::Reconnect)
            },
            Event::Reconnect => MessageOutcome::End(SessionResult::Reconnect),
        },
        Inbound::Close(c) => MessageOutcome::End(handle_close_frame(c, false, state)),
        Inbound::Ping(d) => MessageOutcome::Pong(d),
        Inbound::Error | Inbound::End => MessageOutcome::End(SessionResult::Reconnect),
        _ => MessageOutcome::Continue,
    }
}

/// What the session does with something from the presence channel.
#[derive(Debug)]
pub enum PresenceOutcome {
    /// Send this JSON text over the WebSocket.
    Send(String),
    Continue,
    End(SessionResult),
}

/// Forward a presence update to the WebSocket; a lagging channel is only
/// noted; a closed channel stops the session.
pub fn handle_presence(r: PresenceRecv) -> (o: PresenceOutcome)
    ensures
        match r@ {
            PresenceRecvView::Payload(p) => o matches PresenceOutcome::Send(t) && t@ == p,
            PresenceRecvView::Lagged(_) => o matches PresenceOutcome::Continue,
            PresenceRecvView::Closed => o matches PresenceOutcome::End(SessionResult::Stop),
        },
{
    match r {
        PresenceRecv::Payload(p) => PresenceOutcome::Send(p),
        PresenceRecv::Lagged(_) => PresenceOutcome::Continue,
        PresenceRecv::Closed => PresenceOutcome::End(SessionResult::Stop),
    }
}

/// `1000 * 2^e` milliseconds.
pub open spec fn backoff(e: nat) -> nat
    decreases e,
{
    if e == 0 {
        1000
    } else {
        2 * backoff((e - 1) as nat)
    }
}

/// The delay before reconnect attempt `attempt` (counted from 1):
/// 1 s doubled per attempt, at most 64 s.
pub open spec fn delay_of(attempt: u32) -> u64 {
    let e: nat = if attempt - 1 < 6 { (attempt - 1) as nat } else { 6 };
    let d = backoff(e);
    (if d < 64_000 { d } else { 64_000 }) as u64
}

/// The delay before a reconnect attempt, in milliseconds.
pub fn reconnect_delay(attempt: u32) -> (d: u64)
    requires
        attempt >= 1,
    ensures
        d == delay_of(attempt),
{
    let e: u32 = if attempt - 1 < 6 { attempt - 1 } else { 6 };
    let mut base: u64 = 1000;
    let mut k: u32 = 0;
    while k < e
        invariant
            e <= 6,
            k <= e,
            base == backoff(k as nat),
            base <= 64_000,
        decreases e - k,
    {
        proof {
            lemma_backoff_bound(k as nat + 1);
        }
        base = base * 2;
        k = k + 1;
    }
    if base < 64_000 {
        base
    } else {
        64_000
    }
}

/// `backoff` stays within the cap up to six doublings.
pub proof fn lemma_backoff_bound(e: nat)
    requires
        e <= 6,
    ensures
        backoff(e) <= 64_000,
        backoff(e) >= 1000,
{
    reveal_with_fuel(backoff, 7);
    assert(backoff(6) == 64_000);
}

/// The attempt count, state and delay (none: give up) after a session asked
/// for a reconnect.
pub open spec fn reconnect_decision(attempts: u32, s: GatewayStateView) -> (u32, GatewayStateView, Option<u64>) {
    if s.stopped {
        (attempts, s, None)
    } else if attempts >= max_reconnect_attempts() {
        (attempts, GatewayStateView { status: ActivityStatus::NetworkError, ..s }, None)
    } else {
        ((attempts + 1) as u32, s, Some(delay_of((attempts + 1) as u32)))
    }
}

/// Decide whether to reconnect: not after a stop request, not after the
/// last allowed attempt (then the status becomes `NetworkError`); otherwise
/// count the attempt and give the delay to wait.
pub fn should_reconnect(attempts: &mut u32, state: &mut GatewayState) -> (r: Option<u64>)
    ensures
        (*final(attempts), final(state)@, r) == reconnect_decision(*old(attempts), old(state)@),
{
    if state.is_stopped() {
        return None;
    }
    if *attempts >= 7 {
        state.set_async(ActivityStatus::NetworkError);
        return None;
    }
    *attempts = *attempts + 1;
    Some(reconnect_delay(*attempts))
}

/// The bits that spread the heartbeat jitter.
pub open spec fn jitter_mix(nanos: u32) -> u32 {
    nanos ^ (nanos << 10u32) ^ (nanos >> 5u32)
}

/// The first heartbeat's delay for interval `base` and a clock reading.
pub open spec fn jitter_of(base: u64, nanos: u32) -> u64 {
    (base / 2 + (jitter_mix(nanos) as u64) % ((base - base / 2 + 1) as u64)) as u64
}

/// Jitter for the first heartbeat, between 50% and 100% of `base`, spread
/// by the sub-second part of the clock, `nanos`.
pub fn jitter_ms(base: u64, nanos: u32) -> (j: u64)
    ensures
        j == jitter_of(base, nanos),
        base / 2 <= j <= base,
{
    let mix: u32 = nanos ^ (nanos << 10u32) ^ (nanos >> 5u32);
    let span: u64 = base - base / 2 + 1;
    let frac: u64 = (mix as u64) % span;
    base / 2 + frac
}

/// Where the connection loop is.
#[derive(Debug, Clone, Copy, PartialEq, Eq, Structural)]
pub enum Phase {
    /// Between sessions: the next step is to connect, unless stopped.
    Idle,
    Connecting,
    AwaitingHello,
    /// IDENTIFY or RESUME is being sent.
    Identifying,
    Running,
    SendingHeartbeat,
    SendingPresence,
    /// The loop is over.
    Exited,
}

/// What happened, reported by the driver.
#[derive(Debug)]
pub enum GatewayEvent {
    /// The driver is ready to start a session.
    Begin,
    /// The WebSocket connection succeeded or failed.
    Connected(bool),
    Message(Inbound),
    /// The last frame asked for was sent, or sending failed.
    Sent(bool),
    /// The heartbeat timer fired.
    Tick,
    Presence(PresenceRecv),
    /// The stop signal changed; its current value.
    StopSignal(bool),
}

/// The mathematical form of an event.
pub enum GatewayEventView {
    Begin,
    Connected(bool),
    Message(InboundView),
    Sent(bool),
    Tick,
    Presence(PresenceRecvView),
    StopSignal(bool),
}

impl View for GatewayEvent {
    type V = GatewayEventView;

    open spec fn view(&self) -> GatewayEventView {
        match self {
            GatewayEvent::Begin => GatewayEventView::Begin,
            GatewayEvent::Connected(b) => GatewayEventView::Connected(*b),
            GatewayEvent::Message(m) => GatewayEventView::Message(m@),
            GatewayEvent::Sent(b) => GatewayEventView::Sent(*b),
            GatewayEvent::Tick => GatewayEventView::Tick,
            GatewayEvent::Presence(p) => GatewayEventView::Presence(p@),
            GatewayEvent::StopSignal(b) => GatewayEventView::StopSignal(*b),
        }
    }
}

/// What the driver must do next.
#[derive(Debug)]
pub enum GatewayAction {
    /// Open a WebSocket to this address, then report `Connected`.
    Connect(String),
    /// Send this frame, then report `Sent`.
    Send(GatewayFrame),
    /// Send this JSON text, then report `Sent`.
    SendText(String),
    /// Answer a ping with these bytes; nothing needs reporting.
    Pong(Vec<u8>),
    /// Start the heartbeat timer with this interval (after a jitter), then wait.
    StartHeartbeat(u64),
    /// Wait for the next event.
    Wait,
    /// Sleep this many milliseconds, then report `Begin`.
    Sleep(u64),
    /// The loop is over.
    Exit,
}

/// The mathematical form of an action.
pub enum GatewayActionView {
    Connect(Seq<char>),
    /// The session's opening frame (IDENTIFY or RESUME).
    Open,
    Heartbeat(u64),
    SendText(Seq<char>),
    Pong(Seq<u8>),
    StartHeartbeat(u64),
    Wait,
    Sleep(u64),
    Exit,
}

/// The loop's own state.
#[derive(Debug, Clone, Copy, PartialEq, Eq, Structural)]
pub struct GatewaySession {
    pub phase: Phase,
    /// Reconnect attempts made so far.
    pub attempts: u32,
    /// Heartbeats sent and not yet acknowledged.
    pub missed_acks: u32,
    /// The stop count of the shared state when the loop was started.
    pub stops_seen: u64,
}

/// The result of ending a session with `r`: a reconnect sleeps for the
/// backoff delay or gives up; a stop leaves the status `Stopped`; a fatal end
/// (the token was rejected) leaves `TokenInvalid`, which a waiting start
/// reports as an invalid token.
pub open spec fn end_session(g: GatewaySession, s: GatewayStateView, r: SessionResult) -> (GatewaySession, GatewayStateView, GatewayActionView) {
    match r {
        SessionResult::Reconnect => {
            let (a, s1, d) = reconnect_decision(g.attempts, s);
            match d {
                Some(delay) => (GatewaySession { phase: Phase::Idle, attempts: a, ..g }, s1, GatewayActionView::Sleep(delay)),
                None => (GatewaySession { phase: Phase::Exited, attempts: a, ..g }, s1, GatewayActionView::Exit),
            }
        },
        SessionResult::Stop => (
            GatewaySession { phase: Phase::Exited, ..g },
            GatewayStateView { status: ActivityStatus::Stopped, ..s },
            GatewayActionView::Exit,
        ),
        SessionResult::Fatal => (
            GatewaySession { phase: Phase::Exited, ..g },
            GatewayStateView { status: ActivityStatus::TokenInvalid, ..s },
            GatewayActionView::Exit,
        ),
    }
}

/// A stop was requested since the loop was started, and `ev` is not the stop
/// signal itself (which a running session still answers by closing).
pub open spec fn superseded(g: GatewaySession, s: GatewayStateView, ev: GatewayEventView) -> bool {
    g.phase != Phase::Exited && s.stop_count != g.stops_seen && !(ev is StopSignal)
}

/// The next loop state, shared state and action after event `ev`: a loop
/// that a later stop superseded exits, leaving the shared state alone;
/// otherwise as `session_next` says.
pub open spec fn next(g: GatewaySession, s: GatewayStateView, ev: GatewayEventView) -> (GatewaySession, GatewayStateView, GatewayActionView) {
    if superseded(g, s, ev) {
        (GatewaySession { phase: Phase::Exited, ..g }, s, GatewayActionView::Exit)
    } else {
        session_next(g, s, ev)
    }
}

/// The next loop state, shared state and action after event `ev`, for a
/// loop that no later stop superseded.
pub open spec fn session_next(g: GatewaySession, s: GatewayStateView, ev: GatewayEventView) -> (GatewaySession, GatewayStateView, GatewayActionView) {
    match (g.phase, ev) {
        (Phase::Exited, _) => (g, s, GatewayActionView::Exit),
        (Phase::Idle, GatewayEventView::Begin) => if s.stopped {
            (GatewaySession { phase: Phase::Exited, ..g }, s, GatewayActionView::Exit)
        } else {
            (GatewaySession { phase: Phase::Connecting, ..g }, s, GatewayActionView::Connect(url_of(s)))
        },
        (Phase::Connecting, GatewayEventView::Connected(ok)) => if ok {
            (
                GatewaySession { phase: Phase::AwaitingHello, missed_acks: 0, ..g },
                GatewayStateView { status: ActivityStatus::Disconnected, ..s },
                GatewayActionView::Wait,
            )
        } else {
            end_session(g, GatewayStateView { status: ActivityStatus::NetworkError, ..s }, SessionResult::Reconnect)
        },
        (Phase::AwaitingHello, GatewayEventView::Message(m)) => {
            let (s1, r) = hello_outcome(s, m);
            match r {
                Ok(_) => (GatewaySession { phase: Phase::Identifying, ..g }, s1, GatewayActionView::Open),
                Err(e) => end_session(g, s1, e),
            }
        },
        (Phase::Identifying, GatewayEventView::Sent(ok)) => if ok {
            (GatewaySession { phase: Phase::Running, ..g }, s, GatewayActionView::StartHeartbeat(s.heartbeat_interval_ms))
        } else {
            end_session(g, s, SessionResult::Reconnect)
        },
        (Phase::Running, GatewayEventView::StopSignal(stop)) => if stop {
            end_session(g, s, SessionResult::Stop)
        } else {
            (g, s, GatewayActionView::Wait)
        },
        (Phase::Running, GatewayEventView::Tick) => (
            GatewaySession { phase: Phase::SendingHeartbeat, ..g },
            s,
            GatewayActionView::Heartbeat(s.last_seq),
        ),
        (Phase::SendingHeartbeat, GatewayEventView::Sent(ok)) => {
            let (missed, r) = heartbeat_outcome(ok, g.missed_acks);
            match r {
                Some(e) => end_session(g, s, e),
                None => (GatewaySession { phase: Phase::Running, missed_acks: missed, ..g }, s, GatewayActionView::Wait),
            }
        },
        (Phase::Running, GatewayEventView::Presence(p)) => match p {
            PresenceRecvView::Payload(t) => (
                GatewaySession { phase: Phase::SendingPresence, ..g },
                s,
                GatewayActionView::SendText(t),
            ),
            PresenceRecvView::Lagged(_) => (g, s, GatewayActionView::Wait),
            PresenceRecvView::Closed => end_session(g, s, SessionResult::Stop),
        },
        (Phase::SendingPresence, GatewayEventView::Sent(ok)) => if ok {
            (GatewaySession { phase: Phase::Running, ..g }, s, GatewayActionView::Wait)
        } else {
            end_session(g, s, SessionResult::Reconnect)
        },
        (Phase::Running, GatewayEventView::Message(m)) => {
            let (s1, missed, o) = message_effect(s, g.missed_acks, m);
            let g1 = GatewaySession { missed_acks: missed, ..g };
            match o {
                MessageOutcomeView::Continue => (g1, s1, GatewayActionView::Wait),
                MessageOutcomeView::Pong(d) => (g1, s1, GatewayActionView::Pong(d)),
                MessageOutcomeView::End(r) => end_session(g1, s1, r),
            }
        },
        _ => (g, s, GatewayActionView::Wait),
    }
}

/// `a` is the action `v`, with the opening frame built from `opening`.
pub open spec fn action_is(a: GatewayAction, v: GatewayActionView, opening: GatewayStateView, app_id: Seq<char>, token: Seq<char>) -> bool {
    match v {
        GatewayActionView::Connect(u) => a matches GatewayAction::Connect(x) && x@ == u,
        GatewayActionView::Open => a matches GatewayAction::Send(f) && is_opening_frame(f, opening, app_id, token),
        GatewayActionView::Heartbeat(seq) => a matches GatewayAction::Send(f) && is_heartbeat_frame(f, Some(seq)),
        GatewayActionView::SendText(t) => a matches GatewayAction::SendText(x) && x@ == t,
        GatewayActionView::Pong(d) => a matches GatewayAction::Pong(x) && x@ == d,
        GatewayActionView::StartHeartbeat(i) => a matches GatewayAction::StartHeartbeat(x) && x == i,
        GatewayActionView::Wait => a matches GatewayAction::Wait,
        GatewayActionView::Sleep(d) => a matches GatewayAction::Sleep(x) && x == d,
        GatewayActionView::Exit => a matches GatewayAction::Exit,
    }
}

impl GatewaySession {
    /// A loop that has not started, started when the shared state's stop
    /// count was `stops_seen`.
    pub fn new(stops_seen: u64) -> (g: Self)
        ensures
            g == (GatewaySession { phase: Phase::Idle, attempts: 0, missed_acks: 0, stops_seen }),
    {
        GatewaySession { phase: Phase::Idle, attempts: 0, missed_acks: 0, stops_seen }
    }

    fn end(&mut self, state: &mut GatewayState, r: SessionResult) -> (a: GatewayAction)
        ensures
            ({
                let (g2, s2, v) = end_session(*old(self), old(state)@, r);
                &&& *final(self) == g2
                &&& final(state)@ == s2
                &&& action_is(a, v, old(state)@, Seq::empty(), Seq::empty())
            }),
    {
        match r {
            SessionResult::Reconnect => {
                let mut attempts = self.attempts;
                match should_reconnect(&mut attempts, state) {
                    Some(delay) => {
                        self.phase = Phase::Idle;
                        self.attempts = attempts;
                        GatewayAction::Sleep(delay)
                    },
                    None => {
                        self.phase = Phase::Exited;
                        self.attempts = attempts;
                        GatewayAction::Exit
                    },
                }
            },
            SessionResult::Stop => {
                self.phase = Phase::Exited;
                state.set_async(ActivityStatus::Stopped);
                GatewayAction::Exit
            },
            SessionResult::Fatal => {
                self.phase = Phase::Exited;
                state.set_async(ActivityStatus::TokenInvalid);
                GatewayAction::Exit
            },
        }
    }

    /// Decide what follows `event`.
    pub fn step(&mut self, state: &mut GatewayState, app_id: &str, token: &str, event: GatewayEvent) -> (a: GatewayAction)
        ensures
            ({
                let (g2, s2, v) = next(*old(self), old(state)@, event@);
                &&& *final(self) == g2
                &&& final(state)@ == s2
                &&& action_is(a, v, old(state)@, app_id@, token@)
            }),
    {
        let stop_signal = match &event {
            GatewayEvent::StopSignal(_) => true,
            _ => false,
        };
        if self.phase != Phase::Exited && state.stop_count != self.stops_seen && !stop_signal {
            self.phase = Phase::Exited;
            return GatewayAction::Exit;
        }
        self.advance(state, app_id, token, event)
    }

    #[verifier::rlimit(40)]
    #[verifier::spinoff_prover]
    fn advance(&mut self, state: &mut GatewayState, app_id: &str, token: &str, event: GatewayEvent) -> (a: GatewayAction)
        ensures
            ({
                let (g2, s2, v) = session_next(*old(self), old(state)@, event@);
                &&& *final(self) == g2
                &&& final(state)@ == s2
                &&& action_is(a, v, old(state)@, app_id@, token@)
            }),
    {
        match (self.phase, event) {
            (Phase::Exited, _) => GatewayAction::Exit,
            (Phase::Idle, GatewayEvent::Begin) => {
                if state.is_stopped() {
                    self.phase = Phase::Exited;
                    GatewayAction::Exit
                } else {
                    self.phase = Phase::Connecting;
                    GatewayAction::Connect(gateway_url(state))
                }
            },
            (Phase::Connecting, GatewayEvent::Connected(ok)) => {
                if ok {
                    self.phase = Phase::AwaitingHello;
                    self.missed_acks = 0;
                    state.set_async(ActivityStatus::Disconnected);
                    GatewayAction::Wait
                } else {
                    state.set_async(ActivityStatus::NetworkError);
                    self.end(state, SessionResult::Reconnect)
                }
            },
            (Phase::AwaitingHello, GatewayEvent::Message(m)) => {
                let frame = identify_or_resume(state, app_id, token);
                match wait_for_hello(&m, state) {
                    Ok(_) => {
                        self.phase = Phase::Identifying;
                        GatewayAction::Send(frame)
                    },
                    Err(e) => self.end(state, e),
                }
            },
            (Phase::Identifying, GatewayEvent::Sent(ok)) => {
                if ok {
                    self.phase = Phase::Running;
                    GatewayAction::StartHeartbeat(state.heartbeat_interval_ms)
                } else {
                    self.end(state, SessionResult::Reconnect)
                }
            },
            (Phase::Running, GatewayEvent::StopSignal(stop)) => {
                if stop {
                    self.end(state, SessionResult::Stop)
                } else {
                    GatewayAction::Wait
                }
            },
            (Phase::Running, GatewayEvent::Tick) => {
                self.phase = Phase::SendingHeartbeat;
                GatewayAction::Send(build_heartbeat_frame(Some(state.last_seq)))
            },
            (Phase::SendingHeartbeat, GatewayEvent::Sent(ok)) => {
                let mut missed = self.missed_acks;
                match after_heartbeat(ok, &mut missed) {
                    Some(e) => self.end(state, e),
                    None => {
                        self.phase = Phase::Running;
                        self.missed_acks = missed;
                        GatewayAction::Wait
                    },
                }
            },
            (Phase::Running, GatewayEvent::Presence(p)) => match handle_presence(p) {
                PresenceOutcome::Send(t) => {
                    self.phase = Phase::SendingPresence;
                    GatewayAction::SendText(t)
                },
                PresenceOutcome::Continue => GatewayAction::Wait,
                PresenceOutcome::End(e) => self.end(state, e),
            },
            (Phase::SendingPresence, GatewayEvent::Sent(ok)) => {
                if ok {
                    self.phase = Phase::Running;
                    GatewayAction::Wait
                } else {
                    self.end(state, SessionResult::Reconnect)
                }
            },
            (Phase::Running, GatewayEvent::Message(m)) => {
                let mut missed = self.missed_acks;
                let o = handle_ws_message(m, state, &mut missed);
                self.missed_acks = missed;
                match o {
                    MessageOutcome::Continue => GatewayAction::Wait,
                    MessageOutcome::Pong(d) => GatewayAction::Pong(d),
                    MessageOutcome::End(r) => self.end(state, r),
                }
            },
            _ => GatewayAction::Wait,
        }
    }
}


/// The well-formed loop states: at most the allowed reconnect attempts, and
/// at most the allowed unacknowledged heartbeats.
pub open spec fn session_wf(g: GatewaySession) -> bool {
    g.attempts <= max_reconnect_attempts() && g.missed_acks <= max_missed_acks()
}

/// Every step keeps the loop well formed: the attempt count never passes
/// the maximum, and no more than three heartbeats go unacknowledged. Each
/// wait before a reconnect counts one attempt, so there are at most seven.
pub proof fn law_step_keeps_bounds(g: GatewaySession, s: GatewayStateView, ev: GatewayEventView)
    requires
        session_wf(g),
    ensures
        session_wf(next(g, s, ev).0),
        next(g, s, ev).0.attempts >= g.attempts,
        next(g, s, ev).2 is Sleep ==> next(g, s, ev).0.attempts == g.attempts + 1,
        next(g, s, ev).2 !is Sleep ==> next(g, s, ev).0.attempts == g.attempts,
{
}

/// Once the loop has exited, every event leaves everything as it is and
/// the answer is to exit.
pub proof fn law_exited_is_final(g: GatewaySession, s: GatewayStateView, ev: GatewayEventView)
    requires
        g.phase == Phase::Exited,
    ensures
        next(g, s, ev) == (g, s, GatewayActionView::Exit),
{
}

/// A stop request is honoured: no new session starts, and no reconnect is
/// attempted.
pub proof fn law_stop_is_honoured(g: GatewaySession, s: GatewayStateView)
    requires
        s.stopped,
    ensures
        g.phase == Phase::Idle ==> next(g, s, GatewayEventView::Begin).2 == GatewayActionView::Exit,
        reconnect_decision(g.attempts, s).2 is None,
        g.phase == Phase::Running ==> next(g, s, GatewayEventView::StopSignal(true)).2
            == GatewayActionView::Exit && next(g, s, GatewayEventView::StopSignal(true)).1.status
            == ActivityStatus::Stopped,
{
}

/// After the last allowed attempt, a session that asks for a reconnect ends
/// the loop with the status `NetworkError` (unless a stop was requested).
pub proof fn law_gives_up_after_max_attempts(g: GatewaySession, s: GatewayStateView)
    requires
        g.attempts == max_reconnect_attempts(),
        !s.stopped,
    ensures
        end_session(g, s, SessionResult::Reconnect).0.phase == Phase::Exited,
        end_session(g, s, SessionResult::Reconnect).1.status == ActivityStatus::NetworkError,
        end_session(g, s, SessionResult::Reconnect).2 == GatewayActionView::Exit,
{
}

/// Reconnect delays start at one second, double with each attempt, and
/// never exceed 64 seconds.
pub proof fn law_backoff(attempt: u32)
    requires
        attempt >= 1,
    ensures
        delay_of(1) == 1000,
        1000 <= delay_of(attempt) <= 64_000,
        attempt < 7 ==> delay_of((attempt + 1) as u32) == 2 * delay_of(attempt),
        attempt >= 7 ==> delay_of(attempt) == 64_000,
{
    reveal_with_fuel(backoff, 7);
    let e: nat = if attempt - 1 < 6 { (attempt - 1) as nat } else { 6 };
    lemma_backoff_bound(e);
    if attempt < 7 {
        lemma_backoff_bound(attempt as nat);
        assert(backoff(attempt as nat) == 2 * backoff((attempt - 1) as nat));
    }
}

/// A session resumes exactly when a session id is known and the last
/// session had become ready; otherwise it identifies anew.
pub proof fn law_resume_iff_session_known(
    f: GatewayFrame,
    s: GatewayStateView,
    app_id: Seq<char>,
    token: Seq<char>,
)
    requires
        is_opening_frame(f, s, app_id, token),
    ensures
        f.op == 6 <==> (s.session_id is Some && s.ready),
        f.op == 2 <==> !(s.session_id is Some && s.ready),
{
}

/// After a session is invalidated for good (a non-resumable INVALID_SESSION,
/// or a close with code 4009), the next session identifies anew.
pub proof fn law_invalidated_session_identifies(s: GatewayStateView, missed: u32, m: InboundView)
    requires
        (m matches InboundView::Text(t) && event_of(t) == Event::InvalidSession(false))
            || m == InboundView::Close(Some(4009)),
    ensures
        !resumes(message_effect(s, missed, m).0),
        message_effect(s, missed, m).2 == MessageOutcomeView::End(SessionResult::Reconnect),
{
}

/// READY or RESUMED makes the session ready and the status `Active`.
pub proof fn law_ready_activates(s: GatewayStateView, missed: u32, t: Seq<char>)
    requires
        event_of(t) == Event::Ready || event_of(t) == Event::Resumed,
    ensures
        message_effect(s, missed, InboundView::Text(t)).0.ready,
        message_effect(s, missed, InboundView::Text(t)).0.status == ActivityStatus::Active,
        message_effect(s, missed, InboundView::Text(t)).2 == MessageOutcomeView::Continue,
{
}

/// A heartbeat acknowledgement clears the count of unacknowledged heartbeats.
pub proof fn law_ack_resets_missed(s: GatewayStateView, missed: u32, t: Seq<char>)
    requires
        event_of(t) == Event::HeartbeatAck,
    ensures
        message_effect(s, missed, InboundView::Text(t)).1 == 0,
{
}

/// A close with code 4004 (authentication failed) ends the loop for good,
/// and the status it leaves is `TokenInvalid`, which the client reports as
/// an invalid token.
pub proof fn law_rejected_token_is_fatal(g: GatewaySession, s: GatewayStateView, before_hello: bool)
    ensures
        close_outcome(s, Some(4004), before_hello).1 == SessionResult::Fatal,
        close_outcome(s, Some(4004), before_hello).0.status == ActivityStatus::TokenInvalid,
        end_session(g, close_outcome(s, Some(4004), before_hello).0, SessionResult::Fatal).2
            == GatewayActionView::Exit,
        end_session(g, close_outcome(s, Some(4004), before_hello).0, SessionResult::Fatal).1.status
            == ActivityStatus::TokenInvalid,
{
}

/// The heartbeat interval used is never below five seconds.
pub proof fn law_heartbeat_interval_floor(text: Seq<char>)
    ensures
        hello_interval_of(text) matches Some(i) ==> i >= min_heartbeat_interval(),
{
}

/// A resumable INVALID_SESSION keeps the session: the session id and
/// readiness stay as they were, so the next connection resumes exactly when
/// it would have before; the session still ends with a reconnect.
pub proof fn law_resumable_invalid_session_keeps_session(s: GatewayStateView, missed: u32, t: Seq<char>)
    requires
        event_of(t) == Event::InvalidSession(true),
    ensures
        message_effect(s, missed, InboundView::Text(t)).0.session_id == s.session_id,
        message_effect(s, missed, InboundView::Text(t)).0.ready == s.ready,
        resumes(message_effect(s, missed, InboundView::Text(t)).0) == resumes(s),
        message_effect(s, missed, InboundView::Text(t)).2 == MessageOutcomeView::End(SessionResult::Reconnect),
{
}

/// Every new connection starts with no unacknowledged heartbeats: once a
/// connection is made, the count of missed acknowledgements is 0, whatever
/// it was in the previous session.
pub proof fn law_new_connection_clears_missed_acks(g: GatewaySession, s: GatewayStateView)
    requires
        g.phase == Phase::Connecting,
        s.stop_count == g.stops_seen,
    ensures
        next(g, s, GatewayEventView::Connected(true)).0.missed_acks == 0,
        next(g, s, GatewayEventView::Connected(true)).0.phase == Phase::AwaitingHello,
        next(g, s, GatewayEventView::Connected(true)).0.attempts == g.attempts,
{
}

/// A close with any code but 4004 and 4009 (or with no code) changes
/// nothing in the shared state, so the session id and readiness are kept and
/// the next connection resumes when it could before; it asks for a reconnect.
pub proof fn law_ordinary_close_keeps_state(s: GatewayStateView, code: Option<u16>, before_hello: bool)
    requires
        code != Some(4004u16),
        code != Some(4009u16),
    ensures
        close_outcome(s, code, before_hello).0 == s,
        close_outcome(s, code, before_hello).1 == SessionResult::Reconnect,
{
}

/// Heartbeats: a heartbeat that was sent while fewer than three earlier
/// ones await acknowledgement keeps the session and adds one to the count;
/// a failed send, or a fourth heartbeat with three unacknowledged, ends the
/// session with a reconnect. So, counting from a new connection, the fourth
/// consecutive unacknowledged heartbeat is the first to end it.
pub proof fn law_heartbeat_accounting(sent: bool, missed: u32)
    requires
        missed <= max_missed_acks(),
    ensures
        sent && missed < 3 ==> heartbeat_outcome(sent, missed) == ((missed + 1) as u32, None::<SessionResult>),
        !sent || missed == 3 ==> heartbeat_outcome(sent, missed).1 == Some(SessionResult::Reconnect),
        heartbeat_outcome(true, 0).1 is None && heartbeat_outcome(true, 1).1 is None
            && heartbeat_outcome(true, 2).1 is None,
{
}

} // verus!
