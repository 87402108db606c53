//! Handling of the Gateway's text messages (dispatch events and opcodes).

use vstd::prelude::*;
use crate::activity::opt_view;
use crate::gateway::state::{GatewayState, GatewayStateView};
use crate::json::{bool_at, bool_at_pointer, json_valid, str_at, str_at_pointer, u64_at, u64_at_pointer};

verus! {

/// What a Gateway message means for the session.
#[derive(Debug, Clone, Copy, PartialEq, Eq, Structural)]
pub enum Event {
    Continue,
    Ready,
    Resumed,
    HeartbeatAck,
    /// The session was invalidated; whether it can be resumed.
    InvalidSession(bool),
    Reconnect,
}

/// The parts of a Gateway message that its handling reads.
#[derive(Debug)]
pub struct MessageFields {
    /// `op`, when it is an unsigned integer.
    pub op: Option<u64>,
    /// `s`, when it is an unsigned integer.
    pub seq: Option<u64>,
    /// `t`, when it is a string.
    pub event_type: Option<String>,
    /// `d`, when it is a boolean.
    pub d_bool: Option<bool>,
    /// `d.session_id`, when it is a string.
    pub session_id: Option<String>,
    /// `d.resume_gateway_url`, when it is a string.
    pub resume_gateway_url: Option<String>,
    /// `d.user.username`, when it is a string.
    pub user_username: Option<String>,
    /// `d.user.global_name`, when it is a string.
    pub user_global_name: Option<String>,
    /// `d.username`, when it is a string.
    pub username: Option<String>,
}

/// The mathematical form of the parts of a message.
pub struct MessageFieldsView {
    pub op: Option<u64>,
    pub seq: Option<u64>,
    pub event_type: Option<Seq<char>>,
    pub d_bool: Option<bool>,
    pub session_id: Option<Seq<char>>,
    pub resume_gateway_url: Option<Seq<char>>,
    pub user_username: Option<Seq<char>>,
    pub user_global_name: Option<Seq<char>>,
    pub username: Option<Seq<char>>,
}

impl View for MessageFields {
    type V = MessageFieldsView;

    open spec fn view(&self) -> MessageFieldsView {
        MessageFieldsView {
            op: self.op,
            seq: self.seq,
            event_type: opt_view(self.event_type),
            d_bool: self.d_bool,
            session_id: opt_view(self.session_id),
            resume_gateway_url: opt_view(self.resume_gateway_url),
            user_username: opt_view(self.user_username),
            user_global_name: opt_view(self.user_global_name),
            username: opt_view(self.username),
        }
    }
}

/// The parts of the message `text`.
pub open spec fn fields_of(text: Seq<char>) -> MessageFieldsView {
    MessageFieldsView {
        op: u64_at(text, "/op"@),
        seq: u64_at(text, "/s"@),
        event_type: str_at(text, "/t"@),
        d_bool: bool_at(text, "/d"@),
        session_id: str_at(text, "/d/session_id"@),
        resume_gateway_url: str_at(text, "/d/resume_gateway_url"@),
        user_username: str_at(text, "/d/user/username"@),
        user_global_name: str_at(text, "/d/user/global_name"@),
        username: str_at(text, "/d/username"@),
    }
}

/// The opcode of a message, 99 when it has none.
pub open spec fn op_of(f: MessageFieldsView) -> u64 {
    match f.op {
        Some(op) => op,
        None => 99,
    }
}

/// A dispatch (op 0) of type `name`.
pub open spec fn is_dispatch(f: MessageFieldsView, name: Seq<char>) -> bool {
    op_of(f) == 0 && f.event_type == Some(name)
}

/// The event a message announces.
pub open spec fn event_of_fields(f: MessageFieldsView) -> Event {
    let op = op_of(f);
    if op == 0 {
        if f.event_type == Some("READY"@) {
            Event::Ready
        } else if f.event_type == Some("RESUMED"@) {
            Event::Resumed
        } else {
            Event::Continue
        }
    } else if op == 7 {
        Event::Reconnect
    } else if op == 9 {
        Event::InvalidSession(f.d_bool == Some(true))
    } else if op == 11 {
        Event::HeartbeatAck
    } else {
        Event::Continue
    }
}

/// `new` if present, else `old`.
pub open spec fn replace_if(old: Option<Seq<char>>, new: Option<Seq<char>>) -> Option<Seq<char>> {
    match new {
        Some(v) => Some(v),
        None => old,
    }
}

/// The user name a READY event carries: the user's `username`, else its `global_name`.
pub open spec fn ready_user_name(f: MessageFieldsView) -> Option<Seq<char>> {
    match f.user_username {
        Some(n) => Some(n),
        None => f.user_global_name,
    }
}

/// The resume URL a READY event carries, when it is not empty.
pub open spec fn ready_resume_url(f: MessageFieldsView) -> Option<Seq<char>> {
    match f.resume_gateway_url {
        Some(u) => if u.len() > 0 {
            Some(u)
        } else {
            None
        },
        None => None,
    }
}

/// The state after recording a message's sequence number, when it is positive.
pub open spec fn with_seq(s: GatewayStateView, f: MessageFieldsView) -> GatewayStateView {
    match f.seq {
        Some(seq) => if seq > 0 {
            GatewayStateView { last_seq: seq, ..s }
        } else {
            s
        },
        None => s,
    }
}

/// The state after a message.
pub open spec fn state_after_fields(s: GatewayStateView, f: MessageFieldsView) -> GatewayStateView {
    let s1 = with_seq(s, f);
    if is_dispatch(f, "READY"@) {
        GatewayStateView {
            session_id: replace_if(s1.session_id, f.session_id),
            resume_url: replace_if(s1.resume_url, ready_resume_url(f)),
            user_name: replace_if(s1.user_name, ready_user_name(f)),
            ..s1
        }
    } else if is_dispatch(f, "USER_UPDATE"@) {
        GatewayStateView { user_name: replace_if(s1.user_name, f.username), ..s1 }
    } else {
        s1
    }
}

/// The event the message text announces.
pub open spec fn event_of(text: Seq<char>) -> Event {
    event_of_fields(fields_of(text))
}

/// The state after the message text.
pub open spec fn state_after_message(s: GatewayStateView, text: Seq<char>) -> GatewayStateView {
    state_after_fields(s, fields_of(text))
}

/// Read the parts of a Gateway message that its handling needs.
pub fn read_message(text: &str) -> (f: MessageFields)
    ensures
        f@ == fields_of(text@),
        !json_valid(text@) ==> f.op is None && f.seq is None && f.event_type is None && f.d_bool is None
            && f.session_id is None && f.resume_gateway_url is None && f.user_username is None
            && f.user_global_name is None && f.username is None,
{
    MessageFields {
        op: u64_at_pointer(text, "/op"),
        seq: u64_at_pointer(text, "/s"),
        event_type: str_at_pointer(text, "/t"),
        d_bool: bool_at_pointer(text, "/d"),
        session_id: str_at_pointer(text, "/d/session_id"),
        resume_gateway_url: str_at_pointer(text, "/d/resume_gateway_url"),
        user_username: str_at_pointer(text, "/d/user/username"),
        user_global_name: str_at_pointer(text, "/d/user/global_name"),
        username: str_at_pointer(text, "/d/username"),
    }
}

fn is_type(t: &Option<String>, name: &str) -> (b: bool)
    ensures
        b == (opt_view(*t) == Some(name@)),
{
    match t {
        Some(s) => *s == String::from_str(name),
        None => false,
    }
}

fn copy_opt(s: &Option<String>) -> (r: Option<String>)
    ensures
        r == *s,
{
    match s {
        Some(v) => Some(v.clone()),
        None => None,
    }
}

/// Records what a Gateway message tells (sequence number, session, resume
/// URL, user name) and says what it means for the session.
pub fn apply_message(f: &MessageFields, state: &mut GatewayState) -> (e: Event)
    ensures
        e == event_of_fields(f@),
        final(state)@ == state_after_fields(old(state)@, f@),
{
    let op = match f.op {
        Some(op) => op,
        None => 99,
    };
    if let Some(seq) = f.seq {
        if seq > 0 {
            state.last_seq = seq;
        }
    }
    proof {
        reveal_strlit("READY");
        reveal_strlit("RESUMED");
        reveal_strlit("USER_UPDATE");
        assert("RESUMED"@.len() != "USER_UPDATE"@.len());
        assert("READY"@.len() != "USER_UPDATE"@.len());
    }
    if op == 0 {
        if is_type(&f.event_type, "READY") {
            if let Some(sid) = copy_opt(&f.session_id) {
                state.session_id = Some(sid);
            }
            if let Some(url) = copy_opt(&f.resume_gateway_url) {
                if !url.as_str().is_empty() {
                    state.resume_url = Some(url);
                }
            }
            match copy_opt(&f.user_username) {
                Some(name) => {
                    state.user_name = Some(name);
                },
                None => {
                    if let Some(name) = copy_opt(&f.user_global_name) {
                        state.user_name = Some(name);
                    }
                },
            }
            Event::Ready
        } else if is_type(&f.event_type, "RESUMED") {
            Event::Resumed
        } else if is_type(&f.event_type, "USER_UPDATE") {
            if let Some(name) = copy_opt(&f.username) {
                state.user_name = Some(name);
            }
            Event::Continue
        } else {
            Event::Continue
        }
    } else if op == 7 {
        Event::Reconnect
    } else if op == 9 {
        let resumable = match f.d_bool {
            Some(b) => b,
            None => false,
        };
        Event::InvalidSession(resumable)
    } else if op == 11 {
        Event::HeartbeatAck
    } else {
        Event::Continue
    }
}

/// Records what a Gateway message tells and says what it means for the
/// session. Text that is not JSON is ignored: it changes nothing and means
/// nothing.
pub fn handle_event(text: &str, state: &mut GatewayState) -> (e: Event)
    ensures
        e == event_of(text@),
        final(state)@ == state_after_message(old(state)@, text@),
        !json_valid(text@) ==> e == Event::Continue && final(state)@ == old(state)@,
{
    let f = read_message(text);
    apply_message(&f, state)
}

/// Every positive sequence number a message carries is recorded, whatever
/// the last one was (a new session starts counting again); a message without
/// a positive sequence number leaves it as it was.
pub proof fn law_positive_sequence_is_recorded(s: GatewayStateView, f: MessageFieldsView)
    ensures
        state_after_fields(s, f).last_seq == match f.seq {
            Some(n) => if n > 0 {
                n
            } else {
                s.last_seq
            },
            None => s.last_seq,
        },
{
}

/// The same for message text: a positive integer `s` becomes the last
/// sequence number.
pub proof fn law_positive_sequence_in_text_is_recorded(s: GatewayStateView, t: Seq<char>, n: u64)
    requires
        u64_at(t, "/s"@) == Some(n),
        n > 0,
    ensures
        state_after_message(s, t).last_seq == n,
{
    law_positive_sequence_is_recorded(s, fields_of(t));
}

/// Only READY and USER_UPDATE dispatches change more than the sequence
/// number; every other message leaves the rest of the state as it was.
pub proof fn law_other_messages_keep_state(s: GatewayStateView, f: MessageFieldsView)
    requires
        !is_dispatch(f, "READY"@),
        !is_dispatch(f, "USER_UPDATE"@),
    ensures
        state_after_fields(s, f) == (GatewayStateView { last_seq: state_after_fields(s, f).last_seq, ..s }),
{
}

/// READY records the session id it carries (keeping the old one when it
/// carries none), and the user name from `user.username`, else from
/// `user.global_name`, else keeps the old one; status and readiness are not
/// its to change here.
pub proof fn law_ready_records_session(s: GatewayStateView, f: MessageFieldsView)
    requires
        is_dispatch(f, "READY"@),
    ensures
        f.session_id is Some ==> state_after_fields(s, f).session_id == f.session_id,
        f.session_id is None ==> state_after_fields(s, f).session_id == s.session_id,
        f.user_username is Some ==> state_after_fields(s, f).user_name == f.user_username,
        f.user_username is None && f.user_global_name is Some ==> state_after_fields(s, f).user_name
            == f.user_global_name,
        f.user_username is None && f.user_global_name is None ==> state_after_fields(s, f).user_name
            == s.user_name,
        state_after_fields(s, f).status == s.status,
        state_after_fields(s, f).ready == s.ready,
        state_after_fields(s, f).stopped == s.stopped,
{
}

} // verus!
