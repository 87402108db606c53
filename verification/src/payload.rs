//! The frames sent to the Discord Gateway, built from the library's values.
//!
//! A frame here is the structured value of a Gateway payload; its JSON text
//! is produced where it is sent.

use vstd::prelude::*;
use crate::activity::{activity_code, opt_view, clone_opt_string, Activity, Assets, Timestamps};
use crate::presence::{presence_wire, PresenceStatus};
use crate::text::{has_prefix, starts_with, str_concat};

verus! {

/// Start and end of an activity, as sent.
#[derive(Debug, Clone, Copy)]
pub struct TimestampPayload {
    pub start: Option<i64>,
    pub end: Option<i64>,
}

/// Images and their texts, as sent.
#[derive(Debug)]
pub struct AssetsPayload {
    pub large_image: Option<String>,
    pub large_text: Option<String>,
    pub small_image: Option<String>,
    pub small_text: Option<String>,
}

/// One activity, as sent.
#[derive(Debug)]
pub struct ActivityPayload {
    pub name: String,
    pub activity_type: u32,
    pub state: Option<String>,
    pub details: Option<String>,
    pub timestamps: Option<TimestampPayload>,
    pub assets: Option<AssetsPayload>,
}

/// The data of a PRESENCE UPDATE (op 3).
#[derive(Debug)]
pub struct PresenceUpdatePayload {
    pub since: u64,
    pub activities: Vec<ActivityPayload>,
    pub status: String,
    pub afk: bool,
}

/// The connection properties of an IDENTIFY.
#[derive(Debug)]
pub struct IdentifyProperties {
    pub os: String,
    pub browser: String,
    pub device: String,
}

/// The data of an IDENTIFY (op 2).
#[derive(Debug)]
pub struct IdentifyPayload {
    pub token: String,
    pub intents: u64,
    pub properties: IdentifyProperties,
    pub compress: bool,
}

/// The data of a RESUME (op 6).
#[derive(Debug)]
pub struct ResumePayload {
    pub token: String,
    pub session_id: String,
    pub seq: u64,
}

/// The data part (`d`) of a Gateway frame.
#[derive(Debug)]
pub enum FrameData {
    Presence(PresenceUpdatePayload),
    Identify(IdentifyPayload),
    /// The last sequence number seen, or null.
    Heartbeat(Option<u64>),
    Resume(ResumePayload),
}

/// A Gateway frame: an opcode and its data.
#[derive(Debug)]
pub struct GatewayFrame {
    pub op: u64,
    pub d: FrameData,
}

pub open spec fn op_heartbeat() -> u64 { 1 }
pub open spec fn op_identify() -> u64 { 2 }
pub open spec fn op_presence_update() -> u64 { 3 }
pub open spec fn op_resume() -> u64 { 6 }

/// The name shown for an activity whose name was left empty.
pub open spec fn default_activity_name() -> Seq<char> {
    "Playing Discord Social RPC"@
}

/// The name sent for an activity.
pub open spec fn payload_name(a: Activity) -> Seq<char> {
    if a.name@.len() == 0 {
        default_activity_name()
    } else {
        a.name@
    }
}

/// `p` carries exactly the texts and images of `a`.
pub open spec fn assets_payload_of(a: Assets, p: AssetsPayload) -> bool {
    &&& opt_view(p.large_image) == opt_view(a.large_image)
    &&& opt_view(p.large_text) == opt_view(a.large_text)
    &&& opt_view(p.small_image) == opt_view(a.small_image)
    &&& opt_view(p.small_text) == opt_view(a.small_text)
}

/// `p` carries exactly the start and end of `t`.
pub open spec fn timestamps_payload_of(t: Timestamps, p: TimestampPayload) -> bool {
    p.start == t.start && p.end == t.end
}

/// `p` is the payload that represents the activity `a`.
pub open spec fn activity_payload_of(a: Activity, p: ActivityPayload) -> bool {
    &&& p.name@ == payload_name(a)
    &&& p.activity_type == activity_code(a.activity_type)
    &&& opt_view(p.state) == opt_view(a.state)
    &&& opt_view(p.details) == opt_view(a.details)
    &&& match (a.timestamps, p.timestamps) {
        (None, None) => true,
        (Some(t), Some(q)) => timestamps_payload_of(t, q),
        _ => false,
    }
    &&& match (a.assets, p.assets) {
        (None, None) => true,
        (Some(x), Some(y)) => assets_payload_of(x, y),
        _ => false,
    }
}

/// `f` is the PRESENCE UPDATE that shows `activities` with `status`.
pub open spec fn is_presence_frame(f: GatewayFrame, status: PresenceStatus, activities: Seq<Activity>) -> bool {
    &&& f.op == op_presence_update()
    &&& f.d matches FrameData::Presence(p)
    &&& p.since == 0
    &&& p.afk == false
    &&& p.status@ == presence_wire(status)
    &&& p.activities@.len() == activities.len()
    &&& forall|i: int| 0 <= i < activities.len() ==> activity_payload_of(
        #[trigger] activities[i],
        p.activities@[i],
    )
}

/// The bearer form of a token: unchanged when it already starts with `Bearer `.
pub open spec fn bearer(token: Seq<char>) -> Seq<char> {
    if has_prefix(token, "Bearer "@) {
        token
    } else {
        "Bearer "@ + token
    }
}

/// `f` is the IDENTIFY frame for `app_id` and `token`.
pub open spec fn is_identify_frame(f: GatewayFrame, app_id: Seq<char>, token: Seq<char>) -> bool {
    &&& f.op == op_identify()
    &&& f.d matches FrameData::Identify(p)
    &&& p.token@ == bearer(token)
    &&& p.intents == 0
    &&& p.properties.os@ == "linux"@
    &&& p.properties.browser@ == "discord_social_rpc"@
    &&& p.properties.device@ == app_id
    &&& p.compress == false
}

/// `f` is the RESUME frame for `token`, `session_id` and `seq`.
pub open spec fn is_resume_frame(f: GatewayFrame, token: Seq<char>, session_id: Seq<char>, seq: u64) -> bool {
    &&& f.op == op_resume()
    &&& f.d matches FrameData::Resume(p)
    &&& p.token@ == bearer(token)
    &&& p.session_id@ == session_id
    &&& p.seq == seq
}

/// `f` is the heartbeat frame carrying `seq`.
pub open spec fn is_heartbeat_frame(f: GatewayFrame, seq: Option<u64>) -> bool {
    f.op == op_heartbeat() && f.d == FrameData::Heartbeat(seq)
}

/// Ensures the token has a `Bearer ` prefix.
pub fn ensure_bearer(token: &str) -> (s: String)
    ensures
        s@ == bearer(token@),
{
    if starts_with(token, "Bearer ") {
        String::from_str(token)
    } else {
        str_concat("Bearer ", token)
    }
}

/// The payload that represents one activity.
pub fn activity_to_payload(activity: &Activity) -> (p: ActivityPayload)
    ensures
        activity_payload_of(*activity, p),
{
    let name = if activity.name.as_str().is_empty() {
        String::from_str("Playing Discord Social RPC")
    } else {
        activity.name.clone()
    };
    let timestamps = match activity.timestamps {
        Some(ts) => Some(TimestampPayload { start: ts.start, end: ts.end }),
        None => None,
    };
    let assets = match &activity.assets {
        Some(a) => Some(
            AssetsPayload {
                large_image: clone_opt_string(&a.large_image),
                large_text: clone_opt_string(&a.large_text),
                small_image: clone_opt_string(&a.small_image),
                small_text: clone_opt_string(&a.small_text),
            },
        ),
        None => None,
    };
    ActivityPayload {
        name,
        activity_type: activity.activity_type.code(),
        state: clone_opt_string(&activity.state),
        details: clone_opt_string(&activity.details),
        timestamps,
        assets,
    }
}

/// Build a PRESENCE UPDATE (Gateway op 3) frame.
pub fn build_presence_update(status: PresenceStatus, activities: &[Activity]) -> (f: GatewayFrame)
    ensures
        is_presence_frame(f, status, activities@),
{
    let mut payloads: Vec<ActivityPayload> = Vec::new();
    let mut i: usize = 0;
    while i < activities.len()
        invariant
            i <= activities@.len(),
            payloads@.len() == i,
            forall|k: int| 0 <= k < i ==> activity_payload_of(
                #[trigger] activities@[k],
                payloads@[k],
            ),
        decreases activities@.len() - i,
    {
        let p = activity_to_payload(&activities[i]);
        payloads.push(p);
        i = i + 1;
    }
    GatewayFrame {
        op: 3,
        d: FrameData::Presence(
            PresenceUpdatePayload {
                since: 0,
                activities: payloads,
                status: String::from_str(status.as_str()),
                afk: false,
            },
        ),
    }
}

/// Build an IDENTIFY (Gateway op 2) frame.
pub fn build_identify_frame(app_id: &str, token: &str) -> (f: GatewayFrame)
    ensures
        is_identify_frame(f, app_id@, token@),
{
    GatewayFrame {
        op: 2,
        d: FrameData::Identify(
            IdentifyPayload {
                token: ensure_bearer(token),
                intents: 0,
                properties: IdentifyProperties {
                    os: String::from_str("linux"),
                    browser: String::from_str("discord_social_rpc"),
                    device: String::from_str(app_id),
                },
                compress: false,
            },
        ),
    }
}

/// Build a heartbeat (Gateway op 1) frame.
pub fn build_heartbeat_frame(seq: Option<u64>) -> (f: GatewayFrame)
    ensures
        is_heartbeat_frame(f, seq),
{
    GatewayFrame { op: 1, d: FrameData::Heartbeat(seq) }
}

/// Build a RESUME (Gateway op 6) frame.
pub fn build_resume_frame(token: &str, session_id: &str, seq: u64) -> (f: GatewayFrame)
    ensures
        is_resume_frame(f, token@, session_id@, seq),
{
    GatewayFrame {
        op: 6,
        d: FrameData::Resume(
            ResumePayload {
                token: ensure_bearer(token),
                session_id: String::from_str(session_id),
                seq,
            },
        ),
    }
}

} // verus!
