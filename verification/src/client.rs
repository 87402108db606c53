//! The decisions of a Rich Presence client: token validation, image
//! resolution, and what to send when an activity is set, started or stopped.

use vstd::prelude::*;
use vstd::utf8::encode_utf8;
use crate::activity::{is_empty_activity, opt_view, Activity, ActivityType};
use crate::error::{Error, ErrorView};
use crate::gateway::session::{
    default_gateway_url, next, resumes, GatewayActionView, GatewayEventView, GatewaySession, Phase,
};
use crate::gateway::state::{initial_state, GatewayState, GatewayStateView};
use crate::payload::{build_presence_update, is_presence_frame, GatewayFrame};
use crate::presence::PresenceStatus;
use crate::status::ActivityStatus;
use crate::text::{contains_char, law_trim_idempotent, trim, trimmed};

verus! {

/// The shortest token accepted, in bytes.
pub open spec fn min_token_len() -> nat {
    20
}

/// Why a token is refused, if it is: it is empty or holds a space once
/// trimmed, or it is shorter than 20 bytes.
pub open spec fn token_problem(token: Seq<char>) -> Option<Seq<char>> {
    let t = trimmed(token);
    if t.len() == 0 || t.contains(' ') {
        Some("Token is empty or contains whitespace"@)
    } else if encode_utf8(t).len() < min_token_len() {
        Some("Token is too short to be a valid OAuth2 token"@)
    } else {
        None
    }
}

/// Validate the format of an OAuth2 token; gives the trimmed token.
pub fn validate_token(oauth2_token: &str) -> (r: Result<String, Error>)
    ensures
        match token_problem(oauth2_token@) {
            Some(m) => r matches Err(e) && e@ == ErrorView::InvalidToken(m),
            None => r matches Ok(t) && t@ == trimmed(oauth2_token@),
        },
{
    let token = trim(oauth2_token);
    if token.as_str().is_empty() || contains_char(token.as_str(), ' ') {
        return Err(Error::InvalidToken(String::from_str("Token is empty or contains whitespace")));
    }
    let bytes = token.as_str().as_bytes();
    if bytes.len() < 20 {
        return Err(Error::InvalidToken(String::from_str("Token is too short to be a valid OAuth2 token")));
    }
    Ok(token)
}

/// The URL an image slot still needs resolved: the image of a slot marked
/// external.
pub open spec fn pending_of(image: Option<String>, external: bool) -> Option<Seq<char>> {
    if external {
        opt_view(image)
    } else {
        None
    }
}

/// The URL of an image slot that must be resolved before sending.
pub fn pending_image(image: &Option<String>, external: bool) -> (r: Option<String>)
    ensures
        opt_view(r) == pending_of(*image, external),
{
    if !external {
        return None;
    }
    match image {
        Some(u) => Some(u.clone()),
        None => None,
    }
}

/// The image slot after resolution: an external image with a resolved path
/// takes that path; the slot is then no longer external.
pub open spec fn resolved_slot(image: Option<String>, external: bool, resolved: Option<String>) -> (Option<String>, bool) {
    if !external {
        (image, external)
    } else if image is Some && resolved is Some {
        (resolved, false)
    } else {
        (image, false)
    }
}

/// Apply the resolution of a single image slot. `resolved` is what the
/// resolver gave for the slot's URL.
pub fn resolve_single_image(image: &mut Option<String>, external: &mut bool, resolved: Option<String>)
    ensures
        (*final(image), *final(external)) == resolved_slot(*old(image), *old(external), resolved),
{
    if !*external {
        return;
    }
    if image.is_some() {
        if let Some(r) = resolved {
            *image = Some(r);
        }
    }
    *external = false;
}

/// The URLs of the large and small images that must be resolved.
pub fn images_to_resolve(activity: &Activity) -> (r: (Option<String>, Option<String>))
    ensures
        match activity.assets {
            Some(a) => opt_view(r.0) == pending_of(a.large_image, a.large_image_external) && opt_view(r.1)
                == pending_of(a.small_image, a.small_image_external),
            None => r.0 is None && r.1 is None,
        },
{
    match &activity.assets {
        Some(a) => (
            pending_image(&a.large_image, a.large_image_external),
            pending_image(&a.small_image, a.small_image_external),
        ),
        None => (None, None),
    }
}

/// `r` is `a` with its image slots resolved to `large` and `small`.
pub open spec fn images_resolved(a: Activity, large: Option<String>, small: Option<String>, r: Activity) -> bool {
    &&& r.name == a.name
    &&& r.activity_type == a.activity_type
    &&& r.state == a.state
    &&& r.details == a.details
    &&& r.timestamps == a.timestamps
    &&& match (a.assets, r.assets) {
        (None, None) => true,
        (Some(x), Some(y)) => {
            &&& (y.large_image, y.large_image_external) == resolved_slot(
                x.large_image,
                x.large_image_external,
                large,
            )
            &&& (y.small_image, y.small_image_external) == resolved_slot(
                x.small_image,
                x.small_image_external,
                small,
            )
            &&& y.large_text == x.large_text
            &&& y.small_text == x.small_text
        },
        _ => false,
    }
}

/// The activity with its external images replaced by what they resolved to.
pub fn resolve_activity_images(activity: &Activity, large: Option<String>, small: Option<String>) -> (r: Activity)
    ensures
        images_resolved(*activity, large, small, r),
{
    let mut resolved = activity.clone();
    match resolved.assets {
        Some(mut assets) => {
            resolve_single_image(&mut assets.large_image, &mut assets.large_image_external, large);
            resolve_single_image(&mut assets.small_image, &mut assets.small_image_external, small);
            resolved.assets = Some(assets);
        },
        None => {},
    }
    resolved
}

/// `f` is the presence update that shows exactly `activities`, online.
pub open spec fn shows(f: GatewayFrame, activities: Seq<Activity>) -> bool {
    is_presence_frame(f, PresenceStatus::Online, activities)
}

/// The presence update for a stored activity.
pub open spec fn presence_for(current: Option<Activity>) -> Seq<Activity> {
    match current {
        Some(a) => seq![a],
        None => Seq::empty(),
    }
}

/// The presence update that shows `activity`.
pub fn activity_presence(activity: &Activity) -> (f: GatewayFrame)
    ensures
        shows(f, seq![*activity]),
{
    let v: Vec<Activity> = vec![activity.clone()];
    assert(v@ =~= seq![*activity]);
    build_presence_update(PresenceStatus::Online, v.as_slice())
}

/// The presence update that clears the activity.
pub fn clear_presence() -> (f: GatewayFrame)
    ensures
        shows(f, Seq::empty()),
{
    let v: Vec<Activity> = Vec::new();
    assert(v@ =~= Seq::<Activity>::empty());
    build_presence_update(PresenceStatus::Online, v.as_slice())
}

/// Store the activity set by the user, and give the presence update to
/// send now when the Gateway is ready. An empty activity clears the stored
/// activity, and its update clears what is displayed.
pub fn store_activity(current: &mut Option<Activity>, activity: Activity, ready: bool) -> (f: Option<GatewayFrame>)
    ensures
        is_empty_activity(activity) ==> *final(current) is None,
        !is_empty_activity(activity) ==> *final(current) == Some(activity),
        ready <==> f is Some,
        f matches Some(frame) ==> shows(frame, presence_for(*final(current))),
{
    if activity.is_empty() {
        *current = None;
        if ready {
            Some(clear_presence())
        } else {
            None
        }
    } else {
        let frame = if ready {
            Some(activity_presence(&activity))
        } else {
            None
        };
        *current = Some(activity);
        frame
    }
}

/// The presence update to send once the Gateway is ready: the stored
/// activity, if there is one.
pub fn stored_presence(current: &Option<Activity>) -> (f: Option<GatewayFrame>)
    ensures
        current is None <==> f is None,
        f matches Some(frame) ==> shows(frame, presence_for(*current)),
{
    match current {
        Some(a) => Some(activity_presence(a)),
        None => None,
    }
}

/// What waiting for the Gateway decides on a status change.
#[derive(Debug)]
pub enum StartDecision {
    /// Keep waiting.
    Wait,
    /// The Gateway is ready; send this presence update, if any.
    Ready(Option<GatewayFrame>),
    /// Starting failed.
    Fail(Error),
}

/// The error of a token the Gateway rejected.
pub open spec fn token_rejected_message() -> Seq<char> {
    "Token rejected by Discord Gateway. Make sure the OAuth2 token has the 'sdk.social_layer_presence' scope."@
}

/// The error of a Gateway that could not be reached.
pub open spec fn gateway_unreachable_message() -> Seq<char> {
    "Failed to connect to Discord Gateway (network issue)"@
}

/// Decide on a status change while waiting for the Gateway to be ready:
/// ready when active (sending the stored activity); failed when the token
/// is invalid, the network failed, or the client was stopped; otherwise
/// keep waiting.
pub fn start_decision(status: ActivityStatus, current: &Option<Activity>) -> (d: StartDecision)
    ensures
        match status {
            ActivityStatus::Active => d matches StartDecision::Ready(f) && (current is None <==> f is None)
                && (f matches Some(frame) ==> shows(frame, presence_for(*current))),
            ActivityStatus::TokenInvalid => d matches StartDecision::Fail(e) && e@ == ErrorView::InvalidToken(
                token_rejected_message(),
            ),
            ActivityStatus::NetworkError => d matches StartDecision::Fail(e) && e@ == ErrorView::Network(
                gateway_unreachable_message(),
            ),
            ActivityStatus::Stopped => d matches StartDecision::Fail(e) && e@ == ErrorView::AlreadyStopped,
            _ => d matches StartDecision::Wait,
        },
{
    match status {
        ActivityStatus::Active => StartDecision::Ready(stored_presence(current)),
        ActivityStatus::TokenInvalid => StartDecision::Fail(
            Error::InvalidToken(
                String::from_str(
                    "Token rejected by Discord Gateway. Make sure the OAuth2 token has the 'sdk.social_layer_presence' scope.",
                ),
            ),
        ),
        ActivityStatus::NetworkError => StartDecision::Fail(
            Error::Network(String::from_str("Failed to connect to Discord Gateway (network issue)")),
        ),
        ActivityStatus::Stopped => StartDecision::Fail(Error::AlreadyStopped),
        _ => StartDecision::Wait,
    }
}

/// The longest wait for the Gateway to be ready, in seconds.
pub open spec fn start_timeout_secs() -> u64 {
    15
}

/// The error when the Gateway was not ready in time.
pub fn start_timeout_error() -> (e: Error)
    ensures
        e@ == ErrorView::Network(
            "Timed out waiting for gateway READY (15s) - check your internet connection"@,
        ),
{
    Error::Network(
        String::from_str("Timed out waiting for gateway READY (15s) - check your internet connection"),
    )
}

/// The state a client is in after it was stopped: everything reset as
/// before the first start (no stop pending, no session, no sequence number,
/// not ready), with the status `Stopped`; only the count of stops is kept,
/// so that a Gateway loop started before the stop stays superseded.
pub open spec fn stopped_state(s: GatewayStateView) -> GatewayStateView {
    GatewayStateView { status: ActivityStatus::Stopped, stop_count: s.stop_count, ..initial_state() }
}

/// Reset the client after a stop: all Gateway state as before the first
/// start, status `Stopped`, no activity stored.
pub fn finish_stop(state: &mut GatewayState, current: &mut Option<Activity>)
    ensures
        final(state)@ == stopped_state(old(state)@),
        *final(current) is None,
{
    state.stopped = false;
    state.session_id = None;
    state.resume_url = None;
    state.user_name = None;
    state.last_seq = 0;
    state.ready = false;
    state.heartbeat_interval_ms = 41_250;
    state.set_sync(ActivityStatus::Stopped);
    *current = None;
}

/// After a stop, a later start connects afresh: no stop is pending, a loop
/// started after the stop opens a connection to the default Gateway address
/// (no resume address is kept), and the session identifies anew instead of
/// resuming. A loop started before the stop exits instead.
pub proof fn law_start_after_stop_connects_afresh(g: GatewaySession, s: GatewayStateView)
    requires
        g.phase == Phase::Idle,
    ensures
        !stopped_state(s).stopped,
        g.stops_seen == s.stop_count ==> next(g, stopped_state(s), GatewayEventView::Begin).2
            == GatewayActionView::Connect(default_gateway_url()),
        g.stops_seen != s.stop_count ==> next(g, stopped_state(s), GatewayEventView::Begin).2
            == GatewayActionView::Exit,
        !resumes(stopped_state(s)),
        stopped_state(s).last_seq == 0,
{
}

/// A token that passes validation passes it again unchanged: validation
/// gives a token that is already trimmed and well formed.
pub proof fn law_validated_token_is_stable(token: Seq<char>)
    requires
        token_problem(token) is None,
    ensures
        trimmed(trimmed(token)) == trimmed(token),
        token_problem(trimmed(token)) is None,
{
    law_trim_idempotent(token);
}

/// An activity with anything set (a name, a type other than Playing, a
/// state, details, assets or timestamps) is not empty: setting it stores it,
/// and the presence update shows exactly that one activity.
pub proof fn law_activity_with_a_field_is_shown(a: Activity)
    requires
        a.name@.len() > 0 || a.activity_type != ActivityType::Playing || a.state is Some || a.details is Some
            || a.assets is Some || a.timestamps is Some,
    ensures
        !is_empty_activity(a),
        presence_for(Some(a)) == seq![a],
{
}

} // verus!
