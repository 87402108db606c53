use discord_social_rpc::client::{
    clear_presence, finish_stop, images_to_resolve, resolve_activity_images, resolve_single_image,
    start_decision, start_timeout_error, store_activity, stored_presence, validate_token,
    StartDecision,
};
use discord_social_rpc::gateway::session::{GatewayAction, GatewayEvent, GatewaySession, Inbound};
use discord_social_rpc::gateway::state::GatewayState;
use discord_social_rpc::payload::FrameData;
use discord_social_rpc::{Activity, ActivityStatus, Assets, Error};

const GOOD: &str = "abcdefghijklmnopqrstuvwxyz";

fn invalid_message(r: Result<String, Error>) -> String {
    match r {
        Err(Error::InvalidToken(m)) => m,
        _ => panic!("expected an invalid token"),
    }
}

#[test]
fn token_validation() {
    assert_eq!(validate_token(GOOD).unwrap(), GOOD);
    assert_eq!(validate_token("  abcdefghijklmnopqrstuvwxyz\n").unwrap(), GOOD);
    assert_eq!(invalid_message(validate_token("")), "Token is empty or contains whitespace");
    assert_eq!(invalid_message(validate_token("   ")), "Token is empty or contains whitespace");
    assert_eq!(invalid_message(validate_token("abcdefghij klmnopqrstuvwxyz")), "Token is empty or contains whitespace");
    assert_eq!(invalid_message(validate_token("short")), "Token is too short to be a valid OAuth2 token");
    assert_eq!(invalid_message(validate_token("0123456789012345678")), "Token is too short to be a valid OAuth2 token");
    assert!(validate_token("01234567890123456789").is_ok());
    // length counts bytes: ten two-byte characters make twenty bytes
    assert!(validate_token("éééééééééé").is_ok());
    // a tab inside is not a space
    assert!(validate_token("abcdefghij\tklmnopqrstuvwxyz").is_ok());
}

#[test]
fn validated_token_validates_again() {
    for t in ["  abcdefghijklmnopqrstuvwxyz  ", GOOD, "\u{3000}01234567890123456789"] {
        let once = validate_token(t).unwrap();
        assert_eq!(validate_token(&once).unwrap(), once);
    }
}

#[test]
fn single_image_resolution() {
    let mut image = Some("https://e.com/a.png".to_string());
    let mut external = true;
    resolve_single_image(&mut image, &mut external, Some("mp:external/a".to_string()));
    assert_eq!(image.as_deref(), Some("mp:external/a"));
    assert!(!external);

    let mut image = Some("https://e.com/a.png".to_string());
    let mut external = true;
    resolve_single_image(&mut image, &mut external, None);
    assert_eq!(image.as_deref(), Some("https://e.com/a.png"));
    assert!(!external);

    let mut image = Some("mp:x".to_string());
    let mut external = false;
    resolve_single_image(&mut image, &mut external, Some("mp:other".to_string()));
    assert_eq!(image.as_deref(), Some("mp:x"));
}

#[test]
fn activity_image_resolution() {
    let a = Activity::new().set_assets(
        Assets::new().set_large_image("https://e.com/big.png").set_small_image("mp:small"),
    );
    let (large, small) = images_to_resolve(&a);
    assert_eq!(large.as_deref(), Some("https://e.com/big.png"));
    assert_eq!(small, None);
    let r = resolve_activity_images(&a, Some("mp:external/big".to_string()), None);
    let assets = r.assets();
    assert_eq!(assets.large_image(), "mp:external/big");
    assert!(!assets.large_image_external);
    assert_eq!(assets.small_image(), "mp:small");
    assert_eq!(images_to_resolve(&Activity::new()), (None, None));
}

fn presence_len(frame: &discord_social_rpc::payload::GatewayFrame) -> usize {
    match &frame.d {
        FrameData::Presence(p) => p.activities.len(),
        _ => panic!("expected a presence update"),
    }
}

#[test]
fn empty_activity_clears_presence() {
    let mut current = Some(Activity::new().set_name("old"));
    let f = store_activity(&mut current, Activity::new(), true).unwrap();
    assert!(current.is_none());
    assert_eq!(presence_len(&f), 0);
    let mut current = Some(Activity::new().set_name("old"));
    assert!(store_activity(&mut current, Activity::default(), false).is_none());
    assert!(current.is_none());
}

#[test]
fn activity_stored_then_sent_when_ready() {
    let mut current = None;
    assert!(store_activity(&mut current, Activity::new().set_name("game"), false).is_none());
    assert_eq!(current.as_ref().unwrap().name(), "game");
    match start_decision(ActivityStatus::Active, &current) {
        StartDecision::Ready(Some(f)) => assert_eq!(presence_len(&f), 1),
        _ => panic!("expected ready with the stored activity"),
    }
    let f = store_activity(&mut current, Activity::new().set_name("other"), true).unwrap();
    assert_eq!(presence_len(&f), 1);
    assert!(stored_presence(&None).is_none());
}

#[test]
fn start_decisions() {
    assert!(matches!(start_decision(ActivityStatus::Active, &None), StartDecision::Ready(None)));
    assert!(matches!(start_decision(ActivityStatus::Disconnected, &None), StartDecision::Wait));
    assert!(matches!(start_decision(ActivityStatus::NotStarted, &None), StartDecision::Wait));
    assert!(matches!(start_decision(ActivityStatus::Stopped, &None), StartDecision::Fail(Error::AlreadyStopped)));
    match start_decision(ActivityStatus::TokenInvalid, &None) {
        StartDecision::Fail(Error::InvalidToken(m)) => assert_eq!(
            m,
            "Token rejected by Discord Gateway. Make sure the OAuth2 token has the 'sdk.social_layer_presence' scope."
        ),
        _ => panic!("expected an invalid token"),
    }
    match start_decision(ActivityStatus::NetworkError, &None) {
        StartDecision::Fail(Error::Network(m)) => assert_eq!(m, "Failed to connect to Discord Gateway (network issue)"),
        _ => panic!("expected a network error"),
    }
    match start_timeout_error() {
        Error::Network(m) => assert_eq!(m, "Timed out waiting for gateway READY (15s) - check your internet connection"),
        _ => panic!("expected a network error"),
    }
}

#[test]
fn stop_resets_state() {
    assert_eq!(presence_len(&clear_presence()), 0);
    let mut s = GatewayState::new();
    s.ready = true;
    s.set_sync(ActivityStatus::Active);
    s.session_id = Some("abc123456".to_string());
    s.resume_url = Some("wss://resume.example".to_string());
    s.user_name = Some("alice".to_string());
    s.last_seq = 42;
    s.heartbeat_interval_ms = 10_000;
    s.request_stop();
    let mut current = Some(Activity::new().set_name("x"));
    finish_stop(&mut s, &mut current);
    assert!(!s.ready);
    assert!(!s.is_stopped());
    assert_eq!(s.status, ActivityStatus::Stopped);
    assert_eq!(s.session_id, None);
    assert_eq!(s.resume_url, None);
    assert_eq!(s.user_name, None);
    assert_eq!(s.last_seq, 0);
    assert_eq!(s.heartbeat_interval_ms, 41_250);
    assert_eq!(s.stop_count, 1);
    assert!(current.is_none());
    let mut g = GatewaySession::new(s.stop_count);
    match g.step(&mut s, "123", GOOD, GatewayEvent::Begin) {
        GatewayAction::Connect(u) => assert_eq!(u, "wss://gateway.discord.gg/?v=10&encoding=json"),
        _ => panic!("expected a fresh connection"),
    }
}

#[test]
fn rejected_token_fails_start_with_invalid_token() {
    let mut g = GatewaySession::new(0);
    let mut s = GatewayState::new();
    g.step(&mut s, "123", GOOD, GatewayEvent::Begin);
    g.step(&mut s, "123", GOOD, GatewayEvent::Connected(true));
    g.step(&mut s, "123", GOOD, GatewayEvent::Message(Inbound::Close(Some(4004))));
    match start_decision(s.status, &None) {
        StartDecision::Fail(Error::InvalidToken(m)) => assert_eq!(
            m,
            "Token rejected by Discord Gateway. Make sure the OAuth2 token has the 'sdk.social_layer_presence' scope."
        ),
        _ => panic!("expected an invalid token"),
    }
}
