use discord_social_rpc::gateway::events::{handle_event, Event};
use discord_social_rpc::gateway::session::{
    after_heartbeat, gateway_url, handle_close_frame, handle_presence, handle_ws_message,
    hello_interval, identify_or_resume, jitter_ms, reconnect_delay, should_reconnect,
    wait_for_hello, GatewayAction, GatewayEvent, GatewaySession, Inbound, MessageOutcome, Phase,
    PresenceOutcome, PresenceRecv, SessionResult,
};
use discord_social_rpc::gateway::state::GatewayState;
use discord_social_rpc::payload::FrameData;
use discord_social_rpc::ActivityStatus;

const READY: &str = r#"{"op":0,"s":1,"t":"READY","d":{"session_id":"abc123456","resume_gateway_url":"wss://resume.example","user":{"username":"alice","global_name":"Alice"}}}"#;

#[test]
fn ready_event_records_session() {
    let mut s = GatewayState::new();
    assert_eq!(handle_event(READY, &mut s), Event::Ready);
    assert_eq!(s.session_id.as_deref(), Some("abc123456"));
    assert_eq!(s.resume_url.as_deref(), Some("wss://resume.example"));
    assert_eq!(s.user_name.as_deref(), Some("alice"));
    assert_eq!(s.last_seq, 1);
}

#[test]
fn ready_falls_back_to_global_name_and_ignores_empty_resume_url() {
    let mut s = GatewayState::new();
    let text = r#"{"op":0,"s":2,"t":"READY","d":{"resume_gateway_url":"","user":{"global_name":"Alice"}}}"#;
    assert_eq!(handle_event(text, &mut s), Event::Ready);
    assert_eq!(s.user_name.as_deref(), Some("Alice"));
    assert_eq!(s.resume_url, None);
    assert_eq!(s.session_id, None);
}

#[test]
fn other_events() {
    let mut s = GatewayState::new();
    assert_eq!(handle_event(r#"{"op":0,"t":"RESUMED","s":5}"#, &mut s), Event::Resumed);
    assert_eq!(s.last_seq, 5);
    assert_eq!(handle_event(r#"{"op":0,"t":"USER_UPDATE","d":{"username":"bob"}}"#, &mut s), Event::Continue);
    assert_eq!(s.user_name.as_deref(), Some("bob"));
    assert_eq!(handle_event(r#"{"op":7}"#, &mut s), Event::Reconnect);
    assert_eq!(handle_event(r#"{"op":9,"d":true}"#, &mut s), Event::InvalidSession(true));
    assert_eq!(handle_event(r#"{"op":9,"d":false}"#, &mut s), Event::InvalidSession(false));
    assert_eq!(handle_event(r#"{"op":9}"#, &mut s), Event::InvalidSession(false));
    assert_eq!(handle_event(r#"{"op":11,"s":0}"#, &mut s), Event::HeartbeatAck);
    assert_eq!(s.last_seq, 5);
    assert_eq!(handle_event("not json", &mut s), Event::Continue);
    assert_eq!(handle_event(r#"{"op":"0"}"#, &mut s), Event::Continue);
}

#[test]
fn hello_interval_and_floor() {
    assert_eq!(hello_interval(r#"{"op":10,"d":{"heartbeat_interval":41250}}"#), Some(41250));
    assert_eq!(hello_interval(r#"{"op":10,"d":{"heartbeat_interval":100}}"#), Some(5000));
    assert_eq!(hello_interval(r#"{"op":10}"#), Some(41250));
    assert_eq!(hello_interval("{"), None);
}

#[test]
fn wait_for_hello_outcomes() {
    let mut s = GatewayState::new();
    let ok = wait_for_hello(&Inbound::Text(r#"{"op":10,"d":{"heartbeat_interval":45000}}"#.to_string()), &mut s);
    assert_eq!(ok, Ok(45000));
    assert_eq!(s.heartbeat_interval_ms, 45000);
    assert_eq!(wait_for_hello(&Inbound::Binary, &mut s), Err(SessionResult::Reconnect));
    assert_eq!(wait_for_hello(&Inbound::Close(Some(4004)), &mut s), Err(SessionResult::Fatal));
    assert_eq!(s.status, ActivityStatus::TokenInvalid);
}

#[test]
fn close_codes() {
    let mut s = GatewayState::new();
    s.session_id = Some("x".to_string());
    s.ready = true;
    assert_eq!(handle_close_frame(None, false, &mut s), SessionResult::Reconnect);
    assert_eq!(handle_close_frame(Some(4009), true, &mut s), SessionResult::Reconnect);
    assert!(s.session_id.is_some());
    assert_eq!(handle_close_frame(Some(4009), false, &mut s), SessionResult::Reconnect);
    assert!(s.session_id.is_none());
    assert!(!s.ready);
    assert_eq!(handle_close_frame(Some(1000), false, &mut s), SessionResult::Reconnect);
    assert_eq!(handle_close_frame(Some(4004), false, &mut s), SessionResult::Fatal);
    assert_eq!(s.status, ActivityStatus::TokenInvalid);
}

#[test]
fn resume_only_with_known_ready_session() {
    let mut s = GatewayState::new();
    assert_eq!(identify_or_resume(&s, "app", "tok").op, 2);
    s.session_id = Some("sid".to_string());
    assert_eq!(identify_or_resume(&s, "app", "tok").op, 2);
    s.ready = true;
    s.last_seq = 33;
    let f = identify_or_resume(&s, "app", "tok");
    assert_eq!(f.op, 6);
    match f.d {
        FrameData::Resume(p) => {
            assert_eq!(p.session_id, "sid");
            assert_eq!(p.seq, 33);
            assert_eq!(p.token, "Bearer tok");
        }
        _ => panic!("expected a resume"),
    }
}

#[test]
fn heartbeat_ack_accounting() {
    let mut missed = 0u32;
    assert_eq!(after_heartbeat(true, &mut missed), None);
    assert_eq!(after_heartbeat(true, &mut missed), None);
    assert_eq!(after_heartbeat(true, &mut missed), None);
    assert_eq!(missed, 3);
    assert_eq!(after_heartbeat(true, &mut missed), Some(SessionResult::Reconnect));
    let mut s = GatewayState::new();
    assert!(matches!(handle_ws_message(Inbound::Text(r#"{"op":11}"#.to_string()), &mut s, &mut missed), MessageOutcome::Continue));
    assert_eq!(missed, 0);
    assert_eq!(after_heartbeat(false, &mut missed), Some(SessionResult::Reconnect));
}

#[test]
fn ws_messages() {
    let mut s = GatewayState::new();
    let mut missed = 1u32;
    assert!(matches!(handle_ws_message(Inbound::Text(READY.to_string()), &mut s, &mut missed), MessageOutcome::Continue));
    assert!(s.ready);
    assert_eq!(s.status, ActivityStatus::Active);
    match handle_ws_message(Inbound::Ping(vec![1, 2]), &mut s, &mut missed) {
        MessageOutcome::Pong(d) => assert_eq!(d, vec![1, 2]),
        _ => panic!("expected a pong"),
    }
    assert!(matches!(handle_ws_message(Inbound::Binary, &mut s, &mut missed), MessageOutcome::Continue));
    assert!(matches!(handle_ws_message(Inbound::End, &mut s, &mut missed), MessageOutcome::End(SessionResult::Reconnect)));
    assert!(matches!(handle_ws_message(Inbound::Error, &mut s, &mut missed), MessageOutcome::End(SessionResult::Reconnect)));
    assert!(matches!(
        handle_ws_message(Inbound::Text(r#"{"op":9,"d":false}"#.to_string()), &mut s, &mut missed),
        MessageOutcome::End(SessionResult::Reconnect)
    ));
    assert!(s.session_id.is_none());
    assert!(!s.ready);
}

#[test]
fn presence_channel() {
    assert!(matches!(handle_presence(PresenceRecv::Payload("x".to_string())), PresenceOutcome::Send(t) if t == "x"));
    assert!(matches!(handle_presence(PresenceRecv::Lagged(3)), PresenceOutcome::Continue));
    assert!(matches!(handle_presence(PresenceRecv::Closed), PresenceOutcome::End(SessionResult::Stop)));
}

#[test]
fn backoff_delays() {
    let expected = [1000, 2000, 4000, 8000, 16000, 32000, 64000, 64000, 64000];
    for (i, d) in expected.iter().enumerate() {
        assert_eq!(reconnect_delay(i as u32 + 1), *d);
    }
    assert_eq!(reconnect_delay(u32::MAX), 64000);
}

#[test]
fn reconnect_gives_up_after_seven_attempts() {
    let mut s = GatewayState::new();
    let mut attempts = 0u32;
    for k in 1..=7u32 {
        assert!(should_reconnect(&mut attempts, &mut s).is_some());
        assert_eq!(attempts, k);
    }
    assert_eq!(should_reconnect(&mut attempts, &mut s), None);
    assert_eq!(s.status, ActivityStatus::NetworkError);
    let mut s = GatewayState::new();
    s.request_stop();
    let mut attempts = 0u32;
    assert_eq!(should_reconnect(&mut attempts, &mut s), None);
    assert_eq!(attempts, 0);
}

#[test]
fn jitter_between_half_and_full_interval() {
    for nanos in [0u32, 1, 999_999_999, 123_456_789, u32::MAX] {
        for base in [5000u64, 41250, 1] {
            let j = jitter_ms(base, nanos);
            assert!(base / 2 <= j && j <= base);
        }
    }
    assert_eq!(jitter_ms(41250, 0), 20625);
    assert_eq!(jitter_ms(0, 5), 0);
}

#[test]
fn gateway_url_prefers_resume_address() {
    let mut s = GatewayState::new();
    assert_eq!(gateway_url(&s), "wss://gateway.discord.gg/?v=10&encoding=json");
    s.resume_url = Some("wss://resume".to_string());
    assert_eq!(gateway_url(&s), "wss://resume");
}

fn step(g: &mut GatewaySession, s: &mut GatewayState, ev: GatewayEvent) -> GatewayAction {
    g.step(s, "app", "token", ev)
}

#[test]
fn session_happy_path() {
    let mut g = GatewaySession::new(0);
    let mut s = GatewayState::new();
    assert!(matches!(step(&mut g, &mut s, GatewayEvent::Begin), GatewayAction::Connect(u) if u == "wss://gateway.discord.gg/?v=10&encoding=json"));
    assert!(matches!(step(&mut g, &mut s, GatewayEvent::Connected(true)), GatewayAction::Wait));
    assert_eq!(s.status, ActivityStatus::Disconnected);
    let hello = Inbound::Text(r#"{"op":10,"d":{"heartbeat_interval":45000}}"#.to_string());
    match step(&mut g, &mut s, GatewayEvent::Message(hello)) {
        GatewayAction::Send(f) => assert_eq!(f.op, 2),
        _ => panic!("expected identify"),
    }
    assert!(matches!(step(&mut g, &mut s, GatewayEvent::Sent(true)), GatewayAction::StartHeartbeat(45000)));
    assert!(matches!(step(&mut g, &mut s, GatewayEvent::Message(Inbound::Text(READY.to_string()))), GatewayAction::Wait));
    assert_eq!(s.status, ActivityStatus::Active);
    match step(&mut g, &mut s, GatewayEvent::Tick) {
        GatewayAction::Send(f) => assert!(matches!(f.d, FrameData::Heartbeat(Some(1)))),
        _ => panic!("expected heartbeat"),
    }
    assert!(matches!(step(&mut g, &mut s, GatewayEvent::Sent(true)), GatewayAction::Wait));
    assert_eq!(g.missed_acks, 1);
    assert!(matches!(step(&mut g, &mut s, GatewayEvent::Presence(PresenceRecv::Payload("{}".to_string()))), GatewayAction::SendText(t) if t == "{}"));
    assert!(matches!(step(&mut g, &mut s, GatewayEvent::Sent(true)), GatewayAction::Wait));
    assert!(matches!(step(&mut g, &mut s, GatewayEvent::StopSignal(true)), GatewayAction::Exit));
    assert_eq!(s.status, ActivityStatus::Stopped);
    assert_eq!(g.phase, Phase::Exited);
    assert!(matches!(step(&mut g, &mut s, GatewayEvent::Begin), GatewayAction::Exit));
}

#[test]
fn session_resumes_after_reconnect() {
    let mut g = GatewaySession::new(0);
    let mut s = GatewayState::new();
    step(&mut g, &mut s, GatewayEvent::Begin);
    step(&mut g, &mut s, GatewayEvent::Connected(true));
    step(&mut g, &mut s, GatewayEvent::Message(Inbound::Text(r#"{"op":10,"d":{"heartbeat_interval":45000}}"#.to_string())));
    step(&mut g, &mut s, GatewayEvent::Sent(true));
    step(&mut g, &mut s, GatewayEvent::Message(Inbound::Text(READY.to_string())));
    assert!(matches!(step(&mut g, &mut s, GatewayEvent::Message(Inbound::Text(r#"{"op":7}"#.to_string()))), GatewayAction::Sleep(1000)));
    assert_eq!(g.attempts, 1);
    assert!(matches!(step(&mut g, &mut s, GatewayEvent::Begin), GatewayAction::Connect(u) if u == "wss://resume.example"));
    step(&mut g, &mut s, GatewayEvent::Connected(true));
    match step(&mut g, &mut s, GatewayEvent::Message(Inbound::Text(r#"{"op":10,"d":{"heartbeat_interval":45000}}"#.to_string()))) {
        GatewayAction::Send(f) => assert_eq!(f.op, 6),
        _ => panic!("expected resume"),
    }
}

#[test]
fn session_connect_failures_exhaust_attempts() {
    let mut g = GatewaySession::new(0);
    let mut s = GatewayState::new();
    let mut sleeps = 0;
    loop {
        match step(&mut g, &mut s, GatewayEvent::Begin) {
            GatewayAction::Connect(_) => {}
            GatewayAction::Exit => break,
            _ => panic!("unexpected action"),
        }
        match step(&mut g, &mut s, GatewayEvent::Connected(false)) {
            GatewayAction::Sleep(_) => sleeps += 1,
            GatewayAction::Exit => break,
            _ => panic!("unexpected action"),
        }
    }
    assert_eq!(sleeps, 7);
    assert_eq!(g.attempts, 7);
    assert_eq!(s.status, ActivityStatus::NetworkError);
}

#[test]
fn session_rejected_token() {
    let mut g = GatewaySession::new(0);
    let mut s = GatewayState::new();
    step(&mut g, &mut s, GatewayEvent::Begin);
    step(&mut g, &mut s, GatewayEvent::Connected(true));
    assert!(matches!(step(&mut g, &mut s, GatewayEvent::Message(Inbound::Close(Some(4004)))), GatewayAction::Exit));
    assert_eq!(s.status, ActivityStatus::TokenInvalid);
    assert!(matches!(step(&mut g, &mut s, GatewayEvent::Begin), GatewayAction::Exit));
    assert_eq!(s.status, ActivityStatus::TokenInvalid);
}

#[test]
fn text_that_is_not_json_is_ignored() {
    let mut s = GatewayState::new();
    assert_eq!(handle_event(READY, &mut s), Event::Ready);
    assert_eq!(handle_event("not json {", &mut s), Event::Continue);
    assert_eq!(handle_event("", &mut s), Event::Continue);
    assert_eq!(s.last_seq, 1);
    assert_eq!(s.session_id.as_deref(), Some("abc123456"));
    assert_eq!(s.user_name.as_deref(), Some("alice"));
}

#[test]
fn session_stop_before_start() {
    let mut g = GatewaySession::new(0);
    let mut s = GatewayState::new();
    s.request_stop();
    assert!(s.is_stopped());
    assert!(matches!(step(&mut g, &mut s, GatewayEvent::Begin), GatewayAction::Exit));
}

#[test]
fn session_missed_acks_reconnect() {
    let mut g = GatewaySession::new(0);
    let mut s = GatewayState::new();
    step(&mut g, &mut s, GatewayEvent::Begin);
    step(&mut g, &mut s, GatewayEvent::Connected(true));
    step(&mut g, &mut s, GatewayEvent::Message(Inbound::Text(r#"{"op":10}"#.to_string())));
    step(&mut g, &mut s, GatewayEvent::Sent(true));
    for _ in 0..3 {
        step(&mut g, &mut s, GatewayEvent::Tick);
        assert!(matches!(step(&mut g, &mut s, GatewayEvent::Sent(true)), GatewayAction::Wait));
    }
    step(&mut g, &mut s, GatewayEvent::Tick);
    assert!(matches!(step(&mut g, &mut s, GatewayEvent::Sent(true)), GatewayAction::Sleep(1000)));
}

#[test]
fn state_setters() {
    let mut s = GatewayState::new();
    assert_eq!(s.status, ActivityStatus::NotStarted);
    assert_eq!(s.heartbeat_interval_ms, 41250);
    s.set_sync(ActivityStatus::Disconnected);
    assert_eq!(s.status, ActivityStatus::Disconnected);
    s.set_async(ActivityStatus::Active);
    assert_eq!(s.status, ActivityStatus::Active);
    assert!(!s.is_stopped());
}

#[test]
fn loop_started_before_a_stop_exits() {
    let mut g = GatewaySession::new(0);
    let mut s = GatewayState::new();
    step(&mut g, &mut s, GatewayEvent::Begin);
    step(&mut g, &mut s, GatewayEvent::Connected(true));
    s.request_stop();
    assert_eq!(s.stop_count, 1);
    s.stopped = false;
    s.set_sync(ActivityStatus::Disconnected);
    assert!(matches!(
        step(&mut g, &mut s, GatewayEvent::Message(Inbound::Text(r#"{"op":10}"#.to_string()))),
        GatewayAction::Exit
    ));
    assert_eq!(g.phase, Phase::Exited);
    assert_eq!(s.status, ActivityStatus::Disconnected);
    let mut fresh = GatewaySession::new(s.stop_count);
    assert!(matches!(step(&mut fresh, &mut s, GatewayEvent::Begin), GatewayAction::Connect(_)));
}

#[test]
fn running_session_answers_the_stop_signal_after_a_stop() {
    let mut g = GatewaySession::new(0);
    let mut s = GatewayState::new();
    step(&mut g, &mut s, GatewayEvent::Begin);
    step(&mut g, &mut s, GatewayEvent::Connected(true));
    step(&mut g, &mut s, GatewayEvent::Message(Inbound::Text(r#"{"op":10,"d":{"heartbeat_interval":41250}}"#.to_string())));
    step(&mut g, &mut s, GatewayEvent::Sent(true));
    assert_eq!(g.phase, Phase::Running);
    s.request_stop();
    assert!(matches!(step(&mut g, &mut s, GatewayEvent::StopSignal(true)), GatewayAction::Exit));
    assert_eq!(s.status, ActivityStatus::Stopped);
}
