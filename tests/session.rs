use kook_sdk::codec::Frame;
use kook_sdk::models::KookError;
use kook_sdk::session::{Command, GatewaySession, Notice, Phase, Step, HELLO_TIMEOUT_MS};

fn text(s: &str) -> Frame {
    Frame::Text(s.to_string())
}

fn connecting() -> GatewaySession {
    let mut s = GatewaySession::new(false);
    let step = s.start();
    assert!(matches!(step.command, Command::ResolveEndpoint { compress: false }));
    let step = s.on_endpoint(Ok("wss://gw".to_string()), "tok");
    match step.command {
        Command::OpenTransport { url } => assert_eq!(url, "wss://gw?token=tok"),
        _ => panic!("expected to open the transport"),
    }
    let step = s.on_transport_open(0);
    assert!(matches!(step.command, Command::Receive { wait_ms: HELLO_TIMEOUT_MS }));
    assert_eq!(s.phase(), Phase::AwaitingHello);
    s
}

fn connected() -> GatewaySession {
    let mut s = connecting();
    let step = s.on_frame(0, text(r#"{"s":1,"d":{"code":0,"session_id":"sess"}}"#));
    match step.notice {
        Some(Notice::Hello(h)) => assert_eq!(h.session_id.as_deref(), Some("sess")),
        _ => panic!("expected the hello notice"),
    }
    assert_eq!(s.phase(), Phase::Connected);
    s
}

fn event(sn: i64) -> Frame {
    Frame::Text(format!(r#"{{"s":0,"d":{{"n":{}}},"sn":{}}}"#, sn, sn))
}

fn delivered(step: &Step) -> Vec<i64> {
    step.events.iter().map(|e| e.sn.unwrap()).collect()
}

#[test]
fn rejected_hello_reconnects_with_first_backoff() {
    let mut s = connecting();
    let step = s.on_frame(0, text(r#"{"s":1,"d":{"code":40103}}"#));
    assert_eq!(s.phase(), Phase::Reconnecting);
    assert_eq!(s.attempt(), 1);
    assert!(matches!(step.command, Command::Sleep { delay_secs: 2 }));
    assert!(step.notice.is_none());
}

#[test]
fn successful_hello_connects() {
    let s = connected();
    assert_eq!(s.attempt(), 0);
    assert_eq!(s.session_id().as_deref(), Some("sess"));
    assert_eq!(s.cursor(), 0);
}

#[test]
fn other_signal_before_hello_fails_the_attempt() {
    let mut s = connecting();
    let step = s.on_frame(0, event(1));
    assert_eq!(s.phase(), Phase::Reconnecting);
    assert!(matches!(step.command, Command::Sleep { delay_secs: 2 }));
}

#[test]
fn missing_hello_fails_the_attempt() {
    let mut s = connecting();
    s.on_receive_timeout(HELLO_TIMEOUT_MS);
    assert_eq!(s.phase(), Phase::Reconnecting);
    assert_eq!(s.attempt(), 1);
}

#[test]
fn events_are_delivered_in_order_once() {
    let mut s = connected();
    assert!(delivered(&s.on_frame(1, event(1))).eq(&[1]));
    assert!(delivered(&s.on_frame(2, event(3))).is_empty());
    assert!(delivered(&s.on_frame(3, event(1))).is_empty());
    assert_eq!(delivered(&s.on_frame(4, event(2))), vec![2, 3]);
    assert_eq!(s.cursor(), 3);
}

#[test]
fn undecodable_frame_is_dropped_once_connected() {
    let mut s = connected();
    let step = s.on_frame(5, text("garbage"));
    assert_eq!(s.phase(), Phase::Connected);
    assert!(matches!(step.command, Command::Receive { .. }));
    s.on_frame(6, Frame::Control);
    assert_eq!(s.phase(), Phase::Connected);
}

#[test]
fn heartbeat_is_sent_and_acknowledged() {
    let mut s = connected();
    let step = s.on_receive_timeout(30_000);
    match step.command {
        Command::Send { frame } => assert_eq!(frame, r#"{"s":2,"sn":0}"#),
        _ => panic!("expected a heartbeat"),
    }
    let step = s.on_sent(30_000);
    assert!(matches!(step.command, Command::Receive { wait_ms: 6_000 }));
    let step = s.on_frame(31_000, text(r#"{"s":3,"d":null}"#));
    assert!(matches!(step.command, Command::Receive { wait_ms: 29_000 }));
}

#[test]
fn unacknowledged_heartbeat_reconnects_and_resets() {
    let mut s = connected();
    s.on_frame(1, event(1));
    s.on_receive_timeout(30_001);
    s.on_sent(30_001);
    let step = s.on_receive_timeout(36_001);
    assert!(matches!(step.command, Command::Sleep { delay_secs: 2 }));
    assert_eq!(s.phase(), Phase::Reconnecting);
    assert_eq!(s.cursor(), 0);
    assert!(s.session_id().is_none());
    let step = s.on_delay_elapsed();
    assert!(matches!(step.command, Command::ResolveEndpoint { compress: false }));
    assert_eq!(s.phase(), Phase::Connecting);
}

#[test]
fn reconnect_request_notifies_and_resets() {
    let mut s = connected();
    s.on_frame(1, event(1));
    let step = s.on_frame(2, text(r#"{"s":5,"d":{"code":41008,"err":"resume failed"}}"#));
    match step.notice {
        Some(Notice::Reconnect(code, reason)) => {
            assert_eq!(code, 41008);
            assert_eq!(reason, "resume failed");
        }
        _ => panic!("expected the reconnect notice"),
    }
    assert_eq!(s.phase(), Phase::Reconnecting);
    assert_eq!(s.cursor(), 0);
}

#[test]
fn resume_ack_is_passed_on() {
    let mut s = connected();
    let step = s.on_frame(1, text(r#"{"s":6,"d":{"session_id":"sess"}}"#));
    assert!(matches!(step.notice, Some(Notice::Resume(id)) if id == "sess"));
    assert_eq!(s.phase(), Phase::Connected);
}

#[test]
fn rejected_token_ends_the_session() {
    let mut s = GatewaySession::new(true);
    s.start();
    let step = s.on_endpoint(Err(KookError::Auth("bad".to_string())), "tok");
    assert_eq!(s.phase(), Phase::Terminated);
    assert!(matches!(step.command, Command::Finish(Err(KookError::Auth(_)))));
}

#[test]
fn fourth_failure_is_final() {
    let mut s = GatewaySession::new(false);
    s.start();
    let mut delays = Vec::new();
    for _ in 0..3 {
        let step = s.on_transport_error(KookError::Network("down".to_string()));
        if let Command::Sleep { delay_secs } = step.command {
            delays.push(delay_secs);
        }
        s.on_delay_elapsed();
    }
    assert_eq!(delays, vec![2, 4, 8]);
    let step = s.on_transport_error(KookError::Network("down".to_string()));
    assert!(matches!(step.command, Command::Finish(Err(KookError::Network(_)))));
    assert_eq!(s.phase(), Phase::Terminated);
}

#[test]
fn cancel_ends_without_error() {
    let mut s = connected();
    let step = s.cancel();
    assert!(matches!(step.command, Command::Finish(Ok(()))));
    assert_eq!(s.phase(), Phase::Terminated);
}

#[test]
fn resume_ack_without_id_gives_no_notice() {
    let mut s = connected();
    let step = s.on_frame(1, text(r#"{"s":6,"d":{}}"#));
    assert!(step.notice.is_none());
    assert!(step.events.is_empty());
}

#[test]
fn json_that_is_not_a_signal_is_dropped_once_connected() {
    let mut s = connected();
    s.on_frame(1, event(1));
    let step = s.on_frame(2, text(r#"{"d":{}}"#));
    assert!(step.events.is_empty());
    assert!(step.notice.is_none());
    assert_eq!(s.phase(), Phase::Connected);
    assert_eq!(s.cursor(), 1);
}

#[test]
fn frames_do_not_postpone_the_ack_deadline() {
    let mut s = connected();
    s.on_receive_timeout(30_000);
    s.on_sent(30_000);
    s.on_frame(33_000, event(1));
    s.on_frame(35_000, text(r#"{"s":9,"d":null}"#));
    let step = s.on_frame(36_000, event(2));
    assert_eq!(s.phase(), Phase::Reconnecting);
    assert!(matches!(step.command, Command::Sleep { delay_secs: 2 }));
}
