use std::io::Write;

use kook_sdk::models::KookError;
use kook_sdk::webhook::{challenge_reply, decode_webhook_body, event_reply, DefaultWebhookHandler, WebhookChallenge, WebhookConfig, WebhookPayload, WebhookRejection};

const EVENT: &str = r#"{"sn":12,"d":{"channel_type":"GROUP","type":1,"target_id":"t","author_id":"a","content":"hi","msg_id":"m","msg_timestamp":5,"nonce":"n","extra":null}}"#;

#[test]
fn challenge_with_wrong_token_is_refused_without_echo() {
    let mut h = DefaultWebhookHandler::new("secret".to_string());
    let body = br#"{"challenge":"abc","verify_token":"wrong"}"#.to_vec();
    let (reply, ev) = h.handle_request(None, body, true);
    assert_eq!(reply.status, 401);
    assert_eq!(reply.body, "Challenge failed");
    assert!(!reply.body.contains("abc"));
    assert!(ev.is_none());
}

#[test]
fn challenge_with_right_token_is_echoed() {
    let mut h = DefaultWebhookHandler::new("secret".to_string());
    let body = br#"{"challenge":"abc","verify_token":"secret"}"#.to_vec();
    let (reply, _) = h.handle_request(None, body, true);
    assert_eq!(reply.status, 200);
    assert!(reply.html);
    assert_eq!(reply.body, "abc");
}

#[test]
fn handle_challenge_checks_the_token() {
    let h = DefaultWebhookHandler::new("t".to_string());
    let ok = h.handle_challenge(WebhookChallenge { challenge: "c".to_string(), verify_token: "t".to_string() });
    assert_eq!(ok.unwrap(), "c");
    let bad = h.handle_challenge(WebhookChallenge { challenge: "c".to_string(), verify_token: "x".to_string() });
    assert!(matches!(bad, Err(KookError::Auth(_))));
}

#[test]
fn repeated_sn_is_delivered_once() {
    let mut h = DefaultWebhookHandler::new("secret".to_string());
    let (first, ev) = h.handle_request(None, EVENT.as_bytes().to_vec(), true);
    assert_eq!(first.status, 200);
    assert_eq!(first.body, "OK");
    let ev = ev.expect("first delivery");
    assert_eq!(ev.sn, 12);
    assert_eq!(ev.d.content, "hi");
    let (second, again) = h.handle_request(None, EVENT.as_bytes().to_vec(), true);
    assert_eq!(second.status, 200);
    assert!(again.is_none());
    assert!(h.is_duplicate(12));
}

#[test]
fn window_forgets_old_numbers() {
    let mut h = DefaultWebhookHandler::new(String::new());
    for sn in 1..=1000 {
        h.mark_processed(sn);
    }
    assert!(h.is_duplicate(1));
    h.mark_processed(1001);
    assert!(!h.is_duplicate(1));
    assert!(h.is_duplicate(2));
    assert!(h.is_duplicate(1001));
    h.mark_processed(1001);
    assert!(h.is_duplicate(1001));
}

#[test]
fn compressed_body_is_inflated() {
    let mut e = flate2::write::ZlibEncoder::new(Vec::new(), flate2::Compression::default());
    e.write_all(br#"{"challenge":"z","verify_token":"k"}"#).unwrap();
    let body = e.finish().unwrap();
    match decode_webhook_body(Some("gzip".to_string()), body, true) {
        Ok(WebhookPayload::Challenge(c)) => assert_eq!(c.challenge, "z"),
        _ => panic!("expected a challenge"),
    }
}

#[test]
fn bad_bodies_are_refused() {
    assert!(matches!(decode_webhook_body(Some("gzip".to_string()), vec![9, 9, 9], true), Err(WebhookRejection::DecompressionFailed)));
    assert!(matches!(decode_webhook_body(None, vec![0xff, 0xfe], true), Err(WebhookRejection::InvalidUtf8)));
    assert!(matches!(decode_webhook_body(None, b"{".to_vec(), true), Err(WebhookRejection::InvalidJson)));
    assert!(matches!(decode_webhook_body(None, br#"{"sn":1}"#.to_vec(), true), Err(WebhookRejection::InvalidJson)));
    let mut h = DefaultWebhookHandler::new(String::new());
    let (reply, _) = h.handle_request(Some("gzip".to_string()), vec![1], true);
    assert_eq!(reply.status, 400);
    assert_eq!(reply.body, "Decompression failed");
    let (reply, _) = h.handle_request(None, vec![0xc3], false);
    assert_eq!(reply.body, "Invalid UTF-8");
    let (reply, _) = h.handle_request(None, b"[]".to_vec(), false);
    assert_eq!(reply.body, "Invalid JSON");
}

#[test]
fn gzip_marker_ignored_when_decompression_is_off() {
    assert!(matches!(
        decode_webhook_body(Some("gzip".to_string()), EVENT.as_bytes().to_vec(), false),
        Ok(WebhookPayload::Event(_))
    ));
}

#[test]
fn replies_for_outcomes() {
    let r = challenge_reply(Err(KookError::Auth(String::new())));
    assert_eq!(r.status, 401);
    let r = event_reply(Err(KookError::Json(String::new())));
    assert_eq!(r.status, 500);
    assert_eq!(r.body, "Event processing failed");
}

#[test]
fn default_config() {
    let c = WebhookConfig::default();
    assert_eq!(c.path, "webhook");
    assert_eq!(c.port, 3000);
    assert!(c.decompress);
    assert!(c.verify_token.is_empty());
}

#[test]
fn window_stays_bounded_with_falling_numbers() {
    let mut h = DefaultWebhookHandler::new(String::new());
    for sn in (1..=3000).rev() {
        h.mark_processed(sn);
    }
    assert!(h.is_duplicate(1));
    assert!(h.is_duplicate(1000));
    assert!(!h.is_duplicate(1001));
    assert!(!h.is_duplicate(3000));
}

#[test]
fn json_that_is_neither_challenge_nor_event_is_refused() {
    let mut h = DefaultWebhookHandler::new("k".to_string());
    let (reply, ev) = h.handle_request(None, br#"{"challenge":"c"}"#.to_vec(), false);
    assert_eq!(reply.status, 400);
    assert_eq!(reply.body, "Invalid JSON");
    assert!(ev.is_none());
}
