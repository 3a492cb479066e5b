use std::io::Write;

use kook_sdk::json::Doc;
use kook_sdk::codec::{decode, decode_event, decode_hello, decode_reconnect, decode_resume, encode_heartbeat, reconnect_from_fields, signal_kind, DecodeError, Frame, SignalKind};

fn zlib(text: &str) -> Vec<u8> {
    let mut e = flate2::write::ZlibEncoder::new(Vec::new(), flate2::Compression::default());
    e.write_all(text.as_bytes()).unwrap();
    e.finish().unwrap()
}

#[test]
fn text_frame_decodes_to_signal() {
    let s = decode(Frame::Text(r#"{"s":0,"d":{"x":1},"sn":7}"#.to_string()), false).unwrap();
    assert_eq!(s.s, 0);
    assert_eq!(s.sn, Some(7));
    assert_eq!(s.d.value()["x"], 1);
}

#[test]
fn signal_without_sequence_number() {
    let s = decode(Frame::Text(r#"{"s":3,"d":null}"#.to_string()), false).unwrap();
    assert_eq!(s.s, 3);
    assert_eq!(s.sn, None);
    assert!(s.d.is_null());
}

#[test]
fn compressed_binary_frame_is_inflated() {
    let s = decode(Frame::Binary(zlib(r#"{"s":1,"d":{"code":0}}"#)), true).unwrap();
    assert_eq!(s.s, 1);
}

#[test]
fn uncompressed_binary_frame_is_read_as_text() {
    let s = decode(Frame::Binary(br#"{"s":5,"d":{}}"#.to_vec()), false).unwrap();
    assert_eq!(s.s, 5);
}

#[test]
fn corrupt_compressed_frame_fails_to_decompress() {
    assert_eq!(decode(Frame::Binary(vec![1, 2, 3, 4]), true).err(), Some(DecodeError::Decompress));
}

#[test]
fn malformed_text_is_reported() {
    assert_eq!(decode(Frame::Text("not json".to_string()), false).err(), Some(DecodeError::Malformed));
    assert_eq!(decode(Frame::Text(r#"{"d":{}}"#.to_string()), false).err(), Some(DecodeError::Malformed));
    assert_eq!(decode(Frame::Text(r#"{"s":0}"#.to_string()), false).err(), Some(DecodeError::Malformed));
    assert_eq!(decode(Frame::Text(r#"{"s":0,"d":{},"sn":"x"}"#.to_string()), false).err(), Some(DecodeError::Malformed));
    assert_eq!(decode(Frame::Text(r#"{"s":4294967296,"d":{}}"#.to_string()), false).err(), Some(DecodeError::Malformed));
    assert_eq!(decode(Frame::Binary(vec![0xff, 0xfe]), false).err(), Some(DecodeError::Malformed));
}

#[test]
fn control_frame_carries_no_signal() {
    assert_eq!(decode(Frame::Control, true).err(), Some(DecodeError::Unsupported));
}

#[test]
fn heartbeat_frame_reports_sequence_number() {
    assert_eq!(encode_heartbeat(42), r#"{"s":2,"sn":42}"#);
    assert_eq!(encode_heartbeat(0), r#"{"s":2,"sn":0}"#);
    assert_eq!(encode_heartbeat(-3), r#"{"s":2,"sn":-3}"#);
}

#[test]
fn kind_codes_map_to_kinds() {
    assert_eq!(signal_kind(0), SignalKind::Event);
    assert_eq!(signal_kind(1), SignalKind::Hello);
    assert_eq!(signal_kind(3), SignalKind::HeartbeatAck);
    assert_eq!(signal_kind(5), SignalKind::ReconnectRequest);
    assert_eq!(signal_kind(6), SignalKind::ResumeAck);
    assert_eq!(signal_kind(2), SignalKind::Unknown);
    assert_eq!(signal_kind(9), SignalKind::Unknown);
}

#[test]
fn hello_payload_is_read() {
    let v = Doc::parse(r#"{"code":0,"session_id":"abc"}"#).unwrap();
    let h = decode_hello(&v).unwrap();
    assert_eq!(h.code, 0);
    assert_eq!(h.session_id.as_deref(), Some("abc"));
    let v = Doc::parse(r#"{"code":40103}"#).unwrap();
    let h = decode_hello(&v).unwrap();
    assert_eq!(h.code, 40103);
    assert_eq!(h.session_id, None);
    let v = Doc::parse(r#"{"session_id":"abc"}"#).unwrap();
    assert!(decode_hello(&v).is_none());
}

#[test]
fn reconnect_payload_defaults() {
    let v = Doc::parse(r#"{"code":41008,"err":"missing"}"#).unwrap();
    assert_eq!(decode_reconnect(&v), (41008, "missing".to_string()));
    let v = Doc::parse(r#"{}"#).unwrap();
    assert_eq!(decode_reconnect(&v), (0, "Unknown".to_string()));
    assert_eq!(reconnect_from_fields(Some(4294967297), None), (1, "Unknown".to_string()));
}

#[test]
fn resume_payload_is_read() {
    let v = Doc::parse(r#"{"session_id":"s-1"}"#).unwrap();
    assert_eq!(decode_resume(&v).as_deref(), Some("s-1"));
    let v = Doc::parse(r#"{"session_id":5}"#).unwrap();
    assert_eq!(decode_resume(&v), None);
}

#[test]
fn event_payload_is_read() {
    let v = Doc::parse(
        r#"{"channel_type":"GROUP","type":9,"target_id":"t","author_id":"a","content":"hi","msg_id":"m","msg_timestamp":17,"nonce":"n","extra":{"k":1}}"#,
    )
    .unwrap();
    let e = decode_event(&v).unwrap();
    assert_eq!(e.channel_type, "GROUP");
    assert_eq!(e.kind, 9);
    assert_eq!(e.content, "hi");
    assert_eq!(e.msg_timestamp, 17);
    assert_eq!(e.extra["k"], 1);
    let v = Doc::parse(r#"{"channel_type":"GROUP"}"#).unwrap();
    assert!(decode_event(&v).is_none());
}

#[test]
fn heartbeat_frame_with_extreme_numbers() {
    assert_eq!(encode_heartbeat(i64::MIN), r#"{"s":2,"sn":-9223372036854775808}"#);
    assert_eq!(encode_heartbeat(i64::MAX), r#"{"s":2,"sn":9223372036854775807}"#);
    assert_eq!(encode_heartbeat(1234567890), r#"{"s":2,"sn":1234567890}"#);
}
