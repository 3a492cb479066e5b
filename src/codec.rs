//! The frame codec: inbound frames to signals, and the heartbeat frame.
use crate::json::{has_member, inflate, inflated_text, int_at, int_field_spec, is_json, opt_view, str_at, str_field_spec, utf8, utf8_text, Doc};
use crate::models::{decimal, decimal_string, EventData, HelloData, Signal};
use vstd::prelude::*;
use vstd::string::StringExecFns;

verus! {

/// Kind code of an event.
pub const KIND_EVENT: i32 = 0;

/// Kind code of the handshake.
pub const KIND_HELLO: i32 = 1;

/// Kind code of a heartbeat.
pub const KIND_PING: i32 = 2;

/// Kind code of a heartbeat acknowledgment.
pub const KIND_PONG: i32 = 3;

/// Kind code of a request to reconnect.
pub const KIND_RECONNECT: i32 = 5;

/// Kind code of a resume acknowledgment.
pub const KIND_RESUME_ACK: i32 = 6;

/// An inbound frame as the transport hands it over.
pub enum Frame {
    Text(String),
    Binary(Vec<u8>),
    /// A control frame (ping, pong, close), which carries no signal.
    Control,
}

/// Why a frame could not be decoded.
#[derive(Clone, Copy, Debug, PartialEq, Eq, Structural)]
pub enum DecodeError {
    /// Compressed bytes that do not inflate to text.
    Decompress,
    /// Text that is not a well-formed signal.
    Malformed,
    /// A frame that carries no signal.
    Unsupported,
}

/// The kinds of signal.
#[derive(Clone, Copy, Debug, PartialEq, Eq, Structural)]
pub enum SignalKind {
    Event,
    Hello,
    HeartbeatAck,
    ReconnectRequest,
    ResumeAck,
    Unknown,
}

/// The kind that a kind code stands for.
pub open spec fn kind_spec(s: i32) -> SignalKind {
    if s == KIND_EVENT {
        SignalKind::Event
    } else if s == KIND_HELLO {
        SignalKind::Hello
    } else if s == KIND_PONG {
        SignalKind::HeartbeatAck
    } else if s == KIND_RECONNECT {
        SignalKind::ReconnectRequest
    } else if s == KIND_RESUME_ACK {
        SignalKind::ResumeAck
    } else {
        SignalKind::Unknown
    }
}

/// The kind of a signal.
pub fn signal_kind(s: i32) -> (r: SignalKind)
    ensures
        r == kind_spec(s),
{
    if s == KIND_EVENT {
        SignalKind::Event
    } else if s == KIND_HELLO {
        SignalKind::Hello
    } else if s == KIND_PONG {
        SignalKind::HeartbeatAck
    } else if s == KIND_RECONNECT {
        SignalKind::ReconnectRequest
    } else if s == KIND_RESUME_ACK {
        SignalKind::ResumeAck
    } else {
        SignalKind::Unknown
    }
}

/// The text a frame carries: as sent for a text frame; for a binary one
/// inflated when compression is on, else read as UTF-8.
pub open spec fn frame_text(frame: Frame, compress: bool) -> Option<Seq<char>> {
    match frame {
        Frame::Text(t) => Some(t@),
        Frame::Binary(b) => if compress {
            inflated_text(b@)
        } else {
            utf8_text(b@)
        },
        Frame::Control => None,
    }
}

/// The member at `path` as an integer, if present and one.
pub open spec fn member_int(text: Seq<char>, path: Seq<Seq<char>>) -> Option<i64> {
    if has_member(text, path) {
        int_at(text, path)
    } else {
        None
    }
}

/// The member at `path` as a string, if present and one.
pub open spec fn member_str(text: Seq<char>, path: Seq<Seq<char>>) -> Option<Seq<char>> {
    if has_member(text, path) {
        str_at(text, path)
    } else {
        None
    }
}

/// The path of the top-level member `key`.
pub open spec fn top(key: Seq<char>) -> Seq<Seq<char>> {
    seq![key]
}

/// The kind code of the signal in `text`.
pub open spec fn code_of(text: Seq<char>) -> Option<i64> {
    member_int(text, top("s"@))
}

/// The sequence number member of the signal in `text`; see `int_field_spec`.
pub open spec fn sn_of(text: Seq<char>) -> Option<Option<i64>> {
    int_field_spec(text, top("sn"@))
}

/// Whether `text` holds a signal: JSON with a kind code within `i32`, a
/// payload (possibly null), and a sequence number that is absent, null or
/// an integer.
pub open spec fn is_signal(text: Seq<char>) -> bool {
    &&& is_json(text)
    &&& code_of(text) matches Some(k) && i32::MIN <= k <= i32::MAX
    &&& has_member(text, top("d"@))
    &&& sn_of(text) is Some
}

/// Whether a frame carries no signal.
pub open spec fn undecodable(frame: Frame, compress: bool) -> bool {
    match frame_text(frame, compress) {
        Some(t) => !is_signal(t),
        None => true,
    }
}

/// Decodes an inbound frame into a signal. A control frame is
/// `Unsupported`; compressed bytes that do not inflate are `Decompress`;
/// any other frame decodes exactly when its text holds a signal, and is
/// `Malformed` otherwise.
pub fn decode(frame: Frame, compress: bool) -> (r: Result<Signal, DecodeError>)
    ensures
        frame is Control <==> r == Err::<Signal, DecodeError>(DecodeError::Unsupported),
        (frame is Binary && compress && frame_text(frame, compress) is None) <==> r == Err::<
            Signal,
            DecodeError,
        >(DecodeError::Decompress),
        frame_text(frame, compress) is None ==> r is Err,
        frame_text(frame, compress) matches Some(t) ==> {
            &&& r is Ok <==> is_signal(t)
            &&& r is Err ==> r == Err::<Signal, DecodeError>(DecodeError::Malformed)
            &&& r matches Ok(sig) ==> sig.s == code_of(t).unwrap() && sig.sn == sn_of(t).unwrap() && sig.d.text()
                == t && sig.d.path() == top("d"@)
        },
{
    let ghost g = frame;
    let text = match frame {
        Frame::Text(t) => t,
        Frame::Binary(b) => {
            if compress {
                match inflate(b.as_slice()) {
                    Some(t) => t,
                    None => return Err(DecodeError::Decompress),
                }
            } else {
                match utf8(b) {
                    Some(t) => t,
                    None => return Err(DecodeError::Malformed),
                }
            }
        },
        Frame::Control => return Err(DecodeError::Unsupported),
    };
    assert(frame_text(g, compress) == Some(text@));
    match Doc::parse(text.as_str()) {
        Some(doc) => {
            assert(Seq::<Seq<char>>::empty().push("s"@) =~= top("s"@));
            assert(Seq::<Seq<char>>::empty().push("d"@) =~= top("d"@));
            assert(Seq::<Seq<char>>::empty().push("sn"@) =~= top("sn"@));
            let s = match doc.get("s") {
                Some(x) => x.as_i64(),
                None => None,
            };
            signal_from_fields(s, doc.get("d"), doc.int_field("sn"))
        },
        None => Err(DecodeError::Malformed),
    }
}

/// Builds a signal from the members of a decoded record: the kind code `s`
/// (present, and within `i32`), the payload `d` (present, possibly null),
/// and the sequence number `sn` (`Some(None)` when absent or null, `None`
/// when not an integer).
pub fn signal_from_fields(s: Option<i64>, d: Option<Doc>, sn: Option<Option<i64>>) -> (r: Result<Signal, DecodeError>)
    ensures
        (s matches Some(k) && i32::MIN <= k <= i32::MAX && d is Some && sn is Some) <==> r is Ok,
        r is Err ==> r == Err::<Signal, DecodeError>(DecodeError::Malformed),
        r matches Ok(sig) ==> sig.s == s.unwrap() && sig.d == d.unwrap() && sig.sn == sn.unwrap(),
{
    match (s, d, sn) {
        (Some(k), Some(d), Some(sn)) => {
            if i32::MIN as i64 <= k && k <= i32::MAX as i64 {
                Ok(Signal { s: k as i32, d, sn })
            } else {
                Err(DecodeError::Malformed)
            }
        },
        _ => Err(DecodeError::Malformed),
    }
}

/// The heartbeat frame that reports `sn` as the last sequence number seen.
pub open spec fn heartbeat_text(sn: i64) -> Seq<char> {
    "{\"s\":2,\"sn\":"@ + decimal(sn as int) + "}"@
}

/// Encodes the heartbeat frame; it cannot fail.
pub fn encode_heartbeat(sn: i64) -> (r: String)
    ensures
        r@ == heartbeat_text(sn),
{
    let mut out = String::from_str("{\"s\":2,\"sn\":");
    out.append(decimal_string(sn).as_str());
    out.append("}");
    out
}

/// The handshake payload from its members: `code` must be an integer within
/// `i32`, `session_id` a string, null or absent.
pub fn hello_from_fields(code: Option<Option<i64>>, session_id: Option<Option<String>>) -> (r: Option<HelloData>)
    ensures
        (code matches Some(Some(c)) && i32::MIN <= c <= i32::MAX && session_id is Some) <==> r is Some,
        r matches Some(h) ==> h.code == code.unwrap().unwrap() && h.session_id == session_id.unwrap(),
{
    match (code, session_id) {
        (Some(Some(c)), Some(sid)) => {
            if i32::MIN as i64 <= c && c <= i32::MAX as i64 {
                Some(HelloData { code: c as i32, session_id: sid })
            } else {
                None
            }
        },
        _ => None,
    }
}

/// Whether the payload at `path` of `text` is a handshake: an integer
/// `code` within `i32`, and a `session_id` that is a string, null or absent.
pub open spec fn is_hello(text: Seq<char>, path: Seq<Seq<char>>) -> bool {
    &&& int_field_spec(text, path.push("code"@)) matches Some(Some(c)) && i32::MIN <= c <= i32::MAX
    &&& str_field_spec(text, path.push("session_id"@)) is Some
}

/// Reads the handshake payload.
pub fn decode_hello(d: &Doc) -> (r: Option<HelloData>)
    ensures
        r is Some <==> is_hello(d.text(), d.path()),
        r matches Some(h) ==> h.code == int_field_spec(d.text(), d.path().push("code"@)).unwrap().unwrap()
            && opt_view(h.session_id) == str_field_spec(d.text(), d.path().push("session_id"@)).unwrap(),
{
    hello_from_fields(d.int_field("code"), d.str_field("session_id"))
}

/// The reconnect request's code and reason from its members: a missing or
/// non-integer code reads as 0 and is cut to 32 bits, a missing or
/// non-string reason as "Unknown".
#[verifier::truncate]
pub fn reconnect_from_fields(code: Option<i64>, err: Option<String>) -> (r: (i32, String))
    ensures
        r.0 == (match code {
            Some(c) => c as i32,
            None => 0i32,
        }),
        r.1@ == (match err {
            Some(e) => e@,
            None => "Unknown"@,
        }),
{
    let c: i32 = match code {
        Some(c) => c as i32,
        None => 0,
    };
    let e = match err {
        Some(e) => e,
        None => String::from_str("Unknown"),
    };
    (c, e)
}

/// The reconnect code of the payload at `path`; see `reconnect_from_fields`.
#[verifier::truncate]
pub open spec fn reconnect_code(text: Seq<char>, path: Seq<Seq<char>>) -> i32 {
    match member_int(text, path.push("code"@)) {
        Some(c) => c as i32,
        None => 0i32,
    }
}

/// The reconnect reason of the payload at `path`; see `reconnect_from_fields`.
pub open spec fn reconnect_reason(text: Seq<char>, path: Seq<Seq<char>>) -> Seq<char> {
    match member_str(text, path.push("err"@)) {
        Some(e) => e,
        None => "Unknown"@,
    }
}

/// Reads a reconnect request's code and reason.
pub fn decode_reconnect(d: &Doc) -> (r: (i32, String))
    ensures
        r.0 == reconnect_code(d.text(), d.path()),
        r.1@ == reconnect_reason(d.text(), d.path()),
{
    let code = match d.get("code") {
        Some(x) => x.as_i64(),
        None => None,
    };
    let err = match d.get("err") {
        Some(x) => x.as_str(),
        None => None,
    };
    reconnect_from_fields(code, err)
}

/// Reads the session id of a resume acknowledgment.
pub fn decode_resume(d: &Doc) -> (r: Option<String>)
    ensures
        opt_view(r) == member_str(d.text(), d.path().push("session_id"@)),
{
    match d.get("session_id") {
        Some(x) => x.as_str(),
        None => None,
    }
}

/// The string member `key` of the payload at `path`, when it is a string.
pub open spec fn str_member(text: Seq<char>, path: Seq<Seq<char>>, key: Seq<char>) -> Option<Seq<char>> {
    match str_field_spec(text, path.push(key)) {
        Some(Some(s)) => Some(s),
        _ => None,
    }
}

/// The integer member `key` of the payload at `path`, when it is an integer.
pub open spec fn int_member(text: Seq<char>, path: Seq<Seq<char>>, key: Seq<char>) -> Option<i64> {
    match int_field_spec(text, path.push(key)) {
        Some(Some(n)) => Some(n),
        _ => None,
    }
}

/// Whether the payload at `path` is an event: string members
/// `channel_type`, `target_id`, `author_id`, `content`, `msg_id` and
/// `nonce`, integer members `type` (within `i32`) and `msg_timestamp`, and
/// an `extra` member, possibly null.
pub open spec fn is_event(text: Seq<char>, path: Seq<Seq<char>>) -> bool {
    &&& str_member(text, path, "channel_type"@) is Some
    &&& int_member(text, path, "type"@) matches Some(k) && i32::MIN <= k <= i32::MAX
    &&& str_member(text, path, "target_id"@) is Some
    &&& str_member(text, path, "author_id"@) is Some
    &&& str_member(text, path, "content"@) is Some
    &&& str_member(text, path, "msg_id"@) is Some
    &&& int_member(text, path, "msg_timestamp"@) is Some
    &&& str_member(text, path, "nonce"@) is Some
    &&& has_member(text, path.push("extra"@))
}

/// Reads an event payload.
pub fn decode_event(d: &Doc) -> (r: Option<EventData>)
    ensures
        r is Some <==> is_event(d.text(), d.path()),
        r matches Some(e) ==> {
            let (t, p) = (d.text(), d.path());
            &&& Some(e.channel_type@) == str_member(t, p, "channel_type"@)
            &&& Some(e.kind as i64) == int_member(t, p, "type"@)
            &&& Some(e.target_id@) == str_member(t, p, "target_id"@)
            &&& Some(e.author_id@) == str_member(t, p, "author_id"@)
            &&& Some(e.content@) == str_member(t, p, "content"@)
            &&& Some(e.msg_id@) == str_member(t, p, "msg_id"@)
            &&& Some(e.msg_timestamp) == int_member(t, p, "msg_timestamp"@)
            &&& Some(e.nonce@) == str_member(t, p, "nonce"@)
        },
{
    let channel_type = d.str_field("channel_type");
    let kind = d.int_field("type");
    let target_id = d.str_field("target_id");
    let author_id = d.str_field("author_id");
    let content = d.str_field("content");
    let msg_id = d.str_field("msg_id");
    let msg_timestamp = d.int_field("msg_timestamp");
    let nonce = d.str_field("nonce");
    let extra = d.get("extra");
    match (channel_type, kind, target_id, author_id, content, msg_id, msg_timestamp, nonce, extra) {
        (
            Some(Some(channel_type)),
            Some(Some(kind)),
            Some(Some(target_id)),
            Some(Some(author_id)),
            Some(Some(content)),
            Some(Some(msg_id)),
            Some(Some(msg_timestamp)),
            Some(Some(nonce)),
            Some(extra),
        ) => {
            if i32::MIN as i64 <= kind && kind <= i32::MAX as i64 {
                Some(
                    EventData {
                        channel_type,
                        kind: kind as i32,
                        target_id,
                        author_id,
                        content,
                        msg_id,
                        msg_timestamp,
                        nonce,
                        extra: extra.into_value(),
                    },
                )
            } else {
                None
            }
        },
        _ => None,
    }
}

} // verus!
