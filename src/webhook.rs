//! The webhook path: single POSTed frames, each a challenge to answer or an
//! event to deliver at most once within a window of recent sequence numbers.
use crate::codec::{decode_event, int_member, is_event, str_member};
use crate::json::{has_member, inflate, inflated_text, is_json, utf8, utf8_text, Doc};
use crate::models::{EventData, KookError};
use vstd::prelude::*;
use vstd::string::StringExecFns;

verus! {

/// How many of the most recently handled sequence numbers are remembered.
pub const SN_WINDOW: usize = 1000;

/// An event delivered by webhook.
pub struct WebhookEvent {
    pub sn: i64,
    pub d: EventData,
}

/// A request to prove ownership of the endpoint.
#[derive(Clone, Debug)]
pub struct WebhookChallenge {
    pub challenge: String,
    pub verify_token: String,
}

/// Settings of a webhook endpoint.
#[derive(Clone, Debug)]
pub struct WebhookConfig {
    pub verify_token: String,
    pub path: String,
    pub port: u16,
    /// Whether bodies marked as compressed are inflated.
    pub decompress: bool,
}

impl Default for WebhookConfig {
    fn default() -> (r: Self)
        ensures
            r.verify_token@ == Seq::<char>::empty(),
            r.path@ == "webhook"@,
            r.port == 3000,
            r.decompress,
    {
        WebhookConfig {
            verify_token: String::new(),
            path: String::from_str("webhook"),
            port: 3000,
            decompress: true,
        }
    }
}

/// The remembered sequence numbers, oldest first, after marking `sn`: a
/// number already remembered changes nothing; a new one is appended, and
/// once `SN_WINDOW` are remembered the oldest one makes room for it.
pub open spec fn mark_spec(recent: Seq<i64>, sn: i64) -> Seq<i64> {
    if recent.contains(sn) {
        recent
    } else if recent.len() >= SN_WINDOW {
        recent.push(sn).drop_first()
    } else {
        recent.push(sn)
    }
}

/// The webhook handler that answers challenges with a configured token and
/// drops events whose sequence number is among the last `SN_WINDOW` handled.
pub struct DefaultWebhookHandler {
    verify_token: String,
    processed_sns: Vec<i64>,
}

impl DefaultWebhookHandler {
    /// The remembered sequence numbers, oldest first.
    pub closed spec fn recent(&self) -> Seq<i64> {
        self.processed_sns@
    }

    /// The token that challenges must carry.
    pub closed spec fn token(&self) -> Seq<char> {
        self.verify_token@
    }

    /// No number is remembered twice, and at most `SN_WINDOW` are.
    pub closed spec fn wf(&self) -> bool {
        &&& self.processed_sns@.no_duplicates()
        &&& self.processed_sns@.len() <= SN_WINDOW
    }

    /// A handler that remembers nothing.
    pub fn new(verify_token: String) -> (r: Self)
        ensures
            r.wf(),
            r.recent() == Seq::<i64>::empty(),
            r.token() == verify_token@,
    {
        DefaultWebhookHandler { verify_token, processed_sns: Vec::new() }
    }

    /// Whether `sn` is remembered.
    pub fn is_duplicate(&self, sn: i64) -> (r: bool)
        ensures
            r == self.recent().contains(sn),
    {
        let mut i: usize = 0;
        while i < self.processed_sns.len()
            invariant
                i <= self.processed_sns@.len(),
                forall|j: int| 0 <= j < i ==> self.processed_sns@[j] != sn,
            decreases self.processed_sns@.len() - i,
        {
            if self.processed_sns[i] == sn {
                assert(self.processed_sns@[i as int] == sn);
                return true;
            }
            i = i + 1;
        }
        false
    }

    /// Remembers `sn`, forgetting the oldest number when the window is full.
    pub fn mark_processed(&mut self, sn: i64)
        requires
            old(self).wf(),
        ensures
            final(self).wf(),
            final(self).recent() == mark_spec(old(self).recent(), sn),
            final(self).recent().len() <= SN_WINDOW,
            final(self).token() == old(self).token(),
    {
        let ghost s0 = self.processed_sns@;
        if self.is_duplicate(sn) {
            return;
        }
        if self.processed_sns.len() >= SN_WINDOW {
            self.processed_sns.remove(0);
            assert(s0.push(sn).drop_first() =~= s0.drop_first().push(sn));
            assert(self.processed_sns@ =~= s0.drop_first());
        }
        let ghost s1 = self.processed_sns@;
        assert(forall|x: i64| s1.contains(x) ==> s0.contains(x)) by {
            assert forall|x: i64| s1.contains(x) implies s0.contains(x) by {
                let j = choose|j: int| 0 <= j < s1.len() && s1[j] == x;
                if s1.len() < s0.len() {
                    assert(s0[j + 1] == x);
                } else {
                    assert(s0[j] == x);
                }
            }
        }
        self.processed_sns.push(sn);
        assert(self.processed_sns@.no_duplicates()) by {
            assert forall|a: int, b: int| 0 <= a < b < self.processed_sns@.len() implies self.processed_sns@[a]
                != self.processed_sns@[b] by {
                if b == s1.len() {
                    assert(s1.contains(s1[a]));
                } else if s1.len() < s0.len() {
                    assert(s1[a] == s0[a + 1] && s1[b] == s0[b + 1]);
                }
            }
        }
    }

    /// Handles an event: returns whether it is new, remembering its sequence
    /// number; a duplicate changes nothing.
    pub fn handle_event(&mut self, event: &WebhookEvent) -> (r: bool)
        requires
            old(self).wf(),
        ensures
            final(self).wf(),
            r == !old(self).recent().contains(event.sn),
            final(self).token() == old(self).token(),
            r ==> final(self).recent() == mark_spec(old(self).recent(), event.sn),
            !r ==> final(self).recent() == old(self).recent(),
    {
        if self.is_duplicate(event.sn) {
            return false;
        }
        self.mark_processed(event.sn);
        true
    }

    /// Answers a challenge: echoes it when its token matches, else rejects it.
    pub fn handle_challenge(&self, challenge: WebhookChallenge) -> (r: Result<String, KookError>)
        ensures
            challenge.verify_token@ == self.token() ==> r == Ok::<String, KookError>(challenge.challenge),
            challenge.verify_token@ != self.token() ==> (r matches Err(KookError::Auth(m)) && m@
                == "verify token mismatch"@),
    {
        if challenge.verify_token != self.verify_token {
            return Err(KookError::Auth(String::from_str("verify token mismatch")));
        }
        Ok(challenge.challenge)
    }

    /// Handles one request with this handler: the reply, and the event to
    /// deliver when the request carried a new one.
    pub fn handle_request(&mut self, encoding: Option<String>, body: Vec<u8>, decompress: bool) -> (r: (
        WebhookReply,
        Option<WebhookEvent>,
    ))
        requires
            old(self).wf(),
        ensures
            final(self).wf(),
            final(self).token() == old(self).token(),
            body_text(encoding, body@, decompress) is None ==> r.0.status == 400 && r.1 is None && final(self).recent()
                == old(self).recent() && r.0.body@ == (if decompress && is_gzip(encoding) {
                "Decompression failed"@
            } else {
                "Invalid UTF-8"@
            }),
            body_text(encoding, body@, decompress) matches Some(t) ==> request_outcome(
                old(self).recent(),
                old(self).token(),
                t,
                final(self).recent(),
                r.0,
                r.1,
            ),
    {
        let payload = decode_webhook_body(encoding, body, decompress);
        self.respond(payload)
    }

    /// Replies to a decoded request: a rejected body gets its error reply, a
    /// challenge is answered, and an event is delivered unless it is a
    /// duplicate; either way an event is acknowledged with 200.
    pub fn respond(&mut self, payload: Result<WebhookPayload, WebhookRejection>) -> (r: (
        WebhookReply,
        Option<WebhookEvent>,
    ))
        requires
            old(self).wf(),
        ensures
            final(self).wf(),
            final(self).token() == old(self).token(),
            payload matches Err(e) ==> r.0.status == 400 && r.0.body@ == rejection_text(e) && r.1 is None
                && final(self).recent() == old(self).recent(),
            payload matches Ok(WebhookPayload::Challenge(c)) ==> r.1 is None && final(self).recent() == old(
                self,
            ).recent() && (if c.verify_token@ == old(self).token() {
                r.0.status == 200 && r.0.html && r.0.body@ == c.challenge@
            } else {
                r.0.status == 401 && !r.0.html && r.0.body@ == "Challenge failed"@
            }),
            payload matches Ok(WebhookPayload::Event(ev)) ==> r.0.status == 200 && r.0.body@ == "OK"@ && (
            if old(self).recent().contains(ev.sn) {
                r.1 is None && final(self).recent() == old(self).recent()
            } else {
                r.1 matches Some(x) && x.sn == ev.sn && final(self).recent() == mark_spec(old(self).recent(), ev.sn)
            }),
    {
        match payload {
            Err(e) => (rejection_reply(e), None),
            Ok(WebhookPayload::Challenge(c)) => (challenge_reply(self.handle_challenge(c)), None),
            Ok(WebhookPayload::Event(ev)) => {
                if self.handle_event(&ev) {
                    (event_reply(Ok(())), Some(ev))
                } else {
                    (event_reply(Ok(())), None)
                }
            },
        }
    }
}

/// What a request body holds.
pub enum WebhookPayload {
    Challenge(WebhookChallenge),
    Event(WebhookEvent),
}

/// Why a request body was refused.
#[derive(Clone, Copy, Debug, PartialEq, Eq, Structural)]
pub enum WebhookRejection {
    DecompressionFailed,
    InvalidUtf8,
    InvalidJson,
}

/// The HTTP reply to a request.
pub struct WebhookReply {
    pub status: u16,
    pub body: String,
    /// Whether the body is sent as HTML.
    pub html: bool,
}

/// The reply text of a refused body.
pub open spec fn rejection_text(e: WebhookRejection) -> Seq<char> {
    match e {
        WebhookRejection::DecompressionFailed => "Decompression failed"@,
        WebhookRejection::InvalidUtf8 => "Invalid UTF-8"@,
        WebhookRejection::InvalidJson => "Invalid JSON"@,
    }
}

fn reply(status: u16, text: &str, html: bool) -> (r: WebhookReply)
    ensures
        r.status == status,
        r.body@ == text@,
        r.html == html,
{
    WebhookReply { status, body: String::from_str(text), html }
}

/// The reply to a refused body: 400 with the reason.
pub fn rejection_reply(e: WebhookRejection) -> (r: WebhookReply)
    ensures
        r.status == 400,
        r.body@ == rejection_text(e),
        !r.html,
{
    match e {
        WebhookRejection::DecompressionFailed => reply(400, "Decompression failed", false),
        WebhookRejection::InvalidUtf8 => reply(400, "Invalid UTF-8", false),
        WebhookRejection::InvalidJson => reply(400, "Invalid JSON", false),
    }
}

/// The reply to a challenge: the echo as HTML, or 401.
pub fn challenge_reply(answer: Result<String, KookError>) -> (r: WebhookReply)
    ensures
        answer matches Ok(s) ==> r.status == 200 && r.html && r.body@ == s@,
        answer is Err ==> r.status == 401 && !r.html && r.body@ == "Challenge failed"@,
{
    match answer {
        Ok(s) => WebhookReply { status: 200, body: s, html: true },
        Err(_) => reply(401, "Challenge failed", false),
    }
}

/// The reply to an event: 200, or 500 when handling it failed.
pub fn event_reply(outcome: Result<(), KookError>) -> (r: WebhookReply)
    ensures
        outcome is Ok ==> r.status == 200 && r.body@ == "OK"@,
        outcome is Err ==> r.status == 500 && r.body@ == "Event processing failed"@,
        !r.html,
{
    match outcome {
        Ok(_) => reply(200, "OK", false),
        Err(_) => reply(500, "Event processing failed", false),
    }
}

/// Whether a body is marked as `gzip`.
pub open spec fn is_gzip(encoding: Option<String>) -> bool {
    match encoding {
        Some(e) => e@ == "gzip"@,
        None => false,
    }
}

/// The text of a body: inflated when decompression is on and the body is
/// marked `gzip` (its bytes are a zlib stream), otherwise read as UTF-8.
pub open spec fn body_text(encoding: Option<String>, body: Seq<u8>, decompress: bool) -> Option<Seq<char>> {
    if decompress && is_gzip(encoding) {
        inflated_text(body)
    } else {
        utf8_text(body)
    }
}

/// The challenge and token of a body's text, when both are strings.
pub open spec fn challenge_of(text: Seq<char>) -> Option<(Seq<char>, Seq<char>)> {
    match (str_member(text, Seq::empty(), "challenge"@), str_member(text, Seq::empty(), "verify_token"@)) {
        (Some(c), Some(v)) => Some((c, v)),
        _ => None,
    }
}

/// Whether a body's text is an event: an integer `sn` and an event payload `d`.
pub open spec fn is_webhook_event(text: Seq<char>) -> bool {
    &&& int_member(text, Seq::empty(), "sn"@) is Some
    &&& has_member(text, Seq::<Seq<char>>::empty().push("d"@))
    &&& is_event(text, Seq::<Seq<char>>::empty().push("d"@))
}

/// What handling a body whose text is `text` does, from remembered numbers
/// `recent` and token `token`: the reply, the event delivered, and the
/// remembered numbers afterwards.
pub open spec fn request_outcome(
    recent: Seq<i64>,
    token: Seq<char>,
    text: Seq<char>,
    after: Seq<i64>,
    reply: WebhookReply,
    delivered: Option<WebhookEvent>,
) -> bool {
    if !is_json(text) {
        reply.status == 400 && reply.body@ == "Invalid JSON"@ && delivered is None && after == recent
    } else if challenge_of(text) is Some {
        let (c, v) = challenge_of(text).unwrap();
        &&& delivered is None
        &&& after == recent
        &&& if v == token {
            reply.status == 200 && reply.html && reply.body@ == c
        } else {
            reply.status == 401 && !reply.html && reply.body@ == "Challenge failed"@
        }
    } else if is_webhook_event(text) {
        let sn = int_member(text, Seq::empty(), "sn"@).unwrap();
        &&& reply.status == 200
        &&& reply.body@ == "OK"@
        &&& after == mark_spec(recent, sn)
        &&& if recent.contains(sn) {
            delivered is None
        } else {
            delivered matches Some(x) && x.sn == sn
        }
    } else {
        reply.status == 400 && reply.body@ == "Invalid JSON"@ && delivered is None && after == recent
    }
}

/// Decodes a request body: first as a challenge (string members
/// `challenge` and `verify_token`), then as an event (an integer `sn` and
/// an event payload `d`); anything else is `InvalidJson`.
pub fn decode_webhook_body(encoding: Option<String>, body: Vec<u8>, decompress: bool) -> (r: Result<
    WebhookPayload,
    WebhookRejection,
>)
    ensures
        r == Err::<WebhookPayload, WebhookRejection>(WebhookRejection::DecompressionFailed) <==> (
        decompress && is_gzip(encoding) && body_text(encoding, body@, decompress) is None),
        r == Err::<WebhookPayload, WebhookRejection>(WebhookRejection::InvalidUtf8) <==> (!(decompress
            && is_gzip(encoding)) && body_text(encoding, body@, decompress) is None),
        body_text(encoding, body@, decompress) matches Some(t) ==> {
            if !is_json(t) {
                r == Err::<WebhookPayload, WebhookRejection>(WebhookRejection::InvalidJson)
            } else if challenge_of(t) is Some {
                r matches Ok(WebhookPayload::Challenge(ch)) && (ch.challenge@, ch.verify_token@) == challenge_of(
                    t,
                ).unwrap()
            } else if is_webhook_event(t) {
                r matches Ok(WebhookPayload::Event(ev)) && Some(ev.sn) == int_member(t, Seq::empty(), "sn"@)
            } else {
                r == Err::<WebhookPayload, WebhookRejection>(WebhookRejection::InvalidJson)
            }
        },
{
    let ghost enc = encoding;
    let ghost bytes = body@;
    let gzip = match &encoding {
        Some(e) => *e == String::from_str("gzip"),
        None => false,
    };
    let text = if decompress && gzip {
        match inflate(body.as_slice()) {
            Some(t) => t,
            None => return Err(WebhookRejection::DecompressionFailed),
        }
    } else {
        match utf8(body) {
            Some(t) => t,
            None => return Err(WebhookRejection::InvalidUtf8),
        }
    };
    assert(body_text(enc, bytes, decompress) == Some(text@));
    let doc = match Doc::parse(text.as_str()) {
        Some(doc) => doc,
        None => return Err(WebhookRejection::InvalidJson),
    };
    if let (Some(Some(challenge)), Some(Some(verify_token))) = (doc.str_field("challenge"), doc.str_field("verify_token")) {
        return Ok(WebhookPayload::Challenge(WebhookChallenge { challenge, verify_token }));
    }
    let sn = doc.int_field("sn");
    let d = match doc.get("d") {
        Some(d) => decode_event(&d),
        None => None,
    };
    match (sn, d) {
        (Some(Some(sn)), Some(d)) => Ok(WebhookPayload::Event(WebhookEvent { sn, d })),
        _ => Err(WebhookRejection::InvalidJson),
    }
}

} // verus!
