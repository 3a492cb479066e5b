//! The gateway session: the state machine that drives the handshake,
//! heartbeats, in-order delivery and reconnects. It performs no I/O: each
//! method takes what happened and returns what to do next, and the
//! embedding application carries that out and reports back.
use crate::codec::{code_of, frame_text, is_hello, is_signal, member_str, reconnect_code, reconnect_reason, sn_of, top, kind_spec, undecodable, decode, decode_hello, decode_reconnect, decode_resume, encode_heartbeat, heartbeat_text, signal_kind, Frame, SignalKind, KIND_HELLO};
use crate::heartbeat::{ACK_TIMEOUT_MS, HEARTBEAT_INTERVAL_MS, fresh_monitor, tick_spec, HeartbeatAction, HeartbeatMonitor};
use crate::json::{int_field_spec, opt_view, str_field_spec};
use crate::models::{HelloData, KookError, Signal};
use crate::reconnect::{MAX_ATTEMPTS, on_failure_spec, ReconnectPolicy, RetryDecision};
use crate::rest::{stream_url, stream_url_spec};
use crate::sequence::{observe_spec, overflows, BufferView, ReorderBuffer};
use vstd::prelude::*;
use vstd::string::StringExecFns;

verus! {

/// How long to wait for the handshake after the transport opens.
pub const HELLO_TIMEOUT_MS: u64 = 6_000;

/// Where the session stands.
#[derive(Clone, Copy, Debug, PartialEq, Eq, Structural)]
pub enum Phase {
    Idle,
    Connecting,
    AwaitingHello,
    Connected,
    Reconnecting,
    Terminated,
}

/// A lifecycle notification for the consumer.
pub enum Notice {
    /// The handshake succeeded.
    Hello(HelloData),
    /// The server asked for a reconnect, with its code and reason.
    Reconnect(i32, String),
    /// The server acknowledged a resume of this session.
    Resume(String),
}

/// What the application does next.
pub enum Command {
    /// Ask the directory service for the gateway URL.
    ResolveEndpoint { compress: bool },
    /// Open the transport to this URL.
    OpenTransport { url: String },
    /// Wait at most this long for the next frame.
    Receive { wait_ms: u64 },
    /// Send this frame, then report back.
    Send { frame: String },
    /// Release the transport, wait this long, then report back.
    Sleep { delay_secs: u64 },
    /// Release the transport; the session is over, with this outcome.
    Finish(Result<(), KookError>),
}

/// The outcome of one transition: events to deliver, in order, then the
/// notice if any, then the command.
pub struct Step {
    pub events: Vec<Signal>,
    pub notice: Option<Notice>,
    pub command: Command,
}

/// What a session is.
pub struct SessionView {
    pub phase: Phase,
    pub compress: bool,
    pub session_id: Option<String>,
    pub buffer: BufferView<Signal>,
    pub heartbeat: HeartbeatMonitor,
    pub policy: ReconnectPolicy,
}

impl SessionView {
    /// The buffer is well formed; the attempt count stays within its bound
    /// and is 0 while connected; no session id is held before the handshake;
    /// heartbeats keep the standard timing.
    pub open spec fn wf(self) -> bool {
        &&& self.buffer.wf()
        &&& self.policy.attempt <= self.policy.max_attempts <= 63
        &&& self.phase == Phase::Connected ==> self.policy.attempt == 0
        &&& (self.phase == Phase::Idle || self.phase == Phase::Connecting || self.phase == Phase::AwaitingHello
            || self.phase == Phase::Reconnecting) ==> self.session_id is None
        &&& self.heartbeat.interval == HEARTBEAT_INTERVAL_MS
        &&& self.heartbeat.ack_timeout == ACK_TIMEOUT_MS
    }
}

/// A buffer that has delivered nothing.
pub open spec fn fresh_buffer() -> BufferView<Signal> {
    BufferView { cursor: 0, pending: Map::empty() }
}

/// After a failure from `v` (`terminal` for one that is never retried):
/// either the policy allows another attempt, the session-scoped state is
/// reset and the session waits out the backoff; or the session is over.
pub open spec fn after_failure(v: SessionView, terminal: bool, w: SessionView, c: Command) -> bool {
    if !terminal && v.policy.attempt < v.policy.max_attempts {
        let f = on_failure_spec(v.policy);
        &&& w == SessionView {
            phase: Phase::Reconnecting,
            session_id: None,
            buffer: fresh_buffer(),
            policy: f.0,
            ..v
        }
        &&& f.1 matches RetryDecision::Retry { delay_secs, .. } && c == Command::Sleep { delay_secs }
    } else {
        &&& w == SessionView { phase: Phase::Terminated, ..v }
        &&& c is Finish
        &&& c->Finish_0 is Err
    }
}

/// After consulting the heartbeat monitor at `now` in the connected state:
/// send a heartbeat that reports the cursor, wait for the next frame no
/// longer than the monitor allows, or fail on a missing acknowledgment.
pub open spec fn after_tick(v: SessionView, now: u64, w: SessionView, c: Command) -> bool {
    let t = tick_spec(v.heartbeat, now);
    let v1 = SessionView { heartbeat: t.0, ..v };
    match t.1 {
        HeartbeatAction::SendHeartbeat => w == v1 && (c matches Command::Send { frame } && frame@
            == heartbeat_text(v.buffer.cursor)),
        HeartbeatAction::AwaitAck(r) => w == v1 && c == Command::Receive { wait_ms: r },
        HeartbeatAction::Idle(r) => w == v1 && c == Command::Receive { wait_ms: r },
        HeartbeatAction::Timeout => after_failure(v1, false, w, c),
    }
}

/// Once the outstanding heartbeat has gone unacknowledged for the
/// acknowledgment timeout, any step that consults the monitor ends the
/// connection, whatever frames arrived in between: frames do not postpone
/// the deadline.
pub proof fn lemma_ack_deadline(v: SessionView, now: u64, w: SessionView, c: Command)
    requires
        v.heartbeat.awaiting_ack,
        now >= v.heartbeat.last_sent,
        now - v.heartbeat.last_sent >= v.heartbeat.ack_timeout,
        after_tick(v, now, w, c),
    ensures
        w.phase == Phase::Reconnecting || w.phase == Phase::Terminated,
        c is Sleep || c is Finish,
{
}

/// The step for the handshake payload at `path` of `text`, from `v`
/// awaiting it: a readable payload with code 0 connects the session (its id
/// stored, failures forgotten, heartbeats timed from now); anything else is
/// a failed attempt.
pub open spec fn hello_step(v: SessionView, now: u64, text: Seq<char>, path: Seq<Seq<char>>, w: SessionView, r: Step) -> bool {
    &&& r.events@.len() == 0
    &&& if is_hello(text, path) && int_field_spec(text, path.push("code"@)) == Some(Some(0i64)) {
        &&& r.notice matches Some(Notice::Hello(h)) && h.code == 0 && opt_view(h.session_id) == str_field_spec(
            text,
            path.push("session_id"@),
        ).unwrap() && after_tick(
            SessionView {
                phase: Phase::Connected,
                session_id: h.session_id,
                heartbeat: fresh_monitor(now),
                policy: ReconnectPolicy { attempt: 0, ..v.policy },
                ..v
            },
            now,
            w,
            r.command,
        )
    } else {
        r.notice is None && after_failure(v, false, w, r.command)
    }
}

/// The step for signal `sig` arriving at `now`. Awaiting the handshake,
/// anything but a handshake is a failed attempt. Connected, an event goes
/// through the reorder buffer (a buffer at its bound forces a reconnect),
/// an acknowledgment clears the outstanding heartbeat, a reconnect request
/// is passed on with its code and reason and reconnects, a resume
/// acknowledgment is passed on with its session id when it has one, and
/// anything else, an event without a sequence number included, is ignored.
pub open spec fn signal_step(v: SessionView, now: u64, sig: Signal, w: SessionView, r: Step) -> bool {
    let (t, p) = (sig.d.text(), sig.d.path());
    if v.phase == Phase::AwaitingHello {
        if sig.s != KIND_HELLO {
            r.events@.len() == 0 && r.notice is None && after_failure(v, false, w, r.command)
        } else {
            hello_step(v, now, t, p, w, r)
        }
    } else {
        match kind_spec(sig.s) {
            SignalKind::Event => match sig.sn {
                Some(sn) => if overflows(v.buffer, sn) {
                    r.events@.len() == 0 && r.notice is None && after_failure(v, false, w, r.command)
                } else {
                    let o = observe_spec(v.buffer, sn, sig);
                    &&& r.events@ == o.1
                    &&& r.notice is None
                    &&& after_tick(SessionView { buffer: o.0, ..v }, now, w, r.command)
                },
                None => r.events@.len() == 0 && r.notice is None && after_tick(v, now, w, r.command),
            },
            SignalKind::HeartbeatAck => r.events@.len() == 0 && r.notice is None && after_tick(
                SessionView { heartbeat: HeartbeatMonitor { awaiting_ack: false, ..v.heartbeat }, ..v },
                now,
                w,
                r.command,
            ),
            SignalKind::ReconnectRequest => {
                &&& r.events@.len() == 0
                &&& r.notice matches Some(Notice::Reconnect(code, reason)) && code == reconnect_code(t, p)
                    && reason@ == reconnect_reason(t, p)
                &&& after_failure(v, false, w, r.command)
            },
            SignalKind::ResumeAck => {
                &&& r.events@.len() == 0
                &&& match member_str(t, p.push("session_id"@)) {
                    Some(id) => r.notice matches Some(Notice::Resume(x)) && x@ == id,
                    None => r.notice is None,
                }
                &&& after_tick(v, now, w, r.command)
            },
            _ => r.events@.len() == 0 && r.notice is None && after_tick(v, now, w, r.command),
        }
    }
}

/// A gateway session.
pub struct GatewaySession {
    phase: Phase,
    compress: bool,
    session_id: Option<String>,
    buffer: ReorderBuffer<Signal>,
    heartbeat: HeartbeatMonitor,
    policy: ReconnectPolicy,
}

impl View for GatewaySession {
    type V = SessionView;

    closed spec fn view(&self) -> SessionView {
        SessionView {
            phase: self.phase,
            compress: self.compress,
            session_id: self.session_id,
            buffer: self.buffer@,
            heartbeat: self.heartbeat,
            policy: self.policy,
        }
    }
}

fn quiet(command: Command) -> (r: Step)
    ensures
        r.events@.len() == 0,
        r.notice is None,
        r.command == command,
{
    Step { events: Vec::new(), notice: None, command }
}

impl GatewaySession {
    /// A session that has not started, with payload compression on or off.
    pub fn new(compress: bool) -> (r: Self)
        ensures
            r@.wf(),
            r@.phase == Phase::Idle,
            r@.compress == compress,
            r@.session_id is None,
            r@.buffer == fresh_buffer(),
            r@.policy == (ReconnectPolicy { attempt: 0, max_attempts: MAX_ATTEMPTS }),
    {
        GatewaySession {
            phase: Phase::Idle,
            compress,
            session_id: None,
            buffer: ReorderBuffer::new(),
            heartbeat: HeartbeatMonitor::new(0),
            policy: ReconnectPolicy::new(),
        }
    }

    /// Where the session stands.
    pub fn phase(&self) -> (r: Phase)
        ensures
            r == self@.phase,
    {
        self.phase
    }

    /// Failed attempts since the last successful handshake.
    pub fn attempt(&self) -> (r: u32)
        ensures
            r == self@.policy.attempt,
    {
        self.policy.attempt
    }

    /// The highest sequence number delivered in this session.
    pub fn cursor(&self) -> (r: i64)
        ensures
            r == self@.buffer.cursor,
    {
        self.buffer.cursor()
    }

    /// The id of the session the server granted, once connected.
    pub fn session_id(&self) -> (r: Option<String>)
        ensures
            r == self@.session_id,
    {
        self.session_id.clone()
    }

    /// Starts the session: ask for the gateway URL.
    pub fn start(&mut self) -> (r: Step)
        requires
            old(self)@.wf(),
            old(self)@.phase == Phase::Idle,
        ensures
            final(self)@ == (SessionView { phase: Phase::Connecting, ..old(self)@ }),
            r.events@.len() == 0,
            r.notice is None,
            r.command == (Command::ResolveEndpoint { compress: old(self)@.compress }),
    {
        self.phase = Phase::Connecting;
        quiet(Command::ResolveEndpoint { compress: self.compress })
    }

    /// A failure: retry under the policy, or end the session.
    fn fail(&mut self, e: KookError) -> (r: Step)
        requires
            old(self)@.wf(),
        ensures
            final(self)@.wf(),
            after_failure(old(self)@, e is Auth, final(self)@, r.command),
            r.command matches Command::Finish(out) ==> out == Err::<(), KookError>(e),
            r.events@.len() == 0,
            r.notice is None,
    {
        if !e.is_terminal() {
            let ghost p = self.policy;
            match self.policy.on_failure() {
                RetryDecision::Retry { delay_secs, .. } => {
                    self.phase = Phase::Reconnecting;
                    self.session_id = None;
                    self.buffer = ReorderBuffer::new();
                    return quiet(Command::Sleep { delay_secs });
                },
                RetryDecision::Exhausted => {},
            }
        }
        self.phase = Phase::Terminated;
        quiet(Command::Finish(Err(e)))
    }

    /// A failure of the session's own making, which is always retried
    /// while attempts remain.
    fn fail_with(&mut self, message: &str) -> (r: Step)
        requires
            old(self)@.wf(),
        ensures
            final(self)@.wf(),
            after_failure(old(self)@, false, final(self)@, r.command),
            r.events@.len() == 0,
            r.notice is None,
    {
        self.fail(KookError::WebSocket(String::from_str(message)))
    }

    /// The next command in the connected state, from the heartbeat monitor.
    fn next_command(&mut self, now: u64) -> (r: Step)
        requires
            old(self)@.wf(),
        ensures
            final(self)@.wf(),
            after_tick(old(self)@, now, final(self)@, r.command),
            r.events@.len() == 0,
            r.notice is None,
    {
        match self.heartbeat.tick(now) {
            HeartbeatAction::SendHeartbeat => quiet(Command::Send { frame: encode_heartbeat(self.buffer.cursor()) }),
            HeartbeatAction::AwaitAck(r) => quiet(Command::Receive { wait_ms: r }),
            HeartbeatAction::Idle(r) => quiet(Command::Receive { wait_ms: r }),
            HeartbeatAction::Timeout => self.fail_with("heartbeat acknowledgment timed out"),
        }
    }

    /// The directory service answered: open the stream at the gateway URL
    /// with the token, or handle the failure.
    pub fn on_endpoint(&mut self, gateway: Result<String, KookError>, token: &str) -> (r: Step)
        requires
            old(self)@.wf(),
            old(self)@.phase == Phase::Connecting,
        ensures
            final(self)@.wf(),
            r.events@.len() == 0,
            r.notice is None,
            gateway matches Ok(url) ==> final(self)@ == old(self)@ && (r.command matches Command::OpenTransport { url: u }
                && u@ == stream_url_spec(url@, token@, old(self)@.compress)),
            gateway matches Err(e) ==> after_failure(old(self)@, e is Auth, final(self)@, r.command) && (
            r.command matches Command::Finish(out) ==> out == Err::<(), KookError>(e)),
    {
        match gateway {
            Ok(url) => quiet(Command::OpenTransport { url: stream_url(url.as_str(), token, self.compress) }),
            Err(e) => self.fail(e),
        }
    }

    /// The transport is open at `now`: wait for the handshake, with a fresh
    /// heartbeat monitor.
    pub fn on_transport_open(&mut self, now: u64) -> (r: Step)
        requires
            old(self)@.wf(),
            old(self)@.phase == Phase::Connecting,
        ensures
            final(self)@.wf(),
            final(self)@ == (SessionView {
                phase: Phase::AwaitingHello,
                heartbeat: fresh_monitor(now),
                ..old(self)@
            }),
            r.events@.len() == 0,
            r.notice is None,
            r.command == (Command::Receive { wait_ms: HELLO_TIMEOUT_MS }),
    {
        self.phase = Phase::AwaitingHello;
        self.heartbeat = HeartbeatMonitor::new(now);
        quiet(Command::Receive { wait_ms: HELLO_TIMEOUT_MS })
    }

    /// The handshake payload arrived at `now`: code 0 connects the session
    /// (its id stored, failures forgotten, heartbeats timed from now); any
    /// other code is a failed attempt.
    pub fn on_hello(&mut self, now: u64, hello: HelloData) -> (r: Step)
        requires
            old(self)@.wf(),
            old(self)@.phase == Phase::AwaitingHello,
        ensures
            final(self)@.wf(),
            r.events@.len() == 0,
            hello.code == 0 ==> r.notice == Some(Notice::Hello(hello)) && after_tick(
                SessionView {
                    phase: Phase::Connected,
                    session_id: hello.session_id,
                    heartbeat: fresh_monitor(now),
                    policy: ReconnectPolicy { attempt: 0, ..old(self)@.policy },
                    ..old(self)@
                },
                now,
                final(self)@,
                r.command,
            ),
            hello.code != 0 ==> r.notice is None && after_failure(old(self)@, false, final(self)@, r.command),
    {
        if hello.code == 0 {
            self.phase = Phase::Connected;
            self.session_id = hello.session_id.clone();
            self.policy.reset();
            self.heartbeat = HeartbeatMonitor::new(now);
            let mut step = self.next_command(now);
            step.notice = Some(Notice::Hello(hello));
            step
        } else {
            self.fail_with("handshake rejected")
        }
    }

    /// The server asked for a reconnect: tell the consumer, reset the
    /// session-scoped state and reconnect under the policy.
    pub fn on_reconnect_request(&mut self, code: i32, reason: String) -> (r: Step)
        requires
            old(self)@.wf(),
        ensures
            final(self)@.wf(),
            r.events@.len() == 0,
            r.notice == Some(Notice::Reconnect(code, reason)),
            after_failure(old(self)@, false, final(self)@, r.command),
    {
        let mut step = self.fail_with("reconnect requested by the server");
        step.notice = Some(Notice::Reconnect(code, reason));
        step
    }

    /// An event numbered `sn` arrived at `now` on a connected session: the
    /// reorder buffer decides what is delivered; a buffer at its bound
    /// forces a reconnect.
    pub fn on_event(&mut self, now: u64, sn: i64, signal: Signal) -> (r: Step)
        requires
            old(self)@.wf(),
            old(self)@.phase == Phase::Connected,
        ensures
            final(self)@.wf(),
            r.notice is None,
            overflows(old(self)@.buffer, sn) ==> r.events@.len() == 0 && after_failure(
                old(self)@,
                false,
                final(self)@,
                r.command,
            ),
            !overflows(old(self)@.buffer, sn) ==> {
                let o = observe_spec(old(self)@.buffer, sn, signal);
                &&& r.events@ == o.1
                &&& after_tick(SessionView { buffer: o.0, ..old(self)@ }, now, final(self)@, r.command)
            },
    {
        match self.buffer.observe(sn, signal) {
            Some(run) => {
                let mut step = self.next_command(now);
                step.events = run;
                step
            },
            None => self.fail_with("too many events held back"),
        }
    }

    /// A decoded signal arrived at `now`. Awaiting the handshake, anything
    /// but a handshake is a failed attempt. Connected, events go through the
    /// reorder buffer, an acknowledgment clears the outstanding heartbeat, a
    /// reconnect request reconnects, a resume acknowledgment is passed on,
    /// and other kinds are ignored.
    pub fn on_signal(&mut self, now: u64, signal: Signal) -> (r: Step)
        requires
            old(self)@.wf(),
            old(self)@.phase == Phase::AwaitingHello || old(self)@.phase == Phase::Connected,
        ensures
            final(self)@.wf(),
            signal_step(old(self)@, now, signal, final(self)@, r),
    {
        if self.phase == Phase::AwaitingHello {
            if signal.s != KIND_HELLO {
                return self.fail_with("expected the handshake first");
            }
            return match decode_hello(&signal.d) {
                Some(hello) => self.on_hello(now, hello),
                None => self.fail_with("malformed handshake"),
            };
        }
        match signal_kind(signal.s) {
            SignalKind::Event => match signal.sn {
                Some(sn) => self.on_event(now, sn, signal),
                None => self.next_command(now),
            },
            SignalKind::HeartbeatAck => {
                self.heartbeat.on_ack();
                self.next_command(now)
            },
            SignalKind::ReconnectRequest => {
                let (code, reason) = decode_reconnect(&signal.d);
                self.on_reconnect_request(code, reason)
            },
            SignalKind::ResumeAck => {
                let mut step = self.next_command(now);
                if let Some(id) = decode_resume(&signal.d) {
                    step.notice = Some(Notice::Resume(id));
                }
                step
            },
            _ => self.next_command(now),
        }
    }

    /// A frame arrived at `now`. One that does not decode fails the attempt
    /// while awaiting the handshake, and is dropped once connected.
    pub fn on_frame(&mut self, now: u64, frame: Frame) -> (r: Step)
        requires
            old(self)@.wf(),
            old(self)@.phase == Phase::AwaitingHello || old(self)@.phase == Phase::Connected,
        ensures
            final(self)@.wf(),
            undecodable(frame, old(self)@.compress) && old(self)@.phase == Phase::AwaitingHello ==> r.events@.len()
                == 0 && r.notice is None && after_failure(old(self)@, false, final(self)@, r.command),
            undecodable(frame, old(self)@.compress) && old(self)@.phase == Phase::Connected ==> r.events@.len() == 0
                && r.notice is None && after_tick(old(self)@, now, final(self)@, r.command),
            match frame_text(frame, old(self)@.compress) {
                Some(t) => is_signal(t) ==> exists|sig: Signal|
                    sig.s == code_of(t).unwrap() && sig.sn == sn_of(t).unwrap() && sig.d.text() == t && sig.d.path()
                        == top("d"@) && #[trigger] signal_step(old(self)@, now, sig, final(self)@, r),
                None => true,
            },
    {
        match decode(frame, self.compress) {
            Ok(signal) => {
                let ghost g = signal;
                let r = self.on_signal(now, signal);
                assert(signal_step(old(self)@, now, g, self@, r));
                r
            },
            Err(_) => {
                if self.phase == Phase::AwaitingHello {
                    self.fail_with("undecodable frame before the handshake")
                } else {
                    self.next_command(now)
                }
            },
        }
    }

    /// The wait for a frame ran out at `now`: fatal to an attempt awaiting
    /// the handshake, a heartbeat check once connected.
    pub fn on_receive_timeout(&mut self, now: u64) -> (r: Step)
        requires
            old(self)@.wf(),
            old(self)@.phase == Phase::AwaitingHello || old(self)@.phase == Phase::Connected,
        ensures
            final(self)@.wf(),
            r.events@.len() == 0,
            r.notice is None,
            old(self)@.phase == Phase::AwaitingHello ==> after_failure(old(self)@, false, final(self)@, r.command),
            old(self)@.phase == Phase::Connected ==> after_tick(old(self)@, now, final(self)@, r.command),
    {
        if self.phase == Phase::AwaitingHello {
            self.fail_with("no handshake in time")
        } else {
            self.next_command(now)
        }
    }

    /// The heartbeat frame was sent at `now`.
    pub fn on_sent(&mut self, now: u64) -> (r: Step)
        requires
            old(self)@.wf(),
            old(self)@.phase == Phase::Connected,
        ensures
            final(self)@.wf(),
            r.events@.len() == 0,
            r.notice is None,
            after_tick(old(self)@, now, final(self)@, r.command),
    {
        self.next_command(now)
    }

    /// The transport failed, closed, or could not be opened.
    pub fn on_transport_error(&mut self, e: KookError) -> (r: Step)
        requires
            old(self)@.wf(),
            old(self)@.phase == Phase::Connecting || old(self)@.phase == Phase::AwaitingHello
                || old(self)@.phase == Phase::Connected,
        ensures
            final(self)@.wf(),
            r.events@.len() == 0,
            r.notice is None,
            after_failure(old(self)@, e is Auth, final(self)@, r.command),
            r.command matches Command::Finish(out) ==> out == Err::<(), KookError>(e),
    {
        self.fail(e)
    }

    /// The backoff delay is over: ask for the gateway URL again.
    pub fn on_delay_elapsed(&mut self) -> (r: Step)
        requires
            old(self)@.wf(),
            old(self)@.phase == Phase::Reconnecting,
        ensures
            final(self)@ == (SessionView { phase: Phase::Connecting, ..old(self)@ }),
            r.events@.len() == 0,
            r.notice is None,
            r.command == (Command::ResolveEndpoint { compress: old(self)@.compress }),
    {
        self.phase = Phase::Connecting;
        quiet(Command::ResolveEndpoint { compress: self.compress })
    }

    /// The application cancels the session: release the transport and end
    /// without error.
    pub fn cancel(&mut self) -> (r: Step)
        requires
            old(self)@.wf(),
        ensures
            final(self)@ == (SessionView { phase: Phase::Terminated, ..old(self)@ }),
            r.events@.len() == 0,
            r.notice is None,
            r.command == Command::Finish(Ok(())),
    {
        self.phase = Phase::Terminated;
        quiet(Command::Finish(Ok(())))
    }
}

} // verus!
