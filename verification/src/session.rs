//! [`Ecr17Session`]: the decisions of one ECR17 request/response exchange, without I/O.
//!
//! The session frames the request, runs the physical `ACK`/`NAK` handshake with bounded
//! retransmission, then waits for the application response while forwarding progress
//! (`SOH`) and receipt (`S`) messages and acknowledging incoming frames by their LRC. It is
//! a state machine: the caller performs each [`Step`] (send, wait, sleep-and-resend) and
//! reports back what happened (`on_sent`, `on_frame`, `on_timeout`, `on_disconnected`). A
//! fresh exchange always starts from a clean state, so the session is reusable after a drop;
//! it never replays a request on its own.
use vstd::prelude::*;
use crate::codec::{
    DecodedPacket, PacketCodec, PacketType, PacketView, is_first_index, application_frame,
    control_frame, decode_spec, ACK, ETX, NAK, SOH, STX, EOT,
};
use crate::error::{Ecr17Error, ErrorView};
use crate::lrc::LrcMode;
use crate::text::{bytes_of, utf8_lossy, string_from_utf8_lossy, copy_bytes};

verus! {

/// Session timing / retry configuration.
#[derive(Debug, Clone, Copy, PartialEq, Eq, Structural)]
pub struct SessionConfig {
    /// LRC framing mode.
    pub lrc_mode: LrcMode,
    /// Wait for the physical `ACK`/`NAK` (ms).
    pub ack_timeout_ms: u64,
    /// Wait for the application response (ms).
    pub response_timeout_ms: u64,
    /// Retransmissions on `NAK` / timeout.
    pub retry_count: u32,
    /// Delay between retransmissions (ms).
    pub retry_delay_ms: u64,
    /// After the result, keep forwarding receipt lines until this many ms of silence
    /// (`0` = off).
    pub receipt_drain_ms: u64,
}

impl SessionConfig {
    /// The default configuration: standard LRC, 2 s ACK wait, 60 s response wait, 3
    /// retransmissions 200 ms apart, no receipt draining.
    pub fn default_config() -> (c: Self)
        ensures
            c == (SessionConfig {
                lrc_mode: LrcMode::Std,
                ack_timeout_ms: 2000,
                response_timeout_ms: 60_000,
                retry_count: 3,
                retry_delay_ms: 200,
                receipt_drain_ms: 0,
            }),
    {
        SessionConfig {
            lrc_mode: LrcMode::Std,
            ack_timeout_ms: 2000,
            response_timeout_ms: 60_000,
            retry_count: 3,
            retry_delay_ms: 200,
            receipt_drain_ms: 0,
        }
    }
}

impl Default for SessionConfig {
    fn default() -> (c: Self)
        ensures
            c == (SessionConfig {
                lrc_mode: LrcMode::Std,
                ack_timeout_ms: 2000,
                response_timeout_ms: 60_000,
                retry_count: 3,
                retry_delay_ms: 200,
                receipt_drain_ms: 0,
            }),
    {
        SessionConfig::default_config()
    }
}

/// Where an exchange stands.
#[derive(Debug, Clone, Copy, PartialEq, Eq, Structural)]
pub enum Phase {
    /// No exchange started yet.
    Idle,
    /// Waiting for the physical `ACK` of the current request frame.
    AwaitAck,
    /// Waiting for the application response.
    AwaitResult,
    /// Result received; forwarding late receipt lines until the terminal is quiet.
    Draining,
    /// The exchange ended.
    Finished,
}

/// How long to wait for the next frame.
#[derive(Debug, Clone, Copy, PartialEq, Eq, Structural)]
pub enum Deadline {
    /// Keep the deadline of the wait in progress.
    Keep,
    /// Start a new deadline this many ms from now.
    Reset(u64),
}

/// What the caller must do next.
#[derive(Debug)]
pub enum Step {
    /// Send this application frame, then report with `on_sent`.
    Send(Vec<u8>),
    /// Sleep `delay_ms`, send `frame` again, then report with `on_sent`.
    Retransmit {
        /// Delay before re-sending (ms).
        delay_ms: u64,
        /// The frame to re-send.
        frame: Vec<u8>,
    },
    /// Wait for the next frame until the deadline; report with `on_frame`, `on_timeout` or
    /// `on_disconnected`.
    Wait(Deadline),
    /// The exchange ended: the application result (none for ACK-only commands) or the error.
    Done(Result<Option<DecodedPacket>, Ecr17Error>),
}

/// A side effect to carry out, in order, before the next step.
#[derive(Debug)]
pub enum Effect {
    /// Send this control frame (`ACK`/`NAK`), ignoring a send failure.
    Control(Vec<u8>),
    /// Forward a progress message.
    Progress(String),
    /// Forward a receipt line.
    Receipt(String),
}

/// The answer to an event: effects to carry out, then the next step.
#[derive(Debug)]
pub struct Reaction {
    /// Effects, in order.
    pub effects: Vec<Effect>,
    /// The next step.
    pub next: Step,
}

/// The plain-value form of a [`Step`].
pub enum StepView {
    Send(Seq<u8>),
    Retransmit(u64, Seq<u8>),
    Wait(Deadline),
    Done(Result<Option<PacketView>, ErrorView>),
}

/// The plain-value form of an [`Effect`].
pub enum EffectView {
    Control(Seq<u8>),
    Progress(Seq<char>),
    Receipt(Seq<char>),
}

impl View for Step {
    type V = StepView;

    open spec fn view(&self) -> StepView {
        match self {
            Step::Send(f) => StepView::Send(f@),
            Step::Retransmit { delay_ms, frame } => StepView::Retransmit(*delay_ms, frame@),
            Step::Wait(d) => StepView::Wait(*d),
            Step::Done(r) => StepView::Done(
                match r {
                    Ok(Some(p)) => Ok(Some(p.view_packet())),
                    Ok(None) => Ok(None),
                    Err(e) => Err(e@),
                },
            ),
        }
    }
}

impl View for Effect {
    type V = EffectView;

    open spec fn view(&self) -> EffectView {
        match self {
            Effect::Control(f) => EffectView::Control(f@),
            Effect::Progress(s) => EffectView::Progress(s@),
            Effect::Receipt(s) => EffectView::Receipt(s@),
        }
    }
}

impl Reaction {
    /// The effects as plain values.
    pub open spec fn effects_view(&self) -> Seq<EffectView> {
        self.effects@.map_values(|e: Effect| e@)
    }
}

// ---------------------------------------------------------------------------
// Splitting the inbound byte stream into frames
// ---------------------------------------------------------------------------

/// The first complete frame at the front of the inbound buffer `rx`, after dropping leading
/// bytes that start no valid frame, and the buffer that remains: a control frame is the 3
/// bytes `ACK`/`NAK`, `ETX`, and the LRC of the control byte under `mode` (a lead byte not
/// followed by them is dropped), `STX` frames run to `ETX` plus the LRC, `SOH` frames run to
/// `EOT`. No frame while the front frame is incomplete.
pub open spec fn extract_spec(mode: LrcMode, rx: Seq<u8>) -> (Option<Seq<u8>>, Seq<u8>)
    decreases rx.len(),
{
    if rx.len() == 0 {
        (None, rx)
    } else if rx[0] == ACK || rx[0] == NAK {
        if rx.len() >= 2 && rx[1] != ETX {
            extract_spec(mode, rx.drop_first())
        } else if rx.len() < 3 {
            (None, rx)
        } else if rx[2] == mode.spec_compute(seq![rx[0]]) {
            (Some(rx.subrange(0, 3)), rx.subrange(3, rx.len() as int))
        } else {
            extract_spec(mode, rx.drop_first())
        }
    } else if rx[0] == STX {
        if exists|e: int| is_first_index(rx, ETX, e) {
            let e = choose|e: int| is_first_index(rx, ETX, e);
            if e + 1 >= rx.len() {
                (None, rx)
            } else {
                (Some(rx.subrange(0, e + 2)), rx.subrange(e + 2, rx.len() as int))
            }
        } else {
            (None, rx)
        }
    } else if rx[0] == SOH {
        if exists|e: int| is_first_index(rx, EOT, e) {
            let e = choose|e: int| is_first_index(rx, EOT, e);
            (Some(rx.subrange(0, e + 1)), rx.subrange(e + 1, rx.len() as int))
        } else {
            (None, rx)
        }
    } else {
        extract_spec(mode, rx.drop_first())
    }
}

/// A payload whose message code (position 10) is `'S'` is a receipt line.
pub open spec fn is_receipt(payload: Seq<u8>) -> bool {
    payload.len() > 9 && payload[9] == 0x53
}


// ---------------------------------------------------------------------------
// Transitions
// ---------------------------------------------------------------------------

/// The outcome of an event: the new state, the effects, the next step.
pub type Transition = (SessionState, Seq<EffectView>, StepView);

/// The effect that sends the control frame `c`.
pub open spec fn control_effect(cfg: SessionConfig, c: u8) -> EffectView {
    EffectView::Control(control_frame(cfg.lrc_mode, c))
}

/// Keep waiting with the same deadline.
pub open spec fn keep_waiting(s: SessionState) -> Transition {
    (s, Seq::<EffectView>::empty(), StepView::Wait(Deadline::Keep))
}

/// The exchange ends with `outcome`.
pub open spec fn finish(s: SessionState, outcome: Result<Option<PacketView>, ErrorView>) -> Transition {
    (SessionState { phase: Phase::Finished, ..s }, Seq::<EffectView>::empty(), StepView::Done(outcome))
}

/// The drain ends (quiet or dropped): the exchange ends with the held result, handed out.
pub open spec fn finish_drained(s: SessionState) -> Transition {
    (
        SessionState { phase: Phase::Finished, result: None, ..s },
        Seq::<EffectView>::empty(),
        StepView::Done(Ok(s.result)),
    )
}

/// A frame received while waiting for the application response: progress is forwarded; an
/// application frame is `NAK`ed on a bad LRC, otherwise `ACK`ed and either forwarded as a
/// receipt line or taken as the result (then receipts are drained if configured); an
/// unknown frame is `NAK`ed; stray `ACK`/`NAK` frames are ignored.
pub open spec fn result_frame(cfg: SessionConfig, s: SessionState, pkt: PacketView) -> Transition {
    let payload = pkt.1;
    if pkt.0 is Progress {
        (s, seq![EffectView::Progress(utf8_lossy(payload))], StepView::Wait(Deadline::Keep))
    } else if pkt.0 is Application {
        if !pkt.2 {
            (s, seq![control_effect(cfg, NAK)], StepView::Wait(Deadline::Keep))
        } else if is_receipt(payload) {
            (
                s,
                seq![control_effect(cfg, ACK), EffectView::Receipt(utf8_lossy(payload))],
                StepView::Wait(Deadline::Keep),
            )
        } else if cfg.receipt_drain_ms == 0 {
            (
                SessionState { phase: Phase::Finished, ..s },
                seq![control_effect(cfg, ACK)],
                StepView::Done(Ok(Some(pkt))),
            )
        } else {
            (
                SessionState { phase: Phase::Draining, result: Some(pkt), ..s },
                seq![control_effect(cfg, ACK)],
                StepView::Wait(Deadline::Reset(cfg.receipt_drain_ms)),
            )
        }
    } else if pkt.0 is Unknown {
        (s, seq![control_effect(cfg, NAK)], StepView::Wait(Deadline::Keep))
    } else {
        keep_waiting(s)
    }
}

/// Starts waiting for the application response (response deadline from now), first
/// handling a response that already arrived during the handshake.
pub open spec fn enter_result_phase(cfg: SessionConfig, s: SessionState) -> Transition {
    let s1 = SessionState { phase: Phase::AwaitResult, pending: None, ..s };
    match s.pending {
        Some(p) => {
            let t = result_frame(cfg, s1, p);
            (t.0, t.1, if t.2 == StepView::Wait(Deadline::Keep) {
                StepView::Wait(Deadline::Reset(cfg.response_timeout_ms))
            } else {
                t.2
            })
        },
        None => (s1, Seq::<EffectView>::empty(), StepView::Wait(Deadline::Reset(cfg.response_timeout_ms))),
    }
}

/// The handshake of the current frame completed: send the additional-data frame if one is
/// due, else end (ACK-only commands) or wait for the response.
pub open spec fn after_handshake(cfg: SessionConfig, s: SessionState) -> Transition {
    match s.additional {
        Some(f) => (
            SessionState { frame: f, additional: None, sending: true, retransmitting: false, ..s },
            Seq::<EffectView>::empty(),
            StepView::Send(f),
        ),
        None => if s.ack_only {
            finish(s, Ok(None))
        } else {
            enter_result_phase(cfg, s)
        },
    }
}

/// After a `NAK` or an ACK timeout: fail once `retry_count` retransmissions were made,
/// otherwise retransmit after the configured delay.
pub open spec fn retry_or_fail(cfg: SessionConfig, s: SessionState, err: ErrorView) -> Transition {
    if s.attempts > cfg.retry_count {
        finish(s, Err(err))
    } else {
        (
            SessionState { sending: true, retransmitting: true, ..s },
            Seq::<EffectView>::empty(),
            StepView::Retransmit(cfg.retry_delay_ms, s.frame),
        )
    }
}

/// A frame received while draining receipts: application frames are `ACK`ed (receipt lines
/// forwarded) or `NAK`ed on a bad LRC, progress is forwarded; the drain deadline restarts.
pub open spec fn drain_frame(cfg: SessionConfig, s: SessionState, pkt: PacketView) -> Transition {
    let w = StepView::Wait(Deadline::Reset(cfg.receipt_drain_ms));
    if pkt.0 is Application {
        if pkt.2 {
            if is_receipt(pkt.1) {
                (s, seq![control_effect(cfg, ACK), EffectView::Receipt(utf8_lossy(pkt.1))], w)
            } else {
                (s, seq![control_effect(cfg, ACK)], w)
            }
        } else {
            (s, seq![control_effect(cfg, NAK)], w)
        }
    } else if pkt.0 is Progress {
        (s, seq![EffectView::Progress(utf8_lossy(pkt.1))], w)
    } else {
        (s, Seq::<EffectView>::empty(), w)
    }
}

/// The reaction to a decoded frame.
pub open spec fn on_frame_spec(cfg: SessionConfig, s: SessionState, pkt: PacketView) -> Transition {
    match s.phase {
        Phase::AwaitAck => if pkt.0 is Ack {
            after_handshake(cfg, s)
        } else if pkt.0 is Nak {
            retry_or_fail(cfg, s, ErrorView::Nak(s.attempts))
        } else if pkt.0 is Application {
            after_handshake(cfg, SessionState { pending: Some(pkt), ..s })
        } else {
            keep_waiting(s)
        },
        Phase::AwaitResult => result_frame(cfg, s, pkt),
        Phase::Draining => drain_frame(cfg, s, pkt),
        _ => keep_waiting(s),
    }
}

/// The reaction to the deadline passing with no frame.
pub open spec fn on_timeout_spec(cfg: SessionConfig, s: SessionState) -> Transition {
    match s.phase {
        Phase::AwaitAck => retry_or_fail(cfg, s, ErrorView::AckTimeout(s.attempts)),
        Phase::AwaitResult => finish(s, Err(ErrorView::ResponseTimeout)),
        Phase::Draining => finish_drained(s),
        _ => keep_waiting(s),
    }
}

/// The reaction to the transport dropping.
pub open spec fn on_disconnected_spec(cfg: SessionConfig, s: SessionState) -> Transition {
    match s.phase {
        Phase::Draining => finish_drained(s),
        Phase::AwaitAck | Phase::AwaitResult => finish(s, Err(ErrorView::Disconnected)),
        _ => keep_waiting(s),
    }
}

/// The reaction to the outcome of a send: a failed send ends the exchange; otherwise the
/// attempt is counted and the ACK deadline starts.
pub open spec fn on_sent_spec(cfg: SessionConfig, s: SessionState, failure: Option<ErrorView>) -> Transition {
    match failure {
        Some(e) => finish(SessionState { sending: false, retransmitting: false, ..s }, Err(e)),
        None => (
            SessionState {
                sending: false,
                retransmitting: false,
                attempts: if s.retransmitting { (s.attempts + 1) as u32 } else { 1 },
                ..s
            },
            Seq::<EffectView>::empty(),
            StepView::Wait(Deadline::Reset(cfg.ack_timeout_ms)),
        ),
    }
}

/// The state in which an exchange of `frame` starts: buffers and stashed results cleared.
pub open spec fn begin_state(frame: Seq<u8>, additional: Option<Seq<u8>>, ack_only: bool) -> SessionState {
    SessionState {
        phase: Phase::AwaitAck,
        frame,
        attempts: 0,
        sending: true,
        retransmitting: false,
        additional,
        ack_only,
        pending: None,
        result: None,
        rx: Seq::<u8>::empty(),
    }
}

/// What every reachable state satisfies: a handshake has sent its frame between 1 and
/// `retry_count + 1` times, a retransmission is only asked for within the limit, a draining
/// session holds its result, and sends happen only during a handshake.
pub open spec fn inv(cfg: SessionConfig, s: SessionState) -> bool {
    &&& (s.phase is AwaitAck && !s.sending ==> 1 <= s.attempts <= cfg.retry_count + 1)
    &&& (s.phase is AwaitAck && s.sending && s.retransmitting ==> 1 <= s.attempts <= cfg.retry_count)
    &&& (s.sending ==> s.phase is AwaitAck)
    &&& (s.phase is Draining ==> s.result is Some)
    &&& (s.result matches Some(p) ==> is_response(p))
}

/// A frame that can end an exchange as its response: an application frame with a valid LRC
/// that is not a receipt line.
pub open spec fn is_response(p: PacketView) -> bool {
    p.0 is Application && p.2 && !is_receipt(p.1)
}

/// The session is waiting for a frame, a timeout or a drop.
pub open spec fn waiting(s: SessionState) -> bool {
    (s.phase is AwaitAck || s.phase is AwaitResult || s.phase is Draining) && !s.sending
}

// ---------------------------------------------------------------------------
// Session state
// ---------------------------------------------------------------------------

/// The plain-value state of a session.
pub struct SessionState {
    /// Where the exchange stands.
    pub phase: Phase,
    /// The request frame of the handshake in progress.
    pub frame: Seq<u8>,
    /// How many times `frame` has been sent.
    pub attempts: u32,
    /// A send was asked for and not yet reported.
    pub sending: bool,
    /// That send is a retransmission.
    pub retransmitting: bool,
    /// The additional-data frame still to be handshaked, if any.
    pub additional: Option<Seq<u8>>,
    /// The exchange ends at the `ACK` (no application response).
    pub ack_only: bool,
    /// An application response received during the handshake.
    pub pending: Option<PacketView>,
    /// The result held while draining receipts.
    pub result: Option<PacketView>,
    /// Inbound bytes not yet split into frames.
    pub rx: Seq<u8>,
}

/// Drives ECR17 exchanges as a state machine.
#[derive(Debug)]
pub struct Ecr17Session {
    config: SessionConfig,
    codec: PacketCodec,
    rx_buffer: Vec<u8>,
    pending_result: Option<DecodedPacket>,
    phase: Phase,
    frame: Vec<u8>,
    attempts: u32,
    sending: bool,
    retransmitting: bool,
    additional: Option<Vec<u8>>,
    ack_only: bool,
    result: Option<DecodedPacket>,
}

/// The packet view of an optional packet.
pub open spec fn opt_packet(p: Option<DecodedPacket>) -> Option<PacketView> {
    match p {
        Some(p) => Some(p.view_packet()),
        None => None,
    }
}

impl View for Ecr17Session {
    type V = SessionState;

    closed spec fn view(&self) -> SessionState {
        SessionState {
            phase: self.phase,
            frame: self.frame@,
            attempts: self.attempts,
            sending: self.sending,
            retransmitting: self.retransmitting,
            additional: match self.additional {
                Some(f) => Some(f@),
                None => None,
            },
            ack_only: self.ack_only,
            pending: opt_packet(self.pending_result),
            result: opt_packet(self.result),
            rx: self.rx_buffer@,
        }
    }
}

impl Ecr17Session {
    /// The configuration.
    pub closed spec fn spec_config(&self) -> SessionConfig {
        self.config
    }

    /// Internal consistency: the codec uses the configured LRC mode.
    pub closed spec fn wf(&self) -> bool {
        self.codec.mode() == self.config.lrc_mode
    }

    /// Creates an idle session with `config`.
    pub fn new(config: SessionConfig) -> (s: Self)
        ensures
            s.wf(),
            s.spec_config() == config,
            s@.phase == Phase::Idle,
            s@.rx == Seq::<u8>::empty(),
            s@.pending is None,
    {
        Ecr17Session {
            config,
            codec: PacketCodec::new(config.lrc_mode),
            rx_buffer: Vec::new(),
            pending_result: None,
            phase: Phase::Idle,
            frame: Vec::new(),
            attempts: 0,
            sending: false,
            retransmitting: false,
            additional: None,
            ack_only: false,
            result: None,
        }
    }

    /// The configuration.
    pub fn config(&self) -> (c: SessionConfig)
        ensures
            c == self.spec_config(),
    {
        self.config
    }

    /// Where the exchange stands.
    pub fn phase(&self) -> (p: Phase)
        ensures
            p == self@.phase,
    {
        self.phase
    }

    /// Whether a send was asked for and not yet reported.
    pub fn is_sending(&self) -> (b: bool)
        ensures
            b == self@.sending,
    {
        self.sending
    }

    /// Appends inbound bytes to the buffer.
    pub fn push_bytes(&mut self, bytes: &[u8])
        requires
            old(self).wf(),
        ensures
            final(self).wf(),
            final(self)@ == (SessionState { rx: old(self)@.rx + bytes@, ..old(self)@ }),
            final(self).spec_config() == old(self).spec_config(),
    {
        let ghost start = self.rx_buffer@;
        let mut i: usize = 0;
        while i < bytes.len()
            invariant
                0 <= i <= bytes@.len(),
                self.rx_buffer@ == start + bytes@.subrange(0, i as int),
                self.config == old(self).config,
                self.codec == old(self).codec,
                self.pending_result == old(self).pending_result,
                self.phase == old(self).phase,
                self.frame == old(self).frame,
                self.attempts == old(self).attempts,
                self.sending == old(self).sending,
                self.retransmitting == old(self).retransmitting,
                self.additional == old(self).additional,
                self.ack_only == old(self).ack_only,
                self.result == old(self).result,
            decreases bytes@.len() - i,
        {
            self.rx_buffer.push(bytes[i]);
            i = i + 1;
            proof {
                assert(self.rx_buffer@ =~= start + bytes@.subrange(0, i as int));
            }
        }
        proof {
            assert(bytes@.subrange(0, bytes@.len() as int) =~= bytes@);
        }
    }

    /// Takes one complete frame off the front of the inbound buffer (dropping leading bytes
    /// that start no frame).
    fn extract_frame(&mut self) -> (r: Option<Vec<u8>>)
        ensures
            (match r {
                Some(f) => Some(f@),
                None => None,
            }, final(self).rx_buffer@) == extract_spec(old(self).config.lrc_mode, old(self).rx_buffer@),
            final(self).config == old(self).config,
            final(self).codec == old(self).codec,
            final(self).pending_result == old(self).pending_result,
            final(self).phase == old(self).phase,
            final(self).frame == old(self).frame,
            final(self).attempts == old(self).attempts,
            final(self).sending == old(self).sending,
            final(self).retransmitting == old(self).retransmitting,
            final(self).additional == old(self).additional,
            final(self).ack_only == old(self).ack_only,
            final(self).result == old(self).result,
    {
        loop
            invariant
                extract_spec(self.config.lrc_mode, self.rx_buffer@)
                    == extract_spec(old(self).config.lrc_mode, old(self).rx_buffer@),
                self.config == old(self).config,
                self.codec == old(self).codec,
                self.pending_result == old(self).pending_result,
                self.phase == old(self).phase,
                self.frame == old(self).frame,
                self.attempts == old(self).attempts,
                self.sending == old(self).sending,
                self.retransmitting == old(self).retransmitting,
                self.additional == old(self).additional,
                self.ack_only == old(self).ack_only,
                self.result == old(self).result,
            decreases self.rx_buffer@.len(),
        {
            let n = self.rx_buffer.len();
            if n == 0 {
                return None;
            }
            let first = self.rx_buffer[0];
            if (first == ACK || first == NAK) && !(n >= 2 && self.rx_buffer[1] != ETX) {
                if n < 3 {
                    return None;
                }
                let one = [first];
                let lrc = self.config.lrc_mode.compute(&one);
                proof {
                    assert(one@ =~= seq![first]);
                }
                if self.rx_buffer[2] == lrc {
                    let mut frame = self.rx_buffer.split_off(3);
                    std::mem::swap(&mut frame, &mut self.rx_buffer);
                    return Some(frame);
                }
            } else if first == STX || first == SOH {
                let end_byte = if first == STX { ETX } else { EOT };
                let mut e: usize = 0;
                while e < n && self.rx_buffer[e] != end_byte
                    invariant
                        0 <= e <= n,
                        n == self.rx_buffer@.len(),
                        forall|j: int| 0 <= j < e ==> self.rx_buffer@[j] != end_byte,
                    decreases n - e,
                {
                    e = e + 1;
                }
                if e == n {
                    proof {
                        assert(!exists|k: int| is_first_index(self.rx_buffer@, end_byte, k));
                    }
                    return None;
                }
                proof {
                    let b = self.rx_buffer@;
                    assert(is_first_index(b, end_byte, e as int));
                    let c = choose|k: int| is_first_index(b, end_byte, k);
                    assert(c == e as int) by {
                        if c < e as int {
                            assert(b[c] != end_byte);
                        }
                        if c > e as int {
                            assert(b[e as int] != end_byte);
                        }
                    }
                }
                let take = if first == STX {
                    if e + 1 >= n {
                        return None;
                    }
                    e + 2
                } else {
                    e + 1
                };
                let mut frame = self.rx_buffer.split_off(take);
                std::mem::swap(&mut frame, &mut self.rx_buffer);
                return Some(frame);
            }
            proof {
                assert(self.rx_buffer@.remove(0) =~= self.rx_buffer@.drop_first());
            }
            self.rx_buffer.remove(0);
        }
    }

    /// The next complete frame of the inbound buffer, decoded; `None` while no complete
    /// frame is buffered.
    pub fn next_frame(&mut self) -> (r: Option<DecodedPacket>)
        requires
            old(self).wf(),
        ensures
            final(self).wf(),
            final(self).spec_config() == old(self).spec_config(),
            final(self)@ == (SessionState { rx: extract_spec(old(self).spec_config().lrc_mode, old(self)@.rx).1, ..old(self)@ }),
            match extract_spec(old(self).spec_config().lrc_mode, old(self)@.rx).0 {
                Some(f) => r matches Some(p) && p.view_packet() == decode_spec(old(self).spec_config().lrc_mode, f),
                None => r is None,
            },
    {
        match self.extract_frame() {
            Some(f) => Some(self.codec.decode(f.as_slice())),
            None => None,
        }
    }

    /// The effect that sends the control frame `c`.
    fn control(&self, c: u8) -> (e: Effect)
        requires
            self.wf(),
        ensures
            e@ == control_effect(self.spec_config(), c),
    {
        Effect::Control(self.codec.encode_control(c))
    }

    /// A reaction with no effects.
    fn plain(next: Step) -> (r: Reaction)
        ensures
            r.effects_view() == Seq::<EffectView>::empty(),
            r.next == next,
    {
        let r = Reaction { effects: Vec::new(), next };
        proof {
            assert(r.effects_view() =~= Seq::<EffectView>::empty());
        }
        r
    }

    /// A reaction with one effect.
    fn one(e: Effect, next: Step) -> (r: Reaction)
        ensures
            r.effects_view() == seq![e@],
            r.next == next,
    {
        let mut effects: Vec<Effect> = Vec::new();
        effects.push(e);
        let r = Reaction { effects, next };
        proof {
            assert(r.effects_view() =~= seq![e@]);
        }
        r
    }

    /// A reaction with two effects.
    fn two(e1: Effect, e2: Effect, next: Step) -> (r: Reaction)
        ensures
            r.effects_view() == seq![e1@, e2@],
            r.next == next,
    {
        let mut effects: Vec<Effect> = Vec::new();
        effects.push(e1);
        effects.push(e2);
        let r = Reaction { effects, next };
        proof {
            assert(r.effects_view() =~= seq![e1@, e2@]);
        }
        r
    }

    /// Starts an exchange: clears the inbound buffer and any stashed result, and asks for
    /// the request frame to be sent.
    fn begin(&mut self, request_payload: &str, additional_payload: Option<&str>, ack_only: bool) -> (step: Step)
        requires
            old(self).wf(),
        ensures
            final(self).wf(),
            final(self).spec_config() == old(self).spec_config(),
            final(self)@ == begin_state(
                application_frame(old(self).spec_config().lrc_mode, bytes_of(request_payload@)),
                match additional_payload {
                    Some(a) => Some(application_frame(old(self).spec_config().lrc_mode, bytes_of(a@))),
                    None => None,
                },
                ack_only,
            ),
            step@ == StepView::Send(application_frame(old(self).spec_config().lrc_mode, bytes_of(request_payload@))),
    {
        self.rx_buffer = Vec::new();
        self.pending_result = None;
        self.result = None;
        let frame = self.codec.encode_application(request_payload.as_bytes());
        let sent = copy_bytes(&frame);
        self.frame = frame;
        self.additional = match additional_payload {
            Some(a) => Some(self.codec.encode_application(a.as_bytes())),
            None => None,
        };
        self.ack_only = ack_only;
        self.phase = Phase::AwaitAck;
        self.attempts = 0;
        self.sending = true;
        self.retransmitting = false;
        proof {
            assert(self.rx_buffer@ =~= Seq::<u8>::empty());
        }
        Step::Send(sent)
    }

    /// Starts an exchange of `request_payload` (the application message without
    /// `STX`/`ETX`), ending with the application response.
    pub fn begin_exchange(&mut self, request_payload: &str) -> (step: Step)
        requires
            old(self).wf(),
        ensures
            final(self).wf(),
            final(self).spec_config() == old(self).spec_config(),
            final(self)@ == begin_state(
                application_frame(old(self).spec_config().lrc_mode, bytes_of(request_payload@)),
                None,
                false,
            ),
            step@ == StepView::Send(application_frame(old(self).spec_config().lrc_mode, bytes_of(request_payload@))),
            inv(final(self).spec_config(), final(self)@),
    {
        self.begin(request_payload, None, false)
    }

    /// Starts an exchange that sends `additional_payload` (tokenization `U`) once the main
    /// request is acknowledged, before waiting for the response:
    /// `request -> ACK -> additional -> ACK -> result`.
    pub fn begin_exchange_with_additional_data(
        &mut self,
        request_payload: &str,
        additional_payload: &str,
    ) -> (step: Step)
        requires
            old(self).wf(),
        ensures
            final(self).wf(),
            final(self).spec_config() == old(self).spec_config(),
            final(self)@ == begin_state(
                application_frame(old(self).spec_config().lrc_mode, bytes_of(request_payload@)),
                Some(application_frame(old(self).spec_config().lrc_mode, bytes_of(additional_payload@))),
                false,
            ),
            step@ == StepView::Send(application_frame(old(self).spec_config().lrc_mode, bytes_of(request_payload@))),
            inv(final(self).spec_config(), final(self)@),
    {
        self.begin(request_payload, Some(additional_payload), false)
    }

    /// Starts an exchange whose only reply is the physical `ACK` (e.g. enable / disable ECR
    /// printing `E`); it ends as soon as the request is acknowledged.
    pub fn begin_ack_only(&mut self, request_payload: &str) -> (step: Step)
        requires
            old(self).wf(),
        ensures
            final(self).wf(),
            final(self).spec_config() == old(self).spec_config(),
            final(self)@ == begin_state(
                application_frame(old(self).spec_config().lrc_mode, bytes_of(request_payload@)),
                None,
                true,
            ),
            step@ == StepView::Send(application_frame(old(self).spec_config().lrc_mode, bytes_of(request_payload@))),
            inv(final(self).spec_config(), final(self)@),
    {
        self.begin(request_payload, None, true)
    }

    /// How many times the current request frame has been sent.
    pub fn attempts(&self) -> (a: u32)
        ensures
            a == self@.attempts,
    {
        self.attempts
    }

    /// Whether the session is waiting for a frame, a timeout or a drop.
    pub fn is_waiting(&self) -> (b: bool)
        ensures
            b == waiting(self@),
    {
        (matches!(self.phase, Phase::AwaitAck) || matches!(self.phase, Phase::AwaitResult)
            || matches!(self.phase, Phase::Draining)) && !self.sending
    }

    /// Reports the outcome of the send asked for by a `Send` or `Retransmit` step.
    pub fn on_sent(&mut self, outcome: Result<(), Ecr17Error>) -> (r: Reaction)
        requires
            old(self).wf(),
            old(self)@.sending,
            old(self)@.retransmitting ==> old(self)@.attempts < u32::MAX,
        ensures
            final(self).wf(),
            final(self).spec_config() == old(self).spec_config(),
            (final(self)@, r.effects_view(), r.next@) == on_sent_spec(
                old(self).spec_config(),
                old(self)@,
                match outcome {
                    Ok(_) => None,
                    Err(e) => Some(e@),
                },
            ),
    {
        match outcome {
            Err(e) => {
                self.phase = Phase::Finished;
                self.sending = false;
                self.retransmitting = false;
                Self::plain(Step::Done(Err(e)))
            },
            Ok(_) => {
                if self.retransmitting {
                    self.attempts = self.attempts + 1;
                } else {
                    self.attempts = 1;
                }
                self.sending = false;
                self.retransmitting = false;
                Self::plain(Step::Wait(Deadline::Reset(self.config.ack_timeout_ms)))
            },
        }
    }

    fn result_frame(&mut self, pkt: DecodedPacket) -> (r: Reaction)
        requires
            old(self).wf(),
        ensures
            final(self).wf(),
            final(self).spec_config() == old(self).spec_config(),
            (final(self)@, r.effects_view(), r.next@) == result_frame(
                old(self).spec_config(),
                old(self)@,
                pkt.view_packet(),
            ),
    {
        match pkt.packet_type {
            PacketType::Progress => {
                let m = string_from_utf8_lossy(pkt.payload.as_slice());
                Self::one(Effect::Progress(m), Step::Wait(Deadline::Keep))
            },
            PacketType::Application => {
                if !pkt.valid_lrc {
                    let nak = self.control(NAK);
                    Self::one(nak, Step::Wait(Deadline::Keep))
                } else if pkt.payload.len() > 9 && pkt.payload[9] == 0x53 {
                    let ack = self.control(ACK);
                    let line = string_from_utf8_lossy(pkt.payload.as_slice());
                    Self::two(ack, Effect::Receipt(line), Step::Wait(Deadline::Keep))
                } else if self.config.receipt_drain_ms == 0 {
                    let ack = self.control(ACK);
                    self.phase = Phase::Finished;
                    Self::one(ack, Step::Done(Ok(Some(pkt))))
                } else {
                    let ack = self.control(ACK);
                    self.phase = Phase::Draining;
                    self.result = Some(pkt);
                    Self::one(ack, Step::Wait(Deadline::Reset(self.config.receipt_drain_ms)))
                }
            },
            PacketType::Unknown => {
                let nak = self.control(NAK);
                Self::one(nak, Step::Wait(Deadline::Keep))
            },
            _ => Self::plain(Step::Wait(Deadline::Keep)),
        }
    }

    fn enter_result_phase(&mut self) -> (r: Reaction)
        requires
            old(self).wf(),
        ensures
            final(self).wf(),
            final(self).spec_config() == old(self).spec_config(),
            (final(self)@, r.effects_view(), r.next@) == enter_result_phase(old(self).spec_config(), old(self)@),
    {
        self.phase = Phase::AwaitResult;
        match self.pending_result.take() {
            Some(p) => {
                let mut r = self.result_frame(p);
                if matches!(r.next, Step::Wait(Deadline::Keep)) {
                    r.next = Step::Wait(Deadline::Reset(self.config.response_timeout_ms));
                }
                r
            },
            None => Self::plain(Step::Wait(Deadline::Reset(self.config.response_timeout_ms))),
        }
    }

    fn after_handshake(&mut self) -> (r: Reaction)
        requires
            old(self).wf(),
        ensures
            final(self).wf(),
            final(self).spec_config() == old(self).spec_config(),
            (final(self)@, r.effects_view(), r.next@) == after_handshake(old(self).spec_config(), old(self)@),
    {
        match self.additional.take() {
            Some(f) => {
                let sent = copy_bytes(&f);
                self.frame = f;
                self.sending = true;
                self.retransmitting = false;
                Self::plain(Step::Send(sent))
            },
            None => {
                if self.ack_only {
                    self.phase = Phase::Finished;
                    Self::plain(Step::Done(Ok(None)))
                } else {
                    self.enter_result_phase()
                }
            },
        }
    }

    fn retry_or_fail(&mut self, err: Ecr17Error) -> (r: Reaction)
        requires
            old(self).wf(),
        ensures
            final(self).wf(),
            final(self).spec_config() == old(self).spec_config(),
            (final(self)@, r.effects_view(), r.next@) == retry_or_fail(old(self).spec_config(), old(self)@, err@),
    {
        if self.attempts > self.config.retry_count {
            self.phase = Phase::Finished;
            Self::plain(Step::Done(Err(err)))
        } else {
            self.sending = true;
            self.retransmitting = true;
            let frame = copy_bytes(&self.frame);
            Self::plain(Step::Retransmit { delay_ms: self.config.retry_delay_ms, frame })
        }
    }

    fn drain_frame(&mut self, pkt: DecodedPacket) -> (r: Reaction)
        requires
            old(self).wf(),
        ensures
            final(self).wf(),
            final(self).spec_config() == old(self).spec_config(),
            (final(self)@, r.effects_view(), r.next@) == drain_frame(old(self).spec_config(), old(self)@, pkt.view_packet()),
    {
        let w = Deadline::Reset(self.config.receipt_drain_ms);
        match pkt.packet_type {
            PacketType::Application => {
                if pkt.valid_lrc {
                    let ack = self.control(ACK);
                    if pkt.payload.len() > 9 && pkt.payload[9] == 0x53 {
                        let line = string_from_utf8_lossy(pkt.payload.as_slice());
                        Self::two(ack, Effect::Receipt(line), Step::Wait(w))
                    } else {
                        Self::one(ack, Step::Wait(w))
                    }
                } else {
                    let nak = self.control(NAK);
                    Self::one(nak, Step::Wait(w))
                }
            },
            PacketType::Progress => {
                let m = string_from_utf8_lossy(pkt.payload.as_slice());
                Self::one(Effect::Progress(m), Step::Wait(w))
            },
            _ => Self::plain(Step::Wait(w)),
        }
    }

    /// Reports a decoded frame received while waiting.
    pub fn on_frame(&mut self, pkt: DecodedPacket) -> (r: Reaction)
        requires
            old(self).wf(),
            waiting(old(self)@),
        ensures
            final(self).wf(),
            final(self).spec_config() == old(self).spec_config(),
            (final(self)@, r.effects_view(), r.next@) == on_frame_spec(
                old(self).spec_config(),
                old(self)@,
                pkt.view_packet(),
            ),
    {
        match self.phase {
            Phase::AwaitAck => match pkt.packet_type {
                PacketType::Ack => self.after_handshake(),
                PacketType::Nak => {
                    let attempts = self.attempts;
                    self.retry_or_fail(Ecr17Error::Nak { attempts })
                },
                PacketType::Application => {
                    self.pending_result = Some(pkt);
                    self.after_handshake()
                },
                _ => Self::plain(Step::Wait(Deadline::Keep)),
            },
            Phase::AwaitResult => self.result_frame(pkt),
            Phase::Draining => self.drain_frame(pkt),
            _ => Self::plain(Step::Wait(Deadline::Keep)),
        }
    }

    /// Reports that the deadline passed with no frame.
    pub fn on_timeout(&mut self) -> (r: Reaction)
        requires
            old(self).wf(),
            waiting(old(self)@),
        ensures
            final(self).wf(),
            final(self).spec_config() == old(self).spec_config(),
            (final(self)@, r.effects_view(), r.next@) == on_timeout_spec(old(self).spec_config(), old(self)@),
    {
        match self.phase {
            Phase::AwaitAck => {
                let attempts = self.attempts;
                self.retry_or_fail(Ecr17Error::AckTimeout { attempts })
            },
            Phase::AwaitResult => {
                self.phase = Phase::Finished;
                Self::plain(Step::Done(Err(Ecr17Error::ResponseTimeout)))
            },
            Phase::Draining => {
                self.phase = Phase::Finished;
                let out = self.result.take();
                Self::plain(Step::Done(Ok(out)))
            },
            _ => Self::plain(Step::Wait(Deadline::Keep)),
        }
    }

    /// Reports that the transport dropped.
    pub fn on_disconnected(&mut self) -> (r: Reaction)
        requires
            old(self).wf(),
            waiting(old(self)@),
        ensures
            final(self).wf(),
            final(self).spec_config() == old(self).spec_config(),
            (final(self)@, r.effects_view(), r.next@) == on_disconnected_spec(old(self).spec_config(), old(self)@),
    {
        match self.phase {
            Phase::Draining => {
                self.phase = Phase::Finished;
                let out = self.result.take();
                Self::plain(Step::Done(Ok(out)))
            },
            Phase::AwaitAck | Phase::AwaitResult => {
                self.phase = Phase::Finished;
                Self::plain(Step::Done(Err(Ecr17Error::Disconnected)))
            },
            _ => Self::plain(Step::Wait(Deadline::Keep)),
        }
    }
}

// ---------------------------------------------------------------------------
// Laws
// ---------------------------------------------------------------------------

/// A fresh exchange satisfies the invariant.
pub proof fn lemma_begin_establishes_inv(cfg: SessionConfig, frame: Seq<u8>, additional: Option<Seq<u8>>, ack_only: bool)
    ensures
        inv(cfg, begin_state(frame, additional, ack_only)),
{
}

/// Reporting a send keeps the invariant.
pub proof fn lemma_on_sent_keeps_inv(cfg: SessionConfig, s: SessionState, failure: Option<ErrorView>)
    requires
        inv(cfg, s),
        s.sending,
        s.retransmitting ==> s.attempts < u32::MAX,
    ensures
        inv(cfg, on_sent_spec(cfg, s, failure).0),
{
}

/// Reporting a frame keeps the invariant.
pub proof fn lemma_on_frame_keeps_inv(cfg: SessionConfig, s: SessionState, pkt: PacketView)
    requires
        inv(cfg, s),
        waiting(s),
    ensures
        inv(cfg, on_frame_spec(cfg, s, pkt).0),
{
}

/// Reporting a timeout keeps the invariant.
pub proof fn lemma_on_timeout_keeps_inv(cfg: SessionConfig, s: SessionState)
    requires
        inv(cfg, s),
        waiting(s),
    ensures
        inv(cfg, on_timeout_spec(cfg, s).0),
{
}

/// Reporting a drop keeps the invariant.
pub proof fn lemma_on_disconnected_keeps_inv(cfg: SessionConfig, s: SessionState)
    requires
        inv(cfg, s),
        waiting(s),
    ensures
        inv(cfg, on_disconnected_spec(cfg, s).0),
{
}

/// Retransmission is bounded: a request is re-sent only while fewer than
/// `retry_count + 1` sends were made, and a handshake that gives up (no ACK, or NAK)
/// reports exactly `retry_count + 1` attempts.
pub proof fn lemma_retransmission_bounded(cfg: SessionConfig, s: SessionState, pkt: PacketView)
    requires
        inv(cfg, s),
        waiting(s),
        s.phase is AwaitAck,
    ensures
        on_frame_spec(cfg, s, pkt).2 is Retransmit ==> s.attempts <= cfg.retry_count,
        on_timeout_spec(cfg, s).2 is Retransmit ==> s.attempts <= cfg.retry_count,
        on_frame_spec(cfg, s, pkt).2 == StepView::Done(Err(ErrorView::Nak(s.attempts)))
            ==> s.attempts == cfg.retry_count + 1,
        on_timeout_spec(cfg, s).2 == StepView::Done(Err(ErrorView::AckTimeout(s.attempts)))
            ==> s.attempts == cfg.retry_count + 1,
        on_timeout_spec(cfg, s).2 is Retransmit || on_timeout_spec(cfg, s).2 == StepView::Done(
            Err(ErrorView::AckTimeout(s.attempts)),
        ),
{
}

/// An exchange ends with a response only when that response is an application frame with a
/// valid LRC and not a receipt line: progress, control, corrupted and receipt frames are
/// never handed out as the result. It ends without one only when it awaited the `ACK` alone.
pub proof fn lemma_result_is_a_valid_response(cfg: SessionConfig, s: SessionState, pkt: PacketView)
    requires
        inv(cfg, s),
        waiting(s),
    ensures
        on_frame_spec(cfg, s, pkt).2 matches StepView::Done(Ok(Some(p))) ==> is_response(p),
        on_timeout_spec(cfg, s).2 matches StepView::Done(Ok(Some(p))) ==> is_response(p),
        on_disconnected_spec(cfg, s).2 matches StepView::Done(Ok(Some(p))) ==> is_response(p),
        on_frame_spec(cfg, s, pkt).2 == StepView::Done(Ok(None)) ==> s.ack_only,
        on_timeout_spec(cfg, s).2 == StepView::Done(Ok(None)) ==> s.ack_only,
        on_disconnected_spec(cfg, s).2 == StepView::Done(Ok(None)) ==> s.ack_only,
{
}

/// A result that arrives before (or instead of) the physical ACK is not lost: it is
/// acknowledged and ends the exchange (when no additional message, no receipt draining).
pub proof fn lemma_result_before_ack_is_kept(cfg: SessionConfig, s: SessionState, payload: Seq<u8>)
    requires
        s.phase is AwaitAck,
        s.additional is None,
        !s.ack_only,
        !is_receipt(payload),
        cfg.receipt_drain_ms == 0,
    ensures
        on_frame_spec(cfg, s, (PacketType::Application, payload, true)).1 == seq![control_effect(cfg, ACK)],
        on_frame_spec(cfg, s, (PacketType::Application, payload, true)).2
            == StepView::Done(Ok(Some((PacketType::Application, payload, true)))),
{
}

/// An application frame with a bad LRC is answered by NAK and never taken as the result.
pub proof fn lemma_bad_lrc_is_nacked(cfg: SessionConfig, s: SessionState, payload: Seq<u8>)
    requires
        s.phase is AwaitResult || s.phase is Draining,
    ensures
        on_frame_spec(cfg, s, (PacketType::Application, payload, false)).1 == seq![control_effect(cfg, NAK)],
        !(on_frame_spec(cfg, s, (PacketType::Application, payload, false)).2 is Done),
        on_frame_spec(cfg, s, (PacketType::Application, payload, false)).0 == s,
{
}

/// A complete application frame at the front of the inbound buffer is split off whole,
/// leaving the bytes after it.
pub proof fn lemma_extract_application_frame(mode: LrcMode, payload: Seq<u8>, rest: Seq<u8>)
    requires
        !payload.contains(ETX),
    ensures
        extract_spec(mode, application_frame(mode, payload) + rest) == (Some(application_frame(mode, payload)), rest),
{
    let f = application_frame(mode, payload);
    let rx = f + rest;
    let e: int = payload.len() as int + 1;
    assert(rx[0] == STX);
    assert(rx[e] == ETX);
    assert forall|j: int| 0 <= j < e implies rx[j] != ETX by {
        if j > 0 {
            assert(rx[j] == payload[j - 1]);
        }
    }
    assert(is_first_index(rx, ETX, e));
    let c = choose|k: int| is_first_index(rx, ETX, k);
    assert(c == e) by {
        if c < e {
            assert(rx[c] != ETX);
        }
        if c > e {
            assert(rx[e] != ETX);
        }
    }
    assert(rx.subrange(0, e + 2) =~= f);
    assert(rx.subrange(e + 2, rx.len() as int) =~= rest);
}

/// A control frame at the front of the inbound buffer is split off as its 3 bytes.
pub proof fn lemma_extract_control_frame(mode: LrcMode, ctrl: u8, rest: Seq<u8>)
    requires
        ctrl == ACK || ctrl == NAK,
    ensures
        extract_spec(mode, control_frame(mode, ctrl) + rest) == (Some(control_frame(mode, ctrl)), rest),
{
    let rx = control_frame(mode, ctrl) + rest;
    assert(rx.subrange(0, 3) =~= control_frame(mode, ctrl));
    assert(rx.subrange(3, rx.len() as int) =~= rest);
}

/// A lead `ACK`/`NAK` byte that is not followed by `ETX` and its LRC is dropped rather than
/// taken as a control frame, so a stray or corrupted acknowledgement never completes a
/// handshake.
pub proof fn lemma_corrupted_control_frame_is_dropped(mode: LrcMode, ctrl: u8, b1: u8, b2: u8, rest: Seq<u8>)
    requires
        ctrl == ACK || ctrl == NAK,
        b1 != ETX || b2 != mode.spec_compute(seq![ctrl]),
    ensures
        extract_spec(mode, seq![ctrl, b1, b2] + rest) == extract_spec(mode, seq![b1, b2] + rest),
{
    let rx = seq![ctrl, b1, b2] + rest;
    assert(rx[0] == ctrl && rx[1] == b1 && rx[2] == b2);
    assert(seq![rx[0]] =~= seq![ctrl]);
    assert(rx.drop_first() =~= seq![b1, b2] + rest);
}

/// A result that was received and acknowledged is never replaced by an error: while
/// receipts are drained after it, a drop or the drain deadline ends the exchange with that
/// result, and no frame ends it otherwise.
pub proof fn lemma_drained_result_survives(cfg: SessionConfig, s: SessionState, pkt: PacketView)
    requires
        inv(cfg, s),
        s.phase is Draining,
    ensures
        s.result is Some,
        on_disconnected_spec(cfg, s).2 == StepView::Done(Ok(s.result)),
        on_timeout_spec(cfg, s).2 == StepView::Done(Ok(s.result)),
        !(on_frame_spec(cfg, s, pkt).2 is Done),
{
}

/// With receipt draining on, a valid result received while waiting for the response is
/// acknowledged and held; if the transport then drops, or the terminal stays quiet, the
/// exchange still ends with exactly that result.
pub proof fn lemma_result_then_drop_returns_result(cfg: SessionConfig, s: SessionState, payload: Seq<u8>)
    requires
        s.phase is AwaitResult,
        cfg.receipt_drain_ms > 0,
        !is_receipt(payload),
    ensures
        ({
            let pkt = (PacketType::Application, payload, true);
            let t = on_frame_spec(cfg, s, pkt);
            &&& t.1 == seq![control_effect(cfg, ACK)]
            &&& on_disconnected_spec(cfg, t.0).2 == StepView::Done(Ok(Some(pkt)))
            &&& on_timeout_spec(cfg, t.0).2 == StepView::Done(Ok(Some(pkt)))
        }),
{
}

} // verus!
