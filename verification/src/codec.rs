//! ECR17 packet framing: `STX payload ETX LRC` application frames, `SOH message EOT`
//! progress updates (no LRC), and `ACK`/`NAK` control frames.
use vstd::prelude::*;
use vstd::slice::{slice_subrange, slice_to_vec};
use crate::lrc::LrcMode;

verus! {

/// Start of an application frame.
pub const STX: u8 = 0x02;
/// End of the application payload (precedes the LRC).
pub const ETX: u8 = 0x03;
/// Start of a progress-update frame.
pub const SOH: u8 = 0x01;
/// End of a progress-update frame (its final byte; no LRC).
pub const EOT: u8 = 0x04;
/// Positive acknowledgement control byte.
pub const ACK: u8 = 0x06;
/// Negative acknowledgement control byte.
pub const NAK: u8 = 0x15;

/// The kind of frame that [`PacketCodec::decode`] recognized.
#[derive(Debug, Clone, Copy, PartialEq, Eq, Structural)]
pub enum PacketType {
    /// `STX payload ETX LRC` application message.
    Application,
    /// `SOH message EOT` procedure progress update (no LRC).
    Progress,
    /// Positive acknowledgement.
    Ack,
    /// Negative acknowledgement.
    Nak,
    /// Unrecognized / malformed / truncated / coalesced buffer.
    Unknown,
}

/// A decoded frame.
#[derive(Debug, Clone, PartialEq, Eq)]
pub struct DecodedPacket {
    /// Recognized frame kind.
    pub packet_type: PacketType,
    /// Payload bytes (between the framing bytes); empty for control/unknown frames.
    pub payload: Vec<u8>,
    /// Whether the frame's LRC verified (always `true` for ACK/NAK/progress, always
    /// `false` for unknown frames).
    pub valid_lrc: bool,
}

/// The abstract content of a decoded frame: kind, payload bytes, LRC verdict.
pub type PacketView = (PacketType, Seq<u8>, bool);

impl DecodedPacket {
    /// The packet as plain values.
    pub open spec fn view_packet(&self) -> PacketView {
        (self.packet_type, self.payload@, self.valid_lrc)
    }

    /// The packet that stands for an unrecognized buffer.
    pub fn unknown() -> (r: Self)
        ensures
            r.view_packet() == unknown_view(),
    {
        DecodedPacket { packet_type: PacketType::Unknown, payload: Vec::new(), valid_lrc: false }
    }

    fn control(packet_type: PacketType) -> (r: Self)
        ensures
            r.view_packet() == (packet_type, Seq::<u8>::empty(), true),
    {
        DecodedPacket { packet_type, payload: Vec::new(), valid_lrc: true }
    }
}

/// The view of an unrecognized frame.
pub open spec fn unknown_view() -> PacketView {
    (PacketType::Unknown, Seq::<u8>::empty(), false)
}

/// `e` is the position of the first occurrence of `b` in `s`.
pub open spec fn is_first_index(s: Seq<u8>, b: u8, e: int) -> bool {
    &&& 0 <= e < s.len()
    &&& s[e] == b
    &&& forall|j: int| 0 <= j < e ==> s[j] != b
}

/// The frame `STX + payload + ETX + LRC(payload)`.
pub open spec fn application_frame(mode: LrcMode, payload: Seq<u8>) -> Seq<u8> {
    seq![STX] + payload + seq![ETX, mode.spec_compute(payload)]
}

/// The frame `ctrl + ETX + LRC(ctrl)`.
pub open spec fn control_frame(mode: LrcMode, ctrl: u8) -> Seq<u8> {
    seq![ctrl, ETX, mode.spec_compute(seq![ctrl])]
}

/// What decoding `data` as exactly one frame yields under `mode`.
pub open spec fn decode_spec(mode: LrcMode, data: Seq<u8>) -> PacketView {
    if data.len() == 0 {
        unknown_view()
    } else if data[0] == ACK {
        (PacketType::Ack, Seq::<u8>::empty(), true)
    } else if data[0] == NAK {
        (PacketType::Nak, Seq::<u8>::empty(), true)
    } else if data[0] == SOH {
        if data.len() < 2 || data.last() != EOT {
            unknown_view()
        } else {
            (PacketType::Progress, data.subrange(1, data.len() - 1), true)
        }
    } else if data[0] == STX {
        if exists|e: int| is_first_index(data, ETX, e) {
            let e = choose|e: int| is_first_index(data, ETX, e);
            if e + 1 != data.len() - 1 {
                unknown_view()
            } else {
                let payload = data.subrange(1, e);
                (PacketType::Application, payload, data[e + 1] == mode.spec_compute(payload))
            }
        } else {
            unknown_view()
        }
    } else {
        unknown_view()
    }
}

/// Frames and parses ECR17 packets for a given [`LrcMode`].
#[derive(Debug, Clone, Copy)]
pub struct PacketCodec {
    lrc_mode: LrcMode,
}

impl PacketCodec {
    /// The configured LRC mode.
    pub closed spec fn mode(&self) -> LrcMode {
        self.lrc_mode
    }

    /// Creates a codec that computes LRCs under `mode`.
    pub fn new(mode: LrcMode) -> (r: Self)
        ensures
            r.mode() == mode,
    {
        PacketCodec { lrc_mode: mode }
    }

    /// The configured LRC mode.
    pub fn lrc_mode(&self) -> (r: LrcMode)
        ensures
            r == self.mode(),
    {
        self.lrc_mode
    }

    /// Encodes an application frame: `STX + payload + ETX + LRC`.
    pub fn encode_application(&self, payload: &[u8]) -> (frame: Vec<u8>)
        ensures
            frame@ == application_frame(self.mode(), payload@),
    {
        let mut frame: Vec<u8> = Vec::new();
        frame.push(STX);
        let mut i: usize = 0;
        while i < payload.len()
            invariant
                0 <= i <= payload@.len(),
                frame@ == seq![STX] + payload@.subrange(0, i as int),
            decreases payload@.len() - i,
        {
            frame.push(payload[i]);
            i = i + 1;
            proof {
                assert(frame@ =~= seq![STX] + payload@.subrange(0, i as int));
            }
        }
        frame.push(ETX);
        let lrc = self.lrc_mode.compute(payload);
        frame.push(lrc);
        proof {
            assert(payload@.subrange(0, payload@.len() as int) =~= payload@);
            assert(frame@ =~= application_frame(self.mode(), payload@));
        }
        frame
    }

    /// Encodes a control frame: `ctrl + ETX + LRC(ctrl)`.
    pub fn encode_control(&self, ctrl: u8) -> (frame: Vec<u8>)
        ensures
            frame@ == control_frame(self.mode(), ctrl),
    {
        let one = [ctrl];
        let lrc = self.lrc_mode.compute(&one);
        proof {
            assert(one@ =~= seq![ctrl]);
        }
        let mut frame: Vec<u8> = Vec::new();
        frame.push(ctrl);
        frame.push(ETX);
        frame.push(lrc);
        proof {
            assert(frame@ =~= control_frame(self.mode(), ctrl));
        }
        frame
    }

    /// Decodes exactly one frame from `data`.
    ///
    /// `ACK`/`NAK` are recognized by their lead byte only (the wire form is the 3-byte
    /// `ctrl + ETX + LRC`). For `STX`/`SOH` frames the buffer must be exactly one frame:
    /// more than one frame, trailing bytes, a missing LRC, or a progress frame not ended by
    /// `EOT` all decode to [`PacketType::Unknown`].
    pub fn decode(&self, data: &[u8]) -> (r: DecodedPacket)
        ensures
            r.view_packet() == decode_spec(self.mode(), data@),
    {
        if data.len() == 0 {
            return DecodedPacket::unknown();
        }
        let first = data[0];
        if first == ACK {
            return DecodedPacket::control(PacketType::Ack);
        }
        if first == NAK {
            return DecodedPacket::control(PacketType::Nak);
        }
        if first == SOH {
            if data.len() < 2 || data[data.len() - 1] != EOT {
                return DecodedPacket::unknown();
            }
            let inner = slice_subrange(data, 1, data.len() - 1);
            let payload = slice_to_vec(inner);
            return DecodedPacket { packet_type: PacketType::Progress, payload, valid_lrc: true };
        }
        if first == STX {
            let mut e: usize = 0;
            while e < data.len() && data[e] != ETX
                invariant
                    0 <= e <= data@.len(),
                    forall|j: int| 0 <= j < e ==> data@[j] != ETX,
                decreases data@.len() - e,
            {
                e = e + 1;
            }
            if e == data.len() {
                proof {
                    assert(!exists|k: int| is_first_index(data@, ETX, k));
                }
                return DecodedPacket::unknown();
            }
            proof {
                assert(is_first_index(data@, ETX, e as int));
                let c = choose|k: int| is_first_index(data@, ETX, k);
                assert(c == e as int) by {
                    if c < e as int {
                        assert(data@[c] != ETX);
                    }
                    if c > e as int {
                        assert(data@[e as int] != ETX);
                    }
                }
            }
            if e + 1 != data.len() - 1 {
                return DecodedPacket::unknown();
            }
            let inner = slice_subrange(data, 1, e);
            let rx_lrc = data[e + 1];
            let calc_lrc = self.lrc_mode.compute(inner);
            let payload = slice_to_vec(inner);
            return DecodedPacket {
                packet_type: PacketType::Application,
                payload,
                valid_lrc: rx_lrc == calc_lrc,
            };
        }
        DecodedPacket::unknown()
    }
}

/// Round trip: decoding an encoded application frame gives back its payload with a
/// valid LRC, in every LRC mode, whenever the payload holds no `ETX` byte.
pub proof fn lemma_application_round_trip(mode: LrcMode, payload: Seq<u8>)
    requires
        !payload.contains(ETX),
    ensures
        decode_spec(mode, application_frame(mode, payload)) == (PacketType::Application, payload, true),
{
    lemma_framed_payload(mode, payload, mode.spec_compute(payload));
}

/// A corrupted LRC is detected: a frame `STX payload ETX x` decodes to the payload, and its
/// LRC is reported valid exactly when `x` is the LRC of the payload.
pub proof fn lemma_corrupted_lrc_detected(mode: LrcMode, payload: Seq<u8>, x: u8)
    requires
        !payload.contains(ETX),
    ensures
        decode_spec(mode, seq![STX] + payload + seq![ETX, x])
            == (PacketType::Application, payload, x == mode.spec_compute(payload)),
{
    lemma_framed_payload(mode, payload, x);
}

proof fn lemma_framed_payload(mode: LrcMode, payload: Seq<u8>, x: u8)
    requires
        !payload.contains(ETX),
    ensures
        decode_spec(mode, seq![STX] + payload + seq![ETX, x])
            == (PacketType::Application, payload, x == mode.spec_compute(payload)),
{
    let data = seq![STX] + payload + seq![ETX, x];
    let e: int = payload.len() as int + 1;
    assert(data[0] == STX);
    assert(data[e] == ETX);
    assert forall|j: int| 0 <= j < e implies data[j] != ETX by {
        if j > 0 {
            assert(data[j] == payload[j - 1]);
        }
    }
    assert(is_first_index(data, ETX, e));
    let c = choose|k: int| is_first_index(data, ETX, k);
    assert(c == e) by {
        if c < e {
            assert(data[c] != ETX);
        }
        if c > e {
            assert(data[e] != ETX);
        }
    }
    assert(data.subrange(1, e) =~= payload);
}

/// Anything after a complete application frame (a stray byte, a second coalesced frame)
/// makes the buffer an unknown frame.
pub proof fn lemma_trailing_bytes_rejected(mode: LrcMode, payload: Seq<u8>, extra: Seq<u8>)
    requires
        !payload.contains(ETX),
        extra.len() > 0,
    ensures
        decode_spec(mode, application_frame(mode, payload) + extra) == unknown_view(),
{
    let data = application_frame(mode, payload) + extra;
    let e: int = payload.len() as int + 1;
    assert(data[0] == STX);
    assert(data[e] == ETX);
    assert forall|j: int| 0 <= j < e implies data[j] != ETX by {
        if j > 0 {
            assert(data[j] == payload[j - 1]);
        }
    }
    assert(is_first_index(data, ETX, e));
    let c = choose|k: int| is_first_index(data, ETX, k);
    assert(c == e) by {
        if c < e {
            assert(data[c] != ETX);
        }
        if c > e {
            assert(data[e] != ETX);
        }
    }
}

/// A control frame produced by [`PacketCodec::encode_control`] decodes, by its lead byte,
/// to `ACK` or `NAK` respectively.
pub proof fn lemma_control_round_trip(mode: LrcMode, ctrl: u8)
    requires
        ctrl == ACK || ctrl == NAK,
    ensures
        decode_spec(mode, control_frame(mode, ctrl))
            == (if ctrl == ACK { PacketType::Ack } else { PacketType::Nak }, Seq::<u8>::empty(), true),
{
}

} // verus!
