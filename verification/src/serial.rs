//! Serial message protocol: framed big-endian messages, the connection
//! handshake with mode negotiation, and the connected/disconnected status
//! with its timeout.
//!
//! The byte transport itself is a hardware capability and stays outside the
//! library: the codec works on plain byte vectors, and the handler's methods
//! take the current millisecond count and the already-decoded inbound
//! message as arguments, returning the bytes to transmit.

use vstd::prelude::*;

verus! {

/// The closed set of messages on the wire: one tag byte, then zero or more
/// big-endian 32-bit fields.
#[derive(PartialEq, Eq, Structural, Clone, Copy, Debug)]
pub enum SerialMsg {
    /// Connection request carrying the requested role: 0 lets the receiver
    /// decide, 1 asks to sync, 2 declares the receiver a slave, 3 declares
    /// the receiver a master.
    Handshake { mode: u32 },
    /// Reply to a handshake carrying the negotiated role: 0 not supported,
    /// 1 sync, 2 the sender of the handshake is slave, 3 it is master.
    HandshakeResponse { selected_mode: u32 },
    /// P1 is now counting down; P2 holds the given milliseconds.
    StartP1 { p2_time: u32 },
    /// P2 is now counting down; P1 holds the given milliseconds.
    StartP2 { p1_time: u32 },
    /// Both times in milliseconds, P1 first.
    Sync { p1_time: u32, p2_time: u32 },
    /// Both clocks pause; the running one stopped at the given milliseconds.
    Pause { time: u32 },
    /// P1 ran out of time.
    P1Finish,
    /// P2 ran out of time.
    P2Finish,
}

impl SerialMsg {
    /// The tag byte of this message.
    pub open spec fn spec_tag(self) -> u8 {
        match self {
            SerialMsg::Handshake { .. } => 0xc0,
            SerialMsg::HandshakeResponse { .. } => 0xc1,
            SerialMsg::StartP1 { .. } => 0xc2,
            SerialMsg::StartP2 { .. } => 0xc3,
            SerialMsg::Sync { .. } => 0xc4,
            SerialMsg::Pause { .. } => 0xc5,
            SerialMsg::P1Finish => 0xc6,
            SerialMsg::P2Finish => 0xc7,
        }
    }

    pub fn to_u8(&self) -> (r: u8)
        ensures
            r == self.spec_tag(),
    {
        match *self {
            SerialMsg::Handshake { .. } => 0xc0,
            SerialMsg::HandshakeResponse { .. } => 0xc1,
            SerialMsg::StartP1 { .. } => 0xc2,
            SerialMsg::StartP2 { .. } => 0xc3,
            SerialMsg::Sync { .. } => 0xc4,
            SerialMsg::Pause { .. } => 0xc5,
            SerialMsg::P1Finish => 0xc6,
            SerialMsg::P2Finish => 0xc7,
        }
    }

    /// Whether the message takes part in establishing the connection; only
    /// such messages may be sent over a link that is not yet connected.
    pub open spec fn spec_is_connection_message(self) -> bool {
        self is Handshake || self is HandshakeResponse
    }

    pub fn is_connection_message(&self) -> (r: bool)
        ensures
            r == self.spec_is_connection_message(),
    {
        match *self {
            SerialMsg::Handshake { .. } => true,
            SerialMsg::HandshakeResponse { .. } => true,
            _ => false,
        }
    }
}

/// The four big-endian bytes of a 32-bit value, most significant first.
pub open spec fn spec_u32_be(v: u32) -> Seq<u8> {
    seq![
        (v as int / 0x1000000) as u8,
        ((v as int / 0x10000) % 256) as u8,
        ((v as int / 256) % 256) as u8,
        (v as int % 256) as u8,
    ]
}

/// The value of four big-endian bytes, most significant first.
pub open spec fn spec_u32_of(b0: u8, b1: u8, b2: u8, b3: u8) -> int {
    b0 * 0x1000000 + b1 * 0x10000 + b2 * 256 + b3
}

/// Recomposing the big-endian bytes of a value gives the value back.
pub proof fn lemma_u32_be_round_trip(v: u32)
    ensures
        spec_u32_of(
            spec_u32_be(v)[0],
            spec_u32_be(v)[1],
            spec_u32_be(v)[2],
            spec_u32_be(v)[3],
        ) == v,
{
    assert((v / 0x1000000) * 0x1000000 + ((v / 0x10000) % 256) * 0x10000 + ((v / 256) % 256) * 256
        + (v % 256) == v) by (bit_vector);
}

/// The wire encoding of a message: the tag byte, then the fields.
pub open spec fn spec_encode(m: SerialMsg) -> Seq<u8> {
    seq![m.spec_tag()] + match m {
        SerialMsg::Handshake { mode } => spec_u32_be(mode),
        SerialMsg::HandshakeResponse { selected_mode } => spec_u32_be(selected_mode),
        SerialMsg::StartP1 { p2_time } => spec_u32_be(p2_time),
        SerialMsg::StartP2 { p1_time } => spec_u32_be(p1_time),
        SerialMsg::Sync { p1_time, p2_time } => spec_u32_be(p1_time) + spec_u32_be(p2_time),
        SerialMsg::Pause { time } => spec_u32_be(time),
        SerialMsg::P1Finish => Seq::empty(),
        SerialMsg::P2Finish => Seq::empty(),
    }
}

fn push_u32_be(out: &mut Vec<u8>, v: u32)
    ensures
        final(out)@ == old(out)@ + spec_u32_be(v),
{
    proof {
        assert(v / 0x1000000 < 256) by (bit_vector);
    }
    out.push((v / 0x1000000) as u8);
    out.push(((v / 0x10000) % 256) as u8);
    out.push(((v / 256) % 256) as u8);
    out.push((v % 256) as u8);
    proof {
        assert(out@ =~= old(out)@ + spec_u32_be(v));
    }
}

impl SerialMsg {
    /// The message as wire bytes.
    pub fn encode(&self) -> (r: Vec<u8>)
        ensures
            r@ == spec_encode(*self),
    {
        let mut out: Vec<u8> = Vec::new();
        out.push(self.to_u8());
        match *self {
            SerialMsg::Handshake { mode } => push_u32_be(&mut out, mode),
            SerialMsg::HandshakeResponse { selected_mode } => push_u32_be(&mut out, selected_mode),
            SerialMsg::StartP1 { p2_time } => push_u32_be(&mut out, p2_time),
            SerialMsg::StartP2 { p1_time } => push_u32_be(&mut out, p1_time),
            SerialMsg::Sync { p1_time, p2_time } => {
                push_u32_be(&mut out, p1_time);
                push_u32_be(&mut out, p2_time);
            },
            SerialMsg::Pause { time } => push_u32_be(&mut out, time),
            SerialMsg::P1Finish => {},
            SerialMsg::P2Finish => {},
        }
        proof {
            assert(out@ =~= spec_encode(*self));
        }
        out
    }
}

/// Whether a leading byte is one of the known message tags. Any other byte
/// is silently discarded by the read path, so the link can resynchronize on
/// the next well-formed tag.
pub open spec fn spec_tag_recognized(tag: u8) -> bool {
    0xc0 <= tag && tag <= 0xc7
}

/// How many payload bytes follow a recognized tag.
pub open spec fn spec_payload_len(tag: u8) -> int {
    if tag == 0xc4 {
        8
    } else if 0xc0 <= tag && tag <= 0xc5 {
        4
    } else {
        0
    }
}

/// The message at the head of a byte sequence, with the number of bytes it
/// occupies; nothing if the sequence is empty, starts with an unrecognized
/// tag, or is shorter than the tag demands.
pub open spec fn spec_decode(s: Seq<u8>) -> Option<(SerialMsg, int)> {
    if s.len() == 0 {
        None
    } else {
        let tag = s[0];
        if !spec_tag_recognized(tag) {
            None
        } else if s.len() < 1 + spec_payload_len(tag) {
            None
        } else {
            let a = spec_u32_of(s[1], s[2], s[3], s[4]) as u32;
            let m = if tag == 0xc0 {
                SerialMsg::Handshake { mode: a }
            } else if tag == 0xc1 {
                SerialMsg::HandshakeResponse { selected_mode: a }
            } else if tag == 0xc2 {
                SerialMsg::StartP1 { p2_time: a }
            } else if tag == 0xc3 {
                SerialMsg::StartP2 { p1_time: a }
            } else if tag == 0xc4 {
                SerialMsg::Sync { p1_time: a, p2_time: spec_u32_of(s[5], s[6], s[7], s[8]) as u32 }
            } else if tag == 0xc5 {
                SerialMsg::Pause { time: a }
            } else if tag == 0xc6 {
                SerialMsg::P1Finish
            } else {
                SerialMsg::P2Finish
            };
            Some((m, 1 + spec_payload_len(tag)))
        }
    }
}

fn read_u32_be(bytes: &Vec<u8>, i: usize) -> (r: u32)
    requires
        i + 4 <= bytes@.len(),
    ensures
        r == spec_u32_of(bytes@[i as int], bytes@[i + 1], bytes@[i + 2], bytes@[i + 3]),
{
    let n = bytes.len();
    let b0 = bytes[i] as u32;
    let b1 = bytes[i + 1] as u32;
    let b2 = bytes[i + 2] as u32;
    let b3 = bytes[i + 3] as u32;
    b0 * 0x1000000 + b1 * 0x10000 + b2 * 256 + b3
}

/// Decode the message at the head of a byte buffer. Returns the message and
/// the number of bytes it occupied, or nothing when no complete recognized
/// message starts the buffer.
pub fn decode(bytes: &Vec<u8>) -> (r: Option<(SerialMsg, usize)>)
    ensures
        r is Some <==> spec_decode(bytes@) is Some,
        r matches Some((m, n)) ==> spec_decode(bytes@) == Some((m, n as int)),
{
    if bytes.len() == 0 {
        return None;
    }
    let tag = bytes[0];
    if tag < 0xc0 || tag > 0xc7 {
        return None;
    }
    let payload: usize = if tag == 0xc4 {
        8
    } else if tag <= 0xc5 {
        4
    } else {
        0
    };
    if bytes.len() < 1 + payload {
        return None;
    }
    let m = match tag {
        0xc0 => SerialMsg::Handshake { mode: read_u32_be(bytes, 1) },
        0xc1 => SerialMsg::HandshakeResponse { selected_mode: read_u32_be(bytes, 1) },
        0xc2 => SerialMsg::StartP1 { p2_time: read_u32_be(bytes, 1) },
        0xc3 => SerialMsg::StartP2 { p1_time: read_u32_be(bytes, 1) },
        0xc4 => SerialMsg::Sync {
            p1_time: read_u32_be(bytes, 1),
            p2_time: read_u32_be(bytes, 5),
        },
        0xc5 => SerialMsg::Pause { time: read_u32_be(bytes, 1) },
        0xc6 => SerialMsg::P1Finish,
        _ => SerialMsg::P2Finish,
    };
    Some((m, 1 + payload))
}

/// Wire round trip: decoding an encoded message gives the message back and
/// consumes exactly its bytes, whatever the field values.
pub proof fn lemma_encode_decode_round_trip(m: SerialMsg)
    ensures
        spec_decode(spec_encode(m)) == Some((m, spec_encode(m).len() as int)),
{
    match m {
        SerialMsg::Handshake { mode } => lemma_u32_be_round_trip(mode),
        SerialMsg::HandshakeResponse { selected_mode } => lemma_u32_be_round_trip(selected_mode),
        SerialMsg::StartP1 { p2_time } => lemma_u32_be_round_trip(p2_time),
        SerialMsg::StartP2 { p1_time } => lemma_u32_be_round_trip(p1_time),
        SerialMsg::Sync { p1_time, p2_time } => {
            lemma_u32_be_round_trip(p1_time);
            lemma_u32_be_round_trip(p2_time);
        },
        SerialMsg::Pause { time } => lemma_u32_be_round_trip(time),
        SerialMsg::P1Finish => {},
        SerialMsg::P2Finish => {},
    }
}

/// The negotiated role replied to a handshake that requested `mode`: a
/// request to decide makes the requester a slave, a sync request is
/// accepted, a request to make this side a slave is not supported, and a
/// request to make this side a master is accepted.
pub open spec fn spec_select_mode(mode: u32) -> u32 {
    if mode == 0 {
        2
    } else if mode == 1 {
        1
    } else if mode == 3 {
        3
    } else {
        0
    }
}

/// The option holds exactly the wire bytes of the given message.
pub open spec fn spec_sends(o: Option<Vec<u8>>, m: SerialMsg) -> bool {
    o matches Some(b) && b@ == spec_encode(m)
}

/// The millisecond stamp a connection attempt runs from: the stamp already
/// recorded, or the present call's time on the first attempt.
pub open spec fn spec_wait_from(prev: Option<u32>, now: u32) -> u32 {
    match prev {
        Some(w) => w,
        None => now,
    }
}

/// Connection state of the serial link: whether a handshake has completed,
/// and the millisecond stamp of a pending connection attempt.
pub struct SerialHandler {
    pub connected: bool,
    pub wait_start: Option<u32>,
}

impl SerialHandler {
    pub fn new() -> (r: SerialHandler)
        ensures
            !r.connected,
            r.wait_start is None,
    {
        SerialHandler { connected: false, wait_start: None }
    }

    /// The bytes to transmit for a message: its encoding when the link is
    /// connected or the message itself establishes the connection, nothing
    /// otherwise (an unconnected peer must not be flooded).
    pub fn write(&self, msg: SerialMsg) -> (r: Option<Vec<u8>>)
        ensures
            self.connected || msg.spec_is_connection_message() ==> spec_sends(r, msg),
            !(self.connected || msg.spec_is_connection_message()) ==> r is None,
    {
        if self.connected || msg.is_connection_message() {
            Some(msg.encode())
        } else {
            None
        }
    }

    /// Absorb one inbound message. Handshakes and handshake responses mark
    /// the link connected and are never surfaced; a handshake is answered
    /// with a response carrying the negotiated role. Every other message is
    /// surfaced unchanged. Returns the surfaced message and the bytes of the
    /// reply to transmit.
    pub fn read(&mut self, incoming: Option<SerialMsg>) -> (r: (
        Option<SerialMsg>,
        Option<Vec<u8>>,
    ))
        ensures
            final(self).wait_start == old(self).wait_start,
            incoming matches Some(m) ==> m is Handshake ==> final(self).connected && r.0 is None
                && spec_sends(
                r.1,
                SerialMsg::HandshakeResponse { selected_mode: spec_select_mode(m->mode) },
            ),
            incoming matches Some(m) && m is HandshakeResponse ==> final(self).connected
                && r.0 is None && r.1 is None,
            !(incoming matches Some(m) && m.spec_is_connection_message()) ==> *final(self) == *old(
                self,
            ) && r.0 == incoming && r.1 is None,
    {
        match incoming {
            Some(SerialMsg::Handshake { mode }) => {
                self.connected = true;
                let reply = self.write(
                    SerialMsg::HandshakeResponse { selected_mode: select_mode(mode) },
                );
                (None, reply)
            },
            Some(SerialMsg::HandshakeResponse { .. }) => {
                self.connected = true;
                (None, None)
            },
            _ => (incoming, None),
        }
    }

    /// Poll the connection attempt. The first call stamps the attempt at
    /// `now` and yields a handshake to transmit; each later call absorbs one
    /// inbound message and reports `Some(true)` once connected,
    /// `Some(false)` once `timeout_ms` elapsed without a connection, and
    /// `None` while the caller must keep polling. Returns the status, the
    /// bytes of a handshake to transmit, and the bytes of a handshake reply.
    pub fn check_connection(&mut self, timeout_ms: u16, now: u32, incoming: Option<SerialMsg>) -> (
        r: (Option<bool>, Option<Vec<u8>>, Option<Vec<u8>>)
    )
        requires
            old(self).wait_start matches Some(w) ==> now >= w,
        ensures
            final(self).wait_start == Some(spec_wait_from(old(self).wait_start, now)),
            old(self).wait_start is None ==> spec_sends(r.1, SerialMsg::Handshake { mode: 2 }),
            old(self).wait_start is Some ==> r.1 is None,
            final(self).connected == ((old(self).connected && old(self).wait_start is Some) || (
            incoming matches Some(m) && m.spec_is_connection_message())),
            incoming matches Some(m) ==> m is Handshake ==> spec_sends(
                r.2,
                SerialMsg::HandshakeResponse { selected_mode: spec_select_mode(m->mode) },
            ),
            !(incoming matches Some(m) && m is Handshake) ==> r.2 is None,
            r.0 == (if incoming matches Some(m) && !m.spec_is_connection_message() {
                Option::<bool>::None
            } else if final(self).connected {
                Some(true)
            } else if now - spec_wait_from(old(self).wait_start, now) >= timeout_ms {
                Some(false)
            } else {
                Option::<bool>::None
            }),
    {
        let mut handshake_out: Option<Vec<u8>> = None;
        if self.wait_start.is_none() {
            self.connected = false;
            self.wait_start = Some(now);
            handshake_out = self.write(SerialMsg::Handshake { mode: 2 });
        }
        let wait_start = match self.wait_start {
            Some(w) => w,
            None => 0,
        };
        let (surfaced, reply) = self.read(incoming);
        let status = match surfaced {
            Some(_) => None,
            None => {
                if self.connected {
                    Some(true)
                } else if now - wait_start >= timeout_ms as u32 {
                    Some(false)
                } else {
                    None
                }
            },
        };
        (status, handshake_out, reply)
    }
}

/// The negotiated role for a handshake requesting `mode`.
pub fn select_mode(mode: u32) -> (r: u32)
    ensures
        r == spec_select_mode(mode),
{
    if mode == 0 {
        2
    } else if mode == 1 {
        1
    } else if mode == 3 {
        3
    } else {
        0
    }
}

} // verus!
