//! Wire formats of the peer-to-peer datagrams.
//!
//! * hole punch: the 10 ASCII bytes `HOLE_PUNCH`;
//! * ping / pong: `PING` or `PONG` followed by an 8-byte big-endian
//!   millisecond timestamp (12 bytes in all);
//! * audio: a 2-byte big-endian sequence number followed by the Opus
//!   payload (at least one byte);
//! * relayed: a 68-byte header (the 64 ASCII characters of the room hash
//!   and the sender's 4-byte big-endian peer id) before any of the above.

use vstd::prelude::*;

use crate::bytes::{
    be16, be32, be64, bytes_equal, copy_range, from_be16, from_be32, from_be64, lemma_be16_roundtrip,
    lemma_be32_roundtrip, lemma_be64_roundtrip, lemma_from_be64_roundtrip, push_all, read_be16,
    read_be32, read_be64, starts_with, u16_to_be, u32_to_be, u64_to_be,
};
use crate::liveness::{ping_rtt_ms, spec_elapsed_ms};
use crate::seqnum::next_seq;

verus! {

/// Length of the hole-punch datagram.
pub const HOLE_PUNCH_LEN: usize = 10;

/// Length of a ping or pong datagram.
pub const PING_LEN: usize = 12;

/// Offset of the payload inside an audio frame.
pub const PAYLOAD_AT: usize = 2;

/// Shortest datagram taken for an audio frame: the sequence number and
/// one byte of payload.
pub const MIN_AUDIO_LEN: usize = 3;

/// Length of the room hash at the start of a relay header.
pub const ROOM_HASH_LEN: usize = 64;

/// Length of the relay header.
pub const RELAY_HEADER_LEN: usize = 68;

/// The ASCII bytes of `HOLE_PUNCH`.
pub open spec fn hole_punch_bytes() -> Seq<u8> {
    seq![72u8, 79u8, 76u8, 69u8, 95u8, 80u8, 85u8, 78u8, 67u8, 72u8]
}

/// The ASCII bytes of `PING`.
pub open spec fn ping_tag() -> Seq<u8> {
    seq![80u8, 73u8, 78u8, 71u8]
}

/// The ASCII bytes of `PONG`.
pub open spec fn pong_tag() -> Seq<u8> {
    seq![80u8, 79u8, 78u8, 71u8]
}

/// What a datagram from a peer carries.
pub enum Datagram {
    HolePunch,
    /// A liveness probe carrying the sender's clock in milliseconds.
    Ping { stamp: u64 },
    /// The answer to a ping, echoing its timestamp.
    Pong { stamp: u64 },
    /// An audio frame: sequence number and Opus payload.
    Audio { seq: u16, payload: Vec<u8> },
    /// Anything else; it is dropped.
    Ignored,
}

/// Mathematical form of [`Datagram`].
pub enum DatagramView {
    HolePunch,
    Ping { stamp: u64 },
    Pong { stamp: u64 },
    Audio { seq: u16, payload: Seq<u8> },
    Ignored,
}

impl Datagram {
    pub open spec fn view(&self) -> DatagramView {
        match self {
            Datagram::HolePunch => DatagramView::HolePunch,
            Datagram::Ping { stamp } => DatagramView::Ping { stamp: *stamp },
            Datagram::Pong { stamp } => DatagramView::Pong { stamp: *stamp },
            Datagram::Audio { seq, payload } => DatagramView::Audio {
                seq: *seq,
                payload: payload@,
            },
            Datagram::Ignored => DatagramView::Ignored,
        }
    }
}

/// How a datagram is read, tested in this order: the exact hole-punch
/// bytes; 12 bytes starting `PING`; 12 bytes starting `PONG`; fewer than 3
/// bytes is ignored; anything else is an audio frame.
pub open spec fn spec_classify(d: Seq<u8>) -> DatagramView {
    if d.len() == HOLE_PUNCH_LEN && d == hole_punch_bytes() {
        DatagramView::HolePunch
    } else if d.len() == PING_LEN && d.subrange(0, 4) == ping_tag() {
        DatagramView::Ping { stamp: from_be64(d.subrange(4, 12)) }
    } else if d.len() == PING_LEN && d.subrange(0, 4) == pong_tag() {
        DatagramView::Pong { stamp: from_be64(d.subrange(4, 12)) }
    } else if d.len() < MIN_AUDIO_LEN {
        DatagramView::Ignored
    } else {
        DatagramView::Audio { seq: from_be16(d.subrange(0, 2)), payload: d.subrange(2, d.len() as int) }
    }
}

/// Bytes of a ping carrying `stamp`.
pub open spec fn spec_ping(stamp: u64) -> Seq<u8> {
    ping_tag() + be64(stamp)
}

/// Bytes of a pong carrying `stamp`.
pub open spec fn spec_pong(stamp: u64) -> Seq<u8> {
    pong_tag() + be64(stamp)
}

/// Bytes of an audio frame.
pub open spec fn spec_audio_frame(seq: u16, payload: Seq<u8>) -> Seq<u8> {
    be16(seq) + payload
}

/// Is `d` read as a hole punch, ping or pong rather than audio?
pub open spec fn is_control(d: Seq<u8>) -> bool {
    ||| (d.len() == HOLE_PUNCH_LEN && d == hole_punch_bytes())
    ||| (d.len() == PING_LEN && d.subrange(0, 4) == ping_tag())
    ||| (d.len() == PING_LEN && d.subrange(0, 4) == pong_tag())
}

/// Bytes of a relay header.
pub open spec fn spec_relay_header(room_hash: Seq<u8>, peer_id: u32) -> Seq<u8> {
    room_hash + be32(peer_id)
}

/// What a datagram from the relay server yields: the sender's peer id and
/// the inner datagram, when it is longer than the header and carries this
/// room's hash.
pub open spec fn spec_unwrap_relayed(d: Seq<u8>, room_hash: Seq<u8>) -> Option<(u32, Seq<u8>)> {
    if d.len() > RELAY_HEADER_LEN && d.subrange(0, 64) == room_hash {
        Some((from_be32(d.subrange(64, 68)), d.subrange(68, d.len() as int)))
    } else {
        None
    }
}

/// The hole-punch datagram.
pub fn hole_punch() -> (d: Vec<u8>)
    ensures
        d@ == hole_punch_bytes(),
{
    let d: Vec<u8> = vec![72u8, 79u8, 76u8, 69u8, 95u8, 80u8, 85u8, 78u8, 67u8, 72u8];
    assert(d@ =~= hole_punch_bytes());
    d
}

/// A ping carrying the sender's clock `stamp` (milliseconds).
pub fn ping_packet(stamp: u64) -> (d: Vec<u8>)
    ensures
        d@ == spec_ping(stamp),
{
    let mut d: Vec<u8> = vec![80u8, 73u8, 78u8, 71u8];
    assert(d@ =~= ping_tag());
    let b = u64_to_be(stamp);
    push_all(&mut d, b.as_slice());
    d
}

/// The pong that answers a ping carrying `stamp`.
pub fn pong_packet(stamp: u64) -> (d: Vec<u8>)
    ensures
        d@ == spec_pong(stamp),
{
    let mut d: Vec<u8> = vec![80u8, 79u8, 78u8, 71u8];
    assert(d@ =~= pong_tag());
    let b = u64_to_be(stamp);
    push_all(&mut d, b.as_slice());
    d
}

/// An audio frame: the sequence number, then the Opus payload.
pub fn audio_frame(seq: u16, payload: &[u8]) -> (d: Vec<u8>)
    ensures
        d@ == spec_audio_frame(seq, payload@),
{
    let mut d = u16_to_be(seq);
    push_all(&mut d, payload);
    d
}

/// The header that prefixes every datagram sent through the relay server.
pub fn relay_header(room_hash: &[u8], peer_id: u32) -> (h: Vec<u8>)
    ensures
        h@ == spec_relay_header(room_hash@, peer_id),
{
    let mut h: Vec<u8> = Vec::new();
    push_all(&mut h, room_hash);
    let id = u32_to_be(peer_id);
    push_all(&mut h, id.as_slice());
    h
}

/// `header` followed by `packet`, as sent to the relay server.
pub fn relay_wrap(header: &[u8], packet: &[u8]) -> (d: Vec<u8>)
    ensures
        d@ == header@ + packet@,
{
    let mut d: Vec<u8> = Vec::new();
    push_all(&mut d, header);
    push_all(&mut d, packet);
    d
}

/// Strip the relay header of a datagram that came from the relay server.
pub fn unwrap_relayed(data: &[u8], room_hash: &[u8]) -> (r: Option<(u32, Vec<u8>)>)
    requires
        room_hash@.len() == ROOM_HASH_LEN,
    ensures
        r matches Some((id, rest)) ==> spec_unwrap_relayed(data@, room_hash@) == Some((id, rest@)),
        r is None ==> spec_unwrap_relayed(data@, room_hash@) is None,
{
    if data.len() <= RELAY_HEADER_LEN {
        return None;
    }
    if !bytes_equal(vstd::slice::slice_subrange(data, 0, ROOM_HASH_LEN), room_hash) {
        return None;
    }
    let id = read_be32(data, ROOM_HASH_LEN);
    let rest = copy_range(data, RELAY_HEADER_LEN, data.len());
    Some((id, rest))
}

/// Read a datagram received from a peer.
pub fn classify(data: &[u8]) -> (d: Datagram)
    ensures
        d.view() == spec_classify(data@),
{
    let hp = hole_punch();
    if data.len() == HOLE_PUNCH_LEN && bytes_equal(data, hp.as_slice()) {
        return Datagram::HolePunch;
    }
    if data.len() == PING_LEN {
        let ping: Vec<u8> = vec![80u8, 73u8, 78u8, 71u8];
        let pong: Vec<u8> = vec![80u8, 79u8, 78u8, 71u8];
        assert(ping@ =~= ping_tag());
        assert(pong@ =~= pong_tag());
        if starts_with(data, ping.as_slice()) {
            return Datagram::Ping { stamp: read_be64(data, 4) };
        }
        if starts_with(data, pong.as_slice()) {
            return Datagram::Pong { stamp: read_be64(data, 4) };
        }
    }
    if data.len() < MIN_AUDIO_LEN {
        return Datagram::Ignored;
    }
    Datagram::Audio { seq: read_be16(data, 0), payload: copy_range(data, PAYLOAD_AT, data.len()) }
}

/// A ping is read back with its timestamp.
pub proof fn law_ping_roundtrip(stamp: u64)
    ensures
        spec_classify(spec_ping(stamp)) == (DatagramView::Ping { stamp }),
{
    lemma_be64_roundtrip(stamp);
    let d = spec_ping(stamp);
    assert(d.subrange(0, 4) =~= ping_tag());
    assert(d.subrange(4, 12) =~= be64(stamp));
    assert(d.len() == 12);
    assert(d != hole_punch_bytes());
}

/// A pong is read back with its timestamp.
pub proof fn law_pong_roundtrip(stamp: u64)
    ensures
        spec_classify(spec_pong(stamp)) == (DatagramView::Pong { stamp }),
{
    lemma_be64_roundtrip(stamp);
    let d = spec_pong(stamp);
    assert(d.subrange(0, 4) =~= pong_tag());
    assert(d.subrange(4, 12) =~= be64(stamp));
    assert(d.subrange(0, 4) != ping_tag()) by {
        assert(d.subrange(0, 4)[1] != ping_tag()[1]);
    }
}

/// The hole-punch datagram is read back as such.
pub proof fn law_hole_punch_roundtrip()
    ensures
        spec_classify(hole_punch_bytes()) == DatagramView::HolePunch,
{
}

/// The answer to a ping echoes its exact timestamp bytes: the pong differs
/// from the ping only in its second byte.
pub proof fn law_pong_echoes_ping(d: Seq<u8>)
    requires
        spec_classify(d) matches DatagramView::Ping { .. },
    ensures
        ({
            let stamp = spec_classify(d)->Ping_stamp;
            spec_pong(stamp) == d.update(1, 79u8)
        }),
{
    let stamp = spec_classify(d)->Ping_stamp;
    lemma_from_be64_roundtrip(d.subrange(4, 12));
    assert(d.subrange(0, 4) == ping_tag());
    assert(spec_pong(stamp) =~= d.update(1, 79u8)) by {
        assert forall|i: int| 0 <= i < 12 implies #[trigger] spec_pong(stamp)[i] == d.update(
            1,
            79u8,
        )[i] by {
            if i < 4 {
                assert(d[i] == d.subrange(0, 4)[i]);
            } else {
                assert(d[i] == d.subrange(4, 12)[i - 4]);
            }
        }
    }
}

/// An audio frame with a payload is read back with its sequence number
/// and payload, unless its bytes are those of a hole punch, ping or pong.
pub proof fn law_audio_frame_roundtrip(seq: u16, payload: Seq<u8>)
    requires
        payload.len() > 0,
        !is_control(spec_audio_frame(seq, payload)),
    ensures
        spec_classify(spec_audio_frame(seq, payload)) == (DatagramView::Audio { seq, payload }),
{
    lemma_be16_roundtrip(seq);
    let d = spec_audio_frame(seq, payload);
    assert(d.subrange(0, 2) =~= be16(seq));
    assert(d.subrange(2, d.len() as int) =~= payload);
}

/// A frame whose payload is neither 8 nor 10 bytes long is never taken for
/// a hole punch, ping or pong.
pub proof fn law_audio_frame_not_control(seq: u16, payload: Seq<u8>)
    requires
        payload.len() != 8,
        payload.len() != 10,
    ensures
        !is_control(spec_audio_frame(seq, payload)),
{
}

/// A datagram wrapped with this room's relay header is unwrapped to the
/// sender's peer id and the same datagram.
pub proof fn law_relay_roundtrip(room_hash: Seq<u8>, peer_id: u32, packet: Seq<u8>)
    requires
        room_hash.len() == ROOM_HASH_LEN,
        packet.len() > 0,
    ensures
        spec_unwrap_relayed(spec_relay_header(room_hash, peer_id) + packet, room_hash) == Some(
            (peer_id, packet),
        ),
{
    lemma_be32_roundtrip(peer_id);
    let d = spec_relay_header(room_hash, peer_id) + packet;
    assert(d.subrange(0, 64) =~= room_hash);
    assert(d.subrange(64, 68) =~= be32(peer_id));
    assert(d.subrange(68, d.len() as int) =~= packet);
}

/// A relay header of another room is refused.
pub proof fn law_relay_other_room_refused(d: Seq<u8>, room_hash: Seq<u8>, other: Seq<u8>)
    requires
        room_hash.len() == ROOM_HASH_LEN,
        other.len() == ROOM_HASH_LEN,
        other != room_hash,
        d.len() > RELAY_HEADER_LEN,
        d.subrange(0, 64) == other,
    ensures
        spec_unwrap_relayed(d, room_hash) is None,
{
}

/// Numbers outgoing audio frames.
pub struct AudioSender {
    next: u16,
}

impl AudioSender {
    /// The sequence number of the next frame.
    pub closed spec fn next_seq_view(&self) -> u16 {
        self.next
    }

    /// A sender whose first frame is numbered 0.
    pub fn new() -> (s: Self)
        ensures
            s.next_seq_view() == 0,
    {
        AudioSender { next: 0 }
    }

    /// The sequence number of the next frame.
    pub fn next_seq(&self) -> (n: u16)
        ensures
            n == self.next_seq_view(),
    {
        self.next
    }

    /// Frame `payload` with the current sequence number, which then moves
    /// on by one (modulo 2^16).
    pub fn frame_next(&mut self, payload: &[u8]) -> (f: Vec<u8>)
        ensures
            f@ == spec_audio_frame(old(self).next_seq_view(), payload@),
            final(self).next_seq_view() as int == (old(self).next_seq_view() as int + 1) % 65536,
    {
        let frame = audio_frame(self.next, payload);
        self.next = next_seq(self.next);
        frame
    }
}

/// What a datagram received from a peer asks of this side.
pub enum PeerEvent {
    /// A hole punch: the peer is alive.
    Alive,
    /// A ping: answer with this pong (the peer is alive).
    Answer(Vec<u8>),
    /// A pong: the round-trip time in milliseconds (the peer is alive).
    RoundTrip(u32),
    /// An audio frame: its number and Opus payload (the peer is alive and
    /// speaking).
    Voice(u16, Vec<u8>),
    /// Anything else.
    Drop,
}

/// Mathematical form of [`PeerEvent`].
pub enum PeerEventView {
    Alive,
    Answer(Seq<u8>),
    RoundTrip(u32),
    Voice(u16, Seq<u8>),
    Drop,
}

impl PeerEvent {
    pub open spec fn view(&self) -> PeerEventView {
        match self {
            PeerEvent::Alive => PeerEventView::Alive,
            PeerEvent::Answer(p) => PeerEventView::Answer(p@),
            PeerEvent::RoundTrip(t) => PeerEventView::RoundTrip(*t),
            PeerEvent::Voice(s, p) => PeerEventView::Voice(*s, p@),
            PeerEvent::Drop => PeerEventView::Drop,
        }
    }
}

/// The times kept for a peer in the peer table.
pub struct PeerTimes {
    /// When it was last heard from (ms).
    pub last_seen: u64,
    /// When it last sent audio (ms).
    pub last_spoken: u64,
    /// Last measured round trip (ms).
    pub ping_ms: u32,
}

impl PeerEvent {
    /// Bring a peer's times up to date after this event at `now` (ms):
    /// any datagram but a dropped one shows that the peer is alive; a pong
    /// also sets the round trip, and voice the time it last spoke.
    pub fn refresh(&self, times: &mut PeerTimes, now: u64)
        ensures
            final(times).last_seen == if self is Drop {
                old(times).last_seen
            } else {
                now
            },
            final(times).last_spoken == if self is Voice {
                now
            } else {
                old(times).last_spoken
            },
            final(times).ping_ms == match self {
                PeerEvent::RoundTrip(rtt) => *rtt,
                _ => old(times).ping_ms,
            },
    {
        match self {
            PeerEvent::Alive => {
                times.last_seen = now;
            },
            PeerEvent::Answer(_) => {
                times.last_seen = now;
            },
            PeerEvent::RoundTrip(rtt) => {
                times.last_seen = now;
                times.ping_ms = *rtt;
            },
            PeerEvent::Voice(_, _) => {
                times.last_seen = now;
                times.last_spoken = now;
            },
            PeerEvent::Drop => {},
        }
    }
}

/// The event for datagram `d` from a peer, received at `now` (ms).
pub open spec fn spec_peer_event(d: Seq<u8>, now: u64) -> PeerEventView {
    match spec_classify(d) {
        DatagramView::HolePunch => PeerEventView::Alive,
        DatagramView::Ping { stamp } => PeerEventView::Answer(spec_pong(stamp)),
        DatagramView::Pong { stamp } => PeerEventView::RoundTrip(
            (spec_elapsed_ms(now, stamp) % 4294967296) as u32,
        ),
        DatagramView::Audio { seq, payload } => PeerEventView::Voice(seq, payload),
        DatagramView::Ignored => PeerEventView::Drop,
    }
}

/// Decide what a datagram received from a peer at `now` (ms) asks of this
/// side.
pub fn peer_event(data: &[u8], now: u64) -> (e: PeerEvent)
    ensures
        e.view() == spec_peer_event(data@, now),
{
    match classify(data) {
        Datagram::HolePunch => PeerEvent::Alive,
        Datagram::Ping { stamp } => PeerEvent::Answer(pong_packet(stamp)),
        Datagram::Pong { stamp } => PeerEvent::RoundTrip(ping_rtt_ms(now, stamp)),
        Datagram::Audio { seq, payload } => PeerEvent::Voice(seq, payload),
        Datagram::Ignored => PeerEvent::Drop,
    }
}

/// A peer's ping is answered with a pong carrying the same timestamp, and
/// a peer's pong for this side's ping sent at `sent` gives the elapsed
/// time.
pub proof fn law_ping_pong_exchange(sent: u64, now: u64)
    ensures
        spec_peer_event(spec_ping(sent), now) == PeerEventView::Answer(spec_pong(sent)),
        spec_peer_event(spec_pong(sent), now) == PeerEventView::RoundTrip(
            (spec_elapsed_ms(now, sent) % 4294967296) as u32,
        ),
{
    law_ping_roundtrip(sent);
    law_pong_roundtrip(sent);
}

/// An audio frame with a payload is received as voice with its sequence
/// number and payload, unless its bytes are those of a hole punch, ping
/// or pong.
pub proof fn law_voice_delivery(seq: u16, payload: Seq<u8>, now: u64)
    requires
        payload.len() > 0,
        !is_control(spec_audio_frame(seq, payload)),
    ensures
        spec_peer_event(spec_audio_frame(seq, payload), now) == PeerEventView::Voice(seq, payload),
{
    law_audio_frame_roundtrip(seq, payload);
}

} // verus!
