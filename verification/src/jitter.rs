//! Per-peer adaptive jitter buffer.
//!
//! Received audio packets are kept by sequence number until the playout
//! side asks for the next frame. The buffer holds at most
//! [`JITTER_CAPACITY`] packets, refuses packets that arrive after their
//! turn, and adapts the number of packets it waits for before playback
//! (the target) between [`MIN_TARGET`] and [`MAX_TARGET`].

use std::collections::BTreeMap;
use vstd::prelude::*;
use vstd::std_specs::cmp::OrdSpec;
use vstd::std_specs::iter::IteratorSpec;

use crate::seqnum::{is_late, next_seq, spec_is_late};

verus! {

broadcast use vstd::std_specs::btree::group_btree_axioms;

/// Most packets held per peer; the oldest (smallest number) is dropped beyond it.
pub const JITTER_CAPACITY: usize = 10;

/// Smallest number of packets buffered before playback starts.
pub const MIN_TARGET: usize = 1;

/// Largest number of packets buffered before playback starts.
pub const MAX_TARGET: usize = 5;

/// Consecutive on-time frames after which the target shrinks by one.
pub const SHRINK_AFTER: usize = 250;

/// What the playout side does for the next 20 ms frame of a peer.
pub enum Playout {
    /// Decode this packet.
    Decode(Vec<u8>),
    /// The expected packet is missing but later ones are there: let the
    /// decoder conceal the gap.
    Conceal,
    /// Nothing to play now (still buffering, or the buffer ran dry).
    Wait,
}

/// Mathematical form of [`Playout`].
pub enum PlayoutView {
    Decode(Seq<u8>),
    Conceal,
    Wait,
}

impl Playout {
    pub open spec fn view(&self) -> PlayoutView {
        match self {
            Playout::Decode(p) => PlayoutView::Decode(p@),
            Playout::Conceal => PlayoutView::Conceal,
            Playout::Wait => PlayoutView::Wait,
        }
    }
}

/// Abstract state of a jitter buffer.
pub struct JitterView {
    /// Stored packets by sequence number.
    pub packets: Map<u16, Seq<u8>>,
    /// The sequence number that plays next, once known.
    pub next_seq: Option<u16>,
    /// Waiting for `target` packets before (re)starting playback.
    pub buffering: bool,
    /// Number of packets to gather before playback starts.
    pub target: int,
    /// Frames decoded on time since the last miss or shrink.
    pub good: int,
}

/// `k` is the smallest key of `m`.
pub open spec fn is_first_key(m: Map<u16, Seq<u8>>, k: u16) -> bool {
    &&& m.contains_key(k)
    &&& forall|j: u16| m.contains_key(j) ==> k <= j
}

/// The smallest key of a non-empty map.
pub open spec fn first_key(m: Map<u16, Seq<u8>>) -> u16 {
    choose|k: u16| is_first_key(m, k)
}

/// The state of a fresh buffer.
pub open spec fn initial_view() -> JitterView {
    JitterView {
        packets: Map::empty(),
        next_seq: None,
        buffering: true,
        target: MIN_TARGET as int,
        good: 0,
    }
}

/// What a well-formed buffer always satisfies.
pub open spec fn view_wf(s: JitterView) -> bool {
    &&& s.packets.dom().finite()
    &&& s.packets.len() <= JITTER_CAPACITY
    &&& MIN_TARGET <= s.target <= MAX_TARGET
    &&& 0 <= s.good <= usize::MAX
    &&& !s.buffering ==> s.next_seq is Some
}

/// Is the packet numbered `seq` refused because its turn has passed?
pub open spec fn refuses(s: JitterView, seq: u16) -> bool {
    s.next_seq matches Some(e) && spec_is_late(seq, e)
}

/// State after a packet arrives.
pub open spec fn spec_receive(s: JitterView, seq: u16, payload: Seq<u8>) -> JitterView {
    if refuses(s, seq) {
        s
    } else {
        let m = s.packets.insert(seq, payload);
        if m.len() > JITTER_CAPACITY {
            JitterView { packets: m.remove(first_key(m)), ..s }
        } else {
            JitterView { packets: m, ..s }
        }
    }
}

/// The state once buffering ends, if enough packets have gathered.
pub open spec fn settle(s: JitterView) -> JitterView {
    if s.buffering && s.packets.len() >= s.target {
        JitterView { buffering: false, next_seq: Some(first_key(s.packets)), ..s }
    } else {
        s
    }
}

/// `n + 1` modulo 2^16.
pub open spec fn seq_succ(n: u16) -> u16 {
    ((n as int + 1) % 65536) as u16
}

/// State and action of one request for the next frame.
pub open spec fn spec_next_frame(s0: JitterView) -> (JitterView, PlayoutView) {
    let s = settle(s0);
    if s.buffering {
        (s, PlayoutView::Wait)
    } else {
        let e = s.next_seq->0;
        if s.packets.contains_key(e) {
            let good = if s.good < usize::MAX { s.good + 1 } else { s.good };
            let shrink = good > SHRINK_AFTER && s.target > MIN_TARGET;
            (
                JitterView {
                    packets: s.packets.remove(e),
                    next_seq: Some(seq_succ(e)),
                    buffering: false,
                    target: if shrink { s.target - 1 } else { s.target },
                    good: if shrink { 0 } else { good },
                },
                PlayoutView::Decode(s.packets[e]),
            )
        } else if s.packets.len() == 0 {
            (JitterView { buffering: true, good: 0, ..s }, PlayoutView::Wait)
        } else {
            (
                JitterView {
                    next_seq: Some(seq_succ(e)),
                    target: if s.target < MAX_TARGET { s.target + 1 } else { s.target },
                    good: 0,
                    ..s
                },
                PlayoutView::Conceal,
            )
        }
    }
}

/// Smallest key of a map of packets.
fn smallest_key(m: &BTreeMap<u16, Vec<u8>>) -> (r: Option<u16>)
    ensures
        r is None <==> m@.dom().is_empty(),
        r matches Some(k) ==> m@.contains_key(k) && forall|j: u16| m@.contains_key(j) ==> k <= j,
{
    broadcast use vstd::laws_cmp::group_laws_cmp;

    proof {
        assert(vstd::laws_cmp::obeys_cmp::<u16>());
        assert(vstd::laws_cmp::obeys_cmp::<&u16>());
    }
    let mut res: Option<u16> = None;
    for k in it: m.keys()
        invariant_except_break
            res is None,
            it.index() == 0,
        invariant
            it.seq() == vstd::std_specs::btree::spec_keys_iter(m).remaining(),
        ensures
            res is None ==> vstd::std_specs::btree::spec_keys_iter(m).remaining().len() == 0,
            res matches Some(k) ==> vstd::std_specs::btree::spec_keys_iter(m).remaining().len() > 0
                && k == *vstd::std_specs::btree::spec_keys_iter(m).remaining()[0],
    {
        res = Some(*k);
        break;
    }
    proof {
        let rem = vstd::std_specs::btree::spec_keys_iter(m).remaining();
        vstd::std_specs::btree::axiom_spec_keys_iter(m);
        vstd::std_specs::btree::axiom_increasing_seq_meaning::<&u16>(rem);
        match res {
            Some(k) => {
                assert forall|j: u16| m@.contains_key(j) implies k <= j by {
                    assert(rem.unref().to_set().contains(j));
                    let i = choose|i: int| 0 <= i < rem.len() && rem.unref()[i] == j;
                    if i > 0 {
                        assert(OrdSpec::cmp_spec(&rem[0], &rem[i]) is Less);
                    }
                }
                assert(rem.unref()[0] == k);
                assert(rem.unref().to_set().contains(k));
            },
            None => {
                if !m@.dom().is_empty() {
                    let j = m@.dom().choose();
                    assert(rem.unref().to_set().contains(j));
                }
            },
        }
    }
    res
}

/// The smallest key is unique.
proof fn lemma_first_key_unique(m: Map<u16, Seq<u8>>, k: u16)
    requires
        is_first_key(m, k),
    ensures
        first_key(m) == k,
{
    assert(is_first_key(m, first_key(m)));
}

/// A packet whose turn has passed leaves the buffer exactly as it was.
pub proof fn law_late_packet_ignored(s: JitterView, seq: u16, payload: Seq<u8>)
    requires
        refuses(s, seq),
    ensures
        spec_receive(s, seq, payload) == s,
{
}

/// The expected packet is never refused, and receiving a packet keeps the
/// buffer well formed.
pub proof fn law_receive_keeps_invariant(s: JitterView, seq: u16, payload: Seq<u8>)
    requires
        view_wf(s),
    ensures
        view_wf(spec_receive(s, seq, payload)),
        s.next_seq == Some(seq) ==> !refuses(s, seq),
{
    let m = s.packets.insert(seq, payload);
    if !refuses(s, seq) && m.len() > JITTER_CAPACITY {
        lemma_min_key_exists(m, seq);
    }
}

/// A non-empty finite map of packets has a smallest key.
pub proof fn lemma_min_key_exists(m: Map<u16, Seq<u8>>, k: u16)
    requires
        m.dom().finite(),
        m.contains_key(k),
    ensures
        is_first_key(m, first_key(m)),
    decreases k,
{
    if forall|j: u16| m.contains_key(j) ==> k <= j {
        assert(is_first_key(m, k));
    } else {
        let j = choose|j: u16| m.contains_key(j) && !(k <= j);
        lemma_min_key_exists(m, j);
    }
}

/// Asking for a frame keeps the buffer well formed.
pub proof fn law_next_frame_keeps_invariant(s: JitterView)
    requires
        view_wf(s),
    ensures
        view_wf(spec_next_frame(s).0),
{
    if s.buffering && s.packets.len() >= s.target {
        let k = choose|k: u16| s.packets.contains_key(k);
        assert(s.packets.len() > 0);
        if !s.packets.contains_key(k) {
            assert(s.packets.dom() =~= Set::<u16>::empty());
        }
        lemma_min_key_exists(s.packets, k);
    }
}

/// While playing, a packet that arrives for the expected number is the one
/// played next, and the expected number then moves on by one (modulo
/// 2^16).
pub proof fn law_expected_packet_plays_next(s: JitterView, payload: Seq<u8>)
    requires
        view_wf(s),
        !s.buffering,
        s.packets.len() < JITTER_CAPACITY,
    ensures
        ({
            let q = s.next_seq->0;
            let (t, out) = spec_next_frame(spec_receive(s, q, payload));
            &&& out == PlayoutView::Decode(payload)
            &&& t.next_seq == Some(seq_succ(q))
            &&& !t.buffering
        }),
{
    let q = s.next_seq->0;
    assert(!refuses(s, q));
    let m = s.packets.insert(q, payload);
    assert(m.len() <= s.packets.len() + 1);
}

/// A fresh buffer plays the first packet it receives on the next frame.
pub proof fn law_first_packet_plays_at_once(seq: u16, payload: Seq<u8>)
    ensures
        spec_next_frame(spec_receive(initial_view(), seq, payload)).1 == PlayoutView::Decode(
            payload,
        ),
{
    let s = spec_receive(initial_view(), seq, payload);
    assert(s.packets =~= Map::<u16, Seq<u8>>::empty().insert(seq, payload));
    assert(s.packets.len() == 1);
    lemma_first_key_unique(s.packets, seq);
}

/// While playing, a frame whose packet is there is decoded, and the
/// expected number moves on. After more than [`SHRINK_AFTER`] such frames
/// in a row the target shrinks by one, down to [`MIN_TARGET`], and the
/// count starts again; before that the target stays and the count grows.
pub proof fn law_on_time_frames_shrink_target(s: JitterView)
    requires
        view_wf(s),
        !s.buffering,
        s.packets.contains_key(s.next_seq->0),
    ensures
        ({
            let (t, out) = spec_next_frame(s);
            let e = s.next_seq->0;
            &&& out == PlayoutView::Decode(s.packets[e])
            &&& t.next_seq == Some(seq_succ(e))
            &&& !t.buffering
            &&& t.packets == s.packets.remove(e)
            &&& (s.good >= SHRINK_AFTER && s.target > MIN_TARGET) ==> (t.target == s.target - 1
                && t.good == 0)
            &&& s.good < SHRINK_AFTER ==> (t.target == s.target && t.good == s.good + 1)
            &&& s.target == MIN_TARGET ==> t.target == MIN_TARGET
        }),
{
}

/// While playing, a missing expected packet with later ones present is
/// concealed: the expected number moves on, the target grows by one up to
/// the maximum, and the stored packets stay.
pub proof fn law_gap_is_concealed(s: JitterView)
    requires
        view_wf(s),
        !s.buffering,
        !s.packets.contains_key(s.next_seq->0),
        s.packets.len() > 0,
    ensures
        ({
            let (t, out) = spec_next_frame(s);
            &&& out == PlayoutView::Conceal
            &&& t.packets == s.packets
            &&& t.next_seq == Some(seq_succ(s.next_seq->0))
            &&& t.target == if s.target < MAX_TARGET { s.target + 1 } else { s.target }
            &&& t.good == 0
        }),
{
}

/// While playing, an empty buffer goes back to buffering and plays
/// nothing. It keeps the number it expects, so a packet whose turn has
/// passed is still refused while it gathers packets again.
pub proof fn law_dry_buffer_rebuffers(s: JitterView)
    requires
        view_wf(s),
        !s.buffering,
        s.packets.len() == 0,
    ensures
        ({
            let (t, out) = spec_next_frame(s);
            &&& out == PlayoutView::Wait
            &&& t.buffering
            &&& t.target == s.target
            &&& t.next_seq == s.next_seq
            &&& t.packets == s.packets
            &&& forall|seq: u16| refuses(t, seq) <==> #[trigger] spec_is_late(seq, s.next_seq->0)
        }),
{
    if s.packets.contains_key(s.next_seq->0) {
        assert(s.packets.dom().len() > 0) by {
            vstd::set_lib::lemma_set_empty_equivalency_len(s.packets.dom());
        }
    }
}

/// A per-peer jitter buffer.
pub struct JitterBuffer {
    packets: BTreeMap<u16, Vec<u8>>,
    next_seq: Option<u16>,
    buffering: bool,
    target_buffer: usize,
    good_frames: usize,
}

impl JitterBuffer {
    /// Abstract state.
    pub closed spec fn view(&self) -> JitterView {
        JitterView {
            packets: self.packets@.map_values(|p: Vec<u8>| p@),
            next_seq: self.next_seq,
            buffering: self.buffering,
            target: self.target_buffer as int,
            good: self.good_frames as int,
        }
    }

    /// Invariant of the buffer.
    pub open spec fn wf(&self) -> bool {
        view_wf(self.view())
    }

    /// An empty buffer, waiting for its first packet.
    pub fn new() -> (b: Self)
        ensures
            b.wf(),
            b.view() == initial_view(),
    {
        let b = JitterBuffer {
            packets: BTreeMap::new(),
            next_seq: None,
            buffering: true,
            target_buffer: MIN_TARGET,
            good_frames: 0,
        };
        assert(b.view().packets =~= Map::<u16, Seq<u8>>::empty());
        b
    }

    /// Number of packets held.
    pub fn len(&self) -> (n: usize)
        requires
            self.wf(),
        ensures
            n == self.view().packets.len(),
    {
        broadcast use vstd::laws_cmp::group_laws_cmp;
        assert(self.packets@.dom() =~= self.view().packets.dom());
        self.packets.len()
    }

    /// Current number of packets gathered before playback starts.
    pub fn target(&self) -> (t: usize)
        ensures
            t == self.view().target,
    {
        self.target_buffer
    }

    /// Is the buffer gathering packets before playback?
    pub fn is_buffering(&self) -> (b: bool)
        ensures
            b == self.view().buffering,
    {
        self.buffering
    }

    /// The sequence number that plays next, once known.
    pub fn expected_seq(&self) -> (e: Option<u16>)
        ensures
            e == self.view().next_seq,
    {
        self.next_seq
    }

    /// Store a received packet. Returns `false` when the packet is refused
    /// because its turn has already passed.
    pub fn receive(&mut self, seq: u16, payload: Vec<u8>) -> (stored: bool)
        requires
            old(self).wf(),
        ensures
            final(self).wf(),
            stored == !refuses(old(self).view(), seq),
            final(self).view() == spec_receive(old(self).view(), seq, payload@),
    {
        broadcast use vstd::laws_cmp::group_laws_cmp;

        let ghost s = self.view();
        if let Some(e) = self.next_seq {
            if is_late(seq, e) {
                return false;
            }
        }
        let ghost pv = payload@;
        self.packets.insert(seq, payload);
        let ghost m = s.packets.insert(seq, pv);
        assert(self.packets@.map_values(|p: Vec<u8>| p@) =~= m);
        assert(self.packets@.dom() =~= m.dom());
        if self.packets.len() > JITTER_CAPACITY {
            let k = smallest_key(&self.packets).unwrap();
            proof {
                lemma_first_key_unique(m, k);
            }
            self.packets.remove(&k);
            assert(self.packets@.map_values(|p: Vec<u8>| p@) =~= m.remove(k));
            assert(self.view().packets =~= spec_receive(s, seq, pv).packets);
        }
        assert(self.view().packets =~= spec_receive(s, seq, pv).packets);
        true
    }

    /// Decide what to play for the next frame of this peer.
    pub fn next_frame(&mut self) -> (out: Playout)
        requires
            old(self).wf(),
        ensures
            final(self).wf(),
            (final(self).view(), out.view()) == spec_next_frame(old(self).view()),
    {
        broadcast use vstd::laws_cmp::group_laws_cmp;

        let ghost s0 = self.view();
        assert(self.packets@.dom() =~= s0.packets.dom());
        if self.buffering {
            if self.packets.len() >= self.target_buffer {
                let k = smallest_key(&self.packets).unwrap();
                proof {
                    lemma_first_key_unique(s0.packets, k);
                }
                self.buffering = false;
                self.next_seq = Some(k);
            } else {
                return Playout::Wait;
            }
        }
        let ghost s = self.view();
        assert(s == settle(s0));
        let expected = self.next_seq.unwrap();
        let ghost before = self.packets@;
        match self.packets.remove(&expected) {
            Some(packet) => {
                assert(packet@ == s.packets[expected]);
                self.good_frames = self.good_frames.saturating_add(1);
                if self.good_frames > SHRINK_AFTER && self.target_buffer > MIN_TARGET {
                    self.target_buffer = self.target_buffer - 1;
                    self.good_frames = 0;
                }
                self.next_seq = Some(next_seq(expected));
                assert(self.view().packets =~= s.packets.remove(expected));
                Playout::Decode(packet)
            },
            None => {
                assert(self.packets@ =~= before);
                assert(self.view().packets =~= s.packets);
                self.good_frames = 0;
                if self.packets.is_empty() {
                    self.buffering = true;
                    assert(s.packets.len() == 0) by {
                        assert(s.packets.dom() =~= Set::<u16>::empty());
                    }
                    Playout::Wait
                } else {
                    assert(s.packets.len() != 0) by {
                        if s.packets.len() == 0 {
                            let j = self.packets@.dom().choose();
                            assert(s.packets.dom().contains(j));
                        }
                    }
                    if self.target_buffer < MAX_TARGET {
                        self.target_buffer = self.target_buffer + 1;
                    }
                    self.next_seq = Some(next_seq(expected));
                    Playout::Conceal
                }
            },
        }
    }
}

} // verus!
