use p2p_voice::jitter::{JitterBuffer, Playout, JITTER_CAPACITY, MAX_TARGET, MIN_TARGET};
use p2p_voice::seqnum::{is_late, next_seq};

fn decoded(p: Playout) -> Option<Vec<u8>> {
    match p {
        Playout::Decode(v) => Some(v),
        _ => None,
    }
}

#[test]
fn late_sequence_numbers_wrap_around() {
    assert!(is_late(5, 10));
    assert!(!is_late(10, 5));
    assert!(!is_late(7, 7));
    assert!(is_late(65535, 0));
    assert!(!is_late(0, 65535));
    assert!(!is_late(32767, 0));
    assert!(is_late(32768, 0));
    assert_eq!(next_seq(65535), 0);
    assert_eq!(next_seq(41), 42);
}

#[test]
fn first_packet_plays_at_once() {
    let mut jb = JitterBuffer::new();
    assert!(jb.is_buffering());
    assert_eq!(jb.target(), MIN_TARGET);
    assert!(matches!(jb.next_frame(), Playout::Wait));
    assert!(jb.receive(700, vec![1, 2, 3]));
    assert_eq!(decoded(jb.next_frame()), Some(vec![1, 2, 3]));
    assert_eq!(jb.expected_seq(), Some(701));
    assert!(!jb.is_buffering());
}

#[test]
fn packets_play_in_sequence_order() {
    let mut jb = JitterBuffer::new();
    assert!(jb.receive(10, vec![10]));
    assert_eq!(decoded(jb.next_frame()), Some(vec![10]));
    assert!(jb.receive(12, vec![12]));
    assert!(jb.receive(11, vec![11]));
    assert_eq!(decoded(jb.next_frame()), Some(vec![11]));
    assert_eq!(decoded(jb.next_frame()), Some(vec![12]));
    assert_eq!(jb.len(), 0);
}

#[test]
fn late_packet_is_refused() {
    let mut jb = JitterBuffer::new();
    jb.receive(100, vec![0]);
    jb.next_frame();
    assert_eq!(jb.expected_seq(), Some(101));
    assert!(!jb.receive(99, vec![9]));
    assert_eq!(jb.len(), 0);
    assert!(jb.receive(101, vec![1]));
    assert_eq!(jb.len(), 1);
}

#[test]
fn capacity_drops_the_smallest_number() {
    let mut jb = JitterBuffer::new();
    for s in 0..(JITTER_CAPACITY as u16 + 1) {
        assert!(jb.receive(s + 20, vec![s as u8]));
    }
    assert_eq!(jb.len(), JITTER_CAPACITY);
    // 20 was dropped: playback starts at 21.
    assert_eq!(decoded(jb.next_frame()), Some(vec![1]));
    assert_eq!(jb.expected_seq(), Some(22));
}

#[test]
fn gap_is_concealed_and_target_grows() {
    let mut jb = JitterBuffer::new();
    jb.receive(1, vec![1]);
    assert_eq!(decoded(jb.next_frame()), Some(vec![1]));
    jb.receive(3, vec![3]);
    assert!(matches!(jb.next_frame(), Playout::Conceal));
    assert_eq!(jb.target(), 2);
    assert_eq!(jb.expected_seq(), Some(3));
    assert_eq!(decoded(jb.next_frame()), Some(vec![3]));
}

#[test]
fn dry_buffer_rebuffers_until_target() {
    let mut jb = JitterBuffer::new();
    jb.receive(1, vec![1]);
    jb.next_frame();
    jb.receive(3, vec![3]);
    jb.next_frame(); // conceal 2, target 2
    jb.next_frame(); // play 3
    assert!(matches!(jb.next_frame(), Playout::Wait));
    assert!(jb.is_buffering());
    jb.receive(4, vec![4]);
    assert!(matches!(jb.next_frame(), Playout::Wait));
    jb.receive(5, vec![5]);
    assert_eq!(decoded(jb.next_frame()), Some(vec![4]));
}

#[test]
fn target_is_capped_and_shrinks_after_good_frames() {
    let mut jb = JitterBuffer::new();
    jb.receive(0, vec![0]);
    jb.next_frame();
    // Many gaps: the target grows to the maximum and stays there.
    let mut s: u16 = 1;
    for _ in 0..8 {
        jb.receive(s + 1, vec![]);
        assert!(matches!(jb.next_frame(), Playout::Conceal));
        assert!(decoded(jb.next_frame()).is_some());
        s += 2;
    }
    assert_eq!(jb.target(), MAX_TARGET);
    // 251 frames on time shrink it by one.
    for i in 0..251u16 {
        jb.receive(s + i, vec![]);
        assert!(decoded(jb.next_frame()).is_some());
    }
    assert_eq!(jb.target(), MAX_TARGET - 1);
}
