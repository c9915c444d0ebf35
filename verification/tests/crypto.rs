use p2p_voice::crypto::{room_hash, Session};
use p2p_voice::packet::{
    classify, peer_event, ping_packet, pong_packet, AudioSender, Datagram, PeerEvent, PeerTimes,
};
use sha2::{Digest, Sha256};

#[test]
fn room_hash_is_hex_sha256_of_room_and_password() {
    let expected = hex::encode(Sha256::digest(b"lobby:secret"));
    assert_eq!(room_hash("lobby", "secret"), expected);
    assert_eq!(
        room_hash("lobby", "secret"),
        "277be5b2560b1114c2b025213f92a3b90cfcd94ed6a3082cc621aab9f06797c9"
    );
    assert_eq!(room_hash("lobby", "secret").len(), 64);
    assert_eq!(
        room_hash("", ""),
        "e7ac0786668e0ff0f02b62bd04f45ff636fd82db63b1104601c975dc005f3a67"
    );
}

#[test]
fn session_holds_hash_and_relay_header() {
    let s = Session::establish("lobby", "secret");
    assert_eq!(s.room_hash, room_hash("lobby", "secret"));
    let mut header = s.room_hash.as_bytes().to_vec();
    header.extend_from_slice(&s.peer_id.to_be_bytes());
    assert_eq!(s.relay_header, header);
    assert_eq!(s.room_hash_bytes(), s.room_hash.as_bytes().to_vec());
}

#[test]
fn frames_carry_sequence_number_then_payload() {
    let mut tx = AudioSender::new();
    assert_eq!(tx.next_seq(), 0);
    let f0 = tx.frame_next(b"opus-frame-0");
    let f1 = tx.frame_next(b"opus-frame-1");
    assert_eq!(tx.next_seq(), 2);
    assert_eq!(f0, b"\x00\x00opus-frame-0".to_vec());
    assert_eq!(f1, b"\x00\x01opus-frame-1".to_vec());
    match classify(&f1) {
        Datagram::Audio { seq, payload } => {
            assert_eq!(seq, 1);
            assert_eq!(payload, b"opus-frame-1".to_vec());
        }
        _ => panic!("not audio"),
    }
}

#[test]
fn peer_events() {
    match peer_event(&ping_packet(1234), 0) {
        PeerEvent::Answer(p) => assert_eq!(p, pong_packet(1234)),
        _ => panic!("ping not answered"),
    }
    assert!(matches!(peer_event(&pong_packet(1000), 1250), PeerEvent::RoundTrip(250)));
    assert!(matches!(peer_event(&pong_packet(2000), 1000), PeerEvent::RoundTrip(0)));
    assert!(matches!(
        peer_event(&pong_packet(0), 0x1_0000_0005),
        PeerEvent::RoundTrip(5)
    ));
    assert!(matches!(peer_event(b"HOLE_PUNCH", 0), PeerEvent::Alive));
    assert!(matches!(peer_event(b"h", 0), PeerEvent::Drop));
    let mut tx = AudioSender::new();
    let short = tx.frame_next(b"abc");
    match peer_event(&short, 0) {
        PeerEvent::Voice(seq, p) => {
            assert_eq!(seq, 0);
            assert_eq!(p, b"abc".to_vec());
        }
        _ => panic!("voice not delivered"),
    }
    let f = tx.frame_next(&[5u8; 40]);
    match peer_event(&f, 0) {
        PeerEvent::Voice(seq, p) => {
            assert_eq!(seq, 1);
            assert_eq!(p, vec![5u8; 40]);
        }
        _ => panic!("voice not delivered"),
    }
    let one = tx.frame_next(&[9u8]);
    assert!(matches!(peer_event(&one, 0), PeerEvent::Voice(2, _)));
}

#[test]
fn sequence_wraps_after_65535() {
    let mut tx = AudioSender::new();
    for _ in 0..65535u32 {
        tx.frame_next(b"x");
    }
    assert_eq!(tx.next_seq(), 65535);
    let last = tx.frame_next(b"x");
    assert_eq!(&last[..2], &[0xFF, 0xFF]);
    assert_eq!(tx.next_seq(), 0);
    assert_eq!(&tx.frame_next(b"x")[..2], &[0x00, 0x00]);
}

#[test]
fn events_refresh_the_peer_times() {
    let start = || PeerTimes { last_seen: 1, last_spoken: 2, ping_ms: 3 };
    let mut t = start();
    PeerEvent::Alive.refresh(&mut t, 100);
    assert_eq!((t.last_seen, t.last_spoken, t.ping_ms), (100, 2, 3));
    let mut t = start();
    PeerEvent::Answer(pong_packet(5)).refresh(&mut t, 100);
    assert_eq!((t.last_seen, t.last_spoken, t.ping_ms), (100, 2, 3));
    let mut t = start();
    PeerEvent::RoundTrip(42).refresh(&mut t, 100);
    assert_eq!((t.last_seen, t.last_spoken, t.ping_ms), (100, 2, 42));
    let mut t = start();
    PeerEvent::Voice(7, vec![1, 2, 3]).refresh(&mut t, 100);
    assert_eq!((t.last_seen, t.last_spoken, t.ping_ms), (100, 100, 3));
    let mut t = start();
    PeerEvent::Drop.refresh(&mut t, 100);
    assert_eq!((t.last_seen, t.last_spoken, t.ping_ms), (1, 2, 3));
}
