use p2p_voice::packet::{
    audio_frame, classify, hole_punch, ping_packet, pong_packet, relay_header, relay_wrap,
    unwrap_relayed, Datagram,
};

fn hash64() -> Vec<u8> {
    b"0123456789abcdef0123456789abcdef0123456789abcdef0123456789abcdef".to_vec()
}

#[test]
fn ping_and_pong_bytes() {
    let p = ping_packet(0x0102030405060708);
    assert_eq!(p, b"PING\x01\x02\x03\x04\x05\x06\x07\x08".to_vec());
    let q = pong_packet(0x0102030405060708);
    assert_eq!(q, b"PONG\x01\x02\x03\x04\x05\x06\x07\x08".to_vec());
    assert!(matches!(classify(&p), Datagram::Ping { stamp: 0x0102030405060708 }));
    assert!(matches!(classify(&q), Datagram::Pong { stamp: 0x0102030405060708 }));
}

#[test]
fn hole_punch_is_recognised() {
    assert_eq!(hole_punch(), b"HOLE_PUNCH".to_vec());
    assert!(matches!(classify(b"HOLE_PUNCH"), Datagram::HolePunch));
    // Ten other bytes are an audio frame, numbered by their first two.
    assert!(matches!(classify(b"HOLE_PUNCX"), Datagram::Audio { seq: 0x484F, .. }));
}

#[test]
fn short_datagrams_are_ignored() {
    assert!(matches!(classify(&[0u8; 2]), Datagram::Ignored));
    assert!(matches!(classify(&[0u8; 1]), Datagram::Ignored));
    assert!(matches!(classify(b""), Datagram::Ignored));
}

#[test]
fn datagrams_of_3_bytes_and_more_are_audio() {
    let mut d = vec![1u8, 2];
    d.extend_from_slice(&[7u8; 28]);
    match classify(&d) {
        Datagram::Audio { seq, payload } => {
            assert_eq!(seq, 0x0102);
            assert_eq!(payload, vec![7u8; 28]);
        }
        _ => panic!("not audio"),
    }
    match classify(&[1u8, 2, 3]) {
        Datagram::Audio { seq, payload } => {
            assert_eq!(seq, 0x0102);
            assert_eq!(payload, vec![3u8]);
        }
        _ => panic!("not audio"),
    }
    // Thirteen bytes starting `PING` are no ping but audio.
    assert!(matches!(classify(b"PINGxxxxxxxxx"), Datagram::Audio { seq: 0x5049, .. }));
}

#[test]
fn audio_frame_layout_and_roundtrip() {
    let opus = [9u8; 40];
    let f = audio_frame(0xABCD, &opus);
    assert_eq!(f.len(), 42);
    assert_eq!(&f[..2], &[0xAB, 0xCD]);
    assert_eq!(&f[2..], &opus);
    match classify(&f) {
        Datagram::Audio { seq, payload } => {
            assert_eq!(seq, 0xABCD);
            assert_eq!(payload, opus.to_vec());
        }
        _ => panic!("not audio"),
    }
    // A short payload is audio too.
    assert!(matches!(classify(&audio_frame(1, &[9u8; 3])), Datagram::Audio { seq: 1, .. }));
    // A frame whose bytes spell a ping is read as a ping.
    assert!(matches!(classify(&audio_frame(0x5049, b"NG\0\0\0\0\0\0\0\0")), Datagram::Ping { stamp: 0 }));
}

#[test]
fn relay_header_roundtrip() {
    let h = relay_header(&hash64(), 0xDEADBEEF);
    assert_eq!(h.len(), 68);
    assert_eq!(&h[64..], &[0xDE, 0xAD, 0xBE, 0xEF]);
    let d = relay_wrap(&h, b"HOLE_PUNCH");
    let (id, rest) = unwrap_relayed(&d, &hash64()).unwrap();
    assert_eq!(id, 0xDEADBEEF);
    assert_eq!(rest, b"HOLE_PUNCH".to_vec());
}

#[test]
fn relay_refuses_other_rooms_and_bare_headers() {
    let h = relay_header(&hash64(), 1);
    assert!(unwrap_relayed(&h, &hash64()).is_none());
    let d = relay_wrap(&h, b"x");
    let mut other = hash64();
    other[0] = b'f';
    assert!(unwrap_relayed(&d, &other).is_none());
    assert!(unwrap_relayed(&d, &hash64()).is_some());
}
