use p2p_voice::stun::{binding_request, mapped_address};

fn response(txid: &[u8], attrs: &[u8]) -> Vec<u8> {
    let mut r = vec![0x01, 0x01];
    r.extend_from_slice(&(attrs.len() as u16).to_be_bytes());
    r.extend_from_slice(&[0x21, 0x12, 0xA4, 0x42]);
    r.extend_from_slice(txid);
    r.extend_from_slice(attrs);
    r
}

fn xor_mapped(ip: [u8; 4], port: u16) -> Vec<u8> {
    let mut a = vec![0x00, 0x20, 0x00, 0x08, 0x00, 0x01];
    a.extend_from_slice(&(port ^ 0x2112).to_be_bytes());
    a.extend_from_slice(&[ip[0] ^ 0x21, ip[1] ^ 0x12, ip[2] ^ 0xA4, ip[3] ^ 0x42]);
    a
}

#[test]
fn binding_request_bytes() {
    let txid = [9u8; 12];
    let r = binding_request(&txid);
    assert_eq!(r.len(), 20);
    assert_eq!(&r[..8], &[0x00, 0x01, 0x00, 0x00, 0x21, 0x12, 0xA4, 0x42]);
    assert_eq!(&r[8..], &txid);
}

#[test]
fn mapped_address_is_read() {
    let txid = [3u8; 12];
    let resp = response(&txid, &xor_mapped([203, 0, 113, 7], 54321));
    assert_eq!(mapped_address(&resp, &txid), Some(([203, 0, 113, 7], 54321)));
}

#[test]
fn other_attributes_are_skipped() {
    let txid = [3u8; 12];
    // SOFTWARE attribute of 5 bytes, padded to 8.
    let mut attrs = vec![0x80, 0x22, 0x00, 0x05, b'a', b'b', b'c', b'd', b'e', 0, 0, 0];
    attrs.extend_from_slice(&xor_mapped([1, 2, 3, 4], 80));
    let resp = response(&txid, &attrs);
    assert_eq!(mapped_address(&resp, &txid), Some(([1, 2, 3, 4], 80)));
}

#[test]
fn wrong_responses_are_refused() {
    let txid = [3u8; 12];
    let good = response(&txid, &xor_mapped([1, 2, 3, 4], 80));
    assert!(mapped_address(&good, &[4u8; 12]).is_none());
    let mut bad_type = good.clone();
    bad_type[1] = 0x11;
    assert!(mapped_address(&bad_type, &txid).is_none());
    assert!(mapped_address(&good[..25], &txid).is_none());
    assert!(mapped_address(&response(&txid, &[]), &txid).is_none());
    let mut ipv6 = good.clone();
    ipv6[25] = 0x02;
    assert!(mapped_address(&ipv6, &txid).is_none());
}
