//! The STUN binding exchange (RFC 5389) that tells a peer its public UDP
//! address: a 20-byte binding request, and the XOR-MAPPED-ADDRESS
//! attribute of the success response.

use vstd::prelude::*;

use crate::bytes::{
    be16, bytes_equal, from_be16, from_be32, lemma_be16_roundtrip, push_all, read_be16, read_be32,
};

verus! {

/// The fixed magic cookie of STUN messages.
pub const MAGIC_COOKIE: u32 = 0x2112A442u32;

/// Length of a STUN message header.
pub const STUN_HEADER_LEN: usize = 20;

/// Message type of a binding request.
pub const BINDING_REQUEST: u16 = 0x0001u16;

/// Message type of a binding success response.
pub const BINDING_SUCCESS: u16 = 0x0101u16;

/// Attribute type of XOR-MAPPED-ADDRESS.
pub const XOR_MAPPED_ADDRESS: u16 = 0x0020u16;

/// The bytes of the magic cookie.
pub open spec fn cookie_bytes() -> Seq<u8> {
    seq![0x21u8, 0x12u8, 0xA4u8, 0x42u8]
}

/// A binding request with transaction id `txid`.
pub open spec fn spec_binding_request(txid: Seq<u8>) -> Seq<u8> {
    seq![0x00u8, 0x01u8, 0x00u8, 0x00u8] + cookie_bytes() + txid
}

/// Build a binding request with the 12-byte transaction id `txid`.
pub fn binding_request(txid: &[u8]) -> (req: Vec<u8>)
    ensures
        req@ == spec_binding_request(txid@),
{
    let mut req: Vec<u8> = vec![0x00u8, 0x01u8, 0x00u8, 0x00u8, 0x21u8, 0x12u8, 0xA4u8, 0x42u8];
    assert(req@ =~= seq![0x00u8, 0x01u8, 0x00u8, 0x00u8] + cookie_bytes());
    push_all(&mut req, txid);
    req
}

/// Attribute value length rounded up to a multiple of four.
pub open spec fn padded(len: int) -> int {
    len + (4 - len % 4) % 4
}

/// The public address in the first XOR-MAPPED-ADDRESS attribute found at
/// or after offset `at` of the attribute area `d[20..end]`, if it is an
/// IPv4 one: the four address bytes and the port.
pub open spec fn spec_find_mapped(d: Seq<u8>, at: int, end: int) -> Option<(Seq<u8>, u16)>
    decreases end - at,
{
    if at < 0 || at + 4 > end || end > d.len() {
        None
    } else {
        let ty = from_be16(d.subrange(at, at + 2));
        let len = from_be16(d.subrange(at + 2, at + 4)) as int;
        if at + 4 + len > end {
            None
        } else if ty == XOR_MAPPED_ADDRESS {
            if len >= 8 && d[at + 5] == 0x01u8 {
                Some((
                    seq![
                        d[at + 8] ^ 0x21u8,
                        d[at + 9] ^ 0x12u8,
                        d[at + 10] ^ 0xA4u8,
                        d[at + 11] ^ 0x42u8,
                    ],
                    from_be16(d.subrange(at + 6, at + 8)) ^ 0x2112u16,
                ))
            } else {
                None
            }
        } else if at + 4 + padded(len) > end {
            None
        } else {
            spec_find_mapped(d, at + 4 + padded(len), end)
        }
    }
}

/// The public address carried by a binding success response to the
/// request with transaction id `txid`.
pub open spec fn spec_mapped_address(d: Seq<u8>, txid: Seq<u8>) -> Option<(Seq<u8>, u16)> {
    if d.len() < STUN_HEADER_LEN || from_be16(d.subrange(0, 2)) != BINDING_SUCCESS || d.subrange(
        4,
        8,
    ) != cookie_bytes() || d.subrange(8, 20) != txid {
        None
    } else {
        let end = 20 + from_be16(d.subrange(2, 4)) as int;
        if end > d.len() {
            None
        } else {
            spec_find_mapped(d, 20, end)
        }
    }
}

/// Read the public IPv4 address and port from a binding success response
/// to the request with transaction id `txid`.
pub fn mapped_address(resp: &[u8], txid: &[u8]) -> (r: Option<([u8; 4], u16)>)
    ensures
        r matches Some((ip, port)) ==> spec_mapped_address(resp@, txid@) == Some((ip@, port)),
        r is None ==> spec_mapped_address(resp@, txid@) is None,
{
    if resp.len() < STUN_HEADER_LEN {
        return None;
    }
    if read_be16(resp, 0) != BINDING_SUCCESS {
        return None;
    }
    let cookie: Vec<u8> = vec![0x21u8, 0x12u8, 0xA4u8, 0x42u8];
    assert(cookie@ =~= cookie_bytes());
    if !bytes_equal(vstd::slice::slice_subrange(resp, 4, 8), cookie.as_slice()) {
        return None;
    }
    if !bytes_equal(vstd::slice::slice_subrange(resp, 8, 20), txid) {
        return None;
    }
    let body_len = read_be16(resp, 2) as usize;
    if body_len > resp.len() - 20 {
        return None;
    }
    let end = 20 + body_len;
    let mut at: usize = 20;
    while at + 4 <= end
        invariant
            20 <= at <= end,
            end <= resp@.len(),
            end <= 65555,
            resp@.len() <= usize::MAX,
            spec_mapped_address(resp@, txid@) == spec_find_mapped(resp@, at as int, end as int),
        decreases end - at,
    {
        let ty = read_be16(resp, at);
        let len = read_be16(resp, at + 2) as usize;
        if len > end - at - 4 {
            return None;
        }
        if ty == XOR_MAPPED_ADDRESS {
            if len >= 8 && resp[at + 5] == 0x01u8 {
                let ip: [u8; 4] = [
                    resp[at + 8] ^ 0x21u8,
                    resp[at + 9] ^ 0x12u8,
                    resp[at + 10] ^ 0xA4u8,
                    resp[at + 11] ^ 0x42u8,
                ];
                let port = read_be16(resp, at + 6) ^ 0x2112u16;
                assert(ip@ =~= seq![
                    resp@[at + 8] ^ 0x21u8,
                    resp@[at + 9] ^ 0x12u8,
                    resp@[at + 10] ^ 0xA4u8,
                    resp@[at + 11] ^ 0x42u8,
                ]);
                return Some((ip, port));
            } else {
                return None;
            }
        }
        let step = len + (4 - len % 4) % 4;
        if step > end - at - 4 {
            return None;
        }
        at = at + 4 + step;
    }
    None
}

/// Encode `port` and the IPv4 address `ip` as an XOR-MAPPED-ADDRESS value.
pub open spec fn xor_mapped_value(ip: Seq<u8>, port: u16) -> Seq<u8> {
    seq![0x00u8, 0x01u8] + be16(port ^ 0x2112u16) + seq![
        ip[0] ^ 0x21u8,
        ip[1] ^ 0x12u8,
        ip[2] ^ 0xA4u8,
        ip[3] ^ 0x42u8,
    ]
}

/// A success response answering `txid` whose only attribute is the
/// XOR-MAPPED-ADDRESS of `ip:port`.
pub open spec fn spec_success_response(txid: Seq<u8>, ip: Seq<u8>, port: u16) -> Seq<u8> {
    be16(BINDING_SUCCESS) + be16(12) + cookie_bytes() + txid + be16(XOR_MAPPED_ADDRESS) + be16(8)
        + xor_mapped_value(ip, port)
}

/// A success response carrying the XOR-MAPPED-ADDRESS of `ip:port` gives
/// back `ip` and `port`.
pub proof fn law_mapped_address_roundtrip(txid: Seq<u8>, ip: Seq<u8>, port: u16)
    requires
        txid.len() == 12,
        ip.len() == 4,
    ensures
        spec_mapped_address(spec_success_response(txid, ip, port), txid) == Some((ip, port)),
{
    let d = spec_success_response(txid, ip, port);
    lemma_be16_roundtrip(BINDING_SUCCESS);
    lemma_be16_roundtrip(12);
    lemma_be16_roundtrip(XOR_MAPPED_ADDRESS);
    lemma_be16_roundtrip(8);
    lemma_be16_roundtrip(port ^ 0x2112u16);
    assert(d.len() == 32);
    assert(d.subrange(0, 2) =~= be16(BINDING_SUCCESS));
    assert(d.subrange(2, 4) =~= be16(12));
    assert(d.subrange(4, 8) =~= cookie_bytes());
    assert(d.subrange(8, 20) =~= txid);
    assert(d.subrange(20, 22) =~= be16(XOR_MAPPED_ADDRESS));
    assert(d.subrange(22, 24) =~= be16(8));
    assert(d.subrange(26, 28) =~= be16(port ^ 0x2112u16));
    let back = seq![d[28] ^ 0x21u8, d[29] ^ 0x12u8, d[30] ^ 0xA4u8, d[31] ^ 0x42u8];
    let (i0, i1, i2, i3) = (ip[0], ip[1], ip[2], ip[3]);
    assert((i0 ^ 0x21u8) ^ 0x21u8 == i0 && (i1 ^ 0x12u8) ^ 0x12u8 == i1 && (i2 ^ 0xA4u8) ^ 0xA4u8
        == i2 && (i3 ^ 0x42u8) ^ 0x42u8 == i3) by (bit_vector);
    assert(back =~= ip);
    let p = port;
    assert((p ^ 0x2112u16) ^ 0x2112u16 == p) by (bit_vector);
}

} // verus!
