//! Room secrets.
//!
//! Peers of a room share the room hash, the lowercase hex of SHA-256 over
//! `room:password`, which names the room to the signalling and relay
//! servers; each peer also draws a random id that the relay server uses to
//! tell its datagrams apart.

use sha2::{Digest, Sha256};
use vstd::prelude::*;
use vstd::string::StringSliceAdditionalSpecFns;

use crate::bytes::push_all;
use crate::packet::{relay_header, spec_relay_header};

verus! {

/// SHA-256 digest of `data`.
pub uninterp spec fn sha256_digest(data: Seq<u8>) -> Seq<u8>;

/// `sha2::Sha256::digest`: the 32-byte SHA-256 digest of `data`.
#[verifier::external_body]
fn sha256(data: &[u8]) -> (d: Vec<u8>)
    ensures
        d@ == sha256_digest(data@),
        d@.len() == 32,
{
    Sha256::digest(data).to_vec()
}

/// Lowercase hex digit of `n` (`n < 16`).
pub open spec fn hex_digit(n: u8) -> char {
    if n < 10 {
        (48 + n) as char
    } else {
        (87 + n) as char
    }
}

/// Lowercase hex text of `data`, two digits per byte, high nibble first.
pub open spec fn hex_lower(data: Seq<u8>) -> Seq<char>
    decreases data.len(),
{
    if data.len() == 0 {
        Seq::empty()
    } else {
        seq![hex_digit(data[0] / 16), hex_digit(data[0] % 16)] + hex_lower(data.drop_first())
    }
}

/// `hex::encode`: lowercase hex text of `data`, two digits per byte,
/// high nibble first.
#[verifier::external_body]
fn hex_encode(data: &[u8]) -> (s: String)
    ensures
        s@ == hex_lower(data@),
{
    hex::encode(data)
}

/// `rand::random`: a random 32-bit peer id.
#[verifier::external_body]
fn random_peer_id() -> (id: u32) {
    rand::random()
}

/// The room hash: lowercase hex of SHA-256 over the UTF-8 bytes of
/// `room:password`.
pub open spec fn spec_room_hash(room: Seq<u8>, password: Seq<u8>) -> Seq<char> {
    hex_lower(sha256_digest(room + seq![58u8] + password))
}

/// The bytes of an ASCII text.
pub open spec fn ascii_bytes(s: Seq<char>) -> Seq<u8> {
    Seq::new(s.len(), |i: int| s[i] as u8)
}

/// Hex text is ASCII and twice as long as its bytes.
pub proof fn lemma_hex_lower(data: Seq<u8>)
    ensures
        hex_lower(data).len() == 2 * data.len(),
        vstd::utf8::is_ascii_chars(hex_lower(data)),
    decreases data.len(),
{
    if data.len() > 0 {
        lemma_hex_lower(data.drop_first());
        let h = hex_lower(data);
        let t = hex_lower(data.drop_first());
        assert forall|i| 0 <= i < h.len() implies '\0' <= #[trigger] h[i] <= '\u{7f}' by {
            if i >= 2 {
                assert(h[i] == t[i - 2]);
            }
        }
    }
}

/// The room hash of `room` and `password`.
pub fn room_hash(room: &str, password: &str) -> (h: String)
    ensures
        h@ == spec_room_hash(room.spec_bytes(), password.spec_bytes()),
        h@.len() == 64,
        vstd::utf8::is_ascii_chars(h@),
{
    let mut input: Vec<u8> = Vec::new();
    push_all(&mut input, room.as_bytes());
    let sep: Vec<u8> = vec![58u8];
    push_all(&mut input, sep.as_slice());
    push_all(&mut input, password.as_bytes());
    assert(input@ =~= room.spec_bytes() + seq![58u8] + password.spec_bytes());
    let digest = sha256(input.as_slice());
    proof {
        lemma_hex_lower(digest@);
    }
    hex_encode(digest.as_slice())
}

/// What a peer needs to talk in a room.
pub struct Session {
    /// Lowercase hex room hash.
    pub room_hash: String,
    /// This peer's random id, used by the relay server.
    pub peer_id: u32,
    /// Header put before datagrams sent through the relay server.
    pub relay_header: Vec<u8>,
}

impl Session {
    /// The session belongs to the room with these (UTF-8) name and password.
    pub open spec fn for_room(&self, room: Seq<u8>, password: Seq<u8>) -> bool {
        &&& self.room_hash@ == spec_room_hash(room, password)
        &&& self.relay_header@ == spec_relay_header(ascii_bytes(self.room_hash@), self.peer_id)
    }

    /// Well-formed: a 64-character ASCII room hash.
    pub open spec fn wf(&self) -> bool {
        &&& self.room_hash@.len() == 64
        &&& vstd::utf8::is_ascii_chars(self.room_hash@)
    }

    /// Derive the room hash and draw a random peer id.
    pub fn establish(room: &str, password: &str) -> (s: Session)
        ensures
            s.wf(),
            s.for_room(room.spec_bytes(), password.spec_bytes()),
    {
        let room_hash = room_hash(room, password);
        let peer_id = random_peer_id();
        proof {
            lemma_hex_lower(sha256_digest(room.spec_bytes() + seq![58u8] + password.spec_bytes()));
        }
        let hash_str = room_hash.as_str();
        let hash_bytes = hash_str.as_bytes();
        proof {
            vstd::string::is_ascii_spec_bytes(hash_str);
            assert(hash_bytes@ =~= ascii_bytes(room_hash@));
        }
        let relay_header = relay_header(hash_bytes, peer_id);
        Session { room_hash, peer_id, relay_header }
    }

    /// The room hash as bytes, as it appears in relay headers.
    pub fn room_hash_bytes(&self) -> (b: Vec<u8>)
        requires
            self.wf(),
        ensures
            b@ == ascii_bytes(self.room_hash@),
            b@.len() == 64,
    {
        let s = self.room_hash.as_str();
        proof {
            vstd::string::is_ascii_spec_bytes(s);
        }
        let mut b: Vec<u8> = Vec::new();
        push_all(&mut b, s.as_bytes());
        assert(b@ =~= ascii_bytes(self.room_hash@));
        b
    }
}

} // verus!
