//! Server addresses and the peer announcements exchanged over the
//! signalling socket.
//!
//! An announcement is `address|name|peer_id`: the peer's public UDP
//! address, its user name and its decimal relay id.

use vstd::prelude::*;

use crate::text::{
    before_first, join_str, contains, decimal, decimal_string, lemma_split_nonempty,
    lemma_split_single_without_sep, parse_u32, spec_contains, spec_parse_u32, split, split_char,
    str_eq, all_digits, digits_value, unsigned_digits, digit_char,
};

use crate::packet::{hole_punch, hole_punch_bytes};

verus! {

/// Servers on the local machine are spoken to without TLS.
pub open spec fn is_local_server(server: Seq<char>) -> bool {
    spec_contains(server, "localhost"@) || spec_contains(server, "127.0.0.1"@)
}

/// `http` for a local server, `https` otherwise.
pub fn http_scheme(server: &str) -> (scheme: &'static str)
    ensures
        scheme@ == if is_local_server(server@) {
            "http"@
        } else {
            "https"@
        },
{
    if contains(server, "localhost") || contains(server, "127.0.0.1") {
        "http"
    } else {
        "https"
    }
}

/// `ws` for a local server, `wss` otherwise.
pub fn ws_scheme(server: &str) -> (scheme: &'static str)
    ensures
        scheme@ == if is_local_server(server@) {
            "ws"@
        } else {
            "wss"@
        },
{
    if contains(server, "localhost") || contains(server, "127.0.0.1") {
        "ws"
    } else {
        "wss"
    }
}

/// `scheme://server/api/endpoint` with the scheme of [`http_scheme`].
pub open spec fn spec_api_url(server: Seq<char>, endpoint: Seq<char>) -> Seq<char> {
    (if is_local_server(server) {
        "http"@
    } else {
        "https"@
    }) + "://"@ + server + "/api/"@ + endpoint
}

/// The URL of an HTTP endpoint of the server.
pub fn api_url(server: &str, endpoint: &str) -> (url: String)
    ensures
        url@ == spec_api_url(server@, endpoint@),
{
    let mut url = join_str(http_scheme(server), "://");
    url.append(server);
    url.append("/api/");
    url.append(endpoint);
    url
}

/// The endpoint that logs in (`login`) or registers (`register`).
pub fn auth_endpoint(is_login: bool) -> (e: &'static str)
    ensures
        e@ == if is_login {
            "login"@
        } else {
            "register"@
        },
{
    if is_login {
        "login"
    } else {
        "register"
    }
}

/// The URL that logs in or registers.
pub fn auth_url(server: &str, is_login: bool) -> (url: String)
    ensures
        url@ == spec_api_url(server@, if is_login { "login"@ } else { "register"@ }),
{
    api_url(server, auth_endpoint(is_login))
}

/// The URL that stores the user's settings on the server.
pub fn config_sync_url(server: &str) -> (url: String)
    ensures
        url@ == spec_api_url(server@, "config"@),
{
    api_url(server, "config")
}

/// The signalling URL of a room: `ws[s]://server/ws/room_hash`.
pub fn signal_url(server: &str, room_hash: &str) -> (url: String)
    ensures
        url@ == (if is_local_server(server@) {
            "ws"@
        } else {
            "wss"@
        }) + "://"@ + server@ + "/ws/"@ + room_hash@,
{
    let mut url = join_str(ws_scheme(server), "://");
    url.append(server);
    url.append("/ws/");
    url.append(room_hash);
    url
}

/// The relay server: the host part of the server address (before any
/// `:`) on port 3031.
pub fn relay_address(server: &str) -> (addr: String)
    ensures
        addr@ == split_char(server@, ':')[0] + ":3031"@,
{
    join_str(before_first(server, ':'), ":3031")
}

/// A peer as announced on the signalling socket.
pub struct Announcement {
    /// The peer's public UDP address, as text.
    pub addr: String,
    /// The peer's user name.
    pub name: String,
    /// The peer's relay id.
    pub peer_id: u32,
}

/// The announcement text of a peer.
pub open spec fn spec_announcement(addr: Seq<char>, name: Seq<char>, peer_id: u32) -> Seq<char> {
    addr + seq!['|'] + name + seq!['|'] + decimal(peer_id as nat)
}

/// This peer's announcement.
pub fn announcement(addr: &str, name: &str, peer_id: u32) -> (text: String)
    ensures
        text@ == spec_announcement(addr@, name@, peer_id),
{
    let mut text = join_str(addr, "|");
    text.append(name);
    text.append("|");
    let id = decimal_string(peer_id);
    text.append(id.as_str());
    proof {
        reveal_strlit("|");
    }
    assert(text@ =~= spec_announcement(addr@, name@, peer_id));
    text
}

/// What an announcement received on the signalling socket gives: nothing
/// for this peer's own text; otherwise the three `|`-separated parts when
/// there are exactly three and the last is a 32-bit number.
pub open spec fn spec_parse_announcement(text: Seq<char>, own: Seq<char>) -> Option<
    (Seq<char>, Seq<char>, u32),
> {
    let parts = split_char(text, '|');
    if text == own {
        None
    } else if parts.len() == 3 && spec_parse_u32(parts[2]) is Some {
        Some((parts[0], parts[1], spec_parse_u32(parts[2])->0))
    } else {
        None
    }
}

/// Read a peer's announcement; `own` is this peer's own announcement,
/// which the server echoes and which is ignored.
pub fn parse_announcement(text: &str, own: &str) -> (a: Option<Announcement>)
    ensures
        a matches Some(a) ==> spec_parse_announcement(text@, own@) == Some(
            (a.addr@, a.name@, a.peer_id),
        ),
        a is None ==> spec_parse_announcement(text@, own@) is None,
{
    if str_eq(text, own) {
        return None;
    }
    let parts = split(text, '|');
    assert(parts@.map_values(|p: String| p@).len() == parts@.len());
    if parts.len() != 3 {
        return None;
    }
    assert(parts@[2]@ == split_char(text@, '|')[2]);
    match parse_u32(parts[2].as_str()) {
        Some(peer_id) => {
            assert(parts@[0]@ == split_char(text@, '|')[0]);
            assert(parts@[1]@ == split_char(text@, '|')[1]);
            Some(Announcement { addr: parts[0].clone(), name: parts[1].clone(), peer_id })
        },
        None => None,
    }
}

/// Hole punches sent to a newly announced peer.
pub const HOLE_PUNCH_BURST: usize = 5;

/// How long before its arrival a new peer is taken to have last spoken
/// (milliseconds), so that it does not show as speaking.
pub const SPOKEN_LONG_AGO_MS: u64 = 10000;

/// The peer-table entry of a newly announced peer.
pub struct NewPeer {
    pub name: String,
    /// When it was last heard from (ms).
    pub last_seen: u64,
    /// When it last sent audio (ms).
    pub last_spoken: u64,
    /// Last measured round trip (ms).
    pub ping_ms: u32,
}

/// What this side does on a peer's announcement.
pub struct AnnouncementStep {
    /// The relay id to record for the announced address (always recorded).
    pub peer_id: u32,
    /// The announced address, as text.
    pub addr: String,
    /// The entry to add to the peer table, for an address not in it yet.
    pub new_peer: Option<NewPeer>,
    /// Datagrams to send to the announced address.
    pub punches: Vec<Vec<u8>>,
    /// Text to send back on the signalling socket, so that the new peer
    /// learns of this one.
    pub reannounce: Option<String>,
}

/// React to `peer`'s announcement received at `now` (ms); `known` says
/// whether its address is in the peer table already, and `own` is this
/// peer's own announcement. The id is always recorded for the address. A
/// known address is left as it is (its name is not replaced) and nothing
/// is sent. A new one is added under the announced name, seen now, not
/// speaking, with no round trip measured yet; it gets five hole punches,
/// and this peer announces itself once more.
pub fn announcement_step(peer: Announcement, known: bool, now: u64, own: &str) -> (step:
    AnnouncementStep)
    ensures
        step.peer_id == peer.peer_id,
        step.addr@ == peer.addr@,
        known ==> step.new_peer is None,
        known ==> step.punches@.len() == 0,
        known ==> step.reannounce is None,
        !known ==> (step.new_peer matches Some(np) && np.name@ == peer.name@ && np.last_seen == now
            && np.last_spoken == (if now >= SPOKEN_LONG_AGO_MS {
            now - SPOKEN_LONG_AGO_MS
        } else {
            0
        }) && np.ping_ms == 0),
        !known ==> step.punches@.len() == HOLE_PUNCH_BURST,
        forall|i: int| 0 <= i < step.punches@.len() ==> (#[trigger] step.punches@[i])@ == hole_punch_bytes(),
        !known ==> (step.reannounce matches Some(t) && t@ == own@),
{
    let Announcement { addr, name, peer_id } = peer;
    let mut punches: Vec<Vec<u8>> = Vec::new();
    if known {
        return AnnouncementStep { peer_id, addr, new_peer: None, punches, reannounce: None };
    }
    let new_peer = NewPeer {
        name,
        last_seen: now,
        last_spoken: now.saturating_sub(SPOKEN_LONG_AGO_MS),
        ping_ms: 0,
    };
    let mut i: usize = 0;
    while i < HOLE_PUNCH_BURST
        invariant
            i <= HOLE_PUNCH_BURST,
            punches@.len() == i,
            forall|j: int| 0 <= j < punches@.len() ==> (#[trigger] punches@[j])@ == hole_punch_bytes(),
        decreases HOLE_PUNCH_BURST - i,
    {
        punches.push(hole_punch());
        i = i + 1;
    }
    AnnouncementStep {
        peer_id,
        addr,
        new_peer: Some(new_peer),
        punches,
        reannounce: Some(own.to_owned()),
    }
}

/// Splitting at a separator splits the two sides independently.
pub proof fn lemma_split_concat(x: Seq<char>, y: Seq<char>, sep: char)
    ensures
        split_char(x + seq![sep] + y, sep) == split_char(x, sep) + split_char(y, sep),
    decreases y.len(),
{
    if y.len() == 0 {
        assert(x + seq![sep] + y =~= x.push(sep));
        assert((x.push(sep)).drop_last() =~= x);
        assert(split_char(y, sep) =~= seq![Seq::<char>::empty()]);
        assert(split_char(x, sep).push(Seq::empty()) =~= split_char(x, sep) + split_char(y, sep));
    } else {
        let z = x + seq![sep] + y;
        lemma_split_concat(x, y.drop_last(), sep);
        assert(z.drop_last() =~= x + seq![sep] + y.drop_last());
        assert(z.last() == y.last());
        lemma_split_nonempty(y.drop_last(), sep);
        let a = split_char(x, sep);
        let b = split_char(y.drop_last(), sep);
        if y.last() == sep {
            assert((a + b).push(Seq::empty()) =~= a + b.push(Seq::empty()));
        } else {
            assert((a + b).update((a + b).len() - 1, (a + b).last().push(y.last())) =~= a
                + b.update(b.len() - 1, b.last().push(y.last())));
        }
    }
}

/// Decimal text is a non-empty run of digits with the number's value.
pub proof fn lemma_decimal_digits(n: nat)
    ensures
        decimal(n).len() > 0,
        all_digits(decimal(n)),
        digits_value(decimal(n)) == n,
        decimal(n)[0] != '+',
        forall|i: int| 0 <= i < decimal(n).len() ==> decimal(n)[i] != '|',
    decreases n,
{
    if n >= 10 {
        lemma_decimal_digits(n / 10);
        let d = decimal(n);
        assert(d.drop_last() =~= decimal(n / 10));
        assert(d[0] == decimal(n / 10)[0]);
        assert(d.last() == digit_char(n % 10));
        assert(digit_char(n % 10) as nat == 48 + n % 10);
        assert((n / 10) * 10 + n % 10 == n) by (nonlinear_arith);
        assert(digits_value(d) == digits_value(d.drop_last()) * 10 + (d.last() as nat - 48) as nat);
        assert(digits_value(d.drop_last()) == n / 10);
        assert((d.last() as nat - 48) as nat == n % 10);
        assert(digits_value(d) == (n / 10) * 10 + n % 10);
    } else {
        let d = decimal(n);
        assert(digits_value(d) == digits_value(d.drop_last()) * 10 + (d.last() as nat - 48) as nat);
        assert(d.drop_last() =~= Seq::<char>::empty());
        assert(digit_char(n) as nat == 48 + n);
    }
}

/// A number written in decimal is read back as the same number.
pub proof fn law_decimal_roundtrip(n: u32)
    ensures
        spec_parse_u32(decimal(n as nat)) == Some(n),
{
    lemma_decimal_digits(n as nat);
    assert(unsigned_digits(decimal(n as nat)) == decimal(n as nat));
}

/// Another peer's announcement is read back as the address, name and id it
/// was made from, when neither the address nor the name contains `|`.
pub proof fn law_announcement_roundtrip(addr: Seq<char>, name: Seq<char>, peer_id: u32, own: Seq<char>)
    requires
        forall|i: int| 0 <= i < addr.len() ==> addr[i] != '|',
        forall|i: int| 0 <= i < name.len() ==> name[i] != '|',
        spec_announcement(addr, name, peer_id) != own,
    ensures
        spec_parse_announcement(spec_announcement(addr, name, peer_id), own) == Some(
            (addr, name, peer_id),
        ),
{
    let d = decimal(peer_id as nat);
    lemma_decimal_digits(peer_id as nat);
    law_decimal_roundtrip(peer_id);
    lemma_split_concat(name, d, '|');
    lemma_split_concat(addr, name + seq!['|'] + d, '|');
    assert(spec_announcement(addr, name, peer_id) =~= addr + seq!['|'] + (name + seq!['|'] + d));
    lemma_split_single_without_sep(addr, '|');
    lemma_split_single_without_sep(name, '|');
    lemma_split_single_without_sep(d, '|');
    let parts = split_char(spec_announcement(addr, name, peer_id), '|');
    assert(parts =~= seq![addr, name, d]);
}

/// This peer's own announcement, echoed back, is ignored.
pub proof fn law_own_announcement_ignored(text: Seq<char>)
    ensures
        spec_parse_announcement(text, text) is None,
{
}

} // verus!
