//! Timing rules of the peer table, on millisecond timestamps.
//!
//! A peer that has not been heard from for more than 5 whole seconds is
//! dropped; audio and pings go through the relay server unless a datagram
//! came directly from the peer within the last 2 whole seconds; a direct
//! route not used for 15 seconds is forgotten; a peer counts as speaking
//! for 300 ms after its last audio frame.

use vstd::prelude::*;

verus! {

/// Whole seconds after which a silent peer is dropped (strictly more).
pub const PEER_TIMEOUT_SECS: u64 = 5;

/// Whole seconds within which a direct datagram keeps the direct route.
pub const DIRECT_FRESH_SECS: u64 = 2;

/// Whole seconds after which a direct route is forgotten.
pub const DIRECT_FORGET_SECS: u64 = 15;

/// Milliseconds a peer counts as speaking after its last audio frame.
pub const SPEAKING_MS: u64 = 300;

/// Milliseconds from `then` to `now`, zero if `then` is later.
pub open spec fn spec_elapsed_ms(now: u64, then: u64) -> int {
    if now >= then {
        now - then
    } else {
        0
    }
}

/// Whole seconds from `then` to `now`, zero if `then` is later.
pub open spec fn spec_elapsed_secs(now: u64, then: u64) -> int {
    spec_elapsed_ms(now, then) / 1000
}

/// Whole seconds from `then` to `now`, zero if `then` is later.
pub fn elapsed_secs(now: u64, then: u64) -> (s: u64)
    ensures
        s == spec_elapsed_secs(now, then),
{
    now.saturating_sub(then) / 1000
}

/// Has the peer last heard at `last_seen` timed out?
pub fn peer_timed_out(now: u64, last_seen: u64) -> (out: bool)
    ensures
        out == (spec_elapsed_secs(now, last_seen) > PEER_TIMEOUT_SECS),
{
    elapsed_secs(now, last_seen) > PEER_TIMEOUT_SECS
}

/// Does traffic to a peer go through the relay server? `last_direct` is
/// when a datagram last came directly from it, if ever.
pub open spec fn spec_use_relay(now: u64, last_direct: Option<u64>) -> bool {
    match last_direct {
        Some(t) => spec_elapsed_secs(now, t) > DIRECT_FRESH_SECS,
        None => true,
    }
}

/// Does traffic to a peer go through the relay server? `last_direct` is
/// when a datagram last came directly from it, if ever.
pub fn use_relay(now: u64, last_direct: Option<u64>) -> (relay: bool)
    ensures
        relay == spec_use_relay(now, last_direct),
{
    match last_direct {
        Some(t) => elapsed_secs(now, t) > DIRECT_FRESH_SECS,
        None => true,
    }
}

/// Is a direct route last used at `last_direct` still remembered?
pub fn keep_direct_route(now: u64, last_direct: u64) -> (keep: bool)
    ensures
        keep == (spec_elapsed_secs(now, last_direct) < DIRECT_FORGET_SECS),
{
    elapsed_secs(now, last_direct) < DIRECT_FORGET_SECS
}

/// Is a peer whose last audio frame came at `last_spoken` speaking?
pub fn is_speaking(now: u64, last_spoken: u64) -> (speaking: bool)
    ensures
        speaking == (spec_elapsed_ms(now, last_spoken) < SPEAKING_MS),
{
    now.saturating_sub(last_spoken) < SPEAKING_MS
}

/// Round-trip time shown for a pong carrying `sent`, received at `now`:
/// the elapsed milliseconds (zero if `sent` is later), truncated to 32 bits.
pub fn ping_rtt_ms(now: u64, sent: u64) -> (rtt: u32)
    ensures
        rtt == spec_elapsed_ms(now, sent) % 4294967296,
{
    (now.saturating_sub(sent) % 4294967296u64) as u32
}

/// Without new direct traffic, a peer that goes through the relay keeps
/// going through it as time passes.
pub proof fn law_relay_is_sticky(now: u64, later: u64, last_direct: Option<u64>)
    requires
        now <= later,
        spec_use_relay(now, last_direct),
    ensures
        spec_use_relay(later, last_direct),
{
    if let Some(t) = last_direct {
        assert(spec_elapsed_ms(now, t) <= spec_elapsed_ms(later, t));
        assert(spec_elapsed_secs(now, t) <= spec_elapsed_secs(later, t)) by (nonlinear_arith)
            requires
                spec_elapsed_ms(now, t) <= spec_elapsed_ms(later, t),
                0 <= spec_elapsed_ms(now, t),
        ;
    }
}

/// A datagram just received directly from a peer makes the route direct.
pub proof fn law_fresh_direct_traffic_avoids_relay(now: u64)
    ensures
        !spec_use_relay(now, Some(now)),
{
}

/// Without new traffic, a timed-out peer stays timed out as time passes.
pub proof fn law_timeout_is_sticky(now: u64, later: u64, last_seen: u64)
    requires
        now <= later,
        spec_elapsed_secs(now, last_seen) > PEER_TIMEOUT_SECS,
    ensures
        spec_elapsed_secs(later, last_seen) > PEER_TIMEOUT_SECS,
{
    assert(spec_elapsed_secs(now, last_seen) <= spec_elapsed_secs(later, last_seen))
        by (nonlinear_arith)
        requires
            spec_elapsed_ms(now, last_seen) <= spec_elapsed_ms(later, last_seen),
            0 <= spec_elapsed_ms(now, last_seen),
    ;
}

} // verus!
