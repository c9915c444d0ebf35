//! Voice activity gating with hangover, and the periodic clean-up tick of
//! the mixer.
//!
//! A frame is loud when its peak level is above the threshold (measured by
//! the caller). A loud frame arms the hangover for 15 frames; while the
//! microphone is neither muted nor deafened and the hangover is armed,
//! frames are transmitted, each quiet one using up one frame of hangover.

use vstd::prelude::*;

verus! {

/// Quiet frames still transmitted after the last loud one.
pub const HANGOVER_FRAMES: u32 = 15;

/// Mixing rounds between clean-ups of departed peers' audio state.
pub const CLEANUP_EVERY: u32 = 500;

/// New hangover and whether the frame is transmitted.
pub open spec fn spec_gate_step(hangover: u32, loud: bool, muted: bool, deafened: bool) -> (
    u32,
    bool,
) {
    let armed = if loud { HANGOVER_FRAMES } else { hangover };
    let speaking = !muted && !deafened && armed > 0;
    let next = if speaking && !loud { (armed - 1) as u32 } else { armed };
    (next, speaking)
}

/// The hangover state of the microphone.
pub struct VoiceGate {
    hangover: u32,
}

impl VoiceGate {
    /// Remaining hangover frames.
    pub closed spec fn hangover_view(&self) -> u32 {
        self.hangover
    }

    /// A gate that is closed until the first loud frame.
    pub fn new() -> (g: Self)
        ensures
            g.hangover_view() == 0,
    {
        VoiceGate { hangover: 0 }
    }

    /// Remaining hangover frames.
    pub fn hangover(&self) -> (h: u32)
        ensures
            h == self.hangover_view(),
    {
        self.hangover
    }

    /// Feed one 20 ms frame; returns whether it is transmitted.
    pub fn step(&mut self, loud: bool, muted: bool, deafened: bool) -> (transmit: bool)
        ensures
            (final(self).hangover_view(), transmit) == spec_gate_step(
                old(self).hangover_view(),
                loud,
                muted,
                deafened,
            ),
    {
        if loud {
            self.hangover = HANGOVER_FRAMES;
        }
        let speaking = !muted && !deafened && self.hangover > 0;
        if speaking && !loud {
            self.hangover = self.hangover - 1;
        }
        speaking
    }
}

/// Whether each of `n` quiet frames, fed from hangover `h` with the
/// microphone open, is transmitted: the state and count of transmitted
/// frames after them.
pub open spec fn quiet_run(h: u32, n: nat) -> (u32, nat)
    decreases n,
{
    if n == 0 {
        (h, 0)
    } else {
        let (h1, sent) = spec_gate_step(h, false, false, false);
        let (h2, k) = quiet_run(h1, (n - 1) as nat);
        (h2, k + if sent { 1nat } else { 0nat })
    }
}

/// With the microphone open, quiet frames keep being transmitted for
/// exactly the remaining hangover: of `n` quiet frames, `min(n, h)` go out.
pub proof fn law_hangover_run(h: u32, n: nat)
    ensures
        quiet_run(h, n).1 == if n <= h { n } else { h as nat },
        quiet_run(h, n).0 == if n <= h { (h - n) as u32 } else { 0u32 },
    decreases n,
{
    if n > 0 {
        let (h1, _) = spec_gate_step(h, false, false, false);
        law_hangover_run(h1, (n - 1) as nat);
    }
}

/// After a loud frame with the microphone open, the next 15 quiet frames
/// are transmitted and the 16th is not.
pub proof fn law_speech_hangover(h: u32)
    ensures
        spec_gate_step(h, true, false, false) == (HANGOVER_FRAMES, true),
        quiet_run(HANGOVER_FRAMES, 15).1 == 15,
        quiet_run(HANGOVER_FRAMES, 16).1 == 15,
{
    law_hangover_run(HANGOVER_FRAMES, 15);
    law_hangover_run(HANGOVER_FRAMES, 16);
}

/// Nothing is transmitted while muted or deafened.
pub proof fn law_muted_is_silent(h: u32, loud: bool, muted: bool, deafened: bool)
    requires
        muted || deafened,
    ensures
        !spec_gate_step(h, loud, muted, deafened).1,
{
}

/// Counts mixing rounds and signals every 500th for clean-up.
pub struct CleanupTimer {
    rounds: u32,
}

impl CleanupTimer {
    /// Rounds since the last clean-up.
    pub closed spec fn rounds_view(&self) -> u32 {
        self.rounds
    }

    /// A timer at zero rounds.
    pub fn new() -> (t: Self)
        ensures
            t.rounds_view() == 0,
    {
        CleanupTimer { rounds: 0 }
    }

    /// Count one round; returns `true` (and restarts) on the 500th.
    pub fn tick(&mut self) -> (clean: bool)
        requires
            old(self).rounds_view() < CLEANUP_EVERY,
        ensures
            clean == (old(self).rounds_view() + 1 >= CLEANUP_EVERY),
            final(self).rounds_view() == if clean { 0 } else { old(self).rounds_view() + 1 },
            final(self).rounds_view() < CLEANUP_EVERY,
    {
        self.rounds = self.rounds + 1;
        if self.rounds >= CLEANUP_EVERY {
            self.rounds = 0;
            true
        } else {
            false
        }
    }
}

/// What the speaker plays for one frame.
pub enum SpeakerFrame {
    /// Silence; the peers' jitter buffers are left as they are.
    Silence,
    /// The peers' decoded audio, mixed.
    Mix,
}

/// While deafened the speaker plays silence and nothing is taken from the
/// peers' jitter buffers; otherwise it plays their mixed audio.
pub fn speaker_frame(deafened: bool) -> (f: SpeakerFrame)
    ensures
        f is Silence <==> deafened,
{
    if deafened {
        SpeakerFrame::Silence
    } else {
        SpeakerFrame::Mix
    }
}

} // verus!
