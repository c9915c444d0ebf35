//! 16-bit wrapping sequence numbers of audio packets.

use vstd::prelude::*;

verus! {

/// Distance from `expected` forward to `seq`, modulo 2^16.
pub open spec fn seq_offset(seq: u16, expected: u16) -> int {
    (seq as int - expected as int) % 65536
}

/// A packet is late when it lies in the half of the sequence circle that
/// precedes `expected` (its signed 16-bit distance is negative).
pub open spec fn spec_is_late(seq: u16, expected: u16) -> bool {
    seq_offset(seq, expected) >= 32768
}

/// The wrapping difference read as a signed 16-bit number is negative
/// exactly when it is at least 2^15.
pub proof fn lemma_signed_distance(d: u16)
    ensures
        (d as i16) < 0 <==> d >= 32768,
{
    assert((d as i16) < 0 <==> d >= 32768) by (bit_vector);
}

/// A packet is late exactly when `seq - expected`, wrapped to 16 bits and
/// read as a signed number, is negative.
pub proof fn law_late_means_negative_distance(seq: u16, expected: u16)
    ensures
        spec_is_late(seq, expected) <==> (vstd::wrapping::u16_specs::wrapping_sub(seq, expected)
            as i16) < 0,
{
    let d = vstd::wrapping::u16_specs::wrapping_sub(seq, expected);
    lemma_signed_distance(d);
    assert(d as int == seq_offset(seq, expected));
}

/// Is `seq` behind `expected` on the wrapping sequence circle?
pub fn is_late(seq: u16, expected: u16) -> (late: bool)
    ensures
        late == spec_is_late(seq, expected),
{
    let d = seq.wrapping_sub(expected);
    d >= 32768
}

/// The number that follows `seq`, wrapping after 65535.
pub fn next_seq(seq: u16) -> (n: u16)
    ensures
        n as int == (seq as int + 1) % 65536,
{
    seq.wrapping_add(1)
}

} // verus!
