//! Little-endian 16-bit PCM codec.
//!
//! Inbound audio arrives as raw little-endian signed 16-bit PCM bytes; the
//! pipeline works on the decoded 16-bit sample values. (The final scaling of
//! a sample to a unit-range amplitude, dividing by 32767, is a floating-point
//! step that lives at the I/O edge, outside this library.)

use vstd::prelude::*;

verus! {

/// The 16-bit sample encoded by a little-endian byte pair.
pub open spec fn sample_of_le(b0: u8, b1: u8) -> i16 {
    (b0 as u16 | ((b1 as u16) << 8)) as i16
}

/// Low byte of a sample's little-endian encoding.
pub open spec fn le_low(s: i16) -> u8 {
    (s as u16 & 0xff) as u8
}

/// High byte of a sample's little-endian encoding.
pub open spec fn le_high(s: i16) -> u8 {
    ((s as u16) >> 8) as u8
}

/// Decode one sample from its little-endian byte pair.
pub fn decode_sample(b0: u8, b1: u8) -> (s: i16)
    ensures
        s == sample_of_le(b0, b1),
{
    (b0 as u16 | ((b1 as u16) << 8)) as i16
}

/// Encode one sample as its little-endian byte pair.
pub fn encode_sample(s: i16) -> (b: (u8, u8))
    ensures
        b.0 == le_low(s),
        b.1 == le_high(s),
{
    ((s as u16 & 0xff) as u8, ((s as u16) >> 8) as u8)
}

/// The samples encoded by a byte sequence of interleaved little-endian
/// 16-bit PCM: one sample per consecutive byte pair, a trailing odd byte
/// ignored.
pub open spec fn decoded_pcm(bytes: Seq<u8>) -> Seq<i16> {
    Seq::new((bytes.len() / 2) as nat, |i: int| sample_of_le(bytes[2 * i], bytes[2 * i + 1]))
}

/// Decode a payload of interleaved little-endian 16-bit PCM bytes into its
/// samples.
pub fn decode_pcm(bytes: &Vec<u8>) -> (samples: Vec<i16>)
    ensures
        samples@ == decoded_pcm(bytes@),
{
    let m = bytes.len();
    let n = m / 2;
    let mut samples: Vec<i16> = Vec::new();
    let mut i: usize = 0;
    while i < n
        invariant
            m == bytes@.len(),
            n == bytes@.len() / 2,
            i <= n,
            samples@.len() == i,
            forall|j: int|
                0 <= j < i ==> samples@[j] == sample_of_le(bytes@[2 * j], bytes@[2 * j + 1]),
        decreases n - i,
    {
        assert(2 * i + 1 < bytes@.len());
        let s = decode_sample(bytes[2 * i], bytes[2 * i + 1]);
        samples.push(s);
        i += 1;
    }
    assert(samples@ =~= decoded_pcm(bytes@));
    samples
}

/// Encoding a sample to its little-endian byte pair and decoding the pair
/// yields the sample back.
pub proof fn lemma_pcm_round_trip(s: i16)
    ensures
        sample_of_le(le_low(s), le_high(s)) == s,
{
    assert(((s as u16 & 0xff) as u8 as u16 | ((((s as u16) >> 8) as u8 as u16) << 8)) as i16
        == s) by (bit_vector);
}

} // verus!
