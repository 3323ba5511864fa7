//! Decoding of raw depth buffers.
//!
//! The native layer exposes a depth image as a byte buffer of 16-bit
//! little-endian samples.  Decoding is pure: a buffer of `n` bytes (with `n`
//! even) yields exactly `n / 2` samples, each the little-endian reading of
//! two consecutive bytes.

use vstd::prelude::*;

verus! {

/// The `i`-th sample of a little-endian 16-bit buffer: low byte first.
pub open spec fn depth_sample(bytes: Seq<u8>, i: int) -> u16
    recommends
        0 <= i,
        2 * i + 1 < bytes.len(),
{
    (bytes[2 * i] as int + 256 * (bytes[2 * i + 1] as int)) as u16
}

/// All samples of a little-endian 16-bit buffer, in buffer order.
pub open spec fn decoded_samples(bytes: Seq<u8>) -> Seq<u16> {
    Seq::new((bytes.len() / 2) as nat, |i: int| depth_sample(bytes, i))
}

/// Decode a raw depth buffer into its 16-bit samples.
///
/// Exactly `bytes.len() / 2` samples come out, and the `i`-th sample is the
/// little-endian interpretation of bytes `2 * i` and `2 * i + 1`.
pub fn decode_depth_samples(bytes: &Vec<u8>) -> (samples: Vec<u16>)
    requires
        bytes@.len() % 2 == 0,
    ensures
        samples@ == decoded_samples(bytes@),
        samples@.len() == bytes@.len() / 2,
        forall|i: int| 0 <= i < samples@.len() ==> samples@[i] == depth_sample(bytes@, i),
{
    let n = bytes.len() / 2;
    let mut samples: Vec<u16> = Vec::new();
    let mut i: usize = 0;
    while i < n
        invariant
            n == bytes@.len() / 2,
            bytes@.len() % 2 == 0,
            2 * n == bytes@.len(),
            bytes@.len() <= usize::MAX,
            i <= n,
            samples@.len() == i,
            forall|j: int| 0 <= j < i ==> samples@[j] == depth_sample(bytes@, j),
        decreases n - i,
    {
        let lo = bytes[2 * i];
        let hi = bytes[2 * i + 1];
        let sample: u16 = lo as u16 + (hi as u16) * 256;
        samples.push(sample);
        i = i + 1;
    }
    proof {
        assert(samples@ =~= decoded_samples(bytes@));
    }
    samples
}

/// Copy a sample buffer.  Every read of a decoded image hands out a fresh
/// copy, so no caller can alias the cached samples.
pub fn copy_samples(samples: &Vec<u16>) -> (copy: Vec<u16>)
    ensures
        copy@ == samples@,
{
    let mut copy: Vec<u16> = Vec::new();
    let mut i: usize = 0;
    while i < samples.len()
        invariant
            i <= samples@.len(),
            copy@ =~= samples@.subrange(0, i as int),
        decreases samples@.len() - i,
    {
        copy.push(samples[i]);
        i = i + 1;
    }
    proof {
        assert(copy@ =~= samples@);
    }
    copy
}

} // verus!
