//! Explicit little-endian serialization of a sample batch into the raw
//! bytes handed to the audio sink: two bytes per sample, low byte first.

use vstd::prelude::*;

verus! {

/// The low byte of a sample's two-byte little-endian form.
pub open spec fn lo_byte(s: i16) -> u8 {
    ((s as u16) & 0xff) as u8
}

/// The high byte of a sample's two-byte little-endian form.
pub open spec fn hi_byte(s: i16) -> u8 {
    ((s as u16) >> 8) as u8
}

/// The little-endian byte form of an interleaved sample sequence:
/// exactly two bytes per sample, in sample order.
pub open spec fn le_bytes_of(samples: Seq<i16>) -> Seq<u8> {
    Seq::new(
        (samples.len() * 2) as nat,
        |i: int| if i % 2 == 0 { lo_byte(samples[i / 2]) } else { hi_byte(samples[i / 2]) },
    )
}

/// Serialize a batch of samples into its wire bytes. Every batch of
/// `n` samples becomes exactly `2 * n` bytes, never more, never less.
pub fn encode_samples(samples: &Vec<i16>) -> (out: Vec<u8>)
    requires
        samples@.len() * 2 <= usize::MAX,
    ensures
        out@ == le_bytes_of(samples@),
        out@.len() == samples@.len() * 2,
{
    let mut out: Vec<u8> = Vec::new();
    let mut i: usize = 0;
    while i < samples.len()
        invariant
            i <= samples@.len(),
            samples@.len() * 2 <= usize::MAX,
            out@.len() == i * 2,
            forall|j: int| 0 <= j < out@.len() ==> out@[j] == #[trigger] le_bytes_of(samples@)[j],
        decreases samples@.len() - i,
    {
        let s = samples[i];
        let u = s as u16;
        let lo = (u & 0xff) as u8;
        let hi = (u >> 8) as u8;
        out.push(lo);
        out.push(hi);
        i = i + 1;
    }
    assert(out@ =~= le_bytes_of(samples@));
    out
}

} // verus!
