//! The watermark decision: a uniform draw held against a fixed share, and
//! the exclusion of oversized segments.

use vstd::prelude::*;

verus! {

/// The share that selects every segment, in parts per million.
pub const WHOLE: u32 = 1_000_000;

/// A draw `draw`, uniform over the 32-bit values, selects a segment when the
/// fraction `draw / 2^32` lies below the share `per_million / 1_000_000`.
pub open spec fn selects(draw: u32, per_million: u32) -> bool {
    draw as int * 1_000_000 < per_million as int * 0x1_0000_0000
}

/// A segment of `len` bytes is too large to be watermarked.
pub open spec fn oversized(len: nat, max_segment_bytes: usize) -> bool {
    len > max_segment_bytes
}

/// `rand::random::<u32>()`: a draw from the thread's generator. Every value
/// may come back.
#[verifier::external_body]
pub(crate) fn random_u32() -> (draw: u32)
{
    rand::random::<u32>()
}

/// Whether the draw `draw` selects a segment for watermarking under the
/// share `per_million`.
pub fn should_watermark(draw: u32, per_million: u32) -> (selected: bool)
    ensures
        selected == selects(draw, per_million),
{
    let scaled: u64 = draw as u64 * 1_000_000;
    let bound: u64 = (per_million as u64) * 0x1_0000_0000;
    scaled < bound
}

/// Whether a fetched segment of `len` bytes is excluded from watermarking.
pub fn is_oversized(len: usize, max_segment_bytes: usize) -> (b: bool)
    ensures
        b == oversized(len as nat, max_segment_bytes),
{
    len > max_segment_bytes
}

/// A share of zero selects nothing; the whole selects everything; and a
/// larger share selects whatever a smaller one does.
pub proof fn lemma_share_bounds(draw: u32, lower: u32, higher: u32)
    requires
        lower <= higher,
    ensures
        !selects(draw, 0),
        selects(draw, WHOLE),
        selects(draw, lower) ==> selects(draw, higher),
{
    assert(lower as int * 0x1_0000_0000 <= higher as int * 0x1_0000_0000);
}

} // verus!
