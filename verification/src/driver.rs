//! Per-buffer orchestration.
//!
//! Once per host buffer the driver splits each channel into consecutive
//! processing blocks of at most `BLOCK_SIZE` samples and decides, per block,
//! which shaper runs and whether the oversampling stage surrounds it. Those
//! decisions are computed here as a plan over plain values; the float signal
//! path executes the plan outside this library.

use vstd::prelude::*;

use crate::distortions::DistortionType;
use crate::oversamplers::{Oversampler, BLOCK_SIZE};

verus! {

/// The effect is stereo: exactly two channels, each with its own oversampler.
pub const CHANNEL_COUNT: usize = 2;

/// How many processing blocks a buffer of `total` samples per channel is
/// split into: full blocks of `BLOCK_SIZE` samples, with one shorter block
/// for whatever remains at the end.
pub open spec fn spec_block_count(total: nat) -> nat
    decreases total,
{
    if total == 0 {
        0
    } else if total <= BLOCK_SIZE {
        1
    } else {
        1 + spec_block_count((total - BLOCK_SIZE) as nat)
    }
}

/// Length of block `i` of a buffer of `total` samples: `BLOCK_SIZE` for every
/// block that fits entirely, the remainder for the final one.
pub open spec fn spec_block_len(total: nat, i: nat) -> nat {
    if (i + 1) * BLOCK_SIZE <= total {
        BLOCK_SIZE as nat
    } else {
        (total - i * BLOCK_SIZE) as nat
    }
}

/// One processing block together with the decisions taken for it at the block
/// boundary: which shaper runs and whether the oversampling stage surrounds
/// it. The enum values are snapshots; they hold for the whole block however
/// the parameters move concurrently.
#[derive(Clone, Copy, Debug, PartialEq, Eq, Structural)]
pub struct BlockStep {
    /// Offset of the block's first sample in the channel buffer.
    pub start: usize,
    /// Number of samples in the block, at most `BLOCK_SIZE` and positive.
    pub len: usize,
    /// Whether the naive 2x stage surrounds the shaper for this block.
    pub oversampler: Oversampler,
    /// Which nonlinearity shapes this block's samples.
    pub distortion: DistortionType,
}

/// The step the driver takes for block `i` of a buffer of `total` samples,
/// under the given parameter snapshot.
pub open spec fn spec_block_step(
    total: nat,
    oversampler: Oversampler,
    distortion: DistortionType,
    i: nat,
) -> BlockStep {
    BlockStep {
        start: (i * BLOCK_SIZE) as usize,
        len: spec_block_len(total, i) as usize,
        oversampler: oversampler,
        distortion: distortion,
    }
}

/// The driver's plan for one host buffer of `total` samples per channel: the
/// consecutive processing blocks, each carrying the parameter snapshot under
/// which it is processed. Consecutive blocks tile the buffer exactly: block
/// `i` starts at `i * BLOCK_SIZE`, every block but the last is full, and the
/// last ends at `total`.
pub fn plan_buffer(total: usize, oversampler: Oversampler, distortion: DistortionType) -> (r: Vec<
    BlockStep,
>)
    ensures
        r@.len() == spec_block_count(total as nat),
        forall|i: int|
            0 <= i < r@.len() ==> #[trigger] r@[i] == spec_block_step(
                total as nat,
                oversampler,
                distortion,
                i as nat,
            ),
{
    let mut steps: Vec<BlockStep> = Vec::new();
    let mut start: usize = 0;
    while start < total
        invariant
            start <= total,
            start == steps@.len() * BLOCK_SIZE || start == total,
            spec_block_count(total as nat) == steps@.len() + spec_block_count(
                (total - start) as nat,
            ),
            forall|i: int|
                0 <= i < steps@.len() ==> #[trigger] steps@[i] == spec_block_step(
                    total as nat,
                    oversampler,
                    distortion,
                    i as nat,
                ),
        decreases total - start,
    {
        let len = if total - start < BLOCK_SIZE {
            total - start
        } else {
            BLOCK_SIZE
        };
        let step = BlockStep { start, len, oversampler, distortion };
        steps.push(step);
        start = start + len;
    }
    steps
}

/// The plan's blocks tile the buffer: every sample of a buffer of `total`
/// samples falls inside one of its `spec_block_count(total)` blocks, so no
/// sample escapes processing.
pub proof fn lemma_blocks_tile(total: nat, k: nat)
    requires
        k < total,
    ensures
        exists|i: nat|
            i < spec_block_count(total) && i * BLOCK_SIZE <= k < i * BLOCK_SIZE
                + #[trigger] spec_block_len(total, i),
    decreases total,
{
    if total <= BLOCK_SIZE {
        assert(0 * BLOCK_SIZE <= k < 0 * BLOCK_SIZE + spec_block_len(total, 0));
    } else if k < BLOCK_SIZE {
        assert(0 * BLOCK_SIZE <= k < 0 * BLOCK_SIZE + spec_block_len(total, 0));
    } else {
        lemma_blocks_tile((total - BLOCK_SIZE) as nat, (k - BLOCK_SIZE) as nat);
        let j = choose|j: nat|
            j < spec_block_count((total - BLOCK_SIZE) as nat) && j * BLOCK_SIZE <= k - BLOCK_SIZE
                < j * BLOCK_SIZE + #[trigger] spec_block_len((total - BLOCK_SIZE) as nat, j);
        assert((j + 1) * BLOCK_SIZE == j * BLOCK_SIZE + BLOCK_SIZE);
        assert(spec_block_len(total, j + 1) == spec_block_len((total - BLOCK_SIZE) as nat, j));
        assert((j + 1) * BLOCK_SIZE <= k < (j + 1) * BLOCK_SIZE + spec_block_len(total, j + 1));
    }
}

/// Distinct blocks of the plan never overlap: block `i` starts inside the
/// buffer, is never longer than `BLOCK_SIZE`, and ends at or before the point
/// where block `i + 1` begins.
pub proof fn lemma_blocks_disjoint(total: nat, i: nat)
    requires
        i < spec_block_count(total),
    ensures
        i * BLOCK_SIZE <= total,
        0 < spec_block_len(total, i) <= BLOCK_SIZE,
        i * BLOCK_SIZE + spec_block_len(total, i) <= (i + 1) * BLOCK_SIZE,
    decreases total,
{
    if i == 0 {
        assert(spec_block_count(total) >= 1);
        assert(total > 0);
    } else {
        assert(total > BLOCK_SIZE);
        lemma_blocks_disjoint((total - BLOCK_SIZE) as nat, (i - 1) as nat);
        assert(spec_block_len(total, i) == spec_block_len((total - BLOCK_SIZE) as nat, (i - 1) as nat));
        assert(i * BLOCK_SIZE == (i - 1) * BLOCK_SIZE + BLOCK_SIZE);
    }
}

/// Whether the effect can be initialized: the host must run at a positive
/// sample rate and drive exactly the two stereo channels.
pub fn initialize_is_valid(sample_rate_hz: i64, channels: usize) -> (r: bool)
    ensures
        r == (sample_rate_hz > 0 && channels == CHANNEL_COUNT),
{
    sample_rate_hz > 0 && channels == CHANNEL_COUNT
}

} // verus!
