//! The selectable oversampling stage.
//!
//! The 2x oversampler itself (scratch buffer, two biquad low-pass filters,
//! upsample / shape / downsample on float samples) is not part of this
//! library; this module owns the choice of oversampler, its stable persisted
//! encoding, and the fixed design constants the oversampler is built from.

use vstd::prelude::*;

verus! {

/// Samples per channel in one processing block.
pub const BLOCK_SIZE: usize = 64;

/// The oversampler runs at twice the host rate.
pub const OVERSAMPLE_FACTOR: usize = 2;

/// The sample rate the oversampler's two low-pass biquads are designed
/// against, whatever rate the host actually runs at. Kept fixed so that
/// rendered audio stays bit-identical across builds, even though the filters
/// are then mistuned at any host rate other than 48 kHz.
pub const FILTER_DESIGN_SAMPLE_RATE_HZ: u32 = 48000;

/// Which oversampling stage surrounds the waveshaper: the naive 2x stage, or
/// none at all (the shaper runs directly on the block).
#[derive(Clone, Copy, Debug, PartialEq, Eq, Structural)]
pub enum Oversampler {
    NaiveOversampler,
    Disabled,
}

/// How many oversampler variants there are.
pub const OVERSAMPLER_VARIANT_COUNT: usize = 2;

impl Oversampler {
    /// The stable index under which this variant is persisted in presets.
    /// The naive oversampler comes first; that order is load-bearing for
    /// presets saved by earlier builds.
    pub open spec fn spec_index(self) -> int {
        match self {
            Oversampler::NaiveOversampler => 0,
            Oversampler::Disabled => 1,
        }
    }

    /// Index of this variant in the persisted parameter encoding.
    pub fn to_index(self) -> (r: usize)
        ensures
            r == self.spec_index(),
    {
        match self {
            Oversampler::NaiveOversampler => 0,
            Oversampler::Disabled => 1,
        }
    }

    /// Variant stored under the given persisted index.
    pub fn from_index(index: usize) -> (r: Oversampler)
        requires
            index < OVERSAMPLER_VARIANT_COUNT,
        ensures
            r.spec_index() == index,
    {
        if index == 0 {
            Oversampler::NaiveOversampler
        } else {
            Oversampler::Disabled
        }
    }

    /// Display name of this variant, as shown by the categorical picker.
    pub fn name(self) -> (r: &'static str)
        ensures
            self is NaiveOversampler ==> r@ == "NaiveOversampler"@,
            self is Disabled ==> r@ == "None"@,
    {
        match self {
            Oversampler::NaiveOversampler => "NaiveOversampler",
            Oversampler::Disabled => "None",
        }
    }
}

impl Default for Oversampler {
    /// The effect starts with oversampling switched off.
    fn default() -> (r: Oversampler)
        ensures
            r is Disabled,
    {
        Oversampler::Disabled
    }
}

/// Round trip through persistence: equal indices come only from equal
/// variants, so together with the contract of `from_index`, loading a saved
/// index yields exactly the variant that was saved.
pub proof fn lemma_oversampler_index_injective(a: Oversampler, b: Oversampler)
    ensures
        a.spec_index() == b.spec_index() ==> a == b,
{
}

/// How the 2x scratch stream interleaves with a block: scratch position `n`
/// pairs with block sample `n / 2` when `n` is even, and with no block sample
/// when `n` is odd. Upsampling feeds even positions from the block and stuffs
/// the odd ones with zeros; downsampling keeps the even taps and drops the
/// odd ones. Both low-pass filters run over the whole interleaved stream.
pub fn paired_block_index(n: usize) -> (r: Option<usize>)
    ensures
        n % 2 == 0 ==> r == Some(n / 2),
        n % 2 == 1 ==> r == Option::<usize>::None,
{
    if n % 2 == 0 {
        Some(n / 2)
    } else {
        None
    }
}

/// Cutoff frequency for the oversampler's two low-pass filters: a quarter of
/// the given sample rate.
pub fn oversampler_cutoff_hz(sample_rate_hz: u32) -> (r: u32)
    ensures
        r == sample_rate_hz / 4,
{
    sample_rate_hz / 4
}

} // verus!
