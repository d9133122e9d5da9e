//! The selectable distortion nonlinearities.
//!
//! The shapers themselves operate sample-by-sample on float audio and are not
//! part of this library; this module owns the choice between them and its
//! stable persisted encoding.

use vstd::prelude::*;

verus! {

/// Which memoryless nonlinearity shapes each sample: a cubic soft saturation
/// or a symmetric hard clip.
#[allow(non_camel_case_types)]
#[derive(Clone, Copy, Debug, PartialEq, Eq, Structural)]
pub enum DistortionType {
    SOFT,
    HARD,
}

/// How many distortion variants there are.
pub const DISTORTION_VARIANT_COUNT: usize = 2;

impl DistortionType {
    /// The stable index under which this variant is persisted in presets.
    pub open spec fn spec_index(self) -> int {
        match self {
            DistortionType::SOFT => 0,
            DistortionType::HARD => 1,
        }
    }

    /// Index of this variant in the persisted parameter encoding.
    pub fn to_index(self) -> (r: usize)
        ensures
            r == self.spec_index(),
    {
        match self {
            DistortionType::SOFT => 0,
            DistortionType::HARD => 1,
        }
    }

    /// Variant stored under the given persisted index.
    pub fn from_index(index: usize) -> (r: DistortionType)
        requires
            index < DISTORTION_VARIANT_COUNT,
        ensures
            r.spec_index() == index,
    {
        if index == 0 {
            DistortionType::SOFT
        } else {
            DistortionType::HARD
        }
    }

    /// Display name of this variant, as shown by the categorical picker.
    pub fn name(self) -> (r: &'static str)
        ensures
            self is SOFT ==> r@ == "SOFT"@,
            self is HARD ==> r@ == "HARD"@,
    {
        match self {
            DistortionType::SOFT => "SOFT",
            DistortionType::HARD => "HARD",
        }
    }
}

impl Default for DistortionType {
    /// The effect starts with the gentler soft saturation.
    fn default() -> (r: DistortionType)
        ensures
            r is SOFT,
    {
        DistortionType::SOFT
    }
}

/// Round trip through persistence: equal indices come only from equal
/// variants, so together with the contract of `from_index`, loading a saved
/// index yields exactly the variant that was saved.
pub proof fn lemma_distortion_index_injective(a: DistortionType, b: DistortionType)
    ensures
        a.spec_index() == b.spec_index() ==> a == b,
{
}

} // verus!
