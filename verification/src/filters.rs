//! The filter shapes the effect can build.
//!
//! The biquad second-order section itself runs on float samples and
//! coefficients and is not part of this library; this module owns the closed
//! set of filter shapes it can be constructed as. Only the low-pass shape
//! exists: the oversampler uses it for both its anti-imaging and its
//! anti-aliasing filter.

use vstd::prelude::*;

verus! {

/// Which frequency response a biquad is constructed with.
#[allow(non_camel_case_types)]
#[derive(Clone, Copy, Debug, PartialEq, Eq, Structural)]
pub enum FilterType {
    LOWPASS,
}

} // verus!
