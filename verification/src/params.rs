//! Stepping of categorical parameters.
//!
//! An enum parameter exposes its choices as steps `0 ..= last`, where `last`
//! is one less than the number of variants. UI widgets move between steps
//! with `next_step` and `previous_step`; the categorical picker turns its two
//! buttons into such moves, discarding presses that would leave the range.
//! The smoothed float gains are not modelled here: their smoothing runs in
//! the float signal path outside this library.

use vstd::prelude::*;

verus! {

/// The parameters the effect registers with the host.
#[derive(Clone, Copy, Debug, PartialEq, Eq, Structural)]
pub enum ParamId {
    PreGain,
    PostGain,
    Oversampler,
    Distortion,
    EditorState,
}

impl ParamId {
    /// The string under which this parameter is registered with the host.
    /// These keys identify parameters in saved sessions and presets, so they
    /// are stable across versions.
    pub fn key(self) -> (r: &'static str)
        ensures
            self is PreGain ==> r@ == "pre_gain"@,
            self is PostGain ==> r@ == "post_gain"@,
            self is Oversampler ==> r@ == "oversampler"@,
            self is Distortion ==> r@ == "distortion"@,
            self is EditorState ==> r@ == "editor-state"@,
    {
        match self {
            ParamId::PreGain => "pre_gain",
            ParamId::PostGain => "post_gain",
            ParamId::Oversampler => "oversampler",
            ParamId::Distortion => "distortion",
            ParamId::EditorState => "editor-state",
        }
    }
}

/// Declared range, default and smoothing of a continuous gain parameter. The
/// values are entered and bounded in whole decibels; the running value is
/// held as linear gain outside this library.
#[derive(Clone, Copy, Debug, PartialEq, Eq, Structural)]
pub struct GainParamSpec {
    /// Lower bound of the range, in decibels.
    pub min_db: i32,
    /// Upper bound of the range, in decibels.
    pub max_db: i32,
    /// Default value, in decibels.
    pub default_db: i32,
    /// Time constant of the logarithmic smoothing, in milliseconds.
    pub smoothing_ms: u32,
}

impl GainParamSpec {
    /// A gain parameter spans a non-empty decibel range that holds its
    /// default, and smooths over a positive time.
    pub open spec fn wf(self) -> bool {
        self.min_db <= self.default_db <= self.max_db && self.smoothing_ms > 0
    }
}

/// The gain applied before the shaper: -30 dB to +30 dB, defaulting to a hot
/// +20 dB, smoothed logarithmically over 50 ms.
pub fn pre_gain_param() -> (r: GainParamSpec)
    ensures
        r == (GainParamSpec { min_db: -30i32, max_db: 30i32, default_db: 20i32, smoothing_ms: 50u32 }),
        r.wf(),
{
    GainParamSpec { min_db: -30, max_db: 30, default_db: 20, smoothing_ms: 50 }
}

/// The gain applied after the shaper: -30 dB to +30 dB, defaulting to -12 dB
/// to make up for the shaper's added level, smoothed logarithmically over
/// 50 ms.
pub fn post_gain_param() -> (r: GainParamSpec)
    ensures
        r == (GainParamSpec { min_db: -30i32, max_db: 30i32, default_db: -12i32, smoothing_ms: 50u32 }),
        r.wf(),
{
    GainParamSpec { min_db: -30, max_db: 30, default_db: -12, smoothing_ms: 50 }
}

/// Number of steps between the first and last choice of a parameter with
/// `variant_count` choices: the step count the host is told about.
pub fn step_count(variant_count: usize) -> (r: usize)
    requires
        variant_count >= 1,
    ensures
        r == variant_count - 1,
{
    variant_count - 1
}

/// One step toward the last choice. Without `wrap` the last step is held;
/// with `wrap` it rolls over to the first.
pub fn next_step(current: usize, last: usize, wrap: bool) -> (r: usize)
    requires
        current <= last,
    ensures
        r <= last,
        r == if current < last {
            current + 1
        } else if wrap {
            0
        } else {
            last as int
        },
{
    if current < last {
        current + 1
    } else if wrap {
        0
    } else {
        last
    }
}

/// One step toward the first choice. Without `wrap` the first step is held;
/// with `wrap` it rolls over to the last.
pub fn previous_step(current: usize, last: usize, wrap: bool) -> (r: usize)
    requires
        current <= last,
    ensures
        r <= last,
        r == if current > 0 {
            current - 1
        } else if wrap {
            last as int
        } else {
            0
        },
{
    if current > 0 {
        current - 1
    } else if wrap {
        last
    } else {
        0
    }
}

/// What the categorical picker's two buttons emit.
#[derive(Clone, Copy, Debug, PartialEq, Eq, Structural)]
pub enum CategoryEvent {
    Increment,
    Decrement,
}

/// The step the picker commits in response to a button press, given the
/// current step and the last one: one step in the pressed direction, without
/// wrapping, and no edit at all when the press would leave the range.
pub fn picker_step(current: usize, last: usize, event: CategoryEvent) -> (r: Option<usize>)
    requires
        current <= last,
    ensures
        event is Decrement ==> r == if current != 0 {
            Some((current - 1) as usize)
        } else {
            Option::<usize>::None
        },
        event is Increment ==> r == if current != last {
            Some((current + 1) as usize)
        } else {
            Option::<usize>::None
        },
{
    match event {
        CategoryEvent::Decrement => {
            if current != 0 {
                Some(previous_step(current, last, false))
            } else {
                None
            }
        },
        CategoryEvent::Increment => {
            if current != last {
                Some(next_step(current, last, false))
            } else {
                None
            }
        },
    }
}

} // verus!
