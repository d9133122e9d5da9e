use distall::distortions::{DistortionType, DISTORTION_VARIANT_COUNT};
use distall::driver::{initialize_is_valid, plan_buffer, BlockStep, CHANNEL_COUNT};
use distall::oversamplers::{
    oversampler_cutoff_hz, paired_block_index, Oversampler, BLOCK_SIZE,
    FILTER_DESIGN_SAMPLE_RATE_HZ, OVERSAMPLER_VARIANT_COUNT, OVERSAMPLE_FACTOR,
};
use distall::{PEAK_METER_DECAY_MS, PEAK_METER_HOLD_MS};

#[test]
fn distortion_indices_are_stable() {
    assert_eq!(DistortionType::SOFT.to_index(), 0);
    assert_eq!(DistortionType::HARD.to_index(), 1);
    assert_eq!(DISTORTION_VARIANT_COUNT, 2);
}

#[test]
fn distortion_index_round_trip() {
    for index in 0..DISTORTION_VARIANT_COUNT {
        assert_eq!(DistortionType::from_index(index).to_index(), index);
    }
    assert_eq!(DistortionType::from_index(0), DistortionType::SOFT);
    assert_eq!(DistortionType::from_index(1), DistortionType::HARD);
}

#[test]
fn defaults_are_soft_without_oversampling() {
    assert_eq!(DistortionType::default(), DistortionType::SOFT);
    assert_eq!(Oversampler::default(), Oversampler::Disabled);
}

#[test]
fn distortion_names() {
    assert_eq!(DistortionType::SOFT.name(), "SOFT");
    assert_eq!(DistortionType::HARD.name(), "HARD");
}

#[test]
fn oversampler_indices_are_stable() {
    // The naive oversampler comes before the bypass choice; presets depend on it.
    assert_eq!(Oversampler::NaiveOversampler.to_index(), 0);
    assert_eq!(Oversampler::Disabled.to_index(), 1);
    assert_eq!(OVERSAMPLER_VARIANT_COUNT, 2);
}

#[test]
fn oversampler_index_round_trip() {
    for index in 0..OVERSAMPLER_VARIANT_COUNT {
        assert_eq!(Oversampler::from_index(index).to_index(), index);
    }
    assert_eq!(Oversampler::from_index(0), Oversampler::NaiveOversampler);
    assert_eq!(Oversampler::from_index(1), Oversampler::Disabled);
}

#[test]
fn oversampler_names() {
    assert_eq!(Oversampler::NaiveOversampler.name(), "NaiveOversampler");
    assert_eq!(Oversampler::Disabled.name(), "None");
}

#[test]
fn fixed_constants() {
    assert_eq!(BLOCK_SIZE, 64);
    assert_eq!(OVERSAMPLE_FACTOR, 2);
    assert_eq!(FILTER_DESIGN_SAMPLE_RATE_HZ, 48000);
    assert_eq!(PEAK_METER_DECAY_MS, 150);
    assert_eq!(PEAK_METER_HOLD_MS, 600);
    assert_eq!(CHANNEL_COUNT, 2);
}

#[test]
fn cutoff_is_a_quarter_of_the_rate() {
    assert_eq!(oversampler_cutoff_hz(48000), 12000);
    assert_eq!(oversampler_cutoff_hz(44100), 11025);
    assert_eq!(oversampler_cutoff_hz(96000), 24000);
    assert_eq!(oversampler_cutoff_hz(3), 0);
}

#[test]
fn even_scratch_taps_pair_with_the_block() {
    assert_eq!(paired_block_index(0), Some(0));
    assert_eq!(paired_block_index(1), None);
    assert_eq!(paired_block_index(2), Some(1));
    assert_eq!(paired_block_index(126), Some(63));
    assert_eq!(paired_block_index(127), None);
    // Each block sample is paired with exactly one scratch position.
    let paired: Vec<usize> = (0..2 * BLOCK_SIZE).filter_map(paired_block_index).collect();
    assert_eq!(paired, (0..BLOCK_SIZE).collect::<Vec<usize>>());
}

#[test]
fn initialize_wants_a_positive_rate_and_stereo() {
    assert!(initialize_is_valid(48000, 2));
    assert!(initialize_is_valid(1, 2));
    assert!(!initialize_is_valid(0, 2));
    assert!(!initialize_is_valid(-48000, 2));
    assert!(!initialize_is_valid(48000, 1));
    assert!(!initialize_is_valid(48000, 3));
}

#[test]
fn empty_buffer_has_no_blocks() {
    let steps = plan_buffer(0, Oversampler::Disabled, DistortionType::SOFT);
    assert!(steps.is_empty());
}

#[test]
fn short_buffer_is_one_short_block() {
    let steps = plan_buffer(5, Oversampler::Disabled, DistortionType::HARD);
    assert_eq!(
        steps,
        vec![BlockStep {
            start: 0,
            len: 5,
            oversampler: Oversampler::Disabled,
            distortion: DistortionType::HARD,
        }]
    );
}

#[test]
fn exact_buffer_is_full_blocks() {
    let steps = plan_buffer(128, Oversampler::NaiveOversampler, DistortionType::SOFT);
    assert_eq!(steps.len(), 2);
    assert_eq!((steps[0].start, steps[0].len), (0, 64));
    assert_eq!((steps[1].start, steps[1].len), (64, 64));
}

#[test]
fn trailing_samples_make_a_final_short_block() {
    let steps = plan_buffer(129, Oversampler::Disabled, DistortionType::SOFT);
    assert_eq!(steps.len(), 3);
    assert_eq!((steps[2].start, steps[2].len), (128, 1));

    let steps = plan_buffer(100, Oversampler::Disabled, DistortionType::SOFT);
    assert_eq!(steps.len(), 2);
    assert_eq!((steps[0].start, steps[0].len), (0, 64));
    assert_eq!((steps[1].start, steps[1].len), (64, 36));
}

#[test]
fn blocks_tile_the_buffer() {
    for total in [0usize, 1, 63, 64, 65, 100, 128, 192, 1000] {
        let steps = plan_buffer(total, Oversampler::Disabled, DistortionType::SOFT);
        let mut expected_start = 0usize;
        for step in &steps {
            assert_eq!(step.start, expected_start);
            assert!(step.len >= 1 && step.len <= BLOCK_SIZE);
            expected_start += step.len;
        }
        assert_eq!(expected_start, total);
    }
}

#[test]
fn every_block_carries_the_snapshot() {
    let steps = plan_buffer(200, Oversampler::NaiveOversampler, DistortionType::HARD);
    for step in &steps {
        assert_eq!(step.oversampler, Oversampler::NaiveOversampler);
        assert_eq!(step.distortion, DistortionType::HARD);
    }
}

#[test]
fn bypass_plan_routes_every_block_directly() {
    let steps = plan_buffer(200, Oversampler::Disabled, DistortionType::SOFT);
    assert!(!steps.is_empty());
    for step in &steps {
        assert_eq!(step.oversampler, Oversampler::Disabled);
    }
}
