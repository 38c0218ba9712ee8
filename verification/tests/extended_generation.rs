use extended_audio::blend::crossfade_segments;
use extended_audio::generate::{ExtendedAudioGenerator, SegmentGenerator};
use extended_audio::plan::{ConfigError, ExtendedGenerationConfig};

fn linear_blend(a: f32, b: f32, k: usize, n: usize) -> f32 {
    let p = k as f32 / n as f32;
    a * (1.0 - p) + b * p
}

fn ramp_scale(a: f32, num: usize, den: usize) -> f32 {
    a * (num as f32 / den as f32)
}

struct DummyGenerator;

impl SegmentGenerator for DummyGenerator {
    type Sample = f32;

    fn generate_segment(
        &self,
        _prompt: &str,
        duration: usize,
        _segment_index: usize,
        _num_segments: usize,
    ) -> Result<Vec<f32>, String> {
        // Dummy audio at 1000 samples per second.
        Ok(vec![0.5; duration * 1000])
    }
}

struct ShortGenerator;

impl SegmentGenerator for ShortGenerator {
    type Sample = f32;

    fn generate_segment(
        &self,
        _prompt: &str,
        _duration: usize,
        _segment_index: usize,
        _num_segments: usize,
    ) -> Result<Vec<f32>, String> {
        // Deliberately under-delivers samples.
        Ok(vec![0.25; 50])
    }
}

struct FailAtGenerator {
    fail_at: usize,
}

impl SegmentGenerator for FailAtGenerator {
    type Sample = f32;

    fn generate_segment(
        &self,
        _prompt: &str,
        duration: usize,
        segment_index: usize,
        _num_segments: usize,
    ) -> Result<Vec<f32>, String> {
        if segment_index == self.fail_at {
            Err("synthetic failure".to_string())
        } else {
            Ok(vec![0.5; duration * 1000])
        }
    }
}

#[test]
fn test_config_validation() {
    let config = ExtendedGenerationConfig {
        segment_duration: 35,
        ..Default::default()
    };
    assert!(config.validate().is_err());

    let config = ExtendedGenerationConfig::default();
    assert!(config.validate().is_ok());
}

#[test]
fn test_num_segments() {
    let config = ExtendedGenerationConfig {
        target_duration: 240,
        segment_duration: 28,
        overlap_duration: 4,
        ..Default::default()
    };

    // Effective segment length is 28 - 4 = 24 seconds
    // 240 / 24 = 10 segments
    assert_eq!(config.num_segments(), 10);
}

#[test]
fn test_extended_generation() {
    let config = ExtendedGenerationConfig {
        target_duration: 60,
        segment_duration: 28,
        overlap_duration: 4,
        crossfade_duration_ms: 2000,
    };

    let generator = ExtendedAudioGenerator::new(config, 1000).unwrap();
    let result = generator.generate(&DummyGenerator, "test prompt", linear_blend);

    assert!(result.is_ok());
    let audio = result.unwrap();

    // Should be exactly 60 seconds * 1000 samples/sec = 60000 samples
    assert_eq!(audio.len(), 60_000);
}

#[test]
fn test_crossfade() {
    let segment1 = vec![1.0; 10000];
    let segment2 = vec![0.0; 10000];

    let result = crossfade_segments(segment1, segment2, 2000, 1000, linear_blend);

    // Check that crossfade happened
    assert!(result.len() > 10000);

    // Values in crossfade region should be between 0.0 and 1.0
    let crossfade_start = 10000 - 1000;
    for i in 0..1000 {
        let val = result[crossfade_start + i];
        assert!(
            val >= 0.0 && val <= 1.0,
            "Value at crossfade should be blended: {}",
            val
        );
    }
}

#[test]
fn test_three_segment_plan_covers_minute() {
    // 60 seconds with effective step 28 - 4 = 24 needs ceil(60 / 24) = 3 segments.
    let config = ExtendedGenerationConfig {
        target_duration: 60,
        segment_duration: 28,
        overlap_duration: 4,
        crossfade_duration_ms: 2000,
    };
    assert_eq!(config.num_segments(), 3);

    let generator = ExtendedAudioGenerator::new(config, 1000).unwrap();
    let audio = generator
        .generate(&DummyGenerator, "test prompt", linear_blend)
        .unwrap();
    assert_eq!(audio.len(), 60_000);
}

#[test]
fn test_validate_reports_first_violation() {
    let config = ExtendedGenerationConfig {
        segment_duration: 31,
        ..Default::default()
    };
    assert_eq!(config.validate(), Err(ConfigError::SegmentTooLong));

    let config = ExtendedGenerationConfig {
        segment_duration: 28,
        overlap_duration: 28,
        ..Default::default()
    };
    assert_eq!(config.validate(), Err(ConfigError::OverlapNotBelowSegment));

    let config = ExtendedGenerationConfig {
        overlap_duration: 4,
        crossfade_duration_ms: 4001,
        ..Default::default()
    };
    assert_eq!(config.validate(), Err(ConfigError::CrossfadeExceedsOverlap));
}

#[test]
fn test_crossfade_bounds_and_midpoint() {
    let buf1 = vec![1.0_f32; 10000];
    let buf2 = vec![0.0_f32; 10000];

    let result = crossfade_segments(buf1, buf2, 2000, 1000, linear_blend);
    assert_eq!(result.len(), 19_000);

    let start = 10000 - 1000;
    // The very first blended sample still carries the full old amplitude.
    assert_eq!(result[start], 1.0);
    for k in 1..1000 {
        let val = result[start + k];
        assert!(val > 0.0 && val < 1.0, "expected strict blend, got {}", val);
    }
    // Midpoint of the fade is the even mix.
    assert!((result[start + 500] - 0.5).abs() < 1e-6);
}

#[test]
fn test_crossfade_concatenates_short_history() {
    let buf1 = vec![0.75_f32; 5];
    let buf2 = vec![0.25_f32; 8];

    let result = crossfade_segments(buf1, buf2, 10, 4, linear_blend);
    assert_eq!(result.len(), 13);
    for i in 0..5 {
        assert_eq!(result[i], 0.75);
    }
    for i in 5..13 {
        assert_eq!(result[i], 0.25);
    }
}

#[test]
fn test_smoothing_noop_below_two_windows() {
    let mut audio = vec![1.0_f32; 7];
    ExtendedAudioGenerator::apply_smoothing(&mut audio, 4, ramp_scale);
    assert_eq!(audio, vec![1.0; 7]);
}

#[test]
fn test_smoothing_ramps_edges() {
    let mut audio = vec![1.0_f32; 10];
    ExtendedAudioGenerator::apply_smoothing(&mut audio, 4, ramp_scale);
    let expected = vec![0.0, 0.25, 0.5, 0.75, 1.0, 1.0, 0.25, 0.5, 0.75, 1.0];
    assert_eq!(audio, expected);
    // The rising ramp starts at exactly zero.
    assert_eq!(audio[0], 0.0);
}

#[test]
fn test_segment_prompt_hints() {
    let config = ExtendedGenerationConfig::default();
    let generator = ExtendedAudioGenerator::new(config, 1000).unwrap();

    assert_eq!(
        generator.create_segment_prompt("calm piano", 0, 10),
        "calm piano (introduction, opening)"
    );
    assert_eq!(
        generator.create_segment_prompt("calm piano", 9, 10),
        "calm piano (conclusion, ending, outro)"
    );
    assert_eq!(
        generator.create_segment_prompt("calm piano", 5, 10),
        "calm piano (bridge, development, variation)"
    );
    assert_eq!(
        generator.create_segment_prompt("calm piano", 2, 10),
        "calm piano (building, developing)"
    );
    assert_eq!(generator.create_segment_prompt("calm piano", 7, 10), "calm piano");
}

#[test]
fn test_segment_prompt_small_counts_first_match_wins() {
    let config = ExtendedGenerationConfig::default();
    let generator = ExtendedAudioGenerator::new(config, 1000).unwrap();

    // One segment: it is also the last and the midpoint, but index 0 wins.
    assert_eq!(
        generator.create_segment_prompt("p", 0, 1),
        "p (introduction, opening)"
    );
    // Two segments: index 1 is both last and midpoint; last wins.
    assert_eq!(
        generator.create_segment_prompt("p", 1, 2),
        "p (conclusion, ending, outro)"
    );
    // Three segments: index 1 is the midpoint.
    assert_eq!(
        generator.create_segment_prompt("p", 1, 3),
        "p (bridge, development, variation)"
    );
    assert_eq!(
        generator.create_segment_prompt("p", 2, 3),
        "p (conclusion, ending, outro)"
    );
}

#[test]
fn test_truncation_accepts_short_delivery() {
    // At 10 samples per second the target is 600 samples, but each of the
    // three segments delivers only 50; with a 20-sample fade the accumulated
    // buffer reaches 50 + 30 + 30 = 110 samples and is returned unpadded.
    let config = ExtendedGenerationConfig {
        target_duration: 60,
        segment_duration: 28,
        overlap_duration: 4,
        crossfade_duration_ms: 2000,
    };
    let generator = ExtendedAudioGenerator::new(config, 10).unwrap();
    let audio = generator
        .generate(&ShortGenerator, "test prompt", linear_blend)
        .unwrap();
    assert_eq!(audio.len(), 110);
}

#[test]
fn test_segment_failure_aborts_with_index() {
    let config = ExtendedGenerationConfig {
        target_duration: 60,
        segment_duration: 28,
        overlap_duration: 4,
        crossfade_duration_ms: 2000,
    };
    let generator = ExtendedAudioGenerator::new(config, 1000).unwrap();
    let result = generator.generate(&FailAtGenerator { fail_at: 1 }, "test prompt", linear_blend);
    let err = result.unwrap_err();
    assert_eq!(err.index, 1);
    assert_eq!(err.cause, "synthetic failure");
}

#[test]
fn test_invalid_plan_cannot_build_generator() {
    let config = ExtendedGenerationConfig {
        segment_duration: 35,
        ..Default::default()
    };
    assert!(ExtendedAudioGenerator::new(config, 1000).is_err());
}

struct MixedGenerator;

impl SegmentGenerator for MixedGenerator {
    type Sample = f32;

    fn generate_segment(
        &self,
        _prompt: &str,
        _duration: usize,
        segment_index: usize,
        _num_segments: usize,
    ) -> Result<Vec<f32>, String> {
        // The opening segment delivers more samples than the later ones.
        let samples = if segment_index == 0 { 100 } else { 40 };
        Ok(vec![0.5; samples])
    }
}

#[test]
fn test_mixed_length_delivery_accumulates_per_segment() {
    // At 1 sample per second the target is 60 samples; the three segments
    // deliver 100, 40 and 40, each blend consumes 2, so 176 samples
    // accumulate and are truncated to exactly 60.
    let config = ExtendedGenerationConfig {
        target_duration: 60,
        segment_duration: 28,
        overlap_duration: 4,
        crossfade_duration_ms: 2000,
    };
    let generator = ExtendedAudioGenerator::new(config, 1).unwrap();
    let audio = generator.generate(&MixedGenerator, "p", linear_blend).unwrap();
    assert_eq!(audio.len(), 60);
}
