use extended_audio::dispatch::{
    cap_segment_duration, ExtendedJobProcessor, JobProcessor, MusicGPTSegmentGenerator,
    ProcessError,
};
use extended_audio::generate::SegmentGenerator;
use extended_audio::plan::ExtendedGenerationConfig;

fn linear_blend(a: f32, b: f32, k: usize, n: usize) -> f32 {
    let p = k as f32 / n as f32;
    a * (1.0 - p) + b * p
}

#[derive(Clone)]
struct DummyProcessor;

impl JobProcessor for DummyProcessor {
    type Sample = f32;

    fn process(&self, _prompt: &str, secs: usize) -> Result<Vec<f32>, String> {
        // Simulate 1000 samples/sec
        Ok(vec![0.5; secs * 1000])
    }
}

#[derive(Clone)]
struct FailingProcessor;

impl JobProcessor for FailingProcessor {
    type Sample = f32;

    fn process(&self, _prompt: &str, _secs: usize) -> Result<Vec<f32>, String> {
        Err("backend down".to_string())
    }
}

#[test]
fn test_short_duration_uses_base_processor() {
    let config = ExtendedGenerationConfig {
        target_duration: 120,
        segment_duration: 28,
        overlap_duration: 4,
        crossfade_duration_ms: 2000,
    };

    let extended = ExtendedJobProcessor::new(DummyProcessor, config, 1000).unwrap();

    let result = extended.process("test", 20, linear_blend);
    assert!(result.is_ok());
    assert_eq!(result.unwrap().len(), 20_000);
}

#[test]
fn test_long_duration_uses_extended_generation() {
    let config = ExtendedGenerationConfig {
        target_duration: 60,
        segment_duration: 28,
        overlap_duration: 4,
        crossfade_duration_ms: 2000,
    };

    let extended = ExtendedJobProcessor::new(DummyProcessor, config, 1000).unwrap();

    let result = extended.process("test", 60, linear_blend);
    assert!(result.is_ok());

    let audio = result.unwrap();
    // Should generate approximately 60 seconds worth
    assert!(audio.len() >= 55_000 && audio.len() <= 65_000);
}

#[test]
fn test_short_request_failure_is_generation_error() {
    let config = ExtendedGenerationConfig::default();
    let extended = ExtendedJobProcessor::new(FailingProcessor, config, 1000).unwrap();

    match extended.process("test", 20, linear_blend) {
        Err(ProcessError::Generation(msg)) => assert_eq!(msg, "backend down"),
        other => panic!("expected a generation error, got {:?}", other.map(|b| b.len())),
    }
}

#[test]
fn test_long_request_failure_is_segment_error() {
    let config = ExtendedGenerationConfig::default();
    let extended = ExtendedJobProcessor::new(FailingProcessor, config, 1000).unwrap();

    match extended.process("test", 60, linear_blend) {
        Err(ProcessError::Segment(e)) => {
            assert_eq!(e.index, 0);
            assert_eq!(e.cause, "backend down");
        },
        other => panic!("expected a segment error, got {:?}", other.map(|b| b.len())),
    }
}

#[derive(Clone)]
struct CountingProcessor;

impl JobProcessor for CountingProcessor {
    type Sample = f32;

    fn process(&self, _prompt: &str, secs: usize) -> Result<Vec<f32>, String> {
        // One sample per requested second, so the caller sees the duration.
        Ok(vec![0.5; secs])
    }
}

#[test]
fn test_segment_requests_are_capped_at_thirty_seconds() {
    assert_eq!(cap_segment_duration(12), 12);
    assert_eq!(cap_segment_duration(30), 30);
    assert_eq!(cap_segment_duration(45), 30);

    let adapter = MusicGPTSegmentGenerator::new(CountingProcessor);
    let segment = adapter.generate_segment("test", 45, 0, 2).unwrap();
    assert_eq!(segment.len(), 30);
}

#[test]
fn test_invalid_plan_rejected_by_processor() {
    let config = ExtendedGenerationConfig {
        overlap_duration: 28,
        segment_duration: 28,
        ..Default::default()
    };
    assert!(ExtendedJobProcessor::new(DummyProcessor, config, 1000).is_err());
}
