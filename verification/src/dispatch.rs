//! Dispatch adapter: routes short requests straight to the base capability
//! and long requests through the extended generator, adapting the base
//! capability into the segment-generator shape.

use crate::generate::{
    spec_accumulated_len, spec_crossfade_samples, spec_overlap_samples, spec_target_samples,
    total_segment_capability, uniform_segment_len, ExtendedAudioGenerator, SegmentError,
    SegmentGenerator,
};
use crate::plan::{spec_num_segments, spec_validation, ConfigError, ExtendedGenerationConfig};
use vstd::prelude::*;

verus! {

/// The base synthesis capability: one bounded direct generation request.
/// Implementers report their own progress and abort handling; the failure
/// message is propagated verbatim.
pub trait JobProcessor {
    /// The sample type of the produced audio.
    type Sample;

    /// Synthesizes roughly `secs * sample_rate` samples for the prompt.
    fn process(&self, prompt: &str, secs: usize) -> Result<Vec<Self::Sample>, String>;
}

/// Any failure of the dispatching processor.
#[derive(Clone, Debug)]
pub enum ProcessError {
    /// The base capability failed on the short-duration path; its message is
    /// kept verbatim.
    Generation(String),
    /// One segment failed on the extended path; no partial audio is kept.
    Segment(SegmentError),
}

/// The base capability `P` delivers buffers of one fixed length: every
/// successful `process` outcome, on any receiver and any arguments, is a
/// buffer of exactly `len` samples.  A caller whose capability has such a
/// contract can instantiate this to learn the exact generated length.
pub open spec fn uniform_process_len<P: JobProcessor>(len: int) -> bool {
    forall|q: &P, p: &str, s: usize, out: Vec<P::Sample>|
        call_ensures(P::process, (q, p, s), Ok::<Vec<P::Sample>, String>(out)) ==> out@.len()
            == len
}

/// The base capability `P` is total at length `len`: every admissible
/// outcome of `process`, on any receiver and any arguments, is `Ok` with
/// exactly `len` samples — in particular, it cannot fail.  A caller whose
/// capability has such a contract can conclude that dispatch succeeds.
pub open spec fn total_process_capability<P: JobProcessor>(len: int) -> bool {
    forall|q: &P, p: &str, s: usize, r: Result<Vec<P::Sample>, String>|
        #[trigger] call_ensures(P::process, (q, p, s), r) ==> (r matches Ok(out) && out@.len()
            == len)
}

/// Caps a requested segment duration at the 30-second model limit.
pub fn cap_segment_duration(duration: usize) -> (r: usize)
    ensures
        r == vstd::math::min(duration as int, 30),
{
    if duration < 30 {
        duration
    } else {
        30
    }
}

/// Adapts a base [`JobProcessor`] into the [`SegmentGenerator`] shape: each
/// segment request is capped at the 30-second model limit and forwarded.
pub struct MusicGPTSegmentGenerator<P: JobProcessor> {
    /// The wrapped base capability.
    pub processor: P,
}

impl<P: JobProcessor> MusicGPTSegmentGenerator<P> {
    /// Wraps a base capability.
    pub fn new(processor: P) -> (r: MusicGPTSegmentGenerator<P>)
        ensures
            r.processor == processor,
    {
        MusicGPTSegmentGenerator { processor }
    }
}

impl<P: JobProcessor> SegmentGenerator for MusicGPTSegmentGenerator<P> {
    type Sample = P::Sample;

    /// Caps the requested duration at 30 seconds and forwards the request to
    /// the base capability; the result — buffer or failure message — is the
    /// base capability's own for the capped request, passed through verbatim.
    fn generate_segment(
        &self,
        prompt: &str,
        duration: usize,
        _segment_index: usize,
        _num_segments: usize,
    ) -> (r: Result<Vec<P::Sample>, String>)
        ensures
            call_ensures(
                P::process,
                (&self.processor, prompt, vstd::math::min(duration as int, 30) as usize),
                r,
            ),
    {
        let safe_duration = cap_segment_duration(duration);
        self.processor.process(prompt, safe_duration)
    }
}

/// The externally-facing processor: picks between the direct path (at most
/// 30 seconds) and the extended segment pipeline.
pub struct ExtendedJobProcessor<P: JobProcessor> {
    /// The capability that synthesizes each bounded piece.
    pub base_processor: P,
    /// The orchestrator for the long-duration path.
    pub generator: ExtendedAudioGenerator,
}

impl<P: JobProcessor + Clone> ExtendedJobProcessor<P> where P::Sample: Copy {
    /// Accepts exactly the well-formed plans, like the generator it wraps.
    pub fn new(base_processor: P, config: ExtendedGenerationConfig, sample_rate: usize) -> (r:
        Result<ExtendedJobProcessor<P>, ConfigError>)
        ensures
            r is Ok <==> config.wf(),
            r matches Ok(p) ==> p.base_processor == base_processor && p.generator.config
                == config && p.generator.sample_rate == sample_rate,
            r matches Err(e) ==> spec_validation(config) == Err::<(), ConfigError>(e),
    {
        match ExtendedAudioGenerator::new(config, sample_rate) {
            Ok(generator) => Ok(ExtendedJobProcessor { base_processor, generator }),
            Err(e) => Err(e),
        }
    }

    /// Runs the extended pipeline: the base capability, adapted to the
    /// segment shape, feeds the orchestrator.  On success the buffer never
    /// exceeds the target sample count; for a base capability that delivers
    /// buffers of one fixed length (see [`uniform_process_len`]) the result
    /// length is pinned exactly: the target count truncated against what the
    /// segments delivered.  With a base capability that cannot fail (see
    /// [`total_process_capability`], delivered lengths fitting the address
    /// space) the pipeline succeeds; an error carries the failing segment's
    /// index.
    pub fn generate_extended<F: Fn(P::Sample, P::Sample, usize, usize) -> P::Sample + Copy>(
        &self,
        prompt: &str,
        blend: F,
    ) -> (r: Result<Vec<P::Sample>, SegmentError>)
        requires
            self.generator.wf(),
            self.generator.config.target_duration + self.generator.config.segment_duration
                <= usize::MAX,
            self.generator.config.target_duration * self.generator.sample_rate <= usize::MAX,
            self.generator.config.overlap_duration * self.generator.sample_rate <= usize::MAX,
            self.generator.config.crossfade_duration_ms * self.generator.sample_rate
                <= usize::MAX,
            forall|a: P::Sample, b: P::Sample, k: usize, n: usize| k < n ==> call_requires(
                blend,
                (a, b, k, n),
            ),
        ensures
            r matches Ok(buf) ==> buf@.len() <= spec_target_samples(
                self.generator.config,
                self.generator.sample_rate as int,
            ),
            r matches Ok(buf) ==> forall|len_each: int|
                #[trigger] uniform_process_len::<P>(len_each) ==> buf@.len() == vstd::math::min(
                    spec_target_samples(self.generator.config, self.generator.sample_rate as int),
                    spec_accumulated_len(
                        Seq::new(
                            spec_num_segments(self.generator.config) as nat,
                            |k: int| len_each,
                        ),
                        spec_overlap_samples(
                            self.generator.config,
                            self.generator.sample_rate as int,
                        ),
                        spec_crossfade_samples(
                            self.generator.config,
                            self.generator.sample_rate as int,
                        ),
                    ),
                ),
            forall|len_each: int|
                #[trigger] total_process_capability::<P>(len_each) && spec_num_segments(
                    self.generator.config,
                ) * len_each <= usize::MAX ==> r is Ok,
            r matches Err(e) ==> e.index < spec_num_segments(self.generator.config),
    {
        let segment_gen = MusicGPTSegmentGenerator::new(self.base_processor.clone());
        let r = self.generator.generate(&segment_gen, prompt, blend);
        proof {
            assert forall|len_each: int|
                #[trigger] uniform_process_len::<P>(len_each) implies uniform_segment_len::<
                MusicGPTSegmentGenerator<P>,
            >(len_each) by {
                assert forall|
                    g: &MusicGPTSegmentGenerator<P>,
                    p: &str,
                    d: usize,
                    j: usize,
                    n: usize,
                    out: Vec<P::Sample>,
                |
                    call_ensures(
                        <MusicGPTSegmentGenerator<P> as SegmentGenerator>::generate_segment,
                        (g, p, d, j, n),
                        Ok::<Vec<P::Sample>, String>(out),
                    ) implies out@.len() == len_each by {
                    assert(call_ensures(
                        P::process,
                        (&g.processor, p, vstd::math::min(d as int, 30) as usize),
                        Ok::<Vec<P::Sample>, String>(out),
                    ));
                }
            }
            assert forall|len_each: int|
                #[trigger] total_process_capability::<P>(len_each) implies
                total_segment_capability::<MusicGPTSegmentGenerator<P>>(len_each) by {
                assert forall|
                    g: &MusicGPTSegmentGenerator<P>,
                    p: &str,
                    d: usize,
                    j: usize,
                    n: usize,
                    rr: Result<Vec<P::Sample>, String>,
                |
                    #[trigger] call_ensures(
                        <MusicGPTSegmentGenerator<P> as SegmentGenerator>::generate_segment,
                        (g, p, d, j, n),
                        rr,
                    ) implies (rr matches Ok(out) && out@.len() == len_each) by {
                    assert(call_ensures(
                        P::process,
                        (&g.processor, p, vstd::math::min(d as int, 30) as usize),
                        rr,
                    ));
                }
            }
        }
        r
    }

    /// The dispatch policy: a request of at most 30 seconds goes directly to
    /// the base capability — buffer or failure message is the base
    /// capability's own result for `(prompt, secs)`, the failure wrapped as
    /// a `Generation` error.  A longer request runs the extended pipeline,
    /// with that path's guarantees restated here: failures are `Segment`
    /// errors carrying the failing index, the result never exceeds the
    /// target sample count, a fixed-length base pins the length exactly, and
    /// a base that cannot fail makes the request succeed.
    pub fn process<F: Fn(P::Sample, P::Sample, usize, usize) -> P::Sample + Copy>(
        &self,
        prompt: &str,
        secs: usize,
        blend: F,
    ) -> (r: Result<Vec<P::Sample>, ProcessError>)
        requires
            secs > 30 ==> self.generator.wf(),
            secs > 30 ==> self.generator.config.target_duration
                + self.generator.config.segment_duration <= usize::MAX,
            secs > 30 ==> self.generator.config.target_duration * self.generator.sample_rate
                <= usize::MAX,
            secs > 30 ==> self.generator.config.overlap_duration * self.generator.sample_rate
                <= usize::MAX,
            secs > 30 ==> self.generator.config.crossfade_duration_ms
                * self.generator.sample_rate <= usize::MAX,
            secs > 30 ==> forall|a: P::Sample, b: P::Sample, k: usize, n: usize| k < n
                ==> call_requires(blend, (a, b, k, n)),
        ensures
            secs <= 30 ==> (r matches Ok(buf) ==> call_ensures(
                P::process,
                (&self.base_processor, prompt, secs),
                Ok::<Vec<P::Sample>, String>(buf),
            )),
            secs <= 30 ==> (r matches Err(e) ==> (e matches ProcessError::Generation(m)
                && call_ensures(
                P::process,
                (&self.base_processor, prompt, secs),
                Err::<Vec<P::Sample>, String>(m),
            ))),
            secs > 30 ==> (r matches Err(e) ==> (e matches ProcessError::Segment(se) && se.index
                < spec_num_segments(self.generator.config))),
            secs > 30 ==> (r matches Ok(buf) ==> buf@.len() <= spec_target_samples(
                self.generator.config,
                self.generator.sample_rate as int,
            )),
            secs > 30 ==> (r matches Ok(buf) ==> forall|len_each: int|
                #[trigger] uniform_process_len::<P>(len_each) ==> buf@.len() == vstd::math::min(
                    spec_target_samples(self.generator.config, self.generator.sample_rate as int),
                    spec_accumulated_len(
                        Seq::new(
                            spec_num_segments(self.generator.config) as nat,
                            |k: int| len_each,
                        ),
                        spec_overlap_samples(
                            self.generator.config,
                            self.generator.sample_rate as int,
                        ),
                        spec_crossfade_samples(
                            self.generator.config,
                            self.generator.sample_rate as int,
                        ),
                    ),
                )),
            secs > 30 ==> (forall|len_each: int|
                #[trigger] total_process_capability::<P>(len_each) && spec_num_segments(
                    self.generator.config,
                ) * len_each <= usize::MAX ==> r is Ok),
    {
        if secs <= 30 {
            match self.base_processor.process(prompt, secs) {
                Ok(buf) => Ok(buf),
                Err(e) => Err(ProcessError::Generation(e)),
            }
        } else {
            match self.generate_extended(prompt, blend) {
                Ok(buf) => Ok(buf),
                Err(e) => Err(ProcessError::Segment(e)),
            }
        }
    }
}

} // verus!
