//! Extended generator: plans the segments, requests each one from a
//! [`SegmentGenerator`], blends them through the blend engine and trims the
//! result to the exact target sample count.

use crate::blend;
use crate::blend::{crossfade_segments, spec_merged_len};
use crate::plan::{spec_num_segments, spec_validation, ConfigError, ExtendedGenerationConfig};
use vstd::prelude::*;
use vstd::string::StringExecFns;

verus! {

/// A single segment's generation failed; the whole request is abandoned and
/// no partial audio is returned.
#[derive(Clone, Debug)]
pub struct SegmentError {
    /// Index of the failing segment.
    pub index: usize,
    /// The capability's own description of the failure.
    pub cause: String,
}

/// The abstract synthesis capability: produces one bounded segment of audio.
///
/// Implementers receive the segment index and the total segment count, so
/// they can report overall progress for the request (the progress module
/// provides the verified aggregation arithmetic).  A failure aborts the whole
/// request; the orchestrator attaches the segment index to the cause.
pub trait SegmentGenerator {
    /// The sample type of the produced audio.
    type Sample;

    /// Synthesizes one segment of roughly `duration` seconds for the given
    /// contextual prompt.
    fn generate_segment(
        &self,
        prompt: &str,
        duration: usize,
        segment_index: usize,
        num_segments: usize,
    ) -> Result<Vec<Self::Sample>, String>;
}

/// Overlap between consecutive segments, in samples.
pub open spec fn spec_overlap_samples(c: ExtendedGenerationConfig, rate: int) -> int {
    c.overlap_duration * rate
}

/// Crossfade length in samples: milliseconds times rate, truncated.
pub open spec fn spec_crossfade_samples(c: ExtendedGenerationConfig, rate: int) -> int {
    (c.crossfade_duration_ms * rate) / 1000
}

/// The exact sample count a full generation must return.
pub open spec fn spec_target_samples(c: ExtendedGenerationConfig, rate: int) -> int {
    c.target_duration * rate
}

/// Length of the accumulated buffer after segments of the given lengths have
/// been merged left to right: the first segment enters verbatim, each later
/// one through the crossfade merge.
pub open spec fn spec_accumulated_len(lens: Seq<int>, overlap: int, fade: int) -> int
    decreases lens.len(),
{
    if lens.len() == 0 {
        0
    } else if lens.len() == 1 {
        lens[0]
    } else {
        spec_merged_len(
            spec_accumulated_len(lens.drop_last(), overlap, fade),
            lens.last(),
            overlap,
            fade,
        )
    }
}

/// The capability `G` delivers buffers of one fixed length: every successful
/// `generate_segment` outcome, on any receiver and any arguments, is a buffer
/// of exactly `len` samples.  A caller whose capability has such a contract
/// can instantiate this to learn the exact generated length.
pub open spec fn uniform_segment_len<G: SegmentGenerator>(len: int) -> bool {
    forall|g: &G, p: &str, d: usize, j: usize, n: usize, out: Vec<G::Sample>|
        call_ensures(G::generate_segment, (g, p, d, j, n), Ok::<Vec<G::Sample>, String>(out))
            ==> out@.len() == len
}

/// The capability `G` is total at length `len`: every admissible outcome of
/// `generate_segment`, on any receiver and any arguments, is `Ok` with
/// exactly `len` samples — in particular, it cannot fail.  A caller whose
/// capability has such a contract can conclude that generation succeeds.
pub open spec fn total_segment_capability<G: SegmentGenerator>(len: int) -> bool {
    forall|g: &G, p: &str, d: usize, j: usize, n: usize, r: Result<Vec<G::Sample>, String>|
        #[trigger] call_ensures(G::generate_segment, (g, p, d, j, n), r) ==> (r matches Ok(out)
            && out@.len() == len)
}

/// The capability `G` delivers per-index lengths: every successful
/// `generate_segment` outcome for segment index `j` is a buffer of exactly
/// `lens[j]` samples.
pub open spec fn indexed_segment_len<G: SegmentGenerator>(lens: Seq<int>) -> bool {
    forall|g: &G, p: &str, d: usize, j: usize, n: usize, out: Vec<G::Sample>|
        #[trigger] call_ensures(
            G::generate_segment,
            (g, p, d, j, n),
            Ok::<Vec<G::Sample>, String>(out),
        ) && j < lens.len() ==> out@.len() == lens[j as int]
}

/// The positional hint appended to the base prompt for a given segment:
/// introduction for the first, outro for the last, bridge at the midpoint,
/// building in the first third, nothing elsewhere — first match wins.
pub open spec fn spec_segment_hint(i: int, n: int) -> Seq<char> {
    if i == 0 {
        " (introduction, opening)"@
    } else if i == n - 1 {
        " (conclusion, ending, outro)"@
    } else if i == n / 2 {
        " (bridge, development, variation)"@
    } else if i < n / 3 {
        " (building, developing)"@
    } else {
        Seq::<char>::empty()
    }
}

/// When the segments deliver at least the target number of samples before
/// truncation, a successful full generation returns exactly the target
/// number of samples — truncation drops the excess and never pads.
pub proof fn lemma_sufficient_synthesis_is_exact(
    lens: Seq<int>,
    overlap: int,
    fade: int,
    target: int,
)
    requires
        spec_accumulated_len(lens, overlap, fade) >= target,
    ensures
        vstd::math::min(target, spec_accumulated_len(lens, overlap, fade)) == target,
{
}

/// Orchestrates one long-form request against a validated plan.
pub struct ExtendedAudioGenerator {
    /// The validated plan.
    pub config: ExtendedGenerationConfig,
    /// Samples per second of the synthesized audio.
    pub sample_rate: usize,
}

impl ExtendedAudioGenerator {
    /// A generator is well formed when its plan is.
    pub open spec fn wf(self) -> bool {
        self.config.wf()
    }

    /// Accepts exactly the well-formed plans; an invalid plan is rejected
    /// with its first failing validation condition and can never generate.
    pub fn new(config: ExtendedGenerationConfig, sample_rate: usize) -> (r: Result<
        ExtendedAudioGenerator,
        ConfigError,
    >)
        ensures
            r is Ok <==> config.wf(),
            r matches Ok(g) ==> g.config == config && g.sample_rate == sample_rate && g.wf(),
            r matches Err(e) ==> spec_validation(config) == Err::<(), ConfigError>(e),
    {
        match config.validate() {
            Ok(()) => Ok(ExtendedAudioGenerator { config, sample_rate }),
            Err(e) => Err(e),
        }
    }

    /// Builds the contextual prompt for one segment by appending the
    /// positional hint; the match conditions overlap for small counts and
    /// are resolved by fixed first-match priority.
    pub fn create_segment_prompt(
        &self,
        base_prompt: &str,
        segment_index: usize,
        total_segments: usize,
    ) -> (r: String)
        requires
            total_segments >= 1,
        ensures
            r@ == base_prompt@ + spec_segment_hint(segment_index as int, total_segments as int),
    {
        if segment_index == 0 {
            String::from_str(base_prompt).concat(" (introduction, opening)")
        } else if segment_index == total_segments - 1 {
            String::from_str(base_prompt).concat(" (conclusion, ending, outro)")
        } else if segment_index == total_segments / 2 {
            String::from_str(base_prompt).concat(" (bridge, development, variation)")
        } else if segment_index < total_segments / 3 {
            String::from_str(base_prompt).concat(" (building, developing)")
        } else {
            let r = String::from_str(base_prompt);
            proof {
                assert(base_prompt@ + Seq::<char>::empty() =~= base_prompt@);
            }
            r
        }
    }

    /// Generates the segments in order, blends each one onto the running
    /// buffer and trims the result to the target sample count.
    ///
    /// On success the buffer never exceeds the target length; for a
    /// capability whose delivered lengths are known — one fixed length
    /// ([`uniform_segment_len`]) or one length per index
    /// ([`indexed_segment_len`]) — the result length is pinned exactly: the
    /// target count truncated against what the segments delivered.  An error
    /// carries the index of the failing segment and is either the address-
    /// space guard below or an actual possible failure of the capability on
    /// that segment's contextual prompt; with a capability that cannot fail
    /// ([`total_segment_capability`], delivered lengths fitting the address
    /// space) generation succeeds.
    #[verifier::loop_isolation(false)]
    pub fn generate<G: SegmentGenerator, F: Fn(G::Sample, G::Sample, usize, usize) -> G::Sample + Copy>(
        &self,
        generator: &G,
        prompt: &str,
        blend: F,
    ) -> (r: Result<Vec<G::Sample>, SegmentError>) where G::Sample: Copy
        requires
            self.wf(),
            self.config.target_duration + self.config.segment_duration <= usize::MAX,
            self.config.target_duration * self.sample_rate <= usize::MAX,
            self.config.overlap_duration * self.sample_rate <= usize::MAX,
            self.config.crossfade_duration_ms * self.sample_rate <= usize::MAX,
            forall|a: G::Sample, b: G::Sample, k: usize, n: usize| k < n ==> call_requires(
                blend,
                (a, b, k, n),
            ),
        ensures
            r matches Ok(buf) ==> buf@.len() <= spec_target_samples(
                self.config,
                self.sample_rate as int,
            ),
            r matches Ok(buf) ==> forall|len_each: int|
                #[trigger] uniform_segment_len::<G>(len_each) ==> buf@.len() == vstd::math::min(
                    spec_target_samples(self.config, self.sample_rate as int),
                    spec_accumulated_len(
                        Seq::new(spec_num_segments(self.config) as nat, |k: int| len_each),
                        spec_overlap_samples(self.config, self.sample_rate as int),
                        spec_crossfade_samples(self.config, self.sample_rate as int),
                    ),
                ),
            r matches Ok(buf) ==> forall|lens: Seq<int>|
                #[trigger] indexed_segment_len::<G>(lens) && lens.len() == spec_num_segments(
                    self.config,
                ) ==> buf@.len() == vstd::math::min(
                    spec_target_samples(self.config, self.sample_rate as int),
                    spec_accumulated_len(
                        lens,
                        spec_overlap_samples(self.config, self.sample_rate as int),
                        spec_crossfade_samples(self.config, self.sample_rate as int),
                    ),
                ),
            forall|len_each: int|
                #[trigger] total_segment_capability::<G>(len_each) && spec_num_segments(
                    self.config,
                ) * len_each <= usize::MAX ==> r is Ok,
            r matches Err(e) ==> e.index < spec_num_segments(self.config) && (e.cause@
                == "segment does not fit in the sample buffer"@ || exists|p: &str|
                #![trigger call_ensures(
                    G::generate_segment,
                    (
                        generator,
                        p,
                        self.config.segment_duration,
                        e.index,
                        spec_num_segments(self.config) as usize,
                    ),
                    Err::<Vec<G::Sample>, String>(e.cause),
                )]
                p@ == prompt@ + spec_segment_hint(e.index as int, spec_num_segments(self.config))
                    && call_ensures(
                    G::generate_segment,
                    (
                        generator,
                        p,
                        self.config.segment_duration,
                        e.index,
                        spec_num_segments(self.config) as usize,
                    ),
                    Err::<Vec<G::Sample>, String>(e.cause),
                )),
    {
        let num_segments = self.config.num_segments();
        let overlap_samples = self.config.overlap_duration * self.sample_rate;
        let crossfade_samples = (self.config.crossfade_duration_ms * self.sample_rate) / 1000;
        let target_samples = self.config.target_duration * self.sample_rate;

        let mut accumulated: Vec<G::Sample> = Vec::new();
        let ghost mut seg_lens: Seq<int> = Seq::empty();

        let mut i: usize = 0;
        while i < num_segments
            invariant
                i <= num_segments,
                seg_lens.len() == i as int,
                forall|len_each: int|
                    #[trigger] uniform_segment_len::<G>(len_each) ==> (forall|j: int|
                        0 <= j < seg_lens.len() ==> seg_lens[j] == len_each),
                forall|lens: Seq<int>|
                    #[trigger] indexed_segment_len::<G>(lens) && lens.len() == spec_num_segments(
                        self.config,
                    ) ==> (forall|j: int| 0 <= j < seg_lens.len() ==> seg_lens[j] == lens[j]),
                forall|len_each: int|
                    #[trigger] total_segment_capability::<G>(len_each) ==> accumulated@.len()
                        <= seg_lens.len() * len_each,
                accumulated@.len() == spec_accumulated_len(
                    seg_lens,
                    overlap_samples as int,
                    crossfade_samples as int,
                ),
            decreases num_segments - i,
        {
            let segment_prompt = self.create_segment_prompt(prompt, i, num_segments);
            let prompt_str = segment_prompt.as_str();
            let result = generator.generate_segment(
                prompt_str,
                self.config.segment_duration,
                i,
                num_segments,
            );
            let ghost gres = result;
            let seg = match result {
                Ok(s) => s,
                Err(cause) => {
                    proof {
                        assert(gres == Err::<Vec<G::Sample>, String>(cause));
                        assert(spec_num_segments(self.config) as usize == num_segments);
                        assert(call_ensures(
                            G::generate_segment,
                            (
                                generator,
                                prompt_str,
                                self.config.segment_duration,
                                i,
                                spec_num_segments(self.config) as usize,
                            ),
                            Err::<Vec<G::Sample>, String>(cause),
                        ));
                        assert(exists|p: &str|
                            #![trigger call_ensures(
                                G::generate_segment,
                                (
                                    generator,
                                    p,
                                    self.config.segment_duration,
                                    i,
                                    spec_num_segments(self.config) as usize,
                                ),
                                Err::<Vec<G::Sample>, String>(cause),
                            )]
                            p@ == prompt@ + spec_segment_hint(
                                i as int,
                                spec_num_segments(self.config),
                            ) && call_ensures(
                                G::generate_segment,
                                (
                                    generator,
                                    p,
                                    self.config.segment_duration,
                                    i,
                                    spec_num_segments(self.config) as usize,
                                ),
                                Err::<Vec<G::Sample>, String>(cause),
                            ));
                    }
                    return Err(SegmentError { index: i, cause });
                },
            };
            let ghost seg_len = seg@.len() as int;
            let ghost prev_lens = seg_lens;
            let ghost prev_acc_len = accumulated@.len() as int;
            proof {
                seg_lens = seg_lens.push(seg_len);
                assert(seg_lens.drop_last() =~= prev_lens);
                assert(gres == Ok::<Vec<G::Sample>, String>(seg));
                assert(call_ensures(
                    G::generate_segment,
                    (generator, prompt_str, self.config.segment_duration, i, num_segments),
                    Ok::<Vec<G::Sample>, String>(seg),
                ));
            }
            if i == 0 {
                accumulated = seg;
            } else {
                if accumulated.len() > usize::MAX - seg.len() {
                    // Physically unreachable: the merged buffer would not fit
                    // in the address space.  Reported as this segment failing
                    // rather than aborting the process.
                    proof {
                        assert forall|len_each: int|
                            #[trigger] total_segment_capability::<G>(len_each) implies
                            spec_num_segments(self.config) * len_each > usize::MAX by {
                            assert(seg_len == len_each);
                            assert(prev_acc_len <= prev_lens.len() * len_each);
                            assert(prev_lens.len() * len_each + len_each == (prev_lens.len() + 1)
                                * len_each) by (nonlinear_arith);
                            assert((prev_lens.len() + 1) * len_each <= spec_num_segments(
                                self.config,
                            ) * len_each) by (nonlinear_arith)
                                requires
                                    prev_lens.len() + 1 <= spec_num_segments(self.config),
                                    len_each >= 0,
                            ;
                        }
                    }
                    return Err(
                        SegmentError {
                            index: i,
                            cause: String::from_str("segment does not fit in the sample buffer"),
                        },
                    );
                }
                accumulated = crossfade_segments(
                    accumulated,
                    seg,
                    overlap_samples,
                    crossfade_samples,
                    blend,
                );
            }
            proof {
                assert forall|len_each: int|
                    #[trigger] total_segment_capability::<G>(len_each) implies accumulated@.len()
                    <= seg_lens.len() * len_each by {
                    assert(seg_len == len_each);
                    assert(prev_acc_len <= prev_lens.len() * len_each);
                    assert(accumulated@.len() <= prev_acc_len + seg_len);
                    assert(prev_lens.len() * len_each + len_each == (prev_lens.len() + 1)
                        * len_each) by (nonlinear_arith);
                }
                assert forall|lens: Seq<int>|
                    #[trigger] indexed_segment_len::<G>(lens) && lens.len() == spec_num_segments(
                        self.config,
                    ) implies (forall|j: int| 0 <= j < seg_lens.len() ==> seg_lens[j]
                    == lens[j]) by {
                    assert forall|j: int| 0 <= j < seg_lens.len() implies seg_lens[j]
                        == lens[j] by {
                        if j < prev_lens.len() {
                            assert(prev_lens[j] == lens[j]);
                        } else {
                            assert(seg_lens[j] == seg_len);
                            assert(i < num_segments);
                            assert(seg_len == lens[j]);
                        }
                    }
                }
            }
            i += 1;
        }

        accumulated.truncate(target_samples);
        proof {
            assert forall|len_each: int| uniform_segment_len::<G>(len_each) implies
                accumulated@.len() == vstd::math::min(
                spec_target_samples(self.config, self.sample_rate as int),
                spec_accumulated_len(
                    Seq::new(spec_num_segments(self.config) as nat, |k: int| len_each),
                    spec_overlap_samples(self.config, self.sample_rate as int),
                    spec_crossfade_samples(self.config, self.sample_rate as int),
                ),
            ) by {
                assert(seg_lens =~= Seq::new(
                    spec_num_segments(self.config) as nat,
                    |k: int| len_each,
                ));
            }
            assert forall|lens: Seq<int>|
                #[trigger] indexed_segment_len::<G>(lens) && lens.len() == spec_num_segments(
                    self.config,
                ) implies accumulated@.len() == vstd::math::min(
                spec_target_samples(self.config, self.sample_rate as int),
                spec_accumulated_len(
                    lens,
                    spec_overlap_samples(self.config, self.sample_rate as int),
                    spec_crossfade_samples(self.config, self.sample_rate as int),
                ),
            ) by {
                assert(seg_lens =~= lens);
            }
        }
        Ok(accumulated)
    }

    /// Suppresses clicks at hard buffer edges: scales the first
    /// `window_size` samples by the caller's rising ramp and the last
    /// `window_size` by its falling ramp, exactly as the blend engine's
    /// [`blend::apply_smoothing`] specifies; a no-op on a buffer shorter
    /// than two windows.
    pub fn apply_smoothing<T: Copy, F: Fn(T, usize, usize) -> T>(
        audio: &mut Vec<T>,
        window_size: usize,
        scale: F,
    )
        requires
            forall|a: T, num: usize| num <= window_size ==> call_requires(
                scale,
                (a, num, window_size),
            ),
        ensures
            old(audio)@.len() < 2 * window_size ==> final(audio)@ == old(audio)@,
            old(audio)@.len() >= 2 * window_size ==> ({
                let len = old(audio)@.len() as int;
                let w = window_size as int;
                &&& final(audio)@.len() == len
                &&& forall|i: int|
                    0 <= i < w ==> call_ensures(
                        scale,
                        (old(audio)@[i], i as usize, window_size),
                        #[trigger] final(audio)@[i],
                    )
                &&& forall|i: int|
                    0 <= i < w ==> call_ensures(
                        scale,
                        (old(audio)@[len - 1 - i], (w - i) as usize, window_size),
                        #[trigger] final(audio)@[len - 1 - i],
                    )
                &&& forall|i: int| w <= i < len - w ==> final(audio)@[i] == old(audio)@[i]
            }),
    {
        blend::apply_smoothing(audio, window_size, scale)
    }
}

} // verus!
