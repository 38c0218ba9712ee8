//! Generation plan: the four numeric settings of a long-form request and the
//! derived segment count.

use vstd::prelude::*;

verus! {

/// The reason a plan was rejected by [`ExtendedGenerationConfig::validate`].
#[derive(Clone, Copy, Debug, PartialEq, Eq, Structural)]
pub enum ConfigError {
    /// `segment_duration` exceeds the 30-second model limit.
    SegmentTooLong,
    /// `overlap_duration` is not strictly below `segment_duration`.
    OverlapNotBelowSegment,
    /// The crossfade is longer than the overlap it must fit into.
    CrossfadeExceedsOverlap,
}

/// Settings for one long-form generation request.
///
/// Durations are whole seconds, except the crossfade, which is kept in
/// milliseconds so that it can be a fraction of a second while staying a
/// plain integer.
#[derive(Clone, Debug)]
pub struct ExtendedGenerationConfig {
    /// Requested total duration in seconds.
    pub target_duration: usize,
    /// Duration of each synthesized segment in seconds (at most 30).
    pub segment_duration: usize,
    /// Overlap between consecutive segments in seconds (below the segment
    /// duration).
    pub overlap_duration: usize,
    /// Crossfade length in milliseconds (at most the overlap).
    pub crossfade_duration_ms: usize,
}

/// The outcome of plan validation: the first violated condition, in the
/// fixed checking order, or success.
pub open spec fn spec_validation(c: ExtendedGenerationConfig) -> Result<(), ConfigError> {
    if c.segment_duration > 30 {
        Err(ConfigError::SegmentTooLong)
    } else if c.overlap_duration >= c.segment_duration {
        Err(ConfigError::OverlapNotBelowSegment)
    } else if c.crossfade_duration_ms > c.overlap_duration * 1000 {
        Err(ConfigError::CrossfadeExceedsOverlap)
    } else {
        Ok(())
    }
}

/// Ceiling division for non-negative `a` and positive `b`.
pub open spec fn spec_ceil_div(a: int, b: int) -> int {
    (a + b - 1) / b
}

/// The number of segments a plan produces: the target duration divided by the
/// effective step length (segment minus overlap), rounded up, floored at 1.
pub open spec fn spec_num_segments(c: ExtendedGenerationConfig) -> int {
    let eff = c.segment_duration - c.overlap_duration;
    let n = spec_ceil_div(c.target_duration as int, eff);
    if n < 1 {
        1
    } else {
        n
    }
}

impl ExtendedGenerationConfig {
    /// A plan is well formed exactly when all three validation conditions
    /// hold.
    pub open spec fn wf(self) -> bool {
        &&& self.segment_duration <= 30
        &&& self.overlap_duration < self.segment_duration
        &&& self.crossfade_duration_ms <= self.overlap_duration * 1000
    }

    /// Checks the three plan conditions in their fixed order and reports the
    /// first violation; succeeds exactly on well-formed plans.
    pub fn validate(&self) -> (r: Result<(), ConfigError>)
        ensures
            r == spec_validation(*self),
            r is Ok <==> self.wf(),
    {
        if self.segment_duration > 30 {
            return Err(ConfigError::SegmentTooLong);
        }
        if self.overlap_duration >= self.segment_duration {
            return Err(ConfigError::OverlapNotBelowSegment);
        }
        if self.crossfade_duration_ms > self.overlap_duration * 1000 {
            return Err(ConfigError::CrossfadeExceedsOverlap);
        }
        Ok(())
    }

    /// Number of segments needed to cover the target duration: ceiling
    /// division of the target by the effective step length, at least 1.
    pub fn num_segments(&self) -> (r: usize)
        requires
            self.overlap_duration < self.segment_duration,
            self.target_duration + self.segment_duration <= usize::MAX,
        ensures
            r >= 1,
            r == spec_num_segments(*self),
    {
        let effective_segment = self.segment_duration - self.overlap_duration;
        let n = (self.target_duration + effective_segment - 1) / effective_segment;
        if n < 1 {
            1
        } else {
            n
        }
    }
}

impl Default for ExtendedGenerationConfig {
    /// The documented default plan: four minutes of audio from 28-second
    /// segments with a 4-second overlap and a 2-second crossfade.
    fn default() -> (r: Self)
        ensures
            r.target_duration == 240,
            r.segment_duration == 28,
            r.overlap_duration == 4,
            r.crossfade_duration_ms == 2000,
            r.wf(),
    {
        ExtendedGenerationConfig {
            target_duration: 240,
            segment_duration: 28,
            overlap_duration: 4,
            crossfade_duration_ms: 2000,
        }
    }
}

/// The segment count of a plan is at least 1, covers the whole target
/// duration, and is the least such count: one segment fewer would advance the
/// timeline by less than the target (whenever more than one is needed).
pub proof fn lemma_num_segments_is_ceiling(c: ExtendedGenerationConfig)
    requires
        c.overlap_duration < c.segment_duration,
    ensures
        spec_num_segments(c) >= 1,
        spec_num_segments(c) * (c.segment_duration - c.overlap_duration) >= c.target_duration,
        spec_num_segments(c) > 1 ==> (spec_num_segments(c) - 1) * (c.segment_duration
            - c.overlap_duration) < c.target_duration,
{
    let eff = c.segment_duration - c.overlap_duration;
    let t = c.target_duration as int;
    let q = (t + eff - 1) / eff;
    vstd::arithmetic::div_mod::lemma_fundamental_div_mod(t + eff - 1, eff);
    vstd::arithmetic::div_mod::lemma_mod_bound(t + eff - 1, eff);
    assert(q * eff >= t);
    if q >= 1 {
        assert(spec_num_segments(c) == q);
        assert((q - 1) * eff == q * eff - eff) by (nonlinear_arith);
        assert((q - 1) * eff < t);
    } else {
        assert(spec_num_segments(c) == 1);
        assert(t <= 0 || q >= 1) by {
            if t >= 1 {
                vstd::arithmetic::div_mod::lemma_div_is_ordered(eff, t + eff - 1, eff);
                vstd::arithmetic::div_mod::lemma_div_by_self(eff);
            }
        }
        assert(1 * eff >= t);
    }
}

} // verus!
