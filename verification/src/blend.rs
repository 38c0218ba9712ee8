//! Blend engine: the overlap-add crossfade and the edge-smoothing ramp.
//!
//! Both operations are generic in the sample type.  The caller supplies the
//! per-sample arithmetic as a closure (`blend` interpolates two samples at a
//! ramp position, `scale` applies a ramp factor to one sample); the contracts
//! here pin down every structural fact: the result length, which positions
//! are blended or scaled with which arguments, and which samples pass through
//! untouched.

use vstd::prelude::*;

verus! {

/// Index where the crossfade starts inside the accumulated buffer: its length
/// minus the fade length, floored at zero.
pub open spec fn spec_blend_start(len1: int, fade: int) -> int {
    if fade <= len1 {
        len1 - fade
    } else {
        0
    }
}

/// Length of the merged buffer: plain concatenation when the accumulated
/// buffer is too short to overlap, otherwise the concatenation minus the
/// samples consumed by the fade.
pub open spec fn spec_merged_len(len1: int, len2: int, overlap: int, fade: int) -> int {
    if len1 < overlap {
        len1 + len2
    } else {
        len1 + len2 - vstd::math::min(fade, len2)
    }
}

/// Crossfades `segment2` onto the tail of `segment1`.
///
/// When `segment1` has fewer than `overlap_samples` samples there is not
/// enough history to overlap and the result is the exact concatenation.
/// Otherwise the last `crossfade_samples` positions of `segment1` are
/// replaced by `blend(a, b, k, crossfade_samples)` — the caller's
/// interpolation of the old sample `a` and the incoming sample `b` at ramp
/// position `k` — and the remainder of `segment2` (past the samples the fade
/// consumed) is appended.
#[verifier::loop_isolation(false)]
pub fn crossfade_segments<T: Copy, F: Fn(T, T, usize, usize) -> T>(
    segment1: Vec<T>,
    segment2: Vec<T>,
    overlap_samples: usize,
    crossfade_samples: usize,
    blend: F,
) -> (r: Vec<T>)
    requires
        segment1@.len() + segment2@.len() <= usize::MAX,
        forall|a: T, b: T, k: usize| k < crossfade_samples ==> call_requires(
            blend,
            (a, b, k, crossfade_samples),
        ),
    ensures
        r@.len() == spec_merged_len(
            segment1@.len() as int,
            segment2@.len() as int,
            overlap_samples as int,
            crossfade_samples as int,
        ),
        segment1@.len() < overlap_samples ==> r@ == segment1@ + segment2@,
        segment1@.len() >= overlap_samples ==> ({
            let len1 = segment1@.len() as int;
            let len2 = segment2@.len() as int;
            let start = spec_blend_start(len1, crossfade_samples as int);
            let m = vstd::math::min(crossfade_samples as int, len2);
            &&& forall|i: int| 0 <= i < start ==> r@[i] == segment1@[i]
            &&& forall|i: int|
                start <= i < len1 && i - start < m ==> call_ensures(
                    blend,
                    (segment1@[i], segment2@[i - start], (i - start) as usize, crossfade_samples),
                    #[trigger] r@[i],
                )
            &&& forall|i: int| start + m <= i < len1 ==> r@[i] == segment1@[i]
            &&& forall|i: int| len1 <= i < len1 + len2 - m ==> #[trigger] r@[i] == segment2@[i
                - len1 + m]
        }),
{
    let ghost orig1 = segment1@;
    let len1 = segment1.len();
    let len2 = segment2.len();
    let mut out = segment1;

    if len1 < overlap_samples {
        // Not enough accumulated samples to overlap: concatenate verbatim.
        proof {
            assert(orig1 + segment2@.subrange(0, 0) =~= orig1);
        }
        let mut j: usize = 0;
        while j < len2
            invariant
                j <= len2,
                len2 == segment2@.len(),
                len1 == orig1.len(),
                len1 + len2 <= usize::MAX,
                out@ == orig1 + segment2@.subrange(0, j as int),
            decreases len2 - j,
        {
            out.push(segment2[j]);
            proof {
                assert(orig1 + segment2@.subrange(0, j as int + 1) =~= (orig1
                    + segment2@.subrange(0, j as int)).push(segment2@[j as int]));
            }
            j += 1;
        }
        proof {
            assert(segment2@.subrange(0, len2 as int) =~= segment2@);
        }
        return out;
    }

    let crossfade_start = if crossfade_samples <= len1 {
        len1 - crossfade_samples
    } else {
        0
    };
    let m = if crossfade_samples < len2 {
        crossfade_samples
    } else {
        len2
    };

    let mut k: usize = 0;
    while k < m
        invariant
            k <= m,
            m == vstd::math::min(crossfade_samples as int, segment2@.len() as int),
            len1 == orig1.len(),
            len2 == segment2@.len(),
            crossfade_start == spec_blend_start(len1 as int, crossfade_samples as int),
            out@.len() == len1,
            forall|i: int| 0 <= i < crossfade_start ==> out@[i] == orig1[i],
            forall|i: int|
                crossfade_start <= i < len1 && i - crossfade_start < k ==> call_ensures(
                    blend,
                    (orig1[i], segment2@[i - crossfade_start], (i - crossfade_start) as usize,
                    crossfade_samples),
                    #[trigger] out@[i],
                ),
            forall|i: int| crossfade_start + k <= i < len1 ==> out@[i] == orig1[i],
        decreases m - k,
    {
        let idx = crossfade_start + k;
        if idx < len1 {
            let blended = blend(out[idx], segment2[k], k, crossfade_samples);
            out[idx] = blended;
        }
        k += 1;
    }

    let ghost mid = out@;
    proof {
        assert(mid + segment2@.subrange(m as int, m as int) =~= mid);
    }
    let mut j: usize = m;
    while j < len2
        invariant
            m <= j <= len2,
            len2 == segment2@.len(),
            mid.len() == len1,
            len1 + len2 <= usize::MAX,
            out@ == mid + segment2@.subrange(m as int, j as int),
        decreases len2 - j,
    {
        out.push(segment2[j]);
        proof {
            assert(mid + segment2@.subrange(m as int, j as int + 1) =~= (mid
                + segment2@.subrange(m as int, j as int)).push(segment2@[j as int]));
        }
        j += 1;
    }
    out
}

/// Scales the first `window_size` samples by a rising ramp and the last
/// `window_size` samples by a falling ramp, to suppress clicks at hard buffer
/// edges.  A no-op when the buffer is shorter than two windows.
///
/// The caller's `scale(a, num, den)` applies ramp factor `num / den` to the
/// sample `a`: the leading window uses factors `k / window_size` for
/// `k in 0..window_size`, the trailing window (from the end inward) uses
/// `(window_size - k) / window_size`.  The middle of the buffer is untouched.
#[verifier::loop_isolation(false)]
pub fn apply_smoothing<T: Copy, F: Fn(T, usize, usize) -> T>(
    audio: &mut Vec<T>,
    window_size: usize,
    scale: F,
)
    requires
        forall|a: T, num: usize| num <= window_size ==> call_requires(
            scale,
            (a, num, window_size),
        ),
    ensures
        old(audio)@.len() < 2 * window_size ==> final(audio)@ == old(audio)@,
        old(audio)@.len() >= 2 * window_size ==> ({
            let len = old(audio)@.len() as int;
            let w = window_size as int;
            &&& final(audio)@.len() == len
            &&& forall|i: int|
                0 <= i < w ==> call_ensures(
                    scale,
                    (old(audio)@[i], i as usize, window_size),
                    #[trigger] final(audio)@[i],
                )
            &&& forall|i: int|
                0 <= i < w ==> call_ensures(
                    scale,
                    (old(audio)@[len - 1 - i], (w - i) as usize, window_size),
                    #[trigger] final(audio)@[len - 1 - i],
                )
            &&& forall|i: int| w <= i < len - w ==> final(audio)@[i] == old(audio)@[i]
        }),
{
    let len = audio.len();
    if window_size > usize::MAX / 2 || len < 2 * window_size {
        proof {
            if old(audio)@.len() >= 2 * window_size {
                assert(2 * window_size <= usize::MAX);
            }
        }
        return;
    }

    let ghost orig = audio@;

    let mut i: usize = 0;
    while i < window_size
        invariant
            i <= window_size,
            2 * window_size <= orig.len(),
            audio@.len() == orig.len(),
            forall|k: int|
                0 <= k < i ==> call_ensures(
                    scale,
                    (orig[k], k as usize, window_size),
                    #[trigger] audio@[k],
                ),
            forall|k: int| i <= k < orig.len() ==> audio@[k] == orig[k],
        decreases window_size - i,
    {
        let scaled = scale(audio[i], i, window_size);
        audio[i] = scaled;
        i += 1;
    }

    let ghost after_head = audio@;
    let mut i: usize = 0;
    while i < window_size
        invariant
            i <= window_size,
            2 * window_size <= orig.len(),
            audio@.len() == orig.len(),
            after_head.len() == orig.len(),
            forall|k: int| 0 <= k < orig.len() - i ==> audio@[k] == after_head[k],
            forall|k: int|
                0 <= k < i ==> call_ensures(
                    scale,
                    (orig[orig.len() - 1 - k], (window_size - k) as usize, window_size),
                    #[trigger] audio@[orig.len() - 1 - k],
                ),
            forall|k: int| window_size <= k < orig.len() - window_size ==> after_head[k]
                == orig[k],
        decreases window_size - i,
    {
        let idx = len - 1 - i;
        proof {
            assert(orig.len() - 1 - i >= window_size);
            assert(audio@[idx as int] == after_head[idx as int]);
            assert(after_head[idx as int] == orig[idx as int]);
        }
        let scaled = scale(audio[idx], window_size - i, window_size);
        audio[idx] = scaled;
        i += 1;
    }

    proof {
        assert forall|k: int| 0 <= k < window_size implies call_ensures(
            scale,
            (orig[k], k as usize, window_size),
            #[trigger] audio@[k],
        ) by {
            assert(audio@[k] == after_head[k]);
        }
    }
}

} // verus!
