//! Progress arithmetic: integer fractions for the monotone progress signal.
//!
//! Progress is measured in parts per million of completion, so the
//! aggregation stays in plain integers.  The boundary that talks to a
//! floating-point callback converts a fraction to parts per million and
//! back; the remapping and aggregation arithmetic is verified here.

use vstd::prelude::*;

verus! {

/// One whole unit of progress, in parts per million.
pub const PROGRESS_SCALE: u64 = 1000000;

/// Converts the `(elapsed, total)` shape of a base capability's progress
/// report into a completion fraction in parts per million, clamped to one
/// whole unit and zero when the total is unknown.
pub fn progress_fraction(elapsed: u64, total: u64) -> (r: u64)
    ensures
        total == 0 ==> r == 0,
        total > 0 && elapsed >= total ==> r == PROGRESS_SCALE,
        total > 0 && elapsed < total ==> r == (elapsed * PROGRESS_SCALE) as int / total as int,
        r <= PROGRESS_SCALE,
{
    if total == 0 {
        0
    } else if elapsed >= total {
        PROGRESS_SCALE
    } else {
        proof {
            assert((elapsed as int) * (PROGRESS_SCALE as int) < u128::MAX as int)
                by (nonlinear_arith)
                requires
                    elapsed <= u64::MAX,
            ;
        }
        let wide = (elapsed as u128) * (PROGRESS_SCALE as u128);
        let q = wide / (total as u128);
        proof {
            assert((elapsed * PROGRESS_SCALE) as int <= (total * PROGRESS_SCALE) as int)
                by (nonlinear_arith)
                requires
                    elapsed <= total,
            ;
            vstd::arithmetic::div_mod::lemma_div_is_ordered(
                (elapsed * PROGRESS_SCALE) as int,
                (total * PROGRESS_SCALE) as int,
                total as int,
            );
            vstd::arithmetic::div_mod::lemma_div_by_multiple(
                PROGRESS_SCALE as int,
                total as int,
            );
        }
        q as u64
    }
}

/// Aggregates one segment's sub-progress into overall request progress:
/// segment `segment_index` of `num_segments` at sub-progress `sub_progress`
/// (in parts per million) sits at `(segment_index + sub_progress / scale) /
/// num_segments` of the whole, never past one whole unit.
pub fn aggregate_progress(segment_index: usize, num_segments: usize, sub_progress: u64) -> (r:
    u64)
    requires
        1 <= num_segments <= 1000000000,
        segment_index < num_segments,
        sub_progress <= PROGRESS_SCALE,
    ensures
        r == (segment_index * PROGRESS_SCALE + sub_progress) as int / num_segments as int,
        r <= PROGRESS_SCALE,
{
    proof {
        assert(segment_index * PROGRESS_SCALE + sub_progress <= num_segments * PROGRESS_SCALE)
            by (nonlinear_arith)
            requires
                segment_index < num_segments,
                sub_progress <= PROGRESS_SCALE,
        ;
        assert(num_segments * PROGRESS_SCALE <= 1000000000u64 * PROGRESS_SCALE)
            by (nonlinear_arith)
            requires
                num_segments <= 1000000000,
        ;
    }
    let numerator = (segment_index as u64) * PROGRESS_SCALE + sub_progress;
    let r = numerator / (num_segments as u64);
    proof {
        vstd::arithmetic::div_mod::lemma_div_is_ordered(
            numerator as int,
            (num_segments * PROGRESS_SCALE) as int,
            num_segments as int,
        );
        vstd::arithmetic::div_mod::lemma_div_by_multiple(
            PROGRESS_SCALE as int,
            num_segments as int,
        );
    }
    r
}

/// The progress signal is monotone: a later segment, or the same segment at
/// no less sub-progress, never reports a smaller aggregated fraction.
pub proof fn lemma_progress_monotone(i1: int, s1: int, i2: int, s2: int, n: int)
    requires
        n >= 1,
        0 <= i1,
        0 <= s1 <= PROGRESS_SCALE,
        0 <= s2 <= PROGRESS_SCALE,
        i1 < i2 || (i1 == i2 && s1 <= s2),
    ensures
        (i1 * PROGRESS_SCALE + s1) / n <= (i2 * PROGRESS_SCALE + s2) / n,
{
    if i1 < i2 {
        assert((i1 + 1) * PROGRESS_SCALE <= i2 * PROGRESS_SCALE) by (nonlinear_arith)
            requires
                i1 + 1 <= i2,
        ;
        assert((i1 + 1) * PROGRESS_SCALE == i1 * PROGRESS_SCALE + PROGRESS_SCALE)
            by (nonlinear_arith);
        assert(i1 * PROGRESS_SCALE + s1 <= i2 * PROGRESS_SCALE + s2);
    }
    vstd::arithmetic::div_mod::lemma_div_is_ordered(
        i1 * PROGRESS_SCALE + s1,
        i2 * PROGRESS_SCALE + s2,
        n,
    );
}

} // verus!
