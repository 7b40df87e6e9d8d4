//! Interval-narrowing decision of the unimodal optimizer.
//!
//! The optimizer minimizes a scalar objective that is assumed to have exactly
//! one minimum inside the current search interval. Each iteration samples the
//! objective at five evenly spaced points (the interval's ends, quarters and
//! midpoint), flags for each of the four adjacent pairs whether the objective
//! fails to decrease across it, and narrows the interval to the two sample
//! points straddling the first such pair. The driver that evaluates the
//! objective owns the interval arithmetic; the decision of which pair of
//! sample points becomes the next interval is made here.

use vstd::prelude::*;

verus! {

/// The pair of sample-point indices (out of the five points `0..=4`) that
/// bound the next search interval, given the four adjacent-pair flags:
/// `rising[i]` says the objective does not decrease from point `i` to point
/// `i + 1`.
///
/// The new interval straddles the first non-decreasing pair: flag `0` set
/// keeps the leftmost two points, a first set flag at `i > 0` keeps points
/// `i - 1` and `i + 1`, and when every pair decreases the right half is kept,
/// since the minimum then sits against the right end.
pub open spec fn spec_narrowed(rising: Seq<bool>) -> (int, int)
    recommends
        rising.len() == 4,
{
    if rising[0] {
        (0int, 1int)
    } else if rising[1] {
        (0int, 2int)
    } else if rising[2] {
        (1int, 3int)
    } else {
        (2int, 4int)
    }
}

/// Position of the least of the five sample points, read off the flags of a
/// unimodal scan: the first pair across which the objective stops
/// decreasing, or the last point when it decreases across the whole window.
pub open spec fn valley(rising: Seq<bool>) -> int
    recommends
        rising.len() == 4,
{
    if rising[0] {
        0
    } else if rising[1] {
        1
    } else if rising[2] {
        2
    } else if rising[3] {
        3
    } else {
        4
    }
}

/// Flags of a unimodal scan rise at most once: once the objective stops
/// decreasing it never starts decreasing again inside the window.
pub open spec fn rises_once(rising: Seq<bool>) -> bool {
    forall|i: int, j: int| 0 <= i <= j < rising.len() && rising[i] ==> rising[j]
}

/// One narrowing step of the optimizer: maps the four adjacent-pair flags to
/// the indices of the two sample points bounding the next interval.
///
/// The returned pair is strictly ordered and spans at most two of the four
/// quarters, so every step at least halves the interval.
pub fn narrow_bracket(rising: &[bool]) -> (b: (usize, usize))
    requires
        rising@.len() == 4,
    ensures
        (b.0 as int, b.1 as int) == spec_narrowed(rising@),
        b.0 < b.1 <= 4,
        b.1 - b.0 <= 2,
{
    if rising[0] {
        (0, 1)
    } else if rising[1] {
        (0, 2)
    } else if rising[2] {
        (1, 3)
    } else {
        (2, 4)
    }
}

/// Under the unimodality assumption the valley is where the least sampled
/// value sits: the objective decreases across every pair before the valley
/// and across none from the valley on.
pub proof fn lemma_valley_splits_window(rising: Seq<bool>)
    requires
        rising.len() == 4,
        rises_once(rising),
    ensures
        forall|i: int| 0 <= i < valley(rising) ==> !rising[i],
        forall|i: int| valley(rising) <= i < 4 ==> rising[i],
{
}

/// The narrowed interval always contains the valley: the sample point at
/// which a unimodal objective attains its least sampled value lies between
/// the two returned points, so narrowing never discards the minimum of a
/// unimodal scan.
pub proof fn lemma_narrowed_brackets_valley(rising: Seq<bool>)
    requires
        rising.len() == 4,
    ensures
        spec_narrowed(rising).0 <= valley(rising) <= spec_narrowed(rising).1,
{
}

} // verus!
