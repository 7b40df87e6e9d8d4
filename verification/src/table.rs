//! Validation of an input sample table and selection of the slope window.
//!
//! The fitting pipeline estimates the linear segment's slope analytically
//! from the two neighbouring samples around the point where the table first
//! becomes positive, because the curve is closest to purely linear there.
//! The decisions involved — rejecting a degenerate table and picking the
//! sample index whose difference with its predecessor forms the slope
//! denominator — are made here, on two per-sample predicates the caller
//! evaluates on the raw values: whether a sample is strictly positive, and
//! whether it strictly exceeds its predecessor.

use vstd::prelude::*;

verus! {

/// Why a sample table cannot be fitted.
#[derive(Clone, Copy, Debug, PartialEq, Eq, Structural)]
pub enum TableError {
    /// Fewer than two samples: no pair of samples to take a slope from.
    TooShort,
    /// No sample is strictly positive: the curve never leaves zero.
    AllZero,
    /// The sample at the slope window does not strictly exceed its
    /// predecessor: the slope denominator would not be positive.
    NotIncreasing,
}

/// Index of the first set flag, or `flags.len()` if none is set.
pub open spec fn first_set(flags: Seq<bool>) -> int
    decreases flags.len(),
{
    if flags.len() == 0 {
        0
    } else if flags[0] {
        0
    } else {
        1 + first_set(flags.drop_first())
    }
}

/// The sample index whose difference with its predecessor estimates the
/// slope: the index of the first strictly positive sample, moved up to `1`
/// when the table is positive from its very first sample.
pub open spec fn crossing_index(positive: Seq<bool>) -> int {
    if first_set(positive) == 0 {
        1
    } else {
        first_set(positive)
    }
}

/// `first_set` stays within `0 ..= flags.len()`, no flag before it is set,
/// and the flag at it is set whenever it is in range.
pub proof fn lemma_first_set_properties(flags: Seq<bool>)
    ensures
        0 <= first_set(flags) <= flags.len(),
        forall|k: int| 0 <= k < first_set(flags) ==> !flags[k],
        first_set(flags) < flags.len() ==> flags[first_set(flags)],
    decreases flags.len(),
{
    if flags.len() > 0 && !flags[0] {
        lemma_first_set_properties(flags.drop_first());
        assert forall|k: int| 0 <= k < first_set(flags) implies !flags[k] by {
            if k > 0 {
                assert(!flags.drop_first()[k - 1]);
            }
        }
    }
}

/// Validates a sample table and picks the slope window.
///
/// `positive[k]` says sample `k` is strictly positive; `rising[k]` (for
/// `k >= 1`) says sample `k` strictly exceeds sample `k - 1`. Returns the
/// index `i` of the sample whose difference with its predecessor becomes
/// the slope denominator, or the reason the table is rejected. A table is
/// accepted exactly when it has at least two samples, some sample is
/// strictly positive, and the table strictly increases across the chosen
/// window.
pub fn locate_slope_window(positive: &[bool], rising: &[bool]) -> (r: Result<usize, TableError>)
    requires
        positive@.len() == rising@.len(),
    ensures
        positive@.len() < 2 ==> r == Err::<usize, TableError>(TableError::TooShort),
        positive@.len() >= 2 && first_set(positive@) == positive@.len() ==> r == Err::<
            usize,
            TableError,
        >(TableError::AllZero),
        positive@.len() >= 2 && first_set(positive@) < positive@.len() && !rising@[crossing_index(
            positive@,
        )] ==> r == Err::<usize, TableError>(TableError::NotIncreasing),
        positive@.len() >= 2 && first_set(positive@) < positive@.len() && rising@[crossing_index(
            positive@,
        )] ==> r == Ok::<usize, TableError>(crossing_index(positive@) as usize),
        r matches Ok(i) ==> 1 <= i < positive@.len(),
{
    proof {
        lemma_first_set_properties(positive@);
    }
    if positive.len() < 2 {
        return Err(TableError::TooShort);
    }
    let mut k: usize = 0;
    while k < positive.len() && !positive[k]
        invariant
            0 <= k <= positive@.len(),
            forall|j: int| 0 <= j < k ==> !positive@[j],
        decreases positive@.len() - k,
    {
        k = k + 1;
    }
    proof {
        lemma_first_set_is_first(positive@, k as int);
    }
    if k == positive.len() {
        return Err(TableError::AllZero);
    }
    let i: usize = if k == 0 {
        1
    } else {
        k
    };
    if rising[i] {
        Ok(i)
    } else {
        Err(TableError::NotIncreasing)
    }
}

/// The sample indices the fitting objective is evaluated at: every
/// `stride`-th index below `len`, starting at `0`.
///
/// Fitting against this strided subset instead of every sample bounds the
/// optimizer's per-trial cost. The returned indices are exactly the
/// multiples of `stride` below `len`: entry `k` is `k * stride`, every entry
/// is below `len`, and one more entry would reach `len` or beyond.
pub fn subsample_indices(len: usize, stride: usize) -> (r: Vec<usize>)
    requires
        stride >= 1,
    ensures
        forall|k: int| 0 <= k < r@.len() ==> r@[k] == k * stride,
        forall|k: int| 0 <= k < r@.len() ==> r@[k] < len,
        r@.len() * stride >= len,
        len > 0 ==> r@.len() >= 1,
        len == 0 ==> r@.len() == 0,
{
    let mut out: Vec<usize> = Vec::new();
    if len == 0 {
        return out;
    }
    let mut i: usize = 0;
    proof {
        assert(out@.len() * stride == 0) by (nonlinear_arith)
            requires
                out@.len() == 0,
        ;
    }
    loop
        invariant_except_break
            i < len,
            i == out@.len() * stride,
        invariant
            stride >= 1,
            0 < len,
            forall|k: int| 0 <= k < out@.len() ==> out@[k] == k * stride,
            forall|k: int| 0 <= k < out@.len() ==> out@[k] < len,
        ensures
            forall|k: int| 0 <= k < out@.len() ==> out@[k] == k * stride,
            forall|k: int| 0 <= k < out@.len() ==> out@[k] < len,
            out@.len() * stride >= len,
            out@.len() >= 1,
        decreases len - i,
    {
        out.push(i);
        proof {
            assert((out@.len()) * stride == (out@.len() - 1) * stride + stride) by (nonlinear_arith);
        }
        if len - i <= stride {
            break;
        }
        i = i + stride;
    }
    out
}

/// An index with its flag set and no set flag before it is `first_set`; an
/// index one past the end with no set flag before it is `first_set` of a
/// table with no set flag at all.
pub proof fn lemma_first_set_is_first(flags: Seq<bool>, k: int)
    requires
        0 <= k <= flags.len(),
        forall|j: int| 0 <= j < k ==> !flags[j],
        k < flags.len() ==> flags[k],
    ensures
        first_set(flags) == k,
    decreases flags.len(),
{
    if flags.len() > 0 && !flags[0] {
        assert forall|j: int| 0 <= j < k - 1 implies !flags.drop_first()[j] by {
            assert(!flags[j + 1]);
        }
        lemma_first_set_is_first(flags.drop_first(), k - 1);
    }
}

} // verus!
