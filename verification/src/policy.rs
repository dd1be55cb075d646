//! Growth and shrink policy for the single allocation backing a
//! [`ParallelVec`](crate::container::ParallelVec).
//!
//! Growing to hold `needed` elements picks the next power of two of
//! `needed`, but never less than four slots. Shrinking toward a lower
//! bound never goes below the current length.

use vstd::prelude::*;

verus! {

/// The smallest power of two that is at least `n`, reached by doubling `p`.
/// `next_pow2_from(n, 1)` is the value of `n.next_power_of_two()`.
pub open spec fn next_pow2_from(n: nat, p: nat) -> nat
    decreases (if p >= n { 0nat } else { (n - p) as nat }),
{
    if p < 1 {
        1
    } else if p >= n {
        p
    } else {
        next_pow2_from(n, 2 * p)
    }
}

/// The capacity the growth policy picks when `needed` slots must fit:
/// the next power of two of `needed`, and at least four.
pub open spec fn spec_grow_capacity(needed: nat) -> nat {
    vstd::math::max(4, next_pow2_from(needed, 1) as int) as nat
}

/// The capacity after `reserve(additional)` on a container with the given
/// length and capacity: unchanged if the spare room already suffices,
/// otherwise grown by the policy.
pub open spec fn spec_reserve_capacity(len: nat, cap: nat, additional: nat) -> nat {
    if len + additional > cap {
        spec_grow_capacity(len + additional)
    } else {
        cap
    }
}

/// The capacity after `shrink_to(min_capacity)`: a no-op when the bound
/// exceeds the current capacity, else the larger of the length and the bound.
pub open spec fn spec_shrink_capacity(len: nat, cap: nat, min_capacity: nat) -> nat {
    if min_capacity > cap {
        cap
    } else {
        vstd::math::max(len as int, min_capacity as int) as nat
    }
}

/// Doubling the probe keeps the result of `next_pow2_from` the same.
proof fn lemma_next_pow2_step(n: nat, p: nat)
    requires
        1 <= p < n,
    ensures
        next_pow2_from(n, p) == next_pow2_from(n, 2 * p),
{
}

/// The chosen power of two is no smaller than the request.
pub proof fn lemma_next_pow2_ge(n: nat, p: nat)
    requires
        p >= 1,
    ensures
        next_pow2_from(n, p) >= n,
        next_pow2_from(n, p) >= p,
    decreases (if p >= n { 0nat } else { (n - p) as nat }),
{
    if p >= n {
    } else {
        lemma_next_pow2_ge(n, 2 * p);
    }
}

/// Computes `next_pow2_from(n, 1)`, the smallest power of two at least `n`.
///
/// The bound on `n` keeps the doubling within `usize`.
pub fn next_pow2(n: usize) -> (r: usize)
    requires
        n <= usize::MAX / 2 + 1,
    ensures
        r == next_pow2_from(n as nat, 1),
        r >= n,
        r >= 1,
{
    let mut p: usize = 1;
    while p < n
        invariant
            1 <= p,
            n <= usize::MAX / 2 + 1,
            next_pow2_from(n as nat, 1) == next_pow2_from(n as nat, p as nat),
        decreases (if p < n { n - p } else { 0int }),
    {
        proof {
            lemma_next_pow2_step(n as nat, p as nat);
        }
        p = p * 2;
    }
    proof {
        lemma_next_pow2_ge(n as nat, p as nat);
    }
    p
}

/// Computes the growth policy's capacity for `needed` slots.
pub fn grow_capacity(needed: usize) -> (r: usize)
    requires
        needed <= usize::MAX / 2 + 1,
    ensures
        r == spec_grow_capacity(needed as nat),
        r >= needed,
        r >= 4,
{
    let p = next_pow2(needed);
    if p < 4 {
        4
    } else {
        p
    }
}

} // verus!
