//! Laws that relate several container operations, stated over the sequence
//! views and policy functions their contracts use.
//!
//! Single-call guarantees live in each operation's `ensures`; what is
//! stated here is how the operations compose: a push/pop round trip, the
//! effect of a swapping removal on every index, and the idempotence of
//! shrinking to fit.

use crate::policy::spec_shrink_capacity;
use vstd::prelude::*;

verus! {

/// The values that `n` successive pops hand back from a container whose
/// view is `s`: the last `n` elements, newest first.
pub open spec fn pop_results<T>(s: Seq<T>, n: nat) -> Seq<T>
    recommends
        n <= s.len(),
{
    s.subrange(s.len() - n, s.len() as int).reverse()
}

/// Pushing `values` in order onto a container whose view is `s`, then
/// popping as many times, hands the pushed values back in reverse order
/// and returns the container to the view `s` it started with: each push
/// makes the view `view.push(value)`, each pop takes `view.last()` and
/// leaves `view.drop_last()`.
pub proof fn lemma_push_pop_round_trip<T>(s: Seq<T>, values: Seq<T>)
    ensures
        pop_results(s + values, values.len()) == values.reverse(),
        (s + values).subrange(0, s.len() as int) == s,
{
    assert((s + values).subrange(s.len() as int, (s + values).len() as int) =~= values);
    assert((s + values).subrange(0, s.len() as int) =~= s);
}

/// What a swapping removal at `i` leaves: one element fewer, the indices
/// before `i` untouched, the former last element standing at `i` when `i`
/// was not the last index, and every index between untouched.
pub proof fn lemma_swap_remove_effect<T>(s: Seq<T>, i: int)
    requires
        0 <= i < s.len(),
    ensures
        s.update(i, s.last()).drop_last().len() == s.len() - 1,
        forall|j: int| 0 <= j < i ==> s.update(i, s.last()).drop_last()[j] == s[j],
        i < s.len() - 1 ==> s.update(i, s.last()).drop_last()[i] == s[s.len() - 1],
        forall|j: int| i < j < s.len() - 1 ==> s.update(i, s.last()).drop_last()[j] == s[j],
{
}

/// Shrinking to fit brings the capacity down to exactly the length, and a
/// second shrink to fit changes nothing.
pub proof fn lemma_shrink_to_fit_idempotent(len: nat, cap: nat)
    requires
        len <= cap,
    ensures
        spec_shrink_capacity(len, cap, len) == len,
        spec_shrink_capacity(len, spec_shrink_capacity(len, cap, len), len)
            == spec_shrink_capacity(len, cap, len),
{
}

} // verus!
