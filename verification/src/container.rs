//! The container core: a structure-of-arrays vector.
//!
//! A `ParallelVec` stores N parallel columns sharing one logical length and
//! one capacity. Its view is the sequence of logical elements, the i-th
//! value of every column gathered into one tuple; every operation states
//! exactly how it changes that sequence, the length and the capacity.

use crate::param::ParallelVecParam;
use crate::param::ParallelVecParamCopy;
use crate::policy::grow_capacity;
use crate::policy::spec_reserve_capacity;
use crate::policy::spec_shrink_capacity;
use vstd::prelude::*;

verus! {

/// A structure-of-arrays vector: N parallel columns, one logical length,
/// one capacity shared by every column.
pub struct ParallelVec<Param: ParallelVecParam> {
    len: usize,
    capacity: usize,
    storage: Param::Storage,
}

/// The reported condition when separately built columns cannot form a
/// container because they disagree in length.
#[derive(Debug, PartialEq, Eq, Structural)]
pub enum ParallelVecConversionError {
    UnevenLengths,
}

impl<Param: ParallelVecParam> View for ParallelVec<Param> {
    type V = Seq<Param>;

    closed spec fn view(&self) -> Seq<Param> {
        Param::view_of(&self.storage)
    }
}

impl<Param: ParallelVecParam> ParallelVec<Param> {
    /// The container's invariant: the columns agree on one length, the
    /// length field records it, and the length never exceeds the capacity.
    pub closed spec fn wf(&self) -> bool {
        &&& Param::wf(&self.storage)
        &&& Param::view_of(&self.storage).len() == self.len
        &&& self.len <= self.capacity
    }

    /// The number of element slots reserved per column.
    pub closed spec fn spec_capacity(&self) -> usize {
        self.capacity
    }

    /// The length never exceeds the capacity; every operation's
    /// postcondition keeps the invariant, so this bound holds after
    /// every call.
    pub proof fn lemma_len_le_capacity(&self)
        requires
            self.wf(),
        ensures
            self@.len() <= self.spec_capacity(),
    {
    }

    /// Constructs a new, empty `ParallelVec`.
    ///
    /// The vector will not allocate until elements are pushed onto it.
    pub fn new() -> (r: Self)
        ensures
            r.wf(),
            r@ == Seq::<Param>::empty(),
            r.spec_capacity() == 0,
    {
        ParallelVec { len: 0, capacity: 0, storage: Param::dangling() }
    }

    /// Constructs a new, empty `ParallelVec` with the specified capacity.
    ///
    /// The vector will be able to hold exactly `capacity` elements without
    /// reallocating. If `capacity` is 0, the vector will not allocate.
    pub fn with_capacity(capacity: usize) -> (r: Self)
        ensures
            r.wf(),
            r@ == Seq::<Param>::empty(),
            r.spec_capacity() == capacity,
    {
        if capacity == 0 {
            Self::new()
        } else {
            ParallelVec { len: 0, capacity, storage: Param::allocate(capacity) }
        }
    }

    /// Returns the number of elements in the vector, also referred to as
    /// its 'length'.
    pub fn len(&self) -> (r: usize)
        requires
            self.wf(),
        ensures
            r == self@.len(),
    {
        self.len
    }

    /// Returns `true` if the vector contains no elements.
    pub fn is_empty(&self) -> (r: bool)
        requires
            self.wf(),
        ensures
            r <==> self@.len() == 0,
    {
        self.len == 0
    }

    /// Returns the number of elements the vector can hold without
    /// reallocating.
    pub fn capacity(&self) -> (r: usize)
        requires
            self.wf(),
        ensures
            r == self.spec_capacity(),
    {
        self.capacity
    }

    /// Shortens the vector, keeping the first `len` elements and dropping
    /// the rest.
    ///
    /// If `len` is greater than the vector's current length, this has no
    /// effect. This method has no effect on the allocated capacity.
    pub fn truncate(&mut self, len: usize)
        requires
            old(self).wf(),
        ensures
            final(self).wf(),
            len < old(self)@.len() ==> final(self)@ == old(self)@.take(len as int),
            len >= old(self)@.len() ==> final(self)@ == old(self)@,
            final(self).spec_capacity() == old(self).spec_capacity(),
    {
        if self.len <= len {
            proof {
                assert(self@ =~= old(self)@);
            }
            return ;
        }
        Param::truncate_storage(&mut self.storage, len);
        self.len = len;
    }

    /// Clears the vector, removing all values.
    ///
    /// This method has no effect on the allocated capacity of the vector.
    pub fn clear(&mut self)
        requires
            old(self).wf(),
        ensures
            final(self).wf(),
            final(self)@ == Seq::<Param>::empty(),
            final(self).spec_capacity() == old(self).spec_capacity(),
    {
        self.truncate(0);
        proof {
            assert(self@ =~= Seq::<Param>::empty());
        }
    }

    /// Reserves room for at least `additional` more elements.
    ///
    /// If the spare room already suffices, nothing changes; otherwise the
    /// capacity grows to the next power of two of the needed length, and
    /// at least to four, moving every stored element to the fresh block.
    pub fn reserve(&mut self, additional: usize)
        requires
            old(self).wf(),
            old(self)@.len() + additional <= usize::MAX / 2 + 1,
        ensures
            final(self).wf(),
            final(self)@ == old(self)@,
            final(self).spec_capacity() == spec_reserve_capacity(
                old(self)@.len(),
                old(self).spec_capacity() as nat,
                additional as nat,
            ),
            final(self).spec_capacity() >= old(self)@.len() + additional,
    {
        let new_len = self.len + additional;
        if new_len > self.capacity {
            let capacity = grow_capacity(new_len);
            Param::grow_to(&mut self.storage, capacity);
            self.capacity = capacity;
        }
    }

    /// Appends an element to the back of the vector, growing the capacity
    /// by the reserve policy when no spare slot is left.
    pub fn push(&mut self, value: Param)
        requires
            old(self).wf(),
            old(self)@.len() + 1 <= usize::MAX / 2 + 1,
        ensures
            final(self).wf(),
            final(self)@ == old(self)@.push(value),
            final(self).spec_capacity() == spec_reserve_capacity(
                old(self)@.len(),
                old(self).spec_capacity() as nat,
                1,
            ),
    {
        self.reserve(1);
        Param::write_end(&mut self.storage, value);
        self.len = self.len + 1;
    }

    /// Removes the last element and returns it, or reports absence if the
    /// vector is empty. The capacity is unchanged.
    pub fn pop(&mut self) -> (r: Option<Param>)
        requires
            old(self).wf(),
        ensures
            final(self).wf(),
            old(self)@.len() == 0 ==> r is None && final(self)@ == old(self)@,
            old(self)@.len() > 0 ==> r == Some(old(self)@.last()) && final(self)@ == old(
                self,
            )@.drop_last(),
            final(self).spec_capacity() == old(self).spec_capacity(),
    {
        if self.len == 0 {
            None
        } else {
            let value = Param::read_end(&mut self.storage);
            self.len = self.len - 1;
            Some(value)
        }
    }

    /// Swaps the elements at indices `a` and `b`, across every column at
    /// once. Both indices must be in bounds.
    pub fn swap(&mut self, a: usize, b: usize)
        requires
            old(self).wf(),
            a < old(self)@.len(),
            b < old(self)@.len(),
        ensures
            final(self).wf(),
            final(self)@ == old(self)@.update(a as int, old(self)@[b as int]).update(
                b as int,
                old(self)@[a as int],
            ),
            final(self).spec_capacity() == old(self).spec_capacity(),
    {
        self.swap_unchecked(a, b);
    }

    /// Swaps the elements at indices `a` and `b` without a runtime bounds
    /// test: the precondition already puts both indices in bounds.
    pub fn swap_unchecked(&mut self, a: usize, b: usize)
        requires
            old(self).wf(),
            a < old(self)@.len(),
            b < old(self)@.len(),
        ensures
            final(self).wf(),
            final(self)@ == old(self)@.update(a as int, old(self)@[b as int]).update(
                b as int,
                old(self)@[a as int],
            ),
            final(self).spec_capacity() == old(self).spec_capacity(),
    {
        Param::swap_at(&mut self.storage, a, b);
    }

    /// Removes the element at `index` and returns it; the element that was
    /// last takes its place, so the removal needs no shifting.
    pub fn swap_remove(&mut self, index: usize) -> (r: Param)
        requires
            old(self).wf(),
            index < old(self)@.len(),
        ensures
            final(self).wf(),
            r == old(self)@[index as int],
            final(self)@ == old(self)@.update(index as int, old(self)@.last()).drop_last(),
            final(self).spec_capacity() == old(self).spec_capacity(),
    {
        let last = self.len - 1;
        Param::swap_at(&mut self.storage, index, last);
        let value = Param::read_end(&mut self.storage);
        self.len = last;
        proof {
            assert(self@ =~= old(self)@.update(index as int, old(self)@.last()).drop_last());
        }
        value
    }

    /// Moves all the elements of `other` into `self`, leaving `other`
    /// empty. The moved values are not destroyed, and `other` keeps its
    /// capacity.
    pub fn append(&mut self, other: &mut ParallelVec<Param>)
        requires
            old(self).wf(),
            old(other).wf(),
            old(self)@.len() + old(other)@.len() <= usize::MAX / 2 + 1,
        ensures
            final(self).wf(),
            final(other).wf(),
            final(self)@ == old(self)@ + old(other)@,
            final(other)@ == Seq::<Param>::empty(),
            final(other).spec_capacity() == old(other).spec_capacity(),
            final(self).spec_capacity() == spec_reserve_capacity(
                old(self)@.len(),
                old(self).spec_capacity() as nat,
                old(other)@.len(),
            ),
    {
        self.reserve(other.len);
        Param::transfer_append(&mut self.storage, &mut other.storage);
        self.len = self.len + other.len;
        other.len = 0;
    }

    /// Shrinks the capacity of the vector with a lower bound.
    ///
    /// The capacity will remain at least as large as both the length and
    /// the supplied value. If the current capacity is less than the lower
    /// limit, this is a no-op. The columns' buffers may keep more room
    /// than the shrunk capacity accounts for, as an allocator may.
    pub fn shrink_to(&mut self, min_capacity: usize)
        requires
            old(self).wf(),
        ensures
            final(self).wf(),
            final(self)@ == old(self)@,
            final(self).spec_capacity() == spec_shrink_capacity(
                old(self)@.len(),
                old(self).spec_capacity() as nat,
                min_capacity as nat,
            ),
    {
        if min_capacity > self.capacity {
            return ;
        }
        let capacity = if self.len > min_capacity {
            self.len
        } else {
            min_capacity
        };
        self.capacity = capacity;
    }

    /// Shrinks the capacity of the vector as much as possible: down to
    /// exactly the length. Calling it again changes nothing.
    pub fn shrink_to_fit(&mut self)
        requires
            old(self).wf(),
        ensures
            final(self).wf(),
            final(self)@ == old(self)@,
            final(self).spec_capacity() == old(self)@.len(),
    {
        let len = self.len;
        self.shrink_to(len);
    }

    /// Pushes every value of `values`, in order, growing once up front.
    pub fn extend(&mut self, values: Vec<Param>)
        requires
            old(self).wf(),
            old(self)@.len() + values@.len() <= usize::MAX / 2 + 1,
        ensures
            final(self).wf(),
            final(self)@ == old(self)@ + values@,
    {
        let ghost all = values@;
        let count = values.len();
        self.reserve(count);
        let mut rest = values;
        let mut i: usize = 0;
        while i < count
            invariant
                self.wf(),
                count == all.len(),
                i <= count,
                rest@ =~= all.skip(i as int),
                self@ =~= old(self)@ + all.take(i as int),
                old(self)@.len() + all.len() <= usize::MAX / 2 + 1,
            decreases count - i,
        {
            let v = rest.remove(0);
            self.push(v);
            i = i + 1;
            proof {
                assert(self@ =~= old(self)@ + all.take(i as int));
                assert(rest@ =~= all.skip(i as int));
            }
        }
        proof {
            assert(all.take(count as int) =~= all);
            assert(self@ =~= old(self)@ + all);
        }
    }

    /// Builds a container from separately owned columns, which must all
    /// report one common length. On success the columns are adopted as they
    /// stand, with the capacity set to that length; when the lengths are
    /// uneven the columns are handed back intact beside the error.
    pub fn try_from_vecs(vecs: Param::Storage) -> (r: Result<
        Self,
        (Param::Storage, ParallelVecConversionError),
    >)
        ensures
            Param::wf(&vecs) ==> (r matches Ok(v) && v.wf() && v@ == Param::view_of(&vecs)
                && v.spec_capacity() == Param::view_of(&vecs).len()),
            !Param::wf(&vecs) ==> (r matches Err(e) && e.0 == vecs && e.1
                == ParallelVecConversionError::UnevenLengths),
    {
        match Param::common_length(&vecs) {
            Some(len) => Ok(ParallelVec { len, capacity: len, storage: vecs }),
            None => Err((vecs, ParallelVecConversionError::UnevenLengths)),
        }
    }

    /// Writes `value` at `index` and hands the previous element back: the
    /// checked single-element write, across every column at once. The
    /// index must be in bounds; length and capacity are unchanged.
    pub fn set(&mut self, index: usize, value: Param) -> (r: Param)
        requires
            old(self).wf(),
            index < old(self)@.len(),
        ensures
            final(self).wf(),
            r == old(self)@[index as int],
            final(self)@ == old(self)@.update(index as int, value),
            final(self).spec_capacity() == old(self).spec_capacity(),
    {
        Param::replace_at(&mut self.storage, index, value)
    }

    /// Hands out the column bundle for column-major reading: one dense
    /// array per column, each holding exactly the stored elements.
    pub fn as_slices(&self) -> (r: &Param::Storage)
        requires
            self.wf(),
        ensures
            Param::wf(r),
            Param::view_of(r) == self@,
            Param::view_of(r).len() == self@.len(),
    {
        &self.storage
    }
}

impl<Param: ParallelVecParamCopy> ParallelVec<Param> {
    /// Returns the element at `index`, or reports absence when the index is
    /// at or past the length. Total: no input fails.
    pub fn get(&self, index: usize) -> (r: Option<Param>)
        requires
            self.wf(),
        ensures
            index < self@.len() ==> r == Some(self@[index as int]),
            index >= self@.len() ==> r is None,
    {
        if index < self.len {
            Some(Param::read_at(&self.storage, index))
        } else {
            None
        }
    }

    /// Returns the element at `index` without a runtime bounds test: the
    /// precondition already puts the index in bounds.
    pub fn get_unchecked(&self, index: usize) -> (r: Param)
        requires
            self.wf(),
            index < self@.len(),
        ensures
            r == self@[index as int],
    {
        Param::read_at(&self.storage, index)
    }
}

} // verus!
