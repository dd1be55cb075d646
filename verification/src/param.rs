//! The column capability: the operation set a
//! [`ParallelVec`](crate::container::ParallelVec) needs over "N parallel
//! columns treated as one unit".
//!
//! Every arity implements the same interface. A bundle of columns is well
//! formed when all columns hold the same number of values; its view is the
//! sequence of logical elements, the i-th value of every column gathered
//! into one tuple. The container core manipulates column bundles only
//! through these operations, so its proofs hold for every arity alike.

use crate::layout::descs_valid;
use crate::layout::spec_layout_align;
use crate::layout::spec_layout_size;
use crate::layout::spec_offset;
use crate::layout::ColumnDesc;
use crate::layout::LayoutError;
use crate::layout::MemoryLayout;
use crate::layout::MAX_ALLOC_BYTES;
use vstd::prelude::*;

verus! {

/// The operation set over one bundle of parallel columns.
///
/// `Self` is the logical element: one value per column, as a tuple.
/// This trait should generally not be implemented by users; the tuple
/// implementations cover containers of two and three columns.
pub trait ParallelVecParam: Sized {
    /// One growable array per column, all kept at a common length.
    type Storage;

    /// The columns agree on a common length.
    spec fn wf(storage: &Self::Storage) -> bool;

    /// The logical elements: the i-th value of every column, as one tuple.
    spec fn view_of(storage: &Self::Storage) -> Seq<Self>;

    /// An empty bundle that owns no allocation.
    fn dangling() -> (s: Self::Storage)
        ensures
            Self::wf(&s),
            Self::view_of(&s) == Seq::<Self>::empty(),
    ;

    /// An empty bundle with room for `capacity` elements in every column.
    fn allocate(capacity: usize) -> (s: Self::Storage)
        ensures
            Self::wf(&s),
            Self::view_of(&s) == Seq::<Self>::empty(),
    ;

    /// Grows every column's buffer so `capacity` elements fit; the stored
    /// values are untouched.
    fn grow_to(storage: &mut Self::Storage, capacity: usize)
        requires
            Self::wf(old(storage)),
        ensures
            Self::wf(final(storage)),
            Self::view_of(final(storage)) == Self::view_of(old(storage)),
    ;

    /// Writes one logical element after the last one, in every column at once.
    fn write_end(storage: &mut Self::Storage, value: Self)
        requires
            Self::wf(old(storage)),
            Self::view_of(old(storage)).len() < usize::MAX,
        ensures
            Self::wf(final(storage)),
            Self::view_of(final(storage)) == Self::view_of(old(storage)).push(value),
    ;

    /// Moves the last logical element out, shortening every column by one.
    fn read_end(storage: &mut Self::Storage) -> (v: Self)
        requires
            Self::wf(old(storage)),
            Self::view_of(old(storage)).len() > 0,
        ensures
            Self::wf(final(storage)),
            v == Self::view_of(old(storage)).last(),
            Self::view_of(final(storage)) == Self::view_of(old(storage)).drop_last(),
    ;

    /// Exchanges the logical elements at `a` and `b` in every column.
    fn swap_at(storage: &mut Self::Storage, a: usize, b: usize)
        requires
            Self::wf(old(storage)),
            a < Self::view_of(old(storage)).len(),
            b < Self::view_of(old(storage)).len(),
        ensures
            Self::wf(final(storage)),
            Self::view_of(final(storage)) == Self::view_of(old(storage)).update(
                a as int,
                Self::view_of(old(storage))[b as int],
            ).update(b as int, Self::view_of(old(storage))[a as int]),
    ;

    /// Keeps the first `n` logical elements and destroys the rest,
    /// in every column at once.
    fn truncate_storage(storage: &mut Self::Storage, n: usize)
        requires
            Self::wf(old(storage)),
            n <= Self::view_of(old(storage)).len(),
        ensures
            Self::wf(final(storage)),
            Self::view_of(final(storage)) == Self::view_of(old(storage)).take(n as int),
    ;

    /// Moves every logical element of `src` to the end of `dst`, column by
    /// column, leaving `src` empty without destroying the moved values.
    fn transfer_append(dst: &mut Self::Storage, src: &mut Self::Storage)
        requires
            Self::wf(old(dst)),
            Self::wf(old(src)),
            Self::view_of(old(dst)).len() + Self::view_of(old(src)).len() <= usize::MAX,
        ensures
            Self::wf(final(dst)),
            Self::wf(final(src)),
            Self::view_of(final(dst)) == Self::view_of(old(dst)) + Self::view_of(old(src)),
            Self::view_of(final(src)) == Seq::<Self>::empty(),
    ;

    /// Replaces the logical element at `index` with `value`, in every
    /// column at once, handing the previous element back.
    fn replace_at(storage: &mut Self::Storage, index: usize, value: Self) -> (v: Self)
        requires
            Self::wf(old(storage)),
            index < Self::view_of(old(storage)).len(),
        ensures
            Self::wf(final(storage)),
            v == Self::view_of(old(storage))[index as int],
            Self::view_of(final(storage)) == Self::view_of(old(storage)).update(
                index as int,
                value,
            ),
    ;

    /// Reports the common length of separately built columns: `Some` exactly
    /// when all columns agree, which makes the bundle well formed.
    fn common_length(storage: &Self::Storage) -> (r: Option<usize>)
        ensures
            r is Some <==> Self::wf(storage),
            Self::wf(storage) ==> (r matches Some(l) && l == Self::view_of(storage).len()),
    ;

    /// The size and alignment of each column's element type, in declared
    /// order.
    spec fn columns() -> Seq<ColumnDesc>;

    /// Produces the descriptors of the columns' element types, each with
    /// the nonzero alignment every real type carries.
    fn column_descs() -> (r: Vec<ColumnDesc>)
        ensures
            r@ == Self::columns(),
            descs_valid(r@),
    ;

    /// Computes the single memory block that holds `capacity` elements of
    /// every column: its byte size, its alignment, and the byte offset of
    /// each column's array, in declared order. A capacity whose byte size
    /// would pass the allocator's limit is the overflow error.
    fn layout_for_capacity(capacity: usize) -> (r: Result<MemoryLayout, LayoutError>)
        ensures
            r matches Ok(l) ==> {
                &&& l.size == spec_layout_size(Self::columns(), capacity as nat)
                &&& l.align == spec_layout_align(Self::columns())
                &&& l.offsets@.len() == Self::columns().len()
                &&& forall|i: int|
                    0 <= i < Self::columns().len() ==> l.offsets@[i] == spec_offset(
                        Self::columns(),
                        capacity as nat,
                        i,
                    )
            },
            r is Err <==> spec_layout_size(Self::columns(), capacity as nat) > MAX_ALLOC_BYTES,
    {
        crate::layout::layout_for_capacity(&Self::column_descs(), capacity)
    }
}

/// Replaces the value at `i` within one column, returning the old value.
fn column_replace<T>(v: &mut Vec<T>, i: usize, value: T) -> (r: T)
    requires
        i < old(v)@.len(),
    ensures
        r == old(v)@[i as int],
        final(v)@ == old(v)@.update(i as int, value),
{
    let r = v.remove(i);
    v.insert(i, value);
    proof {
        assert(v@ =~= old(v)@.update(i as int, value));
    }
    r
}

/// Exchanges the values at `a` and `b` within one column.
fn column_swap<T>(v: &mut Vec<T>, a: usize, b: usize)
    requires
        a < old(v)@.len(),
        b < old(v)@.len(),
    ensures
        final(v)@ == old(v)@.update(a as int, old(v)@[b as int]).update(b as int, old(v)@[a as int]),
{
    if a == b {
        proof {
            assert(v@ =~= old(v)@.update(a as int, old(v)@[b as int]).update(
                b as int,
                old(v)@[a as int],
            ));
        }
        return ;
    }
    let lo: usize = if a < b { a } else { b };
    let hi: usize = if a < b { b } else { a };
    let hi_val = v.remove(hi);
    let lo_val = v.remove(lo);
    v.insert(lo, hi_val);
    v.insert(hi, lo_val);
    proof {
        assert(v@ =~= old(v)@.update(a as int, old(v)@[b as int]).update(
            b as int,
            old(v)@[a as int],
        ));
    }
}

impl<A, B> ParallelVecParam for (A, B) {
    type Storage = (Vec<A>, Vec<B>);

    open spec fn wf(storage: &Self::Storage) -> bool {
        storage.0@.len() == storage.1@.len()
    }

    open spec fn view_of(storage: &Self::Storage) -> Seq<Self> {
        Seq::new(storage.0@.len(), |i: int| (storage.0@[i], storage.1@[i]))
    }

    fn dangling() -> (s: Self::Storage) {
        let s = (Vec::new(), Vec::new());
        proof {
            assert(Self::view_of(&s) =~= Seq::<Self>::empty());
        }
        s
    }

    fn allocate(capacity: usize) -> (s: Self::Storage) {
        let s = (Vec::with_capacity(capacity), Vec::with_capacity(capacity));
        proof {
            assert(Self::view_of(&s) =~= Seq::<Self>::empty());
        }
        s
    }

    fn grow_to(storage: &mut Self::Storage, capacity: usize) {
        let len: usize = storage.0.len();
        if capacity > len {
            storage.0.reserve(capacity - len);
            storage.1.reserve(capacity - len);
        }
        proof {
            assert(Self::view_of(storage) =~= Self::view_of(old(storage)));
        }
    }

    fn write_end(storage: &mut Self::Storage, value: Self) {
        let (a, b) = value;
        storage.0.push(a);
        storage.1.push(b);
        proof {
            assert(Self::view_of(storage) =~= Self::view_of(old(storage)).push(value));
        }
    }

    fn read_end(storage: &mut Self::Storage) -> (v: Self) {
        let a = storage.0.pop().unwrap();
        let b = storage.1.pop().unwrap();
        proof {
            assert(Self::view_of(storage) =~= Self::view_of(old(storage)).drop_last());
        }
        (a, b)
    }

    fn swap_at(storage: &mut Self::Storage, a: usize, b: usize) {
        column_swap(&mut storage.0, a, b);
        column_swap(&mut storage.1, a, b);
        proof {
            assert(Self::view_of(storage) =~= Self::view_of(old(storage)).update(
                a as int,
                Self::view_of(old(storage))[b as int],
            ).update(b as int, Self::view_of(old(storage))[a as int]));
        }
    }

    fn truncate_storage(storage: &mut Self::Storage, n: usize) {
        storage.0.truncate(n);
        storage.1.truncate(n);
        proof {
            assert(Self::view_of(storage) =~= Self::view_of(old(storage)).take(n as int));
        }
    }

    fn transfer_append(dst: &mut Self::Storage, src: &mut Self::Storage) {
        dst.0.append(&mut src.0);
        dst.1.append(&mut src.1);
        proof {
            assert(Self::view_of(dst) =~= Self::view_of(old(dst)) + Self::view_of(old(src)));
            assert(Self::view_of(src) =~= Seq::<Self>::empty());
        }
    }

    fn replace_at(storage: &mut Self::Storage, index: usize, value: Self) -> (v: Self) {
        let (a, b) = value;
        let old_a = column_replace(&mut storage.0, index, a);
        let old_b = column_replace(&mut storage.1, index, b);
        proof {
            assert(Self::view_of(storage) =~= Self::view_of(old(storage)).update(
                index as int,
                value,
            ));
        }
        (old_a, old_b)
    }

    fn common_length(storage: &Self::Storage) -> (r: Option<usize>) {
        if storage.0.len() == storage.1.len() {
            Some(storage.0.len())
        } else {
            None
        }
    }

    open spec fn columns() -> Seq<ColumnDesc> {
        seq![
            ColumnDesc {
                size: vstd::layout::size_of::<A>() as usize,
                align: vstd::layout::align_of::<A>() as usize,
            },
            ColumnDesc {
                size: vstd::layout::size_of::<B>() as usize,
                align: vstd::layout::align_of::<B>() as usize,
            },
        ]
    }

    fn column_descs() -> (r: Vec<ColumnDesc>) {
        vstd::layout::layout_for_type_is_valid::<A>();
        vstd::layout::layout_for_type_is_valid::<B>();
        let mut r: Vec<ColumnDesc> = Vec::new();
        r.push(ColumnDesc { size: core::mem::size_of::<A>(), align: core::mem::align_of::<A>() });
        r.push(ColumnDesc { size: core::mem::size_of::<B>(), align: core::mem::align_of::<B>() });
        proof {
            assert(r@ =~= Self::columns());
        }
        r
    }
}

impl<A, B, C> ParallelVecParam for (A, B, C) {
    type Storage = (Vec<A>, Vec<B>, Vec<C>);

    open spec fn wf(storage: &Self::Storage) -> bool {
        storage.0@.len() == storage.1@.len() && storage.0@.len() == storage.2@.len()
    }

    open spec fn view_of(storage: &Self::Storage) -> Seq<Self> {
        Seq::new(storage.0@.len(), |i: int| (storage.0@[i], storage.1@[i], storage.2@[i]))
    }

    fn dangling() -> (s: Self::Storage) {
        let s = (Vec::new(), Vec::new(), Vec::new());
        proof {
            assert(Self::view_of(&s) =~= Seq::<Self>::empty());
        }
        s
    }

    fn allocate(capacity: usize) -> (s: Self::Storage) {
        let s = (
            Vec::with_capacity(capacity),
            Vec::with_capacity(capacity),
            Vec::with_capacity(capacity),
        );
        proof {
            assert(Self::view_of(&s) =~= Seq::<Self>::empty());
        }
        s
    }

    fn grow_to(storage: &mut Self::Storage, capacity: usize) {
        let len: usize = storage.0.len();
        if capacity > len {
            storage.0.reserve(capacity - len);
            storage.1.reserve(capacity - len);
            storage.2.reserve(capacity - len);
        }
        proof {
            assert(Self::view_of(storage) =~= Self::view_of(old(storage)));
        }
    }

    fn write_end(storage: &mut Self::Storage, value: Self) {
        let (a, b, c) = value;
        storage.0.push(a);
        storage.1.push(b);
        storage.2.push(c);
        proof {
            assert(Self::view_of(storage) =~= Self::view_of(old(storage)).push(value));
        }
    }

    fn read_end(storage: &mut Self::Storage) -> (v: Self) {
        let a = storage.0.pop().unwrap();
        let b = storage.1.pop().unwrap();
        let c = storage.2.pop().unwrap();
        proof {
            assert(Self::view_of(storage) =~= Self::view_of(old(storage)).drop_last());
        }
        (a, b, c)
    }

    fn swap_at(storage: &mut Self::Storage, a: usize, b: usize) {
        column_swap(&mut storage.0, a, b);
        column_swap(&mut storage.1, a, b);
        column_swap(&mut storage.2, a, b);
        proof {
            assert(Self::view_of(storage) =~= Self::view_of(old(storage)).update(
                a as int,
                Self::view_of(old(storage))[b as int],
            ).update(b as int, Self::view_of(old(storage))[a as int]));
        }
    }

    fn truncate_storage(storage: &mut Self::Storage, n: usize) {
        storage.0.truncate(n);
        storage.1.truncate(n);
        storage.2.truncate(n);
        proof {
            assert(Self::view_of(storage) =~= Self::view_of(old(storage)).take(n as int));
        }
    }

    fn transfer_append(dst: &mut Self::Storage, src: &mut Self::Storage) {
        dst.0.append(&mut src.0);
        dst.1.append(&mut src.1);
        dst.2.append(&mut src.2);
        proof {
            assert(Self::view_of(dst) =~= Self::view_of(old(dst)) + Self::view_of(old(src)));
            assert(Self::view_of(src) =~= Seq::<Self>::empty());
        }
    }

    fn replace_at(storage: &mut Self::Storage, index: usize, value: Self) -> (v: Self) {
        let (a, b, c) = value;
        let old_a = column_replace(&mut storage.0, index, a);
        let old_b = column_replace(&mut storage.1, index, b);
        let old_c = column_replace(&mut storage.2, index, c);
        proof {
            assert(Self::view_of(storage) =~= Self::view_of(old(storage)).update(
                index as int,
                value,
            ));
        }
        (old_a, old_b, old_c)
    }

    fn common_length(storage: &Self::Storage) -> (r: Option<usize>) {
        if storage.0.len() == storage.1.len() && storage.0.len() == storage.2.len() {
            Some(storage.0.len())
        } else {
            None
        }
    }

    open spec fn columns() -> Seq<ColumnDesc> {
        seq![
            ColumnDesc {
                size: vstd::layout::size_of::<A>() as usize,
                align: vstd::layout::align_of::<A>() as usize,
            },
            ColumnDesc {
                size: vstd::layout::size_of::<B>() as usize,
                align: vstd::layout::align_of::<B>() as usize,
            },
            ColumnDesc {
                size: vstd::layout::size_of::<C>() as usize,
                align: vstd::layout::align_of::<C>() as usize,
            },
        ]
    }

    fn column_descs() -> (r: Vec<ColumnDesc>) {
        vstd::layout::layout_for_type_is_valid::<A>();
        vstd::layout::layout_for_type_is_valid::<B>();
        vstd::layout::layout_for_type_is_valid::<C>();
        let mut r: Vec<ColumnDesc> = Vec::new();
        r.push(ColumnDesc { size: core::mem::size_of::<A>(), align: core::mem::align_of::<A>() });
        r.push(ColumnDesc { size: core::mem::size_of::<B>(), align: core::mem::align_of::<B>() });
        r.push(ColumnDesc { size: core::mem::size_of::<C>(), align: core::mem::align_of::<C>() });
        proof {
            assert(r@ =~= Self::columns());
        }
        r
    }
}

/// The read capability over columns whose element tuple is `Copy`: the
/// value at one index can be handed out without moving it out of the
/// container.
pub trait ParallelVecParamCopy: ParallelVecParam {
    /// Copies the logical element at `index` out of every column.
    fn read_at(storage: &Self::Storage, index: usize) -> (v: Self)
        requires
            Self::wf(storage),
            index < Self::view_of(storage).len(),
        ensures
            v == Self::view_of(storage)[index as int],
    ;
}

impl<A: Copy, B: Copy> ParallelVecParamCopy for (A, B) {
    fn read_at(storage: &Self::Storage, index: usize) -> (v: Self) {
        (storage.0[index], storage.1[index])
    }
}

impl<A: Copy, B: Copy, C: Copy> ParallelVecParamCopy for (A, B, C) {
    fn read_at(storage: &Self::Storage, index: usize) -> (v: Self) {
        (storage.0[index], storage.1[index], storage.2[index])
    }
}

} // verus!
