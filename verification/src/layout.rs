//! The layout engine: places N typed arrays, one per column, into a single
//! memory block.
//!
//! Starting from the first column's array requirement, the accumulated
//! layout is extended by one column at a time, in declared order: the
//! running size is padded up to the column's alignment, that padded value
//! is the column's byte offset, and `capacity` elements of the column's
//! size follow. The block's alignment is the largest column alignment.
//! The computation is a pure function of the descriptors and the capacity,
//! so allocation and release recompute the same layout independently.
//! A capacity whose byte size would pass the allocator's limit is reported
//! as an error, never wrapped silently.

use vstd::arithmetic::div_mod::lemma_fundamental_div_mod;
use vstd::arithmetic::div_mod::lemma_mod_multiples_vanish;
use vstd::prelude::*;

verus! {

/// The allocator takes no request above `isize::MAX` bytes.
pub const MAX_ALLOC_BYTES: usize = usize::MAX / 2;

/// What the layout engine needs to know of one column's element type:
/// its size and alignment in bytes. The alignment of a real type is
/// never zero.
#[derive(Clone, Copy, PartialEq, Eq, Structural)]
pub struct ColumnDesc {
    pub size: usize,
    pub align: usize,
}

/// The single block computed for one capacity: its byte size and alignment,
/// and the byte offset where each column's array starts.
pub struct MemoryLayout {
    pub size: usize,
    pub align: usize,
    pub offsets: Vec<usize>,
}

/// The reported condition when a capacity's byte size would pass the
/// allocator's limit.
#[derive(Debug, PartialEq, Eq, Structural)]
pub enum LayoutError {
    Overflow,
}

/// Every descriptor carries a nonzero alignment.
pub open spec fn descs_valid(descs: Seq<ColumnDesc>) -> bool {
    forall|i: int| 0 <= i < descs.len() ==> #[trigger] descs[i].align >= 1
}

/// `x` padded up to the next multiple of `a`.
pub open spec fn spec_round_up(x: nat, a: nat) -> nat
    recommends
        a >= 1,
{
    if x % a == 0 {
        x
    } else {
        (x + (a - x % a)) as nat
    }
}

/// The byte size of the block holding `capacity` elements of every column,
/// accumulated in declared order.
pub open spec fn spec_layout_size(descs: Seq<ColumnDesc>, capacity: nat) -> nat
    decreases descs.len(),
{
    if descs.len() == 0 {
        0
    } else {
        (spec_round_up(spec_layout_size(descs.drop_last(), capacity), descs.last().align as nat)
            + capacity * descs.last().size) as nat
    }
}

/// The block's alignment: the largest column alignment, at least 1.
pub open spec fn spec_layout_align(descs: Seq<ColumnDesc>) -> nat
    decreases descs.len(),
{
    if descs.len() == 0 {
        1
    } else {
        vstd::math::max(
            spec_layout_align(descs.drop_last()) as int,
            descs.last().align as int,
        ) as nat
    }
}

/// The byte offset where column `i`'s array starts: the size accumulated
/// over the columns before it, padded up to column `i`'s alignment.
pub open spec fn spec_offset(descs: Seq<ColumnDesc>, capacity: nat, i: int) -> nat
    recommends
        0 <= i < descs.len(),
        descs_valid(descs),
{
    spec_round_up(spec_layout_size(descs.take(i), capacity), descs[i].align as nat)
}

/// Padding never moves backward, and stops short of one full alignment.
pub proof fn lemma_round_up_bounds(x: nat, a: nat)
    requires
        a >= 1,
    ensures
        x <= spec_round_up(x, a),
        spec_round_up(x, a) < x + a,
{
}

/// The padded value is a multiple of the alignment.
pub proof fn lemma_round_up_aligned(x: nat, a: nat)
    requires
        a >= 1,
    ensures
        spec_round_up(x, a) % a == 0,
{
    if x % a != 0 {
        let r = x % a;
        lemma_fundamental_div_mod(x as int, a as int);
        let q = x as int / a as int;
        assert(a as int * (q + 1) == a as int * q + a as int) by (nonlinear_arith);
        assert(x + (a - r) == a as int * (q + 1));
        lemma_mod_multiples_vanish(q + 1, 0, a as int);
        assert((a as int * (q + 1)) % (a as int) == 0);
    }
}

/// Accumulated sizes only grow as columns are appended.
proof fn lemma_size_step(descs: Seq<ColumnDesc>, capacity: nat, i: int)
    requires
        descs_valid(descs),
        0 <= i < descs.len(),
    ensures
        spec_layout_size(descs.take(i + 1), capacity) == spec_offset(descs, capacity, i)
            + capacity * descs[i].size,
        spec_layout_size(descs.take(i), capacity) <= spec_layout_size(descs.take(i + 1), capacity),
{
    let pre = descs.take(i + 1);
    assert(pre.drop_last() =~= descs.take(i));
    assert(pre.last() == descs[i]);
    lemma_round_up_bounds(spec_layout_size(descs.take(i), capacity), descs[i].align as nat);
}

/// The accumulated size over a prefix never exceeds the whole block's size.
proof fn lemma_size_monotone(descs: Seq<ColumnDesc>, capacity: nat, i: int, j: int)
    requires
        descs_valid(descs),
        0 <= i <= j <= descs.len(),
    ensures
        spec_layout_size(descs.take(i), capacity) <= spec_layout_size(descs.take(j), capacity),
    decreases j - i,
{
    if i < j {
        lemma_size_step(descs, capacity, j - 1);
        lemma_size_monotone(descs, capacity, i, j - 1);
    }
}

/// Every column's alignment divides into the block's alignment bound.
proof fn lemma_align_covers(descs: Seq<ColumnDesc>, i: int)
    requires
        0 <= i < descs.len(),
    ensures
        descs[i].align <= spec_layout_align(descs),
        spec_layout_align(descs.take(i + 1)) <= spec_layout_align(descs),
    decreases descs.len(),
{
    if i == descs.len() - 1 {
        assert(descs.drop_last() =~= descs.take(i));
        assert(descs.take(i + 1) =~= descs);
        lemma_align_bounds(descs.take(i));
    } else {
        lemma_align_covers(descs.drop_last(), i);
        assert(descs.drop_last().take(i + 1) =~= descs.take(i + 1));
        assert(spec_layout_align(descs.drop_last()) <= spec_layout_align(descs));
    }
}

/// The block's alignment is at least 1.
proof fn lemma_align_bounds(descs: Seq<ColumnDesc>)
    ensures
        spec_layout_align(descs) >= 1,
    decreases descs.len(),
{
    if descs.len() > 0 {
        lemma_align_bounds(descs.drop_last());
    }
}

/// What the computed layout guarantees: every column's array starts at an
/// offset aligned to its type, the arrays lie inside the block in declared
/// order without overlapping, and the block's alignment covers every
/// column's.
pub proof fn lemma_layout_properties(descs: Seq<ColumnDesc>, capacity: nat)
    requires
        descs_valid(descs),
    ensures
        forall|i: int|
            0 <= i < descs.len() ==> #[trigger] spec_offset(descs, capacity, i) % (
            descs[i].align as nat) == 0,
        forall|i: int|
            0 <= i < descs.len() - 1 ==> #[trigger] spec_offset(descs, capacity, i) + capacity
                * descs[i].size <= spec_offset(descs, capacity, i + 1),
        forall|i: int|
            0 <= i < descs.len() ==> #[trigger] spec_offset(descs, capacity, i) + capacity
                * descs[i].size <= spec_layout_size(descs, capacity),
        forall|i: int| 0 <= i < descs.len() ==> #[trigger] descs[i].align as nat
            <= spec_layout_align(descs),
        spec_layout_align(descs) >= 1,
{
    lemma_align_bounds(descs);
    assert forall|i: int| 0 <= i < descs.len() implies #[trigger] spec_offset(descs, capacity, i)
        % (descs[i].align as nat) == 0 by {
        lemma_round_up_aligned(spec_layout_size(descs.take(i), capacity), descs[i].align as nat);
    }
    assert forall|i: int|
        0 <= i < descs.len() - 1 implies #[trigger] spec_offset(descs, capacity, i) + capacity
        * descs[i].size <= spec_offset(descs, capacity, i + 1) by {
        lemma_size_step(descs, capacity, i);
        lemma_round_up_bounds(
            spec_layout_size(descs.take(i + 1), capacity),
            descs[i + 1].align as nat,
        );
    }
    assert forall|i: int| 0 <= i < descs.len() implies #[trigger] spec_offset(descs, capacity, i)
        + capacity * descs[i].size <= spec_layout_size(descs, capacity) by {
        lemma_size_step(descs, capacity, i);
        lemma_size_monotone(descs, capacity, i + 1, descs.len() as int);
        assert(descs.take(descs.len() as int) =~= descs);
    }
    assert forall|i: int| 0 <= i < descs.len() implies #[trigger] descs[i].align as nat
        <= spec_layout_align(descs) by {
        lemma_align_covers(descs, i);
    }
}

/// Computes the single block layout for `capacity` elements of every
/// column: size, alignment, and each column's byte offset, exactly as the
/// accumulation specifies. A byte size past the allocator's limit is the
/// overflow error, reported exactly when the accumulated size passes
/// `MAX_ALLOC_BYTES`.
pub fn layout_for_capacity(descs: &Vec<ColumnDesc>, capacity: usize) -> (r: Result<
    MemoryLayout,
    LayoutError,
>)
    requires
        descs_valid(descs@),
    ensures
        r matches Ok(l) ==> {
            &&& l.size == spec_layout_size(descs@, capacity as nat)
            &&& l.align == spec_layout_align(descs@)
            &&& l.offsets@.len() == descs@.len()
            &&& forall|i: int|
                0 <= i < descs@.len() ==> l.offsets@[i] == spec_offset(
                    descs@,
                    capacity as nat,
                    i,
                )
        },
        r is Err <==> spec_layout_size(descs@, capacity as nat) > MAX_ALLOC_BYTES,
{
    let count = descs.len();
    let mut offsets: Vec<usize> = Vec::new();
    let mut size: usize = 0;
    let mut align: usize = 1;
    let mut idx: usize = 0;
    while idx < count
        invariant
            descs_valid(descs@),
            count == descs@.len(),
            idx <= count,
            size == spec_layout_size(descs@.take(idx as int), capacity as nat),
            size <= MAX_ALLOC_BYTES,
            align == spec_layout_align(descs@.take(idx as int)),
            offsets@.len() == idx,
            forall|i: int|
                0 <= i < idx ==> offsets@[i] == spec_offset(descs@, capacity as nat, i),
        decreases count - idx,
    {
        let d = descs[idx];
        proof {
            lemma_size_step(descs@, capacity as nat, idx as int);
            lemma_size_monotone(descs@, capacity as nat, idx as int + 1, count as int);
            assert(descs@.take(count as int) =~= descs@);
        }
        let rem = size % d.align;
        let offset = if rem == 0 {
            size
        } else {
            match size.checked_add(d.align - rem) {
                Some(o) => o,
                None => {
                    return Err(LayoutError::Overflow);
                },
            }
        };
        let bytes = match capacity.checked_mul(d.size) {
            Some(b) => b,
            None => {
                return Err(LayoutError::Overflow);
            },
        };
        let new_size = match offset.checked_add(bytes) {
            Some(s) => s,
            None => {
                return Err(LayoutError::Overflow);
            },
        };
        if new_size > MAX_ALLOC_BYTES {
            return Err(LayoutError::Overflow);
        }
        offsets.push(offset);
        if d.align > align {
            align = d.align;
        }
        proof {
            assert(descs@.take(idx as int + 1).drop_last() =~= descs@.take(idx as int));
        }
        size = new_size;
        idx = idx + 1;
    }
    proof {
        assert(descs@.take(count as int) =~= descs@);
    }
    Ok(MemoryLayout { size, align, offsets })
}

} // verus!
