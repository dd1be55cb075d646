use parallel_vec::layout::layout_for_capacity;
use parallel_vec::layout::MAX_ALLOC_BYTES;
use parallel_vec::ColumnDesc;
use parallel_vec::LayoutError;
use parallel_vec::ParallelVecParam;

#[test]
fn layout_places_columns_in_declared_order() {
    let layout = <(u32, u64) as ParallelVecParam>::layout_for_capacity(10).unwrap();
    assert_eq!(layout.offsets, vec![0, 40]);
    assert_eq!(layout.size, 120);
    assert_eq!(layout.align, 8);
}

#[test]
fn layout_pads_up_to_each_alignment() {
    let layout = <(u8, u64) as ParallelVecParam>::layout_for_capacity(3).unwrap();
    assert_eq!(layout.offsets, vec![0, 8]);
    assert_eq!(layout.size, 32);
    assert_eq!(layout.align, 8);
}

#[test]
fn layout_for_three_columns() {
    let layout = <(u8, u32, u16) as ParallelVecParam>::layout_for_capacity(5).unwrap();
    assert_eq!(layout.offsets, vec![0, 8, 28]);
    assert_eq!(layout.size, 38);
    assert_eq!(layout.align, 4);
}

#[test]
fn layout_is_deterministic_per_capacity() {
    let first = <(u16, u64) as ParallelVecParam>::layout_for_capacity(9).unwrap();
    let second = <(u16, u64) as ParallelVecParam>::layout_for_capacity(9).unwrap();
    assert_eq!(first.size, second.size);
    assert_eq!(first.align, second.align);
    assert_eq!(first.offsets, second.offsets);
}

#[test]
fn layout_of_zero_capacity_is_empty() {
    let layout = <(u32, u64) as ParallelVecParam>::layout_for_capacity(0).unwrap();
    assert_eq!(layout.size, 0);
    assert_eq!(layout.offsets, vec![0, 0]);
}

#[test]
fn oversized_request_is_the_overflow_error() {
    let descs = vec![ColumnDesc { size: usize::MAX / 2, align: 1 }];
    let r = layout_for_capacity(&descs, 3);
    assert_eq!(r.err().unwrap(), LayoutError::Overflow);
    let descs = vec![ColumnDesc { size: 1, align: 1 }];
    let r = layout_for_capacity(&descs, usize::MAX);
    assert_eq!(r.err().unwrap(), LayoutError::Overflow);
}

#[test]
fn request_at_the_limit_is_accepted() {
    let descs = vec![ColumnDesc { size: 1, align: 1 }];
    let layout = layout_for_capacity(&descs, MAX_ALLOC_BYTES).unwrap();
    assert_eq!(layout.size, MAX_ALLOC_BYTES);
    assert_eq!(layout.align, 1);
}

#[test]
fn grow_policy_doubles_and_floors_at_four() {
    assert_eq!(parallel_vec::policy::grow_capacity(0), 4);
    assert_eq!(parallel_vec::policy::grow_capacity(1), 4);
    assert_eq!(parallel_vec::policy::grow_capacity(4), 4);
    assert_eq!(parallel_vec::policy::grow_capacity(5), 8);
    assert_eq!(parallel_vec::policy::grow_capacity(9), 16);
    assert_eq!(parallel_vec::policy::next_pow2(1), 1);
    assert_eq!(parallel_vec::policy::next_pow2(6), 8);
    assert_eq!(parallel_vec::policy::next_pow2(64), 64);
}
