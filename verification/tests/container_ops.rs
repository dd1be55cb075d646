use parallel_vec::ParallelVec;

#[test]
fn new_is_empty_with_no_capacity() {
    let pv: ParallelVec<(u32, u64)> = ParallelVec::new();
    assert_eq!(pv.len(), 0);
    assert!(pv.is_empty());
    assert_eq!(pv.capacity(), 0);
}

#[test]
fn with_capacity_allocates_exactly() {
    let pv: ParallelVec<(u32, u64)> = ParallelVec::with_capacity(7);
    assert_eq!(pv.len(), 0);
    assert!(pv.is_empty());
    assert_eq!(pv.capacity(), 7);
    let empty: ParallelVec<(u32, u64)> = ParallelVec::with_capacity(0);
    assert_eq!(empty.capacity(), 0);
}

#[test]
fn push_pop_round_trip_is_lifo() {
    let mut pv: ParallelVec<(u32, u64)> = ParallelVec::new();
    let before = pv.len();
    pv.push((1, 10));
    pv.push((2, 20));
    pv.push((3, 30));
    assert_eq!(pv.pop(), Some((3, 30)));
    assert_eq!(pv.pop(), Some((2, 20)));
    assert_eq!(pv.pop(), Some((1, 10)));
    assert_eq!(pv.len(), before);
    assert_eq!(pv.pop(), None);
}

#[test]
fn pop_on_empty_reports_absence() {
    let mut pv: ParallelVec<(u8, u8)> = ParallelVec::new();
    assert_eq!(pv.pop(), None);
    assert_eq!(pv.len(), 0);
}

#[test]
fn len_never_exceeds_capacity() {
    let mut pv: ParallelVec<(u32, u64)> = ParallelVec::new();
    assert!(pv.len() <= pv.capacity());
    for i in 0..20u32 {
        pv.push((i, (i as u64) * 2));
        assert!(pv.len() <= pv.capacity());
    }
    pv.reserve(100);
    assert!(pv.len() <= pv.capacity());
    pv.truncate(5);
    assert!(pv.len() <= pv.capacity());
    pv.shrink_to_fit();
    assert!(pv.len() <= pv.capacity());
    pv.pop();
    assert!(pv.len() <= pv.capacity());
    pv.clear();
    assert!(pv.len() <= pv.capacity());
}

#[test]
fn reserve_grows_by_policy_and_keeps_len() {
    let mut pv: ParallelVec<(u32, u64)> = ParallelVec::new();
    pv.push((1, 1));
    assert_eq!(pv.capacity(), 4);
    pv.reserve(10);
    assert!(pv.capacity() >= pv.len() + 10);
    assert_eq!(pv.capacity(), 16);
    assert_eq!(pv.len(), 1);
    let cap = pv.capacity();
    pv.reserve(2);
    assert_eq!(pv.capacity(), cap);
}

#[test]
fn shrink_to_fit_reaches_len_and_is_idempotent() {
    let mut pv: ParallelVec<(u32, u64)> = ParallelVec::with_capacity(32);
    pv.push((1, 1));
    pv.push((2, 2));
    pv.push((3, 3));
    pv.shrink_to_fit();
    assert_eq!(pv.capacity(), pv.len());
    assert_eq!(pv.capacity(), 3);
    pv.shrink_to_fit();
    assert_eq!(pv.capacity(), 3);
    assert_eq!(pv.len(), 3);
    assert_eq!(pv.get(0), Some((1, 1)));
    assert_eq!(pv.get(1), Some((2, 2)));
    assert_eq!(pv.get(2), Some((3, 3)));
}

#[test]
fn shrink_to_respects_len_and_bound() {
    let mut pv: ParallelVec<(u32, u64)> = ParallelVec::with_capacity(16);
    pv.push((1, 1));
    pv.push((2, 2));
    pv.shrink_to(8);
    assert_eq!(pv.capacity(), 8);
    pv.shrink_to(1);
    assert_eq!(pv.capacity(), 2);
    pv.shrink_to(100);
    assert_eq!(pv.capacity(), 2);
}

#[test]
fn swap_exchanges_both_columns() {
    let mut pv: ParallelVec<(u32, u64)> = ParallelVec::new();
    pv.push((1, 10));
    pv.push((2, 20));
    pv.push((3, 30));
    pv.swap(0, 2);
    assert_eq!(pv.get(0), Some((3, 30)));
    assert_eq!(pv.get(2), Some((1, 10)));
    pv.swap(1, 1);
    assert_eq!(pv.get(1), Some((2, 20)));
}

#[test]
fn swap_remove_moves_last_into_hole() {
    let mut pv: ParallelVec<(u32, u64)> = ParallelVec::new();
    pv.push((10, 100));
    pv.push((20, 200));
    pv.push((30, 300));
    pv.push((40, 400));
    let removed = pv.swap_remove(1);
    assert_eq!(removed, (20, 200));
    assert_eq!(pv.len(), 3);
    assert_eq!(pv.get(0), Some((10, 100)));
    assert_eq!(pv.get(1), Some((40, 400)));
    assert_eq!(pv.get(2), Some((30, 300)));
}

#[test]
fn swap_remove_of_last_index_just_pops() {
    let mut pv: ParallelVec<(u32, u64)> = ParallelVec::new();
    pv.push((1, 10));
    pv.push((2, 20));
    let removed = pv.swap_remove(1);
    assert_eq!(removed, (2, 20));
    assert_eq!(pv.len(), 1);
    assert_eq!(pv.get(0), Some((1, 10)));
}

#[test]
fn truncate_keeps_prefix_and_capacity() {
    let mut pv: ParallelVec<(u32, u64)> = ParallelVec::new();
    for i in 0..6u32 {
        pv.push((i, i as u64));
    }
    let cap = pv.capacity();
    pv.truncate(2);
    assert_eq!(pv.len(), 2);
    assert_eq!(pv.capacity(), cap);
    assert_eq!(pv.get(0), Some((0, 0)));
    assert_eq!(pv.get(1), Some((1, 1)));
    assert_eq!(pv.get(2), None);
    pv.truncate(10);
    assert_eq!(pv.len(), 2);
}

#[test]
fn clear_empties_and_keeps_capacity() {
    let mut pv: ParallelVec<(u32, u64)> = ParallelVec::new();
    pv.push((1, 1));
    pv.push((2, 2));
    let cap = pv.capacity();
    pv.clear();
    assert_eq!(pv.len(), 0);
    assert!(pv.is_empty());
    assert_eq!(pv.capacity(), cap);
}

#[test]
fn append_moves_all_elements_in_order() {
    let mut a: ParallelVec<(u32, u64)> = ParallelVec::new();
    a.push((1, 10));
    a.push((2, 20));
    let mut b: ParallelVec<(u32, u64)> = ParallelVec::new();
    b.push((3, 30));
    b.push((4, 40));
    let b_cap = b.capacity();
    a.append(&mut b);
    assert_eq!(a.len(), 4);
    assert_eq!(a.get(0), Some((1, 10)));
    assert_eq!(a.get(1), Some((2, 20)));
    assert_eq!(a.get(2), Some((3, 30)));
    assert_eq!(a.get(3), Some((4, 40)));
    assert_eq!(b.len(), 0);
    assert_eq!(b.capacity(), b_cap);
}

#[test]
fn extend_pushes_in_order() {
    let mut pv: ParallelVec<(u32, u64)> = ParallelVec::new();
    pv.push((1, 10));
    pv.extend(vec![(2, 20), (3, 30)]);
    assert_eq!(pv.len(), 3);
    assert_eq!(pv.get(1), Some((2, 20)));
    assert_eq!(pv.get(2), Some((3, 30)));
}

#[test]
fn get_is_total_and_bounds_checked() {
    let mut pv: ParallelVec<(u32, bool)> = ParallelVec::new();
    pv.push((5, true));
    assert_eq!(pv.get(0), Some((5, true)));
    assert_eq!(pv.get(1), None);
    assert_eq!(pv.get(usize::MAX), None);
    assert_eq!(pv.get_unchecked(0), (5, true));
}

#[test]
fn set_replaces_one_element_and_returns_the_old() {
    let mut pv: ParallelVec<(u32, u64)> = ParallelVec::new();
    pv.push((1, 10));
    pv.push((2, 20));
    pv.push((3, 30));
    let old = pv.set(1, (9, 90));
    assert_eq!(old, (2, 20));
    assert_eq!(pv.len(), 3);
    assert_eq!(pv.get(0), Some((1, 10)));
    assert_eq!(pv.get(1), Some((9, 90)));
    assert_eq!(pv.get(2), Some((3, 30)));
}

#[test]
fn as_slices_exposes_dense_columns() {
    let mut pv: ParallelVec<(u32, u64)> = ParallelVec::new();
    pv.push((1, 10));
    pv.push((2, 20));
    let cols = pv.as_slices();
    assert_eq!(cols.0, vec![1, 2]);
    assert_eq!(cols.1, vec![10, 20]);
}

#[test]
fn triple_arity_works_alike() {
    let mut pv: ParallelVec<(u8, u16, u32)> = ParallelVec::new();
    pv.push((1, 2, 3));
    pv.push((4, 5, 6));
    pv.swap(0, 1);
    assert_eq!(pv.get(0), Some((4, 5, 6)));
    assert_eq!(pv.pop(), Some((1, 2, 3)));
    assert_eq!(pv.len(), 1);
}
