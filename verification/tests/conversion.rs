use parallel_vec::ParallelVec;
use parallel_vec::ParallelVecConversionError;

#[test]
fn conversion_from_equal_length_columns_succeeds() {
    let numbers = vec![1i32, 2, 3];
    let names = vec!["a".to_string(), "b".to_string(), "c".to_string()];
    let flags = vec![true, false, true];
    let pv: ParallelVec<(i32, String, bool)> =
        ParallelVec::try_from_vecs((numbers, names, flags)).unwrap();
    assert_eq!(pv.len(), 3);
    assert_eq!(pv.capacity(), 3);
    let cols = pv.as_slices();
    assert_eq!(cols.0[1], 2);
    assert_eq!(cols.1[1], "b".to_string());
    assert_eq!(cols.2[1], false);
}

#[test]
fn conversion_from_uneven_columns_fails_and_returns_them() {
    let left = vec![1i32, 2, 3];
    let right = vec![1i32, 2];
    let result: Result<ParallelVec<(i32, i32)>, _> = ParallelVec::try_from_vecs((left, right));
    let (returned, err) = result.err().unwrap();
    assert_eq!(err, ParallelVecConversionError::UnevenLengths);
    assert_eq!(returned.0, vec![1, 2, 3]);
    assert_eq!(returned.1, vec![1, 2]);
}

#[test]
fn conversion_round_trip_preserves_order() {
    let pv: ParallelVec<(u32, u64)> =
        ParallelVec::try_from_vecs((vec![7, 8], vec![70, 80])).unwrap();
    let mut pv = pv;
    assert_eq!(pv.pop(), Some((8, 80)));
    assert_eq!(pv.pop(), Some((7, 70)));
    assert_eq!(pv.pop(), None);
}

#[test]
fn conversion_of_empty_columns_succeeds() {
    let pv: ParallelVec<(u32, u64)> =
        ParallelVec::try_from_vecs((Vec::new(), Vec::new())).unwrap();
    assert_eq!(pv.len(), 0);
    assert_eq!(pv.capacity(), 0);
}
