//! The accessors on concrete containers: fixed-size arrays indexed and
//! sliced through the tokens, whole-array copies, and the wrapper over
//! arrays, borrowed slices and vectors.

use static_slicing::{
    fixed_index, fixed_range, fixed_write, fixed_write_range, FixedSizeCopy, SliceWrapper,
    StaticIndex, StaticRangeIndex,
};

#[test]
fn test_immutable_static_slice() {
    let arr = [0, 1, 2, 3, 4, 5, 6, 7, 8, 9, 10, 11];
    let sub_arr = fixed_range(&arr, StaticRangeIndex::<4, 8>);

    assert_eq!(sub_arr, arr[4..12]);
}

#[test]
fn test_mutable_static_slice() {
    let mut arr = [0, 1, 2, 3, 4, 5, 6, 7, 8, 9, 10, 11];
    let mut sub_arr = fixed_range(&arr, StaticRangeIndex::<4, 8>);

    sub_arr[0] = 1234;
    fixed_write_range(&mut arr, StaticRangeIndex::<4, 8>, sub_arr);
    assert_eq!(arr[4], 1234);
}

#[test]
fn test_full_immutable_static_slice() {
    let arr = [0, 1, 2, 3, 4, 5, 6, 7, 8, 9, 10, 11];
    let sub_arr = fixed_range(&arr, StaticRangeIndex::<0, 12>);

    assert_eq!(arr, sub_arr);
}

#[test]
fn test_full_mutable_static_slice() {
    let mut arr = [0, 1, 2, 3, 4, 5, 6, 7, 8, 9, 10, 11];
    let mut sub_arr = fixed_range(&arr, StaticRangeIndex::<0, 12>);

    sub_arr[4] = 5;
    sub_arr[5] = 4;
    fixed_write_range(&mut arr, StaticRangeIndex::<0, 12>, sub_arr);
    assert_eq!(arr[4], 5);
    assert_eq!(arr[5], 4);
}

#[test]
fn test_fixed_size_copy() {
    let a1 = [1, 2, 3, 4, 5, 6];
    let mut a2 = [0; 6];

    a2.copy_from(a1);
    assert_eq!(a2, a1);
}

#[test]
fn test_immutable_static_index() {
    let arr = [1, 2, 3, 4, 5];
    assert_eq!(*fixed_index(&arr, StaticIndex::<4>), 5);
}

#[test]
fn test_mutable_static_index() {
    let mut arr = [1, 2, 3, 4, 5];
    fixed_write(&mut arr, StaticIndex::<4>, 6);
    assert_eq!(arr, [1, 2, 3, 4, 6]);
}

#[test]
fn test_wrapped_slice_read_single() {
    let arr = [1, 2, 3];
    let x = SliceWrapper::new(&arr[..]);
    assert_eq!(*x.index(StaticIndex::<2>), 3);
}

#[test]
fn test_wrapped_slice_write_single() {
    let x = [1, 2, 3];
    let mut y = SliceWrapper::new(x);
    y.set_index(StaticIndex::<2>, 5);
    let x = y.into_inner();
    assert_eq!(x[2], 5);
}

#[test]
fn test_wrapped_slice_read_multi() {
    let arr = [1, 2, 3];
    let x = SliceWrapper::new(&arr[..]);
    assert_eq!(x.range(StaticRangeIndex::<0, 2>), [1, 2]);
}

#[test]
fn test_wrapped_slice_write_multi() {
    let x = [1, 2, 3];
    let mut y = SliceWrapper::new(x);
    y.set_range(StaticRangeIndex::<0, 2>, [3, 4]);
    let x = y.into_inner();
    assert_eq!(x, [3, 4, 3]);
}

#[test]
fn test_wrapped_vec_read() {
    let x = vec![1, 2, 3];
    let x = SliceWrapper::new(x);
    assert_eq!(x.range(StaticRangeIndex::<0, 2>), [1, 2]);
}

#[test]
fn test_wrapped_vec_write() {
    let x = vec![1, 2, 3];
    let mut y = SliceWrapper::new(x);
    y.set_range(StaticRangeIndex::<1, 2>, [4, 5]);

    assert_eq!(y.range(StaticRangeIndex::<0, 3>), [1, 4, 5]);
    let x = y.into_inner();
    assert_eq!(x[0..3], [1, 4, 5]);
}
