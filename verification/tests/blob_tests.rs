use blob::Blob;
use blob::Numeric;

#[test]
fn new_blob_has_shape_zero_and_nothing_stored() {
    let b: Blob<i32> = Blob::new();
    assert_eq!(b.shape(), vec![0]);
    assert_eq!(b.len(), 0);
    assert!(b.is_empty());
    assert_eq!(b.capacity(), 0);
    assert!(b.cpu_data().is_empty());
    assert!(b.cpu_diff().is_empty());
}

#[test]
fn of_shape_reports_the_given_shape() {
    let shapes: Vec<Vec<isize>> = vec![vec![2, 3, 4], vec![], vec![5], vec![-2, 3], vec![0]];
    for s in shapes {
        let b: Blob<i64> = Blob::of_shape(s.clone());
        assert_eq!(b.shape(), s);
    }
}

#[test]
fn of_shape_reserves_the_extent_product() {
    let b: Blob<i32> = Blob::of_shape(vec![2, 3, 4]);
    assert_eq!(b.capacity(), 24);
    assert_eq!(b.len(), 0);

    // the empty shape requires capacity one
    let rank0: Blob<i32> = Blob::of_shape(vec![]);
    assert_eq!(rank0.capacity(), 1);

    // a zero extent drives the requirement to zero: nothing is reserved
    let zero: Blob<i32> = Blob::of_shape(vec![0]);
    assert_eq!(zero.capacity(), 0);

    // a negative extent drives the requirement below zero: nothing is reserved
    let negative: Blob<i32> = Blob::of_shape(vec![-2, 3]);
    assert_eq!(negative.capacity(), 0);
}

#[test]
fn shape_string_renders_extents_then_rank() {
    let b: Blob<i32> = Blob::of_shape(vec![2, 3, 4]);
    assert_eq!(b.shape_string(), "2 3 4 (3)");

    let single: Blob<i32> = Blob::of_shape(vec![5]);
    assert_eq!(single.shape_string(), "5 (1)");
}

#[test]
fn shape_string_handles_empty_negative_and_wide_extents() {
    let rank0: Blob<i32> = Blob::of_shape(vec![]);
    assert_eq!(rank0.shape_string(), "(0)");

    let negative: Blob<i32> = Blob::of_shape(vec![-2, 3]);
    assert_eq!(negative.shape_string(), "-2 3 (2)");

    let wide: Blob<i32> = Blob::of_shape(vec![isize::MIN, isize::MAX]);
    assert_eq!(
        wide.shape_string(),
        format!("{} {} (2)", isize::MIN, isize::MAX)
    );

    let fresh: Blob<i32> = Blob::new();
    assert_eq!(fresh.shape_string(), "0 (1)");
}

#[test]
fn writes_through_mutable_data_are_read_back_in_order() {
    let mut b: Blob<i32> = Blob::of_shape(vec![3]);
    let data = b.mutable_cpu_data();
    data.push(10);
    data.push(20);
    data.push(30);
    assert_eq!(b.cpu_data(), &vec![10, 20, 30]);
    assert_eq!(b.len(), 3);
    assert!(!b.is_empty());
    // the diff buffer is untouched by writes to data
    assert!(b.cpu_diff().is_empty());
}

#[test]
fn writes_through_mutable_diff_are_read_back_in_order() {
    let mut b: Blob<u8> = Blob::of_shape(vec![2]);
    let diff = b.mutable_cpu_diff();
    diff.push(7);
    diff.push(9);
    assert_eq!(b.cpu_diff(), &vec![7, 9]);
    // len reports the data buffer, which is still empty
    assert_eq!(b.len(), 0);
    assert!(b.is_empty());
}

#[test]
fn reshape_to_larger_requirement_discards_both_buffers() {
    let mut b: Blob<i32> = Blob::of_shape(vec![2]);
    b.mutable_cpu_data().push(1);
    b.mutable_cpu_data().push(2);
    b.mutable_cpu_diff().push(-1);
    assert_eq!(b.len(), 2);

    b.reshape(vec![2, 2]);
    assert_eq!(b.shape(), vec![2, 2]);
    assert_eq!(b.len(), 0);
    assert!(b.cpu_data().is_empty());
    assert!(b.cpu_diff().is_empty());
    assert!(b.capacity() >= 4);
    assert_eq!(b.capacity(), 4);
}

#[test]
fn reshape_within_capacity_preserves_everything_but_the_shape() {
    let mut b: Blob<i32> = Blob::of_shape(vec![4]);
    b.mutable_cpu_data().push(5);
    b.mutable_cpu_data().push(6);
    b.mutable_cpu_diff().push(7);
    let cap = b.capacity();

    // a smaller requirement leaves contents and capacity alone,
    // whatever element count the new shape implies
    b.reshape(vec![1]);
    assert_eq!(b.shape(), vec![1]);
    assert_eq!(b.len(), 2);
    assert_eq!(b.cpu_data(), &vec![5, 6]);
    assert_eq!(b.cpu_diff(), &vec![7]);
    assert_eq!(b.capacity(), cap);

    // so does a negative requirement
    b.reshape(vec![-100]);
    assert_eq!(b.shape(), vec![-100]);
    assert_eq!(b.len(), 2);
    assert_eq!(b.cpu_data(), &vec![5, 6]);
    assert_eq!(b.capacity(), cap);

    // an equal requirement too
    b.reshape(vec![2, 2]);
    assert_eq!(b.shape(), vec![2, 2]);
    assert_eq!(b.len(), 2);
    assert_eq!(b.capacity(), cap);
}

#[test]
fn reshape_never_shrinks_the_reserved_capacity() {
    let mut b: Blob<i32> = Blob::of_shape(vec![10]);
    assert_eq!(b.capacity(), 10);
    b.reshape(vec![2]);
    assert_eq!(b.capacity(), 10);
    b.reshape(vec![3, 4]);
    assert_eq!(b.capacity(), 12);
    b.reshape(vec![]);
    assert_eq!(b.capacity(), 12);
}

#[test]
fn reshape_twice_with_the_same_shape_changes_nothing_further() {
    let mut b: Blob<i32> = Blob::of_shape(vec![2, 3]);
    b.mutable_cpu_data().push(1);
    b.mutable_cpu_data().push(2);
    b.mutable_cpu_diff().push(3);

    b.reshape(vec![2, 3]);
    let shape_after_first = b.shape();
    let cap_after_first = b.capacity();
    let data_after_first = b.cpu_data().clone();
    let diff_after_first = b.cpu_diff().clone();

    b.reshape(vec![2, 3]);
    assert_eq!(b.shape(), shape_after_first);
    assert_eq!(b.capacity(), cap_after_first);
    assert_eq!(b.cpu_data(), &data_after_first);
    assert_eq!(b.cpu_diff(), &diff_after_first);
    assert_eq!(b.len(), 2);
}

#[test]
fn reshape_after_growth_is_idempotent_too() {
    let mut b: Blob<i32> = Blob::new();
    b.reshape(vec![5, 5]);
    assert_eq!(b.capacity(), 25);
    b.mutable_cpu_data().push(42);

    b.reshape(vec![5, 5]);
    assert_eq!(b.capacity(), 25);
    assert_eq!(b.cpu_data(), &vec![42]);
    assert_eq!(b.len(), 1);
}

#[test]
fn extent_product_overflow_wraps_unchecked() {
    // isize::MAX * 2 wraps to -2: the requirement goes negative and
    // nothing is reserved
    assert_eq!(isize::MAX.wrapping_mul(2), -2);
    let b: Blob<i32> = Blob::of_shape(vec![isize::MAX, 2]);
    assert_eq!(b.capacity(), 0);
    assert_eq!(b.shape(), vec![isize::MAX, 2]);

    // a wrap that lands on a small positive value reserves only that much
    let wrapped = isize::MAX.wrapping_mul(4);
    assert_eq!(wrapped, -4);
    let c: Blob<i32> = Blob::of_shape(vec![isize::MAX, 4, -1]);
    assert_eq!(c.capacity(), 4);
}

#[test]
fn shape_copy_does_not_alias_the_blob() {
    let mut b: Blob<i32> = Blob::of_shape(vec![2, 3]);
    let mut copy = b.shape();
    copy.push(99);
    assert_eq!(b.shape(), vec![2, 3]);
    b.reshape(vec![6]);
    assert_eq!(copy, vec![2, 3, 99]);
}

#[test]
fn numeric_capabilities_on_signed_types() {
    assert_eq!(<i32 as Numeric>::zero(), 0);
    assert_eq!(2i32.plus(3), 5);
    assert_eq!(4i64.times(5), 20);
    assert_eq!((-2isize).plus(7), 5);
    // addition and multiplication wrap on overflow
    assert_eq!(i32::MAX.plus(1), i32::MIN);
    assert_eq!(i8::MIN.times(-1), i8::MIN);
}

#[test]
fn numeric_capabilities_on_unsigned_types() {
    assert_eq!(<u64 as Numeric>::zero(), 0);
    assert_eq!(2u8.plus(3), 5);
    assert_eq!(200u8.times(2), 144);
    assert_eq!(u16::MAX.plus(1), 0);
    assert_eq!(250usize.plus(5), 255);
}
