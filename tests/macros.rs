use vec_min::{VecMin, VecOne};

#[test]
fn slice_range() {
    assert_eq!(vec_min::slice_range(&(..), ..5), Some(0..5));
    assert_eq!(vec_min::slice_range(&(1..), ..5), Some(1..5));
    assert_eq!(vec_min::slice_range(&(..3), ..5), Some(0..3));
    assert_eq!(vec_min::slice_range(&(1..3), ..5), Some(1..3));
    assert_eq!(vec_min::slice_range(&(1..=3), ..5), Some(1..4));
}

#[test]
fn vecone() {
    let v = VecOne::new(vec![1, 1, 1]).unwrap();

    assert_eq!(v.min_len(), 1);
    assert_eq!(v.len(), 3);

    let v = VecOne::new(vec![1; 3]).unwrap();

    assert_eq!(v.min_len(), 1);
    assert_eq!(v.len(), 3);
}

#[test]
fn vecmin_explicit() {
    let v = VecMin::<_, 2>::new(vec![1, 1, 1]).unwrap();

    assert_eq!(v.min_len(), 2);
    assert_eq!(v.len(), 3);

    let v = VecMin::<_, 2>::new(vec![1; 3]).unwrap();

    assert_eq!(v.min_len(), 2);
    assert_eq!(v.len(), 3);
}

#[test]
fn vecmin_implicit() {
    let v = VecMin::<_, 3>::try_from_array([1, 1, 1]).unwrap();

    assert_eq!(v.min_len(), 3);
    assert_eq!(v.len(), 3);

    let v = VecMin::<_, 3>::try_from_array([1; 3]).unwrap();

    assert_eq!(v.min_len(), 3);
    assert_eq!(v.len(), 3);
}
