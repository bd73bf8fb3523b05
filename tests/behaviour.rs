use std::ops::Bound;

use vec_min::{resolve_range, slice_range, ConstructError, ModifyError, VecMin};

fn build<const M: usize>(items: &[i32]) -> VecMin<i32, M> {
    VecMin::<i32, M>::new(items.to_vec()).unwrap()
}

#[test]
fn construct_rejects_short_input() {
    let r = VecMin::<i32, 5>::new(vec![1, 2, 3]);
    assert_eq!(r, Err(ConstructError(vec![1, 2, 3])));
}

#[test]
fn construct_round_trip() {
    let v = VecMin::<i32, 2>::new(vec![4, 5, 6]).unwrap();
    assert_eq!(v.into_inner(), vec![4, 5, 6]);
    let v = VecMin::<i32, 3>::new(vec![4, 5, 6]).unwrap();
    assert_eq!(v.into_inner(), vec![4, 5, 6]);
    assert!(VecMin::<i32, 4>::new(vec![4, 5, 6]).is_err());
}

#[test]
fn construct_with_zero_minimum_accepts_empty() {
    let v = VecMin::<i32, 0>::new(vec![]).unwrap();
    assert_eq!(v.len(), 0);
}

#[test]
fn guarded_pop_at_boundary() {
    let mut v = build::<2>(&[1, 2]);
    assert_eq!(v.pop(), Err(ModifyError));
    assert_eq!(v.as_slice(), &[1, 2]);
}

#[test]
fn guarded_pop_above_boundary() {
    let mut v = build::<2>(&[1, 2, 3]);
    assert_eq!(v.pop(), Ok(Some(3)));
    assert_eq!(v.as_slice(), &[1, 2]);
}

#[test]
fn pop_to_min_declines_at_boundary() {
    let mut v = build::<2>(&[1, 2, 3]);
    assert_eq!(v.pop_to_min(), Some(3));
    assert_eq!(v.pop_to_min(), None);
    assert_eq!(v.as_slice(), &[1, 2]);
}

#[test]
fn pop_unchecked_above_boundary() {
    let mut v = build::<1>(&[1, 2]);
    assert_eq!(v.pop_unchecked(), Some(2));
    assert_eq!(v.as_slice(), &[1]);
}

#[test]
fn pop_if_follows_predicate() {
    let mut v = build::<1>(&[1, 2, 3]);
    assert_eq!(v.pop_if(|x| *x > 5), Ok(None));
    assert_eq!(v.as_slice(), &[1, 2, 3]);
    assert_eq!(v.pop_if(|x| *x == 3), Ok(Some(3)));
    assert_eq!(v.pop_if(|x| {
        *x += 10;
        false
    }), Ok(None));
    assert_eq!(v.as_slice(), &[1, 12]);
    assert_eq!(v.pop_if(|_| true), Ok(Some(12)));
    assert_eq!(v.pop_if(|_| true), Err(ModifyError));
    assert_eq!(v.as_slice(), &[1]);
}

#[test]
fn pop_to_min_if_declines_at_boundary() {
    let mut v = build::<1>(&[1, 2]);
    assert_eq!(v.pop_to_min_if(|x| *x == 2), Some(2));
    assert_eq!(v.pop_to_min_if(|_| true), None);
    assert_eq!(v.as_slice(), &[1]);
    let mut w = build::<0>(&[7]);
    assert_eq!(w.pop_if_unchecked(|x| *x == 7), Some(7));
    assert_eq!(w.len(), 0);
}

#[test]
fn remove_and_swap_remove() {
    let mut v = build::<2>(&[1, 2, 3, 4]);
    assert_eq!(v.remove(0), Ok(1));
    assert_eq!(v.as_slice(), &[2, 3, 4]);
    assert_eq!(v.swap_remove(0), Ok(2));
    assert_eq!(v.as_slice(), &[4, 3]);
    assert_eq!(v.remove(0), Err(ModifyError));
    assert_eq!(v.swap_remove(1), Err(ModifyError));
    assert_eq!(v.as_slice(), &[4, 3]);
    let mut w = build::<1>(&[5, 6, 7]);
    assert_eq!(w.remove_unchecked(1), 6);
    assert_eq!(w.swap_remove_unchecked(0), 5);
    assert_eq!(w.as_slice(), &[7]);
}

#[test]
fn truncate_guarded_and_clamped() {
    let mut v = build::<2>(&[1, 2, 3, 4, 5]);
    assert_eq!(v.truncate(1), Err(ModifyError));
    assert_eq!(v.len(), 5);
    assert_eq!(v.truncate(4), Ok(()));
    assert_eq!(v.as_slice(), &[1, 2, 3, 4]);
    assert_eq!(v.truncate(9), Ok(()));
    assert_eq!(v.len(), 4);
    v.truncate_or_min(0);
    assert_eq!(v.as_slice(), &[1, 2]);
    let mut w = build::<2>(&[1, 2, 3, 4]);
    w.truncate_or_min(3);
    assert_eq!(w.as_slice(), &[1, 2, 3]);
    w.truncate_to_min();
    assert_eq!(w.as_slice(), &[1, 2]);
    let mut u = build::<1>(&[1, 2, 3]);
    u.truncate_unchecked(1);
    assert_eq!(u.as_slice(), &[1]);
}

#[test]
fn resize_guarded_and_clamped() {
    let mut v = build::<3>(&[1, 2, 3, 4]);
    assert_eq!(v.resize(2, 0), Err(ModifyError));
    assert_eq!(v.as_slice(), &[1, 2, 3, 4]);
    assert_eq!(v.resize(6, 9), Ok(()));
    assert_eq!(v.as_slice(), &[1, 2, 3, 4, 9, 9]);
    v.resize_or_min(1, 7);
    assert_eq!(v.as_slice(), &[1, 2, 3]);
    v.resize_or_min(5, 7);
    assert_eq!(v.as_slice(), &[1, 2, 3, 7, 7]);
    v.resize_unchecked(4, 0);
    assert_eq!(v.as_slice(), &[1, 2, 3, 7]);
}

#[test]
fn resize_with_uses_generator() {
    let mut v = build::<2>(&[1, 2]);
    let mut next = 10;
    assert_eq!(v.resize_with(4, || {
        next += 1;
        next
    }), Ok(()));
    assert_eq!(v.as_slice(), &[1, 2, 11, 12]);
    assert_eq!(v.resize_with(1, || 0), Err(ModifyError));
    assert_eq!(v.len(), 4);
    v.resize_or_min_with(0, || 0);
    assert_eq!(v.as_slice(), &[1, 2]);
    v.resize_or_min_with(3, || 5);
    assert_eq!(v.as_slice(), &[1, 2, 5]);
    v.resize_with_unchecked(2, || 0);
    assert_eq!(v.as_slice(), &[1, 2]);
}

#[test]
fn drain_below_boundary_refused() {
    let mut v = build::<3>(&[1, 2, 3, 4]);
    assert_eq!(v.drain(1..3), Err(ModifyError));
    assert_eq!(v.as_slice(), &[1, 2, 3, 4]);
}

#[test]
fn drain_above_boundary_returns_removed() {
    let mut v = build::<2>(&[1, 2, 3, 4, 5]);
    assert_eq!(v.drain(1..3), Ok(vec![2, 3]));
    assert_eq!(v.as_slice(), &[1, 4, 5]);
    assert_eq!(v.drain_unchecked(2..3), vec![5]);
    assert_eq!(v.as_slice(), &[1, 4]);
}

#[test]
fn splice_net_neutral_accepted() {
    let mut v = build::<3>(&[1, 2, 3, 4]);
    assert_eq!(v.splice(1..2, vec![9]), Ok(vec![2]));
    assert_eq!(v.as_slice(), &[1, 9, 3, 4]);
}

#[test]
fn splice_shrinking_below_boundary_refused() {
    let mut v = build::<3>(&[1, 2, 3, 4]);
    assert_eq!(v.splice(0..3, vec![8]), Err(ModifyError));
    assert_eq!(v.as_slice(), &[1, 2, 3, 4]);
    assert_eq!(v.splice(0..3, vec![8, 7]), Ok(vec![1, 2, 3]));
    assert_eq!(v.as_slice(), &[8, 7, 4]);
    assert_eq!(v.splice_unchecked(3..3, vec![6]), Vec::<i32>::new());
    assert_eq!(v.as_slice(), &[8, 7, 4, 6]);
}

#[test]
fn split_off_guarded() {
    let mut v = build::<2>(&[1, 2, 3, 4]);
    assert_eq!(v.split_off(1), Err(ModifyError));
    assert_eq!(v.len(), 4);
    assert_eq!(v.split_off(3), Ok(vec![4]));
    assert_eq!(v.as_slice(), &[1, 2, 3]);
    assert_eq!(v.split_off_unchecked(2), vec![3]);
    assert_eq!(v.as_slice(), &[1, 2]);
}

#[test]
fn array_round_trip_size_mismatch() {
    let v = build::<2>(&[1, 2, 3, 4]);
    let back = v.into_array::<3>().unwrap_err();
    assert_eq!(back.as_slice(), &[1, 2, 3, 4]);
    let a: [i32; 4] = back.into_array().unwrap();
    assert_eq!(a, [1, 2, 3, 4]);
}

#[test]
fn from_array_checks_minimum() {
    assert_eq!(
        VecMin::<i32, 4>::try_from_array([1, 2, 3]),
        Err(ConstructError(vec![1, 2, 3]))
    );
    let v = VecMin::<i32, 2>::try_from_array([5, 6, 7]).unwrap();
    assert_eq!(v.as_slice(), &[5, 6, 7]);
}

#[test]
fn other_constructors() {
    let v = VecMin::<i32, 2>::try_from_slice(&[3, 4]).unwrap();
    assert_eq!(v.as_slice(), &[3, 4]);
    assert!(VecMin::<i32, 3>::try_from_slice(&[3, 4]).is_err());
    let boxed: Box<[i32]> = vec![1, 2, 3].into_boxed_slice();
    let v = VecMin::<i32, 3>::try_from_boxed_slice(boxed).unwrap();
    assert_eq!(v.as_slice(), &[1, 2, 3]);
    let v = VecMin::<i32, 1>::new_unchecked(vec![8]);
    assert_eq!(v.as_slice(), &[8]);
}

#[test]
fn collect_consumes_everything() {
    let v = VecMin::<i32, 2>::collect(1..5).unwrap();
    assert_eq!(v.as_slice(), &[1, 2, 3, 4]);
    assert_eq!(VecMin::<i32, 5>::collect(1..4), Err(ConstructError(vec![1, 2, 3])));
    let v = VecMin::<i32, 1>::collect_with_capacity(vec![7, 8].into_iter(), 10).unwrap();
    assert_eq!(v.as_slice(), &[7, 8]);
    assert!(v.capacity() >= 10);
}

#[test]
fn prefix_view_matches_full_view() {
    let mut v = build::<2>(&[1, 2, 3]);
    assert_eq!(v.min_slice(), &[1, 2]);
    let (head, rest) = v.split_at_min();
    assert_eq!(head, &[1, 2]);
    assert_eq!(rest, &[3]);
    v.min_slice_mut()[0] = 10;
    assert_eq!(v.as_slice(), &[10, 2, 3]);
    let (head, rest) = v.split_at_min_mut();
    head[1] = 20;
    rest[0] = 30;
    assert_eq!(v.as_slice(), &[10, 20, 30]);
    v.as_mut_slice()[2] = 31;
    assert_eq!(v.as_slice(), &[10, 20, 31]);
    let w = build::<0>(&[4]);
    assert_eq!(w.min_slice(), &[] as &[i32; 0]);
}

#[test]
fn growth_keeps_elements() {
    let mut v = build::<1>(&[1]);
    v.push(2);
    v.insert(0, 0);
    let mut other = vec![3, 4];
    v.append(&mut other);
    assert!(other.is_empty());
    v.extend_from_slice(&[5]);
    v.extend_from_within(1..3);
    assert_eq!(v.as_slice(), &[0, 1, 2, 3, 4, 5, 1, 2]);
}

#[test]
fn capacity_changes_keep_elements() {
    let mut v = build::<1>(&[1, 2]);
    v.reserve(10);
    assert!(v.capacity() >= 12);
    v.reserve_exact(20);
    assert!(v.capacity() >= 22);
    assert!(v.try_reserve(5).is_ok());
    assert!(v.try_reserve_exact(5).is_ok());
    v.shrink_to(4);
    assert!(v.capacity() >= 4);
    v.shrink_to_fit();
    assert!(v.capacity() >= 2);
    assert_eq!(v.spare_capacity_mut().len(), v.capacity() - 2);
    assert_eq!(v.as_slice(), &[1, 2]);
}

#[test]
fn teardown_keeps_elements() {
    let v = build::<1>(&[1, 2]);
    assert_eq!(&*v.clone().into_boxed_slice(), &[1, 2]);
    let leaked = v.leak();
    assert_eq!(leaked, &[1, 2]);
}

#[test]
fn default_has_minimum_length() {
    let v: VecMin<i32, 3> = Default::default();
    assert_eq!(v.as_slice(), &[0, 0, 0]);
}

#[test]
fn resolve_range_edges() {
    assert_eq!(resolve_range(Bound::Excluded(1), Bound::Included(2), 5), Some(2..3));
    assert_eq!(resolve_range(Bound::Excluded(usize::MAX), Bound::Unbounded, 5), None);
    assert_eq!(resolve_range(Bound::Included(0), Bound::Included(usize::MAX), 5), None);
    assert_eq!(resolve_range(Bound::Included(3), Bound::Excluded(2), 5), None);
    assert_eq!(resolve_range(Bound::Unbounded, Bound::Excluded(6), 5), None);
    assert_eq!(slice_range(&(2..=9), ..5), None);
}

#[test]
fn extend_appends_everything() {
    let mut v = build::<1>(&[1]);
    v.extend(vec![2, 3].into_iter());
    v.extend(4..6);
    assert_eq!(v.as_slice(), &[1, 2, 3, 4, 5]);
}

#[test]
fn collect_with_capacity_adds_minimum() {
    let v = VecMin::<i32, 3>::collect_with_capacity(vec![1, 2, 3].into_iter(), 5).unwrap();
    assert!(v.capacity() >= 8);
}

#[test]
fn error_messages() {
    let e: ModifyError<42> = ModifyError;
    assert_eq!(e.message(), "operation would reduce length below minimum required 42");
    let c = VecMin::<i32, 5>::new(vec![1, 2]).unwrap_err();
    assert_eq!(c.message(), "Length 2 of [1, 2] is less than the minimum 5");
}
