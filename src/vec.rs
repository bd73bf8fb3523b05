//! The container, its constructors, and its operations.
use vstd::prelude::*;

use core::mem::MaybeUninit;
use core::ops::Range;
use std::collections::TryReserveError;

use crate::{decimal, ModifyError};

verus! {

/// A `Vec<T>` that always holds at least `M` elements.
#[derive(Clone, Debug, PartialEq, Eq, PartialOrd, Ord, Hash)]
pub struct VecMin<T, const M: usize> {
    vec: Vec<T>,
}

/// A `VecMin` that is never empty.
pub type VecOne<T> = VecMin<T, 1>;

/// The error of a construction from fewer than `M` elements: it hands the input back.
#[derive(Clone, Debug, PartialEq, Eq, PartialOrd, Ord, Hash)]
pub struct ConstructError<T, const M: usize>(pub Vec<T>);

impl<T: core::fmt::Debug, const M: usize> ConstructError<T, M> {
    /// What went wrong, in words: the length, the elements, and the minimum.
    pub fn message(&self) -> (r: String)
        ensures
            exists|shown: Seq<char>|
                r@ == "Length "@ + decimal(self.0@.len()) + " of "@ + shown
                    + " is less than the minimum "@ + decimal(M as nat),
    {
        too_short_text(&self.0, M)
    }
}

impl<T, const M: usize> View for VecMin<T, M> {
    type V = Seq<T>;

    closed spec fn view(&self) -> Seq<T> {
        self.vec@
    }
}

impl<T, const M: usize> VecMin<T, M> {
    /// The invariant of the type: at least `M` elements.
    pub open spec fn wf(&self) -> bool {
        self@.len() >= M
    }

    /// Wraps `vec`, or hands it back when it holds fewer than `M` elements.
    pub fn new(vec: Vec<T>) -> (r: Result<Self, ConstructError<T, M>>)
        ensures
            vec@.len() >= M ==> (r matches Ok(v) && v.wf() && v@ == vec@),
            vec@.len() < M ==> (r matches Err(e) && e.0@ == vec@),
    {
        if vec.len() >= M {
            Ok(VecMin { vec })
        } else {
            Err(ConstructError(vec))
        }
    }

    /// Wraps `vec`, which the caller knows holds at least `M` elements.
    pub fn new_unchecked(vec: Vec<T>) -> (r: Self)
        requires
            vec@.len() >= M,
        ensures
            r.wf(),
            r@ == vec@,
    {
        VecMin { vec }
    }

    /// Collects `iter` into a new vector and wraps it, or hands it back when it holds fewer than
    /// `M` elements. The whole of `iter` is consumed either way; room for at least `M` elements,
    /// and for as many as `iter` says it has, is made first.
    pub fn collect<I: Iterator<Item = T>>(iter: I) -> (r: Result<Self, ConstructError<T, M>>)
        ensures
            r matches Ok(v) ==> v.wf(),
            r matches Err(e) ==> e.0@.len() < M,
    {
        let hint = size_hint_lower(&iter);
        Self::collect_into(iter, if hint >= M { hint } else { M })
    }

    /// Collects `iter` into a new vector and wraps it, or hands it back when it holds fewer than
    /// `M` elements. Room for `capacity` elements beyond `M` is made first (saturating at
    /// `usize::MAX`).
    pub fn collect_with_capacity<I: Iterator<Item = T>>(iter: I, capacity: usize) -> (r: Result<
        Self,
        ConstructError<T, M>,
    >)
        ensures
            r matches Ok(v) ==> v.wf(),
            r matches Err(e) ==> e.0@.len() < M,
    {
        let room = if capacity > usize::MAX - M {
            usize::MAX
        } else {
            capacity + M
        };
        Self::collect_into(iter, room)
    }

    /// Collects `iter` into a new vector made with room for `room` elements, then checks it.
    fn collect_into<I: Iterator<Item = T>>(iter: I, room: usize) -> (r: Result<
        Self,
        ConstructError<T, M>,
    >)
        ensures
            r matches Ok(v) ==> v.wf(),
            r matches Err(e) ==> e.0@.len() < M,
    {
        let mut vec: Vec<T> = Vec::with_capacity(room);
        vec_extend(&mut vec, iter);
        Self::new(vec)
    }

    /// Wraps a copy of the elements of `slice`, or hands them back when there are fewer than `M`.
    pub fn try_from_slice(slice: &[T]) -> (r: Result<Self, ConstructError<T, M>>)
        where
            T: Clone,
        ensures
            slice@.len() >= M ==> (r matches Ok(v) && v.wf() && extended_by_clones(
                Seq::empty(),
                v@,
                slice@,
            )),
            slice@.len() < M ==> (r matches Err(e) && extended_by_clones(Seq::empty(), e.0@, slice@)),
    {
        let mut vec: Vec<T> = Vec::new();
        vec.extend_from_slice(slice);
        Self::new(vec)
    }

    /// Wraps the elements of a boxed slice, or hands them back when there are fewer than `M`.
    pub fn try_from_boxed_slice(boxed: Box<[T]>) -> (r: Result<Self, ConstructError<T, M>>)
        ensures
            boxed@.len() >= M ==> (r matches Ok(v) && v.wf() && v@ == boxed@),
            boxed@.len() < M ==> (r matches Err(e) && e.0@ == boxed@),
    {
        Self::new(boxed.into_vec())
    }

    /// Wraps the elements of an array, or hands them back when there are fewer than `M`.
    pub fn try_from_array<const N: usize>(array: [T; N]) -> (r: Result<Self, ConstructError<T, M>>)
        ensures
            N >= M ==> (r matches Ok(v) && v.wf() && v@ == array@),
            N < M ==> (r matches Err(e) && e.0@ == array@),
    {
        Self::new(array_to_vec(array))
    }

    /// Moves the elements into an array of length `N`, or hands the container back unchanged when
    /// its length is not `N`.
    pub fn into_array<const N: usize>(self) -> (r: Result<[T; N], Self>)
        requires
            self.wf(),
        ensures
            self@.len() == N ==> (r matches Ok(a) && a@ == self@),
            self@.len() != N ==> (r matches Err(v) && v.wf() && v@ == self@),
    {
        match vec_to_array(self.vec) {
            Ok(a) => Ok(a),
            Err(vec) => Err(VecMin { vec }),
        }
    }

    /// Gives up the minimum and returns the elements as a plain vector.
    pub fn into_inner(self) -> (r: Vec<T>)
        ensures
            r@ == self@,
    {
        self.vec
    }

    /// Returns the elements as a boxed slice.
    pub fn into_boxed_slice(self) -> (r: Box<[T]>)
        ensures
            r@ == self@,
    {
        vec_into_boxed_slice(self.vec)
    }

    /// Leaks the storage and returns the elements as a slice that lives for the whole program.
    pub fn leak(self) -> (r: &'static mut [T])
        ensures
            r@ == self@,
    {
        vec_leak(self.vec)
    }

    /// The minimum length, `M`.
    pub fn min_len(&self) -> (r: usize)
        ensures
            r == M,
    {
        M
    }

    /// The elements as a slice.
    pub fn as_slice(&self) -> (r: &[T])
        ensures
            r@ == self@,
    {
        self.vec.as_slice()
    }

    /// The elements as a mutable slice; changing them leaves the length as it is.
    pub fn as_mut_slice(&mut self) -> (r: &mut [T])
        requires
            old(self).wf(),
        ensures
            r@ == old(self)@,
            final(self)@ == final(r)@,
            final(self).wf(),
    {
        slice_of_vec_mut(&mut self.vec)
    }

    /// The first `M` elements, which always exist, as an array.
    pub fn min_slice(&self) -> (r: &[T; M])
        requires
            self.wf(),
        ensures
            r@ == self@.subrange(0, M as int),
    {
        match first_chunk_of::<T, M>(self.vec.as_slice()) {
            Some(a) => a,
            None => vstd::pervasive::unreached(),
        }
    }

    /// The first `M` elements, which always exist, as a mutable array.
    pub fn min_slice_mut(&mut self) -> (r: &mut [T; M])
        requires
            old(self).wf(),
        ensures
            r@ == old(self)@.subrange(0, M as int),
            final(self)@ == final(r)@ + old(self)@.subrange(M as int, old(self)@.len() as int),
            final(self).wf(),
    {
        match first_chunk_mut_of::<T, M>(self.vec.as_mut_slice()) {
            Some(a) => a,
            None => vstd::pervasive::unreached(),
        }
    }

    /// The first `M` elements as an array, and the rest as a slice.
    pub fn split_at_min(&self) -> (r: (&[T; M], &[T]))
        requires
            self.wf(),
        ensures
            r.0@ == self@.subrange(0, M as int),
            r.1@ == self@.subrange(M as int, self@.len() as int),
    {
        match split_first_chunk_of::<T, M>(self.vec.as_slice()) {
            Some(parts) => parts,
            None => vstd::pervasive::unreached(),
        }
    }

    /// The first `M` elements as a mutable array, and the rest as a mutable slice.
    pub fn split_at_min_mut(&mut self) -> (r: (&mut [T; M], &mut [T]))
        requires
            old(self).wf(),
        ensures
            r.0@ == old(self)@.subrange(0, M as int),
            r.1@ == old(self)@.subrange(M as int, old(self)@.len() as int),
            final(self)@ == final(r.0)@ + final(r.1)@,
            final(self).wf(),
    {
        match split_first_chunk_mut_of::<T, M>(self.vec.as_mut_slice()) {
            Some(parts) => parts,
            None => vstd::pervasive::unreached(),
        }
    }

    /// The unused part of the storage; writing there changes no element.
    pub fn spare_capacity_mut(&mut self) -> (r: &mut [MaybeUninit<T>])
        requires
            old(self).wf(),
        ensures
            final(self)@ == old(self)@,
            final(self).wf(),
    {
        vec_spare_capacity_mut(&mut self.vec)
    }

    /// How many elements the storage holds room for.
    pub fn capacity(&self) -> (r: usize)
        ensures
            r >= self@.len(),
    {
        vec_capacity(&self.vec)
    }

    /// The number of elements.
    pub fn len(&self) -> (r: usize)
        ensures
            r == self@.len(),
    {
        self.vec.len()
    }

    /// Makes room for at least `additional` more elements.
    pub fn reserve(&mut self, additional: usize)
        requires
            old(self).wf(),
        ensures
            final(self)@ == old(self)@,
            final(self).wf(),
    {
        self.vec.reserve(additional);
    }

    /// Makes room for exactly `additional` more elements, as far as the allocator allows.
    pub fn reserve_exact(&mut self, additional: usize)
        requires
            old(self).wf(),
        ensures
            final(self)@ == old(self)@,
            final(self).wf(),
    {
        vec_reserve_exact(&mut self.vec, additional);
    }

    /// Tries to make room for at least `additional` more elements; the elements stay either way.
    pub fn try_reserve(&mut self, additional: usize) -> (r: Result<(), TryReserveError>)
        requires
            old(self).wf(),
        ensures
            final(self)@ == old(self)@,
            final(self).wf(),
    {
        self.vec.try_reserve(additional)
    }

    /// Tries to make room for exactly `additional` more elements; the elements stay either way.
    pub fn try_reserve_exact(&mut self, additional: usize) -> (r: Result<(), TryReserveError>)
        requires
            old(self).wf(),
        ensures
            final(self)@ == old(self)@,
            final(self).wf(),
    {
        vec_try_reserve_exact(&mut self.vec, additional)
    }

    /// Gives back as much unused room as the allocator allows.
    pub fn shrink_to_fit(&mut self)
        requires
            old(self).wf(),
        ensures
            final(self)@ == old(self)@,
            final(self).wf(),
    {
        vec_shrink_to_fit(&mut self.vec);
    }

    /// Gives back unused room down to `min_capacity`, or to the length if that is larger.
    pub fn shrink_to(&mut self, min_capacity: usize)
        requires
            old(self).wf(),
        ensures
            final(self)@ == old(self)@,
            final(self).wf(),
    {
        vec_shrink_to(&mut self.vec, min_capacity);
    }

    /// Appends `item`.
    pub fn push(&mut self, item: T)
        requires
            old(self).wf(),
        ensures
            final(self)@ == old(self)@.push(item),
            final(self).wf(),
    {
        self.vec.push(item);
    }

    /// Puts `element` at `index`, shifting those after it right.
    pub fn insert(&mut self, index: usize, element: T)
        requires
            old(self).wf(),
            index <= old(self)@.len(),
        ensures
            final(self)@ == old(self)@.insert(index as int, element),
            final(self).wf(),
    {
        self.vec.insert(index, element);
    }

    /// Moves every element of `other` to the end, leaving `other` empty.
    pub fn append(&mut self, other: &mut Vec<T>)
        requires
            old(self).wf(),
        ensures
            final(self)@ == old(self)@ + old(other)@,
            final(other)@ == Seq::<T>::empty(),
            final(self).wf(),
    {
        self.vec.append(other);
    }

    /// Appends everything that `iter` yields; the elements already there stay first.
    pub fn extend<I: Iterator<Item = T>>(&mut self, iter: I)
        requires
            old(self).wf(),
        ensures
            final(self)@.len() >= old(self)@.len(),
            final(self)@.subrange(0, old(self)@.len() as int) == old(self)@,
            final(self).wf(),
    {
        vec_extend(&mut self.vec, iter);
    }

    /// Appends a clone of every element of `other`.
    pub fn extend_from_slice(&mut self, other: &[T])
        where
            T: Clone,
        requires
            old(self).wf(),
        ensures
            extended_by_clones(old(self)@, final(self)@, other@),
            final(self).wf(),
    {
        self.vec.extend_from_slice(other);
    }

    /// Appends a clone of every element in `range`.
    pub fn extend_from_within(&mut self, range: Range<usize>)
        where
            T: Clone,
        requires
            old(self).wf(),
            range.start <= range.end <= old(self)@.len(),
        ensures
            extended_by_clones(
                old(self)@,
                final(self)@,
                old(self)@.subrange(range.start as int, range.end as int),
            ),
            final(self).wf(),
    {
        vec_extend_from_within(&mut self.vec, range);
    }

    /// Removes the last element, unless that would leave fewer than `M`.
    pub fn pop(&mut self) -> (r: Result<Option<T>, ModifyError<M>>)
        requires
            old(self).wf(),
        ensures
            final(self).wf(),
            old(self)@.len() > M ==> r == Ok::<Option<T>, ModifyError<M>>(Some(old(self)@.last()))
                && final(self)@ == old(self)@.drop_last(),
            old(self)@.len() <= M ==> r == Err::<Option<T>, ModifyError<M>>(ModifyError)
                && final(self)@ == old(self)@,
    {
        if self.vec.len() > M {
            Ok(self.vec.pop())
        } else {
            Err(ModifyError)
        }
    }

    /// Removes the last element where more than `M` are left; else changes nothing and gives
    /// `None`.
    pub fn pop_to_min(&mut self) -> (r: Option<T>)
        requires
            old(self).wf(),
        ensures
            final(self).wf(),
            old(self)@.len() > M ==> r == Some(old(self)@.last()) && final(self)@
                == old(self)@.drop_last(),
            old(self)@.len() <= M ==> r == None::<T> && final(self)@ == old(self)@,
    {
        if self.vec.len() > M {
            self.vec.pop()
        } else {
            None
        }
    }

    /// Removes the last element, which the caller knows leaves at least `M`.
    pub fn pop_unchecked(&mut self) -> (r: Option<T>)
        requires
            old(self)@.len() > M,
        ensures
            final(self).wf(),
            r == Some(old(self)@.last()),
            final(self)@ == old(self)@.drop_last(),
    {
        self.vec.pop()
    }

    /// Removes the last element where `pred` holds of it, unless that would leave fewer than
    /// `M`; `pred` is not called then. `pred` may change the element it is shown.
    pub fn pop_if<F: FnOnce(&mut T) -> bool>(&mut self, pred: F) -> (r: Result<
        Option<T>,
        ModifyError<M>,
    >)
        requires
            old(self).wf(),
            old(self)@.len() > M ==> accepts_last(pred, old(self)@),
        ensures
            final(self).wf(),
            old(self)@.len() > M ==> r is Ok,
            old(self)@.len() > M ==> exists|e: &mut T, b: bool|
                {
                    &&& *e == old(self)@.last()
                    &&& call_ensures(pred, (e,), b)
                    &&& b ==> r->Ok_0 == Some(*final(e)) && final(self)@ == old(self)@.drop_last()
                    &&& !b ==> r->Ok_0 is None && final(self)@ == old(self)@.drop_last().push(*final(e))
                },
            old(self)@.len() <= M ==> r is Err && final(self)@ == old(self)@,
    {
        if self.vec.len() > M {
            Ok(pop_last_if(&mut self.vec, pred))
        } else {
            Err(ModifyError)
        }
    }

    /// Removes the last element where more than `M` are left and `pred` holds of it; else gives
    /// `None`. `pred` may change the element it is shown.
    pub fn pop_to_min_if<F: FnOnce(&mut T) -> bool>(&mut self, pred: F) -> (r: Option<T>)
        requires
            old(self).wf(),
            old(self)@.len() > M ==> accepts_last(pred, old(self)@),
        ensures
            final(self).wf(),
            old(self)@.len() > M ==> exists|e: &mut T, b: bool|
                {
                    &&& *e == old(self)@.last()
                    &&& call_ensures(pred, (e,), b)
                    &&& b ==> r == Some(*final(e)) && final(self)@ == old(self)@.drop_last()
                    &&& !b ==> r is None && final(self)@ == old(self)@.drop_last().push(*final(e))
                },
            old(self)@.len() <= M ==> r is None && final(self)@ == old(self)@,
    {
        if self.vec.len() > M {
            pop_last_if(&mut self.vec, pred)
        } else {
            None
        }
    }

    /// Removes the last element where `pred` holds of it; the caller knows that more than `M`
    /// are there. `pred` may change the element it is shown.
    pub fn pop_if_unchecked<F: FnOnce(&mut T) -> bool>(&mut self, pred: F) -> (r: Option<T>)
        requires
            old(self)@.len() > M,
            accepts_last(pred, old(self)@),
        ensures
            final(self).wf(),
            exists|e: &mut T, b: bool|
                {
                    &&& *e == old(self)@.last()
                    &&& call_ensures(pred, (e,), b)
                    &&& b ==> r == Some(*final(e)) && final(self)@ == old(self)@.drop_last()
                    &&& !b ==> r is None && final(self)@ == old(self)@.drop_last().push(*final(e))
                },
    {
        pop_last_if(&mut self.vec, pred)
    }

    /// Removes and returns the element at `index`, shifting those after it left, unless that
    /// would leave fewer than `M`.
    pub fn remove(&mut self, index: usize) -> (r: Result<T, ModifyError<M>>)
        requires
            old(self).wf(),
            old(self)@.len() > M ==> index < old(self)@.len(),
        ensures
            final(self).wf(),
            old(self)@.len() > M ==> r == Ok::<T, ModifyError<M>>(old(self)@[index as int])
                && final(self)@ == old(self)@.remove(index as int),
            old(self)@.len() <= M ==> r == Err::<T, ModifyError<M>>(ModifyError) && final(self)@
                == old(self)@,
    {
        if self.vec.len() > M {
            Ok(self.vec.remove(index))
        } else {
            Err(ModifyError)
        }
    }

    /// Removes and returns the element at `index`, which the caller knows leaves at least `M`.
    pub fn remove_unchecked(&mut self, index: usize) -> (r: T)
        requires
            old(self)@.len() > M,
            index < old(self)@.len(),
        ensures
            final(self).wf(),
            r == old(self)@[index as int],
            final(self)@ == old(self)@.remove(index as int),
    {
        self.vec.remove(index)
    }

    /// Removes and returns the element at `index`, putting the last element in its place, unless
    /// that would leave fewer than `M`.
    pub fn swap_remove(&mut self, index: usize) -> (r: Result<T, ModifyError<M>>)
        requires
            old(self).wf(),
            old(self)@.len() > M ==> index < old(self)@.len(),
        ensures
            final(self).wf(),
            old(self)@.len() > M ==> r == Ok::<T, ModifyError<M>>(old(self)@[index as int])
                && final(self)@ == old(self)@.update(index as int, old(self)@.last()).drop_last(),
            old(self)@.len() <= M ==> r == Err::<T, ModifyError<M>>(ModifyError) && final(self)@
                == old(self)@,
    {
        if self.vec.len() > M {
            Ok(self.vec.swap_remove(index))
        } else {
            Err(ModifyError)
        }
    }

    /// Removes and returns the element at `index`, putting the last element in its place; the
    /// caller knows that this leaves at least `M`.
    pub fn swap_remove_unchecked(&mut self, index: usize) -> (r: T)
        requires
            old(self)@.len() > M,
            index < old(self)@.len(),
        ensures
            final(self).wf(),
            r == old(self)@[index as int],
            final(self)@ == old(self)@.update(index as int, old(self)@.last()).drop_last(),
    {
        self.vec.swap_remove(index)
    }

    /// Keeps the first `len` elements, unless `len` is below `M`.
    pub fn truncate(&mut self, len: usize) -> (r: Result<(), ModifyError<M>>)
        requires
            old(self).wf(),
        ensures
            final(self).wf(),
            len >= M ==> r is Ok && final(self)@ == truncated(old(self)@, len as int),
            len < M ==> r == Err::<(), ModifyError<M>>(ModifyError) && final(self)@ == old(self)@,
    {
        if len >= M {
            self.vec.truncate(len);
            Ok(())
        } else {
            Err(ModifyError)
        }
    }

    /// Keeps the first `len` elements, or the first `M` where `len` is below `M`.
    pub fn truncate_or_min(&mut self, len: usize)
        requires
            old(self).wf(),
        ensures
            final(self).wf(),
            final(self)@ == truncated(old(self)@, if len >= M { len as int } else { M as int }),
            len <= old(self)@.len() ==> final(self)@.len() == if len >= M { len as int } else {
                M as int
            },
    {
        if len >= M {
            self.vec.truncate(len);
        } else {
            self.vec.truncate(M);
        }
    }

    /// Keeps the first `M` elements.
    pub fn truncate_to_min(&mut self)
        requires
            old(self).wf(),
        ensures
            final(self).wf(),
            final(self)@ == old(self)@.subrange(0, M as int),
    {
        self.vec.truncate(M);
    }

    /// Keeps the first `len` elements; the caller knows that `len` is at least `M`.
    pub fn truncate_unchecked(&mut self, len: usize)
        requires
            old(self).wf(),
            len >= M,
        ensures
            final(self).wf(),
            final(self)@ == truncated(old(self)@, len as int),
    {
        self.vec.truncate(len);
    }

    /// Splits off the elements from `at` on and returns them, unless `at` is below `M`.
    pub fn split_off(&mut self, at: usize) -> (r: Result<Vec<T>, ModifyError<M>>)
        requires
            old(self).wf(),
            at >= M ==> at <= old(self)@.len(),
        ensures
            final(self).wf(),
            at >= M ==> (r matches Ok(tail) && tail@ == old(self)@.subrange(at as int, old(self)@.len() as int))
                && final(self)@ == old(self)@.subrange(0, at as int),
            at < M ==> r is Err && final(self)@ == old(self)@,
    {
        if at >= M {
            Ok(self.vec.split_off(at))
        } else {
            Err(ModifyError)
        }
    }

    /// Splits off the elements from `at` on and returns them; the caller knows that `at` is at
    /// least `M`.
    pub fn split_off_unchecked(&mut self, at: usize) -> (r: Vec<T>)
        requires
            M <= at <= old(self)@.len(),
        ensures
            final(self).wf(),
            r@ == old(self)@.subrange(at as int, old(self)@.len() as int),
            final(self)@ == old(self)@.subrange(0, at as int),
    {
        self.vec.split_off(at)
    }

    /// Sets the length to `new_len`: drops elements past it, or appends clones of `value`.
    /// Refuses a `new_len` below `M`.
    pub fn resize(&mut self, new_len: usize, value: T) -> (r: Result<(), ModifyError<M>>)
        where
            T: Clone,
        requires
            old(self).wf(),
        ensures
            final(self).wf(),
            new_len >= M ==> r is Ok && resized(old(self)@, final(self)@, new_len as int, value),
            new_len < M ==> r == Err::<(), ModifyError<M>>(ModifyError) && final(self)@ == old(
                self,
            )@,
    {
        if new_len >= M {
            self.vec.resize(new_len, value);
            Ok(())
        } else {
            Err(ModifyError)
        }
    }

    /// Sets the length to `new_len`, or to `M` where `new_len` is below `M`, appending clones of
    /// `value` where it grows.
    pub fn resize_or_min(&mut self, new_len: usize, value: T)
        where
            T: Clone,
        requires
            old(self).wf(),
        ensures
            final(self).wf(),
            resized(
                old(self)@,
                final(self)@,
                if new_len >= M { new_len as int } else { M as int },
                value,
            ),
            final(self)@.len() == if new_len >= M { new_len as int } else { M as int },
    {
        if new_len >= M {
            self.vec.resize(new_len, value);
        } else {
            self.vec.resize(M, value);
        }
    }

    /// Sets the length to `new_len`, appending clones of `value` where it grows; the caller knows
    /// that `new_len` is at least `M`.
    pub fn resize_unchecked(&mut self, new_len: usize, value: T)
        where
            T: Clone,
        requires
            old(self).wf(),
            new_len >= M,
        ensures
            final(self).wf(),
            resized(old(self)@, final(self)@, new_len as int, value),
    {
        self.vec.resize(new_len, value);
    }

    /// Sets the length to `new_len`, filling new slots with what `generator` makes. Refuses a
    /// `new_len` below `M`.
    pub fn resize_with<F>(&mut self, new_len: usize, generator: F) -> (r: Result<(), ModifyError<M>>)
        where
            F: FnMut() -> T,
        requires
            old(self).wf(),
            call_requires(generator, ()),
        ensures
            final(self).wf(),
            new_len >= M ==> r is Ok && resized_with(old(self)@, final(self)@, new_len as int, generator),
            new_len < M ==> r == Err::<(), ModifyError<M>>(ModifyError) && final(self)@ == old(
                self,
            )@,
    {
        if new_len >= M {
            resize_by_calls(&mut self.vec, new_len, generator);
            Ok(())
        } else {
            Err(ModifyError)
        }
    }

    /// Sets the length to `new_len`, or to `M` where `new_len` is below `M`, filling new slots
    /// with what `generator` makes.
    pub fn resize_or_min_with<F>(&mut self, new_len: usize, generator: F)
        where
            F: FnMut() -> T,
        requires
            old(self).wf(),
            call_requires(generator, ()),
        ensures
            final(self).wf(),
            resized_with(
                old(self)@,
                final(self)@,
                if new_len >= M { new_len as int } else { M as int },
                generator,
            ),
    {
        if new_len >= M {
            resize_by_calls(&mut self.vec, new_len, generator);
        } else {
            resize_by_calls(&mut self.vec, M, generator);
        }
    }

    /// Sets the length to `new_len`, filling new slots with what `generator` makes; the caller
    /// knows that `new_len` is at least `M`.
    pub fn resize_with_unchecked<F>(&mut self, new_len: usize, generator: F)
        where
            F: FnMut() -> T,
        requires
            old(self).wf(),
            new_len >= M,
            call_requires(generator, ()),
        ensures
            final(self).wf(),
            resized_with(old(self)@, final(self)@, new_len as int, generator),
    {
        resize_by_calls(&mut self.vec, new_len, generator);
    }

    /// Removes the elements in `range` and returns them in order, unless that would leave fewer
    /// than `M`.
    pub fn drain(&mut self, range: Range<usize>) -> (r: Result<Vec<T>, ModifyError<M>>)
        requires
            old(self).wf(),
            range.start <= range.end <= old(self)@.len(),
        ensures
            final(self).wf(),
            old(self)@.len() - (range.end - range.start) >= M ==> {
                &&& r matches Ok(gone)
                &&& gone@ == old(self)@.subrange(range.start as int, range.end as int)
                &&& final(self)@ == drained(old(self)@, range.start as int, range.end as int)
            },
            old(self)@.len() - (range.end - range.start) < M ==> r is Err && final(self)@ == old(
                self,
            )@,
    {
        let final_len = self.vec.len() - (range.end - range.start);
        if final_len >= M {
            Ok(self.drain_unchecked(range))
        } else {
            Err(ModifyError)
        }
    }

    /// Removes the elements in `range` and returns them in order; the caller knows that at least
    /// `M` are left.
    pub fn drain_unchecked(&mut self, range: Range<usize>) -> (r: Vec<T>)
        requires
            range.start <= range.end <= old(self)@.len(),
            old(self)@.len() - (range.end - range.start) >= M,
        ensures
            final(self).wf(),
            r@ == old(self)@.subrange(range.start as int, range.end as int),
            final(self)@ == drained(old(self)@, range.start as int, range.end as int),
    {
        let mut tail = self.vec.split_off(range.end);
        let gone = self.vec.split_off(range.start);
        self.vec.append(&mut tail);
        gone
    }

    /// Replaces the elements in `range` by those of `replace_with` and returns the elements it
    /// took out, unless that would leave fewer than `M`.
    pub fn splice(&mut self, range: Range<usize>, replace_with: Vec<T>) -> (r: Result<
        Vec<T>,
        ModifyError<M>,
    >)
        requires
            old(self).wf(),
            range.start <= range.end <= old(self)@.len(),
        ensures
            final(self).wf(),
            old(self)@.len() - (range.end - range.start) + replace_with@.len() >= M ==> {
                &&& r matches Ok(gone)
                &&& gone@ == old(self)@.subrange(range.start as int, range.end as int)
                &&& final(self)@ == spliced(old(self)@, range.start as int, range.end as int, replace_with@)
            },
            old(self)@.len() - (range.end - range.start) + replace_with@.len() < M ==> r is Err
                && final(self)@ == old(self)@,
    {
        let kept = self.vec.len() - (range.end - range.start);
        if kept >= M || replace_with.len() >= M - kept {
            Ok(self.splice_unchecked(range, replace_with))
        } else {
            Err(ModifyError)
        }
    }

    /// Replaces the elements in `range` by those of `replace_with` and returns the elements it
    /// took out; the caller knows that at least `M` are left.
    pub fn splice_unchecked(&mut self, range: Range<usize>, replace_with: Vec<T>) -> (r: Vec<T>)
        requires
            range.start <= range.end <= old(self)@.len(),
            old(self)@.len() - (range.end - range.start) + replace_with@.len() >= M,
        ensures
            final(self).wf(),
            r@ == old(self)@.subrange(range.start as int, range.end as int),
            final(self)@ == spliced(old(self)@, range.start as int, range.end as int, replace_with@),
    {
        let mut replace_with = replace_with;
        let mut tail = self.vec.split_off(range.end);
        let gone = self.vec.split_off(range.start);
        self.vec.append(&mut replace_with);
        self.vec.append(&mut tail);
        gone
    }
}

/// `after` is `before` set to length `len`: cut where `len` is shorter, else extended by clones
/// of `value`.
pub open spec fn resized<T: Clone>(before: Seq<T>, after: Seq<T>, len: int, value: T) -> bool {
    &&& after.len() == len
    &&& kept_up_to(before, after, len)
    &&& forall|i: int| before.len() <= i < len ==> cloned::<T>(value, #[trigger] after[i])
}

/// `after` has length `len` and agrees with `before` on every index below both lengths.
pub open spec fn kept_up_to<T>(before: Seq<T>, after: Seq<T>, len: int) -> bool {
    &&& after.len() == len
    &&& forall|i: int| 0 <= i < len && i < before.len() ==> #[trigger] after[i] == before[i]
}

/// `s` without the elements at indices `start` up to `end`.
pub open spec fn drained<T>(s: Seq<T>, start: int, end: int) -> Seq<T> {
    s.subrange(0, start) + s.subrange(end, s.len() as int)
}

/// `s` with the elements at indices `start` up to `end` replaced by `with`.
pub open spec fn spliced<T>(s: Seq<T>, start: int, end: int, with: Seq<T>) -> Seq<T> {
    s.subrange(0, start) + with + s.subrange(end, s.len() as int)
}

/// Construction from a vector succeeds exactly when it holds at least `M` elements; taking the
/// container apart again gives back the same elements, and a refusal hands back the input as it
/// was.
pub proof fn lemma_construct_round_trip<T, const M: usize>(
    vec: Vec<T>,
    built: Result<VecMin<T, M>, ConstructError<T, M>>,
    back: Vec<T>,
)
    requires
        call_ensures(VecMin::<T, M>::new, (vec,), built),
        built is Ok ==> call_ensures(VecMin::<T, M>::into_inner, (built->Ok_0,), back),
    ensures
        built is Ok <==> vec@.len() >= M,
        built is Ok ==> back@ == vec@,
        built matches Err(e) ==> e.0@ == vec@,
{
}

impl<T: Default, const M: usize> Default for VecMin<T, M> {
    /// `M` default elements.
    fn default() -> (r: Self)
        ensures
            r.wf(),
            r@.len() == M,
            forall|i: int| 0 <= i < M ==> call_ensures(T::default, (), #[trigger] r@[i]),
    {
        let mut vec: Vec<T> = Vec::with_capacity(M);
        let mut i: usize = 0;
        while i < M
            invariant
                i <= M,
                vec@.len() == i,
                forall|j: int| 0 <= j < i ==> call_ensures(T::default, (), #[trigger] vec@[j]),
            decreases M - i,
        {
            vec.push(T::default());
            i += 1;
        }
        VecMin { vec }
    }
}

/// `after` is `before` followed by a clone of each element of `added`.
pub open spec fn extended_by_clones<T: Clone>(before: Seq<T>, after: Seq<T>, added: Seq<T>) -> bool {
    &&& after.len() == before.len() + added.len()
    &&& forall|i: int| 0 <= i < before.len() ==> #[trigger] after[i] == before[i]
    &&& forall|i: int|
        before.len() <= i < after.len() ==> cloned::<T>(added[i - before.len()], #[trigger] after[i])
}

/// `pred` may be called on the last element of `s`, whatever it leaves there.
pub open spec fn accepts_last<T, F: FnOnce(&mut T) -> bool>(pred: F, s: Seq<T>) -> bool {
    forall|e: &mut T| *e == s.last() ==> call_requires(pred, (e,))
}

/// Shows `pred` the last element of the non-empty `v`, and pops it where `pred` says so.
fn pop_last_if<T, F: FnOnce(&mut T) -> bool>(v: &mut Vec<T>, pred: F) -> (r: Option<T>)
    requires
        old(v)@.len() > 0,
        accepts_last(pred, old(v)@),
    ensures
        exists|e: &mut T, b: bool|
            {
                &&& *e == old(v)@.last()
                &&& call_ensures(pred, (e,), b)
                &&& b ==> r == Some(*final(e)) && final(v)@ == old(v)@.drop_last()
                &&& !b ==> r is None && final(v)@ == old(v)@.drop_last().push(*final(e))
            },
{
    let n = v.len();
    let last = &mut v[n - 1];
    let keep = pred(last);
    if keep {
        v.pop()
    } else {
        None
    }
}

/// `after` is `before` set to length `len`: cut where `len` is shorter, else extended by values
/// that `generator` returns.
pub open spec fn resized_with<T, F: FnMut() -> T>(
    before: Seq<T>,
    after: Seq<T>,
    len: int,
    generator: F,
) -> bool {
    &&& kept_up_to(before, after, len)
    &&& forall|i: int| before.len() <= i < len ==> call_ensures(generator, (), #[trigger] after[i])
}

/// Sets the length of `v` to `new_len`, calling `generator` once for each new slot, in order.
fn resize_by_calls<T, F: FnMut() -> T>(v: &mut Vec<T>, new_len: usize, generator: F)
    requires
        call_requires(generator, ()),
    ensures
        resized_with(old(v)@, final(v)@, new_len as int, generator),
{
    if new_len <= v.len() {
        v.truncate(new_len);
        return;
    }
    let mut make = generator;
    while v.len() < new_len
        invariant
            make == generator,
            call_requires(generator, ()),
            old(v)@.len() <= v@.len() <= new_len,
            forall|i: int| 0 <= i < old(v)@.len() ==> #[trigger] v@[i] == old(v)@[i],
            forall|i: int|
                old(v)@.len() <= i < v@.len() ==> call_ensures(generator, (), #[trigger] v@[i]),
        decreases new_len - v@.len(),
    {
        let x = make();
        v.push(x);
    }
}

/// Relies on `Vec::reserve_exact`: the elements stay.
#[verifier::external_body]
fn vec_reserve_exact<T>(v: &mut Vec<T>, additional: usize)
    ensures
        final(v)@ == old(v)@,
{
    v.reserve_exact(additional)
}

/// Relies on `Vec::try_reserve_exact`: the elements stay, whether or not room was made.
#[verifier::external_body]
fn vec_try_reserve_exact<T>(v: &mut Vec<T>, additional: usize) -> (r: Result<(), TryReserveError>)
    ensures
        final(v)@ == old(v)@,
{
    v.try_reserve_exact(additional)
}

/// Relies on `Vec::shrink_to_fit`: the elements stay.
#[verifier::external_body]
fn vec_shrink_to_fit<T>(v: &mut Vec<T>)
    ensures
        final(v)@ == old(v)@,
{
    v.shrink_to_fit()
}

/// Relies on `Vec::shrink_to`: the elements stay.
#[verifier::external_body]
fn vec_shrink_to<T>(v: &mut Vec<T>, min_capacity: usize)
    ensures
        final(v)@ == old(v)@,
{
    v.shrink_to(min_capacity)
}

/// Relies on `Vec::extend_from_within`: a clone of each element in `range` is appended.
#[verifier::external_body]
fn vec_extend_from_within<T: Clone>(v: &mut Vec<T>, range: Range<usize>)
    requires
        range.start <= range.end <= old(v)@.len(),
    ensures
        extended_by_clones(old(v)@, final(v)@, old(v)@.subrange(range.start as int, range.end as int)),
{
    v.extend_from_within(range)
}

/// Relies on `Vec::as_mut_slice`: the elements, whose number a change through the slice keeps.
#[verifier::external_body]
fn slice_of_vec_mut<T>(v: &mut Vec<T>) -> (r: &mut [T])
    ensures
        r@ == old(v)@,
        final(v)@ == final(r)@,
        final(r)@.len() == r@.len(),
{
    v.as_mut_slice()
}

/// Relies on `<[T]>::first_chunk`: the first `N` elements, where there are that many.
#[verifier::external_body]
fn first_chunk_of<T, const N: usize>(s: &[T]) -> (r: Option<&[T; N]>)
    ensures
        r is Some <==> s@.len() >= N,
        r matches Some(a) ==> a@ == s@.subrange(0, N as int),
{
    s.first_chunk::<N>()
}

/// Relies on `<[T]>::first_chunk_mut`: the first `N` elements, where there are that many; the
/// rest is left as it is.
#[verifier::external_body]
fn first_chunk_mut_of<T, const N: usize>(s: &mut [T]) -> (r: Option<&mut [T; N]>)
    ensures
        r is Some <==> old(s)@.len() >= N,
        r is Some ==> r.unwrap()@ == old(s)@.subrange(0, N as int),
        r is Some ==> final(s)@ == final(r.unwrap())@ + old(s)@.subrange(N as int, old(s)@.len() as int),
{
    s.first_chunk_mut::<N>()
}

/// Relies on `<[T]>::split_first_chunk`: the first `N` elements and the rest, where there are
/// that many.
#[verifier::external_body]
fn split_first_chunk_of<T, const N: usize>(s: &[T]) -> (r: Option<(&[T; N], &[T])>)
    ensures
        r is Some <==> s@.len() >= N,
        r matches Some(p) ==> p.0@ == s@.subrange(0, N as int),
        r matches Some(p) ==> p.1@ == s@.subrange(N as int, s@.len() as int),
{
    s.split_first_chunk::<N>()
}

/// Relies on `<[T]>::split_first_chunk_mut`: the first `N` elements and the rest, where there
/// are that many; the rest keeps its length.
#[verifier::external_body]
fn split_first_chunk_mut_of<T, const N: usize>(s: &mut [T]) -> (r: Option<(&mut [T; N], &mut [T])>)
    ensures
        r is Some <==> old(s)@.len() >= N,
        r is Some ==> r.unwrap().0@ == old(s)@.subrange(0, N as int),
        r is Some ==> r.unwrap().1@ == old(s)@.subrange(N as int, old(s)@.len() as int),
        r is Some ==> final(s)@ == final(r.unwrap().0)@ + final(r.unwrap().1)@,
        r is Some ==> final(r.unwrap().1)@.len() == r.unwrap().1@.len(),
{
    s.split_first_chunk_mut::<N>()
}

/// Relies on `format!` writing a `usize` as its decimal digits; how the elements are shown is
/// up to their `Debug`.
#[verifier::external_body]
fn too_short_text<T: core::fmt::Debug>(v: &Vec<T>, min: usize) -> (r: String)
    ensures
        exists|shown: Seq<char>|
            r@ == "Length "@ + decimal(v@.len()) + " of "@ + shown + " is less than the minimum "@
                + decimal(min as nat),
{
    format!("Length {} of {:?} is less than the minimum {}", v.len(), v, min)
}

/// Relies on `Iterator::size_hint`: its lower bound, a guess that may be wrong.
#[verifier::external_body]
fn size_hint_lower<I: Iterator>(iter: &I) -> usize {
    iter.size_hint().0
}

/// Relies on `Vec::extend`: what `iter` yields goes after the elements already there.
#[verifier::external_body]
fn vec_extend<T, I: Iterator<Item = T>>(v: &mut Vec<T>, iter: I)
    ensures
        final(v)@.len() >= old(v)@.len(),
        final(v)@.subrange(0, old(v)@.len() as int) == old(v)@,
{
    v.extend(iter)
}

/// Relies on `Vec::from` for arrays: the elements, in order.
#[verifier::external_body]
fn array_to_vec<T, const N: usize>(array: [T; N]) -> (r: Vec<T>)
    ensures
        r@ == array@,
{
    Vec::from(array)
}

/// Relies on `TryFrom<Vec<T>>` for arrays: the elements where the length is `N`, else the
/// vector unchanged.
#[verifier::external_body]
fn vec_to_array<T, const N: usize>(v: Vec<T>) -> (r: Result<[T; N], Vec<T>>)
    ensures
        r is Ok <==> v@.len() == N,
        r matches Ok(a) ==> a@ == v@,
        r matches Err(w) ==> w@ == v@,
{
    <[T; N]>::try_from(v)
}

/// Relies on `Vec::into_boxed_slice`: the elements, in order.
#[verifier::external_body]
fn vec_into_boxed_slice<T>(v: Vec<T>) -> (r: Box<[T]>)
    ensures
        r@ == v@,
{
    v.into_boxed_slice()
}

/// Relies on `Vec::leak`: the elements, in order.
#[verifier::external_body]
fn vec_leak<T>(v: Vec<T>) -> (r: &'static mut [T])
    ensures
        r@ == v@,
{
    v.leak()
}

/// Relies on `Vec::spare_capacity_mut`: what is written there is past the length.
#[verifier::external_body]
fn vec_spare_capacity_mut<T>(v: &mut Vec<T>) -> (r: &mut [MaybeUninit<T>])
    ensures
        final(v)@ == old(v)@,
{
    v.spare_capacity_mut()
}

/// Relies on `Vec::capacity`: never below the length.
#[verifier::external_body]
fn vec_capacity<T>(v: &Vec<T>) -> (r: usize)
    ensures
        r >= v@.len(),
{
    v.capacity()
}


/// The first `len` elements of `s`, or all of them where `s` is shorter.
pub open spec fn truncated<T>(s: Seq<T>, len: int) -> Seq<T> {
    if len < s.len() {
        s.subrange(0, len)
    } else {
        s
    }
}

} // verus!
