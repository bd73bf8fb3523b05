//! A growable vector whose length never falls below a minimum fixed by its type.
//!
//! [`VecMin<T, M>`] wraps a `Vec<T>` and keeps at least `M` elements in it. Operations that
//! cannot shorten it are always allowed. Each one that can comes in up to three forms: a guarded
//! one that refuses with [`ModifyError`] and leaves the container as it was, a clamped one
//! (`..._or_min`, `..._to_min`) that stops at `M`, and an unchecked one whose precondition says
//! that at least `M` elements are left. Filtering operations such as `retain` and `dedup` are
//! not offered: how many elements they leave is only known once they have run.
use vstd::prelude::*;

use core::ops::{Bound, Range, RangeBounds, RangeTo};

pub mod vec;

pub use vec::{ConstructError, VecMin, VecOne};

verus! {

/// Lets `core::ops::Bound` stand in contracts, with its variants visible.
#[verifier::external_type_specification]
pub struct ExBound<T>(Bound<T>);

/// Lets `core::ops::RangeTo` stand in contracts, with its `end` visible.
#[verifier::external_type_specification]
pub struct ExRangeTo<Idx>(RangeTo<Idx>);

/// The error of a change that would leave fewer than `M` elements.
#[derive(Clone, Copy, Debug, PartialEq, Eq, PartialOrd, Ord, Hash)]
pub struct ModifyError<const M: usize>;

impl<const M: usize> ModifyError<M> {
    /// What went wrong, in words.
    pub fn message(&self) -> (r: String)
        ensures
            r@ == "operation would reduce length below minimum required "@ + decimal(M as nat),
    {
        below_minimum_text(M)
    }
}

/// The decimal digits of `n`, most significant first.
pub open spec fn decimal(n: nat) -> Seq<char>
    decreases n,
{
    if n < 10 {
        seq![digit(n)]
    } else {
        decimal(n / 10).push(digit(n % 10))
    }
}

/// The character of the decimal digit `d`.
pub open spec fn digit(d: nat) -> char {
    seq!['0', '1', '2', '3', '4', '5', '6', '7', '8', '9'][d as int]
}

/// Relies on `format!` writing a `usize` as its decimal digits.
#[verifier::external_body]
fn below_minimum_text(min: usize) -> (r: String)
    ensures
        r@ == "operation would reduce length below minimum required "@ + decimal(min as nat),
{
    format!("operation would reduce length below minimum required {}", min)
}

/// The first index that a start bound admits, if it can be written as a `usize`.
pub open spec fn start_index(start: Bound<usize>) -> Option<int> {
    match start {
        Bound::Included(s) => Some(s as int),
        Bound::Excluded(s) => if s < usize::MAX { Some(s + 1) } else { None },
        Bound::Unbounded => Some(0),
    }
}

/// The index just past the last one that an end bound admits, if it can be written as a
/// `usize`; `len` where the bound is open.
pub open spec fn end_index(end: Bound<usize>, len: usize) -> Option<int> {
    match end {
        Bound::Included(e) => if e < usize::MAX { Some(e + 1) } else { None },
        Bound::Excluded(e) => Some(e as int),
        Bound::Unbounded => Some(len as int),
    }
}

/// Turns a pair of bounds into the half-open range that they select in a slice of length `len`,
/// or `None` where they do not select one: a bound past `usize::MAX`, a start after the end, or
/// an end after `len`.
pub fn resolve_range(start: Bound<usize>, end: Bound<usize>, len: usize) -> (r: Option<Range<usize>>)
    ensures
        r matches Some(rg) <==> (start_index(start) matches Some(s) && end_index(end, len) matches Some(e) && s <= e <= len),
        r matches Some(rg) ==> Some(rg.start as int) == start_index(start) && Some(rg.end as int) == end_index(end, len),
{
    let s: usize = match start {
        Bound::Included(s) => s,
        Bound::Excluded(s) => {
            if s == usize::MAX {
                return None;
            }
            s + 1
        },
        Bound::Unbounded => 0,
    };
    let e: usize = match end {
        Bound::Included(e) => {
            if e == usize::MAX {
                return None;
            }
            e + 1
        },
        Bound::Excluded(e) => e,
        Bound::Unbounded => len,
    };
    if s <= e && e <= len {
        Some(Range { start: s, end: e })
    } else {
        None
    }
}

/// Relies on `RangeBounds::start_bound`, copying the bound out.
#[verifier::external_body]
fn start_bound_of<R: RangeBounds<usize>>(range: &R) -> Bound<usize> {
    range.start_bound().cloned()
}

/// Relies on `RangeBounds::end_bound`, copying the bound out.
#[verifier::external_body]
fn end_bound_of<R: RangeBounds<usize>>(range: &R) -> Bound<usize> {
    range.end_bound().cloned()
}

/// The half-open range that `range` selects in a slice of length `bounds.end`, or `None` where it
/// selects none.
pub fn slice_range<R: RangeBounds<usize>>(range: &R, bounds: RangeTo<usize>) -> (r: Option<Range<usize>>)
    ensures
        r matches Some(rg) ==> rg.start <= rg.end <= bounds.end,
{
    resolve_range(start_bound_of(range), end_bound_of(range), bounds.end)
}

} // verus!
