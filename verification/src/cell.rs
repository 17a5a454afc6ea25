//! A cell that grants access to its value only for the extent of a callback.
//!
//! The cell owns one value. `with` lends it to a callback for reading and
//! `with_mut` for writing; the borrow that the callback receives ends when the
//! callback returns, so no handle to the value outlives the call. The cell does
//! no locking of its own: exclusive access for `with_mut` is the caller's to
//! provide, and the borrow of the cell is how the caller shows it.
//!
//! The value is held directly, not in `std::cell::UnsafeCell`: that cell can be
//! read through a shared reference only by way of a raw pointer, and what it
//! holds would be hidden from every contract here.

use vstd::prelude::*;
use vstd::std_specs::convert::FromSpecImpl;

verus! {

/// Holds exactly one value and hands it out only inside `with` and `with_mut`.
#[derive(Debug)]
pub struct UnsafeCell<T> {
    value: T,
}

impl<T> View for UnsafeCell<T> {
    type V = T;

    /// The value that the cell holds.
    closed spec fn view(&self) -> T {
        self.value
    }
}

impl<T> UnsafeCell<T> {
    /// The cell that holds `data`.
    pub closed spec fn holding(data: T) -> UnsafeCell<T> {
        UnsafeCell { value: data }
    }

    /// Wraps `data`, taking ownership of it. Needs neither a default value nor
    /// a copy of `T`.
    #[inline(always)]
    pub fn new(data: T) -> (cell: UnsafeCell<T>)
        ensures
            cell == Self::holding(data),
            cell@ == data,
    {
        UnsafeCell { value: data }
    }

    /// Calls `f` once on a shared view of the value and returns what `f`
    /// returns. The cell is left as it was.
    #[inline(always)]
    pub fn with<R>(&self, f: impl FnOnce(&T) -> R) -> (r: R)
        requires
            f.requires((&self@,)),
        ensures
            f.ensures((&self@,), r),
    {
        f(&self.value)
    }

    /// Calls `f` once on an exclusive view of the value and returns what `f`
    /// returns. The cell then holds what `f` left behind the view.
    #[inline(always)]
    pub fn with_mut<R>(&mut self, f: impl FnOnce(&mut T) -> R) -> (r: R)
        requires
            forall|m: &mut T| *m == old(self)@ ==> f.requires((m,)),
        ensures
            exists|m: &mut T|
                *m == old(self)@ && *final(m) == final(self)@ && f.ensures((m,), r),
    {
        f(&mut self.value)
    }

    /// A cell and the value it holds determine each other.
    pub proof fn lemma_holding_view(data: T)
        ensures
            Self::holding(data)@ == data,
            forall|cell: UnsafeCell<T>| cell@ == data ==> cell == Self::holding(data),
    {
    }

    /// Round trip: a cell that was just made from `data`, read by a callback
    /// that returns what it is shown, gives back `data`.
    ///
    /// `cell` is what `new` returns for `data`, `f` is any such callback, and
    /// `r` is any result that `with` may return for `f` on `cell`.
    pub proof fn lemma_round_trip<F: FnOnce(&T) -> T>(data: T, cell: UnsafeCell<T>, f: F, r: T)
        requires
            cell == Self::holding(data),
            forall|p: &T, out: T| f.ensures((p,), out) ==> out == *p,
            f.ensures((&cell@,), r),
        ensures
            r == data,
    {
    }
}

impl UnsafeCell<u32> {
    /// Two writes that each add one, made one after the other, leave the value
    /// two higher: neither is lost, whichever of the two came first.
    ///
    /// `f` and `g` are any two callbacks that add one to what they are shown.
    /// `mid` is any value that `with_mut` may leave for `f` on a cell that
    /// holds `start`, and `end` any value that it may leave for `g` on a cell
    /// that holds `mid`. Since `f` and `g` stand for either caller, the same
    /// holds with the two in the other order.
    pub proof fn lemma_two_increments<F: FnOnce(&mut u32), G: FnOnce(&mut u32)>(
        start: u32,
        mid: u32,
        end: u32,
        f: F,
        g: G,
    )
        requires
            start <= u32::MAX - 2,
            forall|p: &mut u32| f.ensures((p,), ()) ==> *final(p) == *p + 1,
            forall|p: &mut u32| g.ensures((p,), ()) ==> *final(p) == *p + 1,
            exists|m: &mut u32| *m == start && *final(m) == mid && f.ensures((m,), ()),
            exists|m: &mut u32| *m == mid && *final(m) == end && g.ensures((m,), ()),
        ensures
            mid == start + 1,
            end == start + 2,
    {
    }
}

impl<T> From<T> for UnsafeCell<T> {
    /// Wraps `t`, as `new` does.
    #[inline(always)]
    fn from(t: T) -> (cell: UnsafeCell<T>)
        ensures
            cell@ == t,
    {
        UnsafeCell { value: t }
    }
}

impl<T> FromSpecImpl<T> for UnsafeCell<T> {
    open spec fn obeys_from_spec() -> bool {
        true
    }

    open spec fn from_spec(t: T) -> UnsafeCell<T> {
        UnsafeCell::holding(t)
    }
}

impl<T: Default> Default for UnsafeCell<T> {
    /// The cell that holds the default value of `T`.
    #[inline(always)]
    fn default() -> (cell: UnsafeCell<T>)
        ensures
            T::default.ensures((), cell@),
    {
        UnsafeCell { value: T::default() }
    }
}

} // verus!
