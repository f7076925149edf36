//! Inspect and mutate a value in the middle of a method chain.
//!
//! Every sized type gets the methods of [`Tap`]. Each hands the receiver, or a
//! view of it, to a callback that runs exactly once, and then gives the
//! receiver back: unchanged where the callback saw a copy or a shared view,
//! with the callback's changes where it saw an exclusive view.
use vstd::prelude::*;

pub mod laws;
mod views;

use core::borrow::{Borrow, BorrowMut};
use core::ops::{Deref, DerefMut};
use views::{as_mut_view, as_ref_view, borrow_mut_view, borrow_view};

verus! {

/// `r` is what `tap` gives back for the receiver `v` and the callback `f`:
/// `f` ran on a copy of `v`, and `r` is `v` itself.
pub open spec fn tapped<T, F: FnOnce(T)>(v: T, f: F, r: T) -> bool {
    r == v && f.ensures((v,), ())
}

/// `r` is what `tap_ref` gives back for the receiver `v` and the callback `f`:
/// `f` ran on a shared reference to `v`, and `r` is `v` itself.
pub open spec fn ref_tapped<T, F: FnOnce(&T)>(v: T, f: F, r: T) -> bool {
    r == v && f.ensures((&v,), ())
}

/// Chain-preserving inspection and mutation, for every sized type.
///
/// Each method takes the receiver by value, calls `f` once with a view of it,
/// drops what `f` returns, and gives the receiver back.
pub trait Tap: Sized {
    /// Calls `f` on a copy of the receiver; the receiver comes back as it was.
    fn tap<F>(self, f: F) -> (r: Self) where Self: Copy, F: FnOnce(Self)
        requires
            f.requires((self,)),
        ensures
            tapped(self, f, r),
    {
        f(self);
        self
    }

    /// Calls `f` on a shared reference to the receiver; the receiver comes
    /// back as it was.
    fn tap_ref<F>(self, f: F) -> (r: Self) where F: FnOnce(&Self)
        requires
            f.requires((&self,)),
        ensures
            ref_tapped(self, f, r),
    {
        f(&self);
        self
    }

    /// Calls `f` on an exclusive reference to the receiver; the receiver comes
    /// back as `f` left it.
    fn tap_mut<F>(self, f: F) -> (r: Self) where F: FnOnce(&mut Self)
        requires
            forall|m: &mut Self| *m == self ==> #[trigger] f.requires((m,)),
        ensures
            exists|m: &mut Self| *m == self && *final(m) == r && #[trigger] f.ensures((m,), ()),
    {
        let mut s = self;
        f(&mut s);
        s
    }

    /// Calls `f` on the receiver seen through `AsRef<P>`; the receiver comes
    /// back as it was.
    fn tap_as_ref<P: ?Sized, F>(self, f: F) -> (r: Self) where Self: AsRef<P>, F: FnOnce(&P)
        requires
            forall|p: &P| #[trigger] f.requires((p,)),
        ensures
            r == self,
            exists|p: &P| #[trigger] f.ensures((p,), ()),
    {
        f(as_ref_view(&self));
        self
    }

    /// Calls `f` on the receiver seen through `AsMut<P>`; the receiver comes
    /// back with whatever `f` changed through that view.
    fn tap_as_mut<P: ?Sized, F>(self, f: F) -> (r: Self) where Self: AsMut<P>, F: FnOnce(&mut P)
        requires
            forall|p: &mut P| #[trigger] f.requires((p,)),
        ensures
            exists|p: &mut P| #[trigger] f.ensures((p,), ()),
    {
        let mut s = self;
        f(as_mut_view(&mut s));
        s
    }

    /// Calls `f` on the value that the receiver dereferences to; the receiver
    /// comes back as it was.
    fn tap_deref<P: ?Sized, F>(self, f: F) -> (r: Self) where Self: Deref<Target = P>, F: FnOnce(&P)
        requires
            forall|p: &P| #[trigger] call_ensures(<Self as Deref>::deref, (&self,), p) ==> f.requires((p,)),
        ensures
            r == self,
            exists|p: &P|
                call_ensures(<Self as Deref>::deref, (&self,), p) && #[trigger] f.ensures((p,), ()),
    {
        f(self.deref());
        self
    }

    /// Calls `f` on an exclusive reference to the value that the receiver
    /// dereferences to; the receiver comes back holding what `f` left there.
    fn tap_deref_mut<P: ?Sized, F>(self, f: F) -> (r: Self) where Self: DerefMut<Target = P>, F: FnOnce(&mut P)
        requires
            forall|m: &mut Self, p: &mut P|
                *m == self && #[trigger] call_ensures(<Self as DerefMut>::deref_mut, (m,), p)
                    ==> f.requires((p,)),
        ensures
            exists|m: &mut Self, p: &mut P|
                *m == self && *final(m) == r && #[trigger] call_ensures(<Self as DerefMut>::deref_mut, (m,), p)
                    && #[trigger] f.ensures((p,), ()),
    {
        let mut s = self;
        f(s.deref_mut());
        s
    }

    /// Calls `f` on the receiver seen through `Borrow<P>`; the receiver comes
    /// back as it was.
    fn tap_borrow<P: ?Sized, F>(self, f: F) -> (r: Self) where Self: Borrow<P>, F: FnOnce(&P)
        requires
            forall|p: &P| #[trigger] f.requires((p,)),
        ensures
            r == self,
            exists|p: &P| #[trigger] f.ensures((p,), ()),
    {
        f(borrow_view(&self));
        self
    }

    /// Calls `f` on the receiver seen through `BorrowMut<P>`; the receiver
    /// comes back with whatever `f` changed through that view.
    fn tap_borrow_mut<P: ?Sized, F>(self, f: F) -> (r: Self) where Self: BorrowMut<P>, F: FnOnce(&mut P)
        requires
            forall|p: &mut P| #[trigger] f.requires((p,)),
        ensures
            exists|p: &mut P| #[trigger] f.ensures((p,), ()),
    {
        let mut s = self;
        f(borrow_mut_view(&mut s));
        s
    }
}

impl<X> Tap for X {}

} // verus!
