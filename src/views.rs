//! Views of a value through the std conversion traits that Verus has no
//! specification for.
use vstd::prelude::*;
use core::borrow::{Borrow, BorrowMut};

verus! {

/// Relies on `AsRef::as_ref`: a shared view of the value as a `P`.
#[verifier::external_body]
pub(crate) fn as_ref_view<T: AsRef<P>, P: ?Sized>(t: &T) -> &P {
    t.as_ref()
}

/// Relies on `AsMut::as_mut`: an exclusive view of the value as a `P`.
#[verifier::external_body]
pub(crate) fn as_mut_view<T: AsMut<P>, P: ?Sized>(t: &mut T) -> &mut P {
    t.as_mut()
}

/// Relies on `Borrow::borrow`: a shared view of the value as a `P`.
#[verifier::external_body]
pub(crate) fn borrow_view<T: Borrow<P>, P: ?Sized>(t: &T) -> &P {
    t.borrow()
}

/// Relies on `BorrowMut::borrow_mut`: an exclusive view of the value as a `P`.
#[verifier::external_body]
pub(crate) fn borrow_mut_view<T: BorrowMut<P>, P: ?Sized>(t: &mut T) -> &mut P {
    t.borrow_mut()
}

} // verus!
