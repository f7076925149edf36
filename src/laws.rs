//! Laws that relate the results of the [`Tap`](crate::Tap) methods.
use vstd::prelude::*;
use core::ops::{Deref, DerefMut};
use crate::{ref_tapped, tapped};

verus! {

/// Inspection never changes the value: `tap` and `tap_ref` give back the
/// receiver, and so does `tap_mut` when its callback leaves what it is given
/// as it was.
pub proof fn lemma_inspection_identity<T, F: FnOnce(T), G: FnOnce(&T), H: FnOnce(&mut T)>(
    v: T,
    f: F,
    g: G,
    h: H,
    r1: T,
    r2: T,
    r3: T,
)
    requires
        tapped(v, f, r1),
        ref_tapped(v, g, r2),
        exists|m: &mut T| *m == v && *final(m) == r3 && #[trigger] h.ensures((m,), ()),
        forall|m: &mut T| #[trigger] h.ensures((m,), ()) ==> *final(m) == *m,
    ensures
        r1 == v,
        r2 == v,
        r3 == v,
{
}

/// A callback that replaces what it is given by `g` of it makes `tap_mut`
/// give back `g` of the receiver.
pub proof fn lemma_tap_mut_applies<T, F: FnOnce(&mut T)>(v: T, f: F, g: spec_fn(T) -> T, r: T)
    requires
        exists|m: &mut T| *m == v && *final(m) == r && #[trigger] f.ensures((m,), ()),
        forall|m: &mut T| #[trigger] f.ensures((m,), ()) ==> *final(m) == g(*m),
    ensures
        r == g(v),
{
}

/// Two `tap` calls in a row both observe the original value, and the chain
/// gives that value back.
pub proof fn lemma_tap_chain_observes_original<T, F: FnOnce(T), G: FnOnce(T)>(
    x: T,
    f: F,
    g: G,
    r1: T,
    r2: T,
)
    requires
        tapped(x, f, r1),
        tapped(r1, g, r2),
    ensures
        f.ensures((x,), ()),
        g.ensures((x,), ()),
        r2 == x,
{
}

/// Two `tap_mut` calls in a row compose: the second callback works on what the
/// first one left, so callbacks that apply `a` and then `b` give back
/// `b(a(x))`.
pub proof fn lemma_tap_mut_chain_composes<T, F: FnOnce(&mut T), G: FnOnce(&mut T)>(
    x: T,
    f: F,
    g: G,
    a: spec_fn(T) -> T,
    b: spec_fn(T) -> T,
    r1: T,
    r2: T,
)
    requires
        exists|m: &mut T| *m == x && *final(m) == r1 && #[trigger] f.ensures((m,), ()),
        exists|m: &mut T| *m == r1 && *final(m) == r2 && #[trigger] g.ensures((m,), ()),
        forall|m: &mut T| #[trigger] f.ensures((m,), ()) ==> *final(m) == a(*m),
        forall|m: &mut T| #[trigger] g.ensures((m,), ()) ==> *final(m) == b(*m),
    ensures
        r1 == a(x),
        r2 == b(a(x)),
{
}

/// For a wrapper whose `deref` and `deref_mut` reach its inner value
/// `inner(w)`, a change made through `tap_deref_mut` shows in the wrapper's
/// inner value and in what a following `tap_deref` observes.
pub proof fn lemma_deref_mut_visible<W, P, H: FnOnce(&mut P), K: FnOnce(&P)>(
    v: W,
    h: H,
    k: K,
    inner: spec_fn(W) -> P,
    a: spec_fn(P) -> P,
    r1: W,
    r2: W,
)
    where
        W: DerefMut<Target = P>,
    requires
        forall|w: W, p: &P| #[trigger] call_ensures(<W as Deref>::deref, (&w,), p) ==> *p == inner(w),
        forall|m: &mut W, p: &mut P| #[trigger] call_ensures(<W as DerefMut>::deref_mut, (m,), p)
            ==> *p == inner(*m) && inner(*final(m)) == *final(p),
        forall|p: &mut P| #[trigger] h.ensures((p,), ()) ==> *final(p) == a(*p),
        exists|m: &mut W, p: &mut P|
            *m == v && *final(m) == r1 && #[trigger] call_ensures(<W as DerefMut>::deref_mut, (m,), p)
                && #[trigger] h.ensures((p,), ()),
        r2 == r1,
        exists|p: &P| call_ensures(<W as Deref>::deref, (&r1,), p) && #[trigger] k.ensures((p,), ()),
    ensures
        inner(r1) == a(inner(v)),
        inner(r2) == a(inner(v)),
        exists|p: &P| *p == a(inner(v)) && #[trigger] k.ensures((p,), ()),
{
}

} // verus!
