//! A clone-on-write smart reference that is covariant in its borrow lifetime.
//!
//! The standard library's copy-on-write reference couples the owned
//! counterpart of the borrowed view to the view type through an associated
//! type projection, which makes the whole type invariant in its lifetime.
//! Here the owned counterpart is an independent type parameter of [`CowT`],
//! so a reference valid for a long borrow can be used wherever one valid
//! for a shorter borrow is expected. The alias [`Cow`] fixes the owned
//! parameter to the natural counterpart, so ordinary call sites look the
//! same as with the standard type.

use vstd::prelude::*;

pub mod like_impls;

verus! {

/// The representation of a clone-on-write reference: either a borrowed
/// view of data owned elsewhere, or an owned value held exclusively.
///
/// The owned counterpart `O` is an independent parameter, not a projection
/// from `B`, which keeps the type covariant in `'a`.
pub enum CowT<'a, B: ?Sized + 'a, O> {
    Borrowed(&'a B),
    Owned(O),
}

/// The capability every supported view type `B` offers: cloning the view
/// into its owned counterpart, and borrowing the view back out of that
/// counterpart. Both directions preserve the logical content (the view).
pub trait Ownable: View {
    type Owned: View<V = <Self as View>::V> + Sized;

    fn to_owned_val(&self) -> (o: Self::Owned)
        ensures
            o@ == self@,
    ;

    fn borrow_val<'x>(o: &'x Self::Owned) -> (b: &'x Self)
        ensures
            b@ == o@,
    ;
}

/// The clone-on-write reference with the owned counterpart defaulted to
/// the one its view type names.
pub type Cow<'a, B> = CowT<'a, B, <B as Ownable>::Owned>;

impl<'a, B: ?Sized + View, O: View<V = <B as View>::V>> View for CowT<'a, B, O> {
    type V = <B as View>::V;

    open spec fn view(&self) -> Self::V {
        match self {
            CowT::Borrowed(b) => b@,
            CowT::Owned(o) => o@,
        }
    }
}

impl<'a, B: ?Sized + Ownable> Cow<'a, B> {
    /// Acquires a mutable handle to the owned form of the data.
    ///
    /// Clones the view into a fresh owned value if the reference is still
    /// borrowed; once owned, every further call hands out the held value
    /// without cloning, so at most one clone happens over the lifetime of
    /// the reference. This is the only operation that moves the reference
    /// from the `Borrowed` state to the `Owned` state, and nothing moves
    /// it back.
    pub fn to_mut(&mut self) -> (r: &mut B::Owned)
        ensures
            (*r)@ == old(self)@,
            *old(self) matches CowT::Owned(o) ==> *r == o,
            *final(self) == CowT::<'a, B, B::Owned>::Owned(*final(r)),
    {
        if let CowT::Borrowed(b) = self {
            let held: &'a B = *b;
            *self = CowT::Owned(held.to_owned_val());
        }
        match self {
            CowT::Owned(o) => o,
            CowT::Borrowed(_) => vstd::pervasive::unreached(),
        }
    }

    /// Extracts the owned data: a clone of the view if still borrowed,
    /// the held value itself (moved out, not copied) if already owned.
    pub fn into_owned(self) -> (r: B::Owned)
        ensures
            r@ == self@,
            self matches CowT::Owned(o) ==> r == o,
    {
        match self {
            CowT::Borrowed(b) => b.to_owned_val(),
            CowT::Owned(o) => o,
        }
    }
}

impl<'a, B: ?Sized + Ownable> Cow<'a, B> {
    /// Dereferences to the view: the held reference as-is when borrowed,
    /// a view borrowed back out of the owned value otherwise. No clone,
    /// no allocation, in either state.
    pub fn deref(&self) -> (b: &B)
        ensures
            b@ == self@,
    {
        match self {
            CowT::Borrowed(b) => b,
            CowT::Owned(o) => B::borrow_val(o),
        }
    }
}

impl<'a, B: ?Sized, O: Clone> Clone for CowT<'a, B, O> {
    /// A borrowed reference clones to the same borrow (references copy);
    /// an owned reference clones its held value.
    fn clone(&self) -> (res: Self)
        ensures
            self matches CowT::Borrowed(b) ==> res == CowT::<'a, B, O>::Borrowed(b),
            self matches CowT::Owned(o) ==> (res matches CowT::Owned(oc)
                && vstd::pervasive::cloned::<O>(*o, oc)),
    {
        match self {
            CowT::Borrowed(b) => CowT::Borrowed(b),
            CowT::Owned(o) => CowT::Owned(o.clone()),
        }
    }
}

impl Ownable for str {
    type Owned = std::string::String;

    fn to_owned_val(&self) -> (o: Self::Owned)
        ensures
            o@ == self@,
    {
        self.to_owned()
    }

    fn borrow_val<'x>(o: &'x Self::Owned) -> (b: &'x Self)
        ensures
            b@ == o@,
    {
        o.as_str()
    }
}

impl<T: Copy + View> Ownable for [T] {
    type Owned = std::vec::Vec<T>;

    fn to_owned_val(&self) -> (o: Self::Owned)
        ensures
            o@ == self@,
    {
        vstd::slice::slice_to_vec(self)
    }

    fn borrow_val<'x>(o: &'x Self::Owned) -> (b: &'x Self)
        ensures
            b@ == o@,
    {
        o.as_slice()
    }
}

} // verus!
