use vstd::prelude::*;

verus! {

/// A capability token: holding a `Marker<E>` means that a scope which catches carried failures
/// of type `E` is active further up the call chain.
///
/// It carries no bytes at run time. Only the library makes new markers, at the places where it
/// has just opened such a scope.
pub struct Marker<E> {
    phantom: core::marker::PhantomData<E>,
}

impl<E> Marker<E> {
    /// Opens a capability for a scope that the caller has just established.
    pub(crate) fn new() -> (r: Self) {
        Marker { phantom: core::marker::PhantomData }
    }
}

impl<E> Clone for Marker<E> {
    fn clone(&self) -> (r: Self)
        ensures
            r == *self,
    {
        *self
    }
}

impl<E> Copy for Marker<E> {

}

} // verus!
