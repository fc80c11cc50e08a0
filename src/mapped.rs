use vstd::prelude::*;
use crate::exception_mapper::ExceptionMapper;
use crate::marker::Marker;
use crate::outcome::{Outcome, Sealed};
use crate::signal::{End, Flow};

verus! {

/// The outcome of `Outcome::map_err`: runs `inner` under a guard that maps its failure with `op`.
pub struct MapErr<R, F, O> {
    pub inner: R,
    pub op: O,
    pub phantom: core::marker::PhantomData<F>,
}

/// The outcome of `Outcome::inspect_err`: runs `inner` under a guard that shows its failure to
/// `op` and lets the same failure travel on.
pub struct InspectErr<R, O> {
    pub inner: R,
    pub op: O,
}

/// The transform of `map_err`'s guard: the state is the operation itself.
fn apply_op<E, F, O: FnOnce(E) -> F>(op: O, e: E) -> (f: F)
    requires
        call_requires(op, (e,)),
    ensures
        call_ensures(op, (e,), f),
{
    op(e)
}

/// The transform of `inspect_err`'s guard: shows the error to the operation and keeps it.
fn show_op<E, O: FnOnce(&E)>(op: O, e: E) -> (r: E)
    requires
        call_requires(op, (&e,)),
    ensures
        r == e,
{
    op(&e);
    e
}

impl<R, F, O> Sealed for MapErr<R, F, O> {

}

impl<R, O> Sealed for InspectErr<R, O> {

}

impl<R: Outcome, F, O: FnOnce(R::Error) -> F> Outcome for MapErr<R, F, O> {
    type Output = R::Output;

    type Error = F;

    open spec fn runnable(&self) -> bool {
        &&& self.inner.runnable()
        &&& forall|e: R::Error|
            #[trigger] self.inner.may_end(End::Failure(e)) ==> call_requires(self.op, (e,))
    }

    open spec fn may_end(&self, end: End<R::Output, F>) -> bool {
        match end {
            End::Value(v) => self.inner.may_end(End::Value(v)),
            End::Failure(f) => exists|e: R::Error|
                #[trigger] self.inner.may_end(End::Failure(e)) && call_ensures(self.op, (e,), f),
            End::Foreign(fault) => self.inner.may_end(End::Foreign(fault)),
        }
    }

    fn get_value_or_panic(self, marker: Marker<F>) -> (flow: Flow<R::Output, F>) {
        let MapErr { inner, op, phantom: _ } = self;
        ExceptionMapper::new(marker, op, apply_op).guard(inner)
    }
}

impl<R: Outcome, O: FnOnce(&R::Error)> Outcome for InspectErr<R, O> {
    type Output = R::Output;

    type Error = R::Error;

    open spec fn runnable(&self) -> bool {
        &&& self.inner.runnable()
        &&& forall|e: R::Error|
            #[trigger] self.inner.may_end(End::Failure(e)) ==> call_requires(self.op, (&e,))
    }

    open spec fn may_end(&self, end: End<R::Output, R::Error>) -> bool {
        self.inner.may_end(end)
    }

    fn get_value_or_panic(self, marker: Marker<R::Error>) -> (flow: Flow<R::Output, R::Error>) {
        let InspectErr { inner, op } = self;
        ExceptionMapper::new(marker, op, show_op).guard(inner)
    }
}

} // verus!
