use vstd::prelude::*;
use crate::marker::Marker;
use crate::mapped::{InspectErr, MapErr};
use crate::signal::{catch, coherent, end_of, end_of_caught, end_of_result, End, Fault, Flow};

verus! {

/// Keeps the set of outcome kinds closed to this library.
pub trait Sealed {

}

/// A generalized result: a conventional `Result`, or a carrier whose failure travels by unwinding.
///
/// Running an outcome is described by two predicates: `runnable` says that every step it holds
/// accepts what it will be handed, and `may_end` lists the ends that a run can reach.
pub trait Outcome: Sealed + Sized {
    /// The type of the success value.
    type Output;

    /// The type of the error value.
    type Error;

    /// Every step that a run of this outcome takes accepts what it is handed.
    spec fn runnable(&self) -> bool;

    /// A run of this outcome can end in `end`.
    spec fn may_end(&self, end: End<Self::Output, Self::Error>) -> bool;

    /// Runs the outcome inside a scope that catches `Self::Error`: returns the success value, or
    /// starts an unwind.
    fn get_value_or_panic(self, marker: Marker<Self::Error>) -> (flow: Flow<Self::Output, Self::Error>)
        requires
            self.runnable(),
        ensures
            coherent(flow),
            self.may_end(end_of(flow)),
    ;

    /// Calls `op` with a reference to the error, if there is one, and keeps the outcome otherwise
    /// as it was.
    fn inspect_err<O: FnOnce(&Self::Error)>(self, op: O) -> (r: InspectErr<Self, O>)
        ensures
            r.inner == self,
            r.op == op,
    {
        InspectErr { inner: self, op }
    }

    /// Applies `op` to the error, if there is one, and leaves a success value untouched.
    fn map_err<F, O: FnOnce(Self::Error) -> F>(self, op: O) -> (r: MapErr<Self, F, O>)
        ensures
            r.inner == self,
            r.op == op,
    {
        MapErr { inner: self, op, phantom: core::marker::PhantomData }
    }

    /// Materializes the outcome into a conventional result.
    ///
    /// A signal of another origin is not this function's to catch; the outcome must not raise one
    /// (see `into_result_or_fault`).
    fn into_result(self) -> (r: Result<Self::Output, Self::Error>)
        requires
            self.runnable(),
            forall|fault: Fault| !self.may_end(End::Foreign(fault)),
        ensures
            self.may_end(end_of_result(r)),
    {
        match self.into_result_or_fault() {
            Ok(r) => r,
            Err(_fault) => vstd::pervasive::unreached(),
        }
    }

    /// Materializes the outcome, handing a signal of another origin on to the caller unchanged.
    fn into_result_or_fault(self) -> (r: Result<Result<Self::Output, Self::Error>, Fault>)
        requires
            self.runnable(),
        ensures
            self.may_end(end_of_caught(r)),
    {
        let flow = self.get_value_or_panic(Marker::new());
        catch(flow)
    }
}

} // verus!
