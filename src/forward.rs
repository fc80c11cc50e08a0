use vstd::prelude::*;
use crate::exception_mapper::ExceptionMapper;
use crate::marker::Marker;
use crate::outcome::Outcome;
use crate::signal::{coherent, end_of, End, Flow};

verus! {

/// The transform of the forwarder's guard: the implicit conversion of the error.
fn convert<A: Into<B>, B>(_state: (), e: A) -> (r: B)
    ensures
        call_ensures(A::into, (e,), r),
{
    e.into()
}

/// Propagates the failure of an inner outcome into a scope that catches `E`, converting the error
/// with `Into` on the way.
///
/// Returns the inner success value, or the unwind that the inner outcome started, its error
/// converted.
pub fn forward<E, R: Outcome>(marker: Marker<E>, outcome: R) -> (flow: Flow<R::Output, E>) where
    R::Error: Into<E>,
    requires
        outcome.runnable(),
    ensures
        coherent(flow),
        match end_of(flow) {
            End::Value(v) => outcome.may_end(End::Value(v)),
            End::Failure(x) => exists|e: R::Error|
                #[trigger] outcome.may_end(End::Failure(e)) && call_ensures(R::Error::into, (e,), x),
            End::Foreign(fault) => outcome.may_end(End::Foreign(fault)),
        },
{
    ExceptionMapper::new(marker, (), convert).guard(outcome)
}

/// Propagates the failure of an inner outcome whose error type is already the scope's own.
///
/// No conversion is needed, so none is made and no guard is armed: the inner flow, slot and all,
/// is the flow that comes out.
pub fn forward_same<R: Outcome>(marker: Marker<R::Error>, outcome: R) -> (flow: Flow<
    R::Output,
    R::Error,
>)
    requires
        outcome.runnable(),
    ensures
        coherent(flow),
        outcome.may_end(end_of(flow)),
{
    outcome.get_value_or_panic(marker)
}

} // verus!
