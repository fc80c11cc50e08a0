use vstd::prelude::*;
use crate::marker::Marker;
use crate::outcome::{Outcome, Sealed};
use crate::signal::{coherent, end_of, End, Flow};

verus! {

/// A carrier outcome: a deferred computation that, handed a marker, returns the success value
/// directly or starts an unwind.
pub struct IexResult<T, E, Func>(pub Func, pub core::marker::PhantomData<(T, E)>);

/// A carrier computation accepts every marker, and every flow it returns is coherent.
pub open spec fn carrier_runnable<T, E, Func: FnOnce(Marker<E>) -> Flow<T, E>>(func: Func) -> bool {
    &&& forall|marker: Marker<E>| call_requires(func, (marker,))
    &&& forall|marker: Marker<E>, flow: Flow<T, E>|
        #[trigger] call_ensures(func, (marker,), flow) ==> coherent(flow)
}

/// A carrier computation can return a flow that stands for `end`.
pub open spec fn carrier_may_end<T, E, Func: FnOnce(Marker<E>) -> Flow<T, E>>(
    func: Func,
    end: End<T, E>,
) -> bool {
    exists|marker: Marker<E>, flow: Flow<T, E>|
        #[trigger] call_ensures(func, (marker,), flow) && end == end_of(flow)
}

impl<T, E, Func: FnOnce(Marker<E>) -> Flow<T, E>> IexResult<T, E, Func> {
    /// Wraps a carrier computation.
    pub fn new(func: Func) -> (r: Self)
        ensures
            r.0 == func,
            r.runnable() == carrier_runnable(func),
            forall|end: End<T, E>| #[trigger] r.may_end(end) == carrier_may_end(func, end),
    {
        IexResult(func, core::marker::PhantomData)
    }
}

impl<T, E, Func> Sealed for IexResult<T, E, Func> {

}

impl<T, E, Func: FnOnce(Marker<E>) -> Flow<T, E>> Outcome for IexResult<T, E, Func> {
    type Output = T;

    type Error = E;

    open spec fn runnable(&self) -> bool {
        carrier_runnable(self.0)
    }

    open spec fn may_end(&self, end: End<T, E>) -> bool {
        carrier_may_end(self.0, end)
    }

    fn get_value_or_panic(self, marker: Marker<E>) -> (flow: Flow<T, E>) {
        (self.0)(marker)
    }
}

} // verus!
