use vstd::prelude::*;
use crate::exception::Exception;
use crate::marker::Marker;
use crate::outcome::Outcome;
use crate::signal::{coherent, end_of, End, Flow, Unwind};

verus! {

/// A scope guard that turns an inner failure of type `T` into an outer one of type `U` while the
/// unwind passes it.
///
/// It holds a transform and a piece of state. Both leave it exactly once, by move: `fire`
/// consumes them when an unwind passes, and `swallow` drops them when the guarded computation
/// ended normally. Neither can run twice, and each consumes the guard.
pub struct ExceptionMapper<S, T, U, F> {
    state: S,
    f: F,
    phantom: core::marker::PhantomData<(T, U)>,
}

impl<S, T, U, F: FnOnce(S, T) -> U> ExceptionMapper<S, T, U, F> {
    /// The state that the transform will receive.
    pub closed spec fn state(&self) -> S {
        self.state
    }

    /// The pending transform.
    pub closed spec fn transform(&self) -> F {
        self.f
    }

    /// Arms a guard inside a scope that catches `U`.
    pub fn new(_marker: Marker<U>, state: S, f: F) -> (r: Self)
        ensures
            r.state() == state,
            r.transform() == f,
    {
        ExceptionMapper { state, f, phantom: core::marker::PhantomData }
    }

    /// The capability for the guarded computation: while this guard is armed, failures of type
    /// `T` are caught, by the guard itself.
    pub fn get_in_marker(&self) -> (r: Marker<T>) {
        Marker::new()
    }

    /// The state, for the guarded computation to use while the guard is armed.
    pub fn get_state(&mut self) -> (r: &mut S)
        ensures
            *r == old(self).state(),
            final(self).state() == *final(r),
            final(self).transform() == old(self).transform(),
    {
        &mut self.state
    }

    /// Stands the guard down after the guarded computation ended normally: the state and the
    /// transform are dropped without firing.
    pub fn swallow(self) {
        let ExceptionMapper { state: _state, f: _f, phantom: _ } = self;
    }

    /// Lets an unwind pass the guard. A carried failure is read from its slot, handed with the
    /// state to the transform, and the result is written into the slot that travels on. A signal
    /// of another origin passes untouched.
    pub fn fire(self, signal: Unwind<T>) -> (r: Unwind<U>)
        requires
            signal is Carried ==> signal->Carried_0@ is Some,
            signal is Carried ==> call_requires(
                self.transform(),
                (self.state(), signal->Carried_0@->Some_0),
            ),
        ensures
            signal is Foreign ==> r is Foreign && r->Foreign_0 == signal->Foreign_0,
            signal is Carried ==> {
                &&& r is Carried
                &&& r->Carried_0@ is Some
                &&& call_ensures(
                    self.transform(),
                    (self.state(), signal->Carried_0@->Some_0),
                    r->Carried_0@->Some_0,
                )
            },
    {
        let ExceptionMapper { state, f, phantom: _ } = self;
        match signal {
            Unwind::Carried(mut inner) => {
                match inner.read() {
                    Some(error) => {
                        let mut outer = Exception::new();
                        outer.write(f(state, error));
                        Unwind::Carried(outer)
                    },
                    None => vstd::pervasive::unreached(),
                }
            },
            Unwind::Foreign(fault) => Unwind::Foreign(fault),
        }
    }

    /// Runs `outcome` under this guard: a success value comes out as it is and the guard stands
    /// down; an unwind fires the guard on its way out.
    pub fn guard<R: Outcome<Error = T>>(self, outcome: R) -> (flow: Flow<R::Output, U>)
        requires
            outcome.runnable(),
            forall|e: T| #[trigger]
                outcome.may_end(End::Failure(e)) ==> call_requires(
                    self.transform(),
                    (self.state(), e),
                ),
        ensures
            coherent(flow),
            match end_of(flow) {
                End::Value(v) => outcome.may_end(End::Value(v)),
                End::Failure(u) => exists|e: T| #[trigger]
                    outcome.may_end(End::Failure(e)) && call_ensures(
                        self.transform(),
                        (self.state(), e),
                        u,
                    ),
                End::Foreign(fault) => outcome.may_end(End::Foreign(fault)),
            },
    {
        let flow = outcome.get_value_or_panic(self.get_in_marker());
        match flow {
            Ok(v) => {
                self.swallow();
                Ok(v)
            },
            Err(signal) => Err(self.fire(signal)),
        }
    }
}

} // verus!
