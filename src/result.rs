use vstd::prelude::*;
use crate::marker::Marker;
use crate::outcome::{Outcome, Sealed};
use crate::signal::{end_of_result, raise, End, Flow};

verus! {

impl<T, E> Sealed for Result<T, E> {

}

/// A conventional result is an outcome that has already ended.
impl<T, E> Outcome for Result<T, E> {
    type Output = T;

    type Error = E;

    open spec fn runnable(&self) -> bool {
        true
    }

    open spec fn may_end(&self, end: End<T, E>) -> bool {
        end == end_of_result(*self)
    }

    fn get_value_or_panic(self, marker: Marker<E>) -> (flow: Flow<T, E>) {
        match self {
            Ok(v) => Ok(v),
            Err(e) => raise(marker, e),
        }
    }

    fn into_result(self) -> (r: Result<T, E>) {
        self
    }
}

} // verus!
