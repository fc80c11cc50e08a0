use vstd::prelude::*;
use crate::exception::Exception;
use crate::marker::Marker;

verus! {

/// An abrupt signal that this mechanism did not raise, such as a fault somewhere in the stack.
/// Its payload is passed on untouched.
#[derive(Debug, PartialEq, Eq)]
pub struct Fault {
    pub message: String,
}

/// The non-local exit that a computation takes instead of returning a value.
///
/// Only this library fills or empties a slot, so the slot of a carried unwind always holds its
/// error until the catch region takes it out.
pub enum Unwind<E> {
    /// A failure raised by this mechanism; the error value travels in the slot.
    Carried(Exception<E>),
    /// A signal of another origin, which must reach an outer catch unchanged.
    Foreign(Fault),
}

/// What a carrier step hands back: the success value itself, or an unwind in progress.
pub type Flow<T, E> = Result<T, Unwind<E>>;

/// How running an outcome can end, once the slot has been looked into.
pub enum End<T, E> {
    Value(T),
    Failure(E),
    Foreign(Fault),
}

/// A carried unwind always has its error in the slot.
pub open spec fn coherent<T, E>(flow: Flow<T, E>) -> bool {
    match flow {
        Err(Unwind::Carried(slot)) => slot@ is Some,
        _ => true,
    }
}

/// The end that a flow stands for.
pub open spec fn end_of<T, E>(flow: Flow<T, E>) -> End<T, E> {
    match flow {
        Ok(v) => End::Value(v),
        Err(Unwind::Carried(slot)) => End::Failure(slot@->Some_0),
        Err(Unwind::Foreign(fault)) => End::Foreign(fault),
    }
}

/// The end that a materialized result stands for.
pub open spec fn end_of_result<T, E>(r: Result<T, E>) -> End<T, E> {
    match r {
        Ok(v) => End::Value(v),
        Err(e) => End::Failure(e),
    }
}

/// The end that a materialization which passes foreign signals on stands for.
pub open spec fn end_of_caught<T, E>(r: Result<Result<T, E>, Fault>) -> End<T, E> {
    match r {
        Ok(inner) => end_of_result(inner),
        Err(fault) => End::Foreign(fault),
    }
}

/// Raises `error` inside a scope that catches `E`: writes it into a fresh slot, then starts the
/// unwind.
pub(crate) fn raise<T, E>(_marker: Marker<E>, error: E) -> (flow: Flow<T, E>)
    ensures
        coherent(flow),
        end_of(flow) == End::<T, E>::Failure(error),
        flow is Err && flow->Err_0 is Carried,
{
    let mut slot = Exception::new();
    slot.write(error);
    Err(Unwind::Carried(slot))
}

/// The catch region: turns a finished flow back into a conventional result, reading and clearing
/// the slot of a carried failure, and handing any foreign signal on unchanged.
pub(crate) fn catch<T, E>(flow: Flow<T, E>) -> (r: Result<Result<T, E>, Fault>)
    requires
        coherent(flow),
    ensures
        end_of_caught(r) == end_of(flow),
{
    match flow {
        Ok(v) => Ok(Ok(v)),
        Err(Unwind::Carried(mut slot)) => {
            let error = slot.read();
            match error {
                Some(e) => Ok(Err(e)),
                None => vstd::pervasive::unreached(),
            }
        },
        Err(Unwind::Foreign(fault)) => Err(fault),
    }
}

} // verus!
