use vstd::prelude::*;
use crate::mapped::{InspectErr, MapErr};
use crate::outcome::Outcome;
use crate::signal::{end_of_caught, end_of_result, End, Fault};

verus! {

/// Materializing a computation that can only succeed with `v` gives `Ok(v)`: the success value
/// comes back unchanged.
///
/// `r` is any result that `into_result` may return for `outcome`.
pub proof fn success_is_kept<R: Outcome>(outcome: R, v: R::Output, r: Result<R::Output, R::Error>)
    requires
        forall|end: End<R::Output, R::Error>| #[trigger] outcome.may_end(end) ==> end == End::<
            R::Output,
            R::Error,
        >::Value(v),
        outcome.may_end(end_of_result(r)),
    ensures
        r == Ok::<R::Output, R::Error>(v),
{
}

/// Materializing a computation that can only fail with `e` gives `Err(e)`: the error value comes
/// back whole.
///
/// `r` is any result that `into_result` may return for `outcome`.
pub proof fn failure_is_kept<R: Outcome>(outcome: R, e: R::Error, r: Result<R::Output, R::Error>)
    requires
        forall|end: End<R::Output, R::Error>| #[trigger] outcome.may_end(end) ==> end == End::<
            R::Output,
            R::Error,
        >::Failure(e),
        outcome.may_end(end_of_result(r)),
    ensures
        r == Err::<R::Output, R::Error>(e),
{
}

/// A conventional result, raised as a carried failure and caught again, comes back exactly as it
/// was.
///
/// `caught` is any result that `into_result_or_fault` may return for `outcome`.
pub proof fn conventional_round_trip<T, E>(outcome: Result<T, E>, caught: Result<Result<T, E>, Fault>)
    requires
        outcome.may_end(end_of_caught(caught)),
    ensures
        caught == Ok::<Result<T, E>, Fault>(outcome),
{
}

/// `map_err` fires on failure and on failure only: a mapped outcome succeeds as the inner one
/// does, fails with `op` applied to an inner error, and passes foreign signals on. On an outcome
/// that cannot fail, the operation is never called, so any operation will do, even one that
/// accepts no argument at all.
pub proof fn map_err_fires_on_failure_only<R: Outcome, F, O: FnOnce(R::Error) -> F>(
    mapped: MapErr<R, F, O>,
)
    ensures
        forall|v: R::Output| #[trigger]
            mapped.may_end(End::Value(v)) <==> mapped.inner.may_end(End::Value(v)),
        forall|f: F| #[trigger]
            mapped.may_end(End::Failure(f)) <==> exists|e: R::Error|
                #[trigger] mapped.inner.may_end(End::Failure(e)) && call_ensures(mapped.op, (e,), f),
        forall|fault: Fault| #[trigger]
            mapped.may_end(End::Foreign(fault)) <==> mapped.inner.may_end(End::Foreign(fault)),
        mapped.inner.runnable() && (forall|e: R::Error| !mapped.inner.may_end(End::Failure(e)))
            ==> mapped.runnable(),
{
}

/// The mapper law on materialized failures: where plain materialization can only fail with `e`
/// and `op` turns `e` into `f`, the mapped outcome materializes to `Err(f)`.
///
/// `r` is any result that `into_result` may return for `mapped`.
pub proof fn map_err_materializes_failure<R: Outcome, F, O: FnOnce(R::Error) -> F>(
    mapped: MapErr<R, F, O>,
    e: R::Error,
    f: F,
    r: Result<R::Output, F>,
)
    requires
        forall|end: End<R::Output, R::Error>| #[trigger] mapped.inner.may_end(end) ==> end
            == End::<R::Output, R::Error>::Failure(e),
        forall|g: F| #[trigger] call_ensures(mapped.op, (e,), g) ==> g == f,
        mapped.may_end(end_of_result(r)),
    ensures
        r == Err::<R::Output, F>(f),
{
}

/// The mapper law on materialized successes: where plain materialization can only succeed with
/// `v`, the mapped outcome materializes to `Ok(v)`, whatever the operation.
///
/// `r` is any result that `into_result` may return for `mapped`.
pub proof fn map_err_materializes_success<R: Outcome, F, O: FnOnce(R::Error) -> F>(
    mapped: MapErr<R, F, O>,
    v: R::Output,
    r: Result<R::Output, F>,
)
    requires
        forall|end: End<R::Output, R::Error>| #[trigger] mapped.inner.may_end(end) ==> end
            == End::<R::Output, R::Error>::Value(v),
        mapped.may_end(end_of_result(r)),
    ensures
        r == Ok::<R::Output, F>(v),
{
}

/// A foreign signal passes a mapping guard untouched: the same payload reaches the outer catch
/// as would without the guard.
pub proof fn foreign_passes_map_err<R: Outcome, F, O: FnOnce(R::Error) -> F>(
    mapped: MapErr<R, F, O>,
    fault: Fault,
)
    ensures
        mapped.may_end(End::Foreign(fault)) <==> mapped.inner.may_end(End::Foreign(fault)),
{
}

/// A foreign signal passes an inspecting guard untouched, and so do the value and the error.
pub proof fn inspect_err_keeps_every_end<R: Outcome, O: FnOnce(&R::Error)>(
    inspected: InspectErr<R, O>,
    end: End<R::Output, R::Error>,
)
    ensures
        inspected.may_end(end) <==> inspected.inner.may_end(end),
{
}

/// Three nested mappers fire from the inside out: the innermost transform gets the original
/// error, and each outer one gets what the guard inside it wrote.
pub proof fn nested_mappers_fire_inside_out<
    R: Outcome,
    F1,
    O1: FnOnce(R::Error) -> F1,
    F2,
    O2: FnOnce(F1) -> F2,
    F3,
    O3: FnOnce(F2) -> F3,
>(outer: MapErr<MapErr<MapErr<R, F1, O1>, F2, O2>, F3, O3>, x: F3)
    ensures
        outer.may_end(End::Failure(x)) <==> exists|e: R::Error, a: F1, b: F2|
            #![trigger call_ensures(outer.inner.inner.op, (e,), a), call_ensures(outer.inner.op, (a,), b)]
            outer.inner.inner.inner.may_end(End::Failure(e))
                && call_ensures(outer.inner.inner.op, (e,), a)
                && call_ensures(outer.inner.op, (a,), b)
                && call_ensures(outer.op, (b,), x),
{
    let inner1 = outer.inner.inner;
    let inner2 = outer.inner;
    if outer.may_end(End::Failure(x)) {
        let b = choose|b: F2|
            #[trigger] inner2.may_end(End::Failure(b)) && call_ensures(outer.op, (b,), x);
        let a = choose|a: F1|
            #[trigger] inner1.may_end(End::Failure(a)) && call_ensures(inner2.op, (a,), b);
        let e = choose|e: R::Error|
            #[trigger] inner1.inner.may_end(End::Failure(e)) && call_ensures(inner1.op, (e,), a);
        assert(call_ensures(inner1.op, (e,), a) && call_ensures(inner2.op, (a,), b));
    }
    if exists|e: R::Error, a: F1, b: F2|
        #![trigger call_ensures(inner1.op, (e,), a), call_ensures(inner2.op, (a,), b)]
        inner1.inner.may_end(End::Failure(e)) && call_ensures(inner1.op, (e,), a)
            && call_ensures(inner2.op, (a,), b) && call_ensures(outer.op, (b,), x) {
        let (e, a, b) = choose|e: R::Error, a: F1, b: F2|
            #![trigger call_ensures(inner1.op, (e,), a), call_ensures(inner2.op, (a,), b)]
            inner1.inner.may_end(End::Failure(e)) && call_ensures(inner1.op, (e,), a)
                && call_ensures(inner2.op, (a,), b) && call_ensures(outer.op, (b,), x);
        assert(inner1.may_end(End::Failure(a)));
        assert(inner2.may_end(End::Failure(b)));
    }
}

} // verus!
