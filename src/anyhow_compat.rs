use vstd::prelude::*;
use crate::exception_mapper::ExceptionMapper;
use crate::marker::Marker;
use crate::outcome::{Outcome, Sealed};
use crate::signal::{End, Flow};
use core::fmt::Display;
use anyhow::Error as AnyhowError;

verus! {

/// `anyhow::Error`, carried through as an opaque value.
#[verifier::external_type_specification]
#[verifier::external_body]
pub struct ExAnyhowError(AnyhowError);

/// Relies on `anyhow::Error::context`: the error, made an `anyhow::Error`, is wrapped with
/// `context` attached.
#[verifier::external_body]
fn attach_context<E, C>(context: C, error: E) -> (r: anyhow::Error) where
    E: Into<anyhow::Error>,
    C: Display + Send + Sync + 'static,
{
    error.into().context(context)
}

/// Relies on anyhow's `Context::context` for `Option`: `Some` becomes `Ok` with the same value,
/// `None` becomes an error that shows `context`.
#[verifier::external_body]
fn option_context<T, C>(option: Option<T>, context: C) -> (r: Result<T, anyhow::Error>) where
    C: Display + Send + Sync + 'static,
    ensures
        option is Some <==> r is Ok,
        option is Some ==> r->Ok_0 == option->Some_0,
{
    anyhow::Context::context(option, context)
}

/// Relies on anyhow's `Context::with_context` for `Option`: `Some` becomes `Ok` with the same
/// value; for `None`, `f` is called and the error shows what it returned.
#[verifier::external_body]
fn option_with_context<T, C, F>(option: Option<T>, f: F) -> (r: Result<T, anyhow::Error>) where
    C: Display + Send + Sync + 'static,
    F: FnOnce() -> C,
    requires
        option is None ==> call_requires(f, ()),
    ensures
        option is Some <==> r is Ok,
        option is Some ==> r->Ok_0 == option->Some_0,
{
    anyhow::Context::with_context(option, f)
}

/// The transform of `with_context`'s guard: evaluates the context lazily, once the error is there.
fn attach_lazy_context<E, C, F>(f: F, error: E) -> (r: anyhow::Error) where
    E: Into<anyhow::Error>,
    C: Display + Send + Sync + 'static,
    F: FnOnce() -> C,
    requires
        call_requires(f, ()),
{
    let context = f();
    attach_context(context, error)
}

/// Attaching context to an error as it passes, for outcomes whose error `anyhow` can wrap.
pub trait Context<T, E>: Sized {
    /// Wraps the error value, if there is one, with additional context.
    fn context<C>(self, context: C) -> (r: GenericContext<Self, C>) where
        C: Display + Send + Sync + 'static,
        ensures
            r.outcome == self,
            r.context == context,
    ;

    /// Wraps the error value, if there is one, with context that is evaluated only once an error
    /// does occur.
    fn with_context<C, F>(self, f: F) -> (r: GenericWithContext<Self, C, F>) where
        C: Display + Send + Sync + 'static,
        F: FnOnce() -> C,
        ensures
            r.outcome == self,
            r.f == f,
    ;
}

impl<R: Outcome> Context<R::Output, R::Error> for R {
    fn context<C>(self, context: C) -> (r: GenericContext<Self, C>) where
        C: Display + Send + Sync + 'static,
    {
        GenericContext { outcome: self, context }
    }

    fn with_context<C, F>(self, f: F) -> (r: GenericWithContext<Self, C, F>) where
        C: Display + Send + Sync + 'static,
        F: FnOnce() -> C,
    {
        GenericWithContext { outcome: self, f, phantom: core::marker::PhantomData }
    }
}

/// Turning a missing value into an error with context, as `anyhow` does for `Option`.
pub trait OptionContext<T>: Sized {
    /// There is a value.
    spec fn has_value(&self) -> bool;

    /// `Some` gives its value; `None` gives an error that shows `context`.
    fn context<C>(self, context: C) -> (r: Result<T, anyhow::Error>) where
        C: Display + Send + Sync + 'static,
    ;

    /// `Some` gives its value; `None` gives an error that shows what `f` returns, and only then
    /// is `f` called.
    fn with_context<C, F>(self, f: F) -> (r: Result<T, anyhow::Error>) where
        C: Display + Send + Sync + 'static,
        F: FnOnce() -> C,
        requires
            !self.has_value() ==> call_requires(f, ()),
    ;
}

impl<T> OptionContext<T> for Option<T> {
    open spec fn has_value(&self) -> bool {
        self is Some
    }

    fn context<C>(self, context: C) -> (r: Result<T, anyhow::Error>) where
        C: Display + Send + Sync + 'static,
        ensures
            self is Some <==> r is Ok,
            self is Some ==> r->Ok_0 == self->Some_0,
    {
        option_context(self, context)
    }

    fn with_context<C, F>(self, f: F) -> (r: Result<T, anyhow::Error>) where
        C: Display + Send + Sync + 'static,
        F: FnOnce() -> C,
        ensures
            self is Some <==> r is Ok,
            self is Some ==> r->Ok_0 == self->Some_0,
    {
        option_with_context(self, f)
    }
}

/// The outcome of `Context::context`: `outcome`, its error wrapped with `context`.
pub struct GenericContext<R, C> {
    pub outcome: R,
    pub context: C,
}

/// The outcome of `Context::with_context`: `outcome`, its error wrapped with what `f` returns.
pub struct GenericWithContext<R, C, F> {
    pub outcome: R,
    pub f: F,
    pub phantom: core::marker::PhantomData<C>,
}

impl<R, C> Sealed for GenericContext<R, C> {

}

impl<R, C, F> Sealed for GenericWithContext<R, C, F> {

}

impl<R: Outcome, C> Outcome for GenericContext<R, C> where
    R::Error: Into<anyhow::Error>,
    C: Display + Send + Sync + 'static,
 {
    type Output = R::Output;

    type Error = anyhow::Error;

    open spec fn runnable(&self) -> bool {
        self.outcome.runnable()
    }

    open spec fn may_end(&self, end: End<R::Output, anyhow::Error>) -> bool {
        match end {
            End::Value(v) => self.outcome.may_end(End::Value(v)),
            End::Failure(_) => exists|e: R::Error| #[trigger] self.outcome.may_end(End::Failure(e)),
            End::Foreign(fault) => self.outcome.may_end(End::Foreign(fault)),
        }
    }

    fn get_value_or_panic(self, marker: Marker<anyhow::Error>) -> (flow: Flow<
        R::Output,
        anyhow::Error,
    >) {
        let GenericContext { outcome, context } = self;
        ExceptionMapper::new(marker, context, attach_context).guard(outcome)
    }
}

impl<R: Outcome, C, F> Outcome for GenericWithContext<R, C, F> where
    R::Error: Into<anyhow::Error>,
    C: Display + Send + Sync + 'static,
    F: FnOnce() -> C,
 {
    type Output = R::Output;

    type Error = anyhow::Error;

    open spec fn runnable(&self) -> bool {
        &&& self.outcome.runnable()
        &&& (exists|e: R::Error| #[trigger] self.outcome.may_end(End::Failure(e)))
            ==> call_requires(self.f, ())
    }

    open spec fn may_end(&self, end: End<R::Output, anyhow::Error>) -> bool {
        match end {
            End::Value(v) => self.outcome.may_end(End::Value(v)),
            End::Failure(_) => exists|e: R::Error| #[trigger] self.outcome.may_end(End::Failure(e)),
            End::Foreign(fault) => self.outcome.may_end(End::Foreign(fault)),
        }
    }

    fn get_value_or_panic(self, marker: Marker<anyhow::Error>) -> (flow: Flow<
        R::Output,
        anyhow::Error,
    >) {
        let GenericWithContext { outcome, f, phantom: _ } = self;
        ExceptionMapper::new(marker, f, attach_lazy_context).guard(outcome)
    }
}

} // verus!
