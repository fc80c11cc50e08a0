//! Error propagation by unwinding.
//!
//! A fallible computation usually hands its failure back inline, as the `Err` side of every
//! return value. Here the success path returns the bare value, and a failure leaves by a separate
//! exit: it is written into an exception slot, and the computation returns an unwind signal that
//! each frame passes on, possibly mapping the error on the way, until a frame materializes the
//! outcome into a conventional `Result` again.
//!
//! - [`exception::Exception`] is the slot that a carried error travels in.
//! - [`Marker`] is the capability token that proves a matching catch scope is active.
//! - [`Outcome`] unifies conventional results and carriers ([`IexResult`]): values can be
//!   extracted, errors mapped, and the whole materialized with `into_result`.
//! - [`ExceptionMapper`] is the guard that transforms a carried error exactly once as the unwind
//!   passes it, or stands down when no unwind happened.
//! - [`forward`] and [`forward_same`] propagate an inner failure to an outer scope, converting
//!   the error only where the types differ.

pub mod anyhow_compat;
pub mod example;
pub mod exception;
pub mod exception_mapper;
pub mod forward;
pub mod iex_result;
pub mod laws;
pub mod mapped;
pub mod marker;
pub mod outcome;
pub mod result;
pub mod signal;

pub use anyhow_compat::{Context, GenericContext, GenericWithContext, OptionContext};
pub use exception_mapper::ExceptionMapper;
pub use forward::{forward, forward_same};
pub use iex_result::IexResult;
pub use mapped::{InspectErr, MapErr};
pub use marker::Marker;
pub use outcome::{Outcome, Sealed};
pub use signal::{End, Fault, Flow, Unwind};
