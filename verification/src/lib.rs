//! An error-to-response adaptation layer for request handlers.
//!
//! Handler code may fail with any typed error. The error is erased into a
//! [`error::HandlerError`] container that carries an HTTP status code, the
//! original cause (as a tagged, displayable value supporting downcast by
//! tag), and optionally a fully formed custom response. Combinators attach
//! or override the status and the custom response on `Result` values and on
//! pending asynchronous computations; at the edge of the pipeline the
//! container is consumed exactly once and materialized into a wire response
//! together with one observability record.

pub mod combinators;
pub mod error;
pub mod future;
pub mod laws;
pub mod response;
pub mod state;
pub mod text;

use vstd::prelude::*;

verus! {

/// The default status of a freshly converted error.
pub const INTERNAL_SERVER_ERROR: u16 = 500;

} // verus!
