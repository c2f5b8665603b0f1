//! Mapping combinators over `Result`: three independent ways to attach
//! status or response information to the error case, chosen by what the call
//! site can supply. All of them yield an equivalent error container; they
//! differ only in what the caller provides and when the conversion happens.

use crate::error::{converted, customized, mapped, with_status_view, Cause, HandlerError};
use crate::response::IntoResponse;
use crate::state::State;
use vstd::prelude::*;

verus! {

/// Converts a `Result`'s `Err` case into a handler error with the given
/// status code, so the status can be chosen while keeping the `?` shorthand.
pub trait MapHandlerError<T>: Sized {
    /// Attaches the given status to the error case; the success case passes
    /// through untouched.
    fn map_err_with_status(self, status_code: u16) -> Result<T, HandlerError>;
}

impl<T> MapHandlerError<T> for Result<T, Cause> {
    /// Converts a raw cause and attaches the status in one step, with no
    /// intermediate default status.
    fn map_err_with_status(self, status_code: u16) -> (r: Result<T, HandlerError>)
        ensures
            self matches Ok(v) ==> r matches Ok(w) && w == v,
            self matches Err(c) ==> r matches Err(h) && h@ == mapped(c@, status_code),
    {
        match self {
            Ok(v) => Ok(v),
            Err(c) => Err(HandlerError::assemble(status_code, c, None)),
        }
    }
}

impl<T> MapHandlerError<T> for Result<T, HandlerError> {
    /// Overrides the status of an already-converted container. Any custom
    /// response the container carries is kept as it is, even though its own
    /// status may no longer match the new one.
    fn map_err_with_status(self, status_code: u16) -> (r: Result<T, HandlerError>)
        ensures
            self matches Ok(v) ==> r matches Ok(w) && w == v,
            self matches Err(e) ==> r matches Err(h) && h@ == with_status_view(e@, status_code),
    {
        match self {
            Ok(v) => Ok(v),
            Err(e) => Err(e.with_status(status_code)),
        }
    }
}

/// Converts a `Result`'s `Err` case into a handler error whose response is
/// rendered by a closure that is given the original cause, so the call site
/// can both inspect the cause and decide on the response payload, then hand
/// the cause back for re-erasure.
pub trait MapHandlerErrorToCustomizedResponse<T>: Sized {
    /// The cause this value would hand to the render closure, if any.
    spec fn err_case(self) -> Option<Cause>;

    /// On error, invokes the closure on the cause and the request context,
    /// renders the returned value into a full response, and yields a
    /// container whose status mirrors that response and whose cause is the
    /// returned (possibly re-wrapped) one.
    fn map_err_to_customized_response<F: FnOnce(Cause, &State) -> (Cause, R), R: IntoResponse>(
        self,
        state: &State,
        f: F,
    ) -> Result<T, HandlerError>
        requires
            self.err_case() matches Some(c) ==> call_requires(f, (c, state)),
    ;
}

impl<T> MapHandlerErrorToCustomizedResponse<T> for Result<T, Cause> {
    open spec fn err_case(self) -> Option<Cause> {
        match self {
            Ok(_) => None,
            Err(c) => Some(c),
        }
    }

    fn map_err_to_customized_response<F: FnOnce(Cause, &State) -> (Cause, R), R: IntoResponse>(
        self,
        state: &State,
        f: F,
    ) -> (r: Result<T, HandlerError>)
        ensures
            self matches Ok(v) ==> r matches Ok(w) && w == v,
            self matches Err(c) ==> r matches Err(h) && exists|back: Cause, rendered: R|
                #[trigger] call_ensures(f, (c, state), (back, rendered)) && h@ == customized(
                    converted(back@),
                    rendered.response_spec(state),
                ),
    {
        match self {
            Ok(v) => Ok(v),
            Err(c) => {
                let (back, rendered) = f(c, state);
                let rsp = rendered.into_response(state);
                let status = rsp.status();
                Err(HandlerError::assemble(status, back, Some(rsp)))
            },
        }
    }
}

/// Converts a `Result`'s `Err` case into a handler error whose response is
/// rendered by a closure that sees only the request context: for responses
/// that do not depend on the error's content.
pub trait MapHandlerErrorWithCustomizedResponse<T>: Sized {
    /// The cause the error case holds, if any.
    spec fn err_case(self) -> Option<Cause>;

    /// On error, first erases the cause into a default container, then
    /// attaches the response the closure renders against the context; the
    /// container's status mirrors that response.
    fn map_err_with_customized_response<F: FnOnce(&State) -> R, R: IntoResponse>(
        self,
        state: &State,
        f: F,
    ) -> Result<T, HandlerError>
        requires
            self.err_case() is Some ==> call_requires(f, (state,)),
    ;
}

impl<T> MapHandlerErrorWithCustomizedResponse<T> for Result<T, Cause> {
    open spec fn err_case(self) -> Option<Cause> {
        match self {
            Ok(_) => None,
            Err(c) => Some(c),
        }
    }

    fn map_err_with_customized_response<F: FnOnce(&State) -> R, R: IntoResponse>(
        self,
        state: &State,
        f: F,
    ) -> (r: Result<T, HandlerError>)
        ensures
            self matches Ok(v) ==> r matches Ok(w) && w == v,
            self matches Err(c) ==> r matches Err(h) && exists|rendered: R|
                #[trigger] call_ensures(f, (state,), rendered) && h@ == customized(
                    converted(c@),
                    rendered.response_spec(state),
                ),
    {
        match self {
            Ok(v) => Ok(v),
            Err(c) => {
                let mut e = HandlerError::from_cause(c);
                e.set_customized_response_body(state, f);
                Err(e)
            },
        }
    }
}

} // verus!
