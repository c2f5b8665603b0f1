//! The async mapping future: a single-use, two-state wrapper that applies
//! status-only mapping to the result of an inner asynchronous computation,
//! exactly once, on the poll that observes the inner completion. The driver
//! that owns the real future polls the inner computation and hands the
//! observed readiness in; the state transition and the mapping are decided
//! here.

use crate::combinators::MapHandlerError;
use crate::error::{mapped, Cause, HandlerError};
use vstd::prelude::*;

verus! {

/// What one poll of a computation observed: its output, or that it is not
/// ready yet.
pub enum Poll<T> {
    Ready(T),
    Pending,
}

/// Marks a type that stands for a pending inner computation yielding a
/// `Result`. The driver implements it for the future type it polls on
/// behalf of [`MapErrWithStatus`].
pub trait InnerFuture: Sized {

}

/// The future for `map_err_with_status`: holds the inner computation and the
/// target status until the poll that observes the inner completion, then
/// becomes `Complete` for good. Polling it after that is a programming
/// error, which the contract of [`MapErrWithStatus::poll`] rules out.
#[must_use]
pub enum MapErrWithStatus<F> {
    Incomplete { future: F, status: u16 },
    Complete,
}

impl<F> MapErrWithStatus<F> {
    /// Whether this future has already yielded its output; a terminated one
    /// must not be polled again.
    pub open spec fn is_terminated_spec(&self) -> bool {
        self is Complete
    }

    /// The status the mapping will attach, while the future is still
    /// pending.
    pub open spec fn status_spec(&self) -> u16 {
        match self {
            MapErrWithStatus::Incomplete { status, .. } => *status,
            MapErrWithStatus::Complete => 0,
        }
    }

    fn new(future: F, status: u16) -> (r: Self)
        ensures
            r == (MapErrWithStatus::Incomplete { future, status }),
    {
        MapErrWithStatus::Incomplete { future, status }
    }

    /// The termination query: lets the surrounding scheduler tell whether
    /// this future is still pollable without polling it.
    pub fn is_terminated(&self) -> (r: bool)
        ensures
            r == self.is_terminated_spec(),
    {
        match self {
            MapErrWithStatus::Complete => true,
            MapErrWithStatus::Incomplete { .. } => false,
        }
    }

    /// One poll, given what polling the inner computation observed. While
    /// the inner computation is not ready, nothing changes and "not ready"
    /// propagates upward. The poll that observes the inner completion
    /// transitions to `Complete`, consuming the inner computation, and
    /// yields the status-mapped result exactly once. A completed future must
    /// not be polled again: that is a programming defect, not a runtime
    /// condition, so the contract forbids it.
    pub fn poll<T>(self, observed: Poll<Result<T, Cause>>) -> (r: (
        Self,
        Poll<Result<T, HandlerError>>,
    ))
        requires
            !self.is_terminated_spec(),
        ensures
            r.0.is_terminated_spec() <==> observed is Ready,
            r.1 is Ready <==> observed is Ready,
            observed is Pending ==> r.0 == self && r.1 is Pending,
            observed matches Poll::Ready(out) ==> {
                &&& r.0 is Complete
                &&& r.1 matches Poll::Ready(m)
                &&& (match (out, m) {
                    (Ok(v), Ok(w)) => w == v,
                    (Err(c), Err(h)) => h@ == mapped(c@, self.status_spec()),
                    _ => false,
                })
            },
    {
        match self {
            MapErrWithStatus::Incomplete { future, status } => {
                match observed {
                    Poll::Pending => (MapErrWithStatus::Incomplete { future, status }, Poll::Pending),
                    Poll::Ready(out) => (
                        MapErrWithStatus::Complete,
                        Poll::Ready(out.map_err_with_status(status)),
                    ),
                }
            },
            MapErrWithStatus::Complete => vstd::pervasive::unreached(),
        }
    }
}

/// Converts the `Err` case of a pending computation's eventual `Result` into
/// a handler error with the given status code, by wrapping the computation
/// in a [`MapErrWithStatus`] future.
pub trait MapHandlerErrorFuture: Sized {
    /// Wraps this computation so that its error case, once it completes, is
    /// mapped to a handler error with the given status.
    fn map_err_with_status(self, status_code: u16) -> (r: MapErrWithStatus<Self>)
        ensures
            r == (MapErrWithStatus::Incomplete { future: self, status: status_code }),
    ;
}

impl<F: InnerFuture> MapHandlerErrorFuture for F {
    fn map_err_with_status(self, status_code: u16) -> (r: MapErrWithStatus<Self>) {
        MapErrWithStatus::new(self, status_code)
    }
}

} // verus!
