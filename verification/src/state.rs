//! The per-request context: an externally supplied, read-only bag of
//! request metadata. This layer only reads the correlation id, which names
//! the request in the observability record.

use vstd::prelude::*;

verus! {

/// Spec-level model of a request context.
#[verifier::ext_equal]
pub struct StateView {
    /// The correlation id of the in-flight request.
    pub request_id: Seq<char>,
}

/// The read-only request context handed to handlers and render closures.
pub struct State {
    request_id: String,
}

impl View for State {
    type V = StateView;

    closed spec fn view(&self) -> StateView {
        StateView { request_id: self.request_id@ }
    }
}

impl State {
    /// Builds a context carrying the given correlation id.
    pub fn new(request_id: String) -> (r: State)
        ensures
            r@.request_id == request_id@,
    {
        State { request_id }
    }

    /// The correlation id of the request this context belongs to.
    pub fn request_id(&self) -> (r: &str)
        ensures
            r@ == self@.request_id,
    {
        self.request_id.as_str()
    }
}

} // verus!
