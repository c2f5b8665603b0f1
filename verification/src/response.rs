//! The wire response model: status code, headers and payload, plus the
//! capability that turns a renderable value into a full response against the
//! request context.

use crate::state::State;
use vstd::prelude::*;

verus! {

/// Spec-level model of a wire response.
#[verifier::ext_equal]
pub struct ResponseView {
    /// The HTTP status code carried by the response.
    pub status: u16,
    /// The response headers, in order, as (name, value) pairs.
    pub headers: Seq<(Seq<char>, Seq<char>)>,
    /// The payload bytes.
    pub body: Seq<u8>,
}

/// A fully formed wire response: status code, headers and payload.
pub struct Response {
    status: u16,
    headers: Vec<(String, String)>,
    body: Vec<u8>,
}

/// The model of a response with the given status and neither headers nor
/// payload.
pub open spec fn empty_response_view(status: u16) -> ResponseView {
    ResponseView { status, headers: Seq::empty(), body: Seq::empty() }
}

/// The model of an optional response.
pub open spec fn opt_response_view(body: Option<Response>) -> Option<ResponseView> {
    match body {
        Some(r) => Some(r@),
        None => None,
    }
}

impl View for Response {
    type V = ResponseView;

    closed spec fn view(&self) -> ResponseView {
        ResponseView {
            status: self.status,
            headers: self.headers@.map_values(|h: (String, String)| (h.0@, h.1@)),
            body: self.body@,
        }
    }
}

impl Response {
    /// Builds a response from its parts.
    pub fn new(status: u16, headers: Vec<(String, String)>, body: Vec<u8>) -> (r: Response)
        ensures
            r@.status == status,
            r@.headers == headers@.map_values(|h: (String, String)| (h.0@, h.1@)),
            r@.body == body@,
    {
        Response { status, headers, body }
    }

    /// The status code carried by this response.
    pub fn status(&self) -> (r: u16)
        ensures
            r == self@.status,
    {
        self.status
    }

    /// The headers of this response, in order.
    pub fn headers(&self) -> (r: &Vec<(String, String)>)
        ensures
            r@.map_values(|h: (String, String)| (h.0@, h.1@)) == self@.headers,
    {
        &self.headers
    }

    /// The payload bytes of this response.
    pub fn body(&self) -> (r: &Vec<u8>)
        ensures
            r@ == self@.body,
    {
        &self.body
    }

    /// Takes the response apart into status, headers and payload, for the
    /// transport layer to assemble its own wire object from.
    pub fn into_parts(self) -> (r: (u16, Vec<(String, String)>, Vec<u8>))
        ensures
            r.0 == self@.status,
            r.1@.map_values(|h: (String, String)| (h.0@, h.1@)) == self@.headers,
            r.2@ == self@.body,
    {
        (self.status, self.headers, self.body)
    }
}

/// Synthesizes a response that carries only the given status: no headers, no
/// payload.
pub fn create_empty_response(_state: &State, status: u16) -> (r: Response)
    ensures
        r@ == empty_response_view(status),
{
    let r = Response { status, headers: Vec::new(), body: Vec::new() };
    proof {
        assert(r@ =~= empty_response_view(status));
    }
    r
}

/// A value the collaborator subsystem can render into a full response
/// against the request context. Handler code implements this for its own
/// renderable payloads; this layer implements it for [`Response`] itself and
/// for the error container.
pub trait IntoResponse: Sized {
    /// The response this value renders to against the given context.
    spec fn response_spec(&self, state: &State) -> ResponseView;

    /// Renders this value into a full response against the given context.
    fn into_response(self, state: &State) -> (r: Response)
        ensures
            r@ == self.response_spec(state),
    ;
}

impl IntoResponse for Response {
    /// A full response renders as itself.
    open spec fn response_spec(&self, state: &State) -> ResponseView {
        self@
    }

    fn into_response(self, _state: &State) -> (r: Response) {
        self
    }
}

} // verus!
