//! The error container: a status code, the erased cause, and an optional
//! custom response, together with the spec-level model of every operation on
//! it.

use crate::INTERNAL_SERVER_ERROR;
use crate::response::{
    create_empty_response, empty_response_view, opt_response_view, IntoResponse, Response,
    ResponseView,
};
use crate::state::State;
use crate::text::{dec_digits, phrase_or_fallback, status_phrase, u16_to_dec_string};
use vstd::prelude::*;

verus! {

/// Spec-level model of an erased cause.
#[verifier::ext_equal]
pub struct CauseView {
    /// The tag identifying the concrete type of the original error.
    pub tag: u64,
    /// The display form of the original error.
    pub message: Seq<char>,
}

/// A type-erased error cause: a tag identifying the concrete type of the
/// original error, and its display form. Downcasting compares the tag before
/// granting access to the stored value.
pub struct Cause {
    tag: u64,
    message: String,
}

impl View for Cause {
    type V = CauseView;

    closed spec fn view(&self) -> CauseView {
        CauseView { tag: self.tag, message: self.message@ }
    }
}

impl Cause {
    /// Erases a typed error into a cause, given its type tag and display
    /// form.
    pub fn new(tag: u64, message: String) -> (r: Cause)
        ensures
            r@.tag == tag,
            r@.message == message@,
    {
        Cause { tag, message }
    }

    /// The tag identifying the concrete type of the original error.
    pub fn tag(&self) -> (r: u64)
        ensures
            r == self@.tag,
    {
        self.tag
    }

    /// The display form of the original error.
    pub fn message(&self) -> (r: &str)
        ensures
            r@ == self@.message,
    {
        self.message.as_str()
    }
}

/// Spec-level model of an error container.
#[verifier::ext_equal]
pub struct ErrorView {
    /// The HTTP status code the container currently carries.
    pub status: u16,
    /// The erased cause; always present, never discarded.
    pub cause: CauseView,
    /// The custom response, when one was attached.
    pub body: Option<ResponseView>,
}

/// The container a freshly converted error yields: default status, no custom
/// response, the cause kept.
pub open spec fn converted(cause: CauseView) -> ErrorView {
    ErrorView { status: INTERNAL_SERVER_ERROR, cause, body: None }
}

/// The container status-only mapping yields from a raw cause: the given
/// status in one step, no intermediate default status, no custom response.
pub open spec fn mapped(cause: CauseView, status: u16) -> ErrorView {
    ErrorView { status, cause, body: None }
}

/// A container after its status is overridden: the cause and any custom
/// response stay untouched.
pub open spec fn with_status_view(e: ErrorView, status: u16) -> ErrorView {
    ErrorView { status, ..e }
}

/// A container after a rendered response is attached: the response is stored
/// and the status synchronized to it; the cause stays for introspection.
pub open spec fn customized(e: ErrorView, r: ResponseView) -> ErrorView {
    ErrorView { status: r.status, cause: e.cause, body: Some(r) }
}

/// Whether downcasting a container's cause with the given tag grants
/// access: exactly when the tag matches the one stored at erasure.
pub open spec fn downcast_hits(e: ErrorView, tag: u64) -> bool {
    e.cause.tag == tag
}

/// The wire response a container materializes to: its custom response
/// verbatim when one was attached, else an empty-bodied response carrying
/// only its status.
pub open spec fn wire_response(e: ErrorView) -> ResponseView {
    match e.body {
        Some(b) => b,
        None => empty_response_view(e.status),
    }
}

/// The observability record a container emits when it is materialized: the
/// request correlation id, the numeric status, the status phrase, and the
/// display form of the cause.
pub open spec fn record_view(e: ErrorView, request_id: Seq<char>) -> Seq<char> {
    "["@ + request_id + "] HandlerError is generating "@ + dec_digits(e.status as nat) + " "@
        + phrase_or_fallback(e.status) + " response: "@ + e.cause.message
}

/// Describes an error which occurred during handler execution, and allows
/// the creation of a wire response for it.
pub struct HandlerError {
    pub(crate) status_code: u16,
    pub(crate) cause: Cause,
    pub(crate) customized_response_body: Option<Response>,
}

impl View for HandlerError {
    type V = ErrorView;

    closed spec fn view(&self) -> ErrorView {
        ErrorView {
            status: self.status_code,
            cause: self.cause@,
            body: opt_response_view(self.customized_response_body),
        }
    }
}

impl HandlerError {
    /// Converts an erased cause into a container with the default status and
    /// no custom response.
    pub fn from_cause(cause: Cause) -> (r: HandlerError)
        ensures
            r@ == converted(cause@),
    {
        HandlerError {
            status_code: INTERNAL_SERVER_ERROR,
            cause,
            customized_response_body: None,
        }
    }

    /// Assembles a container from its parts; construction site for the
    /// combinators.
    pub(crate) fn assemble(status_code: u16, cause: Cause, body: Option<Response>) -> (r:
        HandlerError)
        ensures
            r@ == (ErrorView { status: status_code, cause: cause@, body: opt_response_view(body) }),
    {
        HandlerError { status_code, cause, customized_response_body: body }
    }

    /// Returns the HTTP status code associated with this `HandlerError`.
    pub fn status(&self) -> (r: u16)
        ensures
            r == self@.status,
    {
        self.status_code
    }

    /// Sets the HTTP status code of the response which is generated for this
    /// error. The cause and any previously attached custom response are left
    /// untouched: overriding the status does not clear a stale custom
    /// response.
    pub fn with_status(self, status_code: u16) -> (r: HandlerError)
        ensures
            r@ == with_status_view(self@, status_code),
    {
        HandlerError { status_code, ..self }
    }

    /// Attempt to downcast the cause by reference. Returns the cause exactly
    /// when its tag matches the given one.
    pub fn downcast_cause_ref(&self, tag: u64) -> (r: Option<&Cause>)
        ensures
            match r {
                Some(c) => downcast_hits(self@, tag) && c@ == self@.cause,
                None => !downcast_hits(self@, tag),
            },
    {
        if self.cause.tag == tag {
            Some(&self.cause)
        } else {
            None
        }
    }

    /// Attempt to downcast the cause by mutable reference. Returns the cause
    /// exactly when its tag matches the given one. The returned reference
    /// aims at the stored cause itself: whatever the caller leaves in it is
    /// what the container holds afterwards, while the status and any custom
    /// response stay untouched.
    pub fn downcast_cause_mut(&mut self, tag: u64) -> (r: Option<&mut Cause>)
        ensures
            match r {
                Some(c) => {
                    &&& downcast_hits(old(self)@, tag)
                    &&& c@ == old(self)@.cause
                    &&& final(self)@ == (ErrorView {
                        status: old(self)@.status,
                        cause: final(c)@,
                        body: old(self)@.body,
                    })
                },
                None => !downcast_hits(old(self)@, tag) && final(self)@ == old(self)@,
            },
    {
        if self.cause.tag == tag {
            Some(&mut self.cause)
        } else {
            None
        }
    }

    /// Invokes the render closure on the request context, stores the
    /// rendered response as the custom body, and synchronizes the status to
    /// the response's own. The cause stays untouched.
    pub fn set_customized_response_body<F: FnOnce(&State) -> R, R: IntoResponse>(
        &mut self,
        state: &State,
        f: F,
    )
        requires
            call_requires(f, (state,)),
        ensures
            exists|rendered: R|
                #[trigger] call_ensures(f, (state,), rendered) && final(self)@ == customized(
                    old(self)@,
                    rendered.response_spec(state),
                ),
    {
        let rendered = f(state);
        let body = rendered.into_response(state);
        self.status_code = body.status();
        self.customized_response_body = Some(body);
    }

    /// Renders the one observability record of this error: the request
    /// correlation id, the numeric status, the status phrase (or its
    /// fallback for an unregistered code), and the display form of the
    /// cause. The caller emits it exactly once, when the container is
    /// materialized.
    pub fn observability_record(&self, state: &State) -> (r: String)
        ensures
            r@ == record_view(self@, state@.request_id),
    {
        let mut r = "[".to_owned();
        r.append(state.request_id());
        r.append("] HandlerError is generating ");
        let digits = u16_to_dec_string(self.status_code);
        r.append(digits.as_str());
        r.append(" ");
        let phrase = status_phrase(self.status_code);
        r.append(phrase.as_str());
        r.append(" response: ");
        r.append(self.cause.message());
        r
    }
}

impl IntoResponse for HandlerError {
    /// A container renders as its custom response verbatim when one was
    /// attached, else as an empty-bodied response carrying only its status.
    open spec fn response_spec(&self, state: &State) -> ResponseView {
        wire_response(self@)
    }

    /// Consumes the container and produces its wire response. Ownership
    /// transfer makes a second materialization of the same container
    /// impossible by construction.
    fn into_response(self, state: &State) -> (r: Response) {
        match self.customized_response_body {
            Some(rsp) => rsp,
            None => create_empty_response(state, self.status_code),
        }
    }
}

} // verus!
