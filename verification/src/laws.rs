//! The laws of the container: how the conversion entry point, the mapping
//! combinators, the status override, the downcast and the materialization
//! relate, stated over the spec-level models that the executable functions'
//! contracts use.

use crate::error::{
    converted, customized, downcast_hits, mapped, wire_response, with_status_view, CauseView,
    ErrorView,
};
use crate::response::{empty_response_view, ResponseView};
use crate::INTERNAL_SERVER_ERROR;
use vstd::prelude::*;

verus! {

/// A freshly converted error carries the default status, keeps its cause for
/// introspection, and has no custom response.
pub proof fn lemma_default_conversion(c: CauseView)
    ensures
        converted(c).status == INTERNAL_SERVER_ERROR,
        converted(c).cause == c,
        converted(c).body is None,
{
}

/// Status-only mapping from a raw cause in one step equals converting first
/// and overriding the status afterwards: the attachment strategies produce
/// equivalent containers.
pub proof fn lemma_status_mapping_in_one_step(c: CauseView, status: u16)
    ensures
        mapped(c, status) == with_status_view(converted(c), status),
{
    assert(mapped(c, status) =~= with_status_view(converted(c), status));
}

/// Overriding the status yields exactly that status, and leaves the cause
/// downcastable to the original concrete type: a downcast grants access
/// after the override exactly when it did before. Any custom response the
/// container carries stays as it is, even though its own status may no
/// longer match the new one.
pub proof fn lemma_with_status_preserves_introspection(e: ErrorView, status: u16, tag: u64)
    ensures
        with_status_view(e, status).status == status,
        with_status_view(e, status).cause == e.cause,
        downcast_hits(with_status_view(e, status), tag) == downcast_hits(e, tag),
        with_status_view(e, status).body == e.body,
{
}

/// Attaching a rendered response overrides the container's status with the
/// response's own, whatever status the container carried before: a caller
/// may deliberately answer a client-visible success despite an internal
/// error. The cause is never discarded.
pub proof fn lemma_custom_body_overrides_status(e: ErrorView, r: ResponseView, tag: u64)
    ensures
        customized(e, r).status == r.status,
        customized(e, r).body == Some(r),
        customized(e, r).cause == e.cause,
        downcast_hits(customized(e, r), tag) == downcast_hits(e, tag),
{
}

/// Materialization returns the custom response verbatim when one was
/// attached, else synthesizes an empty-bodied response carrying only the
/// container's status.
pub proof fn lemma_materialization(e: ErrorView)
    ensures
        e.body matches Some(b) ==> wire_response(e) == b,
        e.body is None ==> wire_response(e) == empty_response_view(e.status),
{
}

/// Overriding the status after a custom response was attached does not clear
/// the response: the stale response stays authoritative at materialization,
/// its own status included.
pub proof fn lemma_stale_body_stays_authoritative(e: ErrorView, r: ResponseView, status: u16)
    ensures
        wire_response(with_status_view(customized(e, r), status)) == r,
        with_status_view(customized(e, r), status).status == status,
{
}

} // verus!
