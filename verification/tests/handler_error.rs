use handler_error::combinators::{
    MapHandlerError, MapHandlerErrorToCustomizedResponse, MapHandlerErrorWithCustomizedResponse,
};
use handler_error::error::{Cause, HandlerError};
use handler_error::future::{InnerFuture, MapHandlerErrorFuture, Poll};
use handler_error::response::{IntoResponse, Response};
use handler_error::state::State;

const DUMMY_ERROR_TAG: u64 = 1;
const IO_ERROR_TAG: u64 = 2;

fn dummy_cause() -> Cause {
    Cause::new(DUMMY_ERROR_TAG, "Dummy Error".to_string())
}

fn error_prone() -> Result<(), HandlerError> {
    Err(HandlerError::from_cause(dummy_cause()))
}

fn request_state() -> State {
    State::new("req-1".to_string())
}

struct DummyFut;

impl InnerFuture for DummyFut {}

#[test]
fn test_error_downcast() {
    let mut err = error_prone().unwrap_err();
    assert!(err.downcast_cause_ref(DUMMY_ERROR_TAG).is_some());
    assert!(err.downcast_cause_mut(DUMMY_ERROR_TAG).is_some());
    assert!(err.downcast_cause_ref(IO_ERROR_TAG).is_none());
    assert!(err.downcast_cause_mut(IO_ERROR_TAG).is_none());
}

#[test]
fn test_default_conversion_status() {
    let err = HandlerError::from_cause(dummy_cause());
    assert_eq!(err.status(), 500);
}

#[test]
fn test_with_status() {
    let err = HandlerError::from_cause(dummy_cause()).with_status(418);
    assert_eq!(err.status(), 418);
    let cause = err.downcast_cause_ref(DUMMY_ERROR_TAG);
    assert!(cause.is_some());
    assert_eq!(cause.unwrap().message(), "Dummy Error");
}

#[test]
fn test_map_err_with_status() {
    let result: Result<(), Cause> = Err(dummy_cause());
    let mapped = result.map_err_with_status(418);
    assert_eq!(mapped.map_err(|err| err.status()), Err(418));
}

#[test]
fn test_map_err_with_status_ok_is_noop() {
    let result: Result<u32, Cause> = Ok(17);
    let mapped = result.map_err_with_status(418);
    assert_eq!(mapped.map_err(|err| err.status()), Ok(17));
}

#[test]
fn test_map_err_with_status_on_container() {
    let result: Result<(), HandlerError> = error_prone();
    let mapped = result.map_err_with_status(404);
    let err = mapped.unwrap_err();
    assert_eq!(err.status(), 404);
    assert!(err.downcast_cause_ref(DUMMY_ERROR_TAG).is_some());
}

#[test]
fn test_map_err_to_customized_response() {
    let state = request_state();
    let result: Result<(), Cause> = Err(dummy_cause());
    let mapped = result.map_err_to_customized_response(&state, |cause, _state| {
        assert_eq!(cause.message(), "Dummy Error");
        let body = Response::new(503, Vec::new(), b"down".to_vec());
        (cause, body)
    });
    let err = mapped.unwrap_err();
    assert_eq!(err.status(), 503);
    assert!(err.downcast_cause_ref(DUMMY_ERROR_TAG).is_some());
    let response = err.into_response(&state);
    assert_eq!(response.status(), 503);
    assert_eq!(response.body(), &b"down".to_vec());
}

#[test]
fn test_map_err_to_customized_response_ok_is_noop() {
    let state = request_state();
    let result: Result<u32, Cause> = Ok(99);
    let mapped = result.map_err_to_customized_response(&state, |cause, _state| {
        let body = Response::new(503, Vec::new(), Vec::new());
        (cause, body)
    });
    assert_eq!(mapped.map_err(|err| err.status()), Ok(99));
}

#[test]
fn test_fixed_response_status_overrides_default() {
    let state = request_state();
    let result: Result<(), Cause> = Err(dummy_cause());
    let mapped = result
        .map_err_with_customized_response(&state, |_state| Response::new(200, Vec::new(), Vec::new()));
    let err = mapped.unwrap_err();
    assert_eq!(err.status(), 200);
    assert!(err.downcast_cause_ref(DUMMY_ERROR_TAG).is_some());
}

#[test]
fn test_fixed_response_ok_is_noop() {
    let state = request_state();
    let result: Result<u32, Cause> = Ok(5);
    let mapped = result
        .map_err_with_customized_response(&state, |_state| Response::new(200, Vec::new(), Vec::new()));
    assert_eq!(mapped.map_err(|err| err.status()), Ok(5));
}

#[test]
fn test_status_override_keeps_stale_body() {
    let state = request_state();
    let result: Result<(), Cause> = Err(dummy_cause());
    let customized = result
        .map_err_with_customized_response(&state, |_state| {
            Response::new(200, Vec::new(), b"stale".to_vec())
        });
    let overridden = customized.map_err_with_status(500);
    let err = overridden.unwrap_err();
    assert_eq!(err.status(), 500);
    let response = err.into_response(&state);
    assert_eq!(response.status(), 200);
    assert_eq!(response.body(), &b"stale".to_vec());
}

#[test]
fn test_future_pending_is_no_change() {
    let fut = DummyFut.map_err_with_status(418);
    assert!(!fut.is_terminated());
    let (fut, out) = fut.poll::<u32>(Poll::Pending);
    assert!(matches!(out, Poll::Pending));
    assert!(!fut.is_terminated());
}

#[test]
fn test_future_completion_maps_once() {
    let fut = DummyFut.map_err_with_status(418);
    let (fut, out) = fut.poll::<u32>(Poll::Pending);
    let (fut, out2) = fut.poll::<u32>(Poll::Ready(Err(dummy_cause())));
    assert!(matches!(out, Poll::Pending));
    assert!(fut.is_terminated());
    match out2 {
        Poll::Ready(Err(err)) => {
            assert_eq!(err.status(), 418);
            assert!(err.downcast_cause_ref(DUMMY_ERROR_TAG).is_some());
        }
        _ => panic!("the completing poll must yield the mapped result"),
    }
}

#[test]
fn test_future_completion_with_ok() {
    let fut = DummyFut.map_err_with_status(418);
    let (fut, out) = fut.poll(Poll::Ready(Ok(7u32)));
    assert!(fut.is_terminated());
    match out {
        Poll::Ready(Ok(v)) => assert_eq!(v, 7),
        _ => panic!("the completing poll must pass the success through"),
    }
}

#[test]
fn test_materialize_default() {
    let state = request_state();
    let err = error_prone().unwrap_err();
    let record = err.observability_record(&state);
    assert_eq!(
        record,
        "[req-1] HandlerError is generating 500 Internal Server Error response: Dummy Error"
    );
    let response = err.into_response(&state);
    assert_eq!(response.status(), 500);
    assert!(response.body().is_empty());
    assert!(response.headers().is_empty());
}

#[test]
fn test_materialize_custom_json() {
    let state = request_state();
    let result: Result<(), Cause> = Err(dummy_cause());
    let mapped = result.map_err_with_customized_response(&state, |_state| {
        let headers = vec![("content-type".to_string(), "application/json".to_string())];
        Response::new(200, headers, b"{\"ok\":true}".to_vec())
    });
    let err = mapped.unwrap_err();
    assert!(err.downcast_cause_ref(DUMMY_ERROR_TAG).is_some());
    let record = err.observability_record(&state);
    assert!(record.contains("Dummy Error"));
    assert!(record.contains("200 OK"));
    let response = err.into_response(&state);
    assert_eq!(response.status(), 200);
    assert_eq!(response.body(), &b"{\"ok\":true}".to_vec());
    assert_eq!(
        response.headers(),
        &vec![("content-type".to_string(), "application/json".to_string())]
    );
}

#[test]
fn test_unregistered_status_phrase() {
    let state = request_state();
    let err = error_prone().unwrap_err().with_status(599);
    let record = err.observability_record(&state);
    assert_eq!(
        record,
        "[req-1] HandlerError is generating 599 (unregistered) response: Dummy Error"
    );
}
