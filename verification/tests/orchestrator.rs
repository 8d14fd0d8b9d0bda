use rambda::api::{
    invocation_error, invocation_next, invocation_response, rambda, rambda_response, AppState,
};
use rambda::handler::{Invocation, InvocationState, Progress, RETRY_DELAY_MS};
use rambda::types::{
    ErrorResponse, EventResponse, InvocationNextResponse, InvocationResponse, RequestEvent,
    StatusResponse,
};
use rambda::{
    invocation_next_handler, invocation_response_handler, rambda_handler, AWSRequestId,
    RequestChannel, ResponseMap, Runtime, RuntimeGenerator, RuntimeId, RuntimeManager,
};
use serde_json::Value;
use std::cell::RefCell;
use std::rc::Rc;

struct MockRuntimeGenerator {
    initd_runtimes: Rc<RefCell<Vec<Runtime>>>,
}

impl MockRuntimeGenerator {
    fn new() -> Self {
        MockRuntimeGenerator { initd_runtimes: Rc::new(RefCell::new(Vec::new())) }
    }
}

impl RuntimeGenerator for MockRuntimeGenerator {
    fn init(&self) -> Result<Runtime, String> {
        let len = self.initd_runtimes.borrow().len();
        let runtime = Runtime::new(RuntimeId(format!("runtime_{}", len)), 0);
        self.initd_runtimes.borrow_mut().push(runtime.clone());
        Ok(runtime)
    }

    fn kill(&self, _runtime_id: &RuntimeId) -> Result<(), String> {
        Ok(())
    }

    fn clone(&self) -> Self {
        MockRuntimeGenerator { initd_runtimes: self.initd_runtimes.clone() }
    }
}

struct FailingGenerator;

impl RuntimeGenerator for FailingGenerator {
    fn init(&self) -> Result<Runtime, String> {
        Err("no worker to be had".to_string())
    }

    fn kill(&self, _runtime_id: &RuntimeId) -> Result<(), String> {
        Err("no worker to stop".to_string())
    }

    fn clone(&self) -> Self {
        FailingGenerator
    }
}

fn new_mock_gen_id(id: String) -> impl Fn() -> String {
    move || id.clone()
}

fn object(key: &str, value: String) -> serde_json::Map<String, Value> {
    let mut map = serde_json::Map::new();
    map.insert(key.to_string(), Value::String(value));
    map
}

#[test]
fn test_rambda_handler() {
    let mut request_map = RequestChannel::default();
    let mut response_map = ResponseMap::default();

    for i in 0..100 {
        let request_event = RequestEvent(object("key", format!("event_{}", i)));

        let id = format!("test_{}", i);
        let mut manager = RuntimeManager::new(MockRuntimeGenerator::new(), 0);
        let (mut invocation, progress) = rambda_handler(
            request_event.clone(),
            &mut request_map,
            &mut response_map,
            &mut manager,
            new_mock_gen_id(id.clone()),
        );
        assert!(matches!(progress, Progress::Waiting));
        let aws_request_id = AWSRequestId(id.clone());
        let wait_invocation_next = invocation_next_handler(&mut request_map);
        let response = object("key", format!("response_{}", i));
        let wait_invocation_response = invocation_response_handler(
            &mut response_map,
            aws_request_id.clone(),
            EventResponse(response.clone()),
        );
        let rambda_handler_result =
            match invocation.resume(&mut request_map, &mut response_map, &mut manager) {
                Progress::Done(response) => response,
                _ => panic!("the response was deposited and has to be returned"),
            };
        assert_eq!(rambda_handler_result, EventResponse(response));
        assert_eq!(wait_invocation_next, Some((aws_request_id, request_event)));
        assert_eq!(wait_invocation_response, Ok(()));
    }
}

#[test]
fn single_invocation_through_the_gateway() {
    let mut state = AppState::new(RuntimeManager::new(MockRuntimeGenerator::new(), 10000));
    let event = RequestEvent(object("key", "event_0".to_string()));
    let mut invocation = Invocation::new(AWSRequestId("test_0".to_string()), event.clone());
    assert_eq!(invocation.state(), InvocationState::Minted);
    assert!(matches!(state.resume(&mut invocation), Progress::Waiting));
    assert_eq!(invocation.state(), InvocationState::Awaiting);

    let (headers, body) = invocation_next(&mut state).expect("an invocation is pending");
    assert_eq!(
        headers,
        vec![
            ("Lambda-Runtime-Aws-Request-Id".to_string(), "test_0".to_string()),
            ("Lambda-Runtime-Trace-Id".to_string(), "trace-id".to_string()),
            (
                "Lambda-Runtime-Invoked-Function-Arn".to_string(),
                "arn:aws:lambda:us-east-1:123456789012:function:my-function".to_string()
            ),
            ("Lambda-Runtime-Deadline-Ms".to_string(), "3000".to_string()),
        ]
    );
    assert_eq!(
        body,
        InvocationNextResponse::EventResponse(EventResponse(object(
            "key",
            "event_0".to_string()
        )))
    );
    assert!(invocation_next(&mut state).is_none());

    assert!(matches!(state.resume(&mut invocation), Progress::Waiting));

    let posted = EventResponse(object("key", "response_0".to_string()));
    let (status, answer) = invocation_response(&mut state, "test_0".to_string(), Some(posted));
    assert_eq!(status, 202);
    assert_eq!(answer, InvocationResponse::Status(StatusResponse { status: "OK".to_string() }));

    match state.resume(&mut invocation) {
        Progress::Done(response) => {
            assert_eq!(response, EventResponse(object("key", "response_0".to_string())))
        }
        _ => panic!("the response was deposited and has to be returned"),
    }
    assert_eq!(invocation.state(), InvocationState::Done);
    assert!(matches!(state.resume(&mut invocation), Progress::Gone));
    assert_eq!(invocation.state(), InvocationState::Done);
}

#[test]
fn hundred_invocations_without_cross_talk() {
    let mut state = AppState::new(RuntimeManager::new(MockRuntimeGenerator::new(), 10000));
    let mut invocations = Vec::new();
    for i in 0..100 {
        let event = RequestEvent(object("key", format!("event_{}", i)));
        let mut invocation = Invocation::new(AWSRequestId(format!("test_{}", i)), event);
        assert!(matches!(state.resume(&mut invocation), Progress::Waiting));
        let (headers, body) = invocation_next(&mut state).expect("an invocation is pending");
        assert_eq!(headers[0].1, format!("test_{}", i));
        assert_eq!(
            body,
            InvocationNextResponse::EventResponse(EventResponse(object(
                "key",
                format!("event_{}", i)
            )))
        );
        invocations.push(invocation);
    }
    for i in (0..100).rev() {
        let posted = EventResponse(object("key", format!("response_{}", i)));
        let (status, _) = invocation_response(&mut state, format!("test_{}", i), Some(posted));
        assert_eq!(status, 202);
    }
    for (i, invocation) in invocations.iter_mut().enumerate() {
        match state.resume(invocation) {
            Progress::Done(response) => {
                assert_eq!(response, EventResponse(object("key", format!("response_{}", i))))
            }
            _ => panic!("every caller gets its own response"),
        }
    }
}

#[test]
fn full_rendezvous_asks_for_a_worker() {
    let generator = MockRuntimeGenerator::new();
    let spawned = generator.initd_runtimes.clone();
    let mut state = AppState::new(RuntimeManager::new(generator, 10000));

    let first = RequestEvent(object("key", "first".to_string()));
    let mut waiting = Invocation::new(AWSRequestId("first".to_string()), first);
    assert!(matches!(state.resume(&mut waiting), Progress::Waiting));
    assert_eq!(spawned.borrow().len(), 0);

    let second = RequestEvent(object("key", "second".to_string()));
    let mut blocked = Invocation::new(AWSRequestId("second".to_string()), second.clone());
    match state.resume(&mut blocked) {
        Progress::Retry { delay_ms, spawned: Ok(worker) } => {
            assert_eq!(delay_ms, 100);
            assert_eq!(delay_ms, RETRY_DELAY_MS);
            assert_eq!(worker, Runtime::new(RuntimeId("runtime_0".to_string()), 0));
        }
        _ => panic!("a full rendezvous has to ask for a retry"),
    }
    assert_eq!(blocked.state(), InvocationState::Minted);
    assert_eq!(spawned.borrow().len(), 1);
    assert_eq!(state.runtime_manager().runtimes().len(), 1);

    assert!(matches!(state.resume(&mut blocked), Progress::Retry { .. }));
    assert_eq!(spawned.borrow().len(), 2);
    assert_eq!(state.runtime_manager().runtimes().len(), 2);

    let (headers, _) = invocation_next(&mut state).expect("the first invocation is pending");
    assert_eq!(headers[0].1, "first");
    assert!(matches!(state.resume(&mut blocked), Progress::Waiting));
    assert_eq!(blocked.state(), InvocationState::Awaiting);
    assert_eq!(spawned.borrow().len(), 2);

    let (headers, body) = invocation_next(&mut state).expect("the second invocation is pending");
    assert_eq!(headers[0].1, "second");
    assert_eq!(body, InvocationNextResponse::EventResponse(EventResponse(second.0)));
    let posted = EventResponse(object("key", "done".to_string()));
    assert_eq!(invocation_response(&mut state, "second".to_string(), Some(posted.clone())).0, 202);
    match state.resume(&mut blocked) {
        Progress::Done(response) => assert_eq!(response, posted),
        _ => panic!("the response was deposited and has to be returned"),
    }
}

#[test]
fn full_rendezvous_with_a_failing_spawner_still_retries() {
    let mut chan = RequestChannel::default();
    let mut map = ResponseMap::default();
    let mut manager = RuntimeManager::new(FailingGenerator, 10000);
    let event = RequestEvent(object("key", "value".to_string()));
    let (_first, progress) = rambda_handler(
        event.clone(),
        &mut chan,
        &mut map,
        &mut manager,
        new_mock_gen_id("a".to_string()),
    );
    assert!(matches!(progress, Progress::Waiting));
    let (second, progress) =
        rambda_handler(event, &mut chan, &mut map, &mut manager, new_mock_gen_id("b".to_string()));
    match progress {
        Progress::Retry { delay_ms, spawned } => {
            assert_eq!(delay_ms, 100);
            assert_eq!(spawned, Err("no worker to be had".to_string()));
        }
        _ => panic!("a full rendezvous has to ask for a retry"),
    }
    assert_eq!(second.id(), &AWSRequestId("b".to_string()));
    assert_eq!(second.state(), InvocationState::Minted);
    assert!(manager.runtimes().is_empty());
    assert!(!map.is_awaiting(&AWSRequestId("b".to_string())));
}

#[test]
fn deposit_without_mailbox() {
    let mut state = AppState::new(RuntimeManager::new(MockRuntimeGenerator::new(), 10000));
    let (status, body) =
        invocation_response(&mut state, "unknown-id".to_string(), Some(EventResponse::empty()));
    assert_eq!(status, 500);
    assert_eq!(
        body,
        InvocationResponse::Error(ErrorResponse {
            error_message: "Sender already taken".to_string(),
            error_type: "NoResponse".to_string(),
        })
    );
}

#[test]
fn empty_response_body() {
    let mut state = AppState::new(RuntimeManager::new(MockRuntimeGenerator::new(), 10000));
    let event = RequestEvent(object("key", "value".to_string()));
    let mut invocation = Invocation::new(AWSRequestId("test_x".to_string()), event);
    assert!(matches!(state.resume(&mut invocation), Progress::Waiting));
    assert!(invocation_next(&mut state).is_some());
    let (status, _) = invocation_response(&mut state, "test_x".to_string(), None);
    assert_eq!(status, 202);
    match state.resume(&mut invocation) {
        Progress::Done(response) => {
            assert!(response.0.is_empty());
            assert_eq!(response, EventResponse(serde_json::Map::new()));
            assert_eq!(serde_json::to_string(&response.0).unwrap(), "{}");
        }
        _ => panic!("the response was deposited and has to be returned"),
    }
}

#[test]
fn empty_response_is_the_empty_object() {
    let empty = EventResponse::empty();
    assert_eq!(empty.0.len(), 0);
    assert_eq!(empty, EventResponse(serde_json::Map::new()));
}

#[test]
fn error_report_is_deposited_as_a_response_is() {
    let mut state = AppState::new(RuntimeManager::new(MockRuntimeGenerator::new(), 10000));
    let event = RequestEvent(object("key", "event_0".to_string()));
    let mut invocation = Invocation::new(AWSRequestId("test_0".to_string()), event);
    assert!(matches!(state.resume(&mut invocation), Progress::Waiting));
    assert!(invocation_next(&mut state).is_some());

    let report = EventResponse(object("errorMessage", "the handler failed".to_string()));
    let (status, answer) = invocation_error(&mut state, "test_0".to_string(), Some(report.clone()));
    assert_eq!(status, 202);
    assert_eq!(answer, InvocationResponse::Status(StatusResponse { status: "OK".to_string() }));
    match state.resume(&mut invocation) {
        Progress::Done(response) => assert_eq!(response, report),
        _ => panic!("the report was deposited and has to release the caller"),
    }

    let (status, answer) = invocation_error(&mut state, "test_0".to_string(), Some(report));
    assert_eq!(status, 500);
    assert_eq!(
        answer,
        InvocationResponse::Error(ErrorResponse {
            error_message: "Sender already taken".to_string(),
            error_type: "NoResponse".to_string(),
        })
    );
}

#[test]
fn error_report_without_mailbox() {
    let mut state = AppState::new(RuntimeManager::new(MockRuntimeGenerator::new(), 10000));
    let (status, body) =
        invocation_error(&mut state, "unknown-id".to_string(), Some(EventResponse::empty()));
    assert_eq!(status, 500);
    assert_eq!(
        body,
        InvocationResponse::Error(ErrorResponse {
            error_message: "Sender already taken".to_string(),
            error_type: "NoResponse".to_string(),
        })
    );
}

#[test]
fn error_report_with_an_empty_body() {
    let mut state = AppState::new(RuntimeManager::new(MockRuntimeGenerator::new(), 10000));
    let event = RequestEvent(object("key", "value".to_string()));
    let mut invocation = Invocation::new(AWSRequestId("test_x".to_string()), event);
    assert!(matches!(state.resume(&mut invocation), Progress::Waiting));
    assert!(invocation_next(&mut state).is_some());
    assert_eq!(invocation_error(&mut state, "test_x".to_string(), None).0, 202);
    match state.resume(&mut invocation) {
        Progress::Done(response) => assert!(response.0.is_empty()),
        _ => panic!("the report was deposited and has to release the caller"),
    }
}

#[test]
fn error_report_after_the_caller_left() {
    let mut state = AppState::new(RuntimeManager::new(MockRuntimeGenerator::new(), 10000));
    let event = RequestEvent(object("key", "value".to_string()));
    let mut invocation = Invocation::new(AWSRequestId("left".to_string()), event);
    assert!(matches!(state.resume(&mut invocation), Progress::Waiting));
    state.cancel(&mut invocation);
    let (status, body) = invocation_error(&mut state, "left".to_string(), None);
    assert_eq!(status, 500);
    assert_eq!(
        body,
        InvocationResponse::Error(ErrorResponse {
            error_message: "Failed to send response".to_string(),
            error_type: "NoResponse".to_string(),
        })
    );
}

#[test]
fn minted_identifiers_are_random_uuids() {
    let mut state = AppState::new(RuntimeManager::new(MockRuntimeGenerator::new(), 10000));
    let event = RequestEvent(object("key", "value".to_string()));
    let (first, progress) = rambda(&mut state, event.clone());
    assert!(matches!(progress, Progress::Waiting));
    assert_eq!(first.event(), &event);
    assert_eq!(first.id().0.len(), 36);
    assert_eq!(first.id().0.chars().filter(|c| *c == '-').count(), 4);
    let (second, progress) = rambda(&mut state, event);
    assert!(matches!(progress, Progress::Retry { .. }));
    assert_eq!(second.id().0.len(), 36);
    assert_ne!(first.id(), second.id());
    let (headers, _) = invocation_next(&mut state).expect("the first invocation is pending");
    assert_eq!(headers[0].1, first.id().0);
}

#[test]
fn invocation_keeps_a_copy_of_its_event() {
    let mut chan = RequestChannel::default();
    let mut map = ResponseMap::default();
    let mut manager = RuntimeManager::new(MockRuntimeGenerator::new(), 10000);
    let event = RequestEvent(object("key", "kept".to_string()));
    let (invocation, _) = rambda_handler(
        event.clone(),
        &mut chan,
        &mut map,
        &mut manager,
        new_mock_gen_id("copy".to_string()),
    );
    let (_, handed_over) = chan.recv_request().expect("the pair is pending");
    assert_eq!(handed_over, event);
    assert_eq!(invocation.event(), &event);
    assert_eq!(event.clone(), event);
}

#[test]
fn cancelled_caller_orphans_its_mailbox() {
    let mut state = AppState::new(RuntimeManager::new(MockRuntimeGenerator::new(), 10000));
    let event = RequestEvent(object("key", "value".to_string()));
    let mut invocation = Invocation::new(AWSRequestId("left".to_string()), event);
    assert!(matches!(state.resume(&mut invocation), Progress::Waiting));
    assert!(invocation_next(&mut state).is_some());
    state.cancel(&mut invocation);
    assert_eq!(invocation.state(), InvocationState::Gone);
    let (status, body) =
        invocation_response(&mut state, "left".to_string(), Some(EventResponse::empty()));
    assert_eq!(status, 500);
    assert_eq!(
        body,
        InvocationResponse::Error(ErrorResponse {
            error_message: "Failed to send response".to_string(),
            error_type: "NoResponse".to_string(),
        })
    );
    let (status, body) =
        invocation_response(&mut state, "left".to_string(), Some(EventResponse::empty()));
    assert_eq!(status, 500);
    assert_eq!(
        body,
        InvocationResponse::Error(ErrorResponse {
            error_message: "Sender already taken".to_string(),
            error_type: "NoResponse".to_string(),
        })
    );
    assert!(matches!(state.resume(&mut invocation), Progress::Gone));
}

#[test]
fn mailbox_that_went_ends_the_invocation() {
    let mut chan = RequestChannel::default();
    let mut map = ResponseMap::default();
    let mut manager = RuntimeManager::new(MockRuntimeGenerator::new(), 10000);
    let id = AWSRequestId("lost".to_string());
    let event = RequestEvent(object("key", "value".to_string()));
    let mut invocation = Invocation::new(id.clone(), event);
    assert!(matches!(invocation.resume(&mut chan, &mut map, &mut manager), Progress::Waiting));
    map.abandon(&id);
    assert!(matches!(invocation.resume(&mut chan, &mut map, &mut manager), Progress::Gone));
    assert_eq!(invocation.state(), InvocationState::Gone);
    assert!(matches!(invocation.resume(&mut chan, &mut map, &mut manager), Progress::Gone));
}

#[test]
fn caller_is_answered_with_the_response_or_an_error() {
    let response = EventResponse(object("key", "response_0".to_string()));
    assert_eq!(rambda_response(Some(response.clone())), (200, Ok(response)));
    assert_eq!(
        rambda_response(None),
        (
            500,
            Err(ErrorResponse {
                error_message: "Response channel closed".to_string(),
                error_type: "NoResponse".to_string(),
            })
        )
    );
}

#[test]
fn gateway_state_primes_and_reaps_its_pool() {
    let generator = MockRuntimeGenerator::new();
    let spawned = generator.initd_runtimes.clone();
    let mut state = AppState::new(RuntimeManager::new(generator, 1000));
    assert!(state.runtime_manager().runtimes().is_empty());
    assert_eq!(state.runtime_manager().lifetime_ms(), 1000);
    assert_eq!(state.bootstrap(), Ok(Runtime::new(RuntimeId("runtime_0".to_string()), 0)));
    assert_eq!(state.runtime_manager().runtimes().len(), 1);
    let report = state.gc();
    assert_eq!(report.kills.len(), 1);
    assert_eq!(report.kills[0].id, RuntimeId("runtime_0".to_string()));
    assert_eq!(report.spawned, Some(Ok(Runtime::new(RuntimeId("runtime_1".to_string()), 0))));
    assert_eq!(spawned.borrow().len(), 2);
    assert_eq!(state.runtime_manager().runtimes().len(), 1);
    assert!(invocation_next(&mut state).is_none());
}

#[test]
fn cancelling_before_the_hand_off_touches_no_mailbox() {
    let mut map = ResponseMap::default();
    let id = AWSRequestId("early".to_string());
    map.add_new_request(id.clone());
    let mut invocation =
        Invocation::new(id.clone(), RequestEvent(object("key", "value".to_string())));
    invocation.cancel(&mut map);
    assert_eq!(invocation.state(), InvocationState::Gone);
    assert!(map.is_awaiting(&id));
}
