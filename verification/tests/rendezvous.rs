use rambda::types::{EventResponse, RequestEvent};
use rambda::{AWSRequestId, RequestChannel, ResponseMap, SendRequestEventToChannelError};
use serde_json::Value;

fn event(value: &str) -> RequestEvent {
    let mut map = serde_json::Map::new();
    map.insert("key".to_string(), Value::String(value.to_string()));
    RequestEvent(map)
}

fn response(value: &str) -> EventResponse {
    let mut map = serde_json::Map::new();
    map.insert("key".to_string(), Value::String(value.to_string()));
    EventResponse(map)
}

#[test]
fn rendezvous_holds_one_pair_at_most() {
    let mut chan = RequestChannel::new();
    assert!(!chan.is_full());
    assert_eq!(chan.send_request(&AWSRequestId("a".to_string()), event("a")), Ok(()));
    assert!(chan.is_full());
    assert_eq!(
        chan.send_request(&AWSRequestId("b".to_string()), event("b")),
        Err(SendRequestEventToChannelError::FailedToSend)
    );
    assert_eq!(
        chan.send_request(&AWSRequestId("c".to_string()), event("c")),
        Err(SendRequestEventToChannelError::FailedToSend)
    );
    assert_eq!(chan.recv_request(), Some((AWSRequestId("a".to_string()), event("a"))));
    assert!(!chan.is_full());
    assert_eq!(chan.recv_request(), None);
    assert_eq!(chan.send_request(&AWSRequestId("b".to_string()), event("b")), Ok(()));
    assert_eq!(chan.recv_request(), Some((AWSRequestId("b".to_string()), event("b"))));
}

#[test]
fn empty_rendezvous_has_nothing_to_receive() {
    let mut chan = RequestChannel::default();
    assert!(!chan.is_full());
    assert_eq!(chan.recv_request(), None);
}

#[test]
fn mailbox_takes_one_deposit_and_gives_one_response() {
    let mut map = ResponseMap::new();
    let id = AWSRequestId("once".to_string());
    map.add_new_request(id.clone());
    assert!(map.is_awaiting(&id));
    assert_eq!(map.get_response(&id), None);
    assert!(map.is_awaiting(&id));
    assert_eq!(map.send_response(id.clone(), response("first")), Ok(()));
    assert!(!map.is_awaiting(&id));
    assert_eq!(
        map.send_response(id.clone(), response("second")),
        Err("Sender already taken".to_string())
    );
    assert_eq!(map.get_response(&id), Some(response("first")));
    assert_eq!(map.get_response(&id), None);
    assert_eq!(
        map.send_response(id.clone(), response("third")),
        Err("Sender already taken".to_string())
    );
    assert_eq!(map.get_response(&id), None);
}

#[test]
fn response_is_the_one_that_was_deposited() {
    let mut map = ResponseMap::default();
    let one = AWSRequestId("one".to_string());
    let two = AWSRequestId("two".to_string());
    map.add_new_request(one.clone());
    map.add_new_request(two.clone());
    assert_eq!(map.send_response(two.clone(), response("for two")), Ok(()));
    assert_eq!(map.get_response(&one), None);
    assert_eq!(map.send_response(one.clone(), response("for one")), Ok(()));
    assert_eq!(map.get_response(&one), Some(response("for one")));
    assert_eq!(map.get_response(&two), Some(response("for two")));
}

#[test]
fn deposit_for_an_unknown_invocation_fails() {
    let mut map = ResponseMap::new();
    assert_eq!(
        map.send_response(AWSRequestId("unknown-id".to_string()), response("lost")),
        Err("Sender already taken".to_string())
    );
    assert_eq!(map.get_response(&AWSRequestId("unknown-id".to_string())), None);
    assert!(!map.is_awaiting(&AWSRequestId("unknown-id".to_string())));
}

#[test]
fn deposit_after_the_caller_left_fails() {
    let mut map = ResponseMap::new();
    let id = AWSRequestId("left".to_string());
    map.add_new_request(id.clone());
    map.abandon(&id);
    assert!(!map.is_awaiting(&id));
    assert_eq!(map.get_response(&id), None);
    assert_eq!(
        map.send_response(id.clone(), response("late")),
        Err("Failed to send response".to_string())
    );
    assert_eq!(
        map.send_response(id.clone(), response("later")),
        Err("Sender already taken".to_string())
    );
}

#[test]
fn caller_that_leaves_a_filled_mailbox_drops_the_response() {
    let mut map = ResponseMap::new();
    let id = AWSRequestId("filled".to_string());
    map.add_new_request(id.clone());
    assert_eq!(map.send_response(id.clone(), response("unread")), Ok(()));
    map.abandon(&id);
    assert_eq!(map.get_response(&id), None);
    map.abandon(&id);
    assert_eq!(map.get_response(&id), None);
}

#[test]
fn registering_again_makes_a_fresh_mailbox() {
    let mut map = ResponseMap::new();
    let id = AWSRequestId("again".to_string());
    map.add_new_request(id.clone());
    assert_eq!(map.send_response(id.clone(), response("old")), Ok(()));
    map.add_new_request(id.clone());
    assert!(map.is_awaiting(&id));
    assert_eq!(map.get_response(&id), None);
    assert_eq!(map.send_response(id.clone(), response("new")), Ok(()));
    assert_eq!(map.get_response(&id), Some(response("new")));
}

#[test]
fn identifiers_compare_by_their_strings() {
    assert_eq!(AWSRequestId("a".to_string()), AWSRequestId("a".to_string()));
    assert_ne!(AWSRequestId("a".to_string()), AWSRequestId("b".to_string()));
    let id = AWSRequestId("copy".to_string());
    assert_eq!(id.clone(), id);
}
