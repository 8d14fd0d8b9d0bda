//! The payloads that travel through the gateway and the bodies it answers with.

use vstd::prelude::*;

verus! {

/// `serde_json::Map`, the JSON object. It is carried through as it is:
/// nothing here looks into one.
#[verifier::external_type_specification]
#[verifier::external_body]
#[verifier::reject_recursive_types(K)]
#[verifier::reject_recursive_types(V)]
pub struct ExJsonMap<K, V>(serde_json::Map<K, V>);

/// `serde_json::Value`, a JSON value: what the members of an object hold.
#[verifier::external_type_specification]
#[verifier::external_body]
pub struct ExJsonValue(serde_json::Value);

/// The names of the members that a JSON object holds.
pub uninterp spec fn object_keys(object: serde_json::Map<String, serde_json::Value>) -> Set<
    Seq<char>,
>;

/// `serde_json::Map::new`: the object without members.
#[verifier::external_body]
fn empty_object() -> (object: serde_json::Map<String, serde_json::Value>)
    ensures
        object_keys(object) == Set::<Seq<char>>::empty(),
{
    serde_json::Map::new()
}

/// `Clone::clone` of `serde_json::Map`: a copy that equals the object it was
/// made of.
#[verifier::external_body]
fn clone_object(object: &serde_json::Map<String, serde_json::Value>) -> (copy: serde_json::Map<
    String,
    serde_json::Value,
>)
    ensures
        copy == *object,
{
    object.clone()
}

/// The JSON object that a caller sends in: the event of one invocation.
#[derive(Debug, PartialEq)]
pub struct RequestEvent(pub serde_json::Map<String, serde_json::Value>);

impl Clone for RequestEvent {
    fn clone(&self) -> (res: Self)
        ensures
            res == *self,
    {
        RequestEvent(clone_object(&self.0))
    }
}

/// The JSON object that a worker answers with.
#[derive(Debug, PartialEq)]
pub struct EventResponse(pub serde_json::Map<String, serde_json::Value>);

impl EventResponse {
    /// The response `{}`, which stands for a worker's empty body.
    pub fn empty() -> (res: Self)
        ensures
            object_keys(res.0) == Set::<Seq<char>>::empty(),
    {
        EventResponse(empty_object())
    }
}

impl Clone for EventResponse {
    fn clone(&self) -> (res: Self)
        ensures
            res == *self,
    {
        EventResponse(clone_object(&self.0))
    }
}

/// The body of an answer that only reports a status.
#[derive(Debug, PartialEq, Eq)]
pub struct StatusResponse {
    pub status: String,
}

/// The body of an answer that reports a failure.
#[derive(Debug, PartialEq, Eq)]
pub struct ErrorResponse {
    pub error_message: String,
    pub error_type: String,
}

/// What the gateway answers when a worker posts the outcome of an invocation.
#[derive(Debug, PartialEq, Eq)]
pub enum InvocationResponse {
    Status(StatusResponse),
    Error(ErrorResponse),
}

/// What the gateway answers when a worker polls for its next invocation.
#[derive(Debug, PartialEq)]
pub enum InvocationNextResponse {
    ErrorResponse(ErrorResponse),
    EventResponse(EventResponse),
}

/// The body with which a worker reports that an invocation failed.
#[derive(Debug, PartialEq, Eq)]
pub struct ErrorRequest {
    error_message: String,
    error_type: String,
    stack_trace: String,
}

} // verus!
