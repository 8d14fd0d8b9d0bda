//! The gateway as its two HTTP surfaces see it: what each request does to the
//! shared state and what is answered, in plain values.

use vstd::prelude::*;
use crate::channel::RequestChannel;
use crate::handler::{
    invocation_next_handler, invocation_response_handler, rambda_handler, turn, Exchange,
    Invocation, InvocationState, InvocationView, Progress, Turn, RETRY_DELAY_MS,
};
use crate::id::AWSRequestId;
use crate::manager::{
    gc_roster, gc_spawns, killed_ids, spawned_worker, GcReport,
    RuntimeGenerator, RuntimeManager,
};
use crate::response_map::{
    abandoned, deposit_outcome, deposited, DepositOutcome, ResponseMap,
};
use crate::runtime::{Runtime, RuntimeView};
use crate::types::{
    object_keys, ErrorResponse, EventResponse, InvocationNextResponse, InvocationResponse,
    RequestEvent, StatusResponse,
};

verus! {

/// The status of the answer to a caller whose invocation returned a response.
pub const STATUS_OK: u16 = 200;

/// The status of the answer to a deposit that was accepted.
pub const STATUS_ACCEPTED: u16 = 202;

/// The status of the answer to a deposit that found no open mailbox.
pub const STATUS_INTERNAL_SERVER_ERROR: u16 = 500;

/// `uuid::Uuid::new_v4` and its `to_string`: a random identifier. Of the
/// value only its form is claimed, the hyphenated one of 36 characters.
/// Where the operating system gives no random bytes, `new_v4` panics.
#[verifier::external_body]
fn gen_id() -> (id: String)
    ensures
        id@.len() == 36,
{
    uuid::Uuid::new_v4().to_string()
}

/// What the handlers of the gateway share: the rendezvous, the response
/// registry and the runtime manager.
pub struct AppState<G: RuntimeGenerator> {
    request_chan: RequestChannel,
    response_map: ResponseMap,
    runtime_manager: RuntimeManager<G>,
}

/// The headers of the answer to a worker's poll, as names and values.
pub open spec fn next_headers(id: Seq<char>) -> Seq<(Seq<char>, Seq<char>)> {
    seq![
        ("Lambda-Runtime-Aws-Request-Id"@, id),
        ("Lambda-Runtime-Trace-Id"@, "trace-id"@),
        (
            "Lambda-Runtime-Invoked-Function-Arn"@,
            "arn:aws:lambda:us-east-1:123456789012:function:my-function"@,
        ),
        ("Lambda-Runtime-Deadline-Ms"@, "3000"@),
    ]
}

/// What a sequence of headers is.
pub open spec fn headers_of(headers: Seq<(String, String)>) -> Seq<(Seq<char>, Seq<char>)> {
    Seq::new(headers.len(), |i: int| (headers[i].0@, headers[i].1@))
}

impl<G: RuntimeGenerator> AppState<G> {
    /// The rendezvous and the registry.
    pub closed spec fn exchange(&self) -> Exchange {
        Exchange { slot: self.request_chan@, boxes: self.response_map@ }
    }

    /// The roster of the runtime manager.
    pub closed spec fn roster(&self) -> Seq<RuntimeView> {
        self.runtime_manager.roster()
    }

    /// The lifetime that the runtime manager grants a worker.
    pub closed spec fn lifetime(&self) -> u64 {
        self.runtime_manager.lifetime()
    }

    /// The state of a gateway that has seen no request: a free rendezvous and
    /// no mailboxes, around the given runtime manager.
    pub fn new(manager: RuntimeManager<G>) -> (state: Self)
        ensures
            state.exchange() == (Exchange { slot: None, boxes: Map::empty() }),
            state.roster() == manager.roster(),
            state.lifetime() == manager.lifetime(),
    {
        AppState {
            request_chan: RequestChannel::default(),
            response_map: ResponseMap::default(),
            runtime_manager: manager,
        }
    }

    /// The runtime manager.
    pub fn runtime_manager(&self) -> (manager: &RuntimeManager<G>)
        ensures
            manager.roster() == self.roster(),
            manager.lifetime() == self.lifetime(),
    {
        &self.runtime_manager
    }

    /// Primes the pool of workers: `RuntimeManager::bootstrap`.
    pub fn bootstrap(&mut self) -> (res: Result<Runtime, String>)
        ensures
            final(self).exchange() == old(self).exchange(),
            final(self).lifetime() == old(self).lifetime(),
            final(self).roster() == match res {
                Ok(worker) => old(self).roster().push(worker@),
                Err(_) => old(self).roster(),
            },
    {
        self.runtime_manager.bootstrap()
    }

    /// One tick of the reaper at the time on the system's clock:
    /// `RuntimeManager::gc`.
    pub fn gc(&mut self) -> (report: GcReport)
        ensures
            final(self).exchange() == old(self).exchange(),
            killed_ids(report.kills@) == crate::runtime::expired_ids(
                old(self).roster(),
                old(self).lifetime(),
                report.now_ms,
            ),
            report.spawned is Some <==> gc_spawns(
                old(self).roster(),
                old(self).lifetime(),
                report.now_ms,
            ),
            final(self).lifetime() == old(self).lifetime(),
            final(self).roster() == gc_roster(
                old(self).roster(),
                old(self).lifetime(),
                report.now_ms,
                spawned_worker(report.spawned),
            ),
    {
        self.runtime_manager.gc()
    }

    /// The next turn of an invocation: `Invocation::resume`.
    pub fn resume(&mut self, invocation: &mut Invocation) -> (progress: Progress)
        ensures
            (Turn {
                invocation: final(invocation)@,
                exchange: final(self).exchange(),
                outcome: progress.outcome(),
            }) == turn(old(invocation)@, old(self).exchange()),
            final(self).lifetime() == old(self).lifetime(),
            final(self).roster() == match progress {
                Progress::Retry { spawned: Ok(worker), .. } => old(self).roster().push(worker@),
                _ => old(self).roster(),
            },
            progress matches Progress::Retry { delay_ms, .. } ==> delay_ms == RETRY_DELAY_MS,
    {
        invocation.resume(
            &mut self.request_chan,
            &mut self.response_map,
            &mut self.runtime_manager,
        )
    }

    /// Records that the caller of an invocation went away:
    /// `Invocation::cancel`.
    pub fn cancel(&mut self, invocation: &mut Invocation)
        ensures
            final(invocation)@.id == old(invocation)@.id,
            final(invocation)@.event == old(invocation)@.event,
            final(invocation)@.state == match old(invocation)@.state {
                InvocationState::Done => InvocationState::Done,
                _ => InvocationState::Gone,
            },
            final(self).roster() == old(self).roster(),
            final(self).lifetime() == old(self).lifetime(),
            final(self).exchange().slot == old(self).exchange().slot,
            final(self).exchange().boxes == if old(invocation)@.state
                == InvocationState::Awaiting {
                abandoned(old(self).exchange().boxes, old(invocation)@.id)
            } else {
                old(self).exchange().boxes
            },
    {
        invocation.cancel(&mut self.response_map)
    }
}

/// The caller-facing request: starts an invocation of `event` under a fresh
/// random identifier and takes its first turn.
pub fn rambda<G: RuntimeGenerator>(state: &mut AppState<G>, event: RequestEvent) -> (started: (
    Invocation,
    Progress,
))
    ensures
        started.0@.id.len() == 36,
        started.0@.event == event,
        (Turn {
            invocation: started.0@,
            exchange: final(state).exchange(),
            outcome: started.1.outcome(),
        }) == turn(
            InvocationView { state: InvocationState::Minted, ..started.0@ },
            old(state).exchange(),
        ),
        final(state).lifetime() == old(state).lifetime(),
        final(state).roster() == match started.1 {
            Progress::Retry { spawned: Ok(worker), .. } => old(state).roster().push(worker@),
            _ => old(state).roster(),
        },
        started.1 matches Progress::Retry { delay_ms, .. } ==> delay_ms == RETRY_DELAY_MS,
{
    rambda_handler(
        event,
        &mut state.request_chan,
        &mut state.response_map,
        &mut state.runtime_manager,
        gen_id,
    )
}

/// The answer to a caller whose invocation has ended. A response is handed on
/// as it is, with the status 200. Where the mailbox went without a response
/// the caller gets the status 500 and an error body of the type `NoResponse`.
pub fn rambda_response(response: Option<EventResponse>) -> (res: (
    u16,
    Result<EventResponse, ErrorResponse>,
))
    ensures
        match response {
            Some(body) => res == (STATUS_OK, Ok::<EventResponse, ErrorResponse>(body)),
            None => {
                &&& res.0 == STATUS_INTERNAL_SERVER_ERROR
                &&& res.1 matches Err(body)
                &&& body.error_message@ == "Response channel closed"@
                &&& body.error_type@ == "NoResponse"@
            },
        },
{
    match response {
        Some(body) => (STATUS_OK, Ok(body)),
        None => (
            STATUS_INTERNAL_SERVER_ERROR,
            Err(
                ErrorResponse {
                    error_message: "Response channel closed".to_owned(),
                    error_type: "NoResponse".to_owned(),
                },
            ),
        ),
    }
}

/// A worker's poll for its next invocation. Where one is pending it leaves
/// the rendezvous, and the answer is its event, under headers that name
/// the invocation. Where none is pending there is no answer yet.
pub fn invocation_next<G: RuntimeGenerator>(state: &mut AppState<G>) -> (res: Option<
    (Vec<(String, String)>, InvocationNextResponse),
>)
    ensures
        final(state).exchange() == (Exchange { slot: None, boxes: old(state).exchange().boxes }),
        final(state).roster() == old(state).roster(),
        final(state).lifetime() == old(state).lifetime(),
        match res {
            Some((headers, body)) => {
                &&& old(state).exchange().slot matches Some(pending)
                &&& headers_of(headers@) == next_headers(pending.id)
                &&& body == InvocationNextResponse::EventResponse(EventResponse(pending.event.0))
            },
            None => old(state).exchange().slot is None,
        },
{
    match invocation_next_handler(&mut state.request_chan) {
        Some((aws_request_id, request_event)) => {
            let mut headers: Vec<(String, String)> = Vec::new();
            headers.push(("Lambda-Runtime-Aws-Request-Id".to_owned(), aws_request_id.0));
            headers.push(("Lambda-Runtime-Trace-Id".to_owned(), "trace-id".to_owned()));
            headers.push(
                (
                    "Lambda-Runtime-Invoked-Function-Arn".to_owned(),
                    "arn:aws:lambda:us-east-1:123456789012:function:my-function".to_owned(),
                ),
            );
            headers.push(("Lambda-Runtime-Deadline-Ms".to_owned(), "3000".to_owned()));
            assert(headers_of(headers@) == next_headers(aws_request_id@));
            Some((headers, InvocationNextResponse::EventResponse(EventResponse(request_event.0))))
        },
        None => None,
    }
}

/// A worker's post of the response to the invocation `aws_request_id`. A
/// missing body stands for the response `{}`. The response is deposited; the
/// answer is the status 202 with the body `OK` if the deposit was accepted,
/// and else the status 500 with an error body of the type `NoResponse` that
/// says why it was not.
pub fn invocation_response<G: RuntimeGenerator>(
    state: &mut AppState<G>,
    aws_request_id: String,
    event_response: Option<EventResponse>,
) -> (res: (u16, InvocationResponse))
    ensures
        final(state).roster() == old(state).roster(),
        final(state).lifetime() == old(state).lifetime(),
        final(state).exchange().slot == old(state).exchange().slot,
        match event_response {
            Some(response) => final(state).exchange().boxes == deposited(
                old(state).exchange().boxes,
                aws_request_id@,
                response,
            ),
            None => exists|response: EventResponse|
                object_keys(response.0) == Set::<Seq<char>>::empty()
                    && final(state).exchange().boxes == #[trigger] deposited(
                    old(state).exchange().boxes,
                    aws_request_id@,
                    response,
                ),
        },
        match deposit_outcome(old(state).exchange().boxes, aws_request_id@) {
            DepositOutcome::Accepted => {
                &&& res.0 == STATUS_ACCEPTED
                &&& res.1 matches InvocationResponse::Status(body)
                &&& body.status@ == "OK"@
            },
            DepositOutcome::ReceiverGone => {
                &&& res.0 == STATUS_INTERNAL_SERVER_ERROR
                &&& res.1 matches InvocationResponse::Error(body)
                &&& body.error_message@ == "Failed to send response"@
                &&& body.error_type@ == "NoResponse"@
            },
            DepositOutcome::NoSender => {
                &&& res.0 == STATUS_INTERNAL_SERVER_ERROR
                &&& res.1 matches InvocationResponse::Error(body)
                &&& body.error_message@ == "Sender already taken"@
                &&& body.error_type@ == "NoResponse"@
            },
        },
{
    let response = match event_response {
        Some(response) => response,
        None => EventResponse::empty(),
    };
    let ghost deposit = response;
    let send_result = invocation_response_handler(
        &mut state.response_map,
        AWSRequestId(aws_request_id),
        response,
    );
    assert(state.exchange().boxes == deposited(
        old(state).exchange().boxes,
        aws_request_id@,
        deposit,
    ));
    match send_result {
        Ok(_) => (
            STATUS_ACCEPTED,
            InvocationResponse::Status(StatusResponse { status: "OK".to_owned() }),
        ),
        Err(s) => (
            STATUS_INTERNAL_SERVER_ERROR,
            InvocationResponse::Error(
                ErrorResponse { error_message: s, error_type: "NoResponse".to_owned() },
            ),
        ),
    }
}

/// A worker's post of an error report for the invocation `aws_request_id`.
/// It is treated as a post of a response is: the posted object, or `{}` for
/// a missing body, is deposited, so that the caller who waits is released
/// with it. The answer is the status 202 with the body `OK` if the deposit
/// was accepted, and else the status 500 with an error body of the type
/// `NoResponse` that says why it was not.
pub fn invocation_error<G: RuntimeGenerator>(
    state: &mut AppState<G>,
    aws_request_id: String,
    event_response: Option<EventResponse>,
) -> (res: (u16, InvocationResponse))
    ensures
        final(state).roster() == old(state).roster(),
        final(state).lifetime() == old(state).lifetime(),
        final(state).exchange().slot == old(state).exchange().slot,
        match event_response {
            Some(response) => final(state).exchange().boxes == deposited(
                old(state).exchange().boxes,
                aws_request_id@,
                response,
            ),
            None => exists|response: EventResponse|
                object_keys(response.0) == Set::<Seq<char>>::empty()
                    && final(state).exchange().boxes == #[trigger] deposited(
                    old(state).exchange().boxes,
                    aws_request_id@,
                    response,
                ),
        },
        match deposit_outcome(old(state).exchange().boxes, aws_request_id@) {
            DepositOutcome::Accepted => {
                &&& res.0 == STATUS_ACCEPTED
                &&& res.1 matches InvocationResponse::Status(body)
                &&& body.status@ == "OK"@
            },
            DepositOutcome::ReceiverGone => {
                &&& res.0 == STATUS_INTERNAL_SERVER_ERROR
                &&& res.1 matches InvocationResponse::Error(body)
                &&& body.error_message@ == "Failed to send response"@
                &&& body.error_type@ == "NoResponse"@
            },
            DepositOutcome::NoSender => {
                &&& res.0 == STATUS_INTERNAL_SERVER_ERROR
                &&& res.1 matches InvocationResponse::Error(body)
                &&& body.error_message@ == "Sender already taken"@
                &&& body.error_type@ == "NoResponse"@
            },
        },
{
    invocation_response(state, aws_request_id, event_response)
}

} // verus!
