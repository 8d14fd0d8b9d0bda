//! The invocation orchestrator: it takes one invocation from its minting to
//! the response, over the rendezvous, the response registry and the runtime
//! manager. It never waits: each turn does what can be done at once and says
//! what the caller has to wait for before the next turn.

use vstd::prelude::*;
use crate::channel::{PendingInvocation, RequestChannel};
use crate::id::AWSRequestId;
use crate::manager::{RuntimeGenerator, RuntimeManager};
use crate::response_map::{
    awaits_deposit, deposit_outcome, deposited, registered, retrieved, waiting_response,
    DepositOutcome, Mailboxes, ResponseMap,
};
use crate::response_history::{
    after, apply, deposit_accepted_at, lemma_retrieved_was_deposited, same_mailbox, RegistryOp,
};
use crate::runtime::Runtime;
use crate::types::{EventResponse, RequestEvent};

verus! {

/// How long a caller waits before it offers its invocation again to a
/// rendezvous that was full, in milliseconds.
pub const RETRY_DELAY_MS: u64 = 100;

/// Where an invocation stands.
#[derive(Debug, Clone, Copy, PartialEq, Eq, Structural)]
pub enum InvocationState {
    /// It has its identifier and is not handed to the rendezvous yet.
    Minted,
    /// It is handed off to the rendezvous and its mailbox is made: the
    /// response is awaited. The hand-off and the making of the mailbox are
    /// one step, so that no deposit can come between them.
    Awaiting,
    /// The response is returned.
    Done,
    /// The mailbox went without a response: there will be none.
    Gone,
}

/// One invocation on its way.
pub struct Invocation {
    id: AWSRequestId,
    event: RequestEvent,
    state: InvocationState,
}

/// What an invocation is.
pub struct InvocationView {
    pub id: Seq<char>,
    pub event: RequestEvent,
    pub state: InvocationState,
}

impl View for Invocation {
    type V = InvocationView;

    closed spec fn view(&self) -> InvocationView {
        InvocationView { id: self.id@, event: self.event, state: self.state }
    }
}

/// What a turn of an invocation tells its caller.
#[derive(Debug, PartialEq)]
pub enum Progress {
    /// The rendezvous was full, so no worker is polling. The spawner was
    /// asked for one, with the answer given here; the caller is to wait for
    /// `delay_ms` and take another turn.
    Retry { delay_ms: u64, spawned: Result<Runtime, String> },
    /// The invocation is handed off and no response is there yet: the caller
    /// is to take another turn after the next deposit.
    Waiting,
    /// The response of the worker.
    Done(EventResponse),
    /// No response will come.
    Gone,
}

/// What a turn comes to, apart from the spawner's answer.
pub enum Outcome {
    Retry,
    Waiting,
    Done(EventResponse),
    Gone,
}

impl Progress {
    /// What the turn came to.
    pub open spec fn outcome(self) -> Outcome {
        match self {
            Progress::Retry { .. } => Outcome::Retry,
            Progress::Waiting => Outcome::Waiting,
            Progress::Done(response) => Outcome::Done(response),
            Progress::Gone => Outcome::Gone,
        }
    }
}

/// The rendezvous and the registry together: what callers and workers share.
pub struct Exchange {
    pub slot: Option<PendingInvocation>,
    pub boxes: Mailboxes,
}

/// An invocation, the exchange and the outcome after one turn.
pub struct Turn {
    pub invocation: InvocationView,
    pub exchange: Exchange,
    pub outcome: Outcome,
}

/// One turn of an invocation.
///
/// A minted invocation is offered to the rendezvous. A full slot leaves
/// everything as it is and asks for a retry. A free slot takes the pair, and
/// then the mailbox of the invocation is made: the response is awaited from
/// there on. An awaiting invocation looks into its mailbox: a response that
/// waits there is taken and ends the invocation; an open mailbox means
/// waiting on; a mailbox that is gone ends the invocation without a response.
/// An invocation that has ended stays as it is.
pub open spec fn turn(invocation: InvocationView, exchange: Exchange) -> Turn {
    match invocation.state {
        InvocationState::Minted => if exchange.slot is Some {
            Turn { invocation, exchange, outcome: Outcome::Retry }
        } else {
            Turn {
                invocation: InvocationView { state: InvocationState::Awaiting, ..invocation },
                exchange: Exchange {
                    slot: Some(PendingInvocation { id: invocation.id, event: invocation.event }),
                    boxes: registered(exchange.boxes, invocation.id),
                },
                outcome: Outcome::Waiting,
            }
        },
        InvocationState::Awaiting => match waiting_response(exchange.boxes, invocation.id) {
            Some(response) => Turn {
                invocation: InvocationView { state: InvocationState::Done, ..invocation },
                exchange: Exchange {
                    slot: exchange.slot,
                    boxes: retrieved(exchange.boxes, invocation.id),
                },
                outcome: Outcome::Done(response),
            },
            None => if awaits_deposit(exchange.boxes, invocation.id) {
                Turn { invocation, exchange, outcome: Outcome::Waiting }
            } else {
                Turn {
                    invocation: InvocationView { state: InvocationState::Gone, ..invocation },
                    exchange,
                    outcome: Outcome::Gone,
                }
            },
        },
        InvocationState::Done | InvocationState::Gone => Turn {
            invocation,
            exchange,
            outcome: Outcome::Gone,
        },
    }
}

impl Invocation {
    /// An invocation of `event` under the identifier `id`, not handed off yet.
    pub fn new(id: AWSRequestId, event: RequestEvent) -> (invocation: Self)
        ensures
            invocation@ == (InvocationView { id: id@, event, state: InvocationState::Minted }),
    {
        Invocation { id, event, state: InvocationState::Minted }
    }

    /// The identifier of the invocation.
    pub fn id(&self) -> (id: &AWSRequestId)
        ensures
            id@ == self@.id,
    {
        &self.id
    }

    /// The event of the invocation.
    pub fn event(&self) -> (event: &RequestEvent)
        ensures
            *event == self@.event,
    {
        &self.event
    }

    /// Where the invocation stands.
    pub fn state(&self) -> (state: InvocationState)
        ensures
            state == self@.state,
    {
        self.state
    }

    /// Takes one turn, as `turn` says. Where the rendezvous was full, the
    /// spawner is asked for a worker, which joins the roster if there is
    /// one; in every other case the runtime manager is left alone.
    pub fn resume<G: RuntimeGenerator>(
        &mut self,
        request_chan: &mut RequestChannel,
        response_map: &mut ResponseMap,
        runtime_manager: &mut RuntimeManager<G>,
    ) -> (progress: Progress)
        ensures
            (Turn {
                invocation: final(self)@,
                exchange: Exchange { slot: final(request_chan)@, boxes: final(response_map)@ },
                outcome: progress.outcome(),
            }) == turn(
                old(self)@,
                Exchange { slot: old(request_chan)@, boxes: old(response_map)@ },
            ),
            final(runtime_manager).lifetime() == old(runtime_manager).lifetime(),
            final(runtime_manager).roster() == match progress {
                Progress::Retry { spawned: Ok(worker), .. } => old(runtime_manager).roster().push(
                    worker@,
                ),
                _ => old(runtime_manager).roster(),
            },
            progress matches Progress::Retry { delay_ms, .. } ==> delay_ms == RETRY_DELAY_MS,
    {
        match self.state {
            InvocationState::Minted => {
                match request_chan.send_request(&self.id, self.event.clone()) {
                    Ok(()) => {
                        response_map.add_new_request(self.id.clone());
                        self.state = InvocationState::Awaiting;
                        Progress::Waiting
                    },
                    Err(_) => {
                        let spawned = runtime_manager.init();
                        Progress::Retry { delay_ms: RETRY_DELAY_MS, spawned }
                    },
                }
            },
            InvocationState::Awaiting => {
                match response_map.get_response(&self.id) {
                    Some(response) => {
                        self.state = InvocationState::Done;
                        Progress::Done(response)
                    },
                    None => {
                        if response_map.is_awaiting(&self.id) {
                            Progress::Waiting
                        } else {
                            self.state = InvocationState::Gone;
                            Progress::Gone
                        }
                    },
                }
            },
            InvocationState::Done => Progress::Gone,
            InvocationState::Gone => Progress::Gone,
        }
    }

    /// Records that the caller went away. An invocation that awaits its
    /// response gives up its mailbox, so that a later deposit fails; the
    /// invocation has ended. Before the hand-off and after the end there is
    /// nothing to give up.
    pub fn cancel(&mut self, response_map: &mut ResponseMap)
        ensures
            final(self)@.id == old(self)@.id,
            final(self)@.event == old(self)@.event,
            final(self)@.state == match old(self)@.state {
                InvocationState::Done => InvocationState::Done,
                _ => InvocationState::Gone,
            },
            final(response_map)@ == if old(self)@.state == InvocationState::Awaiting {
                crate::response_map::abandoned(old(response_map)@, old(self)@.id)
            } else {
                old(response_map)@
            },
    {
        match self.state {
            InvocationState::Awaiting => {
                response_map.abandon(&self.id);
                self.state = InvocationState::Gone;
            },
            InvocationState::Minted => {
                self.state = InvocationState::Gone;
            },
            InvocationState::Done => {},
            InvocationState::Gone => {},
        }
    }
}

/// Mints an identifier for an invocation of `request_event` and takes its
/// first turn. The identifier is the one that `gen_id` gave.
pub fn rambda_handler<G: RuntimeGenerator, I: Fn() -> String>(
    request_event: RequestEvent,
    request_chan: &mut RequestChannel,
    response_map: &mut ResponseMap,
    runtime_manager: &mut RuntimeManager<G>,
    gen_id: I,
) -> (started: (Invocation, Progress))
    requires
        call_requires(gen_id, ()),
    ensures
        exists|minted: String| #[trigger]
            call_ensures(gen_id, (), minted) && (Turn {
                invocation: started.0@,
                exchange: Exchange { slot: final(request_chan)@, boxes: final(response_map)@ },
                outcome: started.1.outcome(),
            }) == turn(
                InvocationView {
                    id: minted@,
                    event: request_event,
                    state: InvocationState::Minted,
                },
                Exchange { slot: old(request_chan)@, boxes: old(response_map)@ },
            ),
        final(runtime_manager).lifetime() == old(runtime_manager).lifetime(),
        final(runtime_manager).roster() == match started.1 {
            Progress::Retry { spawned: Ok(worker), .. } => old(runtime_manager).roster().push(
                worker@,
            ),
            _ => old(runtime_manager).roster(),
        },
        started.1 matches Progress::Retry { delay_ms, .. } ==> delay_ms == RETRY_DELAY_MS,
{
    let minted = gen_id();
    let ghost witness = minted;
    let mut invocation = Invocation::new(AWSRequestId(minted), request_event);
    let progress = invocation.resume(request_chan, response_map, runtime_manager);
    assert(call_ensures(gen_id, (), witness));
    (invocation, progress)
}

/// A worker's poll for its next invocation: the pending pair, if there is
/// one, leaves the rendezvous.
pub fn invocation_next_handler(chan: &mut RequestChannel) -> (res: Option<
    (AWSRequestId, RequestEvent),
>)
    ensures
        final(chan)@ is None,
        match res {
            Some(pair) => old(chan)@ == Some(PendingInvocation { id: pair.0@, event: pair.1 }),
            None => old(chan)@ is None,
        },
{
    chan.recv_request()
}

/// A worker's deposit of the response to an invocation. It succeeds if and
/// only if the mailbox of the invocation is open; the error says why it
/// failed.
pub fn invocation_response_handler(
    map: &mut ResponseMap,
    aws_request_id: AWSRequestId,
    event_response: EventResponse,
) -> (res: Result<(), String>)
    ensures
        final(map)@ == deposited(old(map)@, aws_request_id@, event_response),
        match deposit_outcome(old(map)@, aws_request_id@) {
            DepositOutcome::Accepted => res is Ok,
            DepositOutcome::ReceiverGone => res matches Err(message) && message@
                == "Failed to send response"@,
            DepositOutcome::NoSender => res matches Err(message) && message@
                == "Sender already taken"@,
        },
{
    map.send_response(aws_request_id, event_response)
}

/// What a turn does to the registry, as an operation on it: the hand-off
/// makes the mailbox, a response that waits is retrieved, and every other
/// turn leaves the registry alone.
pub open spec fn registry_op(invocation: InvocationView, exchange: Exchange) -> Option<RegistryOp> {
    match invocation.state {
        InvocationState::Minted => if exchange.slot is Some {
            None
        } else {
            Some(RegistryOp::Register { id: invocation.id })
        },
        InvocationState::Awaiting => if waiting_response(exchange.boxes, invocation.id) is Some {
            Some(RegistryOp::Retrieve { id: invocation.id })
        } else {
            None
        },
        InvocationState::Done | InvocationState::Gone => None,
    }
}

/// A turn acts on the registry as `registry_op` says, so that the histories
/// of a registry cover what invocations do to it.
pub proof fn lemma_turn_on_registry(invocation: InvocationView, exchange: Exchange)
    ensures
        turn(invocation, exchange).exchange.boxes == match registry_op(invocation, exchange) {
            Some(op) => apply(exchange.boxes, op),
            None => exchange.boxes,
        },
{
}

/// The turns of one invocation leave the mailboxes of all others alone.
pub proof fn lemma_turn_leaves_others(
    invocation: InvocationView,
    exchange: Exchange,
    id: Seq<char>,
)
    requires
        invocation.id != id,
    ensures
        same_mailbox(turn(invocation, exchange).exchange.boxes, exchange.boxes, id),
{
}

/// An invocation returns exactly what a worker deposits for it, once.
///
/// Take any registry, a rendezvous with a free slot, and an invocation of
/// `event` minted as `id`. Its first turn hands the pair to the rendezvous and
/// waits. A worker that polls gets that pair. The worker's deposit of
/// `response` for `id` is accepted, and the next turn of the invocation
/// returns `response` and uses the mailbox up. After that a further turn
/// returns nothing and a further deposit finds no mailbox.
pub proof fn lemma_round_trip(
    boxes: Mailboxes,
    id: Seq<char>,
    event: RequestEvent,
    response: EventResponse,
)
    ensures
        ({
            let minted = InvocationView { id, event, state: InvocationState::Minted };
            let offered = turn(minted, Exchange { slot: None, boxes });
            let polled = Exchange { slot: None, boxes: offered.exchange.boxes };
            let answered = Exchange {
                slot: None,
                boxes: deposited(polled.boxes, id, response),
            };
            let returned = turn(offered.invocation, answered);
            let again = turn(returned.invocation, returned.exchange);
            &&& offered.outcome == Outcome::Waiting
            &&& offered.exchange.slot == Some(PendingInvocation { id, event })
            &&& deposit_outcome(polled.boxes, id) is Accepted
            &&& returned.outcome == Outcome::Done(response)
            &&& returned.invocation.state == InvocationState::Done
            &&& !returned.exchange.boxes.contains_key(id)
            &&& again.outcome == Outcome::Gone
            &&& again.exchange == returned.exchange
            &&& deposit_outcome(returned.exchange.boxes, id) is NoSender
        }),
{
}

/// Whatever an invocation returns was deposited for it. If a turn of the
/// invocation `id`, on a registry with the history `ops`, returns `response`,
/// then an operation of that history deposited `response` for `id`, and the
/// deposit was accepted.
pub proof fn lemma_returned_was_deposited(
    ops: Seq<RegistryOp>,
    invocation: InvocationView,
    slot: Option<PendingInvocation>,
    response: EventResponse,
)
    requires
        turn(invocation, Exchange { slot, boxes: after(ops) }).outcome == Outcome::Done(response),
    ensures
        exists|at: int| deposit_accepted_at(ops, at, invocation.id, response),
{
    lemma_retrieved_was_deposited(ops, invocation.id, response);
}

} // verus!
