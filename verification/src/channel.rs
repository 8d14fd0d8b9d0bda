//! The rendezvous between callers and workers: a hand-off with a single slot.

use vstd::prelude::*;
use crate::id::AWSRequestId;
use crate::types::RequestEvent;

verus! {

/// Why a pair could not be handed to the rendezvous.
#[derive(Debug, Clone, Copy, PartialEq, Eq, Structural)]
pub enum SendRequestEventToChannelError {
    FailedToSend,
    SenderAlreadyTaken,
    RequestIdNotFound,
}

/// A pair in transit from a caller to a worker: the identifier of the
/// invocation and its event.
pub struct PendingInvocation {
    pub id: Seq<char>,
    pub event: RequestEvent,
}

/// The rendezvous. It buffers at most one pending invocation: a caller can
/// hand one over only while the slot is free, and a worker's poll empties it.
/// A full slot is the signal that no worker is polling.
pub struct RequestChannel {
    slot: Option<(AWSRequestId, RequestEvent)>,
}

impl View for RequestChannel {
    type V = Option<PendingInvocation>;

    closed spec fn view(&self) -> Option<PendingInvocation> {
        match self.slot {
            Some(pair) => Some(PendingInvocation { id: pair.0@, event: pair.1 }),
            None => None,
        }
    }
}

impl RequestChannel {
    /// The number of pending invocations that the rendezvous holds.
    pub open spec fn pending(&self) -> nat {
        if self@ is Some { 1 } else { 0 }
    }

    /// The rendezvous never holds more than one pending invocation.
    pub proof fn lemma_at_most_one_pending(&self)
        ensures
            self.pending() <= 1,
    {
    }

    /// A rendezvous with a free slot.
    pub fn new() -> (chan: Self)
        ensures
            chan@ is None,
    {
        RequestChannel { slot: None }
    }

    /// Whether the slot is taken.
    pub fn is_full(&self) -> (full: bool)
        ensures
            full == (self@ is Some),
    {
        self.slot.is_some()
    }

    /// Offers a pending invocation without waiting. It is taken if and only
    /// if the slot is free; a taken slot is left as it was and reported as
    /// `FailedToSend`.
    pub fn send_request(
        &mut self,
        aws_request_id: &AWSRequestId,
        resp: RequestEvent,
    ) -> (res: Result<(), SendRequestEventToChannelError>)
        ensures
            old(self)@ is None ==> res is Ok && final(self)@ == Some(
                PendingInvocation { id: aws_request_id@, event: resp },
            ),
            old(self)@ is Some ==> res == Err::<(), SendRequestEventToChannelError>(
                SendRequestEventToChannelError::FailedToSend,
            ) && final(self)@ == old(self)@,
    {
        if self.slot.is_some() {
            Err(SendRequestEventToChannelError::FailedToSend)
        } else {
            self.slot = Some((aws_request_id.clone(), resp));
            Ok(())
        }
    }

    /// Takes the pending invocation out of the slot, if there is one.
    pub fn recv_request(&mut self) -> (res: Option<(AWSRequestId, RequestEvent)>)
        ensures
            final(self)@ is None,
            match res {
                Some(pair) => old(self)@ == Some(PendingInvocation { id: pair.0@, event: pair.1 }),
                None => old(self)@ is None,
            },
    {
        self.slot.take()
    }
}

impl Default for RequestChannel {
    fn default() -> (chan: Self)
        ensures
            chan@ is None,
    {
        RequestChannel::new()
    }
}

} // verus!
