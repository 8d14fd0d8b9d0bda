//! The response registry: one one-shot mailbox per invocation, through which a
//! worker's response reaches the caller that waits for it.

use vstd::prelude::*;
use vstd::hash_map::StringHashMap;
use crate::id::AWSRequestId;
use crate::types::EventResponse;

verus! {

/// The state of one mailbox. A mailbox has a depositing end, used once by a
/// worker, and a retrieving end, used once by the caller.
pub enum Mailbox {
    /// Both ends are unused: a response may be deposited.
    Open,
    /// The depositing end is used up and the response waits for the caller.
    Filled(EventResponse),
    /// The caller went away before a response came: the retrieving end is gone.
    Orphaned,
}

/// What a deposit meets when it arrives.
pub enum DepositOutcome {
    /// The mailbox is open and takes the response.
    Accepted,
    /// The depositing end is there, but nobody will retrieve.
    ReceiverGone,
    /// There is no depositing end: the mailbox was never made, or was used.
    NoSender,
}

/// The mailboxes of a registry, by invocation identifier.
pub type Mailboxes = Map<Seq<char>, Mailbox>;

/// The mailboxes after a fresh mailbox was made for `id`.
pub open spec fn registered(boxes: Mailboxes, id: Seq<char>) -> Mailboxes {
    boxes.insert(id, Mailbox::Open)
}

/// What a deposit for `id` meets.
pub open spec fn deposit_outcome(boxes: Mailboxes, id: Seq<char>) -> DepositOutcome {
    if !boxes.contains_key(id) {
        DepositOutcome::NoSender
    } else {
        match boxes[id] {
            Mailbox::Open => DepositOutcome::Accepted,
            Mailbox::Orphaned => DepositOutcome::ReceiverGone,
            Mailbox::Filled(_) => DepositOutcome::NoSender,
        }
    }
}

/// The mailboxes after a deposit of `response` for `id`. An open mailbox is
/// filled; an orphaned one is used up and goes; anything else stays.
pub open spec fn deposited(boxes: Mailboxes, id: Seq<char>, response: EventResponse) -> Mailboxes {
    match deposit_outcome(boxes, id) {
        DepositOutcome::Accepted => boxes.insert(id, Mailbox::Filled(response)),
        DepositOutcome::ReceiverGone => boxes.remove(id),
        DepositOutcome::NoSender => boxes,
    }
}

/// The response that waits for the caller of `id`, if one does.
pub open spec fn waiting_response(boxes: Mailboxes, id: Seq<char>) -> Option<EventResponse> {
    if boxes.contains_key(id) {
        match boxes[id] {
            Mailbox::Filled(response) => Some(response),
            _ => None,
        }
    } else {
        None
    }
}

/// The mailboxes after the caller of `id` asked for its response: a filled
/// mailbox is used up and goes; anything else stays.
pub open spec fn retrieved(boxes: Mailboxes, id: Seq<char>) -> Mailboxes {
    if waiting_response(boxes, id) is Some {
        boxes.remove(id)
    } else {
        boxes
    }
}

/// Whether the mailbox of `id` is open: made, and without a response so far.
pub open spec fn awaits_deposit(boxes: Mailboxes, id: Seq<char>) -> bool {
    boxes.contains_key(id) && boxes[id] is Open
}

/// The mailboxes after the caller of `id` went away. An open mailbox is
/// orphaned; a filled one goes, with its response; anything else stays.
pub open spec fn abandoned(boxes: Mailboxes, id: Seq<char>) -> Mailboxes {
    if !boxes.contains_key(id) {
        boxes
    } else {
        match boxes[id] {
            Mailbox::Open => boxes.insert(id, Mailbox::Orphaned),
            Mailbox::Filled(_) => boxes.remove(id),
            Mailbox::Orphaned => boxes,
        }
    }
}

/// The response registry.
pub struct ResponseMap {
    boxes: StringHashMap<Mailbox>,
}

impl View for ResponseMap {
    type V = Mailboxes;

    closed spec fn view(&self) -> Mailboxes {
        self.boxes@
    }
}

impl ResponseMap {
    /// A registry without mailboxes.
    pub fn new() -> (map: Self)
        ensures
            map@ == Map::<Seq<char>, Mailbox>::empty(),
    {
        ResponseMap { boxes: StringHashMap::new() }
    }

    /// Makes a fresh, open mailbox for the invocation. A mailbox that the
    /// identifier had before is replaced.
    pub fn add_new_request(&mut self, aws_request_id: AWSRequestId)
        ensures
            final(self)@ == registered(old(self)@, aws_request_id@),
    {
        self.boxes.insert(aws_request_id.0, Mailbox::Open);
    }

    /// Whether the mailbox of the invocation is open.
    pub fn is_awaiting(&self, aws_request_id: &AWSRequestId) -> (open: bool)
        ensures
            open == awaits_deposit(self@, aws_request_id@),
    {
        match self.boxes.get(aws_request_id.0.as_str()) {
            Some(Mailbox::Open) => true,
            _ => false,
        }
    }

    /// Hands the caller the response that waits in the mailbox of the
    /// invocation and uses the mailbox up. Where no response waits, the answer
    /// is `None` and nothing changes.
    pub fn get_response(&mut self, aws_request_id: &AWSRequestId) -> (res: Option<EventResponse>)
        ensures
            res == waiting_response(old(self)@, aws_request_id@),
            final(self)@ == retrieved(old(self)@, aws_request_id@),
    {
        let found = match self.boxes.get(aws_request_id.0.as_str()) {
            Some(Mailbox::Filled(response)) => Some(response.clone()),
            _ => None,
        };
        if found.is_some() {
            self.boxes.remove(aws_request_id.0.as_str());
        }
        found
    }

    /// Deposits a worker's response for the invocation. An open mailbox takes
    /// it. Without a depositing end the deposit fails with
    /// `"Sender already taken"`; with one, but without anybody to retrieve, it
    /// fails with `"Failed to send response"`.
    pub fn send_response(
        &mut self,
        aws_request_id: AWSRequestId,
        response: EventResponse,
    ) -> (res: Result<(), String>)
        ensures
            final(self)@ == deposited(old(self)@, aws_request_id@, response),
            match deposit_outcome(old(self)@, aws_request_id@) {
                DepositOutcome::Accepted => res is Ok,
                DepositOutcome::ReceiverGone => res matches Err(message) && message@
                    == "Failed to send response"@,
                DepositOutcome::NoSender => res matches Err(message) && message@
                    == "Sender already taken"@,
            },
    {
        let state: u8 = match self.boxes.get(aws_request_id.0.as_str()) {
            Some(Mailbox::Open) => 0,
            Some(Mailbox::Orphaned) => 1,
            _ => 2,
        };
        if state == 0 {
            self.boxes.insert(aws_request_id.0, Mailbox::Filled(response));
            Ok(())
        } else if state == 1 {
            self.boxes.remove(aws_request_id.0.as_str());
            Err("Failed to send response".to_owned())
        } else {
            Err("Sender already taken".to_owned())
        }
    }

    /// Records that the caller of the invocation went away.
    pub fn abandon(&mut self, aws_request_id: &AWSRequestId)
        ensures
            final(self)@ == abandoned(old(self)@, aws_request_id@),
    {
        let state: u8 = match self.boxes.get(aws_request_id.0.as_str()) {
            Some(Mailbox::Open) => 0,
            Some(Mailbox::Filled(_)) => 1,
            _ => 2,
        };
        if state == 0 {
            self.boxes.insert(aws_request_id.0.clone(), Mailbox::Orphaned);
        } else if state == 1 {
            self.boxes.remove(aws_request_id.0.as_str());
        }
    }
}

impl Default for ResponseMap {
    fn default() -> (map: Self)
        ensures
            map@ == Map::<Seq<char>, Mailbox>::empty(),
    {
        ResponseMap::new()
    }
}

} // verus!
