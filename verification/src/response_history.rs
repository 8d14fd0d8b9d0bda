//! Histories of a response registry: what holds of every sequence of
//! operations on a registry that started without mailboxes.

use vstd::prelude::*;
use crate::response_map::{
    abandoned, deposit_outcome, deposited, registered, retrieved, waiting_response, Mailboxes,
};
use crate::types::EventResponse;

verus! {

/// One operation on a registry.
pub enum RegistryOp {
    /// `ResponseMap::add_new_request`.
    Register { id: Seq<char> },
    /// `ResponseMap::send_response`.
    Deposit { id: Seq<char>, response: EventResponse },
    /// `ResponseMap::get_response`.
    Retrieve { id: Seq<char> },
    /// `ResponseMap::abandon`.
    Abandon { id: Seq<char> },
}

/// The mailboxes after one operation.
pub open spec fn apply(boxes: Mailboxes, op: RegistryOp) -> Mailboxes {
    match op {
        RegistryOp::Register { id } => registered(boxes, id),
        RegistryOp::Deposit { id, response } => deposited(boxes, id, response),
        RegistryOp::Retrieve { id } => retrieved(boxes, id),
        RegistryOp::Abandon { id } => abandoned(boxes, id),
    }
}

/// The identifier that an operation names.
pub open spec fn target(op: RegistryOp) -> Seq<char> {
    match op {
        RegistryOp::Register { id } => id,
        RegistryOp::Deposit { id, .. } => id,
        RegistryOp::Retrieve { id } => id,
        RegistryOp::Abandon { id } => id,
    }
}

/// Whether two registries hold the same for `id`: no mailbox, or mailboxes in
/// the same state.
pub open spec fn same_mailbox(one: Mailboxes, other: Mailboxes, id: Seq<char>) -> bool {
    &&& one.contains_key(id) == other.contains_key(id)
    &&& one.contains_key(id) ==> one[id] == other[id]
}

/// There is no cross-talk: an operation leaves the mailbox of every
/// identifier but its own as it is.
pub proof fn lemma_no_cross_talk(boxes: Mailboxes, op: RegistryOp, id: Seq<char>)
    requires
        target(op) != id,
    ensures
        same_mailbox(apply(boxes, op), boxes, id),
{
}

/// The mailboxes after a history, on a registry that had none.
pub open spec fn after(ops: Seq<RegistryOp>) -> Mailboxes
    decreases ops.len(),
{
    if ops.len() == 0 {
        Map::empty()
    } else {
        apply(after(ops.drop_last()), ops.last())
    }
}

/// Whether `op` makes a mailbox for `id`.
pub open spec fn registers(op: RegistryOp, id: Seq<char>) -> bool {
    op == (RegistryOp::Register { id })
}

/// Whether `op`, met by `boxes`, is a deposit for `id` that is accepted.
pub open spec fn deposits(boxes: Mailboxes, op: RegistryOp, id: Seq<char>) -> bool {
    op matches RegistryOp::Deposit { id: target, .. } && target == id && deposit_outcome(boxes, id)
        is Accepted
}

/// Whether `op`, met by `boxes`, hands the caller of `id` a response.
pub open spec fn retrieves(boxes: Mailboxes, op: RegistryOp, id: Seq<char>) -> bool {
    op == (RegistryOp::Retrieve { id }) && waiting_response(boxes, id) is Some
}

/// How often a history makes a mailbox for `id`.
pub open spec fn registrations(ops: Seq<RegistryOp>, id: Seq<char>) -> nat
    decreases ops.len(),
{
    if ops.len() == 0 {
        0
    } else {
        registrations(ops.drop_last(), id) + if registers(ops.last(), id) {
            1nat
        } else {
            0nat
        }
    }
}

/// How many deposits for `id` a history accepts.
pub open spec fn accepted_deposits(ops: Seq<RegistryOp>, id: Seq<char>) -> nat
    decreases ops.len(),
{
    if ops.len() == 0 {
        0
    } else {
        accepted_deposits(ops.drop_last(), id) + if deposits(
            after(ops.drop_last()),
            ops.last(),
            id,
        ) {
            1nat
        } else {
            0nat
        }
    }
}

/// How often a history hands the caller of `id` a response.
pub open spec fn retrievals(ops: Seq<RegistryOp>, id: Seq<char>) -> nat
    decreases ops.len(),
{
    if ops.len() == 0 {
        0
    } else {
        retrievals(ops.drop_last(), id) + if retrieves(after(ops.drop_last()), ops.last(), id) {
            1nat
        } else {
            0nat
        }
    }
}

/// Whether the operation at `at` is the deposit of `response` for `id`, and
/// is accepted.
pub open spec fn deposit_accepted_at(
    ops: Seq<RegistryOp>,
    at: int,
    id: Seq<char>,
    response: EventResponse,
) -> bool {
    &&& 0 <= at < ops.len()
    &&& ops[at] == (RegistryOp::Deposit { id, response })
    &&& deposit_outcome(after(ops.take(at)), id) is Accepted
}

/// What the counts of a history say of the mailbox it leaves for `id`.
spec fn balanced(ops: Seq<RegistryOp>, id: Seq<char>) -> bool {
    let boxes = after(ops);
    &&& retrievals(ops, id) <= accepted_deposits(ops, id) <= registrations(ops, id)
    &&& boxes.contains_key(id) && !(boxes[id] is Filled) ==> accepted_deposits(ops, id)
        < registrations(ops, id)
    &&& boxes.contains_key(id) && boxes[id] is Filled ==> retrievals(ops, id) < accepted_deposits(
        ops,
        id,
    )
}

proof fn lemma_balanced(ops: Seq<RegistryOp>, id: Seq<char>)
    ensures
        balanced(ops, id),
    decreases ops.len(),
{
    if ops.len() > 0 {
        lemma_balanced(ops.drop_last(), id);
    }
}

/// Every mailbox is one-shot. In any history, a response is handed out for
/// `id` at most as often as a deposit for `id` is accepted, and a deposit is
/// accepted at most as often as a mailbox is made for `id`.
pub proof fn lemma_one_shot(ops: Seq<RegistryOp>, id: Seq<char>)
    ensures
        retrievals(ops, id) <= accepted_deposits(ops, id) <= registrations(ops, id),
{
    lemma_balanced(ops, id);
}

/// For an identifier that is registered at most once, at most one deposit is
/// accepted and at most one response is handed out.
pub proof fn lemma_at_most_once(ops: Seq<RegistryOp>, id: Seq<char>)
    requires
        registrations(ops, id) <= 1,
    ensures
        accepted_deposits(ops, id) <= 1,
        retrievals(ops, id) <= 1,
{
    lemma_one_shot(ops, id);
}

/// A response that waits for the caller of `id` after a history is one that
/// an earlier operation of that history deposited for `id`, and that was
/// accepted. So whatever `get_response` hands out was deposited before.
pub proof fn lemma_retrieved_was_deposited(
    ops: Seq<RegistryOp>,
    id: Seq<char>,
    response: EventResponse,
)
    requires
        waiting_response(after(ops), id) == Some(response),
    ensures
        exists|at: int| deposit_accepted_at(ops, at, id, response),
    decreases ops.len(),
{
    if ops.len() > 0 {
        let before = ops.drop_last();
        let last = ops.len() - 1;
        assert(ops.take(last) == before);
        if waiting_response(after(before), id) == Some(response) {
            lemma_retrieved_was_deposited(before, id, response);
            let at = choose|at: int| deposit_accepted_at(before, at, id, response);
            assert(ops.take(at) == before.take(at));
            assert(deposit_accepted_at(ops, at, id, response));
        } else {
            assert(deposit_accepted_at(ops, last, id, response));
        }
    }
}

} // verus!
