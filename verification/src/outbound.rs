//! The queue through which a node hands its envelopes to the writer.

use std::sync::mpsc::Sender;
use vstd::prelude::*;

verus! {

/// The sending half of std's multi-producer channel, `std::sync::mpsc::Sender`.
/// Nothing is known of what it holds.
#[verifier::external_type_specification]
#[verifier::external_body]
#[verifier::reject_recursive_types(T)]
pub struct ExSender<T>(Sender<T>);

/// The receiving side of the queue is gone, so nothing more can be handed over.
#[derive(Debug, Clone, Copy, PartialEq, Eq)]
pub struct SendFailed;

/// Calls `Sender::send` and tells whether the item was queued. Whether it is
/// depends on the receiving side being alive, so nothing is promised.
#[verifier::external_body]
pub(crate) fn try_send<T>(tx: &Sender<T>, item: T) -> (sent: bool) {
    tx.send(item).is_ok()
}

/// Queues the items in order and stops at the first that is refused. Returns
/// how many were queued.
pub fn send_all<T>(tx: &Sender<T>, items: Vec<T>) -> (sent: usize)
    ensures
        sent <= items@.len(),
{
    let mut sent: usize = 0;
    let total = items.len();
    for item in it: items.into_iter()
        invariant
            it.seq().len() == total,
            sent == it.index(),
    {
        if !try_send(tx, item) {
            return sent;
        }
        sent += 1;
    }
    sent
}

/// What handing over comes to: done where the queue took everything, failed
/// where it refused.
pub fn settle(taken: bool) -> (r: Result<(), SendFailed>)
    ensures
        r is Ok <==> taken,
{
    if taken {
        Ok(())
    } else {
        Err(SendFailed)
    }
}

} // verus!
