//! The delivery channel: an unbounded, multi-producer/single-consumer FIFO
//! queue of `Result<Item, DeliveryError>` values, backed by
//! `futures::channel::mpsc`. The channel itself is outside code; each call
//! into it goes through a trusted wrapper whose contract speaks of named
//! per-handle histories: what a producer handle has offered and what the
//! queue accepted from it, and what a consumer handle has taken.

use vstd::prelude::*;

use crate::result_value::DeliveryError;
use crate::result_value::Item;
use futures::channel::mpsc::UnboundedReceiver;
use futures::channel::mpsc::UnboundedSender;

verus! {

/// One message of the delivery channel: an owned result item, or the reason
/// a delivery could not be made.
pub type Delivery = Result<Item, DeliveryError>;

#[verifier::external_type_specification]
#[verifier::external_body]
#[verifier::reject_recursive_types(T)]
pub struct ExUnboundedSender<T>(UnboundedSender<T>);

#[verifier::external_type_specification]
#[verifier::external_body]
#[verifier::reject_recursive_types(T)]
pub struct ExUnboundedReceiver<T>(UnboundedReceiver<T>);

/// Every message this producer handle has handed to the queue, in order,
/// whether or not the queue accepted it.
pub uninterp spec fn sender_offered(s: UnboundedSender<Delivery>) -> Seq<Delivery>;

/// Every message the queue accepted from this producer handle, in order.
pub uninterp spec fn sender_accepted(s: UnboundedSender<Delivery>) -> Seq<Delivery>;

/// Whether this producer handle has closed the channel.
pub uninterp spec fn sender_closed(s: UnboundedSender<Delivery>) -> bool;

/// Whether this producer handle has observed that the queue accepts no more
/// messages: the consumer's end is gone, or the channel was closed.
pub uninterp spec fn sender_blocked(s: UnboundedSender<Delivery>) -> bool;

/// Which channel this producer handle feeds: every handle onto one channel
/// shares the identity of the pair it was cloned from.
pub uninterp spec fn sender_channel(s: UnboundedSender<Delivery>) -> int;

/// Which channel this consumer handle reads.
pub uninterp spec fn receiver_channel(r: UnboundedReceiver<Delivery>) -> int;

/// Every message this consumer handle has taken from the queue, in order.
pub uninterp spec fn receiver_taken(r: UnboundedReceiver<Delivery>) -> Seq<Delivery>;

/// Whether this consumer handle has observed end-of-stream.
pub uninterp spec fn receiver_finished(r: UnboundedReceiver<Delivery>) -> bool;

/// What one attempt to take the next buffered message found.
#[derive(Debug, PartialEq, Eq)]
pub enum TakeOutcome {
    /// A message was buffered; here it is.
    Delivered(Delivery),
    /// The channel is closed and every buffered message has been taken.
    Finished,
    /// Nothing is buffered right now, but the channel is still open.
    Pending,
}

/// Relies on `futures::channel::mpsc::unbounded`: the two handles are the
/// ends of one channel, which has no history on either handle, is not
/// closed, and accepts messages.
#[verifier::external_body]
pub(crate) fn new_channel() -> (r: (UnboundedSender<Delivery>, UnboundedReceiver<Delivery>))
    ensures
        sender_channel(r.0) == receiver_channel(r.1),
        sender_offered(r.0) == Seq::<Delivery>::empty(),
        sender_accepted(r.0) == Seq::<Delivery>::empty(),
        !sender_closed(r.0),
        !sender_blocked(r.0),
        receiver_taken(r.1) == Seq::<Delivery>::empty(),
        !receiver_finished(r.1),
{
    futures::channel::mpsc::unbounded()
}

/// Relies on `Clone` for `futures::channel::mpsc::UnboundedSender`: the clone
/// is a fresh producer handle onto the same channel, with no history of its
/// own and no closing or refusal yet observed through it.
#[verifier::external_body]
pub(crate) fn clone_sender(s: &UnboundedSender<Delivery>) -> (r: UnboundedSender<Delivery>)
    ensures
        sender_channel(r) == sender_channel(*s),
        sender_offered(r) == Seq::<Delivery>::empty(),
        sender_accepted(r) == Seq::<Delivery>::empty(),
        !sender_closed(r),
        !sender_blocked(r),
{
    s.clone()
}

/// Relies on `futures::channel::mpsc::UnboundedSender::unbounded_send`: it
/// enqueues the message and returns `Ok` unless the channel is disconnected
/// (the consumer handle was dropped, or the channel was closed), in which
/// case it returns `Err` carrying the message back; disconnection is
/// permanent, so a handle that has once been refused is refused from then on.
#[verifier::external_body]
pub(crate) fn send_delivery(s: &mut UnboundedSender<Delivery>, m: Delivery) -> (ok: bool)
    ensures
        sender_channel(*final(s)) == sender_channel(*old(s)),
        sender_offered(*final(s)) == sender_offered(*old(s)).push(m),
        ok ==> sender_accepted(*final(s)) == sender_accepted(*old(s)).push(m),
        !ok ==> sender_accepted(*final(s)) == sender_accepted(*old(s)),
        ok ==> !sender_blocked(*final(s)),
        !ok ==> sender_blocked(*final(s)),
        sender_blocked(*old(s)) ==> !ok,
        sender_closed(*final(s)) == sender_closed(*old(s)),
{
    s.unbounded_send(m).is_ok()
}

/// Relies on `futures::channel::mpsc::UnboundedSender::close_channel`: it
/// closes the channel for every producer handle, so no further message is
/// accepted, while messages already queued remain readable; closing an
/// already closed channel does nothing.
#[verifier::external_body]
pub(crate) fn close_sender(s: &mut UnboundedSender<Delivery>)
    ensures
        sender_channel(*final(s)) == sender_channel(*old(s)),
        sender_offered(*final(s)) == sender_offered(*old(s)),
        sender_accepted(*final(s)) == sender_accepted(*old(s)),
        sender_closed(*final(s)),
        sender_blocked(*final(s)),
{
    s.close_channel();
}

/// Relies on `futures::channel::mpsc::UnboundedReceiver::try_recv`: it
/// returns `Ok(m)` when a message is buffered, `Err(Closed)` when the
/// channel is closed and every buffered message has been taken (and keeps
/// doing so from then on), and `Err(Empty)` when nothing is buffered yet.
#[verifier::external_body]
pub(crate) fn take_next(r: &mut UnboundedReceiver<Delivery>) -> (out: TakeOutcome)
    ensures
        (match out {
            TakeOutcome::Delivered(m) => {
                &&& receiver_taken(*final(r)) == receiver_taken(*old(r)).push(m)
                &&& receiver_finished(*final(r)) == receiver_finished(*old(r))
                &&& !receiver_finished(*old(r))
            },
            TakeOutcome::Finished => {
                &&& receiver_taken(*final(r)) == receiver_taken(*old(r))
                &&& receiver_finished(*final(r))
            },
            TakeOutcome::Pending => {
                &&& receiver_taken(*final(r)) == receiver_taken(*old(r))
                &&& receiver_finished(*final(r)) == receiver_finished(*old(r))
            },
        }),
        receiver_finished(*old(r)) ==> out matches TakeOutcome::Finished,
        receiver_channel(*final(r)) == receiver_channel(*old(r)),
{
    match r.try_recv() {
        Ok(m) => TakeOutcome::Delivered(m),
        Err(futures::channel::mpsc::TryRecvError::Closed) => TakeOutcome::Finished,
        Err(futures::channel::mpsc::TryRecvError::Empty) => TakeOutcome::Pending,
    }
}

/// Take the next buffered message, if any, without ever waiting.
pub fn poll_delivery(r: &mut UnboundedReceiver<Delivery>) -> (out: TakeOutcome)
    ensures
        (match out {
            TakeOutcome::Delivered(m) => {
                &&& receiver_taken(*final(r)) == receiver_taken(*old(r)).push(m)
                &&& receiver_finished(*final(r)) == receiver_finished(*old(r))
                &&& !receiver_finished(*old(r))
            },
            TakeOutcome::Finished => {
                &&& receiver_taken(*final(r)) == receiver_taken(*old(r))
                &&& receiver_finished(*final(r))
            },
            TakeOutcome::Pending => {
                &&& receiver_taken(*final(r)) == receiver_taken(*old(r))
                &&& receiver_finished(*final(r)) == receiver_finished(*old(r))
            },
        }),
        receiver_finished(*old(r)) ==> out matches TakeOutcome::Finished,
        receiver_channel(*final(r)) == receiver_channel(*old(r)),
{
    take_next(r)
}

/// Pull the buffered messages, in order, stopping the moment nothing is
/// ready, or once `max` messages have been taken; the second component of
/// the result says whether end-of-stream was observed.
pub fn drain_ready(r: &mut UnboundedReceiver<Delivery>, max: usize) -> (out: (
    Vec<Delivery>,
    bool,
))
    ensures
        receiver_taken(*final(r)) == receiver_taken(*old(r)) + out.0@,
        out.0@.len() <= max,
        out.1 ==> receiver_finished(*final(r)),
        !out.1 ==> receiver_finished(*final(r)) == receiver_finished(*old(r)),
        receiver_finished(*old(r)) && max > 0 ==> out.1,
        receiver_channel(*final(r)) == receiver_channel(*old(r)),
{
    let mut got: Vec<Delivery> = Vec::new();
    proof {
        assert(receiver_taken(*r) + got@ =~= receiver_taken(*r));
    }
    let mut left: usize = max;
    while left > 0
        invariant
            receiver_taken(*r) == receiver_taken(*old(r)) + got@,
            receiver_finished(*r) == receiver_finished(*old(r)),
            receiver_channel(*r) == receiver_channel(*old(r)),
            got@.len() + left <= max,
            receiver_finished(*old(r)) ==> left == max,
        decreases left,
    {
        match take_next(r) {
            TakeOutcome::Delivered(m) => {
                proof {
                    assert((receiver_taken(*old(r)) + got@).push(m)
                        =~= receiver_taken(*old(r)) + got@.push(m));
                }
                got.push(m);
            },
            TakeOutcome::Finished => {
                return (got, true);
            },
            TakeOutcome::Pending => {
                return (got, false);
            },
        }
        left = left - 1;
    }
    (got, false)
}

} // verus!
