//! The result sink: receives batches of borrowed object references from the
//! foreign query engine, converts each to an owned item, enqueues it on the
//! delivery channel, and closes the channel once the engine reports
//! completion. Neither operation ever waits.

use vstd::prelude::*;

use crate::channel::clone_sender;
use crate::channel::close_sender;
use crate::channel::new_channel;
use crate::channel::send_delivery;
use crate::channel::sender_accepted;
use crate::channel::sender_blocked;
use crate::channel::sender_channel;
use crate::channel::sender_closed;
use crate::channel::sender_offered;
use crate::channel::receiver_channel;
use crate::channel::receiver_finished;
use crate::channel::receiver_taken;
use crate::channel::Delivery;
use futures::channel::mpsc::UnboundedReceiver;
use futures::channel::mpsc::UnboundedSender;
use crate::result_value::DeliveryError;
use crate::result_value::Item;
use crate::result_value::ObjectRef;
use crate::result_value::E_POINTER;
use crate::result_value::WBEM_NO_ERROR;
use crate::result_value::WBEM_STATUS_COMPLETE;

verus! {

/// Where a left-to-right scan of the first `n` slots, starting at `i`, first
/// finds an empty slot; `n` when none is empty.
pub open spec fn scan_len(slots: Seq<Option<ObjectRef>>, i: int, n: int) -> int
    decreases n - i,
{
    if i >= n {
        n
    } else if slots[i] is None {
        i
    } else {
        scan_len(slots, i + 1, n)
    }
}

/// How many of the first `n` slots of a batch are processed: all `n` when no
/// slot is empty, otherwise exactly the slots before the first empty one.
pub open spec fn processed_len(slots: Seq<Option<ObjectRef>>, n: int) -> int {
    scan_len(slots, 0, n)
}

/// Whether a batch of `n` slots has no empty slot, so that the whole batch
/// is processed.
pub open spec fn batch_ok(slots: Seq<Option<ObjectRef>>, n: int) -> bool {
    processed_len(slots, n) == n
}

/// The messages made from the first `k` slots of a batch: one owned item per
/// slot, in slot order.
pub open spec fn batch_prefix(slots: Seq<Option<ObjectRef>>, k: int) -> Seq<Delivery> {
    Seq::new(k as nat, |j: int| Ok(Item { id: slots[j].unwrap().id }))
}

/// Every message one `indicate` call offers to the channel for a batch of
/// `n` slots: the items of the slots before the first empty slot.
pub open spec fn batch_items(slots: Seq<Option<ObjectRef>>, n: int) -> Seq<Delivery> {
    batch_prefix(slots, processed_len(slots, n))
}

/// The callback-receiving side of the bridge. The foreign engine calls
/// [`QuerySink::indicate`] zero or more times and then
/// [`QuerySink::set_status`] once; each delivered object becomes an owned
/// item on the delivery channel, and completion closes the channel.
pub struct QuerySink {
    sender: UnboundedSender<Delivery>,
}

impl QuerySink {
    /// Which channel this sink delivers to.
    pub closed spec fn channel_id(self) -> int {
        sender_channel(self.sender)
    }

    /// Every message this sink has handed to the channel, in order.
    pub closed spec fn offered(self) -> Seq<Delivery> {
        sender_offered(self.sender)
    }

    /// Every message the channel accepted from this sink, in order.
    pub closed spec fn delivered(self) -> Seq<Delivery> {
        sender_accepted(self.sender)
    }

    /// Whether this sink has closed the channel.
    pub closed spec fn completed(self) -> bool {
        sender_closed(self.sender)
    }

    /// Whether this sink has observed that the channel accepts no more
    /// messages: the consumer is gone, or the channel was closed.
    pub closed spec fn blocked(self) -> bool {
        sender_blocked(self.sender)
    }

    /// Wrap a producer handle of the delivery channel as a sink.
    pub fn new(sender: UnboundedSender<Delivery>) -> (r: QuerySink)
        ensures
            r.channel_id() == sender_channel(sender),
            r.offered() == sender_offered(sender),
            r.delivered() == sender_accepted(sender),
            r.completed() == sender_closed(sender),
            r.blocked() == sender_blocked(sender),
    {
        QuerySink { sender }
    }

    /// Make a fresh sink and the consumer handle it delivers to: the two
    /// ends of one new channel.
    pub fn create() -> (r: (QuerySink, UnboundedReceiver<Delivery>))
        ensures
            r.0.channel_id() == receiver_channel(r.1),
            r.0.offered() == Seq::<Delivery>::empty(),
            r.0.delivered() == Seq::<Delivery>::empty(),
            !r.0.completed(),
            !r.0.blocked(),
            receiver_taken(r.1) == Seq::<Delivery>::empty(),
            !receiver_finished(r.1),
    {
        let (tx, rx) = new_channel();
        (QuerySink::new(tx), rx)
    }

    /// Another producer handle onto the same channel: the foreign engine may
    /// deliver through several handles concurrently.
    pub fn fork(&self) -> (r: QuerySink)
        ensures
            r.channel_id() == self.channel_id(),
            r.offered() == Seq::<Delivery>::empty(),
            r.delivered() == Seq::<Delivery>::empty(),
            !r.completed(),
            !r.blocked(),
    {
        QuerySink { sender: clone_sender(&self.sender) }
    }

    /// Deliver one batch of results. The first `object_count` slots are
    /// processed in order: each filled slot becomes an owned item offered to
    /// the channel, and the first empty slot, if any, stops the batch and
    /// turns the status into the pointer error. A refused delivery (the
    /// consumer is gone, or the channel already closed) is dropped silently
    /// and never changes the status. Never waits.
    #[verifier::loop_isolation(false)]
    pub fn indicate(&mut self, object_count: i32, objects: &Vec<Option<ObjectRef>>) -> (status:
        i32)
        requires
            object_count > 0 ==> objects@.len() == object_count as int,
        ensures
            status == (if object_count <= 0 || batch_ok(objects@, object_count as int) {
                WBEM_NO_ERROR
            } else {
                E_POINTER
            }),
            object_count <= 0 ==> *final(self) == *old(self),
            object_count > 0 ==> ({
                let slots = objects@;
                let n = object_count as int;
                &&& final(self).channel_id() == old(self).channel_id()
                &&& final(self).offered() == old(self).offered() + batch_items(slots, n)
                &&& old(self).delivered().is_prefix_of(final(self).delivered())
                &&& final(self).delivered().skip(old(self).delivered().len() as int).is_prefix_of(
                    batch_items(slots, n),
                )
                &&& (!final(self).blocked() ==> final(self).delivered() == old(self).delivered()
                    + batch_items(slots, n))
                &&& final(self).completed() == old(self).completed()
                &&& (old(self).blocked() ==> final(self).blocked())
                &&& (old(self).blocked() ==> final(self).delivered() == old(self).delivered())
            }),
    {
        if object_count <= 0 {
            return WBEM_NO_ERROR;
        }
        let n: usize = object_count as usize;
        let ghost slots = objects@;
        let ghost n_int = object_count as int;
        let ghost off0 = self.offered();
        let ghost del0 = self.delivered();
        let ghost comp0 = self.completed();
        let ghost blk0 = self.blocked();
        let ghost mut k: int = 0;
        let mut i: usize = 0;
        while i < n
            invariant
                slots == objects@,
                n as int == n_int,
                n_int == slots.len(),
                0 <= i <= n,
                forall|j: int| 0 <= j < i ==> slots[j] is Some,
                scan_len(slots, i as int, n_int) == processed_len(slots, n_int),
                self.offered() == off0 + batch_prefix(slots, i as int),
                0 <= k <= i,
                self.delivered() == del0 + batch_prefix(slots, k),
                !self.blocked() ==> k == i as int,
                blk0 ==> k == 0,
                self.completed() == comp0,
                blk0 ==> self.blocked(),
                self.channel_id() == old(self).channel_id(),
            decreases n - i,
        {
            match objects[i] {
                Option::None => {
                    proof {
                        assert(scan_len(slots, i as int, n_int) == i as int);
                        lemma_prefix_of_prefix(slots, k, i as int);
                        lemma_append_skip(del0, batch_prefix(slots, k));
                        assert(del0 + batch_prefix(slots, 0) =~= del0);
                    }
                    return E_POINTER;
                },
                Option::Some(obj) => {
                    let item = Item::acquire(obj);
                    let ghost m: Delivery = Ok(item);
                    let ok = send_delivery(&mut self.sender, Ok(item));
                    proof {
                        lemma_batch_prefix_push(slots, i as int);
                        lemma_append_push(off0, batch_prefix(slots, i as int), m);
                        if ok {
                            lemma_append_push(del0, batch_prefix(slots, k), m);
                            k = k + 1;
                        }
                    }
                },
            }
            i = i + 1;
        }
        proof {
            assert(scan_len(slots, n_int, n_int) == n_int);
            lemma_prefix_of_prefix(slots, k, n_int);
            lemma_append_skip(del0, batch_prefix(slots, k));
            assert(del0 + batch_prefix(slots, 0) =~= del0);
        }
        WBEM_NO_ERROR
    }

    /// Report the overall status of the query. Only the flags are
    /// interpreted: the completion flag closes the channel, after which the
    /// consumer, once it has taken every queued message, observes
    /// end-of-stream. Always succeeds, and never waits.
    pub fn set_status(
        &mut self,
        flags: i32,
        _result_code: i32,
        _status_string: Option<String>,
        _status_object: Option<ObjectRef>,
    ) -> (status: i32)
        ensures
            status == WBEM_NO_ERROR,
            final(self).channel_id() == old(self).channel_id(),
            final(self).offered() == old(self).offered(),
            final(self).delivered() == old(self).delivered(),
            flags == WBEM_STATUS_COMPLETE ==> final(self).completed() && final(self).blocked(),
            flags != WBEM_STATUS_COMPLETE ==> *final(self) == *old(self),
    {
        if flags == WBEM_STATUS_COMPLETE {
            close_sender(&mut self.sender);
        }
        WBEM_NO_ERROR
    }
}

/// Appending one element to the right-hand part of an append is the same as
/// appending it to the whole.
proof fn lemma_append_push<T>(a: Seq<T>, b: Seq<T>, x: T)
    ensures
        (a + b).push(x) == a + b.push(x),
{
    assert((a + b).push(x) =~= a + b.push(x));
}

/// What stands after an appended prefix is exactly the appended part.
proof fn lemma_append_skip<T>(a: Seq<T>, b: Seq<T>)
    ensures
        (a + b).skip(a.len() as int) == b,
{
    assert((a + b).skip(a.len() as int) =~= b);
}

/// One more filled slot extends the batch's message prefix by that slot's
/// item.
proof fn lemma_batch_prefix_push(slots: Seq<Option<ObjectRef>>, i: int)
    requires
        0 <= i < slots.len(),
        slots[i] is Some,
    ensures
        batch_prefix(slots, i + 1) == batch_prefix(slots, i).push(
            Ok(Item { id: slots[i].unwrap().id }),
        ),
{
    assert(batch_prefix(slots, i + 1) =~= batch_prefix(slots, i).push(
        Ok(Item { id: slots[i].unwrap().id }),
    ));
}

/// A shorter message prefix of a batch is a prefix of a longer one.
proof fn lemma_prefix_of_prefix(slots: Seq<Option<ObjectRef>>, k: int, i: int)
    requires
        0 <= k <= i,
    ensures
        batch_prefix(slots, k).is_prefix_of(batch_prefix(slots, i)),
{
    assert(batch_prefix(slots, k) =~= batch_prefix(slots, i).subrange(0, k));
}

/// A scan that starts where every slot up to `n` is filled runs to `n`.
proof fn lemma_scan_all_some(slots: Seq<Option<ObjectRef>>, i: int, n: int)
    requires
        0 <= i <= n <= slots.len(),
        forall|j: int| i <= j < n ==> slots[j] is Some,
    ensures
        scan_len(slots, i, n) == n,
    decreases n - i,
{
    if i < n {
        lemma_scan_all_some(slots, i + 1, n);
    }
}

/// A batch with no empty slot among its `n` slots yields exactly one owned
/// item per slot, in slot order.
pub proof fn lemma_full_batch(slots: Seq<Option<ObjectRef>>, n: int)
    requires
        0 <= n <= slots.len(),
        forall|j: int| 0 <= j < n ==> slots[j] is Some,
    ensures
        batch_ok(slots, n),
        batch_items(slots, n).len() == n,
        forall|j: int|
            0 <= j < n ==> batch_items(slots, n)[j] == Ok::<Item, DeliveryError>(
                Item { id: slots[j].unwrap().id },
            ),
{
    lemma_scan_all_some(slots, 0, n);
}

/// An empty slot, with every earlier slot filled, stops the batch exactly
/// there: the earlier slots yield their items in order, and nothing at or
/// after the empty slot is ever offered.
pub proof fn lemma_empty_slot(slots: Seq<Option<ObjectRef>>, n: int, i: int)
    requires
        0 <= i < n <= slots.len(),
        slots[i] is None,
        forall|j: int| 0 <= j < i ==> slots[j] is Some,
    ensures
        !batch_ok(slots, n),
        processed_len(slots, n) == i,
        batch_items(slots, n).len() == i,
        forall|j: int|
            0 <= j < i ==> batch_items(slots, n)[j] == Ok::<Item, DeliveryError>(
                Item { id: slots[j].unwrap().id },
            ),
{
    lemma_scan_stops(slots, 0, i, n);
}

/// A scan over filled slots stops at the first empty one.
proof fn lemma_scan_stops(slots: Seq<Option<ObjectRef>>, j: int, i: int, n: int)
    requires
        0 <= j <= i < n <= slots.len(),
        slots[i] is None,
        forall|m: int| j <= m < i ==> slots[m] is Some,
    ensures
        scan_len(slots, j, n) == i,
    decreases i - j,
{
    if j < i {
        lemma_scan_stops(slots, j + 1, i, n);
    }
}

} // verus!
