//! The bi-directional channel bus: the thread-safety boundary between
//! the network thread and the per-frame consumer loop.
//!
//! A bus is a pair of independently-owned, unbounded FIFO queues created
//! together: one direction carries state snapshots, notifier events and
//! the assigned player id to the consumer; the other carries player
//! intents back to the network thread. The queues themselves come from
//! `smol`'s channel; each operation the core relies on stands behind one
//! trusted wrapper.
//!
//! Each sending handle carries a ghost log of the messages it has
//! successfully enqueued, oldest first. Every sender's contract in this
//! crate is stated over that log, so what was handed to the bus — and
//! in what order — is pinned, not just whether the send could fail. The
//! ordering guarantee of the queue pair itself is stated and proved
//! over the mathematical model at the end of this file.

use vstd::prelude::*;
use crate::errors::SessionError;
use crate::messages::{FromConsumer, ToConsumer};

verus! {

#[verifier::external_type_specification]
#[verifier::external_body]
#[verifier::reject_recursive_types(T)]
pub struct ExSender<T>(smol::channel::Sender<T>);

#[verifier::external_type_specification]
#[verifier::external_body]
#[verifier::reject_recursive_types(T)]
pub struct ExReceiver<T>(smol::channel::Receiver<T>);

/// Relies on smol::channel::unbounded (async-channel): creates the two
/// halves of one unbounded FIFO queue.
#[verifier::external_body]
fn new_queue<T>() -> (smol::channel::Sender<T>, smol::channel::Receiver<T>) {
    smol::channel::unbounded()
}

/// A sending handle into one direction of the bus, together with the
/// ghost log of what this handle has enqueued, oldest first.
#[verifier::reject_recursive_types(T)]
pub struct SendHandle<T> {
    pub inner: smol::channel::Sender<T>,
    pub log: Ghost<Seq<T>>,
}

impl<T> SendHandle<T> {
    /// A fresh handle around the raw sending half: nothing sent yet.
    pub fn new(inner: smol::channel::Sender<T>) -> (r: SendHandle<T>)
        ensures
            r.inner == inner,
            r.log@ == Seq::<T>::empty(),
    {
        SendHandle { inner, log: Ghost(Seq::empty()) }
    }

    /// Relies on smol::channel::Sender::send_blocking: on an unbounded
    /// queue it enqueues without waiting and fails exactly when the
    /// channel is closed; the message is then lost to the peer, so the
    /// failure is reported as a disconnected bus. On success the item
    /// is appended to this handle's send log; on failure the log is
    /// unchanged.
    #[verifier::external_body]
    pub fn send(&mut self, item: T) -> (r: Result<(), SessionError>)
        ensures
            final(self).inner == old(self).inner,
            r is Ok ==> final(self).log@ == old(self).log@.push(item),
            r matches Err(e) ==> e == SessionError::BusDisconnected && final(self).log@ == old(
                self,
            ).log@,
    {
        match self.inner.send_blocking(item) {
            Ok(()) => Ok(()),
            Err(smol::channel::SendError(_)) => Err(SessionError::BusDisconnected),
        }
    }
}

/// Relies on smol::channel::Receiver::recv_blocking: blocks the calling
/// thread until a message is available, and fails exactly when the
/// channel is closed and drained.
#[verifier::external_body]
fn queue_recv<T>(r: &smol::channel::Receiver<T>) -> (res: Result<T, SessionError>)
    ensures
        res matches Err(e) ==> e == SessionError::BusDisconnected,
{
    match r.recv_blocking() {
        Ok(item) => Ok(item),
        Err(smol::channel::RecvError) => Err(SessionError::BusDisconnected),
    }
}

/// Relies on smol::channel::Receiver::try_recv: never blocks; returns a
/// message if one is queued, otherwise reports the queue empty or the
/// channel closed and drained.
#[verifier::external_body]
fn queue_try_recv<T>(r: &smol::channel::Receiver<T>) -> TryRecv<T> {
    match r.try_recv() {
        Ok(item) => TryRecv::Message(item),
        Err(smol::channel::TryRecvError::Empty) => TryRecv::Empty,
        Err(smol::channel::TryRecvError::Closed) => TryRecv::Closed,
    }
}

/// Relies on smol::channel::Sender::clone: the clone sends into the
/// same queue as the original.
#[verifier::external_body]
fn clone_sender<T>(s: &smol::channel::Sender<T>) -> smol::channel::Sender<T> {
    s.clone()
}

/// The outcome of a non-blocking poll of one bus endpoint.
pub enum TryRecv<T> {
    /// A message was queued and has been dequeued.
    Message(T),
    /// Nothing is queued right now; the peer may still send.
    Empty,
    /// The peer endpoint was dropped and the queue is drained.
    Closed,
}

/// One endpoint of the bus: the sending half of one direction paired
/// with the receiving half of the other.
#[verifier::reject_recursive_types(TSend)]
#[verifier::reject_recursive_types(TRecv)]
pub struct BiChannel<TSend, TRecv> {
    pub sender: SendHandle<TSend>,
    pub receiver: smol::channel::Receiver<TRecv>,
}

/// Everything this endpoint has put on the bus, oldest first.
pub open spec fn sent_log<TSend, TRecv>(c: BiChannel<TSend, TRecv>) -> Seq<TSend> {
    c.sender.log@
}

/// `post` is `pre` after one successful send of `item`: exactly that
/// item is appended to the endpoint's send log, and the endpoint's two
/// channel halves are the ones it had.
pub open spec fn sent_one<TSend, TRecv>(
    pre: BiChannel<TSend, TRecv>,
    post: BiChannel<TSend, TRecv>,
    item: TSend,
) -> bool {
    &&& post.sender.inner == pre.sender.inner
    &&& post.sender.log@ == pre.sender.log@.push(item)
    &&& post.receiver == pre.receiver
}

impl<TSend, TRecv> BiChannel<TSend, TRecv> {
    pub fn new(sender: SendHandle<TSend>, receiver: smol::channel::Receiver<TRecv>) -> (r: Self)
        ensures
            r == (BiChannel { sender, receiver }),
    {
        BiChannel { sender, receiver }
    }

    /// Enqueues `item` for the peer without waiting; on success
    /// exactly `item` is appended to this endpoint's send log; the
    /// send fails only when the peer endpoint is gone, and then
    /// nothing was enqueued.
    pub fn send(&mut self, item: TSend) -> (r: Result<(), SessionError>)
        ensures
            r is Ok ==> sent_one(*old(self), *final(self), item),
            r matches Err(e) ==> e == SessionError::BusDisconnected && *final(self) == *old(self),
    {
        self.sender.send(item)
    }

    /// Blocks the calling thread until the peer has sent a message;
    /// fails only when the peer endpoint is gone and the queue drained.
    pub fn recv(&self) -> (r: Result<TRecv, SessionError>)
        ensures
            r matches Err(e) ==> e == SessionError::BusDisconnected,
    {
        queue_recv(&self.receiver)
    }

    /// Polls for a message without blocking.
    pub fn try_recv(&self) -> TryRecv<TRecv> {
        queue_try_recv(&self.receiver)
    }

    /// A second sending handle into the same direction, with its own
    /// fresh send log, for the write-only notifier.
    pub fn notifier_handle(&self) -> (r: SendHandle<TSend>)
        ensures
            r.log@ == Seq::<TSend>::empty(),
    {
        SendHandle::new(clone_sender(&self.sender.inner))
    }
}

/// Creates two interlocked endpoints that send to and receive from one
/// another over a fresh pair of unbounded FIFO queues; neither has
/// sent anything yet.
pub fn create_channel<TA, TB>() -> (r: (BiChannel<TA, TB>, BiChannel<TB, TA>))
    ensures
        sent_log(r.0) == Seq::<TA>::empty(),
        sent_log(r.1) == Seq::<TB>::empty(),
{
    let (s1, r1) = new_queue::<TA>();
    let (s2, r2) = new_queue::<TB>();
    (BiChannel::new(SendHandle::new(s1), r2), BiChannel::new(SendHandle::new(s2), r1))
}

// ---------------------------------------------------------------------
// The mathematical model of the bus pair, and its ordering guarantee.
// ---------------------------------------------------------------------

/// The state of the bus pair: the messages in flight in each direction,
/// oldest first.
pub struct BusView {
    pub to_consumer: Seq<ToConsumer>,
    pub from_consumer: Seq<FromConsumer>,
}

/// One operation on the bus pair. A receive on an empty direction
/// leaves the bus unchanged (the caller either blocks or polls again).
pub enum BusOp {
    SendToConsumer(ToConsumer),
    RecvToConsumer,
    SendFromConsumer(FromConsumer),
    RecvFromConsumer,
}

/// The bus state after one operation.
pub open spec fn bus_apply(b: BusView, op: BusOp) -> BusView {
    match op {
        BusOp::SendToConsumer(m) => BusView { to_consumer: b.to_consumer.push(m), ..b },
        BusOp::RecvToConsumer => if b.to_consumer.len() > 0 {
            BusView { to_consumer: b.to_consumer.drop_first(), ..b }
        } else {
            b
        },
        BusOp::SendFromConsumer(m) => BusView { from_consumer: b.from_consumer.push(m), ..b },
        BusOp::RecvFromConsumer => if b.from_consumer.len() > 0 {
            BusView { from_consumer: b.from_consumer.drop_first(), ..b }
        } else {
            b
        },
    }
}

/// The bus state after a whole sequence of operations.
pub open spec fn bus_apply_all(b: BusView, ops: Seq<BusOp>) -> BusView
    decreases ops.len(),
{
    if ops.len() == 0 {
        b
    } else {
        bus_apply(bus_apply_all(b, ops.drop_last()), ops.last())
    }
}

/// The messages the consumer-bound sends of `ops` enqueue, in order.
pub open spec fn bus_sent_to_consumer(ops: Seq<BusOp>) -> Seq<ToConsumer>
    decreases ops.len(),
{
    if ops.len() == 0 {
        Seq::empty()
    } else {
        match ops.last() {
            BusOp::SendToConsumer(m) => bus_sent_to_consumer(ops.drop_last()).push(m),
            _ => bus_sent_to_consumer(ops.drop_last()),
        }
    }
}

/// The messages the consumer-bound receives of `ops` return, in order.
pub open spec fn bus_delivered_to_consumer(b: BusView, ops: Seq<BusOp>) -> Seq<ToConsumer>
    decreases ops.len(),
{
    if ops.len() == 0 {
        Seq::empty()
    } else {
        let before = bus_apply_all(b, ops.drop_last());
        match ops.last() {
            BusOp::RecvToConsumer => if before.to_consumer.len() > 0 {
                bus_delivered_to_consumer(b, ops.drop_last()).push(before.to_consumer[0])
            } else {
                bus_delivered_to_consumer(b, ops.drop_last())
            },
            _ => bus_delivered_to_consumer(b, ops.drop_last()),
        }
    }
}

/// FIFO law of the bus. For any starting state and any interleaving of
/// operations on both directions, what the consumer endpoint has
/// received, followed by what is still queued for it, equals what was
/// queued at the start followed by every consumer-bound send in send
/// order. In particular the receives return the sends of one direction
/// in exactly their order, however the opposite direction interleaves.
pub proof fn lemma_bus_fifo(b: BusView, ops: Seq<BusOp>)
    ensures
        bus_delivered_to_consumer(b, ops) + bus_apply_all(b, ops).to_consumer
            == b.to_consumer + bus_sent_to_consumer(ops),
    decreases ops.len(),
{
    if ops.len() == 0 {
        assert(bus_delivered_to_consumer(b, ops) + bus_apply_all(b, ops).to_consumer
            =~= b.to_consumer + bus_sent_to_consumer(ops));
    } else {
        let prefix = ops.drop_last();
        lemma_bus_fifo(b, prefix);
        let before = bus_apply_all(b, prefix);
        let d = bus_delivered_to_consumer(b, prefix);
        match ops.last() {
            BusOp::SendToConsumer(m) => {
                assert(d + before.to_consumer.push(m) =~= (d + before.to_consumer).push(m));
                assert((b.to_consumer + bus_sent_to_consumer(prefix)).push(m)
                    =~= b.to_consumer + bus_sent_to_consumer(prefix).push(m));
            },
            BusOp::RecvToConsumer => {
                if before.to_consumer.len() > 0 {
                    assert(d.push(before.to_consumer[0]) + before.to_consumer.drop_first()
                        =~= d + before.to_consumer);
                }
            },
            BusOp::SendFromConsumer(_) => {},
            BusOp::RecvFromConsumer => {},
        }
    }
}

/// The messages the network-bound sends of `ops` enqueue, in order.
pub open spec fn bus_sent_from_consumer(ops: Seq<BusOp>) -> Seq<FromConsumer>
    decreases ops.len(),
{
    if ops.len() == 0 {
        Seq::empty()
    } else {
        match ops.last() {
            BusOp::SendFromConsumer(m) => bus_sent_from_consumer(ops.drop_last()).push(m),
            _ => bus_sent_from_consumer(ops.drop_last()),
        }
    }
}

/// The messages the network-bound receives of `ops` return, in order.
pub open spec fn bus_delivered_from_consumer(b: BusView, ops: Seq<BusOp>) -> Seq<FromConsumer>
    decreases ops.len(),
{
    if ops.len() == 0 {
        Seq::empty()
    } else {
        let before = bus_apply_all(b, ops.drop_last());
        match ops.last() {
            BusOp::RecvFromConsumer => if before.from_consumer.len() > 0 {
                bus_delivered_from_consumer(b, ops.drop_last()).push(before.from_consumer[0])
            } else {
                bus_delivered_from_consumer(b, ops.drop_last())
            },
            _ => bus_delivered_from_consumer(b, ops.drop_last()),
        }
    }
}

/// The same FIFO law for the opposite direction: the network endpoint
/// receives the consumer's intents in exactly their send order,
/// however the consumer-bound direction interleaves.
pub proof fn lemma_bus_fifo_from_consumer(b: BusView, ops: Seq<BusOp>)
    ensures
        bus_delivered_from_consumer(b, ops) + bus_apply_all(b, ops).from_consumer
            == b.from_consumer + bus_sent_from_consumer(ops),
    decreases ops.len(),
{
    if ops.len() == 0 {
        assert(bus_delivered_from_consumer(b, ops) + bus_apply_all(b, ops).from_consumer
            =~= b.from_consumer + bus_sent_from_consumer(ops));
    } else {
        let prefix = ops.drop_last();
        lemma_bus_fifo_from_consumer(b, prefix);
        let before = bus_apply_all(b, prefix);
        let d = bus_delivered_from_consumer(b, prefix);
        match ops.last() {
            BusOp::SendFromConsumer(m) => {
                assert(d + before.from_consumer.push(m) =~= (d + before.from_consumer).push(m));
                assert((b.from_consumer + bus_sent_from_consumer(prefix)).push(m)
                    =~= b.from_consumer + bus_sent_from_consumer(prefix).push(m));
            },
            BusOp::RecvFromConsumer => {
                if before.from_consumer.len() > 0 {
                    assert(d.push(before.from_consumer[0]) + before.from_consumer.drop_first()
                        =~= d + before.from_consumer);
                }
            },
            BusOp::SendToConsumer(_) => {},
            BusOp::RecvToConsumer => {},
        }
    }
}

} // verus!
