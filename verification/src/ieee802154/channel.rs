//! Bounded packet queues between the radio and the network stack.
//!
//! A queue recycles a fixed set of packet buffers. Each buffer is either queued, that is, it holds a
//! packet which the receiving end has not released yet, or it is vacant and will be filled by
//! the sending end. Buffers are handed out in order: the first queued one to the receiving end, the
//! first vacant one to the sending end.
use vstd::prelude::*;
use core::task::Context;
use embassy_sync::blocking_mutex::raw::NoopRawMutex;
use embassy_sync::zerocopy_channel::{Channel, Receiver, Sender};
use super::packet::Pkt;
use super::waker::{context_task, TaskWaker, WakerView};

verus! {

/// Room for one `embassy_sync::zerocopy_channel::Channel` of packets. Nothing is claimed of it.
#[verifier::external_body]
pub struct ChannelStorage<'d> {
    chan: Option<Channel<'d, NoopRawMutex, Pkt>>,
}

/// The `Sender` and the `Receiver` of one `embassy_sync::zerocopy_channel::Channel` of packets.
///
/// No other handle to the channel exists while this one does, so that what the channel holds is
/// determined by the calls that are made here.
#[verifier::external_body]
pub struct ChannelEnds<'d> {
    sender: Sender<'d, NoopRawMutex, Pkt>,
    receiver: Receiver<'d, NoopRawMutex, Pkt>,
}

/// The packets that have been sent and not been released yet, the oldest first.
pub uninterp spec fn ends_queued(ends: ChannelEnds) -> Seq<Pkt>;

/// The buffers that can be filled, the one that is filled next first.
pub uninterp spec fn ends_vacant(ends: ChannelEnds) -> Seq<Pkt>;

impl<'d> ChannelStorage<'d> {
    /// Holds no `Channel` yet, which is put in place by [`PacketQueue::new`].
    #[verifier::external_body]
    pub(crate) fn new() -> (storage: Self) {
        ChannelStorage { chan: None }
    }
}

impl<'d> ChannelEnds<'d> {
    /// `Channel::new` and `Channel::split`: the channel starts with all of the given buffers vacant,
    /// in their order. `Channel::new` panics if there is no buffer.
    #[verifier::external_body]
    fn new<'b>(storage: &'d mut ChannelStorage<'b>, buf: &'b mut [Pkt]) -> (ends: Self)
        requires
            old(buf)@.len() > 0,
        ensures
            ends_queued(ends) == Seq::<Pkt>::empty(),
            ends_vacant(ends) == old(buf)@,
    {
        let (sender, receiver) = storage.chan.insert(Channel::new(buf)).split();
        ChannelEnds { sender, receiver }
    }

    /// `Sender::len`: the number of queued packets.
    #[verifier::external_body]
    fn len(&self) -> (len: usize)
        ensures
            len == ends_queued(*self).len(),
    {
        self.sender.len()
    }

    /// `Sender::try_send`: hands out the first vacant buffer, if there is one. What is written to it
    /// stays in that buffer. Nothing else changes.
    #[verifier::external_body]
    fn try_send(&mut self) -> (slot: Option<&mut Pkt>)
        ensures
            slot is Some <==> ends_vacant(*old(self)).len() > 0,
            slot matches Some(slot) ==> *slot == ends_vacant(*old(self))[0],
            ends_vacant(*final(self)) == (match slot {
                Some(slot) => ends_vacant(*old(self)).update(0, *final(slot)),
                None => ends_vacant(*old(self)),
            }),
            ends_queued(*final(self)) == ends_queued(*old(self)),
    {
        self.sender.try_send()
    }

    /// `Sender::send_done`: queues the first vacant buffer. The call panics if no buffer is vacant. It
    /// also wakes the task that waits in the channel itself, and no task ever does.
    #[verifier::external_body]
    fn send_done(&mut self)
        requires
            ends_vacant(*old(self)).len() > 0,
        ensures
            ends_queued(*final(self)) == ends_queued(*old(self)).push(ends_vacant(*old(self))[0]),
            ends_vacant(*final(self)) == ends_vacant(*old(self)).drop_first(),
    {
        self.sender.send_done()
    }

    /// `Receiver::try_receive`: hands out the first queued packet, if there is one. What is written to
    /// it stays in that packet. Nothing else changes.
    #[verifier::external_body]
    fn try_receive(&mut self) -> (slot: Option<&mut Pkt>)
        ensures
            slot is Some <==> ends_queued(*old(self)).len() > 0,
            slot matches Some(slot) ==> *slot == ends_queued(*old(self))[0],
            ends_queued(*final(self)) == (match slot {
                Some(slot) => ends_queued(*old(self)).update(0, *final(slot)),
                None => ends_queued(*old(self)),
            }),
            ends_vacant(*final(self)) == ends_vacant(*old(self)),
    {
        self.receiver.try_receive()
    }

    /// `Receiver::receive_done`: releases the first queued packet, whose buffer becomes the last vacant
    /// one. The call panics if no packet is queued. It also wakes the task that waits in the channel
    /// itself, and no task ever does.
    #[verifier::external_body]
    fn receive_done(&mut self)
        requires
            ends_queued(*old(self)).len() > 0,
        ensures
            ends_queued(*final(self)) == ends_queued(*old(self)).drop_first(),
            ends_vacant(*final(self)) == ends_vacant(*old(self)).push(ends_queued(*old(self))[0]),
    {
        self.receiver.receive_done()
    }
}

/// What a packet queue holds.
#[verifier::ext_equal]
pub struct QueueView {
    /// The packets that have been sent and not been released yet, the oldest first.
    pub queued: Seq<Pkt>,
    /// The buffers that can be filled, the one that is filled next first.
    pub vacant: Seq<Pkt>,
    /// The task that is to be woken when a packet has been sent, and those that have been woken.
    pub receiver: WakerView,
    /// The task that is to be woken when a buffer has been released, and those that have been woken.
    pub sender: WakerView,
}

impl QueueView {
    /// The number of buffers, queued or vacant.
    pub open spec fn capacity(self) -> nat {
        self.queued.len() + self.vacant.len()
    }

    /// A queue of vacant buffers.
    pub open spec fn empty(buffers: Seq<Pkt>) -> QueueView {
        QueueView {
            queued: Seq::empty(),
            vacant: buffers,
            receiver: WakerView::idle(),
            sender: WakerView::idle(),
        }
    }

    /// The queue after something has been written to the first vacant buffer.
    pub open spec fn fill(self, pkt: Pkt) -> QueueView {
        QueueView { vacant: self.vacant.update(0, pkt), ..self }
    }

    /// The queue after the first vacant buffer has been sent: the task that waits for a packet is woken.
    pub open spec fn push(self) -> QueueView {
        QueueView {
            queued: self.queued.push(self.vacant[0]),
            vacant: self.vacant.drop_first(),
            receiver: self.receiver.wake(),
            sender: self.sender,
        }
    }

    /// The queue after something has been written to the first queued packet.
    pub open spec fn edit(self, pkt: Pkt) -> QueueView {
        QueueView { queued: self.queued.update(0, pkt), ..self }
    }

    /// The queue after the first queued packet has been released: the task that waits for a vacant buffer
    /// is woken.
    pub open spec fn pop(self) -> QueueView {
        QueueView {
            queued: self.queued.drop_first(),
            vacant: self.vacant.push(self.queued[0]),
            receiver: self.receiver,
            sender: self.sender.wake(),
        }
    }

    /// The queue after a task has started to wait for a packet.
    pub open spec fn await_queued(self, task: int) -> QueueView {
        QueueView { receiver: self.receiver.register(task), ..self }
    }

    /// The queue after a task has started to wait for a vacant buffer.
    pub open spec fn await_vacant(self, task: int) -> QueueView {
        QueueView { sender: self.sender.register(task), ..self }
    }

    /// All buffers in the order in which they are reused: the queued ones, then the vacant ones.
    pub open spec fn ring(self) -> Seq<Pkt> {
        self.queued + self.vacant
    }
}

/// The buffers of a queue after the first `n` of them have moved behind the others.
spec fn rotated(ring: Seq<Pkt>, n: int) -> Seq<Pkt> {
    ring.skip(n) + ring.take(n)
}

/// A bounded queue of packets.
///
/// The tasks that wait for the queue are registered here and not in the channel, so that it is possible to
/// look at the second packet without waking anyone.
pub struct PacketQueue<'d> {
    ends: ChannelEnds<'d>,
    capacity: usize,
    receiver: TaskWaker,
    sender: TaskWaker,
}

impl<'d> View for PacketQueue<'d> {
    type V = QueueView;

    closed spec fn view(&self) -> QueueView {
        QueueView {
            queued: ends_queued(self.ends),
            vacant: ends_vacant(self.ends),
            receiver: self.receiver@,
            sender: self.sender@,
        }
    }
}

impl<'d> PacketQueue<'d> {
    /// The queue has at least one buffer, and none has been lost.
    pub closed spec fn wf(&self) -> bool {
        &&& self@.capacity() == self.capacity
        &&& self.capacity > 0
    }

    /// A queue has at least one buffer, and no more than can be counted.
    pub proof fn lemma_capacity(&self)
        requires
            self.wf(),
        ensures
            0 < self@.capacity() <= usize::MAX,
    {
    }

    /// Creates a queue that reuses the given buffers.
    pub fn new<'b>(storage: &'d mut ChannelStorage<'b>, buf: &'b mut [Pkt]) -> (queue: Self)
        requires
            old(buf)@.len() > 0,
        ensures
            queue.wf(),
            queue@ == QueueView::empty(old(buf)@),
    {
        let capacity = buf.len();
        PacketQueue {
            ends: ChannelEnds::new(storage, buf),
            capacity,
            receiver: TaskWaker::new(),
            sender: TaskWaker::new(),
        }
    }

    /// Returns the number of queued packets.
    pub fn len(&self) -> (len: usize)
        ensures
            len == self@.queued.len(),
    {
        self.ends.len()
    }

    /// Returns the number of vacant buffers.
    pub fn vacancies(&self) -> (n: usize)
        requires
            self.wf(),
        ensures
            n == self@.vacant.len(),
    {
        self.capacity - self.ends.len()
    }

    /// Hands out the first vacant buffer, if there is one.
    pub fn try_send(&mut self) -> (slot: Option<&mut Pkt>)
        requires
            old(self).wf(),
        ensures
            final(self).wf(),
            slot is Some <==> old(self)@.vacant.len() > 0,
            slot matches Some(slot) ==> *slot == old(self)@.vacant[0],
            final(self)@ == (match slot {
                Some(slot) => old(self)@.fill(*final(slot)),
                None => old(self)@,
            }),
    {
        self.ends.try_send()
    }

    /// Hands out the first vacant buffer, if there is one. If there is none, the task of `cx` will be
    /// woken when a buffer is released.
    pub fn poll_send(&mut self, cx: &mut Context) -> (slot: Option<&mut Pkt>)
        requires
            old(self).wf(),
        ensures
            final(self).wf(),
            slot is Some <==> old(self)@.vacant.len() > 0,
            slot matches Some(slot) ==> *slot == old(self)@.vacant[0],
            final(self)@ == (match slot {
                Some(slot) => old(self)@.fill(*final(slot)),
                None => old(self)@.await_vacant(context_task(*old(cx))),
            }),
            *final(cx) == *old(cx),
    {
        match self.ends.try_send() {
            Some(slot) => Some(slot),
            None => {
                self.sender.register(cx);
                None
            },
        }
    }

    /// Queues the first vacant buffer and wakes the task that waits for a packet.
    pub fn send_done(&mut self)
        requires
            old(self).wf(),
            old(self)@.vacant.len() > 0,
        ensures
            final(self).wf(),
            final(self)@ == old(self)@.push(),
    {
        self.ends.send_done();
        self.receiver.wake();
    }

    /// Hands out the first queued packet, if there is one.
    pub fn try_receive(&mut self) -> (slot: Option<&mut Pkt>)
        requires
            old(self).wf(),
        ensures
            final(self).wf(),
            slot is Some <==> old(self)@.queued.len() > 0,
            slot matches Some(slot) ==> *slot == old(self)@.queued[0],
            final(self)@ == (match slot {
                Some(slot) => old(self)@.edit(*final(slot)),
                None => old(self)@,
            }),
    {
        self.ends.try_receive()
    }

    /// Hands out the first queued packet, if there is one. If there is none, the task of `cx` will be
    /// woken when a packet is sent.
    pub fn poll_receive(&mut self, cx: &mut Context) -> (slot: Option<&mut Pkt>)
        requires
            old(self).wf(),
        ensures
            final(self).wf(),
            slot is Some <==> old(self)@.queued.len() > 0,
            slot matches Some(slot) ==> *slot == old(self)@.queued[0],
            final(self)@ == (match slot {
                Some(slot) => old(self)@.edit(*final(slot)),
                None => old(self)@.await_queued(context_task(*old(cx))),
            }),
            *final(cx) == *old(cx),
    {
        match self.ends.try_receive() {
            Some(slot) => Some(slot),
            None => {
                self.receiver.register(cx);
                None
            },
        }
    }

    /// Releases the first queued packet and wakes the task that waits for a vacant buffer.
    pub fn receive_done(&mut self)
        requires
            old(self).wf(),
            old(self)@.queued.len() > 0,
        ensures
            final(self).wf(),
            final(self)@ == old(self)@.pop(),
    {
        self.ends.receive_done();
        self.sender.wake();
    }

    /// Moves the first queued packet behind all other buffers and queues the first vacant one in its
    /// place, without touching what the buffers hold.
    fn rotate(&mut self)
        requires
            old(self).wf(),
            old(self)@.queued.len() > 0,
        ensures
            final(self).wf(),
            final(self).capacity == old(self).capacity,
            final(self)@.queued.len() == old(self)@.queued.len(),
            final(self)@.ring() == rotated(old(self)@.ring(), 1),
            final(self)@.receiver == old(self)@.receiver,
            final(self)@.sender == old(self)@.sender,
    {
        let ghost ring = self@.ring();
        self.ends.receive_done();
        self.ends.send_done();
        assert(self@.ring() =~= rotated(ring, 1));
    }

    /// Returns the second queued packet, if there is one.
    ///
    /// A channel only hands out the first packet of a queue. The buffers are therefore rotated until
    /// they are back in place, which takes as many steps as there are buffers, and the second packet is
    /// read on the way. The queue is left as it was.
    pub fn second(&mut self) -> (pkt: Option<Pkt>)
        requires
            old(self).wf(),
        ensures
            final(self).wf(),
            pkt == (if old(self)@.queued.len() > 1 {
                Some(old(self)@.queued[1])
            } else {
                None
            }),
            final(self)@ == old(self)@,
    {
        let len = self.ends.len();
        if len < 2 {
            return None;
        }
        let ghost before = self@;
        let ghost ring = self@.ring();
        self.rotate();
        assert(self@.ring()[0] == ring[1]);
        let second: Option<Pkt> = match self.ends.try_receive() {
            Some(pkt) => Some(*pkt),
            None => None,
        };
        assert(self@.queued =~= self@.ring().take(len as int));
        let mut turns: usize = 1;
        while turns < self.capacity
            invariant
                self.wf(),
                len > 1,
                self@.queued.len() == len,
                1 <= turns <= self.capacity,
                self.capacity == ring.len(),
                self@.ring() == rotated(ring, turns as int),
                self@.receiver == before.receiver,
                self@.sender == before.sender,
            decreases self.capacity - turns,
        {
            self.rotate();
            assert(rotated(rotated(ring, turns as int), 1) =~= rotated(ring, turns + 1));
            turns = turns + 1;
        }
        proof {
            assert(rotated(ring, ring.len() as int) =~= ring);
            assert(before.queued =~= ring.take(len as int));
            assert(before.vacant =~= ring.skip(len as int));
            assert(self@.queued =~= self@.ring().take(len as int));
            assert(self@.vacant =~= self@.ring().skip(len as int));
        }
        second
    }
}

/// Writing to a buffer changes what that buffer holds, and nothing else.
pub proof fn law_write(q: QueueView, pkt: Pkt)
    ensures
        q.vacant.len() > 0 ==> q.fill(pkt).vacant == seq![pkt] + q.vacant.skip(1),
        q.fill(pkt).queued == q.queued,
        q.queued.len() > 0 ==> q.edit(pkt).queued == seq![pkt] + q.queued.skip(1),
        q.edit(pkt).vacant == q.vacant,
        q.fill(pkt).receiver == q.receiver && q.fill(pkt).sender == q.sender,
        q.edit(pkt).receiver == q.receiver && q.edit(pkt).sender == q.sender,
{
}

/// Sending moves the first vacant buffer behind the queued ones, and wakes the task that waits for a packet.
pub proof fn law_push(q: QueueView)
    requires
        q.vacant.len() > 0,
    ensures
        q.push().queued == q.queued + seq![q.vacant[0]],
        q.vacant == seq![q.vacant[0]] + q.push().vacant,
        q.push().receiver.task is None,
        q.receiver.task is None ==> q.push().receiver.woken == q.receiver.woken,
        q.receiver.task matches Some(task) ==> q.push().receiver.woken == q.receiver.woken + seq![task],
        q.push().sender == q.sender,
{
}

/// Releasing moves the first queued buffer behind the vacant ones, and wakes the task that waits for one.
pub proof fn law_pop(q: QueueView)
    requires
        q.queued.len() > 0,
    ensures
        q.queued == seq![q.queued[0]] + q.pop().queued,
        q.pop().vacant == q.vacant + seq![q.queued[0]],
        q.pop().sender.task is None,
        q.sender.task is None ==> q.pop().sender.woken == q.sender.woken,
        q.sender.task matches Some(task) ==> q.pop().sender.woken == q.sender.woken + seq![task],
        q.pop().receiver == q.receiver,
{
}

/// Waiting registers the task where it will be woken, and changes no buffer.
pub proof fn law_await(q: QueueView, task: int)
    ensures
        q.await_queued(task).receiver.task == Some(task),
        q.await_queued(task).sender == q.sender,
        q.await_queued(task).queued == q.queued && q.await_queued(task).vacant == q.vacant,
        q.await_vacant(task).sender.task == Some(task),
        q.await_vacant(task).receiver == q.receiver,
        q.await_vacant(task).queued == q.queued && q.await_vacant(task).vacant == q.vacant,
{
}

/// Every buffer is either queued or vacant. In a new queue all of them are vacant, and no task waits.
pub proof fn law_buffers(q: QueueView, buffers: Seq<Pkt>)
    ensures
        q.capacity() == q.queued.len() + q.vacant.len(),
        QueueView::empty(buffers).queued.len() == 0,
        QueueView::empty(buffers).vacant == buffers,
        QueueView::empty(buffers).receiver.task is None,
        QueueView::empty(buffers).sender.task is None,
{
}

} // verus!
