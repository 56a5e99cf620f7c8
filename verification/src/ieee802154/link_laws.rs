//! What holds of the link after any sequence of calls on both of its ends.
use vstd::prelude::*;
use super::channel::QueueView;
use super::packet::Pkt;
use super::runner::{Capabilities, HardwareAddress, LinkState, LinkView};
use super::waker::WakerView;

verus! {

/// A call on one of the ends of the link, together with what its caller contributes. Tasks that start to
/// wait are given by their number.
pub enum Call {
    /// `set_link_state` of a `Runner` or a `StateRunner`.
    SetLinkState(LinkState),
    /// `set_hardware_address` of a `Runner` or a `StateRunner`.
    SetHardwareAddress(HardwareAddress),
    /// `RxRunner::try_rx_pkt` or `RxRunner::poll_rx_pkt` hands out a buffer, and this is written to it.
    RxPkt(Pkt),
    /// `RxRunner::poll_rx_pkt` finds no buffer.
    AwaitRxPkt(int),
    /// `RxRunner::rx_done`.
    RxDone,
    /// `TxRunner::try_tx_pkt` or `TxRunner::poll_tx_pkt` hands out a packet, and this is written to it.
    TxPkt(Pkt),
    /// `TxRunner::poll_tx_pkt` finds no packet.
    AwaitTxPkt(int),
    /// `TxRunner::tx_done`.
    TxDone,
    /// `RxToken::consume`, which leaves this in the buffer.
    ConsumeRx(Pkt),
    /// `Device::receive` finds no packet.
    AwaitRxToken(int),
    /// `TxToken::consume`, which makes this of the buffer.
    ConsumeTx(Pkt),
    /// `Device::receive` or `Device::transmit` finds no buffer.
    AwaitTxToken(int),
    /// `Device::link_state`.
    GetLinkState(int),
    /// Any call that changes nothing: `RxRunner::try_next_rx_pkt`, `TxRunner::try_next_tx_pkt`,
    /// `Device::capabilities`, `Device::hardware_address`, or one of the above that finds nothing and does
    /// not wait for it.
    Look,
}

impl LinkView {
    /// The call can be made, and ends as it says.
    pub open spec fn permits(self, call: Call) -> bool {
        match call {
            Call::RxPkt(_) | Call::RxDone => self.rx.vacant.len() > 0,
            Call::AwaitRxPkt(_) => self.rx.vacant.len() == 0,
            Call::TxPkt(_) | Call::TxDone => self.tx.queued.len() > 0,
            Call::AwaitTxPkt(_) => self.tx.queued.len() == 0,
            Call::ConsumeRx(_) => self.rx.queued.len() > 0,
            Call::AwaitRxToken(_) => self.rx.queued.len() == 0,
            Call::ConsumeTx(_) => self.tx.vacant.len() > 0,
            Call::AwaitTxToken(_) => self.tx.vacant.len() == 0,
            _ => true,
        }
    }

    /// The link after the call.
    pub open spec fn after(self, call: Call) -> LinkView {
        match call {
            Call::SetLinkState(state) => LinkView {
                shared: self.shared.with_link_state(state),
                ..self
            },
            Call::SetHardwareAddress(address) => LinkView {
                shared: self.shared.with_hardware_address(address),
                ..self
            },
            Call::RxPkt(pkt) => LinkView { rx: self.rx.fill(pkt), ..self },
            Call::AwaitRxPkt(task) => LinkView { rx: self.rx.await_vacant(task), ..self },
            Call::RxDone => LinkView { rx: self.rx.push(), ..self },
            Call::TxPkt(pkt) => LinkView { tx: self.tx.edit(pkt), ..self },
            Call::AwaitTxPkt(task) => LinkView { tx: self.tx.await_queued(task), ..self },
            Call::TxDone => LinkView { tx: self.tx.pop(), ..self },
            Call::ConsumeRx(pkt) => LinkView { rx: self.rx.edit(pkt).pop(), ..self },
            Call::AwaitRxToken(task) => LinkView { rx: self.rx.await_queued(task), ..self },
            Call::ConsumeTx(pkt) => LinkView { tx: self.tx.fill(pkt).push(), ..self },
            Call::AwaitTxToken(task) => LinkView { tx: self.tx.await_vacant(task), ..self },
            Call::GetLinkState(task) => LinkView { shared: self.shared.observed(task), ..self },
            Call::Look => self,
        }
    }

    /// The link after all of the calls.
    pub open spec fn after_calls(self, calls: Seq<Call>) -> LinkView
        decreases calls.len(),
    {
        if calls.len() == 0 {
            self
        } else {
            self.after_calls(calls.drop_last()).after(calls.last())
        }
    }

    /// The calls can be made one after the other.
    pub open spec fn permits_calls(self, calls: Seq<Call>) -> bool
        decreases calls.len(),
    {
        calls.len() > 0 ==> {
            &&& self.permits_calls(calls.drop_last())
            &&& self.after_calls(calls.drop_last()).permits(calls.last())
        }
    }

    /// The packets that `RxRunner::rx_done` pushes during the calls.
    pub open spec fn rx_pushed(self, calls: Seq<Call>) -> Seq<Pkt>
        decreases calls.len(),
    {
        if calls.len() == 0 {
            seq![]
        } else if calls.last() is RxDone {
            self.rx_pushed(calls.drop_last()).push(self.after_calls(calls.drop_last()).rx.vacant[0])
        } else {
            self.rx_pushed(calls.drop_last())
        }
    }

    /// The packets that `RxToken::consume` hands out during the calls.
    pub open spec fn rx_consumed(self, calls: Seq<Call>) -> Seq<Pkt>
        decreases calls.len(),
    {
        if calls.len() == 0 {
            seq![]
        } else if calls.last() is ConsumeRx {
            self.rx_consumed(calls.drop_last()).push(
                self.after_calls(calls.drop_last()).rx.queued[0],
            )
        } else {
            self.rx_consumed(calls.drop_last())
        }
    }
}

/// What has been written to the inbound buffer that is pushed next, if anything.
pub open spec fn rx_written(calls: Seq<Call>) -> Option<Pkt>
    decreases calls.len(),
{
    if calls.len() == 0 {
        None
    } else {
        match calls.last() {
            Call::RxPkt(pkt) => Some(pkt),
            Call::RxDone => None,
            _ => rx_written(calls.drop_last()),
        }
    }
}

/// The packets that `TxToken::consume` pushes during the calls.
pub open spec fn tx_pushed(calls: Seq<Call>) -> Seq<Pkt>
    decreases calls.len(),
{
    if calls.len() == 0 {
        seq![]
    } else {
        match calls.last() {
            Call::ConsumeTx(pkt) => tx_pushed(calls.drop_last()).push(pkt),
            _ => tx_pushed(calls.drop_last()),
        }
    }
}

/// The number of packets that `TxRunner::tx_done` marks as sent during the calls.
pub open spec fn tx_dones(calls: Seq<Call>) -> nat
    decreases calls.len(),
{
    if calls.len() == 0 {
        0
    } else {
        tx_dones(calls.drop_last()) + if calls.last() is TxDone {
            1nat
        } else {
            0nat
        }
    }
}

/// What the lower end itself has written to the first outbound packet, if anything.
pub open spec fn tx_written(calls: Seq<Call>) -> Option<Pkt>
    decreases calls.len(),
{
    if calls.len() == 0 {
        None
    } else {
        match calls.last() {
            Call::TxPkt(pkt) => Some(pkt),
            Call::TxDone => None,
            _ => tx_written(calls.drop_last()),
        }
    }
}

/// The queues are bounded: neither ever has more or fewer buffers than at first, queued or vacant.
pub proof fn law_bounded(link: LinkView, calls: Seq<Call>)
    requires
        link.permits_calls(calls),
    ensures
        link.after_calls(calls).rx.capacity() == link.rx.capacity(),
        link.after_calls(calls).tx.capacity() == link.tx.capacity(),
        link.after_calls(calls).rx.queued.len() <= link.rx.capacity(),
        link.after_calls(calls).tx.queued.len() <= link.tx.capacity(),
    decreases calls.len(),
{
    if calls.len() > 0 {
        law_bounded(link, calls.drop_last());
    }
}

/// The inbound queue is first in, first out: the packets that the upper end consumes are those that the lower
/// end pushes, in the same order, each of them once and unchanged, and the others are in the queue. What is
/// pushed is what has been written to the buffer last.
pub proof fn law_inbound_fifo(link: LinkView, calls: Seq<Call>)
    requires
        link.permits_calls(calls),
    ensures
        link.rx_consumed(calls) + link.after_calls(calls).rx.queued == link.rx.queued + link.rx_pushed(
            calls,
        ),
        rx_written(calls) matches Some(pkt) ==> {
            &&& link.after_calls(calls).rx.vacant.len() > 0
            &&& link.after_calls(calls).rx.vacant[0] == pkt
        },
    decreases calls.len(),
{
    if calls.len() > 0 {
        law_inbound_fifo(link, calls.drop_last());
        let before = link.after_calls(calls.drop_last());
        let out = link.rx_consumed(calls.drop_last());
        let all = link.rx.queued + link.rx_pushed(calls.drop_last());
        assert(out + before.rx.queued == all);
        if calls.last() is RxDone {
            assert(out + before.rx.push().queued =~= all.push(before.rx.vacant[0]));
            assert(all.push(before.rx.vacant[0]) =~= link.rx.queued + link.rx_pushed(calls));
        } else if calls.last() is ConsumeRx {
            assert(link.rx_consumed(calls) + link.after_calls(calls).rx.queued =~= out
                + before.rx.queued);
        }
    } else {
        assert(link.rx_consumed(calls) + link.rx.queued =~= link.rx.queued + link.rx_pushed(calls));
    }
}

/// The outbound queue is first in, first out: it holds the packets that the upper end has pushed, in the same
/// order and unchanged, without as many of the first ones as the lower end has marked as sent. Only to the
/// first packet, which the lower end is handed, it can write itself.
pub proof fn law_outbound_fifo(link: LinkView, calls: Seq<Call>)
    requires
        link.permits_calls(calls),
    ensures
        ({
            let all = link.tx.queued + tx_pushed(calls);
            let pending = all.skip(tx_dones(calls) as int);
            &&& tx_dones(calls) <= all.len()
            &&& link.after_calls(calls).tx.queued == match tx_written(calls) {
                Some(pkt) => pending.update(0, pkt),
                None => pending,
            }
            &&& tx_written(calls) is Some ==> pending.len() > 0
        }),
    decreases calls.len(),
{
    let queued = link.after_calls(calls).tx.queued;
    let pending = (link.tx.queued + tx_pushed(calls)).skip(tx_dones(calls) as int);
    if calls.len() > 0 {
        law_outbound_fifo(link, calls.drop_last());
        match tx_written(calls) {
            Some(pkt) => assert(queued =~= pending.update(0, pkt)),
            None => assert(queued =~= pending),
        }
    } else {
        assert(queued =~= pending);
    }
}

/// The call concerns the inbound queue.
pub open spec fn is_inbound(call: Call) -> bool {
    match call {
        Call::RxPkt(_) => true,
        Call::AwaitRxPkt(_) => true,
        Call::RxDone => true,
        Call::ConsumeRx(_) => true,
        Call::AwaitRxToken(_) => true,
        _ => false,
    }
}

/// The call concerns the outbound queue.
pub open spec fn is_outbound(call: Call) -> bool {
    match call {
        Call::TxPkt(_) => true,
        Call::AwaitTxPkt(_) => true,
        Call::TxDone => true,
        Call::ConsumeTx(_) => true,
        Call::AwaitTxToken(_) => true,
        _ => false,
    }
}

/// Those of the calls that concern the inbound queue, or else those that concern the outbound queue.
pub open spec fn only(calls: Seq<Call>, inbound: bool) -> Seq<Call>
    decreases calls.len(),
{
    if calls.len() == 0 {
        seq![]
    } else if inbound && is_inbound(calls.last()) || !inbound && is_outbound(calls.last()) {
        only(calls.drop_last(), inbound).push(calls.last())
    } else {
        only(calls.drop_last(), inbound)
    }
}

/// The queues are independent: each of them is as if only the calls that concern it had been made.
pub proof fn law_queues_independent(link: LinkView, calls: Seq<Call>)
    ensures
        link.after_calls(calls).rx == link.after_calls(only(calls, true)).rx,
        link.after_calls(calls).tx == link.after_calls(only(calls, false)).tx,
    decreases calls.len(),
{
    if calls.len() > 0 {
        let before = calls.drop_last();
        law_queues_independent(link, before);
        assert(only(before, true).push(calls.last()).drop_last() =~= only(before, true));
        assert(only(before, false).push(calls.last()).drop_last() =~= only(before, false));
    }
}

/// What holds of a new link with the given buffers, whatever calls are made: the inbound queue holds at most
/// as many packets as there are inbound buffers, and the upper end gets what the lower end pushes; the
/// outbound queue holds at most as many packets as there are outbound buffers, and the lower end gets what
/// the upper end pushes; the parameters are those set last; and no task is left waiting for what is there.
pub proof fn law_new_link(rx: Seq<Pkt>, tx: Seq<Pkt>, address: HardwareAddress, calls: Seq<Call>)
    requires
        LinkView::new(rx, tx, address).permits_calls(calls),
    ensures
        ({
            let link = LinkView::new(rx, tx, address);
            let after = link.after_calls(calls);
            &&& after.rx.queued.len() <= rx.len()
            &&& after.tx.queued.len() <= tx.len()
            &&& link.rx_consumed(calls) + after.rx.queued == link.rx_pushed(calls)
            &&& tx_written(calls) is None ==> after.tx.queued == tx_pushed(calls).skip(
                tx_dones(calls) as int,
            )
            &&& after.shared.link_state == last_link_state(LinkState::Down, calls)
            &&& after.shared.hardware_address == last_hardware_address(address, calls)
            &&& after.caps == Capabilities::with_mtu(Pkt::CAPACITY)
            &&& no_missed_wakeup(after.rx)
            &&& no_missed_wakeup(after.tx)
        }),
{
    let link = LinkView::new(rx, tx, address);
    law_bounded(link, calls);
    law_inbound_fifo(link, calls);
    law_outbound_fifo(link, calls);
    law_parameters(link, calls);
    law_no_missed_wakeup(link, calls);
    assert(link.rx.queued + link.rx_pushed(calls) =~= link.rx_pushed(calls));
    assert(link.tx.queued + tx_pushed(calls) =~= tx_pushed(calls));
}

/// The link state that was set last, or the given one if none was set.
pub open spec fn last_link_state(first: LinkState, calls: Seq<Call>) -> LinkState
    decreases calls.len(),
{
    if calls.len() == 0 {
        first
    } else {
        match calls.last() {
            Call::SetLinkState(state) => state,
            _ => last_link_state(first, calls.drop_last()),
        }
    }
}

/// The hardware address that was set last, or the given one if none was set.
pub open spec fn last_hardware_address(first: HardwareAddress, calls: Seq<Call>) -> HardwareAddress
    decreases calls.len(),
{
    if calls.len() == 0 {
        first
    } else {
        match calls.last() {
            Call::SetHardwareAddress(address) => address,
            _ => last_hardware_address(first, calls.drop_last()),
        }
    }
}

/// The task that has asked for the link state last, unless a parameter has been set since, or else the given
/// one if nobody has asked and no parameter was set.
pub open spec fn last_observer(first: Option<int>, calls: Seq<Call>) -> Option<int>
    decreases calls.len(),
{
    if calls.len() == 0 {
        first
    } else {
        match calls.last() {
            Call::GetLinkState(task) => Some(task),
            Call::SetLinkState(_) => None,
            Call::SetHardwareAddress(_) => None,
            _ => last_observer(first, calls.drop_last()),
        }
    }
}

/// The link state and the hardware address are those that were set last, whatever else is called. The task
/// that has asked for the link state last is registered until one of them is set. The capabilities never
/// change.
pub proof fn law_parameters(link: LinkView, calls: Seq<Call>)
    ensures
        link.after_calls(calls).shared.link_state == last_link_state(link.shared.link_state, calls),
        link.after_calls(calls).shared.hardware_address == last_hardware_address(
            link.shared.hardware_address,
            calls,
        ),
        link.after_calls(calls).shared.observer.task == last_observer(link.shared.observer.task, calls),
        link.after_calls(calls).caps == link.caps,
    decreases calls.len(),
{
    if calls.len() > 0 {
        law_parameters(link, calls.drop_last());
    }
}

/// No task waits for a packet while one is queued, nor for a vacant buffer while there is one.
pub open spec fn no_missed_wakeup(q: QueueView) -> bool {
    &&& q.receiver.task is Some ==> q.queued.len() == 0
    &&& q.sender.task is Some ==> q.vacant.len() == 0
}

/// Whatever is called, no task is left waiting for what is there already.
pub proof fn law_no_missed_wakeup(link: LinkView, calls: Seq<Call>)
    requires
        no_missed_wakeup(link.rx),
        no_missed_wakeup(link.tx),
        link.permits_calls(calls),
    ensures
        no_missed_wakeup(link.after_calls(calls).rx),
        no_missed_wakeup(link.after_calls(calls).tx),
    decreases calls.len(),
{
    if calls.len() > 0 {
        law_no_missed_wakeup(link, calls.drop_last());
    }
}

/// What a task can wait for.
pub enum Awaited {
    /// An inbound packet, in `Device::receive`.
    RxToken,
    /// A vacant inbound buffer, in `RxRunner::poll_rx_pkt`.
    RxPkt,
    /// A vacant outbound buffer, in `Device::receive` or `Device::transmit`.
    TxToken,
    /// An outbound packet, in `TxRunner::poll_tx_pkt`.
    TxPkt,
    /// A change of the parameters, in `Device::link_state`.
    Parameters,
}

impl Awaited {
    /// The task that waits for this, and those that have been woken.
    pub open spec fn waker(self, link: LinkView) -> WakerView {
        match self {
            Awaited::RxToken => link.rx.receiver,
            Awaited::RxPkt => link.rx.sender,
            Awaited::TxToken => link.tx.sender,
            Awaited::TxPkt => link.tx.receiver,
            Awaited::Parameters => link.shared.observer,
        }
    }

    /// The task that starts to wait for this in the call, if any.
    pub open spec fn registered(self, call: Call) -> Option<int> {
        match (self, call) {
            (Awaited::RxToken, Call::AwaitRxToken(task)) => Some(task),
            (Awaited::RxPkt, Call::AwaitRxPkt(task)) => Some(task),
            (Awaited::TxToken, Call::AwaitTxToken(task)) => Some(task),
            (Awaited::TxPkt, Call::AwaitTxPkt(task)) => Some(task),
            (Awaited::Parameters, Call::GetLinkState(task)) => Some(task),
            _ => None,
        }
    }

    /// The call brings what is waited for.
    pub open spec fn brought(self, call: Call) -> bool {
        match self {
            Awaited::RxToken => call is RxDone,
            Awaited::RxPkt => call is ConsumeRx,
            Awaited::TxToken => call is TxDone,
            Awaited::TxPkt => call is ConsumeTx,
            Awaited::Parameters => call is SetLinkState || call is SetHardwareAddress,
        }
    }
}

/// The task has been woken between the two moments.
pub open spec fn woken_since(before: WakerView, after: WakerView, task: int) -> bool {
    exists|k: int| before.woken.len() <= k < after.woken.len() && #[trigger] after.woken[k] == task
}

/// No wake-up is lost: a task that has started to wait has been woken since, or else it is still registered
/// and no call has brought what it waits for.
pub proof fn law_woken(link: LinkView, calls: Seq<Call>, i: int, awaited: Awaited, task: int)
    requires
        0 <= i < calls.len(),
        awaited.registered(calls[i]) == Some(task),
    ensures
        ({
            let before = awaited.waker(link.after_calls(calls.take(i + 1)));
            let after = awaited.waker(link.after_calls(calls));
            &&& before.woken.is_prefix_of(after.woken)
            &&& woken_since(before, after, task) || {
                &&& after.task == Some(task)
                &&& forall|j: int| i < j < calls.len() ==> !awaited.brought(#[trigger] calls[j])
            }
        }),
    decreases calls.len(),
{
    let first = calls.take(i + 1);
    let before = awaited.waker(link.after_calls(first));
    let after = awaited.waker(link.after_calls(calls));
    if i == calls.len() - 1 {
        assert(first =~= calls);
    } else {
        let init = calls.drop_last();
        assert(init.take(i + 1) =~= first);
        law_woken(link, init, i, awaited, task);
        let last = awaited.waker(link.after_calls(init));
        assert(last.woken.is_prefix_of(after.woken));
        if woken_since(before, last, task) {
            let k = choose|k: int|
                before.woken.len() <= k < last.woken.len() && #[trigger] last.woken[k] == task;
            assert(after.woken[k] == task);
        } else if after.woken.len() > last.woken.len() {
            assert(after.woken[last.woken.len() as int] == task);
        } else {
            assert forall|j: int| i < j < calls.len() implies !awaited.brought(#[trigger] calls[j]) by {
                if j < init.len() {
                    assert(init[j] == calls[j]);
                }
            }
        }
    }
}

/// A call that brings what a task is waiting for wakes that task, and no other.
pub proof fn law_wake(link: LinkView, call: Call, awaited: Awaited)
    requires
        awaited.brought(call),
    ensures
        awaited.waker(link.after(call)).task is None,
        awaited.waker(link.after(call)).woken == match awaited.waker(link).task {
            Some(task) => awaited.waker(link).woken.push(task),
            None => awaited.waker(link).woken,
        },
{
}

} // verus!
