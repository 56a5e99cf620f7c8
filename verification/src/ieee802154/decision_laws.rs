//! What the scheduler decides, in terms of what the queues hold.
use vstd::prelude::*;
use super::packet::Pkt;
use super::scheduler::{
    CompletedRadioTransition, Event, Outbound, Queues, RadioTask, RadioTaskError,
    RunState, RxResult, SchedPkt, SchedulerState, Until,
};

verus! {

/// The radio uses the buffer at the front of a queue, and it is to go on with the buffer at the front of a
/// queue or, where it is using that one, with the second one. A radio that is off is not to be switched off.
pub open spec fn ready(state: SchedulerState, next_pkt: Option<SchedPkt>, q: Queues) -> bool {
    let receiving: int = if state is RxPkt { 1 } else { 0 };
    let sending: int = if state is TxPkt { 1 } else { 0 };
    &&& state matches SchedulerState::RxPkt(i) ==> i == 0 && q.rx.vacant.len() > 0
    &&& state matches SchedulerState::TxPkt(o) ==> o.index == 0 && q.tx.queued.len() > 0 && o.pkt
        == q.tx.queued[0]
    &&& state is NoPkt ==> next_pkt is Some
    &&& next_pkt matches Some(SchedPkt::Rx(i)) ==> i == receiving && q.rx.vacant.len() > receiving
    &&& next_pkt matches Some(SchedPkt::Tx(o)) ==> o.index == sending && q.tx.queued.len() > sending
        && o.pkt == q.tx.queued[sending]
}

/// The transition from the state to the next packet.
pub open spec fn transition(state: SchedulerState, next_pkt: Option<SchedPkt>) -> RunState {
    RunState::Transition { sched_state: state, next_pkt }
}

/// The radio is listening, and a frame has to start.
pub open spec fn listening(rx_pkt: usize, next: usize) -> RunState {
    RunState::FrameStarted { rx_pkt, next }
}

/// The transition ends with the radio in the scheduled task.
pub open spec fn entered(rx_result: Option<RxResult>) -> CompletedRadioTransition {
    CompletedRadioTransition::Entered(rx_result)
}

/// The scheduler works on the buffers at the front of the queues, and on nothing else.
pub proof fn law_front_buffers(state: SchedulerState, next_pkt: Option<SchedPkt>, q: Queues)
    ensures
        transition(state, next_pkt).wf(q) <==> ready(state, next_pkt, q),
        RunState::GetPkt.wf(q),
        forall|rx_pkt: usize, next: usize|
            (#[trigger] listening(rx_pkt, next).wf(q)) <==> rx_pkt == 0 && next == 1
                && q.rx.vacant.len() > 1,
{
}

/// A radio that is off takes a vacant inbound buffer or the first outbound packet, a radio that listens can be
/// interrupted by the first outbound packet only, and a frame can start only while the radio listens.
pub proof fn law_awaited_packets(run: RunState, pkt: SchedPkt, q: Queues)
    ensures
        run.awaits(Event::Pkt(pkt), q) <==> (match pkt {
            SchedPkt::Rx(i) => run is GetPkt && i == 0 && q.rx.vacant.len() > 0,
            SchedPkt::Tx(o) => (run is GetPkt || run is FrameStarted) && q.tx.queued.len() > 0
                && o.index == 0 && o.pkt == q.tx.queued[0],
        }),
        run.awaits(Event::FrameStarted, q) <==> (run is FrameStarted),
{
}

/// A scheduled task is entered, where the radio is not off already. Only a reception that is followed by
/// another one must have brought a packet, or else a packet that failed its check. Only sending can fail
/// because the channel is not clear.
pub proof fn law_awaited_transitions(
    state: SchedulerState,
    next_pkt: Option<SchedPkt>,
    end: CompletedRadioTransition,
    q: Queues,
)
    ensures
        transition(state, next_pkt).awaits(Event::Completed(end), q) <==> ({
            let back_to_back = state is RxPkt && (next_pkt matches Some(SchedPkt::Rx(_)));
            match end {
                CompletedRadioTransition::Entered(rx_result) => {
                    &&& next_pkt is None ==> !(state is NoPkt)
                    &&& back_to_back ==> (rx_result matches Some(RxResult::Packet(_)))
                },
                CompletedRadioTransition::Fallback(_) => next_pkt matches Some(SchedPkt::Tx(_)),
                CompletedRadioTransition::NotScheduled(error) => back_to_back && error
                    == RadioTaskError::CrcError,
            }
        }),
        !(RunState::GetPkt.awaits(Event::Completed(end), q)),
        forall|rx_pkt: usize, next: usize|
            !(#[trigger] listening(rx_pkt, next).awaits(Event::Completed(end), q)),
        state.accepts(next_pkt, end) <==> transition(state, next_pkt).awaits(
            Event::Completed(end),
            q,
        ),
{
}

/// While the radio is off, whatever becomes available is started: the radio goes from off to that very packet,
/// be it a vacant inbound buffer or an outbound packet, whatever the queues hold, and the queues stay as they
/// are.
pub proof fn law_off_starts_what_is_available(pkt: SchedPkt, q: Queues)
    ensures
        RunState::GetPkt.next(Event::Pkt(pkt), q) == (
            transition(SchedulerState::NoPkt, Some(pkt)),
            q,
        ),
{
}

/// While the radio listens and no frame has started, an outbound packet interrupts it: the radio goes from the
/// current reception to sending that very packet, however many packets are queued, and the queues stay as they
/// are.
pub proof fn law_outbound_interrupts_listening(rx_pkt: usize, next: usize, o: Outbound, q: Queues)
    ensures
        listening(rx_pkt, next).next(Event::Pkt(SchedPkt::Tx(o)), q) == (
            transition(SchedulerState::RxPkt(rx_pkt), Some(SchedPkt::Tx(o))),
            q,
        ),
{
}

/// Once a frame has started, the current reception runs to its end and is followed by another one into the
/// buffer that was chosen for it, whatever has been queued meanwhile.
pub proof fn law_frame_is_received(rx_pkt: usize, next: usize, q: Queues)
    ensures
        listening(rx_pkt, next).next(Event::FrameStarted, q) == (
            transition(SchedulerState::RxPkt(rx_pkt), Some(SchedPkt::Rx(next))),
            q,
        ),
{
}

/// The radio is told to receive exactly when it is to go on with an inbound buffer, to send exactly the packet
/// that it is to go on with, after a clear channel assessment, and to switch off exactly when there is nothing
/// to go on with, whatever it is doing. The current task runs to completion exactly when the next one is of
/// the same kind. Only a transition takes the radio to be told anything.
pub proof fn law_command(state: SchedulerState, next_pkt: Option<SchedPkt>)
    ensures
        ({
            &&& transition(state, next_pkt).radio_command() matches Some(command)
            &&& (command.task is Rx <==> (next_pkt matches Some(SchedPkt::Rx(_))))
            &&& (command.task is Tx <==> (next_pkt matches Some(SchedPkt::Tx(_))))
            &&& (command.task is Off <==> next_pkt is None)
            &&& next_pkt matches Some(SchedPkt::Tx(o)) ==> command.task == (RadioTask::Tx {
                pkt: o.pkt,
                cca: true,
            })
            &&& (command.until == Until::TaskComplete <==> (state is RxPkt && command.task is Rx)
                || (state is TxPkt && command.task is Tx))
        }),
        (RunState::GetPkt.radio_command() is None),
        forall|rx_pkt: usize, next: usize|
            ((#[trigger] listening(rx_pkt, next).radio_command()) is None),
{
}

/// What a transition does to the queues: a packet that the radio was sending is released, whether or not the
/// task after it could be entered; a packet that the radio has received is queued, if the task after it was
/// entered; and nothing else happens to any buffer.
pub proof fn law_transition_queues(
    state: SchedulerState,
    next_pkt: Option<SchedPkt>,
    end: CompletedRadioTransition,
    q: Queues,
)
    requires
        ready(state, next_pkt, q),
        transition(state, next_pkt).awaits(Event::Completed(end), q),
    ensures
        ({
            let after = transition(state, next_pkt).next(Event::Completed(end), q).1;
            &&& if state is TxPkt {
                &&& q.tx.queued == seq![q.tx.queued[0]] + after.tx.queued
                &&& after.tx.vacant == q.tx.vacant + seq![q.tx.queued[0]]
                &&& after.tx.receiver == q.tx.receiver
                &&& after.tx.sender.task is None
                &&& after.tx.sender.woken == q.tx.sender.woken + (match q.tx.sender.task {
                    Some(task) => seq![task],
                    None => seq![],
                })
            } else {
                after.tx == q.tx
            }
            &&& if state is RxPkt && (end matches CompletedRadioTransition::Entered(
                Some(RxResult::Packet(_)),
            )) {
                &&& after.rx.queued == q.rx.queued + seq![end->Entered_0->0->Packet_0]
                &&& q.rx.vacant == seq![q.rx.vacant[0]] + after.rx.vacant
                &&& after.rx.sender == q.rx.sender
                &&& after.rx.receiver.task is None
                &&& after.rx.receiver.woken == q.rx.receiver.woken + (match q.rx.receiver.task {
                    Some(task) => seq![task],
                    None => seq![],
                })
            } else {
                after.rx == q.rx
            }
        }),
{
    let after = transition(state, next_pkt).next(Event::Completed(end), q).1;
    if state is TxPkt {
        assert(q.tx.queued =~= seq![q.tx.queued[0]] + after.tx.queued);
        assert(after.tx.vacant =~= q.tx.vacant + seq![q.tx.queued[0]]);
    }
    if state is RxPkt {
        if let CompletedRadioTransition::Entered(Some(RxResult::Packet(pkt))) = end {
            assert(after.rx.queued =~= q.rx.queued + seq![pkt]);
            assert(q.rx.vacant =~= seq![q.rx.vacant[0]] + after.rx.vacant);
        }
    }
}

/// Once the radio is receiving, or goes on to receive because a packet has failed its check, the first
/// outbound packet is next if there is one. Otherwise the radio listens if there is room for another packet
/// after the current one, and it is switched off if there is not.
pub proof fn law_while_receiving(
    state: SchedulerState,
    i: usize,
    end: CompletedRadioTransition,
    q: Queues,
)
    requires
        ready(state, Some(SchedPkt::Rx(i)), q),
        transition(state, Some(SchedPkt::Rx(i))).awaits(Event::Completed(end), q),
    ensures
        ({
            let (run, after) = transition(state, Some(SchedPkt::Rx(i))).next(Event::Completed(end), q);
            &&& after.tx.queued.len() > 0 ==> run == transition(
                SchedulerState::RxPkt(0),
                Some(SchedPkt::Tx(Outbound { index: 0, pkt: after.tx.queued[0] })),
            )
            &&& after.tx.queued.len() == 0 && after.rx.vacant.len() > 1 ==> run
                == listening(0, 1)
            &&& after.tx.queued.len() == 0 && after.rx.vacant.len() <= 1 ==> run == transition(
                SchedulerState::RxPkt(0),
                None,
            )
        }),
{
}

/// Once the radio is sending a packet, the packet queued behind it is next if there is one, so that pending
/// packets are sent back to back. Only otherwise it goes back to receiving if an inbound buffer is vacant, and
/// it is switched off if none is.
pub proof fn law_while_sending(
    state: SchedulerState,
    o: Outbound,
    rx_result: Option<RxResult>,
    q: Queues,
)
    requires
        ready(state, Some(SchedPkt::Tx(o)), q),
    ensures
        ({
            let (run, after) = transition(state, Some(SchedPkt::Tx(o))).next(
                Event::Completed(entered(rx_result)),
                q,
            );
            let sending = SchedulerState::TxPkt(Outbound { index: 0, pkt: o.pkt });
            &&& after.tx.queued.len() > 0
            &&& after.tx.queued[0] == o.pkt
            &&& after.tx.queued.len() > 1 ==> run == transition(
                sending,
                Some(SchedPkt::Tx(Outbound { index: 1, pkt: after.tx.queued[1] })),
            )
            &&& after.tx.queued.len() == 1 && after.rx.vacant.len() > 0 ==> run == transition(
                sending,
                Some(SchedPkt::Rx(0)),
            )
            &&& after.tx.queued.len() == 1 && after.rx.vacant.len() == 0 ==> run == transition(
                sending,
                None,
            )
        }),
{
}

/// If the channel is not clear for a packet, the radio is off and that very packet is next, at the front of the
/// queue. Only where it is the only packet of the queue, and none has just been sent, the radio listens before
/// that if an inbound buffer is vacant.
pub proof fn law_channel_not_clear(
    state: SchedulerState,
    o: Outbound,
    rx_result: Option<RxResult>,
    q: Queues,
)
    requires
        ready(state, Some(SchedPkt::Tx(o)), q),
    ensures
        ({
            let (run, after) = transition(state, Some(SchedPkt::Tx(o))).next(
                Event::Completed(CompletedRadioTransition::Fallback(rx_result)),
                q,
            );
            let listens = !(state is TxPkt) && q.tx.queued.len() == 1 && q.rx.vacant.len() > 0;
            &&& after.tx.queued.len() > 0
            &&& after.tx.queued[0] == o.pkt
            &&& listens ==> run == transition(SchedulerState::NoPkt, Some(SchedPkt::Rx(0)))
            &&& !listens ==> run == transition(
                SchedulerState::NoPkt,
                Some(SchedPkt::Tx(Outbound { index: 0, pkt: o.pkt })),
            )
        }),
{
}

/// Once the radio has been switched off, the scheduler waits for a packet, whatever the queues hold.
pub proof fn law_switched_off(
    state: SchedulerState,
    rx_result: Option<RxResult>,
    q: Queues,
)
    requires
        ready(state, None, q),
    ensures
        transition(state, None).next(Event::Completed(entered(rx_result)), q).0 == RunState::GetPkt,
{
}

/// What is chosen is always at the front of a queue. A packet that is waiting to be sent comes before a vacant
/// inbound buffer, except after the channel was not clear for the only one, and nothing is chosen only where
/// there is nothing to choose.
pub proof fn law_choice(q: Queues)
    ensures
        q.first_outbound() is Some <==> q.tx.queued.len() > 0,
        q.first_outbound() matches Some(pkt) ==> pkt == SchedPkt::Tx(
            Outbound { index: 0, pkt: q.tx.queued[0] },
        ),
        // While the radio is receiving.
        q.next_in_rx() is None <==> q.tx.queued.len() == 0 && q.rx.vacant.len() <= 1,
        q.next_in_rx() matches Some(SchedPkt::Rx(i)) ==> i == 1 && q.tx.queued.len() == 0,
        q.next_in_rx() matches Some(SchedPkt::Tx(o)) ==> o.index == 0 && o.pkt == q.tx.queued[0]
            && q.tx.queued.len() > 0,
        // While the radio is sending.
        q.next_in_tx() is None <==> q.tx.queued.len() <= 1 && q.rx.vacant.len() == 0,
        q.next_in_tx() matches Some(SchedPkt::Rx(i)) ==> i == 0 && q.tx.queued.len() <= 1,
        q.next_in_tx() matches Some(SchedPkt::Tx(o)) ==> o.index == 1 && o.pkt == q.tx.queued[1]
            && q.tx.queued.len() > 1,
        // While the radio is off since the channel was not clear.
        q.next_in_off() is None <==> q.tx.queued.len() == 0 && q.rx.vacant.len() == 0,
        q.next_in_off() matches Some(SchedPkt::Rx(i)) ==> i == 0 && q.tx.queued.len() <= 1
            && q.rx.vacant.len() > 0,
        q.next_in_off() matches Some(SchedPkt::Tx(o)) ==> o.index == 0 && o.pkt == q.tx.queued[0]
            && (q.tx.queued.len() > 1 || q.rx.vacant.len() == 0),
{
}

/// A reception that ends with a packet queues that very packet, one that ends without leaves the queues as
/// they are, and no reception concerns the outbound packets.
pub proof fn law_reception(q: Queues, pkt: Pkt)
    requires
        q.rx.vacant.len() > 0,
    ensures
        q.after_reception(None) == q,
        q.after_reception(Some(RxResult::RxWindowEnded)) == q,
        q.after_reception(Some(RxResult::Packet(pkt))).tx == q.tx,
        q.after_reception(Some(RxResult::Packet(pkt))).rx.queued == q.rx.queued + seq![pkt],
        seq![q.rx.vacant[0]] + q.after_reception(Some(RxResult::Packet(pkt))).rx.vacant == q.rx.vacant,
        q.received(pkt) == q.after_reception(Some(RxResult::Packet(pkt))),
{
    let after = q.received(pkt);
    assert(after.rx.queued =~= q.rx.queued + seq![pkt]);
    assert(seq![q.rx.vacant[0]] + after.rx.vacant =~= q.rx.vacant);
}

/// Releasing the first outbound packet leaves the others in their order, and the inbound packets as they are.
/// The packet that was the second one is then the first one.
pub proof fn law_release(q: Queues, second: Outbound)
    requires
        q.tx.queued.len() > 0,
    ensures
        q.sent().rx == q.rx,
        seq![q.tx.queued[0]] + q.sent().tx.queued == q.tx.queued,
        q.sent().tx.vacant == q.tx.vacant + seq![q.tx.queued[0]],
        q.tx.queued.len() > 1 && second.index == 1 && second.pkt == q.tx.queued[1] ==> ({
            &&& second.advanced().index == 0
            &&& second.advanced().pkt == q.sent().tx.queued[0]
        }),
{
    assert(seq![q.tx.queued[0]] + q.sent().tx.queued =~= q.tx.queued);
    assert(q.sent().tx.vacant =~= q.tx.vacant + seq![q.tx.queued[0]]);
}

} // verus!
