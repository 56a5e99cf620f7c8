//! What holds of the scheduler, whatever happens on the radio and in the network stack.
use vstd::prelude::*;
use super::channel::QueueView;
use super::packet::Pkt;
use super::scheduler::{
    CompletedRadioTransition, Event, Outbound, Queues, RunState, RxResult, SchedPkt, SchedulerState,
};

verus! {

/// The scheduler and the queues that it shares with the network stack.
pub struct System {
    pub run: RunState,
    pub q: Queues,
}

/// What can happen to the system.
pub enum Step {
    /// The scheduler handles an event.
    Event(Event),
    /// The network stack sends a packet.
    Send(Pkt),
    /// The network stack consumes an inbound packet and leaves this in its buffer.
    Consume(Pkt),
    /// Other tasks wait for the queues.
    Poll(Queues),
}

impl System {
    /// The scheduler has chosen buffers that are there.
    pub open spec fn wf(self) -> bool {
        self.run.wf(self.q)
    }

    /// The step can happen.
    pub open spec fn enabled(self, step: Step) -> bool {
        match step {
            Step::Event(event) => self.run.awaits(event, self.q),
            Step::Send(_) => self.q.tx.vacant.len() > 0,
            Step::Consume(_) => self.q.rx.queued.len() > 0,
            Step::Poll(q) => {
                &&& q.rx.queued == self.q.rx.queued
                &&& q.rx.vacant == self.q.rx.vacant
                &&& q.tx.queued == self.q.tx.queued
                &&& q.tx.vacant == self.q.tx.vacant
            },
        }
    }

    /// The system after the step.
    pub open spec fn after(self, step: Step) -> System {
        match step {
            Step::Event(event) => {
                let (run, q) = self.run.next(event, self.q);
                System { run, q }
            },
            Step::Send(pkt) => System {
                q: Queues { tx: self.q.tx.fill(pkt).push(), ..self.q },
                ..self
            },
            Step::Consume(pkt) => System {
                q: Queues { rx: self.q.rx.edit(pkt).pop(), ..self.q },
                ..self
            },
            Step::Poll(q) => System { q, ..self },
        }
    }

    /// The packet that the radio starts to send in the step, if any.
    pub open spec fn handed(self, step: Step) -> Seq<Pkt> {
        match (self.run, step) {
            (
                RunState::Transition { next_pkt: Some(SchedPkt::Tx(outbound)), .. },
                Step::Event(Event::Completed(CompletedRadioTransition::Entered(_))),
            ) => seq![outbound.pkt],
            _ => seq![],
        }
    }

    /// The packet that the radio has received, if the step ends a reception and the radio does not fall
    /// back.
    pub open spec fn received(self, step: Step) -> Seq<Pkt> {
        match (self.run, step) {
            (
                RunState::Transition { sched_state: SchedulerState::RxPkt(_), .. },
                Step::Event(
                    Event::Completed(
                        CompletedRadioTransition::Entered(Some(RxResult::Packet(pkt))),
                    ),
                ),
            ) => seq![pkt],
            _ => seq![],
        }
    }

    /// The packet that the network stack consumes in the step, if any.
    pub open spec fn consumed(self, step: Step) -> Seq<Pkt> {
        if step is Consume {
            seq![self.q.rx.queued[0]]
        } else {
            seq![]
        }
    }

    /// The outbound packets that the radio has not started to send: the first one of the queue is being
    /// sent where the radio is sending.
    pub open spec fn unsent(self) -> Seq<Pkt> {
        if self.sending() is Some {
            self.q.tx.queued.skip(1)
        } else {
            self.q.tx.queued
        }
    }

    /// The packet that the radio is sending, if any.
    pub open spec fn sending(self) -> Option<Pkt> {
        match self.run {
            RunState::Transition { sched_state: SchedulerState::TxPkt(outbound), .. } => Some(
                outbound.pkt,
            ),
            _ => None,
        }
    }

    /// The packet that leaves the queue of outbound packets in the step, if any.
    pub open spec fn released(self, step: Step) -> Seq<Pkt> {
        if self.sending() is Some && step matches Step::Event(Event::Completed(_)) {
            seq![self.q.tx.queued[0]]
        } else {
            seq![]
        }
    }
}

/// The packet that the network stack sends in the step, if any.
pub open spec fn submitted(step: Step) -> Seq<Pkt> {
    match step {
        Step::Send(pkt) => seq![pkt],
        _ => seq![],
    }
}

/// A link starts well: the scheduler waits for a packet, and both queues are empty.
pub proof fn law_initial(rx: Seq<Pkt>, tx: Seq<Pkt>)
    ensures
        ({
            let sys = System {
                run: RunState::GetPkt,
                q: Queues { rx: QueueView::empty(rx), tx: QueueView::empty(tx) },
            };
            &&& sys.wf()
            &&& sys.unsent().len() == 0
            &&& sys.q.rx.queued.len() == 0
        }),
{
}

/// Whatever happens, the scheduler only ever works on buffers that are there: a buffer that the radio
/// uses or that it is to use next is not taken away by the other end of the link.
pub proof fn law_step_wf(sys: System, step: Step)
    requires
        sys.wf(),
        sys.enabled(step),
    ensures
        sys.after(step).wf(),
{
}

/// No buffer gets lost: the number of buffers of both queues stays the same.
pub proof fn law_step_capacity(sys: System, step: Step)
    requires
        sys.wf(),
        sys.enabled(step),
    ensures
        sys.after(step).q.rx.capacity() == sys.q.rx.capacity(),
        sys.after(step).q.tx.capacity() == sys.q.tx.capacity(),
{
}

/// The scheduler never gets stuck. There is always an event that it goes on with: the radio is never told
/// to switch off while it is off, a radio that has been told something can do it, and a scheduler that waits
/// for a packet takes the first outbound packet or a vacant inbound buffer as soon as there is one.
pub proof fn law_never_stuck(sys: System, pkt: Pkt)
    requires
        sys.wf(),
    ensures
        match sys.run {
            RunState::Transition { sched_state, next_pkt } => {
                &&& !(sched_state is NoPkt && next_pkt is None)
                &&& sys.run.awaits(
                    Event::Completed(CompletedRadioTransition::Entered(Some(RxResult::Packet(pkt)))),
                    sys.q,
                )
            },
            RunState::FrameStarted { .. } => sys.run.awaits(Event::FrameStarted, sys.q),
            RunState::GetPkt => {
                &&& sys.q.first_outbound() matches Some(outbound) ==> sys.run.awaits(
                    Event::Pkt(outbound),
                    sys.q,
                )
                &&& sys.q.rx.vacant.len() > 0 ==> sys.run.awaits(Event::Pkt(SchedPkt::Rx(0)), sys.q)
            },
        },
{
}

/// When the channel was not clear, the packet is not lost: unless the radio has been sending another packet,
/// which is now released, the queues stay as they are. The scheduler goes on with that very packet, or it
/// listens before that, if there is room and neither has a packet just been sent nor is another one waiting.
pub proof fn law_fallback(sys: System, outbound: Outbound, rx_result: Option<RxResult>)
    requires
        sys.wf(),
        sys.run matches RunState::Transition { next_pkt, .. } && next_pkt == Some(SchedPkt::Tx(outbound)),
    ensures
        ({
            let fallback = CompletedRadioTransition::Fallback(rx_result);
            let next = sys.after(Step::Event(Event::Completed(fallback)));
            &&& sys.run.awaits(Event::Completed(fallback), sys.q)
            &&& next.q == (if sys.sending() is Some {
                sys.q.sent()
            } else {
                sys.q
            })
            &&& next.q.tx.queued[0] == outbound.pkt
            &&& next.run matches RunState::Transition { sched_state: SchedulerState::NoPkt, next_pkt }
            &&& next_pkt == (if sys.sending() is None && sys.q.tx.queued.len() == 1
                && sys.q.rx.vacant.len() > 0 {
                Some(SchedPkt::Rx(0))
            } else {
                Some(SchedPkt::Tx(Outbound { index: 0, pkt: outbound.pkt }))
            })
        }),
{
}

/// Whatever happens, a packet leaves the queue of outbound packets only when the radio has been sending that
/// very packet, and in the order in which the network stack has sent it. The radio only sends packets that it
/// has been handed.
pub proof fn law_step_released(sys: System, step: Step)
    requires
        sys.wf(),
        sys.enabled(step),
    ensures
        sys.released(step) + sys.after(step).q.tx.queued == sys.q.tx.queued + submitted(step),
        sys.released(step).len() > 0 ==> sys.sending() == Some(sys.released(step)[0]),
        sys.after(step).sending() matches Some(pkt) ==> {
            ||| sys.handed(step) == seq![pkt]
            ||| sys.handed(step).len() == 0 && sys.sending() == Some(pkt)
        },
        sys.handed(step).len() > 0 ==> sys.handed(step)[0] == sys.after(step).q.tx.queued[0],
{
    assert(sys.released(step) + sys.after(step).q.tx.queued =~= sys.q.tx.queued + submitted(step));
}

/// Whatever happens, the radio starts to send the outbound packets in their order and each of them once. In
/// particular, a packet for which the channel was not clear is neither lost nor overtaken.
pub proof fn law_step_outbound(sys: System, step: Step)
    requires
        sys.wf(),
        sys.enabled(step),
    ensures
        sys.handed(step) + sys.after(step).unsent() == sys.unsent() + submitted(step),
{
    assert(sys.handed(step) + sys.after(step).unsent() =~= sys.unsent() + submitted(step));
}

/// Every packet that the radio has received when it is told to go on with something else is pushed to
/// the network stack, in order and once, and the network stack gets nothing else. Only when the radio
/// falls back because the channel was not clear, a packet that it has received just before is dropped.
pub proof fn law_step_inbound(sys: System, step: Step)
    requires
        sys.wf(),
        sys.enabled(step),
    ensures
        sys.consumed(step) + sys.after(step).q.rx.queued == sys.q.rx.queued + sys.received(step),
{
    assert(sys.consumed(step) + sys.after(step).q.rx.queued =~= sys.q.rx.queued + sys.received(
        step,
    ));
}

/// The steps can happen one after the other.
pub open spec fn possible(sys: System, steps: Seq<Step>) -> bool
    decreases steps.len(),
{
    steps.len() > 0 ==> {
        &&& sys.enabled(steps[0])
        &&& possible(sys.after(steps[0]), steps.drop_first())
    }
}

/// The system after all of the steps.
pub open spec fn after_all(sys: System, steps: Seq<Step>) -> System
    decreases steps.len(),
{
    if steps.len() > 0 {
        after_all(sys.after(steps[0]), steps.drop_first())
    } else {
        sys
    }
}

/// The packets that the radio starts to send during the steps.
pub open spec fn handed_all(sys: System, steps: Seq<Step>) -> Seq<Pkt>
    decreases steps.len(),
{
    if steps.len() > 0 {
        sys.handed(steps[0]) + handed_all(sys.after(steps[0]), steps.drop_first())
    } else {
        seq![]
    }
}

/// The packets that leave the queue of outbound packets during the steps.
pub open spec fn released_all(sys: System, steps: Seq<Step>) -> Seq<Pkt>
    decreases steps.len(),
{
    if steps.len() > 0 {
        sys.released(steps[0]) + released_all(sys.after(steps[0]), steps.drop_first())
    } else {
        seq![]
    }
}

/// The packets that the radio receives during the steps.
pub open spec fn received_all(sys: System, steps: Seq<Step>) -> Seq<Pkt>
    decreases steps.len(),
{
    if steps.len() > 0 {
        sys.received(steps[0]) + received_all(sys.after(steps[0]), steps.drop_first())
    } else {
        seq![]
    }
}

/// The packets that the network stack consumes during the steps.
pub open spec fn consumed_all(sys: System, steps: Seq<Step>) -> Seq<Pkt>
    decreases steps.len(),
{
    if steps.len() > 0 {
        sys.consumed(steps[0]) + consumed_all(sys.after(steps[0]), steps.drop_first())
    } else {
        seq![]
    }
}

/// The packets that the network stack sends during the steps.
pub open spec fn submitted_all(steps: Seq<Step>) -> Seq<Pkt>
    decreases steps.len(),
{
    if steps.len() > 0 {
        submitted(steps[0]) + submitted_all(steps.drop_first())
    } else {
        seq![]
    }
}

/// Whatever happens, the packets that the radio starts to send are those that the network stack sends, in the
/// same order and each of them once, and what is missing at the end is still in the queue.
pub proof fn law_outbound(sys: System, steps: Seq<Step>)
    requires
        sys.wf(),
        possible(sys, steps),
    ensures
        after_all(sys, steps).wf(),
        handed_all(sys, steps) + after_all(sys, steps).unsent() == sys.unsent() + submitted_all(steps),
    decreases steps.len(),
{
    if steps.len() > 0 {
        let step = steps[0];
        let next = sys.after(step);
        let rest = steps.drop_first();
        law_step_wf(sys, step);
        law_step_outbound(sys, step);
        law_outbound(next, rest);
        let last = after_all(next, rest).unsent();
        assert(handed_all(sys, steps) + last =~= sys.handed(step) + (handed_all(next, rest) + last));
        assert(sys.handed(step) + (next.unsent() + submitted_all(rest)) =~= (sys.handed(step)
            + next.unsent()) + submitted_all(rest));
        assert((sys.unsent() + submitted(step)) + submitted_all(rest) =~= sys.unsent()
            + submitted_all(steps));
    } else {
        assert(handed_all(sys, steps) + sys.unsent() =~= sys.unsent() + submitted_all(steps));
    }
}

/// Whatever happens, the packets that leave the queue of outbound packets are those that the network stack
/// sends, in the same order and each of them once.
pub proof fn law_released(sys: System, steps: Seq<Step>)
    requires
        sys.wf(),
        possible(sys, steps),
    ensures
        after_all(sys, steps).wf(),
        released_all(sys, steps) + after_all(sys, steps).q.tx.queued == sys.q.tx.queued + submitted_all(
            steps,
        ),
    decreases steps.len(),
{
    if steps.len() > 0 {
        let step = steps[0];
        let next = sys.after(step);
        let rest = steps.drop_first();
        law_step_wf(sys, step);
        law_step_released(sys, step);
        law_released(next, rest);
        let last = after_all(next, rest).q.tx.queued;
        assert(released_all(sys, steps) + last =~= sys.released(step) + (released_all(next, rest) + last));
        assert(sys.released(step) + (next.q.tx.queued + submitted_all(rest)) =~= (sys.released(step)
            + next.q.tx.queued) + submitted_all(rest));
        assert((sys.q.tx.queued + submitted(step)) + submitted_all(rest) =~= sys.q.tx.queued
            + submitted_all(steps));
    } else {
        assert(released_all(sys, steps) + sys.q.tx.queued =~= sys.q.tx.queued + submitted_all(steps));
    }
}

/// The packets that the network stack consumes are those that the radio receives, in the same order and
/// each of them once, and what is missing at the end is still in the queue.
pub proof fn law_inbound(sys: System, steps: Seq<Step>)
    requires
        sys.wf(),
        possible(sys, steps),
    ensures
        after_all(sys, steps).wf(),
        consumed_all(sys, steps) + after_all(sys, steps).q.rx.queued == sys.q.rx.queued + received_all(
            sys,
            steps,
        ),
    decreases steps.len(),
{
    if steps.len() > 0 {
        let step = steps[0];
        let next = sys.after(step);
        let rest = steps.drop_first();
        law_step_wf(sys, step);
        law_step_inbound(sys, step);
        law_inbound(next, rest);
        let last = after_all(next, rest).q.rx.queued;
        assert(consumed_all(sys, steps) + last =~= sys.consumed(step) + (consumed_all(next, rest)
            + last));
        assert(sys.consumed(step) + (next.q.rx.queued + received_all(next, rest)) =~= (sys.consumed(
            step,
        ) + next.q.rx.queued) + received_all(next, rest));
        assert((sys.q.rx.queued + sys.received(step)) + received_all(next, rest) =~= sys.q.rx.queued
            + received_all(sys, steps));
    } else {
        assert(consumed_all(sys, steps) + sys.q.rx.queued =~= sys.q.rx.queued + received_all(
            sys,
            steps,
        ));
    }
}

/// Sending takes precedence over receiving: once a radio transition has ended, the scheduler only goes on
/// to wait for a frame if no outbound packet is pending, and a radio that is receiving is told to send
/// the first outbound packet as soon as there is one.
pub proof fn law_tx_precedence(sys: System, transition: CompletedRadioTransition)
    requires
        sys.wf(),
        sys.run.awaits(Event::Completed(transition), sys.q),
    ensures
        ({
            let next = sys.after(Step::Event(Event::Completed(transition)));
            &&& next.run is FrameStarted ==> next.q.tx.queued.len() == 0
            &&& next.run matches RunState::Transition {
                sched_state: SchedulerState::RxPkt(_),
                next_pkt,
            } ==> next_pkt == next.q.first_outbound()
        }),
{
}

/// The radio is only switched off when there is nothing to do: no outbound packet is waiting to be sent,
/// and there is no vacant inbound buffer other than the one that the radio is using.
pub proof fn law_off_only_when_idle(sys: System, transition: CompletedRadioTransition)
    requires
        sys.wf(),
        sys.run.awaits(Event::Completed(transition), sys.q),
    ensures
        ({
            let next = sys.after(Step::Event(Event::Completed(transition)));
            next.run matches RunState::Transition { sched_state, next_pkt: None } ==> {
                &&& next.unsent().len() == 0
                &&& next.q.rx.vacant.len() == (if sched_state is RxPkt { 1nat } else { 0nat })
            }
        }),
{
}

/// The radio is never told to use the buffer that it is using.
pub proof fn law_no_buffer_used_twice(sys: System)
    requires
        sys.wf(),
    ensures
        sys.run matches RunState::FrameStarted { rx_pkt, next } ==> rx_pkt != next,
        sys.run matches RunState::Transition {
            sched_state: SchedulerState::RxPkt(current),
            next_pkt: Some(SchedPkt::Rx(next)),
        } ==> current != next,
        sys.run matches RunState::Transition {
            sched_state: SchedulerState::TxPkt(current),
            next_pkt: Some(SchedPkt::Tx(next)),
        } ==> current.index != next.index,
{
}

} // verus!
