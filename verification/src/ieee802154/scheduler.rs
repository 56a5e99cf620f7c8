//! The radio scheduler.
//!
//! The scheduler decides what the radio does next: it listens for inbound packets while there is room
//! for them, sends outbound packets as soon as there are any, and switches the radio off when there is
//! nothing to do. It does not touch the radio itself. Whenever something has to be waited for, it
//! returns a [`RunState`] that says what; once that has happened, [`BestEffortScheduler::step`] takes
//! the [`Event`] and goes on.
use vstd::prelude::*;
use core::task::Context;
use super::channel::QueueView;
use super::packet::Pkt;
use super::runner::{LinkState, Runner, RxRunner, StateRunner, TxRunner};
use super::waker::context_task;

verus! {

/// An outbound packet together with its position in the queue of outbound packets.
#[derive(Clone, Copy, Debug, PartialEq, Eq)]
pub struct Outbound {
    pub index: usize,
    pub pkt: Pkt,
}

/// What the radio is to work on next.
#[derive(Clone, Copy, Debug, PartialEq, Eq)]
pub enum SchedPkt {
    /// Receive into the vacant inbound buffer at this position.
    Rx(usize),
    /// Send this outbound packet.
    Tx(Outbound),
}

/// The radio can only be in one of three states when a decision is due.
#[derive(Clone, Copy, Debug, PartialEq, Eq)]
pub enum SchedulerState {
    /// We are currently sending a packet.
    TxPkt(Outbound),
    /// There is no TX packet pending and we have enough RX capacity to receive further incoming
    /// packets. The current one goes to the vacant inbound buffer at this position.
    RxPkt(usize),
    /// We ran out of RX capacity and no TX packet is pending.
    NoPkt,
}

/// How a reception ended.
#[derive(Clone, Copy, Debug, PartialEq, Eq)]
pub enum RxResult {
    /// A packet was received.
    Packet(Pkt),
    /// Reception was stopped before a packet was received.
    RxWindowEnded,
}

/// Why a radio task could not be scheduled.
#[derive(Clone, Copy, Debug, PartialEq, Eq, Structural)]
pub enum RadioTaskError {
    /// The packet that was being received failed its check.
    CrcError,
    /// Any other error.
    Other,
}

/// How a radio transition ended. Where the radio was receiving before, the result of that reception
/// comes with it.
#[derive(Clone, Copy, Debug, PartialEq, Eq)]
pub enum CompletedRadioTransition {
    /// The scheduled task has been entered.
    Entered(Option<RxResult>),
    /// The scheduled task could not be entered and the radio was switched off instead.
    Fallback(Option<RxResult>),
    /// The scheduled task could not be scheduled and the radio goes on with the previous one.
    NotScheduled(RadioTaskError),
}

/// What the radio is to do at the next opportunity.
#[derive(Clone, Copy, Debug, PartialEq, Eq)]
pub enum RadioTask {
    /// Receive a packet.
    Rx,
    /// Send a packet, after a clear channel assessment where `cca` is set.
    Tx { pkt: Pkt, cca: bool },
    /// Switch off.
    Off,
}

/// How far a radio transition has to be waited for.
#[derive(Clone, Copy, Debug, PartialEq, Eq, Structural)]
pub enum Until {
    /// The current task is ended and the scheduled one is entered.
    Entry,
    /// The current task runs to completion before the scheduled one is entered.
    TaskComplete,
}

/// What the radio is told.
#[derive(Clone, Copy, Debug, PartialEq, Eq)]
pub struct RadioCommand {
    pub task: RadioTask,
    pub until: Until,
}

/// What the scheduler waits for.
#[derive(Clone, Copy, Debug, PartialEq, Eq)]
pub enum RunState {
    /// The radio is off. A packet has to become available, see [`BestEffortScheduler::get_pkt`].
    GetPkt,
    /// The radio is receiving into the inbound buffer at position `rx_pkt`, and the one at `next` is
    /// available for the packet after that. Either a frame has to start, or an outbound packet has to
    /// become available.
    FrameStarted { rx_pkt: usize, next: usize },
    /// The radio has to get from `sched_state` to `next_pkt`, or it has to be switched off where there
    /// is no next packet.
    Transition { sched_state: SchedulerState, next_pkt: Option<SchedPkt> },
}

/// Something that the scheduler has waited for.
#[derive(Clone, Copy, Debug, PartialEq, Eq)]
pub enum Event {
    /// A packet has become available.
    Pkt(SchedPkt),
    /// The radio has started to receive a frame.
    FrameStarted,
    /// A radio transition has ended.
    Completed(CompletedRadioTransition),
}

/// The queues of inbound and of outbound packets.
#[verifier::ext_equal]
pub struct Queues {
    pub rx: QueueView,
    pub tx: QueueView,
}

impl Queues {
    /// The first outbound packet.
    pub open spec fn first_outbound(self) -> Option<SchedPkt> {
        if self.tx.queued.len() > 0 {
            Some(SchedPkt::Tx(Outbound { index: 0, pkt: self.tx.queued[0] }))
        } else {
            None
        }
    }

    /// What follows while the radio is receiving: an outbound packet if there is one, else the second
    /// vacant inbound buffer if there is one.
    pub open spec fn next_in_rx(self) -> Option<SchedPkt> {
        if self.tx.queued.len() > 0 {
            self.first_outbound()
        } else if self.rx.vacant.len() > 1 {
            Some(SchedPkt::Rx(1))
        } else {
            None
        }
    }

    /// What follows while the radio is sending the first outbound packet: the second one if there is
    /// one, else a vacant inbound buffer if there is one.
    pub open spec fn next_in_tx(self) -> Option<SchedPkt> {
        if self.tx.queued.len() > 1 {
            Some(SchedPkt::Tx(Outbound { index: 1, pkt: self.tx.queued[1] }))
        } else if self.rx.vacant.len() > 0 {
            Some(SchedPkt::Rx(0))
        } else {
            None
        }
    }

    /// What follows when the radio was not sending and is off since the channel was not clear: a vacant
    /// inbound buffer if there is one and no more than one outbound packet is pending, else the first
    /// outbound packet once more.
    pub open spec fn next_in_off(self) -> Option<SchedPkt> {
        if self.tx.queued.len() <= 1 && self.rx.vacant.len() > 0 {
            Some(SchedPkt::Rx(0))
        } else {
            self.first_outbound()
        }
    }

    /// The queues after an inbound packet has been pushed.
    pub open spec fn received(self, pkt: Pkt) -> Queues {
        Queues { rx: self.rx.fill(pkt).push(), ..self }
    }

    /// The queues after a reception has ended: a packet is pushed if one was received.
    pub open spec fn after_reception(self, result: Option<RxResult>) -> Queues {
        match result {
            Some(RxResult::Packet(pkt)) => self.received(pkt),
            _ => self,
        }
    }

    /// The queues after the first outbound packet has been released.
    pub open spec fn sent(self) -> Queues {
        Queues { tx: self.tx.pop(), ..self }
    }
}

impl SchedulerState {
    /// The radio works on a buffer that is there: on the first vacant inbound buffer, or on the first
    /// outbound packet.
    pub open spec fn holds(self, q: Queues) -> bool {
        match self {
            SchedulerState::NoPkt => true,
            SchedulerState::RxPkt(i) => i == 0 && q.rx.vacant.len() > 0,
            SchedulerState::TxPkt(outbound) => outbound.index == 0 && outbound.available(q),
        }
    }

    /// The next packet is one that the radio can get to. A radio that is off has one.
    pub open spec fn offers(self, next_pkt: Option<SchedPkt>, q: Queues) -> bool {
        match next_pkt {
            None => self !is NoPkt,
            Some(SchedPkt::Rx(i)) => {
                &&& i == (if self is RxPkt { 1int } else { 0int })
                &&& i < q.rx.vacant.len()
            },
            Some(SchedPkt::Tx(outbound)) => {
                &&& outbound.index == (if self is TxPkt { 1int } else { 0int })
                &&& outbound.available(q)
            },
        }
    }

    /// How a transition can end, given what the scheduler can handle.
    pub open spec fn accepts(
        self,
        next_pkt: Option<SchedPkt>,
        transition: CompletedRadioTransition,
    ) -> bool {
        match (next_pkt, self) {
            (Some(SchedPkt::Rx(_)), SchedulerState::RxPkt(_)) => match transition {
                CompletedRadioTransition::Entered(Some(RxResult::Packet(_))) => true,
                CompletedRadioTransition::NotScheduled(RadioTaskError::CrcError) => true,
                _ => false,
            },
            (Some(SchedPkt::Rx(_)), _) => transition is Entered,
            (Some(SchedPkt::Tx(_)), _) => transition is Entered || transition is Fallback,
            (None, SchedulerState::NoPkt) => false,
            (None, _) => transition is Entered,
        }
    }
}

impl SchedulerState {
    /// The state that a transition leads to, and the queues after it.
    pub open spec fn complete(
        self,
        next_pkt: Option<SchedPkt>,
        transition: CompletedRadioTransition,
        q: Queues,
    ) -> (SchedulerState, Queues) {
        let rx_result = match transition {
            CompletedRadioTransition::Entered(rx_result) => rx_result,
            _ => None,
        };
        match next_pkt {
            Some(SchedPkt::Rx(i)) => match self {
                SchedulerState::NoPkt => (SchedulerState::RxPkt(i), q),
                SchedulerState::TxPkt(_) => (SchedulerState::RxPkt(i), q.sent()),
                SchedulerState::RxPkt(_) => if transition is Entered {
                    (SchedulerState::RxPkt((i - 1) as usize), q.after_reception(rx_result))
                } else {
                    (self, q)
                },
            },
            Some(SchedPkt::Tx(outbound)) => if transition is Entered {
                match self {
                    SchedulerState::NoPkt => (SchedulerState::TxPkt(outbound), q),
                    SchedulerState::RxPkt(_) => (
                        SchedulerState::TxPkt(outbound),
                        q.after_reception(rx_result),
                    ),
                    SchedulerState::TxPkt(_) => (
                        SchedulerState::TxPkt(outbound.advanced()),
                        q.sent(),
                    ),
                }
            } else if self is TxPkt {
                (SchedulerState::NoPkt, q.sent())
            } else {
                (SchedulerState::NoPkt, q)
            },
            None => match self {
                SchedulerState::NoPkt => (self, q),
                SchedulerState::RxPkt(_) => (SchedulerState::NoPkt, q.after_reception(rx_result)),
                SchedulerState::TxPkt(_) => (SchedulerState::NoPkt, q.sent()),
            },
        }
    }

    /// What the scheduler waits for, given the radio's state and the next packet.
    pub open spec fn resume(self, next_pkt: Option<SchedPkt>) -> RunState {
        match (self, next_pkt) {
            (SchedulerState::RxPkt(rx_pkt), Some(SchedPkt::Rx(next))) => RunState::FrameStarted {
                rx_pkt,
                next,
            },
            _ => RunState::Transition { sched_state: self, next_pkt },
        }
    }
}

impl RunState {
    /// The buffers that the scheduler has chosen are there.
    pub open spec fn wf(self, q: Queues) -> bool {
        match self {
            RunState::GetPkt => true,
            RunState::FrameStarted { rx_pkt, next } => {
                &&& SchedulerState::RxPkt(rx_pkt).holds(q)
                &&& SchedulerState::RxPkt(rx_pkt).offers(Some(SchedPkt::Rx(next)), q)
            },
            RunState::Transition { sched_state, next_pkt } => {
                &&& sched_state.holds(q)
                &&& sched_state.offers(next_pkt, q)
            },
        }
    }

    /// The event is one that the scheduler waits for and that it can handle.
    pub open spec fn awaits(self, event: Event, q: Queues) -> bool {
        match (self, event) {
            (RunState::GetPkt, Event::Pkt(SchedPkt::Rx(i))) => i == 0 && q.rx.vacant.len() > 0,
            (RunState::GetPkt, Event::Pkt(pkt)) => Some(pkt) == q.first_outbound(),
            (RunState::FrameStarted { .. }, Event::FrameStarted) => true,
            (RunState::FrameStarted { .. }, Event::Pkt(pkt)) => Some(pkt) == q.first_outbound(),
            (
                RunState::Transition { sched_state, next_pkt },
                Event::Completed(transition),
            ) => sched_state.accepts(next_pkt, transition),
            _ => false,
        }
    }

    /// What the scheduler waits for after an event, and the queues then.
    pub open spec fn next(self, event: Event, q: Queues) -> (RunState, Queues) {
        match (self, event) {
            (RunState::GetPkt, Event::Pkt(pkt)) => (SchedulerState::NoPkt.resume(Some(pkt)), q),
            (RunState::FrameStarted { rx_pkt, next }, Event::FrameStarted) => (
                RunState::Transition {
                    sched_state: SchedulerState::RxPkt(rx_pkt),
                    next_pkt: Some(SchedPkt::Rx(next)),
                },
                q,
            ),
            (RunState::FrameStarted { rx_pkt, .. }, Event::Pkt(pkt)) => (
                SchedulerState::RxPkt(rx_pkt).resume(Some(pkt)),
                q,
            ),
            (RunState::Transition { sched_state, next_pkt }, Event::Completed(transition)) => {
                let (state, after) = sched_state.complete(next_pkt, transition, q);
                match next_pkt {
                    Some(SchedPkt::Rx(_)) => (state.resume(after.next_in_rx()), after),
                    Some(SchedPkt::Tx(_)) => if state is TxPkt {
                        (state.resume(after.next_in_tx()), after)
                    } else if sched_state is TxPkt {
                        (state.resume(after.first_outbound()), after)
                    } else {
                        (state.resume(after.next_in_off()), after)
                    },
                    None => (RunState::GetPkt, after),
                }
            },
            _ => (self, q),
        }
    }
}

impl RunState {
    /// What the radio has to be told, if it is the radio that is waited for.
    pub open spec fn radio_command(self) -> Option<RadioCommand> {
        match self {
            RunState::Transition { sched_state, next_pkt } => Some(
                RadioCommand {
                    task: match next_pkt {
                        Some(SchedPkt::Rx(_)) => RadioTask::Rx,
                        Some(SchedPkt::Tx(outbound)) => RadioTask::Tx {
                            pkt: outbound.pkt,
                            cca: true,
                        },
                        None => RadioTask::Off,
                    },
                    until: match (sched_state, next_pkt) {
                        (SchedulerState::RxPkt(_), Some(SchedPkt::Rx(_))) => Until::TaskComplete,
                        (SchedulerState::TxPkt(_), Some(SchedPkt::Tx(_))) => Until::TaskComplete,
                        _ => Until::Entry,
                    },
                },
            ),
            _ => None,
        }
    }

    /// What the radio has to be told, if it is the radio that is waited for.
    pub fn command(&self) -> (command: Option<RadioCommand>)
        ensures
            command == self.radio_command(),
    {
        match *self {
            RunState::Transition { sched_state, next_pkt } => {
                let task = match next_pkt {
                    Some(SchedPkt::Rx(_)) => RadioTask::Rx,
                    Some(SchedPkt::Tx(outbound)) => RadioTask::Tx { pkt: outbound.pkt, cca: true },
                    None => RadioTask::Off,
                };
                let until = match (sched_state, next_pkt) {
                    (SchedulerState::RxPkt(_), Some(SchedPkt::Rx(_))) => Until::TaskComplete,
                    (SchedulerState::TxPkt(_), Some(SchedPkt::Tx(_))) => Until::TaskComplete,
                    _ => Until::Entry,
                };
                Some(RadioCommand { task, until })
            },
            _ => None,
        }
    }

    /// Whether the scheduler can handle that a radio transition ends like this. Everything else takes
    /// error handling that no radio has required so far.
    pub fn can_complete(&self, transition: &CompletedRadioTransition) -> (accepted: bool)
        ensures
            accepted == match *self {
                RunState::Transition { sched_state, next_pkt } => sched_state.accepts(
                    next_pkt,
                    *transition,
                ),
                _ => false,
            },
    {
        match *self {
            RunState::Transition { sched_state, next_pkt } => match (next_pkt, sched_state) {
                (Some(SchedPkt::Rx(_)), SchedulerState::RxPkt(_)) => match *transition {
                    CompletedRadioTransition::Entered(Some(RxResult::Packet(_))) => true,
                    CompletedRadioTransition::NotScheduled(RadioTaskError::CrcError) => true,
                    _ => false,
                },
                (Some(SchedPkt::Tx(_)), _) => match *transition {
                    CompletedRadioTransition::NotScheduled(_) => false,
                    _ => true,
                },
                (None, SchedulerState::NoPkt) => false,
                _ => match *transition {
                    CompletedRadioTransition::Entered(_) => true,
                    _ => false,
                },
            },
            _ => false,
        }
    }
}

impl Outbound {
    /// The packet after the one in front of it has been released.
    pub open spec fn advanced(self) -> Outbound {
        Outbound { index: (self.index - 1) as usize, pkt: self.pkt }
    }

    /// The packet is at its position in the queue of outbound packets.
    pub open spec fn available(self, q: Queues) -> bool {
        &&& self.index < q.tx.queued.len()
        &&& self.pkt == q.tx.queued[self.index as int]
    }
}

/// Chooses the next buffer and packet for the radio on a best effort basis.
///
/// Holds the lower end of the link while a decision is made.
pub struct BestEffortScheduler<'a, 'd> {
    pub state: StateRunner<'a>,
    pub rx_chan: RxRunner<'a, 'd>,
    pub tx_chan: TxRunner<'a, 'd>,
}

impl<'a, 'd> BestEffortScheduler<'a, 'd> {
    /// Both queues have at least one buffer, and none has been lost.
    pub open spec fn wf(&self) -> bool {
        &&& self.rx_chan.rx_chan.wf()
        &&& self.tx_chan.tx_chan.wf()
    }

    /// The queues that the scheduler works on.
    pub open spec fn queues(&self) -> Queues {
        Queues { rx: self.rx_chan.rx_chan@, tx: self.tx_chan.tx_chan@ }
    }

    /// Takes the lower end of the link.
    pub fn new(runner: Runner<'a, 'd>) -> (scheduler: Self)
        ensures
            *scheduler.state.shared == *old(runner.shared),
            *scheduler.rx_chan.rx_chan == *old(runner.rx_chan),
            *scheduler.tx_chan.tx_chan == *old(runner.tx_chan),
            *final(runner.shared) == *final(scheduler.state.shared),
            *final(runner.rx_chan) == *final(scheduler.rx_chan.rx_chan),
            *final(runner.tx_chan) == *final(scheduler.tx_chan.tx_chan),
    {
        let (state, rx_chan, tx_chan) = runner.split();
        BestEffortScheduler { state, rx_chan, tx_chan }
    }

    /// Set the radio up to listen for incoming packets and return a successful
    /// result with the updated scheduler state or - if this fails - return the
    /// previous scheduler state unchanged in the error-part of the result.
    pub fn schedule_rx_pkt(
        &mut self,
        sched_state: SchedulerState,
        rx_pkt: usize,
        transition: CompletedRadioTransition,
    ) -> (result: Result<SchedulerState, SchedulerState>)
        requires
            old(self).wf(),
            sched_state.holds(old(self).queues()),
            sched_state.offers(Some(SchedPkt::Rx(rx_pkt)), old(self).queues()),
            sched_state.accepts(Some(SchedPkt::Rx(rx_pkt)), transition),
        ensures
            final(self).wf(),
            match sched_state {
                SchedulerState::NoPkt => {
                    &&& result == Ok::<SchedulerState, SchedulerState>(SchedulerState::RxPkt(rx_pkt))
                    &&& final(self).queues() == old(self).queues()
                },
                SchedulerState::TxPkt(_) => {
                    &&& result == Ok::<SchedulerState, SchedulerState>(SchedulerState::RxPkt(rx_pkt))
                    &&& final(self).queues() == old(self).queues().sent()
                },
                SchedulerState::RxPkt(_) => match transition {
                    CompletedRadioTransition::Entered(rx_result) => {
                        &&& result == Ok::<SchedulerState, SchedulerState>(
                            SchedulerState::RxPkt((rx_pkt - 1) as usize),
                        )
                        &&& final(self).queues() == old(self).queues().after_reception(rx_result)
                    },
                    _ => {
                        &&& result == Err::<SchedulerState, SchedulerState>(sched_state)
                        &&& final(self).queues() == old(self).queues()
                    },
                },
            },
            final(self).state == old(self).state,
            *final(final(self).rx_chan.rx_chan) == *final(old(self).rx_chan.rx_chan),
            *final(final(self).tx_chan.tx_chan) == *final(old(self).tx_chan.tx_chan),
    {
        match sched_state {
            SchedulerState::NoPkt => Ok(SchedulerState::RxPkt(rx_pkt)),
            SchedulerState::TxPkt(_) => {
                self.tx_chan.tx_done();
                Ok(SchedulerState::RxPkt(rx_pkt))
            },
            SchedulerState::RxPkt(_) => match transition {
                CompletedRadioTransition::Entered(rx_result) => {
                    self.end_reception(rx_result);
                    Ok(SchedulerState::RxPkt(rx_pkt - 1))
                },
                _ => Err(sched_state),
            },
        }
    }

    /// Pushes the packet that a reception ended with, if any.
    fn end_reception(&mut self, rx_result: Option<RxResult>)
        requires
            old(self).wf(),
            old(self).queues().rx.vacant.len() > 0,
        ensures
            final(self).wf(),
            final(self).queues() == old(self).queues().after_reception(rx_result),
            final(self).state == old(self).state,
            final(self).tx_chan == old(self).tx_chan,
            *final(final(self).rx_chan.rx_chan) == *final(old(self).rx_chan.rx_chan),
    {
        if let Some(RxResult::Packet(pkt)) = rx_result {
            let slot = self.rx_chan.try_rx_pkt().unwrap();
            *slot = pkt;
            self.rx_chan.rx_done();
        }
    }

    /// Have the radio send an outbound packet. If the channel is not clear, the radio is off afterwards. A
    /// packet that the radio has been sending before has been sent in either case.
    pub fn schedule_tx_pkt(
        &mut self,
        sched_state: SchedulerState,
        tx_pkt: Outbound,
        transition: CompletedRadioTransition,
    ) -> (result: SchedulerState)
        requires
            old(self).wf(),
            sched_state.holds(old(self).queues()),
            sched_state.offers(Some(SchedPkt::Tx(tx_pkt)), old(self).queues()),
            sched_state.accepts(Some(SchedPkt::Tx(tx_pkt)), transition),
        ensures
            final(self).wf(),
            match transition {
                CompletedRadioTransition::Entered(rx_result) => match sched_state {
                    SchedulerState::NoPkt => {
                        &&& result == SchedulerState::TxPkt(tx_pkt)
                        &&& final(self).queues() == old(self).queues()
                    },
                    SchedulerState::RxPkt(_) => {
                        &&& result == SchedulerState::TxPkt(tx_pkt)
                        &&& final(self).queues() == old(self).queues().after_reception(rx_result)
                    },
                    SchedulerState::TxPkt(_) => {
                        &&& result == SchedulerState::TxPkt(tx_pkt.advanced())
                        &&& final(self).queues() == old(self).queues().sent()
                    },
                },
                _ => {
                    &&& result == SchedulerState::NoPkt
                    &&& final(self).queues() == (if sched_state is TxPkt {
                        old(self).queues().sent()
                    } else {
                        old(self).queues()
                    })
                },
            },
            final(self).state == old(self).state,
            *final(final(self).rx_chan.rx_chan) == *final(old(self).rx_chan.rx_chan),
            *final(final(self).tx_chan.tx_chan) == *final(old(self).tx_chan.tx_chan),
    {
        match transition {
            CompletedRadioTransition::Entered(rx_result) => match sched_state {
                SchedulerState::NoPkt => SchedulerState::TxPkt(tx_pkt),
                SchedulerState::RxPkt(_) => {
                    self.end_reception(rx_result);
                    SchedulerState::TxPkt(tx_pkt)
                },
                SchedulerState::TxPkt(_) => {
                    self.tx_chan.tx_done();
                    SchedulerState::TxPkt(Outbound { index: tx_pkt.index - 1, pkt: tx_pkt.pkt })
                },
            },
            _ => {
                if let SchedulerState::TxPkt(_) = sched_state {
                    self.tx_chan.tx_done();
                }
                SchedulerState::NoPkt
            },
        }
    }

    /// Switch the radio off, which must not be off already.
    pub fn switch_radio_off(
        &mut self,
        sched_state: SchedulerState,
        transition: CompletedRadioTransition,
    ) -> (result: SchedulerState)
        requires
            old(self).wf(),
            sched_state.holds(old(self).queues()),
            sched_state.accepts(None, transition),
        ensures
            final(self).wf(),
            result == SchedulerState::NoPkt,
            final(self).queues() == (match transition {
                CompletedRadioTransition::Entered(rx_result) if sched_state is RxPkt => old(
                    self,
                ).queues().after_reception(rx_result),
                _ => old(self).queues().sent(),
            }),
            final(self).state == old(self).state,
            *final(final(self).rx_chan.rx_chan) == *final(old(self).rx_chan.rx_chan),
            *final(final(self).tx_chan.tx_chan) == *final(old(self).tx_chan.tx_chan),
    {
        match sched_state {
            SchedulerState::TxPkt(_) => {
                self.tx_chan.tx_done();
            },
            SchedulerState::RxPkt(_) => {
                if let CompletedRadioTransition::Entered(rx_result) = transition {
                    self.end_reception(rx_result);
                }
            },
            SchedulerState::NoPkt => {},
        }
        SchedulerState::NoPkt
    }

    /// The first outbound packet, if there is one: whenever an outgoing packet is available, it is sent
    /// first.
    pub fn try_get_pkt(&mut self) -> (pkt: Option<SchedPkt>)
        requires
            old(self).wf(),
        ensures
            final(self).wf(),
            pkt == old(self).queues().first_outbound(),
            final(self).queues() == old(self).queues(),
            final(self).state == old(self).state,
            *final(final(self).rx_chan.rx_chan) == *final(old(self).rx_chan.rx_chan),
            *final(final(self).tx_chan.tx_chan) == *final(old(self).tx_chan.tx_chan),
    {
        let pkt = match self.tx_chan.try_tx_pkt() {
            Some(pkt) => Some(SchedPkt::Tx(Outbound { index: 0, pkt: *pkt })),
            None => None,
        };
        assert(self.queues() =~= old(self).queues());
        pkt
    }

    /// Waits for a packet while the radio is off. When it is polled for the `first` time, an outbound
    /// packet that is available goes first; after that, it is as with [`Self::poll_pkt`].
    pub fn get_pkt(&mut self, cx: &mut Context, first: bool) -> (pkt: Option<SchedPkt>)
        requires
            old(self).wf(),
        ensures
            final(self).wf(),
            ({
                let before = old(self).queues();
                let after = final(self).queues();
                let task = context_task(*old(cx));
                if first && before.tx.queued.len() > 0 {
                    &&& pkt == before.first_outbound()
                    &&& after == before
                } else if before.rx.vacant.len() > 0 {
                    &&& pkt == Some(SchedPkt::Rx(0))
                    &&& after == before
                } else {
                    &&& pkt == before.first_outbound()
                    &&& after.rx == before.rx.await_vacant(task)
                    &&& after.tx == (if pkt is None {
                        before.tx.await_queued(task)
                    } else {
                        before.tx
                    })
                }
            }),
            final(self).state == old(self).state,
            *final(final(self).rx_chan.rx_chan) == *final(old(self).rx_chan.rx_chan),
            *final(final(self).tx_chan.tx_chan) == *final(old(self).tx_chan.tx_chan),
            *final(cx) == *old(cx),
    {
        // Fast path: Whenever an outgoing packet is available - send it first.
        if first {
            let maybe_tx_pkt = self.try_get_pkt();
            if maybe_tx_pkt.is_some() {
                return maybe_tx_pkt;
            }
        }
        self.poll_pkt(cx)
    }

    /// Waits for a vacant inbound buffer or for an outbound packet, whichever comes first. As long as
    /// there is neither, the task of `cx` will be woken when there is one.
    pub fn poll_pkt(&mut self, cx: &mut Context) -> (pkt: Option<SchedPkt>)
        requires
            old(self).wf(),
        ensures
            final(self).wf(),
            pkt == (if old(self).queues().rx.vacant.len() > 0 {
                Some(SchedPkt::Rx(0))
            } else {
                old(self).queues().first_outbound()
            }),
            final(self).queues().rx == (if old(self).queues().rx.vacant.len() > 0 {
                old(self).queues().rx
            } else {
                old(self).queues().rx.await_vacant(context_task(*old(cx)))
            }),
            final(self).queues().tx == (if pkt is None {
                old(self).queues().tx.await_queued(context_task(*old(cx)))
            } else {
                old(self).queues().tx
            }),
            final(self).state == old(self).state,
            *final(final(self).rx_chan.rx_chan) == *final(old(self).rx_chan.rx_chan),
            *final(final(self).tx_chan.tx_chan) == *final(old(self).tx_chan.tx_chan),
            *final(cx) == *old(cx),
    {
        let vacant = self.rx_chan.poll_rx_pkt(cx).is_some();
        assert(vacant ==> self.queues().rx =~= old(self).queues().rx);
        if vacant {
            return Some(SchedPkt::Rx(0));
        }
        self.poll_tx(cx)
    }

    /// Waits for an outbound packet. As long as there is none, the task of `cx` will be woken when there
    /// is one.
    pub fn poll_tx(&mut self, cx: &mut Context) -> (pkt: Option<SchedPkt>)
        requires
            old(self).wf(),
        ensures
            final(self).wf(),
            pkt == old(self).queues().first_outbound(),
            final(self).queues().rx == old(self).queues().rx,
            final(self).queues().tx == (if pkt is None {
                old(self).queues().tx.await_queued(context_task(*old(cx)))
            } else {
                old(self).queues().tx
            }),
            final(self).state == old(self).state,
            *final(final(self).rx_chan.rx_chan) == *final(old(self).rx_chan.rx_chan),
            *final(final(self).tx_chan.tx_chan) == *final(old(self).tx_chan.tx_chan),
            *final(cx) == *old(cx),
    {
        let pkt = match self.tx_chan.poll_tx_pkt(cx) {
            Some(pkt) => Some(SchedPkt::Tx(Outbound { index: 0, pkt: *pkt })),
            None => None,
        };
        assert(pkt is Some ==> self.queues() =~= old(self).queues());
        pkt
    }

    /// Called when the scheduler is in RX state: Either return a newly scheduled
    /// TX packet or the next available RX packet for back-to-back scheduling.
    pub fn try_get_next_pkt_in_rx(&mut self) -> (pkt: Option<SchedPkt>)
        requires
            old(self).wf(),
        ensures
            final(self).wf(),
            pkt == old(self).queues().next_in_rx(),
            final(self).queues() == old(self).queues(),
            final(self).state == old(self).state,
            *final(final(self).rx_chan.rx_chan) == *final(old(self).rx_chan.rx_chan),
            *final(final(self).tx_chan.tx_chan) == *final(old(self).tx_chan.tx_chan),
    {
        // Prefer scheduling pending TX packets over continuously receiving RX
        // packets.
        let maybe_tx_pkt = self.try_get_pkt();
        if maybe_tx_pkt.is_some() {
            return maybe_tx_pkt;
        }
        if self.rx_chan.try_next_rx_pkt() {
            Some(SchedPkt::Rx(1))
        } else {
            None
        }
    }

    /// Called when the scheduler is in TX state: Either return the next TX
    /// packet if available or the next available RX packet to return to RX mode.
    pub fn try_get_next_pkt_in_tx(&mut self) -> (pkt: Option<SchedPkt>)
        requires
            old(self).wf(),
        ensures
            final(self).wf(),
            pkt == old(self).queues().next_in_tx(),
            final(self).queues() == old(self).queues(),
            final(self).state == old(self).state,
            *final(final(self).rx_chan.rx_chan) == *final(old(self).rx_chan.rx_chan),
            *final(final(self).tx_chan.tx_chan) == *final(old(self).tx_chan.tx_chan),
    {
        // Prefer scheduling pending TX packets over continuously receiving RX
        // packets.
        if let Some(pkt) = self.tx_chan.try_next_tx_pkt() {
            return Some(SchedPkt::Tx(Outbound { index: 1, pkt }));
        }
        let vacant = self.rx_chan.try_rx_pkt().is_some();
        assert(self.queues() =~= old(self).queues());
        if vacant {
            Some(SchedPkt::Rx(0))
        } else {
            None
        }
    }

    /// Called when the radio was not sending and is off since the channel was not clear: Either return to
    /// RX mode, or try the first TX packet again if others are waiting behind it or if there is no room to
    /// receive.
    pub fn try_get_next_pkt_in_off(&mut self) -> (pkt: Option<SchedPkt>)
        requires
            old(self).wf(),
        ensures
            final(self).wf(),
            pkt == old(self).queues().next_in_off(),
            final(self).queues() == old(self).queues(),
            final(self).state == old(self).state,
            *final(final(self).rx_chan.rx_chan) == *final(old(self).rx_chan.rx_chan),
            *final(final(self).tx_chan.tx_chan) == *final(old(self).tx_chan.tx_chan),
    {
        let pkt = self.try_get_next_pkt_in_tx();
        if let Some(SchedPkt::Rx(_)) = pkt {
            return pkt;
        }
        self.try_get_pkt()
    }

    /// Starts to run: the link is up, and a packet is waited for.
    pub fn start(&mut self) -> (run: RunState)
        requires
            old(self).wf(),
        ensures
            final(self).wf(),
            run == RunState::GetPkt,
            final(self).state.shared@ == old(self).state.shared@.with_link_state(LinkState::Up),
            final(self).queues() == old(self).queues(),
            *final(final(self).state.shared) == *final(old(self).state.shared),
            final(self).rx_chan == old(self).rx_chan,
            final(self).tx_chan == old(self).tx_chan,
    {
        self.state.set_link_state(LinkState::Up);
        RunState::GetPkt
    }

    /// Runs on after an event.
    pub fn step(&mut self, run: RunState, event: Event) -> (next: RunState)
        requires
            old(self).wf(),
            run.wf(old(self).queues()),
            run.awaits(event, old(self).queues()),
        ensures
            final(self).wf(),
            (next, final(self).queues()) == run.next(event, old(self).queues()),
            next.wf(final(self).queues()),
            final(self).state == old(self).state,
            *final(final(self).rx_chan.rx_chan) == *final(old(self).rx_chan.rx_chan),
            *final(final(self).tx_chan.tx_chan) == *final(old(self).tx_chan.tx_chan),
    {
        match (run, event) {
            (RunState::GetPkt, Event::Pkt(pkt)) => Self::resume(SchedulerState::NoPkt, Some(pkt)),
            // If we're already in Rx state then only schedule another Rx packet once we're sure that
            // the current Rx task will actually handle a packet. Otherwise Tx takes precedence.
            (RunState::FrameStarted { rx_pkt, next }, Event::FrameStarted) => RunState::Transition {
                sched_state: SchedulerState::RxPkt(rx_pkt),
                next_pkt: Some(SchedPkt::Rx(next)),
            },
            (RunState::FrameStarted { rx_pkt, .. }, Event::Pkt(pkt)) => Self::resume(
                SchedulerState::RxPkt(rx_pkt),
                Some(pkt),
            ),
            (RunState::Transition { sched_state, next_pkt }, Event::Completed(transition)) => {
                match next_pkt {
                    Some(SchedPkt::Rx(rx_pkt)) => {
                        let state = match self.schedule_rx_pkt(sched_state, rx_pkt, transition) {
                            Ok(state) => state,
                            Err(prev_state) => prev_state,
                        };
                        Self::resume(state, self.try_get_next_pkt_in_rx())
                    },
                    Some(SchedPkt::Tx(tx_pkt)) => {
                        let state = self.schedule_tx_pkt(sched_state, tx_pkt, transition);
                        let next_pkt = match (state, sched_state) {
                            (SchedulerState::TxPkt(_), _) => self.try_get_next_pkt_in_tx(),
                            // Between two packets, go on with the second one.
                            (_, SchedulerState::TxPkt(_)) => self.try_get_pkt(),
                            _ => self.try_get_next_pkt_in_off(),
                        };
                        Self::resume(state, next_pkt)
                    },
                    None => {
                        self.switch_radio_off(sched_state, transition);
                        RunState::GetPkt
                    },
                }
            },
            _ => run,
        }
    }

    fn resume(sched_state: SchedulerState, next_pkt: Option<SchedPkt>) -> (run: RunState)
        ensures
            run == sched_state.resume(next_pkt),
    {
        match (sched_state, next_pkt) {
            (SchedulerState::RxPkt(rx_pkt), Some(SchedPkt::Rx(next))) => RunState::FrameStarted {
                rx_pkt,
                next,
            },
            _ => RunState::Transition { sched_state, next_pkt },
        }
    }
}

} // verus!
