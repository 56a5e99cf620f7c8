use ieee802154_radio_sample::ieee802154::packet::Pkt;
use ieee802154_radio_sample::ieee802154::runner::{
    new, HardwareAddress, LinkState, State, StateInner,
};
use ieee802154_radio_sample::ieee802154::scheduler::{
    BestEffortScheduler, CompletedRadioTransition, Event, Outbound, RadioCommand, RadioTask,
    RadioTaskError, RunState, RxResult, SchedPkt, SchedulerState, Until,
};
use std::sync::atomic::{AtomicUsize, Ordering};
use std::sync::Arc;
use std::task::{Context, Wake, Waker};

struct Counter(AtomicUsize);

impl Wake for Counter {
    fn wake(self: Arc<Self>) {
        self.0.fetch_add(1, Ordering::SeqCst);
    }
}

fn pkt(payload: &[u8]) -> Pkt {
    let mut pkt = Pkt::new();
    pkt.payload_buffer()[..payload.len()].copy_from_slice(payload);
    pkt.truncate(payload.len());
    pkt
}

fn outbound(index: usize, payload: &[u8]) -> Outbound {
    Outbound { index, pkt: pkt(payload) }
}

fn send(link: &mut StateInner<'_>, payload: &[u8]) {
    let waker = Waker::from(Arc::new(Counter(AtomicUsize::new(0))));
    let mut cx = Context::from_waker(&waker);
    let mut device = link.device();
    let token = device.transmit(&mut cx).unwrap();
    token.consume(payload.len(), |buf| buf.copy_from_slice(payload));
}

fn consume(link: &mut StateInner<'_>) -> Vec<u8> {
    let waker = Waker::from(Arc::new(Counter(AtomicUsize::new(0))));
    let mut cx = Context::from_waker(&waker);
    let mut device = link.device();
    let (rx, _) = device.receive(&mut cx).unwrap();
    rx.consume(|buf| buf.to_vec())
}

fn step(link: &mut StateInner<'_>, run: RunState, event: Event) -> RunState {
    BestEffortScheduler::new(link.runner()).step(run, event)
}

fn complete(link: &mut StateInner<'_>, run: RunState, t: CompletedRadioTransition) -> RunState {
    assert!(run.can_complete(&t));
    step(link, run, Event::Completed(t))
}

const ENTERED: CompletedRadioTransition = CompletedRadioTransition::Entered(None);
const FALLBACK: CompletedRadioTransition = CompletedRadioTransition::Fallback(None);

fn received(payload: &[u8]) -> CompletedRadioTransition {
    CompletedRadioTransition::Entered(Some(RxResult::Packet(pkt(payload))))
}

fn transition(sched_state: SchedulerState, next_pkt: Option<SchedPkt>) -> RunState {
    RunState::Transition { sched_state, next_pkt }
}

#[test]
fn start_sets_the_link_up() {
    let waker = Waker::from(Arc::new(Counter(AtomicUsize::new(0))));
    let mut cx = Context::from_waker(&waker);
    let mut state = State::<3, 3>::new();
    let mut link = new(&mut state, HardwareAddress::Ip);
    let run = BestEffortScheduler::new(link.runner()).start();
    assert_eq!(run, RunState::GetPkt);
    assert_eq!(link.device().link_state(&mut cx), LinkState::Up);
    assert_eq!(run.command(), None);
}

#[test]
fn outbound_packet_is_picked_first() {
    let mut state = State::<3, 3>::new();
    let mut link = new(&mut state, HardwareAddress::Ip);
    assert_eq!(BestEffortScheduler::new(link.runner()).try_get_pkt(), None);
    send(&mut link, &[1]);
    let found = BestEffortScheduler::new(link.runner()).try_get_pkt();
    assert_eq!(found, Some(SchedPkt::Tx(outbound(0, &[1]))));
}

#[test]
fn polling_prefers_an_inbound_buffer() {
    let counter = Arc::new(Counter(AtomicUsize::new(0)));
    let waker = Waker::from(counter.clone());
    let mut cx = Context::from_waker(&waker);
    let mut state = State::<1, 1>::new();
    let mut link = new(&mut state, HardwareAddress::Ip);
    send(&mut link, &[1]);
    assert_eq!(
        BestEffortScheduler::new(link.runner()).poll_pkt(&mut cx),
        Some(SchedPkt::Rx(0))
    );
    link.rx.send_done();
    assert_eq!(
        BestEffortScheduler::new(link.runner()).poll_pkt(&mut cx),
        Some(SchedPkt::Tx(outbound(0, &[1])))
    );
    link.tx.receive_done();
    assert_eq!(counter.0.load(Ordering::SeqCst), 0);
    assert_eq!(BestEffortScheduler::new(link.runner()).poll_pkt(&mut cx), None);
    assert_eq!(BestEffortScheduler::new(link.runner()).poll_tx(&mut cx), None);
    send(&mut link, &[2]);
    assert_eq!(counter.0.load(Ordering::SeqCst), 1);
    assert_eq!(
        BestEffortScheduler::new(link.runner()).poll_tx(&mut cx),
        Some(SchedPkt::Tx(outbound(0, &[2])))
    );
    consume_first_inbound(&mut link);
    assert_eq!(counter.0.load(Ordering::SeqCst), 2);
}

fn consume_first_inbound(link: &mut StateInner<'_>) {
    link.rx.receive_done();
}

#[test]
fn radio_receives_back_to_back() {
    let mut state = State::<3, 3>::new();
    let mut link = new(&mut state, HardwareAddress::Ip);
    let run = step(&mut link, RunState::GetPkt, Event::Pkt(SchedPkt::Rx(0)));
    assert_eq!(run, transition(SchedulerState::NoPkt, Some(SchedPkt::Rx(0))));
    assert_eq!(
        run.command(),
        Some(RadioCommand { task: RadioTask::Rx, until: Until::Entry })
    );
    let run = complete(&mut link, run, ENTERED);
    assert_eq!(run, RunState::FrameStarted { rx_pkt: 0, next: 1 });
    assert_eq!(run.command(), None);
    let run = step(&mut link, run, Event::FrameStarted);
    assert_eq!(run, transition(SchedulerState::RxPkt(0), Some(SchedPkt::Rx(1))));
    assert_eq!(
        run.command(),
        Some(RadioCommand { task: RadioTask::Rx, until: Until::TaskComplete })
    );
    let run = complete(&mut link, run, received(&[1]));
    assert_eq!(run, RunState::FrameStarted { rx_pkt: 0, next: 1 });
    let run = step(&mut link, run, Event::FrameStarted);
    let run = complete(&mut link, run, received(&[2]));
    // Only one inbound buffer is left.
    assert_eq!(run, transition(SchedulerState::RxPkt(0), None));
    assert_eq!(
        run.command(),
        Some(RadioCommand { task: RadioTask::Off, until: Until::Entry })
    );
    let run = complete(&mut link, run, received(&[3]));
    assert_eq!(run, RunState::GetPkt);
    assert_eq!(consume(&mut link), &[1]);
    assert_eq!(consume(&mut link), &[2]);
    assert_eq!(consume(&mut link), &[3]);
}

#[test]
fn crc_error_keeps_the_radio_receiving() {
    let mut state = State::<3, 3>::new();
    let mut link = new(&mut state, HardwareAddress::Ip);
    let run = transition(SchedulerState::RxPkt(0), Some(SchedPkt::Rx(1)));
    let crc_error = CompletedRadioTransition::NotScheduled(RadioTaskError::CrcError);
    let run = complete(&mut link, run, crc_error);
    assert_eq!(run, RunState::FrameStarted { rx_pkt: 0, next: 1 });
    assert_eq!(link.rx.len(), 0);
}

#[test]
fn failed_reception_is_returned_as_an_error() {
    let mut state = State::<3, 3>::new();
    let mut link = new(&mut state, HardwareAddress::Ip);
    let mut scheduler = BestEffortScheduler::new(link.runner());
    let crc_error = CompletedRadioTransition::NotScheduled(RadioTaskError::CrcError);
    assert_eq!(
        scheduler.schedule_rx_pkt(SchedulerState::RxPkt(0), 1, crc_error),
        Err(SchedulerState::RxPkt(0))
    );
    assert_eq!(
        scheduler.schedule_rx_pkt(SchedulerState::RxPkt(0), 1, received(&[1])),
        Ok(SchedulerState::RxPkt(0))
    );
    assert_eq!(
        scheduler.schedule_rx_pkt(SchedulerState::NoPkt, 0, ENTERED),
        Ok(SchedulerState::RxPkt(0))
    );
    assert_eq!(link.rx.len(), 1);
}

#[test]
fn outbound_packet_interrupts_reception() {
    let mut state = State::<3, 3>::new();
    let mut link = new(&mut state, HardwareAddress::Ip);
    let run = RunState::FrameStarted { rx_pkt: 0, next: 1 };
    send(&mut link, &[7]);
    let run = step(&mut link, run, Event::Pkt(SchedPkt::Tx(outbound(0, &[7]))));
    assert_eq!(
        run,
        transition(SchedulerState::RxPkt(0), Some(SchedPkt::Tx(outbound(0, &[7]))))
    );
    assert_eq!(
        run.command(),
        Some(RadioCommand {
            task: RadioTask::Tx { pkt: pkt(&[7]), cca: true },
            until: Until::Entry
        })
    );
    let ended = CompletedRadioTransition::Entered(Some(RxResult::RxWindowEnded));
    let run = complete(&mut link, run, ended);
    assert_eq!(
        run,
        transition(SchedulerState::TxPkt(outbound(0, &[7])), Some(SchedPkt::Rx(0)))
    );
    assert_eq!(link.rx.len(), 0);
    assert_eq!(link.tx.len(), 1);
    let run = complete(&mut link, run, ENTERED);
    assert_eq!(run, RunState::FrameStarted { rx_pkt: 0, next: 1 });
    assert_eq!(link.tx.len(), 0);
}

#[test]
fn packet_received_just_before_sending_is_kept() {
    let mut state = State::<3, 3>::new();
    let mut link = new(&mut state, HardwareAddress::Ip);
    send(&mut link, &[7]);
    let run = transition(SchedulerState::RxPkt(0), Some(SchedPkt::Tx(outbound(0, &[7]))));
    complete(&mut link, run, received(&[5]));
    assert_eq!(consume(&mut link), &[5]);
}

#[test]
fn outbound_packets_are_sent_back_to_back() {
    let mut state = State::<3, 3>::new();
    let mut link = new(&mut state, HardwareAddress::Ip);
    send(&mut link, &[1]);
    send(&mut link, &[2]);
    send(&mut link, &[3]);
    let first = BestEffortScheduler::new(link.runner()).try_get_pkt().unwrap();
    let run = step(&mut link, RunState::GetPkt, Event::Pkt(first));
    assert_eq!(run, transition(SchedulerState::NoPkt, Some(SchedPkt::Tx(outbound(0, &[1])))));
    let run = complete(&mut link, run, ENTERED);
    assert_eq!(
        run,
        transition(
            SchedulerState::TxPkt(outbound(0, &[1])),
            Some(SchedPkt::Tx(outbound(1, &[2])))
        )
    );
    assert_eq!(run.command().unwrap().until, Until::TaskComplete);
    let run = complete(&mut link, run, ENTERED);
    assert_eq!(
        run,
        transition(
            SchedulerState::TxPkt(outbound(0, &[2])),
            Some(SchedPkt::Tx(outbound(1, &[3])))
        )
    );
    let run = complete(&mut link, run, ENTERED);
    assert_eq!(
        run,
        transition(SchedulerState::TxPkt(outbound(0, &[3])), Some(SchedPkt::Rx(0)))
    );
    assert_eq!(link.tx.len(), 1);
}

#[test]
fn radio_is_switched_off_when_there_is_nothing_to_do() {
    let mut state = State::<1, 1>::new();
    let mut link = new(&mut state, HardwareAddress::Ip);
    send(&mut link, &[1]);
    link.rx.send_done();
    let run = transition(SchedulerState::NoPkt, Some(SchedPkt::Tx(outbound(0, &[1]))));
    let run = complete(&mut link, run, ENTERED);
    assert_eq!(run, transition(SchedulerState::TxPkt(outbound(0, &[1])), None));
    let run = complete(&mut link, run, ENTERED);
    assert_eq!(run, RunState::GetPkt);
    assert_eq!(link.tx.len(), 0);
}

#[test]
fn busy_channel_switches_the_radio_off() {
    let mut state = State::<3, 3>::new();
    let mut link = new(&mut state, HardwareAddress::Ip);
    send(&mut link, &[1]);
    let run = transition(SchedulerState::NoPkt, Some(SchedPkt::Tx(outbound(0, &[1]))));
    let run = complete(&mut link, run, FALLBACK);
    assert_eq!(run, transition(SchedulerState::NoPkt, Some(SchedPkt::Rx(0))));
    // The packet stays in the queue and is tried again once the radio is receiving.
    assert_eq!(link.tx.len(), 1);
    let run = complete(&mut link, run, ENTERED);
    assert_eq!(
        run,
        transition(SchedulerState::RxPkt(0), Some(SchedPkt::Tx(outbound(0, &[1]))))
    );
}

#[test]
fn busy_channel_does_not_lose_or_reorder_packets() {
    let mut state = State::<3, 3>::new();
    let mut link = new(&mut state, HardwareAddress::Ip);
    send(&mut link, &[1]);
    send(&mut link, &[2]);
    let first = transition(SchedulerState::NoPkt, Some(SchedPkt::Tx(outbound(0, &[1]))));
    let run = complete(&mut link, first, FALLBACK);
    assert_eq!(run, first);
    assert_eq!(link.tx.len(), 2);
    let mut handed = Vec::new();
    let mut run = run;
    while link.tx.len() > 0 {
        let command = run.command().unwrap();
        if let RadioTask::Tx { pkt, .. } = command.task {
            handed.push(pkt.payload().to_vec());
        }
        run = complete(&mut link, run, ENTERED);
    }
    assert_eq!(handed, [[1], [2]]);
}

#[test]
fn busy_channel_between_two_packets_goes_on_with_the_second() {
    let mut state = State::<3, 3>::new();
    let mut link = new(&mut state, HardwareAddress::Ip);
    send(&mut link, &[1]);
    send(&mut link, &[2]);
    let run = transition(
        SchedulerState::TxPkt(outbound(0, &[1])),
        Some(SchedPkt::Tx(outbound(1, &[2]))),
    );
    let run = complete(&mut link, run, FALLBACK);
    // The first packet has been sent, the second one has not.
    assert_eq!(run, transition(SchedulerState::NoPkt, Some(SchedPkt::Tx(outbound(0, &[2])))));
    assert_eq!(link.tx.len(), 1);
    let run = complete(&mut link, run, ENTERED);
    assert_eq!(
        run,
        transition(SchedulerState::TxPkt(outbound(0, &[2])), Some(SchedPkt::Rx(0)))
    );
    let run = complete(&mut link, run, ENTERED);
    assert_eq!(run, RunState::FrameStarted { rx_pkt: 0, next: 1 });
    assert_eq!(link.tx.len(), 0);
}

#[test]
fn busy_channel_drops_what_was_received_before() {
    let mut state = State::<3, 3>::new();
    let mut link = new(&mut state, HardwareAddress::Ip);
    send(&mut link, &[1]);
    let run = transition(SchedulerState::RxPkt(0), Some(SchedPkt::Tx(outbound(0, &[1]))));
    let fallback = CompletedRadioTransition::Fallback(Some(RxResult::Packet(pkt(&[5]))));
    complete(&mut link, run, fallback);
    assert_eq!(link.rx.len(), 0);
}

#[test]
fn busy_channel_without_inbound_buffers_tries_again() {
    let mut state = State::<1, 1>::new();
    let mut link = new(&mut state, HardwareAddress::Ip);
    send(&mut link, &[1]);
    link.rx.send_done();
    let first = transition(SchedulerState::NoPkt, Some(SchedPkt::Tx(outbound(0, &[1]))));
    let run = complete(&mut link, first, FALLBACK);
    assert_eq!(run, first);
    assert_eq!(link.tx.len(), 1);
    assert!(run.can_complete(&ENTERED));
    let run = complete(&mut link, run, ENTERED);
    assert_eq!(run, transition(SchedulerState::TxPkt(outbound(0, &[1])), None));
}

#[test]
fn waiting_starts_with_the_outbound_packets() {
    let counter = Arc::new(Counter(AtomicUsize::new(0)));
    let waker = Waker::from(counter.clone());
    let mut cx = Context::from_waker(&waker);
    let mut state = State::<1, 1>::new();
    let mut link = new(&mut state, HardwareAddress::Ip);
    let found = BestEffortScheduler::new(link.runner()).get_pkt(&mut cx, true);
    assert_eq!(found, Some(SchedPkt::Rx(0)));
    send(&mut link, &[1]);
    let found = BestEffortScheduler::new(link.runner()).get_pkt(&mut cx, true);
    assert_eq!(found, Some(SchedPkt::Tx(outbound(0, &[1]))));
    let found = BestEffortScheduler::new(link.runner()).get_pkt(&mut cx, false);
    assert_eq!(found, Some(SchedPkt::Rx(0)));
    link.rx.send_done();
    link.tx.receive_done();
    assert_eq!(BestEffortScheduler::new(link.runner()).get_pkt(&mut cx, true), None);
    assert_eq!(counter.0.load(Ordering::SeqCst), 0);
    link.rx.receive_done();
    assert_eq!(counter.0.load(Ordering::SeqCst), 1);
    send(&mut link, &[2]);
    assert_eq!(counter.0.load(Ordering::SeqCst), 2);
}

#[test]
fn unexpected_ends_of_a_transition_are_refused() {
    let rx_in_rx = transition(SchedulerState::RxPkt(0), Some(SchedPkt::Rx(1)));
    let ended = CompletedRadioTransition::Entered(Some(RxResult::RxWindowEnded));
    let other = CompletedRadioTransition::NotScheduled(RadioTaskError::Other);
    assert!(!rx_in_rx.can_complete(&ended));
    assert!(!rx_in_rx.can_complete(&ENTERED));
    assert!(!rx_in_rx.can_complete(&FALLBACK));
    assert!(!rx_in_rx.can_complete(&other));
    let rx_in_off = transition(SchedulerState::NoPkt, Some(SchedPkt::Rx(0)));
    assert!(rx_in_off.can_complete(&ENTERED));
    assert!(!rx_in_off.can_complete(&FALLBACK));
    let tx = transition(SchedulerState::NoPkt, Some(SchedPkt::Tx(outbound(0, &[1]))));
    assert!(tx.can_complete(&FALLBACK));
    assert!(!tx.can_complete(&other));
    let off = transition(SchedulerState::RxPkt(0), None);
    assert!(off.can_complete(&ended));
    assert!(!off.can_complete(&FALLBACK));
    assert!(!RunState::GetPkt.can_complete(&ENTERED));
    assert!(!transition(SchedulerState::NoPkt, None).can_complete(&ENTERED));
}
