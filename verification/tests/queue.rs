use ieee802154_radio_sample::ieee802154::packet::Pkt;
use ieee802154_radio_sample::ieee802154::runner::{
    new, Checksum, HardwareAddress, LinkState, State,
};
use std::sync::atomic::{AtomicUsize, Ordering};
use std::sync::Arc;
use std::task::{Context, Wake, Waker};

struct Counter(AtomicUsize);

impl Wake for Counter {
    fn wake(self: Arc<Self>) {
        self.0.fetch_add(1, Ordering::SeqCst);
    }
}

impl Counter {
    fn new() -> Arc<Self> {
        Arc::new(Counter(AtomicUsize::new(0)))
    }

    fn count(&self) -> usize {
        self.0.load(Ordering::SeqCst)
    }
}

const ADDRESS: HardwareAddress = HardwareAddress::Ieee802154([1, 2, 3, 4, 5, 6, 7, 8]);

#[test]
fn packet_starts_blank() {
    let mut pkt = Pkt::new();
    assert_eq!(pkt.len(), 0);
    assert_eq!(pkt.payload(), &[] as &[u8]);
    assert_eq!(Pkt::CAPACITY, 125);
    assert_eq!(pkt.payload_buffer(), &[0u8; 125]);
}

#[test]
fn packet_payload_is_the_used_part_of_its_buffer() {
    let mut pkt = Pkt::new();
    pkt.payload_buffer()[..3].copy_from_slice(&[7, 8, 9]);
    pkt.truncate(2);
    assert_eq!(pkt.len(), 2);
    assert_eq!(pkt.payload(), &[7, 8]);
    pkt.truncate(Pkt::CAPACITY);
    assert_eq!(pkt.payload().len(), 125);
    assert_eq!(&pkt.payload()[..4], &[7, 8, 9, 0]);
}

#[test]
fn new_link_is_down_and_empty() {
    let counter = Counter::new();
    let waker = Waker::from(counter.clone());
    let mut cx = Context::from_waker(&waker);
    let mut state = State::<3, 2>::new();
    let mut link = new(&mut state, ADDRESS);
    assert_eq!(link.rx.len(), 0);
    assert_eq!(link.rx.vacancies(), 3);
    assert_eq!(link.tx.len(), 0);
    assert_eq!(link.tx.vacancies(), 2);
    let mut device = link.device();
    assert_eq!(device.link_state(&mut cx), LinkState::Down);
    assert_eq!(device.hardware_address(), ADDRESS);
    let caps = device.capabilities();
    assert_eq!(caps.max_transmission_unit, 125);
    assert_eq!(caps.max_burst_size, None);
    assert_eq!(caps.checksum.ipv4, Checksum::Both);
    assert_eq!(caps.checksum.udp, Checksum::Both);
    assert_eq!(caps.checksum.tcp, Checksum::Both);
    assert_eq!(caps.checksum.icmpv4, Checksum::Both);
    assert_eq!(caps.checksum.icmpv6, Checksum::Both);
    assert!(device.receive(&mut cx).is_none());
}

#[test]
fn buffers_of_a_new_link_are_blank() {
    let mut state = State::<1, 1>::new();
    let mut link = new(&mut state, ADDRESS);
    let (_, mut rx, _) = link.runner().split();
    assert_eq!(*rx.try_rx_pkt().unwrap(), Pkt::new());
}

#[test]
fn parameters_are_those_set_last() {
    let counter = Counter::new();
    let waker = Waker::from(counter.clone());
    let mut cx = Context::from_waker(&waker);
    let mut state = State::<1, 1>::new();
    let mut link = new(&mut state, ADDRESS);
    link.runner().set_link_state(LinkState::Up);
    assert_eq!(link.device().link_state(&mut cx), LinkState::Up);
    assert_eq!(link.device().hardware_address(), ADDRESS);
    link.runner().set_hardware_address(HardwareAddress::Ip);
    assert_eq!(link.device().hardware_address(), HardwareAddress::Ip);
    assert_eq!(link.device().link_state(&mut cx), LinkState::Up);
    link.runner().state_runner().set_link_state(LinkState::Down);
    assert_eq!(link.device().link_state(&mut cx), LinkState::Down);
    let (mut state_runner, _, _) = link.runner().split();
    state_runner.set_hardware_address(HardwareAddress::Ethernet([9; 6]));
    assert_eq!(link.device().hardware_address(), HardwareAddress::Ethernet([9; 6]));
}

#[test]
fn setting_a_parameter_wakes_the_waiting_task_once() {
    let counter = Counter::new();
    let waker = Waker::from(counter.clone());
    let mut cx = Context::from_waker(&waker);
    let mut state = State::<1, 1>::new();
    let mut link = new(&mut state, ADDRESS);
    link.runner().set_link_state(LinkState::Up);
    assert_eq!(counter.count(), 0);
    link.device().link_state(&mut cx);
    assert_eq!(counter.count(), 0);
    link.runner().set_link_state(LinkState::Up);
    assert_eq!(counter.count(), 1);
    link.runner().set_link_state(LinkState::Down);
    assert_eq!(counter.count(), 1);
    link.device().link_state(&mut cx);
    link.runner().set_hardware_address(ADDRESS);
    assert_eq!(counter.count(), 2);
}

fn send(link: &mut ieee802154_radio_sample::ieee802154::runner::StateInner<'_>, payload: &[u8]) -> bool {
    let waker = Waker::from(Counter::new());
    let mut cx = Context::from_waker(&waker);
    match link.device().transmit(&mut cx) {
        Some(token) => {
            token.consume(payload.len(), |buf| buf.copy_from_slice(payload));
            true
        }
        None => false,
    }
}

fn receive_from_radio(
    link: &mut ieee802154_radio_sample::ieee802154::runner::StateInner<'_>,
    payload: &[u8],
) -> bool {
    let (_, mut rx, _) = link.runner().split();
    match rx.try_rx_pkt() {
        Some(pkt) => {
            pkt.payload_buffer()[..payload.len()].copy_from_slice(payload);
            pkt.truncate(payload.len());
            rx.rx_done();
            true
        }
        None => false,
    }
}

#[test]
fn outbound_packets_arrive_in_order_and_unchanged() {
    let mut state = State::<1, 3>::new();
    let mut link = new(&mut state, ADDRESS);
    assert!(send(&mut link, &[1]));
    assert!(send(&mut link, &[2, 2]));
    assert!(send(&mut link, &[3, 3, 3]));
    assert!(!send(&mut link, &[4]));
    let (_, _, mut tx) = link.runner().split();
    assert_eq!(tx.try_tx_pkt().unwrap().payload(), &[1]);
    tx.tx_done();
    assert_eq!(tx.try_tx_pkt().unwrap().payload(), &[2, 2]);
    tx.tx_done();
    assert_eq!(tx.try_tx_pkt().unwrap().payload(), &[3, 3, 3]);
    tx.tx_done();
    assert!(tx.try_tx_pkt().is_none());
}

#[test]
fn full_payload_fits() {
    let mut state = State::<1, 1>::new();
    let mut link = new(&mut state, ADDRESS);
    assert!(send(&mut link, &[0xab; 125]));
    let (_, _, mut tx) = link.runner().split();
    assert_eq!(tx.try_tx_pkt().unwrap().payload(), &[0xab; 125]);
}

#[test]
fn inbound_packets_arrive_in_order_and_unchanged() {
    let waker = Waker::from(Counter::new());
    let mut cx = Context::from_waker(&waker);
    let mut state = State::<2, 1>::new();
    let mut link = new(&mut state, ADDRESS);
    assert!(receive_from_radio(&mut link, &[1, 2]));
    assert!(receive_from_radio(&mut link, &[3]));
    assert!(!receive_from_radio(&mut link, &[4]));
    for expected in [&[1u8, 2][..], &[3][..]] {
        let mut device = link.device();
        let (rx, _) = device.receive(&mut cx).unwrap();
        let seen = rx.consume(|buf| buf.to_vec());
        assert_eq!(seen, expected);
    }
    assert!(link.device().receive(&mut cx).is_none());
    assert!(receive_from_radio(&mut link, &[4]));
}

#[test]
fn nothing_is_received_without_room_for_an_answer() {
    let counter = Counter::new();
    let waker = Waker::from(counter.clone());
    let mut cx = Context::from_waker(&waker);
    let mut state = State::<1, 1>::new();
    let mut link = new(&mut state, ADDRESS);
    assert!(receive_from_radio(&mut link, &[1]));
    assert!(send(&mut link, &[2]));
    assert!(link.device().receive(&mut cx).is_none());
    assert!(link.device().transmit(&mut cx).is_none());
    assert_eq!(counter.count(), 0);
    let (_, _, mut tx) = link.runner().split();
    tx.tx_done();
    assert_eq!(counter.count(), 1);
    let mut device = link.device();
    let (rx, tx) = device.receive(&mut cx).unwrap();
    let answer = rx.consume(|buf| {
        let first = buf[0];
        tx.consume(1, |out| out[0] = first + 1);
        first
    });
    assert_eq!(answer, 1);
    let (_, _, mut tx) = link.runner().split();
    assert_eq!(tx.try_tx_pkt().unwrap().payload(), &[2]);
}

#[test]
fn waiting_device_is_woken_by_the_next_packet() {
    let counter = Counter::new();
    let waker = Waker::from(counter.clone());
    let mut cx = Context::from_waker(&waker);
    let mut state = State::<2, 1>::new();
    let mut link = new(&mut state, ADDRESS);
    assert!(link.device().receive(&mut cx).is_none());
    assert!(receive_from_radio(&mut link, &[1]));
    assert_eq!(counter.count(), 1);
    assert!(receive_from_radio(&mut link, &[2]));
    assert_eq!(counter.count(), 1);
}

#[test]
fn task_that_is_displaced_is_woken() {
    let first = Counter::new();
    let second = Counter::new();
    let first_waker = Waker::from(first.clone());
    let second_waker = Waker::from(second.clone());
    let mut state = State::<1, 1>::new();
    let mut link = new(&mut state, ADDRESS);
    link.device().link_state(&mut Context::from_waker(&first_waker));
    link.device().link_state(&mut Context::from_waker(&second_waker));
    assert_eq!((first.count(), second.count()), (1, 0));
    link.runner().set_hardware_address(ADDRESS);
    assert_eq!((first.count(), second.count()), (1, 1));
    assert!(link.device().receive(&mut Context::from_waker(&first_waker)).is_none());
    assert!(link.device().receive(&mut Context::from_waker(&second_waker)).is_none());
    assert_eq!((first.count(), second.count()), (2, 1));
    assert!(receive_from_radio(&mut link, &[1]));
    assert_eq!((first.count(), second.count()), (2, 2));
}

#[test]
fn waiting_runners_are_woken() {
    let counter = Counter::new();
    let waker = Waker::from(counter.clone());
    let mut cx = Context::from_waker(&waker);
    let mut state = State::<1, 1>::new();
    let mut link = new(&mut state, ADDRESS);
    let (_, mut rx, mut tx) = link.runner().split();
    assert!(rx.poll_rx_pkt(&mut cx).is_some());
    assert!(tx.poll_tx_pkt(&mut cx).is_none());
    assert!(send(&mut link, &[1]));
    assert_eq!(counter.count(), 1);
    let (_, _, mut tx) = link.runner().split();
    assert_eq!(tx.poll_tx_pkt(&mut cx).unwrap().payload(), &[1]);
    assert!(receive_from_radio(&mut link, &[2]));
    let (_, mut rx, _) = link.runner().split();
    assert!(rx.poll_rx_pkt(&mut cx).is_none());
    link.device().receive(&mut cx);
    assert_eq!(counter.count(), 1);
    link.rx.receive_done();
    assert_eq!(counter.count(), 2);
}

#[test]
fn second_outbound_packet_is_seen_without_changing_the_queue() {
    let mut state = State::<1, 4>::new();
    let mut link = new(&mut state, ADDRESS);
    let (_, _, mut tx) = link.runner().split();
    assert!(tx.try_next_tx_pkt().is_none());
    // Let the queue start somewhere in the middle of its buffers.
    for _ in 0..3 {
        assert!(send(&mut link, &[0]));
        link.tx.receive_done();
    }
    assert!(send(&mut link, &[1]));
    let (_, _, mut tx) = link.runner().split();
    assert!(tx.try_next_tx_pkt().is_none());
    assert!(send(&mut link, &[2]));
    assert!(send(&mut link, &[3]));
    for _ in 0..2 {
        let (_, _, mut tx) = link.runner().split();
        assert_eq!(tx.try_next_tx_pkt().unwrap().payload(), &[2]);
    }
    assert!(send(&mut link, &[4]));
    let (_, _, mut tx) = link.runner().split();
    assert_eq!(tx.try_next_tx_pkt().unwrap().payload(), &[2]);
    for expected in 1..=4u8 {
        assert_eq!(tx.try_tx_pkt().unwrap().payload(), &[expected]);
        tx.tx_done();
    }
    assert!(tx.try_tx_pkt().is_none());
}

#[test]
fn looking_at_the_second_outbound_packet_wakes_nobody() {
    let counter = Counter::new();
    let waker = Waker::from(counter.clone());
    let mut cx = Context::from_waker(&waker);
    let mut state = State::<1, 2>::new();
    let mut link = new(&mut state, ADDRESS);
    assert!(send(&mut link, &[1]));
    assert!(send(&mut link, &[2]));
    assert!(link.device().transmit(&mut cx).is_none());
    let (_, _, mut tx) = link.runner().split();
    assert_eq!(tx.try_next_tx_pkt().unwrap().payload(), &[2]);
    assert_eq!(counter.count(), 0);
    // The task is still waiting.
    tx.tx_done();
    assert_eq!(counter.count(), 1);
}

#[test]
fn queues_are_independent() {
    let waker = Waker::from(Counter::new());
    let mut cx = Context::from_waker(&waker);
    let mut state = State::<2, 2>::new();
    let mut link = new(&mut state, ADDRESS);
    assert!(receive_from_radio(&mut link, &[1]));
    assert!(send(&mut link, &[2]));
    assert!(receive_from_radio(&mut link, &[3]));
    assert!(send(&mut link, &[4]));
    for (inbound, outbound) in [(1u8, 2u8), (3, 4)] {
        let (_, _, mut tx) = link.runner().split();
        assert_eq!(tx.try_tx_pkt().unwrap().payload(), &[outbound]);
        tx.tx_done();
        let mut device = link.device();
        let (rx, _) = device.receive(&mut cx).unwrap();
        assert_eq!(rx.consume(|buf| buf.to_vec()), &[inbound]);
    }
    assert_eq!(link.rx.len(), 0);
    assert_eq!(link.tx.len(), 0);
    assert_eq!(link.device().capabilities().max_transmission_unit, 125);
    assert_eq!(link.device().hardware_address(), ADDRESS);
}

#[test]
fn lower_end_can_write_to_the_first_outbound_packet_only() {
    let mut state = State::<1, 2>::new();
    let mut link = new(&mut state, ADDRESS);
    assert!(send(&mut link, &[1]));
    assert!(send(&mut link, &[2]));
    let (_, _, mut tx) = link.runner().split();
    tx.try_tx_pkt().unwrap().payload_buffer()[0] = 9;
    assert_eq!(tx.try_tx_pkt().unwrap().payload(), &[9]);
    tx.tx_done();
    assert_eq!(tx.try_tx_pkt().unwrap().payload(), &[2]);
}

#[test]
fn second_inbound_buffer_is_available_while_two_are_vacant() {
    let mut state = State::<3, 1>::new();
    let mut link = new(&mut state, ADDRESS);
    let (_, rx, _) = link.runner().split();
    assert!(rx.try_next_rx_pkt());
    assert!(receive_from_radio(&mut link, &[1]));
    let (_, rx, _) = link.runner().split();
    assert!(rx.try_next_rx_pkt());
    assert!(receive_from_radio(&mut link, &[2]));
    let (_, rx, _) = link.runner().split();
    assert!(!rx.try_next_rx_pkt());
    link.rx.receive_done();
    let (_, rx, _) = link.runner().split();
    assert!(rx.try_next_rx_pkt());
}

#[test]
fn buffers_are_recycled() {
    let mut state = State::<2, 2>::new();
    let mut link = new(&mut state, ADDRESS);
    for i in 0..10u8 {
        assert!(send(&mut link, &[i, i]));
        assert_eq!(link.tx.len() + link.tx.vacancies(), 2);
        let (_, _, mut tx) = link.runner().split();
        assert_eq!(tx.try_tx_pkt().unwrap().payload(), &[i, i]);
        tx.tx_done();
        assert_eq!(link.tx.len(), 0);
        assert_eq!(link.tx.vacancies(), 2);
    }
}
