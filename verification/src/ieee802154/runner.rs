//! The two ends of the link between the radio and the network stack.
//!
//! The link consists of a queue for inbound packets, a queue for outbound packets and a few shared
//! parameters. The runners are the lower end: they interface with the radio. The device is the upper
//! end: it interfaces with the networking stack.
use vstd::prelude::*;
use core::task::Context;
use super::channel::{ChannelStorage, PacketQueue, QueueView};
use super::packet::Pkt;
use super::waker::{context_task, TaskWaker, WakerView};

verus! {

/// Whether the link is up.
#[derive(Clone, Copy, Debug, PartialEq, Eq, Structural)]
pub enum LinkState {
    Down,
    Up,
}

/// A hardware address, by medium.
#[derive(Clone, Copy, Debug, PartialEq, Eq)]
pub enum HardwareAddress {
    /// A six-octet Ethernet address.
    Ethernet([u8; 6]),
    /// An eight-octet IEEE 802.15.4 address.
    Ieee802154([u8; 8]),
    /// No hardware address.
    Ip,
}

/// Who verifies the checksums of a protocol when receiving, and computes them when sending.
#[derive(Clone, Copy, Debug, PartialEq, Eq, Structural)]
pub enum Checksum {
    /// The network stack does both.
    Both,
    /// The network stack verifies them.
    Rx,
    /// The network stack computes them.
    Tx,
    /// The network stack ignores them.
    Neither,
}

/// The treatment of checksums, by protocol.
#[derive(Clone, Copy, Debug, PartialEq, Eq, Structural)]
pub struct ChecksumCapabilities {
    pub ipv4: Checksum,
    pub udp: Checksum,
    pub tcp: Checksum,
    pub icmpv4: Checksum,
    pub icmpv6: Checksum,
}

/// What the device offers to the network stack.
#[derive(Clone, Copy, Debug, PartialEq, Eq, Structural)]
pub struct Capabilities {
    /// The largest number of payload bytes in a packet.
    pub max_transmission_unit: usize,
    /// The largest number of packets in a burst, if it is limited.
    pub max_burst_size: Option<usize>,
    /// The treatment of checksums.
    pub checksum: ChecksumCapabilities,
}

impl Capabilities {
    /// A device that takes packets of the given size, does not limit bursts and leaves all checksums to
    /// the network stack.
    pub open spec fn with_mtu(max_transmission_unit: usize) -> Capabilities {
        Capabilities {
            max_transmission_unit,
            max_burst_size: None,
            checksum: ChecksumCapabilities {
                ipv4: Checksum::Both,
                udp: Checksum::Both,
                tcp: Checksum::Both,
                icmpv4: Checksum::Both,
                icmpv6: Checksum::Both,
            },
        }
    }
}

/// The parameters that both ends of the link share.
pub struct Shared {
    link_state: LinkState,
    waker: TaskWaker,
    hardware_address: HardwareAddress,
}

/// What the shared parameters hold.
pub struct SharedView {
    pub link_state: LinkState,
    pub hardware_address: HardwareAddress,
    /// The task that is to be woken when a parameter is set, and those that have been woken.
    pub observer: WakerView,
}

impl SharedView {
    /// The parameters after the link state has been set: whoever waits for a change is woken.
    pub open spec fn with_link_state(self, link_state: LinkState) -> SharedView {
        SharedView { link_state, observer: self.observer.wake(), ..self }
    }

    /// The parameters after the hardware address has been set: whoever waits for a change is woken.
    pub open spec fn with_hardware_address(self, hardware_address: HardwareAddress) -> SharedView {
        SharedView { hardware_address, observer: self.observer.wake(), ..self }
    }

    /// The parameters after a task has started to wait for a change.
    pub open spec fn observed(self, task: int) -> SharedView {
        SharedView { observer: self.observer.register(task), ..self }
    }
}

impl View for Shared {
    type V = SharedView;

    closed spec fn view(&self) -> SharedView {
        SharedView {
            link_state: self.link_state,
            hardware_address: self.hardware_address,
            observer: self.waker@,
        }
    }
}

impl Shared {
    fn set_link_state(&mut self, state: LinkState)
        ensures
            final(self)@ == old(self)@.with_link_state(state),
    {
        self.link_state = state;
        self.waker.wake();
    }

    fn set_hardware_address(&mut self, address: HardwareAddress)
        ensures
            final(self)@ == old(self)@.with_hardware_address(address),
    {
        self.hardware_address = address;
        self.waker.wake();
    }
}

/// Channel state.
///
/// Holds a buffer of radio packets, for both TX and RX.
pub struct State<'d, const N_RX: usize, const N_TX: usize> {
    rx: [Pkt; N_RX],
    tx: [Pkt; N_TX],
    rx_storage: ChannelStorage<'d>,
    tx_storage: ChannelStorage<'d>,
}

impl<'d, const N_RX: usize, const N_TX: usize> State<'d, N_RX, N_TX> {
    /// The buffers for inbound packets.
    pub closed spec fn rx_buffers(&self) -> Seq<Pkt> {
        self.rx@
    }

    /// The buffers for outbound packets.
    pub closed spec fn tx_buffers(&self) -> Seq<Pkt> {
        self.tx@
    }

    /// Create a new radio driver runner state.
    pub fn new() -> (state: Self)
        ensures
            state.rx_buffers().len() == N_RX,
            state.tx_buffers().len() == N_TX,
            forall|i: int| 0 <= i < N_RX ==> (#[trigger] state.rx_buffers()[i]).is_blank(),
            forall|i: int| 0 <= i < N_TX ==> (#[trigger] state.tx_buffers()[i]).is_blank(),
    {
        let pkt = Pkt::new();
        State {
            rx: [pkt; N_RX],
            tx: [pkt; N_TX],
            rx_storage: ChannelStorage::new(),
            tx_storage: ChannelStorage::new(),
        }
    }
}

/// The link between the radio and the network stack.
pub struct StateInner<'d> {
    /// The queue of inbound packets.
    pub rx: PacketQueue<'d>,
    /// The queue of outbound packets.
    pub tx: PacketQueue<'d>,
    /// The shared parameters.
    pub shared: Shared,
    /// What the device offers.
    pub caps: Capabilities,
}

/// What the link holds.
#[verifier::ext_equal]
pub struct LinkView {
    pub rx: QueueView,
    pub tx: QueueView,
    pub shared: SharedView,
    pub caps: Capabilities,
}

impl LinkView {
    /// A link that is down, with all of its buffers vacant.
    pub open spec fn new(rx: Seq<Pkt>, tx: Seq<Pkt>, hardware_address: HardwareAddress) -> LinkView {
        LinkView {
            rx: QueueView::empty(rx),
            tx: QueueView::empty(tx),
            shared: SharedView {
                link_state: LinkState::Down,
                hardware_address,
                observer: WakerView::idle(),
            },
            caps: Capabilities::with_mtu(Pkt::CAPACITY),
        }
    }
}

impl<'d> View for StateInner<'d> {
    type V = LinkView;

    open spec fn view(&self) -> LinkView {
        LinkView { rx: self.rx@, tx: self.tx@, shared: self.shared@, caps: self.caps }
    }
}

/// Create a channel.
///
/// Returns the link, whose lower end interfaces with the peripheral (see [`StateInner::runner`]) and
/// whose upper end interfaces with the networking stack (see [`StateInner::device`]). The link is down
/// until a runner sets it up.
pub fn new<'d, const N_RX: usize, const N_TX: usize>(
    state: &'d mut State<'d, N_RX, N_TX>,
    hardware_address: HardwareAddress,
) -> (link: StateInner<'d>)
    requires
        N_RX > 0,
        N_TX > 0,
    ensures
        link.wf(),
        link@ == LinkView::new(old(state).rx_buffers(), old(state).tx_buffers(), hardware_address),
        link.rx@.capacity() == N_RX,
        link.tx@.capacity() == N_TX,
{
    StateInner {
        rx: PacketQueue::new(&mut state.rx_storage, &mut state.rx),
        tx: PacketQueue::new(&mut state.tx_storage, &mut state.tx),
        shared: Shared {
            link_state: LinkState::Down,
            waker: TaskWaker::new(),
            hardware_address,
        },
        caps: Capabilities {
            max_transmission_unit: Pkt::CAPACITY,
            max_burst_size: None,
            checksum: ChecksumCapabilities {
                ipv4: Checksum::Both,
                udp: Checksum::Both,
                tcp: Checksum::Both,
                icmpv4: Checksum::Both,
                icmpv6: Checksum::Both,
            },
        },
    }
}

impl<'d> StateInner<'d> {
    /// Both queues have at least one buffer, and none has been lost.
    pub open spec fn wf(&self) -> bool {
        &&& self.rx.wf()
        &&& self.tx.wf()
    }

    /// The lower end of the link.
    pub fn runner(&mut self) -> (runner: Runner<'_, 'd>)
        ensures
            *runner.rx_chan == old(self).rx,
            *runner.tx_chan == old(self).tx,
            *runner.shared == old(self).shared,
            final(self).rx == *final(runner.rx_chan),
            final(self).tx == *final(runner.tx_chan),
            final(self).shared == *final(runner.shared),
            final(self).caps == old(self).caps,
    {
        Runner { tx_chan: &mut self.tx, rx_chan: &mut self.rx, shared: &mut self.shared }
    }

    /// The upper end of the link.
    pub fn device(&mut self) -> (device: Device<'_, 'd>)
        ensures
            *device.rx == old(self).rx,
            *device.tx == old(self).tx,
            *device.shared == old(self).shared,
            device.caps == old(self).caps,
            final(self).rx == *final(device.rx),
            final(self).tx == *final(device.tx),
            final(self).shared == *final(device.shared),
            final(self).caps == old(self).caps,
    {
        Device { rx: &mut self.rx, tx: &mut self.tx, shared: &mut self.shared, caps: self.caps }
    }
}

/// Channel runner.
///
/// Holds the shared state and the lower end of channels for inbound and outbound packets.
pub struct Runner<'a, 'd> {
    pub tx_chan: &'a mut PacketQueue<'d>,
    pub rx_chan: &'a mut PacketQueue<'d>,
    pub shared: &'a mut Shared,
}

/// State runner.
///
/// Holds the shared state of the channel such as link state.
pub struct StateRunner<'a> {
    pub shared: &'a mut Shared,
}

/// RX runner.
///
/// Holds the lower end of the channel for passing inbound packets up the stack.
pub struct RxRunner<'a, 'd> {
    pub rx_chan: &'a mut PacketQueue<'d>,
}

/// TX runner.
///
/// Holds the lower end of the channel for passing outbound packets down the stack.
pub struct TxRunner<'a, 'd> {
    pub tx_chan: &'a mut PacketQueue<'d>,
}

impl<'a, 'd> Runner<'a, 'd> {
    /// Split the runner into separate runners for controlling state, rx and tx.
    pub fn split(self) -> (runners: (StateRunner<'a>, RxRunner<'a, 'd>, TxRunner<'a, 'd>))
        ensures
            *runners.0.shared == *old(self.shared),
            *runners.1.rx_chan == *old(self.rx_chan),
            *runners.2.tx_chan == *old(self.tx_chan),
            *final(self.shared) == *final(runners.0.shared),
            *final(self.rx_chan) == *final(runners.1.rx_chan),
            *final(self.tx_chan) == *final(runners.2.tx_chan),
    {
        (
            StateRunner { shared: self.shared },
            RxRunner { rx_chan: self.rx_chan },
            TxRunner { tx_chan: self.tx_chan },
        )
    }

    /// Create a state runner sharing the state channel.
    pub fn state_runner(&mut self) -> (runner: StateRunner<'_>)
        ensures
            *runner.shared == *old(self).shared,
            *final(self).shared == *final(runner.shared),
            *final(final(self).shared) == *final(old(self).shared),
            final(self).rx_chan == old(self).rx_chan,
            final(self).tx_chan == old(self).tx_chan,
    {
        StateRunner { shared: &mut *self.shared }
    }

    /// Set the link state.
    pub fn set_link_state(&mut self, state: LinkState)
        ensures
            final(self).shared@ == old(self).shared@.with_link_state(state),
            *final(final(self).shared) == *final(old(self).shared),
            final(self).rx_chan == old(self).rx_chan,
            final(self).tx_chan == old(self).tx_chan,
    {
        self.shared.set_link_state(state);
    }

    /// Set the hardware address.
    pub fn set_hardware_address(&mut self, address: HardwareAddress)
        ensures
            final(self).shared@ == old(self).shared@.with_hardware_address(address),
            *final(final(self).shared) == *final(old(self).shared),
            final(self).rx_chan == old(self).rx_chan,
            final(self).tx_chan == old(self).tx_chan,
    {
        self.shared.set_hardware_address(address);
    }
}

impl<'a> StateRunner<'a> {
    /// Set link state.
    pub fn set_link_state(&mut self, state: LinkState)
        ensures
            final(self).shared@ == old(self).shared@.with_link_state(state),
            *final(final(self).shared) == *final(old(self).shared),
    {
        self.shared.set_link_state(state);
    }

    /// Set the hardware address.
    pub fn set_hardware_address(&mut self, address: HardwareAddress)
        ensures
            final(self).shared@ == old(self).shared@.with_hardware_address(address),
            *final(final(self).shared) == *final(old(self).shared),
    {
        self.shared.set_hardware_address(address);
    }
}

impl<'a, 'd> RxRunner<'a, 'd> {
    /// Check whether a second RX buffer is available. The buffer itself is handed out once the first
    /// one has been marked as pushed.
    pub fn try_next_rx_pkt(&self) -> (available: bool)
        requires
            self.rx_chan.wf(),
        ensures
            available == (old(self.rx_chan)@.vacant.len() > 1),
    {
        self.rx_chan.vacancies() > 1
    }

    /// Check if there is space for more inbound packets right now and if so, return it as a packet.
    pub fn try_rx_pkt(&mut self) -> (pkt: Option<&mut Pkt>)
        requires
            old(self).rx_chan.wf(),
        ensures
            final(self).rx_chan.wf(),
            pkt is Some <==> old(self).rx_chan@.vacant.len() > 0,
            pkt matches Some(pkt) ==> *pkt == old(self).rx_chan@.vacant[0],
            final(self).rx_chan@ == (match pkt {
                Some(pkt) => old(self).rx_chan@.fill(*final(pkt)),
                None => old(self).rx_chan@,
            }),
            *final(final(self).rx_chan) == *final(old(self).rx_chan),
    {
        self.rx_chan.try_send()
    }

    /// Polling the inbound channel if there is space for packets. If there is none, the task of `cx`
    /// will be woken when there is.
    pub fn poll_rx_pkt(&mut self, cx: &mut Context) -> (pkt: Option<&mut Pkt>)
        requires
            old(self).rx_chan.wf(),
        ensures
            final(self).rx_chan.wf(),
            pkt is Some <==> old(self).rx_chan@.vacant.len() > 0,
            pkt matches Some(pkt) ==> *pkt == old(self).rx_chan@.vacant[0],
            final(self).rx_chan@ == (match pkt {
                Some(pkt) => old(self).rx_chan@.fill(*final(pkt)),
                None => old(self).rx_chan@.await_vacant(context_task(*old(cx))),
            }),
            *final(final(self).rx_chan) == *final(old(self).rx_chan),
            *final(cx) == *old(cx),
    {
        self.rx_chan.poll_send(cx)
    }

    /// Mark packet as pushed to the inbound channel.
    pub fn rx_done(&mut self)
        requires
            old(self).rx_chan.wf(),
            old(self).rx_chan@.vacant.len() > 0,
        ensures
            final(self).rx_chan.wf(),
            final(self).rx_chan@ == old(self).rx_chan@.push(),
            *final(final(self).rx_chan) == *final(old(self).rx_chan),
    {
        self.rx_chan.send_done();
    }
}

impl<'a, 'd> TxRunner<'a, 'd> {
    /// Check whether a second TX buffer is already pending and - if so - return what it holds.
    pub fn try_next_tx_pkt(&mut self) -> (pkt: Option<Pkt>)
        requires
            old(self).tx_chan.wf(),
        ensures
            final(self).tx_chan.wf(),
            pkt == (if old(self).tx_chan@.queued.len() > 1 {
                Some(old(self).tx_chan@.queued[1])
            } else {
                None
            }),
            final(self).tx_chan@ == old(self).tx_chan@,
            *final(final(self).tx_chan) == *final(old(self).tx_chan),
    {
        self.tx_chan.second()
    }

    /// Check if there is an outbound packet available right now.
    pub fn try_tx_pkt(&mut self) -> (pkt: Option<&mut Pkt>)
        requires
            old(self).tx_chan.wf(),
        ensures
            final(self).tx_chan.wf(),
            pkt is Some <==> old(self).tx_chan@.queued.len() > 0,
            pkt matches Some(pkt) ==> *pkt == old(self).tx_chan@.queued[0],
            final(self).tx_chan@ == (match pkt {
                Some(pkt) => old(self).tx_chan@.edit(*final(pkt)),
                None => old(self).tx_chan@,
            }),
            *final(final(self).tx_chan) == *final(old(self).tx_chan),
    {
        self.tx_chan.try_receive()
    }

    /// Polling the outbound channel if there is a packet available. If there is none, the task of `cx`
    /// will be woken when there is.
    pub fn poll_tx_pkt(&mut self, cx: &mut Context) -> (pkt: Option<&mut Pkt>)
        requires
            old(self).tx_chan.wf(),
        ensures
            final(self).tx_chan.wf(),
            pkt is Some <==> old(self).tx_chan@.queued.len() > 0,
            pkt matches Some(pkt) ==> *pkt == old(self).tx_chan@.queued[0],
            final(self).tx_chan@ == (match pkt {
                Some(pkt) => old(self).tx_chan@.edit(*final(pkt)),
                None => old(self).tx_chan@.await_queued(context_task(*old(cx))),
            }),
            *final(final(self).tx_chan) == *final(old(self).tx_chan),
            *final(cx) == *old(cx),
    {
        self.tx_chan.poll_receive(cx)
    }

    /// Mark outbound packet as sent.
    pub fn tx_done(&mut self)
        requires
            old(self).tx_chan.wf(),
            old(self).tx_chan@.queued.len() > 0,
        ensures
            final(self).tx_chan.wf(),
            final(self).tx_chan@ == old(self).tx_chan@.pop(),
            *final(final(self).tx_chan) == *final(old(self).tx_chan),
    {
        self.tx_chan.receive_done();
    }
}

/// Channel device.
///
/// Holds the shared state and upper end of channels for inbound and outbound packets.
pub struct Device<'a, 'd> {
    pub rx: &'a mut PacketQueue<'d>,
    pub tx: &'a mut PacketQueue<'d>,
    pub shared: &'a mut Shared,
    pub caps: Capabilities,
}

impl<'a, 'd> Device<'a, 'd> {
    /// Check if a received package is available and return it as soon as a corresponding TX token can
    /// be obtained. If there is no package, or else if no token can be obtained, the task of `cx` will
    /// be woken when that has changed.
    pub fn receive(&mut self, cx: &mut Context) -> (tokens: Option<
        (RxToken<'_, 'd>, TxToken<'_, 'd>),
    >)
        requires
            old(self).rx.wf(),
            old(self).tx.wf(),
        ensures
            tokens is Some <==> old(self).rx@.queued.len() > 0 && old(self).tx@.vacant.len() > 0,
            match tokens {
                Some((rx_token, tx_token)) => {
                    &&& rx_token.wf()
                    &&& tx_token.wf()
                    &&& rx_token.rx@ == old(self).rx@
                    &&& tx_token.tx@ == old(self).tx@
                    &&& *final(self).rx == *final(rx_token.rx)
                    &&& *final(self).tx == *final(tx_token.tx)
                },
                None => {
                    &&& final(self).rx.wf()
                    &&& final(self).tx.wf()
                    &&& old(self).rx@.queued.len() == 0 ==> {
                        &&& final(self).rx@ == old(self).rx@.await_queued(context_task(*old(cx)))
                        &&& final(self).tx@ == old(self).tx@
                    }
                    &&& old(self).rx@.queued.len() > 0 ==> {
                        &&& final(self).rx@ == old(self).rx@
                        &&& final(self).tx@ == old(self).tx@.await_vacant(context_task(*old(cx)))
                    }
                },
            },
            *final(final(self).rx) == *final(old(self).rx),
            *final(final(self).tx) == *final(old(self).tx),
            final(self).shared == old(self).shared,
            final(self).caps == old(self).caps,
            *final(cx) == *old(cx),
    {
        let received = self.rx.poll_receive(cx).is_some();
        assert(received ==> self.rx@ =~= old(self).rx@);
        if !received {
            return None;
        }
        let sendable = self.tx.poll_send(cx).is_some();
        assert(sendable ==> self.tx@ =~= old(self).tx@);
        if !sendable {
            return None;
        }
        Some((RxToken { rx: &mut *self.rx }, TxToken { tx: &mut *self.tx }))
    }

    /// Construct a transmit token. If none can be obtained, the task of `cx` will be woken when that
    /// has changed.
    pub fn transmit(&mut self, cx: &mut Context) -> (token: Option<TxToken<'_, 'd>>)
        requires
            old(self).tx.wf(),
        ensures
            token is Some <==> old(self).tx@.vacant.len() > 0,
            match token {
                Some(token) => {
                    &&& token.wf()
                    &&& token.tx@ == old(self).tx@
                    &&& *final(self).tx == *final(token.tx)
                },
                None => {
                    &&& final(self).tx.wf()
                    &&& final(self).tx@ == old(self).tx@.await_vacant(context_task(*old(cx)))
                },
            },
            *final(final(self).tx) == *final(old(self).tx),
            final(self).rx == old(self).rx,
            final(self).shared == old(self).shared,
            final(self).caps == old(self).caps,
            *final(cx) == *old(cx),
    {
        let sendable = self.tx.poll_send(cx).is_some();
        assert(sendable ==> self.tx@ =~= old(self).tx@);
        if !sendable {
            return None;
        }
        Some(TxToken { tx: &mut *self.tx })
    }

    /// Get a description of device capabilities.
    pub fn capabilities(&self) -> (caps: Capabilities)
        ensures
            caps == self.caps,
    {
        self.caps
    }

    /// Get the hardware address.
    pub fn hardware_address(&self) -> (address: HardwareAddress)
        ensures
            address == old(self.shared)@.hardware_address,
    {
        self.shared.hardware_address
    }

    /// Get the link state. The task of `cx` will be woken when the link state or the hardware address
    /// is set.
    pub fn link_state(&mut self, cx: &mut Context) -> (state: LinkState)
        ensures
            state == old(self).shared@.link_state,
            final(self).shared@ == old(self).shared@.observed(context_task(*old(cx))),
            *final(final(self).shared) == *final(old(self).shared),
            final(self).rx == old(self).rx,
            final(self).tx == old(self).tx,
            final(self).caps == old(self).caps,
            *final(cx) == *old(cx),
    {
        self.shared.waker.register(cx);
        self.shared.link_state
    }
}

/// An rx token.
///
/// Holds the inbound channel, in which a packet is queued.
pub struct RxToken<'a, 'd> {
    pub rx: &'a mut PacketQueue<'d>,
}

impl<'a, 'd> RxToken<'a, 'd> {
    /// There is a packet to consume.
    pub open spec fn wf(&self) -> bool {
        &&& self.rx.wf()
        &&& self.rx@.queued.len() > 0
    }

    /// Hands the payload of the first inbound packet to `f` and releases the packet.
    pub fn consume<R, F>(self, f: F) -> (r: R) where F: FnOnce(&mut [u8]) -> R
        requires
            self.wf(),
            forall|buf: &mut [u8]|
                buf@ == self.rx@.queued[0].payload_bytes() ==> call_requires(f, (buf,)),
        ensures
            final(self.rx).wf(),
            exists|buf: &mut [u8], pkt: Pkt|
                {
                    let first = old(self.rx)@.queued[0];
                    &&& buf@ == first.payload_bytes()
                    &&& #[trigger] call_ensures(f, (buf,), r)
                    &&& pkt.used() == first.used()
                    &&& pkt.buffer() == final(buf)@ + first.buffer().skip(first.used() as int)
                    &&& final(self.rx)@ == #[trigger] old(self.rx)@.edit(pkt).pop()
                },
    {
        let pkt = self.rx.try_receive().unwrap();
        let len = pkt.len();
        let (buf, _) = pkt.payload_buffer().split_at_mut(len);
        let r = f(buf);
        self.rx.receive_done();
        r
    }
}

/// A tx token.
///
/// Holds the outbound channel, in which a buffer is vacant.
pub struct TxToken<'a, 'd> {
    pub tx: &'a mut PacketQueue<'d>,
}

impl<'a, 'd> TxToken<'a, 'd> {
    /// There is a buffer to fill.
    pub open spec fn wf(&self) -> bool {
        &&& self.tx.wf()
        &&& self.tx@.vacant.len() > 0
    }

    /// Lets `f` fill the first `len` bytes of a vacant buffer and sends them as an outbound packet.
    pub fn consume<R, F>(self, len: usize, f: F) -> (r: R) where F: FnOnce(&mut [u8]) -> R
        requires
            self.wf(),
            len <= Pkt::CAPACITY,
            forall|buf: &mut [u8]|
                buf@ == self.tx@.vacant[0].buffer().take(len as int) ==> call_requires(f, (buf,)),
        ensures
            final(self.tx).wf(),
            exists|buf: &mut [u8], pkt: Pkt|
                {
                    let first = old(self.tx)@.vacant[0];
                    &&& buf@ == first.buffer().take(len as int)
                    &&& #[trigger] call_ensures(f, (buf,), r)
                    &&& pkt.used() == len
                    &&& pkt.payload_bytes() == final(buf)@
                    &&& pkt.buffer() == final(buf)@ + first.buffer().skip(len as int)
                    &&& final(self.tx)@ == #[trigger] old(self.tx)@.fill(pkt).push()
                },
    {
        let pkt = self.tx.try_send().unwrap();
        let ghost rest = pkt.buffer().skip(len as int);
        let (buf, _) = pkt.payload_buffer().split_at_mut(len);
        let r = f(buf);
        pkt.truncate(len);
        assert forall|head: Seq<u8>| pkt.buffer() == #[trigger] (head + rest) implies
            pkt.payload_bytes() == head by {
            Pkt::lemma_buffer_len(*pkt);
            Pkt::lemma_buffer_len(old(self.tx)@.vacant[0]);
            assert(pkt.payload_bytes() =~= head);
        }
        self.tx.send_done();
        r
    }
}

/// Setting a parameter sets that one, keeps the other one and wakes the task that waits for a change. Waiting
/// for a change sets nothing.
pub proof fn law_set(shared: SharedView, state: LinkState, address: HardwareAddress, task: int)
    ensures
        shared.with_link_state(state).link_state == state,
        shared.with_link_state(state).hardware_address == shared.hardware_address,
        shared.with_link_state(state).observer.task is None,
        shared.observer.task matches Some(observer) ==> shared.with_link_state(state).observer.woken
            == shared.observer.woken + seq![observer],
        shared.with_hardware_address(address).hardware_address == address,
        shared.with_hardware_address(address).link_state == shared.link_state,
        shared.with_hardware_address(address).observer == shared.with_link_state(state).observer,
        shared.observer.task is None ==> shared.with_link_state(state).observer.woken
            == shared.observer.woken,
        shared.observed(task).link_state == shared.link_state,
        shared.observed(task).hardware_address == shared.hardware_address,
        shared.observed(task).observer.task == Some(task),
{
}

/// A device takes packets of the given size, does not limit bursts and leaves all checksums to the network
/// stack.
pub proof fn law_capabilities(mtu: usize)
    ensures
        Capabilities::with_mtu(mtu).max_transmission_unit == mtu,
        Capabilities::with_mtu(mtu).max_burst_size is None,
        Capabilities::with_mtu(mtu).checksum.ipv4 is Both,
        Capabilities::with_mtu(mtu).checksum.udp is Both,
        Capabilities::with_mtu(mtu).checksum.tcp is Both,
        Capabilities::with_mtu(mtu).checksum.icmpv4 is Both,
        Capabilities::with_mtu(mtu).checksum.icmpv6 is Both,
{
}

/// A new link is down, has the given address, and can take as many packets either way as it has buffers.
pub proof fn law_new(rx: Seq<Pkt>, tx: Seq<Pkt>, address: HardwareAddress)
    ensures
        LinkView::new(rx, tx, address).rx.queued.len() == 0,
        LinkView::new(rx, tx, address).rx.vacant == rx,
        LinkView::new(rx, tx, address).tx.queued.len() == 0,
        LinkView::new(rx, tx, address).tx.vacant == tx,
        LinkView::new(rx, tx, address).shared.link_state is Down,
        LinkView::new(rx, tx, address).shared.hardware_address == address,
        LinkView::new(rx, tx, address).shared.observer.task is None,
        LinkView::new(rx, tx, address).caps == Capabilities::with_mtu(125),
{
}

} // verus!
