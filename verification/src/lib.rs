//! An IEEE 802.15.4 radio link: the packet queues between the radio and the network stack, the
//! scheduler that drives the radio, and what the sample applications compute.
use vstd::prelude::*;

pub mod heartbeat;
pub mod ieee802154;
pub mod net;
pub mod relay;

verus! {

/// The largest IP packet on the Ethernet link.
pub const IP_MTU: usize = 1514;

/// The number of buffers for inbound radio packets.
pub const N_RX: usize = 3;

/// The number of buffers for outbound radio packets.
pub const N_TX: usize = 3;

/// The extended address of the server.
pub const IEEE802154_SERVER_MAC_ADDR: [u8; 8] = [0x1a, 0x0b, 0x42, 0x42, 0x42, 0x42, 0x42, 0x01];

/// The extended address of the client.
pub const IEEE802154_CLIENT_MAC_ADDR: [u8; 8] = [0x1a, 0x0b, 0x42, 0x42, 0x42, 0x42, 0x42, 0x02];

/// The apparent MAC address of the USB device.
pub const DEVICE_MAC_ADDR: [u8; 6] = [0x5a, 0x96, 0x4c, 0x7f, 0xf2, 0x3e];

/// The apparent MAC address of the interface mounted on the host side.
pub const HOST_MAC_ADDR: [u8; 6] = [0x1a, 0xf3, 0x00, 0x9e, 0x0a, 0x1c];

/// The port on which the server accepts Ethernet connections.
pub const ETH_TCP_PORT: u16 = 1234;

/// The port on which the server listens for heartbeats.
pub const IEEE802154_UDP_PORT: u16 = 5678;

/// The traced application.
pub struct Application;

impl Application {
    /// Returns the frequency of the system clock in Hertz.
    pub fn sysclock() -> (frequency: u32)
        ensures
            frequency == 64_000_000,
    {
        64_000_000
    }
}

} // verus!
