use ieee802154_radio_sample::heartbeat::Heartbeat;
use ieee802154_radio_sample::ieee802154::runner::HardwareAddress;
use ieee802154_radio_sample::net::{
    endpoint, ethernet_config, ieee802154_config, link_local_address, random_seed, server_endpoint,
};
use ieee802154_radio_sample::relay::{Relay, RelayEvent};
use ieee802154_radio_sample::{
    Application, DEVICE_MAC_ADDR, ETH_TCP_PORT, HOST_MAC_ADDR, IEEE802154_CLIENT_MAC_ADDR,
    IEEE802154_SERVER_MAC_ADDR, IEEE802154_UDP_PORT, IP_MTU, N_RX, N_TX,
};

#[test]
fn parameters_of_the_sample() {
    assert_eq!(IP_MTU, 1514);
    assert_eq!((N_RX, N_TX), (3, 3));
    assert_eq!(IEEE802154_UDP_PORT, 5678);
    assert_eq!(IEEE802154_SERVER_MAC_ADDR, [0x1a, 0x0b, 0x42, 0x42, 0x42, 0x42, 0x42, 0x01]);
    assert_eq!(IEEE802154_CLIENT_MAC_ADDR, [0x1a, 0x0b, 0x42, 0x42, 0x42, 0x42, 0x42, 0x02]);
    assert_eq!(DEVICE_MAC_ADDR, [0x5a, 0x96, 0x4c, 0x7f, 0xf2, 0x3e]);
    assert_eq!(HOST_MAC_ADDR, [0x1a, 0xf3, 0x00, 0x9e, 0x0a, 0x1c]);
    assert_eq!(ETH_TCP_PORT, 1234);
    assert_eq!(Application::sysclock(), 64_000_000);
}

#[test]
fn link_local_address_of_a_node() {
    assert_eq!(
        link_local_address(&IEEE802154_SERVER_MAC_ADDR),
        [0xfe, 0x80, 0, 0, 0, 0, 0, 0, 0x18, 0x0b, 0x42, 0x42, 0x42, 0x42, 0x42, 0x01],
    );
    assert_eq!(
        link_local_address(&[0; 8]),
        [0xfe, 0x80, 0, 0, 0, 0, 0, 0, 0x02, 0, 0, 0, 0, 0, 0, 0],
    );
}

#[test]
fn nodes_have_different_link_local_addresses() {
    assert_ne!(
        link_local_address(&IEEE802154_SERVER_MAC_ADDR),
        link_local_address(&IEEE802154_CLIENT_MAC_ADDR),
    );
}

#[test]
fn seed_is_little_endian() {
    assert_eq!(random_seed(&[1, 2, 3, 4, 5, 6, 7, 8]), 0x0807_0605_0403_0201);
    assert_eq!(random_seed(&[0xff; 8]), u64::MAX);
    assert_eq!(random_seed(&[0; 8]), 0);
}

#[test]
fn radio_link_configuration() {
    let config = ieee802154_config(IEEE802154_CLIENT_MAC_ADDR, &[1, 0, 0, 0, 0, 0, 0, 0]);
    assert_eq!(
        config.hardware_address,
        HardwareAddress::Ieee802154(IEEE802154_CLIENT_MAC_ADDR)
    );
    assert_eq!(config.ipv6.address, link_local_address(&IEEE802154_CLIENT_MAC_ADDR));
    assert_eq!(config.ipv6.prefix_len, 64);
    assert_eq!(config.seed, 1);
}

#[test]
fn ethernet_link_configuration() {
    let config = ethernet_config(&[0, 1, 0, 0, 0, 0, 0, 0]);
    assert_eq!(config.ipv4.address, [192, 168, 27, 2]);
    assert_eq!(config.ipv4.prefix_len, 24);
    assert_eq!(config.ipv4.gateway, [192, 168, 27, 1]);
    assert_eq!(config.seed, 256);
}

#[test]
fn endpoints_of_the_radio_link() {
    let server = server_endpoint();
    assert_eq!(server.address, link_local_address(&IEEE802154_SERVER_MAC_ADDR));
    assert_eq!(server.port, 5678);
    assert_eq!(endpoint([3; 16]).address, [3; 16]);
    assert_eq!(endpoint([3; 16]).port, 5678);
}

#[test]
fn heartbeats_are_counted_in_network_byte_order() {
    let mut heartbeat = Heartbeat::new();
    assert_eq!(heartbeat.payload(), 0);
    assert_eq!(heartbeat.beat(), [0, 0, 0, 1]);
    assert_eq!(heartbeat.beat(), [0, 0, 0, 2]);
    for n in 3..=0x0001_0203u32 {
        assert_eq!(heartbeat.beat(), n.to_be_bytes());
    }
    assert_eq!(heartbeat.payload(), 0x0001_0203);
}

#[test]
fn relay_passes_packets_on() {
    let relay = Relay::new();
    assert_eq!(relay, Relay::Accepting);
    let relay = relay.step(RelayEvent::Accepted(false));
    assert_eq!(relay, Relay::Accepting);
    let relay = relay.step(RelayEvent::Accepted(true));
    assert_eq!(relay, Relay::Receiving);
    let relay = relay.step(RelayEvent::Received(None));
    assert_eq!(relay, Relay::Receiving);
    let relay = relay.step(RelayEvent::Received(Some(2)));
    assert_eq!(relay, Relay::Writing(2));
    assert_eq!(relay.outgoing(&[5, 6, 7]), &[5, 6]);
    let relay = relay.step(RelayEvent::Written(true));
    assert_eq!(relay, Relay::Receiving);
    let relay = relay.step(RelayEvent::Received(Some(0)));
    assert_eq!(relay.outgoing(&[5, 6, 7]), &[] as &[u8]);
    let relay = relay.step(RelayEvent::Written(false));
    assert_eq!(relay, Relay::Accepting);
}
