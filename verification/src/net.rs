//! Addresses and configuration of the network stacks.
use vstd::prelude::*;
use vstd::arithmetic::div_mod::lemma_fundamental_div_mod_converse;
use embassy_net::Ieee802154Address;
use crate::{IEEE802154_SERVER_MAC_ADDR, IEEE802154_UDP_PORT};
use crate::ieee802154::runner::HardwareAddress;

verus! {

/// The octets of the IPv6 link-local address of a node: the prefix `fe80::/64`, followed by the
/// node's extended address with the universal/local bit inverted.
pub open spec fn link_local_octets(mac_addr: Seq<u8>) -> Seq<u8> {
    seq![0xfeu8, 0x80u8, 0u8, 0u8, 0u8, 0u8, 0u8, 0u8] + mac_addr.update(0, mac_addr[0] ^ 2u8)
}

/// `Ieee802154Address::from_bytes` and `Ieee802154Address::as_link_local_address`: eight octets are
/// an extended address, which always has a link-local address.
#[verifier::external_body]
fn address_as_link_local(mac_addr: &[u8; 8]) -> (address: Option<[u8; 16]>)
    ensures
        address is Some,
        address matches Some(octets) ==> octets@ == link_local_octets(mac_addr@),
{
    match Ieee802154Address::from_bytes(mac_addr).as_link_local_address() {
        Some(address) => Some(address.octets()),
        None => None,
    }
}

/// Returns the IPv6 link-local address of the node with the given extended address.
pub fn link_local_address(mac_addr: &[u8; 8]) -> (address: [u8; 16])
    ensures
        address@ == link_local_octets(mac_addr@),
{
    address_as_link_local(mac_addr).unwrap()
}

/// Two nodes have the same link-local address only if they have the same extended address.
pub proof fn law_link_local_injective(a: Seq<u8>, b: Seq<u8>)
    requires
        a.len() == 8,
        b.len() == 8,
        link_local_octets(a) == link_local_octets(b),
    ensures
        a == b,
{
    let prefix = seq![0xfeu8, 0x80u8, 0u8, 0u8, 0u8, 0u8, 0u8, 0u8];
    let x = a[0];
    let y = b[0];
    assert forall|i: int| 0 <= i < 8 implies a.update(0, x ^ 2u8)[i] == b.update(0, y ^ 2u8)[i] by {
        assert(link_local_octets(a)[prefix.len() + i] == a.update(0, x ^ 2u8)[i]);
        assert(link_local_octets(b)[prefix.len() + i] == b.update(0, y ^ 2u8)[i]);
    }
    assert(a.update(0, x ^ 2u8)[0] == b.update(0, y ^ 2u8)[0]);
    assert(x ^ 2u8 == y ^ 2u8 ==> x == y) by (bit_vector);
    assert forall|i: int| 0 <= i < 8 implies a[i] == b[i] by {
        assert(a.update(0, x ^ 2u8)[i] == b.update(0, y ^ 2u8)[i]);
    }
    assert(a =~= b);
}

/// The number that eight octets stand for, the least significant octet first.
pub open spec fn le_value(bytes: Seq<u8>) -> int {
    bytes[0] + bytes[1] * 0x100 + bytes[2] * 0x1_0000 + bytes[3] * 0x100_0000 + bytes[4]
        * 0x1_0000_0000 + bytes[5] * 0x100_0000_0000 + bytes[6] * 0x1_0000_0000_0000 + bytes[7]
        * 0x100_0000_0000_0000
}

/// Returns the seed of a network stack that eight random octets stand for.
pub fn random_seed(bytes: &[u8; 8]) -> (seed: u64)
    ensures
        seed == le_value(bytes@),
{
    let low: u64 = (bytes[0] as u64) + (bytes[1] as u64) * 0x100 + (bytes[2] as u64) * 0x1_0000 + (
    bytes[3] as u64) * 0x100_0000;
    let high: u64 = (bytes[4] as u64) + (bytes[5] as u64) * 0x100 + (bytes[6] as u64) * 0x1_0000 + (
    bytes[7] as u64) * 0x100_0000;
    low + high * 0x1_0000_0000
}

/// A static IPv6 configuration without gateway and name servers.
#[derive(Clone, Copy, Debug, PartialEq, Eq)]
pub struct StaticConfigV6 {
    pub address: [u8; 16],
    pub prefix_len: u8,
}

/// A static IPv4 configuration without name servers.
#[derive(Clone, Copy, Debug, PartialEq, Eq)]
pub struct StaticConfigV4 {
    pub address: [u8; 4],
    pub prefix_len: u8,
    pub gateway: [u8; 4],
}

/// What the network stack on the radio link is started with.
#[derive(Clone, Copy, Debug, PartialEq, Eq)]
pub struct Ieee802154Config {
    pub hardware_address: HardwareAddress,
    pub ipv6: StaticConfigV6,
    pub seed: u64,
}

/// What the network stack on the Ethernet link is started with.
#[derive(Clone, Copy, Debug, PartialEq, Eq)]
pub struct EthernetConfig {
    pub ipv4: StaticConfigV4,
    pub seed: u64,
}

/// Configures a node of the radio link: it has the given extended address and the link-local address
/// that goes with it.
pub fn ieee802154_config(mac_addr: [u8; 8], random: &[u8; 8]) -> (config: Ieee802154Config)
    ensures
        config.hardware_address == HardwareAddress::Ieee802154(mac_addr),
        config.ipv6.address@ == link_local_octets(mac_addr@),
        config.ipv6.prefix_len == 64,
        config.seed == le_value(random@),
{
    Ieee802154Config {
        hardware_address: HardwareAddress::Ieee802154(mac_addr),
        ipv6: StaticConfigV6 { address: link_local_address(&mac_addr), prefix_len: 64 },
        seed: random_seed(random),
    }
}

/// Configures the Ethernet link between the server and its host.
pub fn ethernet_config(random: &[u8; 8]) -> (config: EthernetConfig)
    ensures
        config.ipv4.address@ == seq![192u8, 168u8, 27u8, 2u8],
        config.ipv4.prefix_len == 24,
        config.ipv4.gateway@ == seq![192u8, 168u8, 27u8, 1u8],
        config.seed == le_value(random@),
{
    EthernetConfig {
        ipv4: StaticConfigV4 {
            address: [192, 168, 27, 2],
            prefix_len: 24,
            gateway: [192, 168, 27, 1],
        },
        seed: random_seed(random),
    }
}

/// An IPv6 address and a port.
#[derive(Clone, Copy, Debug, PartialEq, Eq)]
pub struct Endpoint {
    pub address: [u8; 16],
    pub port: u16,
}

/// Returns the endpoint of a node on the radio link.
pub fn endpoint(address: [u8; 16]) -> (endpoint: Endpoint)
    ensures
        endpoint.address == address,
        endpoint.port == IEEE802154_UDP_PORT,
{
    Endpoint { address, port: IEEE802154_UDP_PORT }
}

/// Returns the endpoint of the server, to which the heartbeats are sent.
pub fn server_endpoint() -> (endpoint: Endpoint)
    ensures
        endpoint.address@ == link_local_octets(IEEE802154_SERVER_MAC_ADDR@),
        endpoint.port == IEEE802154_UDP_PORT,
{
    endpoint(link_local_address(&IEEE802154_SERVER_MAC_ADDR))
}

/// The link-local address of a node consists of the prefix and of its extended address, of which only the
/// universal/local bit differs.
pub proof fn law_link_local_parts(mac_addr: Seq<u8>)
    requires
        mac_addr.len() == 8,
    ensures
        link_local_octets(mac_addr).len() == 16,
        link_local_octets(mac_addr)[0] == 0xfe,
        link_local_octets(mac_addr)[1] == 0x80,
        forall|i: int| 2 <= i < 8 ==> link_local_octets(mac_addr)[i] == 0,
        link_local_octets(mac_addr)[8] == mac_addr[0] ^ 2u8,
        forall|i: int| 9 <= i < 16 ==> link_local_octets(mac_addr)[i] == mac_addr[i - 8],
{
}

/// The random octets are the digits of the seed to the base 256, the least significant one first, so that each
/// of them takes effect.
pub proof fn law_seed_digits(bytes: Seq<u8>)
    requires
        bytes.len() == 8,
    ensures
        0 <= le_value(bytes) <= u64::MAX,
        le_value(bytes) % 0x100 == bytes[0],
        le_value(bytes) / 0x100 % 0x100 == bytes[1],
        le_value(bytes) / 0x1_0000 % 0x100 == bytes[2],
        le_value(bytes) / 0x100_0000 % 0x100 == bytes[3],
        le_value(bytes) / 0x1_0000_0000 % 0x100 == bytes[4],
        le_value(bytes) / 0x100_0000_0000 % 0x100 == bytes[5],
        le_value(bytes) / 0x1_0000_0000_0000 % 0x100 == bytes[6],
        le_value(bytes) / 0x100_0000_0000_0000 == bytes[7],
{
    let b = bytes;
    let r7: int = b[7] as int;
    let r6 = b[6] + r7 * 0x100;
    let r5 = b[5] + r6 * 0x100;
    let r4 = b[4] + r5 * 0x100;
    let r3 = b[3] + r4 * 0x100;
    let r2 = b[2] + r3 * 0x100;
    let r1 = b[1] + r2 * 0x100;
    let l1: int = b[0] as int;
    let l2 = l1 + b[1] * 0x100;
    let l3 = l2 + b[2] * 0x1_0000;
    let l4 = l3 + b[3] * 0x100_0000;
    let l5 = l4 + b[4] * 0x1_0000_0000;
    let l6 = l5 + b[5] * 0x100_0000_0000;
    let l7 = l6 + b[6] * 0x1_0000_0000_0000;
    let v = le_value(b);
    lemma_digit(v, 1, b[0], 0, r1);
    lemma_digit(v, 0x100, b[1], l1, r2);
    lemma_digit(v, 0x1_0000, b[2], l2, r3);
    lemma_digit(v, 0x100_0000, b[3], l3, r4);
    lemma_digit(v, 0x1_0000_0000, b[4], l4, r5);
    lemma_digit(v, 0x100_0000_0000, b[5], l5, r6);
    lemma_digit(v, 0x1_0000_0000_0000, b[6], l6, r7);
    lemma_digit(v, 0x100_0000_0000_0000, b[7], l7, 0);
}

/// The digit of a value at the place of the given weight, with what is below and above of it.
proof fn lemma_digit(value: int, weight: int, digit: u8, low: int, high: int)
    requires
        0 <= low < weight,
        0 <= high,
        value == (digit + high * 0x100) * weight + low,
    ensures
        value / weight == digit + high * 0x100,
        value / weight % 0x100 == digit,
{
    lemma_fundamental_div_mod_converse(value, weight, digit + high * 0x100, low);
}

} // verus!
