//! The heartbeats that the client sends to the server.
use vstd::prelude::*;

verus! {

/// The number that four octets stand for, the most significant octet first.
pub open spec fn be_value(bytes: Seq<u8>) -> int {
    bytes[0] * 0x100_0000 + bytes[1] * 0x1_0000 + bytes[2] * 0x100 + bytes[3]
}

/// Counts heartbeats.
pub struct Heartbeat {
    payload: u32,
}

impl Heartbeat {
    /// The number of heartbeats so far, modulo 2^32.
    pub closed spec fn count(&self) -> int {
        self.payload as int
    }

    /// There has been no heartbeat yet.
    pub fn new() -> (heartbeat: Self)
        ensures
            heartbeat.count() == 0,
    {
        Heartbeat { payload: 0 }
    }

    /// Returns the number of heartbeats so far.
    pub fn payload(&self) -> (payload: u32)
        ensures
            payload == self.count(),
    {
        self.payload
    }

    /// Counts one more heartbeat and returns its payload: the new count in network byte order.
    pub fn beat(&mut self) -> (bytes: [u8; 4])
        ensures
            final(self).count() == next_count(old(self).count()),
            be_value(bytes@) == final(self).count(),
    {
        self.payload = self.payload.wrapping_add(1);
        let n = self.payload;
        [
            (n / 0x100_0000) as u8,
            (n / 0x1_0000 % 0x100) as u8,
            (n / 0x100 % 0x100) as u8,
            (n % 0x100) as u8,
        ]
    }
}

/// The count after one more heartbeat: it starts over at zero.
pub open spec fn next_count(count: int) -> int {
    if count == u32::MAX {
        0
    } else {
        count + 1
    }
}

/// The count after `n` more heartbeats.
pub open spec fn count_after(count: int, n: nat) -> int
    decreases n,
{
    if n == 0 {
        count
    } else {
        next_count(count_after(count, (n - 1) as nat))
    }
}

/// After `n` heartbeats the payload is `n`, modulo 2^32.
pub proof fn law_count(n: nat)
    ensures
        count_after(0, n) == n % 0x1_0000_0000,
    decreases n,
{
    if n > 0 {
        law_count((n - 1) as nat);
    }
}

/// Four octets are determined by the number that they stand for: the payload tells the count.
pub proof fn law_payload_injective(a: Seq<u8>, b: Seq<u8>)
    requires
        a.len() == 4,
        b.len() == 4,
        be_value(a) == be_value(b),
    ensures
        a == b,
{
    assert(a =~= b);
}

/// The octets of a payload are the digits of its count to the base 256, the most significant one first.
pub proof fn law_payload_digits(bytes: Seq<u8>)
    requires
        bytes.len() == 4,
    ensures
        0 <= be_value(bytes) <= u32::MAX,
        be_value(bytes) / 0x100_0000 == bytes[0],
        be_value(bytes) / 0x1_0000 % 0x100 == bytes[1],
        be_value(bytes) / 0x100 % 0x100 == bytes[2],
        be_value(bytes) % 0x100 == bytes[3],
{
}

/// Every heartbeat counts one more than the one before, modulo 2^32.
pub proof fn law_next_count(count: int)
    requires
        0 <= count <= u32::MAX,
    ensures
        next_count(count) == (count + 1) % 0x1_0000_0000,
{
}

} // verus!
