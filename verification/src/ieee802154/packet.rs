//! Radio packets.
use vstd::prelude::*;

verus! {

/// A radio packet: a payload buffer of fixed size, of which the leading `len` bytes are in use.
#[derive(Clone, Copy, Debug, PartialEq, Eq)]
pub struct Pkt {
    buf: [u8; 125],
    len: usize,
}

impl Pkt {
    /// The number of payload bytes that a packet can hold.
    pub const CAPACITY: usize = 125;

    #[verifier::type_invariant]
    spec fn inv(self) -> bool {
        self.len <= Pkt::CAPACITY
    }

    /// The whole payload buffer, whether its bytes are in use or not.
    pub closed spec fn buffer(self) -> Seq<u8> {
        self.buf@
    }

    /// The number of payload bytes in use.
    pub closed spec fn used(self) -> nat {
        self.len as nat
    }

    /// The payload: the bytes of the buffer that are in use.
    pub open spec fn payload_bytes(self) -> Seq<u8> {
        self.buffer().take(self.used() as int)
    }

    /// The packet is empty and its buffer is zeroed.
    pub open spec fn is_blank(self) -> bool {
        &&& self.used() == 0
        &&& self.buffer() == Seq::new(Pkt::CAPACITY as nat, |i: int| 0u8)
    }

    /// The payload buffer of every packet has the same size.
    pub proof fn lemma_buffer_len(pkt: Pkt)
        ensures
            pkt.buffer().len() == Pkt::CAPACITY,
    {
    }

    /// Creates an empty packet with a zeroed buffer.
    pub fn new() -> (pkt: Self)
        ensures
            pkt.is_blank(),
    {
        let pkt = Pkt { buf: [0u8; 125], len: 0 };
        assert(pkt.buffer() =~= Seq::new(Pkt::CAPACITY as nat, |i: int| 0u8));
        pkt
    }

    /// Returns the number of payload bytes in use.
    pub fn len(&self) -> (len: usize)
        ensures
            len == self.used(),
            len <= Pkt::CAPACITY,
    {
        proof {
            use_type_invariant(self);
        }
        self.len
    }

    /// Returns the payload.
    pub fn payload(&self) -> (payload: &[u8])
        ensures
            payload@ == self.payload_bytes(),
            payload@.len() == self.used(),
    {
        proof {
            use_type_invariant(self);
        }
        let (payload, _) = self.buf.as_slice().split_at(self.len);
        payload
    }

    /// Gives access to the whole payload buffer. The number of bytes in use stays as it is.
    pub fn payload_buffer(&mut self) -> (buf: &mut [u8])
        ensures
            buf@ == old(self).buffer(),
            buf@.len() == Pkt::CAPACITY,
            final(self).buffer() == final(buf)@,
            final(self).used() == old(self).used(),
    {
        proof {
            use_type_invariant(&*self);
        }
        &mut self.buf
    }

    /// Sets the number of payload bytes in use. The buffer stays as it is.
    pub fn truncate(&mut self, len: usize)
        requires
            len <= Pkt::CAPACITY,
        ensures
            final(self).used() == len,
            final(self).buffer() == old(self).buffer(),
    {
        self.len = len;
    }
}

/// The payload is the leading part of the buffer, as long as the packet says. A blank packet has none, and
/// nothing is left over in its buffer.
pub proof fn law_payload(pkt: Pkt)
    requires
        pkt.used() <= Pkt::CAPACITY,
    ensures
        pkt.payload_bytes().len() == pkt.used(),
        forall|i: int| 0 <= i < pkt.used() ==> pkt.payload_bytes()[i] == pkt.buffer()[i],
        pkt.is_blank() ==> pkt.used() == 0 && pkt.buffer().len() == 125,
        pkt.is_blank() ==> forall|i: int| 0 <= i < 125 ==> pkt.buffer()[i] == 0,
{
    Pkt::lemma_buffer_len(pkt);
}

} // verus!
