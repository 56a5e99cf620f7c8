//! The relay that passes what the server receives from the radio link on to an Ethernet connection.
use vstd::prelude::*;

verus! {

/// What the relay waits for.
#[derive(Clone, Copy, Debug, PartialEq, Eq, Structural)]
pub enum Relay {
    /// A connection.
    Accepting,
    /// A packet from the radio link.
    Receiving,
    /// The connection to take a packet of this length.
    Writing(usize),
}

/// What the relay has waited for.
#[derive(Clone, Copy, Debug, PartialEq, Eq, Structural)]
pub enum RelayEvent {
    /// Whether a connection was accepted.
    Accepted(bool),
    /// The length of the packet that was received, unless this failed.
    Received(Option<usize>),
    /// Whether the packet was written.
    Written(bool),
}

impl Relay {
    /// The event is one that the relay waits for.
    pub open spec fn awaits(self, event: RelayEvent) -> bool {
        match self {
            Relay::Accepting => event is Accepted,
            Relay::Receiving => event is Received,
            Relay::Writing(_) => event is Written,
        }
    }

    /// What the relay waits for after an event. It only gives a connection up when it cannot be written
    /// to; a packet that cannot be received is skipped.
    pub open spec fn next(self, event: RelayEvent) -> Relay {
        match event {
            RelayEvent::Accepted(true) => Relay::Receiving,
            RelayEvent::Accepted(false) => Relay::Accepting,
            RelayEvent::Received(Some(len)) => Relay::Writing(len),
            RelayEvent::Received(None) => Relay::Receiving,
            RelayEvent::Written(true) => Relay::Receiving,
            RelayEvent::Written(false) => Relay::Accepting,
        }
    }

    /// The relay starts without a connection.
    pub fn new() -> (relay: Self)
        ensures
            relay == Relay::Accepting,
    {
        Relay::Accepting
    }

    /// Goes on after an event.
    pub fn step(self, event: RelayEvent) -> (relay: Self)
        requires
            self.awaits(event),
        ensures
            relay == self.next(event),
    {
        match event {
            RelayEvent::Accepted(accepted) => if accepted {
                Relay::Receiving
            } else {
                Relay::Accepting
            },
            RelayEvent::Received(received) => match received {
                Some(len) => Relay::Writing(len),
                None => Relay::Receiving,
            },
            RelayEvent::Written(written) => if written {
                Relay::Receiving
            } else {
                Relay::Accepting
            },
        }
    }

    /// Returns what has to be written: as many bytes of the buffer as were received.
    pub fn outgoing<'b>(&self, pkt_buf: &'b [u8]) -> (bytes: &'b [u8])
        requires
            self matches Relay::Writing(len) && len <= pkt_buf@.len(),
        ensures
            self matches Relay::Writing(len) && bytes@ == pkt_buf@.take(len as int),
    {
        let len: usize = match *self {
            Relay::Writing(len) => len,
            _ => 0,
        };
        let (bytes, _) = pkt_buf.split_at(len);
        bytes
    }
}

/// The relay is only without a connection after it has failed to accept one or to write to one.
pub proof fn law_connection_kept(relay: Relay, event: RelayEvent)
    requires
        relay.awaits(event),
    ensures
        relay.next(event) is Accepting <==> (event == RelayEvent::Accepted(false) || event
            == RelayEvent::Written(false)),
{
}

/// After a packet has been received, as many bytes are to be written as were received, whatever its length.
/// Nothing is to be written otherwise.
pub proof fn law_whole_packet(relay: Relay, event: RelayEvent)
    requires
        relay.awaits(event),
    ensures
        event matches RelayEvent::Received(Some(len)) ==> relay.next(event) == Relay::Writing(len),
        relay.next(event) matches Relay::Writing(len) ==> event == RelayEvent::Received(Some(len)),
{
}

/// A connection that has been accepted, and one that has taken a packet, is kept for the next packet, and so is
/// one for which no packet could be received.
pub proof fn law_next_packet(relay: Relay, event: RelayEvent)
    requires
        relay.awaits(event),
    ensures
        relay.next(event) is Receiving <==> (event == RelayEvent::Accepted(true) || event
            == RelayEvent::Written(true) || event == RelayEvent::Received(None)),
{
}

/// The relay accepts, receives and writes in turn: it waits for exactly one kind of event at a time.
pub proof fn law_turns(relay: Relay, accepted: bool, received: Option<usize>, written: bool)
    ensures
        relay.awaits(RelayEvent::Accepted(accepted)) <==> (relay is Accepting),
        relay.awaits(RelayEvent::Received(received)) <==> (relay is Receiving),
        relay.awaits(RelayEvent::Written(written)) <==> (relay is Writing),
{
}

impl Relay {
    /// What the relay waits for after all of the events.
    pub open spec fn after_events(self, events: Seq<RelayEvent>) -> Relay
        decreases events.len(),
    {
        if events.len() == 0 {
            self
        } else {
            self.after_events(events.drop_last()).next(events.last())
        }
    }

    /// The events are those that the relay waits for, one after the other.
    pub open spec fn awaits_events(self, events: Seq<RelayEvent>) -> bool
        decreases events.len(),
    {
        events.len() > 0 ==> {
            &&& self.awaits_events(events.drop_last())
            &&& self.after_events(events.drop_last()).awaits(events.last())
        }
    }

    /// The lengths of what the relay has written to a connection, or tried to.
    pub open spec fn written(self, events: Seq<RelayEvent>) -> Seq<usize>
        decreases events.len(),
    {
        if events.len() == 0 {
            seq![]
        } else {
            match (self.after_events(events.drop_last()), events.last()) {
                (Relay::Writing(len), RelayEvent::Written(_)) => self.written(
                    events.drop_last(),
                ).push(len),
                _ => self.written(events.drop_last()),
            }
        }
    }
}

/// The lengths of the packets that have been received.
pub open spec fn received(events: Seq<RelayEvent>) -> Seq<usize>
    decreases events.len(),
{
    if events.len() == 0 {
        seq![]
    } else {
        match events.last() {
            RelayEvent::Received(Some(len)) => received(events.drop_last()).push(len),
            _ => received(events.drop_last()),
        }
    }
}

/// Every packet that is received is written, once, in order and at its full length, except that the last one
/// may still have to be written.
pub proof fn law_relayed(events: Seq<RelayEvent>)
    requires
        Relay::Accepting.awaits_events(events),
    ensures
        received(events) == (match Relay::Accepting.after_events(events) {
            Relay::Writing(len) => Relay::Accepting.written(events).push(len),
            _ => Relay::Accepting.written(events),
        }),
    decreases events.len(),
{
    if events.len() > 0 {
        law_relayed(events.drop_last());
    }
}

} // verus!
