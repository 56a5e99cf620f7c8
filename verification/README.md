# IEEE 802.15.4 radio sample

A radio link for IPv6 over IEEE 802.15.4 on the nRF52840, with two applications on top: a client that
sends heartbeats, and a server that forwards what it receives to an Ethernet connection over USB.

- `src/` is the verified library. `ieee802154::channel` holds the packet queues, `ieee802154::runner` the
  two ends of the link (the runners for the radio, the device for the network stack),
  `ieee802154::scheduler` the decisions of the radio scheduler. `ieee802154::link_laws` states what holds
  of the link after any calls on its ends, `ieee802154::laws` what holds of the scheduler whatever happens. `net`, `heartbeat` and `relay` hold what the applications compute.
- `app/` is the firmware: peripherals, network stacks, tasks and the loop that performs what the scheduler
  asks for.
- `tests/` exercises the library on the host.

The library does not share anything by itself. The ends of the link are made from mutable borrows of its
parts, for as long as a call takes, and the firmware keeps those parts in cells. A radio is therefore given
copies of packets, and hands copies back; the scheduler keeps track of the buffers that they stand for.
