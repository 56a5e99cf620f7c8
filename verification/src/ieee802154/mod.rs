//! IEEE 802.15.4 link layer.
pub mod packet;
pub mod waker;
pub mod channel;
pub mod runner;
pub mod scheduler;
pub mod laws;
pub mod decision_laws;
pub mod link_laws;
