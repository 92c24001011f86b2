//! An ICMP echo client as a library.
//!
//! * [`checksum`] and [`packet`] build and read echo datagrams.
//! * [`stats`] accumulates the round-trip times of a session.
//! * [`transport`] classifies socket failures and cuts raw receives into
//!   datagrams.
//! * [`signal`] holds the two flags that the timer and the stop signal raise.
//! * [`timer`] computes the schedule of the interval timer.
//! * [`engine`] is the session itself, a state machine that decides what to do
//!   next while its caller owns the socket, the timer and the clock;
//!   [`engine_laws`] states what holds of every session.
//! * [`report`] renders the lines a session prints.
//! * [`netlink`] is the handle of a netlink socket.

pub mod checksum;
pub mod engine;
pub mod engine_laws;
pub mod netlink;
pub mod packet;
pub mod report;
pub mod signal;
pub mod stats;
pub mod timer;
pub mod transport;
