//! Control logic of a node that bridges a serial line to a publish/subscribe
//! broker: credential checks and the connection sequence, the heartbeat, the
//! event drain and the serial echo loop, each as a verified decision function.
//! The device drivers that carry out the decisions are outside this crate.

pub mod config;
pub mod control;
pub mod messaging;
pub mod serial;
pub mod wifi;
