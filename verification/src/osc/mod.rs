//! The OSC link: what the interface knows of the receiving and sending sides.

pub mod receiver;
pub mod sender;
