//! A relay for Open Sound Control datagrams.
//!
//! Receivers register themselves with two reserved control addresses; every
//! other message or bundle is fanned out to the receivers registered at that
//! moment. The crate holds the decisions of the relay: the registry of
//! destinations, the control protocol and the fan-out. Sockets, files and the
//! console belong to the program around it.

pub mod endpoint;
pub mod registry;
pub mod codec;
pub mod control;
pub mod forward;
pub mod broadcaster;
pub mod init;
