//! Core of an SMSC (Short Message Service Center) speaking SMPP v3.4.
//!
//! The crate holds the protocol logic of the server: length-prefixed
//! framing, per-connection PDU dispatch, bind-state tracking, the routing
//! hub that maps outstanding messages back to the connection that
//! submitted them, and the admission counter that caps open sockets.
//! Socket I/O, task spawning and the PDU body codec stay outside; the
//! codec is reached through a small trusted seam in `codec`.

pub mod admission;
pub mod codec;
pub mod config;
pub mod connection;
pub mod errors;
pub mod frame;
pub mod laws;
pub mod message_unique_key;
pub mod pdu;
pub mod processor;
pub mod smsc;
