//! A single-shot IPv4 echo probe: the message codec and the rules that read a reply.
//!
//! The crate builds a checksummed echo request, finds the control message inside
//! a datagram as a raw socket delivers it, and names what the responder said.
//! Sockets, argument handling and printing are left to the caller.

pub mod checksum;
pub mod classify;
pub mod error;
pub mod ipv4;
pub mod packet;
pub mod probe;
pub mod timer;
