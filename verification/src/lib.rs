//! A minimal link-layer responder.
//!
//! Given one raw Ethernet II frame, the library decides whether the frame
//! asks for an answer (an ARP request, or an ICMPv4 echo request carried in
//! an IPv4 datagram) and, if so, builds the bytes of the reply frame. Every
//! reply is a function of the one inbound frame and of the configured
//! hardware address; nothing is remembered between frames.

pub mod wire;
pub mod error;
pub mod arp;
pub mod ethernet;
mod trusted;
pub mod ip;
pub mod router;
