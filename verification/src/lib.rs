//! Core of a network-reachability probe: the ICMP echo packet codec
//! (wire layout and internet checksum) and the session logic that
//! correlates one echo reply with the request that elicited it.
//!
//! Transport concerns (raw sockets, privileges, blocking receive) live
//! outside this crate; everything here is pure computation over bytes
//! and plain values.

pub mod codec;
pub mod session;
