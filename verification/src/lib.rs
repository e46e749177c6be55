//! Service announcement and discovery on the local network over mDNS: the
//! verified core.
//!
//! The crate holds every decision of the library: which local addresses a
//! service is registered on, what its record says, how a browse session
//! turns resolution events into endpoint descriptors, and how failures are
//! merged. The multicast daemon itself is driven from outside: a caller
//! performs the [`mdns::session::Action`] a session asks for and hands back
//! the [`mdns::session::Event`] that came of it.

pub mod error;
pub mod mdns;
pub mod order;
pub mod outside;
pub mod prelude;
pub mod text;
pub mod utility;
