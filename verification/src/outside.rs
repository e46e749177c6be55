//! The types of other crates that values of this library carry.

use vstd::prelude::*;

verus! {

/// `mdns_sd::Error`, the failure type of the mDNS daemon. Carried through
/// unopened.
#[verifier::external_type_specification]
#[verifier::external_body]
pub struct ExMdnsError(mdns_sd::Error);

/// `std::io::Error`, what a failed query of the operating system leaves.
/// Carried through unopened.
#[verifier::external_type_specification]
#[verifier::external_body]
pub struct ExIoError(std::io::Error);

/// `mdns_sd::ServiceDaemon`, the handle of a running mDNS daemon. A
/// published descriptor owns one; the library never looks inside.
#[verifier::external_type_specification]
#[verifier::external_body]
pub struct ExServiceDaemon(mdns_sd::ServiceDaemon);

/// `mdns_sd::ServiceInfo`, a service record in the form that the daemon
/// registers. Made by the daemon's crate from plain values and handed on
/// unopened.
#[verifier::external_type_specification]
#[verifier::external_body]
pub struct ExServiceInfo(mdns_sd::ServiceInfo);

} // verus!
