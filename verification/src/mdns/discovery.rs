//! The descriptor of a service: what a publisher announces, and what a
//! search returns for each address of each instance it found.

use crate::error::DiscoverError;
use crate::mdns::find::Browse;
use crate::mdns::publication::{after_publish, after_stop, keep_handle, release_handle};
use crate::mdns::record::{
    compose_registration,
    lemma_transport_fits,
    registration_of,
    utf8_len,
    Registration,
    ROLE_MAX,
};
use crate::mdns::session::{Search, SearchView};
use crate::utility::IpAddress;
use mdns_sd::{ServiceDaemon, ServiceInfo};
use vstd::prelude::*;

verus! {

/// A service on the local network.
///
/// One that a caller makes with `new` has an empty address and is
/// inactive; publishing it makes it the owner of the daemon that announces
/// it. One that a search returns has the address of the instance and never
/// owns a daemon.
pub struct Discover {
    /// The role that the instance plays.
    pub role: String,
    /// The service name.
    pub name: String,
    /// The instance identifier.
    pub identifier: String,
    /// The endpoint of the instance; empty in a descriptor that did not
    /// come from a search.
    pub address: String,
    /// The port of the service.
    pub port: u16,
    /// Whether the service runs over UDP rather than TCP.
    pub udp: bool,
    /// Whether the service is reached over HTTPS.
    pub https: bool,
    /// The daemon that announces the service while it is published.
    pub mdns_daemon: Option<ServiceDaemon>,
}

/// A descriptor, as plain values.
pub struct DiscoverView {
    pub role: Seq<char>,
    pub name: Seq<char>,
    pub identifier: Seq<char>,
    pub address: Seq<char>,
    pub port: u16,
    pub udp: bool,
    pub https: bool,
    pub mdns_daemon: Option<ServiceDaemon>,
}

impl View for Discover {
    type V = DiscoverView;

    open spec fn view(&self) -> DiscoverView {
        DiscoverView {
            role: self.role@,
            name: self.name@,
            identifier: self.identifier@,
            address: self.address@,
            port: self.port,
            udp: self.udp,
            https: self.https,
            mdns_daemon: self.mdns_daemon,
        }
    }
}

impl DiscoverView {
    /// The descriptor with `slot` for its handle.
    pub open spec fn with_handle(self, slot: Option<ServiceDaemon>) -> DiscoverView {
        DiscoverView { mdns_daemon: slot, ..self }
    }

    /// The record that publishing this descriptor on `addresses` registers.
    pub open spec fn registration(self, addresses: Seq<IpAddress>) -> crate::mdns::record::RegistrationView {
        registration_of(
            self.role,
            self.name,
            self.identifier,
            self.port,
            self.udp,
            self.https,
            addresses,
        )
    }
}

/// What the descriptors of `list` say, in their order.
pub open spec fn views(list: Seq<Discover>) -> Seq<DiscoverView> {
    Seq::new(list.len(), |i: int| list[i]@)
}

impl Discover {
    /// A descriptor to publish: inactive, and without an address.
    pub fn new(role: &str, name: &str, identifier: &str, port: u16, udp: bool, https: bool) -> (descriptor:
        Self)
        ensures
            descriptor@ == (DiscoverView {
                role: role@,
                name: name@,
                identifier: identifier@,
                address: Seq::empty(),
                port,
                udp,
                https,
                mdns_daemon: None,
            }),
    {
        Self {
            role: String::from_str(role),
            name: String::from_str(name),
            identifier: String::from_str(identifier),
            address: String::new(),
            port,
            udp,
            https,
            mdns_daemon: None,
        }
    }

    /// Starts a search for the services that `browse` asks for. Its
    /// outcome is a list of descriptors, one for each address of each
    /// instance that the search accepted.
    pub fn search(browse: Browse) -> (search: Search)
        ensures
            search@ == SearchView::start(browse@),
            search@.wf(),
    {
        Search::new(browse)
    }

    /// The endpoint of the instance.
    pub fn address(&self) -> (address: &str)
        ensures
            address@ == self@.address,
    {
        self.address.as_str()
    }

    /// Whether the descriptor is published: it owns a daemon.
    pub fn is_active(&self) -> (active: bool)
        ensures
            active == (self@.mdns_daemon is Some),
    {
        self.mdns_daemon.is_some()
    }

    /// The record to register for this descriptor on `addresses`, the
    /// usable addresses of this machine.
    pub fn registration(&self, addresses: Vec<IpAddress>) -> (record: Registration)
        ensures
            record@ == self@.registration(addresses@),
    {
        compose_registration(
            self.role.as_str(),
            self.name.as_str(),
            self.identifier.as_str(),
            self.port,
            self.udp,
            self.https,
            addresses,
        )
    }

    /// Makes the service record to register for this descriptor on
    /// `addresses`: the record of its registration. The record is made
    /// exactly when the role has at most `ROLE_MAX` bytes; a failure is the
    /// daemon crate's.
    pub fn service_info(&self, addresses: Vec<IpAddress>) -> (info: Result<ServiceInfo, DiscoverError>)
        ensures
            info matches Ok(made) ==> made == self@.registration(addresses@).record(),
            info is Ok <==> utf8_len(self@.role) <= ROLE_MAX,
            info matches Err(failure) ==> failure is Mdns,
    {
        proof {
            lemma_transport_fits(self.https);
        }
        self.registration(addresses).service_info()
    }

    /// Ends an attempt to publish the descriptor. `daemon` is the daemon
    /// that was started for it, `registered` how the registration of its
    /// record on that daemon ended. After a success the descriptor owns
    /// `daemon`; after a failure it is as before.
    pub fn publish(&mut self, daemon: ServiceDaemon, registered: Result<(), mdns_sd::Error>) -> (done:
        Result<(), DiscoverError>)
        ensures
            final(self)@ == old(self)@.with_handle(
                after_publish(old(self)@.mdns_daemon, daemon, registered).0,
            ),
            done == after_publish(old(self)@.mdns_daemon, daemon, registered).1,
    {
        keep_handle(&mut self.mdns_daemon, daemon, registered)
    }

    /// Ends an attempt to stop the descriptor. Where the descriptor is
    /// active, `shutdown` is how the shutdown of its daemon ended: after a
    /// success the descriptor is inactive, after a failure it keeps the
    /// daemon. An inactive descriptor stays as it is and the attempt
    /// succeeds.
    pub fn stop(&mut self, shutdown: Result<(), mdns_sd::Error>) -> (done: Result<(), DiscoverError>)
        ensures
            final(self)@ == old(self)@.with_handle(after_stop(old(self)@.mdns_daemon, shutdown).0),
            done == after_stop(old(self)@.mdns_daemon, shutdown).1,
    {
        release_handle(&mut self.mdns_daemon, shutdown)
    }
}

} // verus!
