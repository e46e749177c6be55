//! The announcer's side of the library: a descriptor that is announced
//! under a role given at that moment, and a search for one named service
//! in one role.

use crate::error::DiscoverError;
use crate::mdns::discovery::Discover;
use crate::mdns::find::Find;
use crate::mdns::publication::{after_publish, after_stop, keep_handle, release_handle};
use crate::mdns::record::{
    compose_registration,
    lemma_transport_fits,
    registration_of,
    utf8_len,
    Registration,
    RegistrationView,
    ROLE_MAX,
};
use crate::mdns::session::{Search, SearchView};
use crate::utility::IpAddress;
use mdns_sd::{ServiceDaemon, ServiceInfo};
use vstd::prelude::*;

verus! {

/// A service on the local network, by the one who announces it.
pub struct Announce {
    /// The role of the announcer; in a search result, the role that the
    /// instance advertises.
    pub announcer: String,
    /// The service name.
    pub name: String,
    /// The instance identifier.
    pub identifier: String,
    /// The endpoint of the instance; empty in a descriptor that did not
    /// come from a search.
    pub address: String,
    /// The port of the service.
    pub port: u16,
    /// Whether the service runs over UDP rather than TCP.
    pub udp: bool,
    /// Whether the service is reached over HTTPS.
    pub https: bool,
    /// The daemon that announces the service while it is announced.
    pub mdns_daemon: Option<ServiceDaemon>,
}

/// An announcer's descriptor, as plain values.
pub struct AnnounceView {
    pub announcer: Seq<char>,
    pub name: Seq<char>,
    pub identifier: Seq<char>,
    pub address: Seq<char>,
    pub port: u16,
    pub udp: bool,
    pub https: bool,
    pub mdns_daemon: Option<ServiceDaemon>,
}

impl View for Announce {
    type V = AnnounceView;

    open spec fn view(&self) -> AnnounceView {
        AnnounceView {
            announcer: self.announcer@,
            name: self.name@,
            identifier: self.identifier@,
            address: self.address@,
            port: self.port,
            udp: self.udp,
            https: self.https,
            mdns_daemon: self.mdns_daemon,
        }
    }
}

impl AnnounceView {
    /// The descriptor with `slot` for its handle.
    pub open spec fn with_handle(self, slot: Option<ServiceDaemon>) -> AnnounceView {
        AnnounceView { mdns_daemon: slot, ..self }
    }

    /// The record that announcing this descriptor in `role` on `addresses`
    /// registers.
    pub open spec fn registration(self, role: Seq<char>, addresses: Seq<IpAddress>) -> RegistrationView {
        registration_of(role, self.name, self.identifier, self.port, self.udp, self.https, addresses)
    }
}

/// The announcer's descriptor that stands for a search result: the same
/// fields, with the role of the instance as the announcer, and no daemon.
pub open spec fn announced(found: crate::mdns::discovery::DiscoverView) -> AnnounceView {
    AnnounceView {
        announcer: found.role,
        name: found.name,
        identifier: found.identifier,
        address: found.address,
        port: found.port,
        udp: found.udp,
        https: found.https,
        mdns_daemon: None,
    }
}

impl Announce {
    /// A descriptor to announce: inactive, and without an address.
    pub fn new(announcer: &str, name: &str, identifier: &str, port: u16, udp: bool, https: bool) -> (descriptor:
        Self)
        ensures
            descriptor@ == (AnnounceView {
                announcer: announcer@,
                name: name@,
                identifier: identifier@,
                address: Seq::empty(),
                port,
                udp,
                https,
                mdns_daemon: None,
            }),
    {
        Self {
            announcer: String::from_str(announcer),
            name: String::from_str(name),
            identifier: String::from_str(identifier),
            address: String::new(),
            port,
            udp,
            https,
            mdns_daemon: None,
        }
    }

    /// Starts a search for the instances of the service `find.name` that
    /// play the role `find.role_to_find`.
    pub fn search(find: Find) -> (search: Search)
        ensures
            search@ == SearchView::start(find.as_browse()),
            search@.wf(),
    {
        Search::new(find.into_browse())
    }

    /// The outcome of a search, in the announcer's descriptors.
    pub fn found(list: &Vec<Discover>) -> (found: Vec<Announce>)
        ensures
            found.len() == list.len(),
            forall|i: int| 0 <= i < list.len() ==> (#[trigger] found[i])@ == announced(list[i]@),
    {
        let mut found: Vec<Announce> = Vec::new();
        let mut i: usize = 0;
        while i < list.len()
            invariant
                i <= list.len(),
                found.len() == i,
                forall|k: int| 0 <= k < i ==> (#[trigger] found[k])@ == announced(list[k]@),
            decreases list.len() - i,
        {
            let from = &list[i];
            found.push(
                Announce {
                    announcer: from.role.clone(),
                    name: from.name.clone(),
                    identifier: from.identifier.clone(),
                    address: from.address.clone(),
                    port: from.port,
                    udp: from.udp,
                    https: from.https,
                    mdns_daemon: None,
                },
            );
            i = i + 1;
        }
        found
    }

    /// The endpoint of the instance.
    pub fn address(&self) -> (address: &str)
        ensures
            address@ == self@.address,
    {
        self.address.as_str()
    }

    /// The record to register for this descriptor in `role` on
    /// `addresses`, the usable addresses of this machine.
    pub fn registration(&self, role: &str, addresses: Vec<IpAddress>) -> (record: Registration)
        ensures
            record@ == self@.registration(role@, addresses@),
    {
        compose_registration(
            role,
            self.name.as_str(),
            self.identifier.as_str(),
            self.port,
            self.udp,
            self.https,
            addresses,
        )
    }

    /// Makes the service record to register for this descriptor in `role`
    /// on `addresses`: the record of its registration. The record is made
    /// exactly when `role` has at most `ROLE_MAX` bytes; a failure is the
    /// daemon crate's.
    pub fn service_info(&self, role: &str, addresses: Vec<IpAddress>) -> (info: Result<
        ServiceInfo,
        DiscoverError,
    >)
        ensures
            info matches Ok(made) ==> made == self@.registration(role@, addresses@).record(),
            info is Ok <==> utf8_len(role@) <= ROLE_MAX,
            info matches Err(failure) ==> failure is Mdns,
    {
        proof {
            lemma_transport_fits(self.https);
        }
        self.registration(role, addresses).service_info()
    }

    /// Ends an attempt to announce the descriptor. `daemon` is the daemon
    /// that was started for it, `registered` how the registration of its
    /// record on that daemon ended. After a success the descriptor owns
    /// `daemon`; after a failure it is as before.
    pub fn announce(&mut self, daemon: ServiceDaemon, registered: Result<(), mdns_sd::Error>) -> (done:
        Result<(), DiscoverError>)
        ensures
            final(self)@ == old(self)@.with_handle(
                after_publish(old(self)@.mdns_daemon, daemon, registered).0,
            ),
            done == after_publish(old(self)@.mdns_daemon, daemon, registered).1,
    {
        keep_handle(&mut self.mdns_daemon, daemon, registered)
    }

    /// Ends an attempt to stop the descriptor. Where the descriptor is
    /// active, `shutdown` is how the shutdown of its daemon ended: after a
    /// success the descriptor is inactive, after a failure it keeps the
    /// daemon. An inactive descriptor stays as it is and the attempt
    /// succeeds.
    pub fn stop(&mut self, shutdown: Result<(), mdns_sd::Error>) -> (done: Result<(), DiscoverError>)
        ensures
            final(self)@ == old(self)@.with_handle(after_stop(old(self)@.mdns_daemon, shutdown).0),
            done == after_stop(old(self)@.mdns_daemon, shutdown).1,
    {
        release_handle(&mut self.mdns_daemon, shutdown)
    }
}

} // verus!
