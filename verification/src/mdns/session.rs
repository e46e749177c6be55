//! A search, as a session that is driven from outside.
//!
//! A session never touches the network. It says what is to be done next
//! (an [`Action`]: start a browse, wait for the next event of the browse,
//! shut the daemon down) and is told what came of it (an [`Event`]). The
//! wait for an event is bounded by the idle timeout of the query and starts
//! anew with every event, so a browse ends after a silence, not at a
//! deadline. The service types of a search are browsed one after another.

use crate::error::DiscoverError;
use crate::mdns::discovery::{views, Discover, DiscoverView};
use crate::mdns::endpoint::{endpoint_text, format_endpoint};
use crate::mdns::find::{Browse, BrowseView};
use crate::mdns::record::{
    opt_text,
    service_type,
    service_type_text,
    Properties,
    PropertiesView,
};
use crate::order::{insert_text, strictly_sorted, texts, with_text};
use vstd::hash_set::StringHashSet;
use crate::text::{
    eq_ignore_ascii_case,
    same_ignoring_ascii_case,
    trim_trailing_dots,
    without_trailing_dots,
};
use vstd::prelude::*;

verus! {

/// An instance of a service that the network resolved.
pub struct ResolvedInstance {
    /// The fully-qualified name of the instance.
    pub fullname: String,
    /// The role and the transport that the instance advertises.
    pub properties: Properties,
    /// The addresses that the instance resolved to, each as it is written.
    pub addresses: Vec<String>,
    /// The port of the instance.
    pub port: u16,
}

/// A resolved instance, as plain values.
pub struct InstanceView {
    pub fullname: Seq<char>,
    pub properties: PropertiesView,
    pub addresses: Seq<Seq<char>>,
    pub port: u16,
}

impl View for ResolvedInstance {
    type V = InstanceView;

    open spec fn view(&self) -> InstanceView {
        InstanceView {
            fullname: self.fullname@,
            properties: self.properties@,
            addresses: texts(self.addresses@),
            port: self.port,
        }
    }
}

/// What came of the action that a session asked for.
pub enum Event {
    /// The browse was started.
    Browsing,
    /// The browse could not be started. The search is over, but for the
    /// shutdown of the daemon.
    BrowseFailed(mdns_sd::Error),
    /// The browse resolved an instance.
    Resolved(ResolvedInstance),
    /// The browse reported something other than a resolved instance.
    Other,
    /// The browse stayed silent for the idle timeout.
    Idle,
    /// The stream of the browse ended.
    Closed,
    /// The daemon was shut down.
    Stopped,
    /// The daemon could not be shut down.
    StopFailed(mdns_sd::Error),
}

/// An event, as plain values.
pub enum EventView {
    Browsing,
    BrowseFailed(mdns_sd::Error),
    Resolved(InstanceView),
    Other,
    Idle,
    Closed,
    Stopped,
    StopFailed(mdns_sd::Error),
}

impl View for Event {
    type V = EventView;

    open spec fn view(&self) -> EventView {
        match *self {
            Event::Browsing => EventView::Browsing,
            Event::BrowseFailed(cause) => EventView::BrowseFailed(cause),
            Event::Resolved(instance) => EventView::Resolved(instance@),
            Event::Other => EventView::Other,
            Event::Idle => EventView::Idle,
            Event::Closed => EventView::Closed,
            Event::Stopped => EventView::Stopped,
            Event::StopFailed(cause) => EventView::StopFailed(cause),
        }
    }
}

/// What a session asks its driver to do next.
pub enum Action {
    /// Start a browse of this service type, and report `Browsing` or
    /// `BrowseFailed`.
    Browse(String),
    /// Wait for the next event of the browse, for the idle timeout at most,
    /// and report it.
    Listen,
    /// Shut the daemon down, and report `Stopped` or `StopFailed`.
    Shutdown,
    /// Nothing is left to do: take the outcome.
    Finish,
}

/// An action, as plain values.
pub enum ActionView {
    Browse(Seq<char>),
    Listen,
    Shutdown,
    Finish,
}

impl View for Action {
    type V = ActionView;

    open spec fn view(&self) -> ActionView {
        match *self {
            Action::Browse(service_type) => ActionView::Browse(service_type@),
            Action::Listen => ActionView::Listen,
            Action::Shutdown => ActionView::Shutdown,
            Action::Finish => ActionView::Finish,
        }
    }
}

/// What a session waits for.
#[derive(Clone, Copy, Debug, PartialEq, Eq, Structural)]
pub enum Phase {
    /// For a browse to start.
    Opening,
    /// For the next event of the browse.
    Listening,
    /// For the daemon to shut down.
    Closing,
    /// For nothing: the search is over.
    Done,
}

/// The service type under which the service types of the network are
/// advertised.
pub open spec fn meta_service_text() -> Seq<char> {
    "_services._dns-sd._udp.local."@
}

/// Whether an instance with the role `advertised` passes the filter
/// `wanted`: without a filter every instance does, with one only an
/// instance that advertises that very role.
pub open spec fn role_matches(wanted: Option<Seq<char>>, advertised: Option<Seq<char>>) -> bool {
    wanted matches Some(role) ==> advertised == Some(role)
}

/// Whether an instance is reached over HTTPS: what it advertises decides,
/// whatever the case of its letters; where it advertises nothing, the
/// query's fallback does.
pub open spec fn secure(transport: Option<Seq<char>>, fallback: bool) -> bool {
    match transport {
        Some(value) => same_ignoring_ascii_case(value, "https"@),
        None => fallback,
    }
}

/// The role that a descriptor shows for an instance: the advertised one,
/// or the empty role where the instance advertises none.
pub open spec fn role_shown(advertised: Option<Seq<char>>) -> Seq<char> {
    match advertised {
        Some(role) => role,
        None => Seq::empty(),
    }
}

/// The name that a descriptor shows: the name of the query, or for a
/// wildcard query the browsed service type without its trailing dots.
pub open spec fn name_shown(query: BrowseView, service_type: Seq<char>) -> Seq<char> {
    match query.name {
        Some(name) => name,
        None => without_trailing_dots(service_type),
    }
}

/// The descriptor of the address at `i` of an instance that a browse of
/// `service_type` resolved.
pub open spec fn descriptor(
    query: BrowseView,
    service_type: Seq<char>,
    instance: InstanceView,
    i: int,
) -> DiscoverView {
    let https = secure(instance.properties.transport, query.https);
    DiscoverView {
        role: role_shown(instance.properties.role),
        name: name_shown(query, service_type),
        identifier: instance.fullname,
        address: endpoint_text(instance.addresses[i], instance.port, https),
        port: instance.port,
        udp: query.udp,
        https,
        mdns_daemon: None,
    }
}

/// The descriptors of an instance: one for each of its addresses, in their
/// order.
pub open spec fn descriptors(
    query: BrowseView,
    service_type: Seq<char>,
    instance: InstanceView,
) -> Seq<DiscoverView> {
    Seq::new(instance.addresses.len(), |i: int| descriptor(query, service_type, instance, i))
}

/// The state of a search.
pub struct SearchView {
    /// The query that the search answers.
    pub query: BrowseView,
    /// Whether the search is still finding out which service types the
    /// network advertises.
    pub enumerating: bool,
    /// What the search waits for.
    pub phase: Phase,
    /// The service types to browse, sorted and without repeats.
    pub types: Seq<Seq<char>>,
    /// How many of the service types have been browsed to their end.
    pub cursor: int,
    /// The names of the instances that were resolved so far.
    pub seen: Set<Seq<char>>,
    /// The descriptors that were found so far.
    pub found: Seq<DiscoverView>,
    /// The failure that the search ends with, if it met one.
    pub failure: Option<DiscoverError>,
}

impl SearchView {
    /// The state in which a search for `query` starts: a named query has
    /// its one service type to browse, a wildcard query has yet to find
    /// the service types.
    pub open spec fn start(query: BrowseView) -> SearchView {
        SearchView {
            query,
            enumerating: query.name is None,
            phase: Phase::Opening,
            types: match query.name {
                Some(name) => seq![service_type_text(name, query.udp)],
                None => Seq::empty(),
            },
            cursor: 0,
            seen: Set::empty(),
            found: Seq::empty(),
            failure: None,
        }
    }

    /// What the driver is to do in this state.
    pub open spec fn pending(self) -> ActionView {
        match self.phase {
            Phase::Opening => if self.enumerating {
                ActionView::Browse(meta_service_text())
            } else {
                ActionView::Browse(self.types[self.cursor])
            },
            Phase::Listening => ActionView::Listen,
            Phase::Closing => ActionView::Shutdown,
            Phase::Done => ActionView::Finish,
        }
    }

    /// The state that goes on with the service type at `cursor`, or with
    /// the shutdown where no service type is left.
    pub open spec fn browse_from(self, cursor: int) -> SearchView {
        SearchView {
            enumerating: false,
            phase: if cursor < self.types.len() {
                Phase::Opening
            } else {
                Phase::Closing
            },
            cursor,
            ..self
        }
    }

    /// Whether a resolved instance is taken: its name is new to this
    /// search and its role passes the filter of the query.
    pub open spec fn accepts(self, instance: InstanceView) -> bool {
        !self.seen.contains(instance.fullname) && role_matches(
            self.query.role,
            instance.properties.role,
        )
    }

    /// The state after the browse of the current service type resolved
    /// `instance`. A name that was resolved before changes nothing. A new
    /// name is remembered, and where the role passes the filter the
    /// descriptors of the instance are added.
    pub open spec fn resolved(self, instance: InstanceView) -> SearchView {
        SearchView {
            seen: self.seen.insert(instance.fullname),
            found: if self.accepts(instance) {
                self.found + descriptors(self.query, self.types[self.cursor], instance)
            } else {
                self.found
            },
            ..self
        }
    }

    /// The state after `event`. An event that does not answer the pending
    /// action changes nothing.
    pub open spec fn next(self, event: EventView) -> SearchView {
        match (self.phase, event) {
            (Phase::Opening, EventView::Browsing) => SearchView { phase: Phase::Listening, ..self },
            (Phase::Opening, EventView::BrowseFailed(cause)) => SearchView {
                phase: Phase::Closing,
                failure: Some(DiscoverError::Mdns(cause)),
                ..self
            },
            (Phase::Listening, EventView::Resolved(instance)) => if self.enumerating {
                SearchView { types: with_text(self.types, instance.fullname), ..self }
            } else {
                self.resolved(instance)
            },
            (Phase::Listening, EventView::Idle) => if self.enumerating {
                self.browse_from(0)
            } else {
                self.browse_from(self.cursor + 1)
            },
            (Phase::Listening, EventView::Closed) => if self.enumerating {
                self.browse_from(0)
            } else {
                SearchView {
                    phase: Phase::Closing,
                    failure: Some(DiscoverError::MdnsChannelClosed),
                    ..self
                }
            },
            (Phase::Closing, EventView::Stopped) => SearchView { phase: Phase::Done, ..self },
            (Phase::Closing, EventView::StopFailed(cause)) => SearchView {
                phase: Phase::Done,
                failure: match self.failure {
                    Some(first) => Some(first),
                    None => Some(DiscoverError::Mdns(cause)),
                },
                ..self
            },
            _ => self,
        }
    }

    /// The state after the events of `events`, one after another.
    pub open spec fn run(self, events: Seq<EventView>) -> SearchView
        decreases events.len(),
    {
        if events.len() == 0 {
            self
        } else {
            self.run(events.drop_last()).next(events.last())
        }
    }

    /// What the search returns: the failure that it met, else what it
    /// found.
    pub open spec fn outcome(self) -> Result<Seq<DiscoverView>, DiscoverError> {
        match self.failure {
            Some(failure) => Err(failure),
            None => Ok(self.found),
        }
    }

    /// Whether `descriptor` can stand in the result of this search: it is
    /// resolved and owns no daemon, its instance is one that the search
    /// has seen, and its role is the one that the query asks for.
    pub open spec fn holds(self, descriptor: DiscoverView) -> bool {
        &&& descriptor.mdns_daemon is None
        &&& descriptor.address.len() > 0
        &&& descriptor.udp == self.query.udp
        &&& self.seen.contains(descriptor.identifier)
        &&& self.query.role matches Some(role) ==> descriptor.role == role
    }

    /// What holds of every state of a search.
    pub open spec fn wf(self) -> bool {
        &&& strictly_sorted(self.types)
        &&& 0 <= self.cursor <= self.types.len()
        &&& self.enumerating ==> self.query.name is None
        &&& !self.enumerating && (self.phase is Opening || self.phase is Listening) ==> self.cursor
            < self.types.len()
        &&& forall|i: int| 0 <= i < self.found.len() ==> self.holds(#[trigger] self.found[i])
    }
}

/// Decides whether an instance with the role `advertised` passes the
/// filter `wanted`.
pub fn role_passes(wanted: &Option<String>, advertised: &Option<String>) -> (passes: bool)
    ensures
        passes == role_matches(opt_text(*wanted), opt_text(*advertised)),
{
    match wanted {
        None => true,
        Some(role) => match advertised {
            Some(value) => *value == *role,
            None => false,
        },
    }
}

/// Decides whether an instance is reached over HTTPS, from the transport
/// that it advertises and the fallback of the query.
pub fn is_secure(transport: &Option<String>, fallback: bool) -> (https: bool)
    ensures
        https == secure(opt_text(*transport), fallback),
{
    match transport {
        Some(value) => eq_ignore_ascii_case(value.as_str(), "https"),
        None => fallback,
    }
}

/// An endpoint is never empty.
pub proof fn lemma_endpoint_not_empty(address: Seq<char>, port: u16, https: bool)
    ensures
        endpoint_text(address, port, https).len() > 0,
{
    reveal_strlit("/");
}

/// Makes the descriptors of an instance that a browse of `service_type`
/// resolved: one for each of its addresses, in their order.
pub fn describe(query: &Browse, service_type: &str, instance: &ResolvedInstance) -> (list: Vec<
    Discover,
>)
    ensures
        views(list@) == descriptors(query@, service_type@, instance@),
{
    let https = is_secure(&instance.properties.transport, query.https);
    let mut list: Vec<Discover> = Vec::new();
    let mut i: usize = 0;
    while i < instance.addresses.len()
        invariant
            i <= instance.addresses.len(),
            https == secure(instance@.properties.transport, query@.https),
            list.len() == i,
            forall|k: int|
                0 <= k < i ==> (#[trigger] list@[k])@ == descriptor(
                    query@,
                    service_type@,
                    instance@,
                    k,
                ),
        decreases instance.addresses.len() - i,
    {
        let role = match &instance.properties.role {
            Some(role) => role.clone(),
            None => String::new(),
        };
        let name = match &query.name {
            Some(name) => name.clone(),
            None => trim_trailing_dots(service_type),
        };
        let found = Discover {
            role,
            name,
            identifier: instance.fullname.clone(),
            address: format_endpoint(instance.addresses[i].as_str(), instance.port, https),
            port: instance.port,
            udp: query.udp,
            https,
            mdns_daemon: None,
        };
        assert(found@ == descriptor(query@, service_type@, instance@, i as int));
        list.push(found);
        i = i + 1;
    }
    assert(views(list@) =~= descriptors(query@, service_type@, instance@));
    list
}

/// A search that is under way.
pub struct Search {
    query: Browse,
    enumerating: bool,
    phase: Phase,
    types: Vec<String>,
    cursor: usize,
    seen: StringHashSet,
    found: Vec<Discover>,
    failure: Option<DiscoverError>,
}

impl View for Search {
    type V = SearchView;

    closed spec fn view(&self) -> SearchView {
        SearchView {
            query: self.query@,
            enumerating: self.enumerating,
            phase: self.phase,
            types: texts(self.types@),
            cursor: self.cursor as int,
            seen: self.seen@,
            found: views(self.found@),
            failure: self.failure,
        }
    }
}

/// What a search returned, as plain values.
pub open spec fn outcome_view(outcome: Result<Vec<Discover>, DiscoverError>) -> Result<
    Seq<DiscoverView>,
    DiscoverError,
> {
    match outcome {
        Ok(list) => Ok(views(list@)),
        Err(failure) => Err(failure),
    }
}

impl Search {
    /// Starts a search for `query`.
    pub fn new(query: Browse) -> (search: Self)
        ensures
            search@ == SearchView::start(query@),
            search@.wf(),
    {
        let mut types: Vec<String> = Vec::new();
        let enumerating = match &query.name {
            Some(name) => {
                types.push(service_type(name.as_str(), query.udp));
                false
            },
            None => true,
        };
        let search = Search {
            query,
            enumerating,
            phase: Phase::Opening,
            types,
            cursor: 0,
            seen: StringHashSet::new(),
            found: Vec::new(),
            failure: None,
        };
        proof {
            assert(search@.types =~= SearchView::start(query@).types);
            assert(search@.found =~= Seq::<DiscoverView>::empty());
        }
        search
    }

    /// The query that the search answers.
    pub fn query(&self) -> (query: &Browse)
        ensures
            query@ == self@.query,
    {
        &self.query
    }

    /// What the search waits for.
    pub fn phase(&self) -> (phase: Phase)
        ensures
            phase == self@.phase,
    {
        self.phase
    }

    /// What the driver is to do next.
    pub fn pending(&self) -> (action: Action)
        requires
            self@.wf(),
        ensures
            action@ == self@.pending(),
    {
        match self.phase {
            Phase::Opening => if self.enumerating {
                Action::Browse(String::from_str("_services._dns-sd._udp.local."))
            } else {
                Action::Browse(self.types[self.cursor].clone())
            },
            Phase::Listening => Action::Listen,
            Phase::Closing => Action::Shutdown,
            Phase::Done => Action::Finish,
        }
    }

    fn browse_from(&mut self, cursor: usize)
        requires
            cursor <= old(self)@.types.len(),
        ensures
            final(self)@ == old(self)@.browse_from(cursor as int),
    {
        self.enumerating = false;
        self.cursor = cursor;
        self.phase = if cursor < self.types.len() {
            Phase::Opening
        } else {
            Phase::Closing
        };
    }

    fn browse_following(&mut self)
        requires
            old(self)@.cursor < old(self)@.types.len(),
        ensures
            final(self)@ == old(self)@.browse_from(old(self)@.cursor + 1),
    {
        let count: usize = self.types.len();
        let following: usize = self.cursor + 1;
        self.enumerating = false;
        self.cursor = following;
        self.phase = if following < count {
            Phase::Opening
        } else {
            Phase::Closing
        };
    }

    fn resolve(&mut self, instance: ResolvedInstance)
        requires
            old(self)@.cursor < old(self)@.types.len(),
        ensures
            final(self)@ == old(self)@.resolved(instance@),
    {
        let fresh = self.seen.insert(instance.fullname.clone());
        if fresh && role_passes(&self.query.role, &instance.properties.role) {
            let mut list = describe(&self.query, self.types[self.cursor].as_str(), &instance);
            let ghost added = views(list@);
            let ghost before = views(self.found@);
            self.found.append(&mut list);
            assert(views(self.found@) =~= before + added);
        }
    }

    /// Takes in what came of the pending action, and says what is to be
    /// done next.
    pub fn step(&mut self, event: Event) -> (action: Action)
        requires
            old(self)@.wf(),
        ensures
            final(self)@ == old(self)@.next(event@),
            final(self)@.wf(),
            action@ == final(self)@.pending(),
    {
        proof {
            lemma_next_wf(self@, event@);
        }
        match self.phase {
            Phase::Opening => match event {
                Event::Browsing => {
                    self.phase = Phase::Listening;
                },
                Event::BrowseFailed(cause) => {
                    self.phase = Phase::Closing;
                    self.failure = Some(DiscoverError::Mdns(cause));
                },
                _ => {},
            },
            Phase::Listening => match event {
                Event::Resolved(instance) => {
                    if self.enumerating {
                        insert_text(&mut self.types, instance.fullname);
                    } else {
                        self.resolve(instance);
                    }
                },
                Event::Idle => {
                    if self.enumerating {
                        self.browse_from(0);
                    } else {
                        self.browse_following();
                    }
                },
                Event::Closed => {
                    if self.enumerating {
                        self.browse_from(0);
                    } else {
                        self.phase = Phase::Closing;
                        self.failure = Some(DiscoverError::MdnsChannelClosed);
                    }
                },
                _ => {},
            },
            Phase::Closing => match event {
                Event::Stopped => {
                    self.phase = Phase::Done;
                },
                Event::StopFailed(cause) => {
                    self.phase = Phase::Done;
                    if self.failure.is_none() {
                        self.failure = Some(DiscoverError::Mdns(cause));
                    }
                },
                _ => {},
            },
            Phase::Done => {},
        }
        self.pending()
    }

    /// Ends the search and hands out what it returns: the failure that it
    /// met, else the descriptors that it found. The search is over once it
    /// asks for `Finish`; taken before that, the outcome is the one so far.
    pub fn finish(self) -> (outcome: Result<Vec<Discover>, DiscoverError>)
        ensures
            outcome_view(outcome) == self@.outcome(),
    {
        match self.failure {
            Some(failure) => Err(failure),
            None => Ok(self.found),
        }
    }
}

/// Every state that a search reaches from a sound state is sound.
pub proof fn lemma_next_wf(state: SearchView, event: EventView)
    requires
        state.wf(),
    ensures
        state.next(event).wf(),
{
    let after = state.next(event);
    if state.phase is Listening {
        if let EventView::Resolved(instance) = event {
            if state.enumerating {
                crate::order::lemma_with_text(state.types, instance.fullname);
            } else {
                let added = descriptors(state.query, state.types[state.cursor], instance);
                assert forall|i: int| 0 <= i < after.found.len() implies after.holds(
                    #[trigger] after.found[i],
                ) by {
                    if i < state.found.len() {
                        assert(after.found[i] == state.found[i]);
                        assert(state.holds(state.found[i]));
                    } else {
                        let k = i - state.found.len();
                        assert(after.found[i] == added[k]);
                        lemma_endpoint_not_empty(
                            instance.addresses[k],
                            instance.port,
                            secure(instance.properties.transport, state.query.https),
                        );
                    }
                }
            }
        }
    }
}

} // verus!
