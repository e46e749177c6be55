//! What holds of every search, however the network behaves.

use crate::error::DiscoverError;
use crate::mdns::discovery::DiscoverView;
use crate::mdns::endpoint::{endpoint_text, scheme_text};
use crate::mdns::find::BrowseView;
use crate::mdns::session::{
    descriptor,
    descriptors,
    lemma_next_wf,
    name_shown,
    role_shown,
    secure,
    ActionView,
    EventView,
    InstanceView,
    SearchView,
};
use crate::text::same_ignoring_ascii_case;
use vstd::prelude::*;

verus! {

/// Whether the search browses a service type for instances and waits for
/// the next event of that browse.
pub open spec fn collecting(state: SearchView) -> bool {
    state.phase is Listening && !state.enumerating
}

/// A search that starts sound stays sound, whatever events it is given.
pub proof fn law_run_keeps_wf(state: SearchView, events: Seq<EventView>)
    requires
        state.wf(),
    ensures
        state.run(events).wf(),
    decreases events.len(),
{
    if events.len() > 0 {
        law_run_keeps_wf(state, events.drop_last());
        lemma_next_wf(state.run(events.drop_last()), events.last());
    }
}

/// The state in which a search starts is sound.
pub proof fn law_start_is_wf(query: BrowseView)
    ensures
        SearchView::start(query).wf(),
{
}

/// An instance whose role is not the one that the query asks for adds
/// nothing to what the search found.
pub proof fn law_other_role_adds_nothing(state: SearchView, instance: InstanceView)
    requires
        state.query.role matches Some(role) && instance.properties.role != Some(role),
    ensures
        state.next(EventView::Resolved(instance)).found == state.found,
{
}

/// With a role filter, whatever a search found has the role that the query
/// asks for.
pub proof fn law_found_roles_match(query: BrowseView, events: Seq<EventView>, i: int)
    requires
        query.role is Some,
        0 <= i < SearchView::start(query).run(events).found.len(),
    ensures
        SearchView::start(query).run(events).query == query,
        SearchView::start(query).run(events).found[i].role == query.role->0,
{
    law_run_keeps_wf(SearchView::start(query), events);
    lemma_run_keeps_query(SearchView::start(query), events);
    let end = SearchView::start(query).run(events);
    assert(end.holds(end.found[i]));
}

/// Whatever a search found is resolved and owns no daemon: its address is
/// not empty, and its handle is absent.
pub proof fn law_found_are_resolved(query: BrowseView, events: Seq<EventView>, i: int)
    requires
        0 <= i < SearchView::start(query).run(events).found.len(),
    ensures
        SearchView::start(query).run(events).found[i].address.len() > 0,
        SearchView::start(query).run(events).found[i].mdns_daemon is None,
{
    law_run_keeps_wf(SearchView::start(query), events);
    let end = SearchView::start(query).run(events);
    assert(end.holds(end.found[i]));
}

/// A search answers the same query throughout.
pub proof fn lemma_run_keeps_query(state: SearchView, events: Seq<EventView>)
    ensures
        state.run(events).query == state.query,
    decreases events.len(),
{
    if events.len() > 0 {
        lemma_run_keeps_query(state, events.drop_last());
    }
}

/// Whether no descriptor of `found` is one of the instance `name`.
pub open spec fn excludes(found: Seq<DiscoverView>, name: Seq<char>) -> bool {
    forall|i: int| 0 <= i < found.len() ==> (#[trigger] found[i]).identifier != name
}

/// Whether every resolution of the instance `name` among `events` shows a
/// role other than `role`.
pub open spec fn never_in_role(events: Seq<EventView>, name: Seq<char>, role: Seq<char>) -> bool {
    forall|k: int|
        0 <= k < events.len() ==> ((#[trigger] events[k]) matches EventView::Resolved(instance)
            ==> instance.fullname == name ==> instance.properties.role != Some(role))
}

/// An instance whose role is not the one that the query asks for is not
/// in the result, however often and among whatever other events it is
/// resolved.
pub proof fn law_other_role_is_excluded(
    query: BrowseView,
    events: Seq<EventView>,
    name: Seq<char>,
)
    requires
        query.role is Some,
        never_in_role(events, name, query.role->0),
    ensures
        excludes(SearchView::start(query).run(events).found, name),
    decreases events.len(),
{
    let start = SearchView::start(query);
    if events.len() > 0 {
        let earlier = events.drop_last();
        assert forall|k: int| 0 <= k < earlier.len() implies ((#[trigger] earlier[k]) matches EventView::Resolved(
            instance,
        ) ==> instance.fullname == name ==> instance.properties.role != Some(query.role->0)) by {
            assert(earlier[k] == events[k]);
        }
        law_other_role_is_excluded(query, earlier, name);
        lemma_run_keeps_query(start, earlier);
        let before = start.run(earlier);
        let after = before.next(events.last());
        assert(events.last() == events[events.len() - 1]);
        assert forall|i: int| 0 <= i < after.found.len() implies (#[trigger] after.found[i]).identifier
            != name by {
            if i < before.found.len() {
                assert(after.found[i] == before.found[i]);
            }
        }
    }
}

/// The resolution of an instance that was resolved before in this search
/// adds nothing to what the search found.
pub proof fn law_seen_instance_adds_nothing(state: SearchView, instance: InstanceView)
    requires
        state.seen.contains(instance.fullname),
    ensures
        state.next(EventView::Resolved(instance)).found == state.found,
{
}

/// A search remembers the instance that it is given while it collects.
pub proof fn law_resolved_is_seen(state: SearchView, instance: InstanceView)
    requires
        collecting(state),
    ensures
        state.next(EventView::Resolved(instance)).seen.contains(instance.fullname),
{
}

/// A search never forgets an instance.
pub proof fn law_seen_is_kept(state: SearchView, events: Seq<EventView>, name: Seq<char>)
    requires
        state.seen.contains(name),
    ensures
        state.run(events).seen.contains(name),
    decreases events.len(),
{
    if events.len() > 0 {
        law_seen_is_kept(state, events.drop_last(), name);
    }
}

/// An instance is observed at most once: after a search took in the
/// resolution of an instance, no later resolution under the same name adds
/// anything, whatever happened in between.
pub proof fn law_at_most_once(
    state: SearchView,
    first: InstanceView,
    between: Seq<EventView>,
    again: InstanceView,
)
    requires
        collecting(state),
        again.fullname == first.fullname,
    ensures
        ({
            let later = state.next(EventView::Resolved(first)).run(between);
            later.next(EventView::Resolved(again)).found == later.found
        }),
{
    law_resolved_is_seen(state, first);
    law_seen_is_kept(state.next(EventView::Resolved(first)), between, first.fullname);
}

/// An accepted instance with N addresses adds exactly N descriptors, after
/// those that were found before. They share the identifier, the role, the
/// name, the port and the flags, and each has the endpoint of its own
/// address.
pub proof fn law_one_descriptor_per_address(state: SearchView, instance: InstanceView)
    requires
        collecting(state),
        state.accepts(instance),
    ensures
        ({
            let after = state.next(EventView::Resolved(instance));
            let https = secure(instance.properties.transport, state.query.https);
            &&& after.found.len() == state.found.len() + instance.addresses.len()
            &&& after.found.subrange(0, state.found.len() as int) == state.found
            &&& forall|i: int|
                0 <= i < instance.addresses.len() ==> #[trigger] after.found[state.found.len() + i]
                    == (DiscoverView {
                    role: role_shown(instance.properties.role),
                    name: name_shown(state.query, state.types[state.cursor]),
                    identifier: instance.fullname,
                    address: endpoint_text(instance.addresses[i], instance.port, https),
                    port: instance.port,
                    udp: state.query.udp,
                    https,
                    mdns_daemon: None,
                })
        }),
{
    let after = state.next(EventView::Resolved(instance));
    assert(after.found.subrange(0, state.found.len() as int) =~= state.found);
}

/// An instance that is not accepted, because it was seen or because its
/// role does not pass, adds no descriptor.
pub proof fn law_rejected_adds_nothing(state: SearchView, instance: InstanceView)
    requires
        !state.accepts(instance),
    ensures
        state.next(EventView::Resolved(instance)).found == state.found,
{
}

/// Any text is the same as itself when the case of letters is disregarded.
pub proof fn lemma_same_ignoring_case_reflexive(a: Seq<char>)
    ensures
        same_ignoring_ascii_case(a, a),
{
}

/// The transport that an instance advertises decides how it is reached,
/// whatever the fallback of the query: `https`, in any case of letters,
/// gives an `https://` endpoint, any other value an `http://` endpoint.
/// Only an instance that advertises no transport is reached as the
/// fallback says.
pub proof fn law_transport_precedence(
    query: BrowseView,
    service_type: Seq<char>,
    instance: InstanceView,
    i: int,
)
    requires
        0 <= i < instance.addresses.len(),
    ensures
        ({
            let found = descriptor(query, service_type, instance, i);
            let rest = "://"@ + instance.addresses[i] + ":"@ + crate::text::decimal_text(
                instance.port as nat,
            ) + "/"@;
            &&& instance.properties.transport == Some("https"@) ==> found.https
            &&& instance.properties.transport matches Some(value) ==> found.https
                == same_ignoring_ascii_case(value, "https"@)
            &&& instance.properties.transport is None ==> found.https == query.https
            &&& found.address == if found.https {
                "https"@ + rest
            } else {
                "http"@ + rest
            }
        }),
{
    lemma_same_ignoring_case_reflexive("https"@);
    let found = descriptor(query, service_type, instance, i);
    let rest = "://"@ + instance.addresses[i] + ":"@ + crate::text::decimal_text(
        instance.port as nat,
    ) + "/"@;
    assert(found.address =~= scheme_text(found.https) + rest);
}

/// While a wildcard search finds out which service types the network
/// advertises, each resolution adds its type to the types to browse and
/// nothing else, and the types stay sorted and without repeats.
pub proof fn law_enumeration_collects(state: SearchView, advertised: InstanceView)
    requires
        state.wf(),
        state.enumerating,
        state.phase is Listening,
    ensures
        ({
            let after = state.next(EventView::Resolved(advertised));
            &&& crate::order::strictly_sorted(after.types)
            &&& forall|name: Seq<char>|
                after.types.contains(name) <==> (state.types.contains(name) || name
                    == advertised.fullname)
            &&& after.found == state.found
            &&& after.pending() == ActionView::Listen
        }),
{
    crate::order::lemma_with_text(state.types, advertised.fullname);
}

/// A wildcard search on a network that advertises no service type waits
/// through one idle timeout, browses nothing more, and returns an empty
/// list once the daemon is shut down.
pub proof fn law_wildcard_without_types(query: BrowseView)
    requires
        query.name is None,
    ensures
        ({
            let start = SearchView::start(query);
            let listening = start.next(EventView::Browsing);
            let silent = listening.next(EventView::Idle);
            let end = silent.next(EventView::Stopped);
            &&& start.pending() == ActionView::Browse(crate::mdns::session::meta_service_text())
            &&& listening.pending() == ActionView::Listen
            &&& silent.pending() == ActionView::Shutdown
            &&& end.pending() == ActionView::Finish
            &&& end.outcome() == Ok::<Seq<DiscoverView>, DiscoverError>(Seq::empty())
        }),
{
}

/// How the failures of a search are merged: a failure that the search met
/// while browsing is what it returns, whether or not the shutdown fails
/// too; a failure of the shutdown is returned where browsing met none.
pub proof fn law_first_failure_wins(state: SearchView, cause: mdns_sd::Error)
    requires
        state.phase is Closing,
    ensures
        state.next(EventView::Stopped).outcome() == state.outcome(),
        state.failure is Some ==> state.next(EventView::StopFailed(cause)).outcome()
            == state.outcome(),
        state.failure is None ==> state.next(EventView::StopFailed(cause)).outcome() == Err::<
            Seq<DiscoverView>,
            DiscoverError,
        >(DiscoverError::Mdns(cause)),
{
}

/// A browse that cannot be started ends the search, and the daemon is shut
/// down all the same: the search asks for the shutdown next, then for
/// nothing more, and it fails with the failure of the browse however the
/// shutdown goes.
pub proof fn law_failed_browse_shuts_down(
    state: SearchView,
    cause: mdns_sd::Error,
    later: mdns_sd::Error,
)
    requires
        state.phase is Opening,
    ensures
        ({
            let failed = state.next(EventView::BrowseFailed(cause));
            let stopped = failed.next(EventView::Stopped);
            let unstopped = failed.next(EventView::StopFailed(later));
            &&& failed.pending() == ActionView::Shutdown
            &&& failed.found == state.found
            &&& stopped.pending() == ActionView::Finish
            &&& unstopped.pending() == ActionView::Finish
            &&& stopped.outcome() == Err::<Seq<DiscoverView>, DiscoverError>(
                DiscoverError::Mdns(cause),
            )
            &&& unstopped.outcome() == Err::<Seq<DiscoverView>, DiscoverError>(
                DiscoverError::Mdns(cause),
            )
        }),
{
}

/// A search asks for `Finish` only after it asked for the shutdown of the
/// daemon: every step that ends a search is the answer to a `Shutdown`.
pub proof fn law_finish_follows_shutdown(state: SearchView, event: EventView)
    requires
        !(state.phase is Done),
        state.next(event).phase is Done,
    ensures
        state.pending() == ActionView::Shutdown,
        event is Stopped || event is StopFailed,
{
}

/// A stream that ends while a service type is browsed for instances ends
/// the search: no further type is browsed, and the search fails with
/// `MdnsChannelClosed` however the shutdown goes.
pub proof fn law_closed_stream_aborts(state: SearchView, cause: mdns_sd::Error)
    requires
        collecting(state),
    ensures
        ({
            let closed = state.next(EventView::Closed);
            &&& closed.pending() == ActionView::Shutdown
            &&& closed.next(EventView::Stopped).outcome() == Err::<
                Seq<DiscoverView>,
                DiscoverError,
            >(DiscoverError::MdnsChannelClosed)
            &&& closed.next(EventView::StopFailed(cause)).outcome() == Err::<
                Seq<DiscoverView>,
                DiscoverError,
            >(DiscoverError::MdnsChannelClosed)
        }),
{
}

} // verus!
