use discover::error::DiscoverError;
use discover::mdns::announcer::Announce;
use discover::mdns::discovery::Discover;
use discover::mdns::find::{Browse, Find};
use discover::mdns::record::Properties;
use discover::mdns::session::{
    describe, is_secure, role_passes, Action, Event, Phase, ResolvedInstance, Search,
};
use std::time::Duration;

fn second() -> Duration {
    Duration::from_secs(1)
}

fn instance(
    fullname: &str,
    role: Option<&str>,
    transport: Option<&str>,
    addresses: &[&str],
    port: u16,
) -> ResolvedInstance {
    ResolvedInstance {
        fullname: fullname.to_string(),
        properties: Properties {
            role: role.map(|r| r.to_string()),
            transport: transport.map(|t| t.to_string()),
        },
        addresses: addresses.iter().map(|a| a.to_string()).collect(),
        port,
    }
}

fn server(fullname: &str, addresses: &[&str]) -> ResolvedInstance {
    instance(fullname, Some("server"), Some("http"), addresses, 8080)
}

fn is_browse(action: &Action, service_type: &str) -> bool {
    matches!(action, Action::Browse(t) if t == service_type)
}

fn named() -> Search {
    let mut search = Discover::search(Browse::new(Some("foo"), Some("server"), false, false, second()));
    assert!(is_browse(&search.pending(), "_foo._tcp.local."));
    assert!(matches!(search.step(Event::Browsing), Action::Listen));
    search
}

fn addresses(found: &[Discover]) -> Vec<String> {
    found.iter().map(|d| d.address.clone()).collect()
}

#[test]
fn published_service_is_found_at_its_address() {
    let mut search = named();
    let resolved = instance("foo._foo._tcp.local.", Some("server"), Some("http"), &["10.0.0.5"], 8080);
    assert!(matches!(search.step(Event::Resolved(resolved)), Action::Listen));
    assert!(matches!(search.step(Event::Idle), Action::Shutdown));
    assert!(matches!(search.step(Event::Stopped), Action::Finish));
    let found = search.finish().unwrap();
    assert_eq!(found.len(), 1);
    assert_eq!(found[0].address, "http://10.0.0.5:8080/");
    assert_eq!(found[0].address(), "http://10.0.0.5:8080/");
    assert_eq!(found[0].role, "server");
    assert_eq!(found[0].name, "foo");
    assert_eq!(found[0].identifier, "foo._foo._tcp.local.");
    assert_eq!(found[0].port, 8080);
    assert!(!found[0].udp);
    assert!(!found[0].https);
    assert!(found[0].mdns_daemon.is_none());
    assert!(!found[0].is_active());
}

#[test]
fn wildcard_search_without_service_types_is_empty() {
    let mut search = Search::new(Browse::new(None, None, false, false, second()));
    assert!(is_browse(&search.pending(), "_services._dns-sd._udp.local."));
    assert!(matches!(search.step(Event::Browsing), Action::Listen));
    assert!(matches!(search.step(Event::Idle), Action::Shutdown));
    assert!(matches!(search.step(Event::Stopped), Action::Finish));
    assert!(search.finish().unwrap().is_empty());
}

#[test]
fn named_search_that_hears_nothing_is_empty() {
    let mut search = named();
    assert!(matches!(search.step(Event::Idle), Action::Shutdown));
    assert!(matches!(search.step(Event::Stopped), Action::Finish));
    assert!(search.finish().unwrap().is_empty());
}

#[test]
fn instance_in_another_role_is_left_out() {
    let mut search = named();
    search.step(Event::Resolved(instance("a._foo._tcp.local.", Some("client"), None, &["10.0.0.1"], 1)));
    search.step(Event::Resolved(instance("b._foo._tcp.local.", None, None, &["10.0.0.2"], 2)));
    search.step(Event::Resolved(instance("c._foo._tcp.local.", Some("Server"), None, &["10.0.0.3"], 3)));
    search.step(Event::Resolved(instance("d._foo._tcp.local.", Some("server"), None, &["10.0.0.4"], 4)));
    search.step(Event::Idle);
    search.step(Event::Stopped);
    let found = search.finish().unwrap();
    assert_eq!(addresses(&found), vec!["http://10.0.0.4:4/"]);
    assert_eq!(found[0].identifier, "d._foo._tcp.local.");
}

#[test]
fn instance_first_seen_in_another_role_stays_out() {
    let mut search = named();
    search.step(Event::Resolved(instance("a._foo._tcp.local.", Some("client"), None, &["10.0.0.1"], 1)));
    search.step(Event::Resolved(instance("a._foo._tcp.local.", Some("server"), None, &["10.0.0.1"], 1)));
    search.step(Event::Idle);
    search.step(Event::Stopped);
    assert!(search.finish().unwrap().is_empty());
}

#[test]
fn redelivered_instance_is_observed_once() {
    let mut search = named();
    search.step(Event::Resolved(server("a._foo._tcp.local.", &["10.0.0.1"])));
    search.step(Event::Resolved(server("a._foo._tcp.local.", &["10.0.0.1"])));
    search.step(Event::Resolved(server("b._foo._tcp.local.", &["10.0.0.2"])));
    search.step(Event::Other);
    search.step(Event::Resolved(server("a._foo._tcp.local.", &["10.0.0.9", "10.0.0.1"])));
    search.step(Event::Idle);
    search.step(Event::Stopped);
    let found = search.finish().unwrap();
    assert_eq!(addresses(&found), vec!["http://10.0.0.1:8080/", "http://10.0.0.2:8080/"]);
}

#[test]
fn each_address_gives_one_descriptor() {
    let mut search = named();
    let resolved = instance(
        "a._foo._tcp.local.",
        Some("server"),
        None,
        &["10.0.0.1", "192.168.1.4", "2001:db8::7"],
        9000,
    );
    search.step(Event::Resolved(resolved));
    search.step(Event::Idle);
    search.step(Event::Stopped);
    let found = search.finish().unwrap();
    assert_eq!(
        addresses(&found),
        vec!["http://10.0.0.1:9000/", "http://192.168.1.4:9000/", "http://2001:db8::7:9000/"]
    );
    for d in &found {
        assert_eq!(d.identifier, "a._foo._tcp.local.");
        assert_eq!(d.role, "server");
        assert_eq!(d.name, "foo");
        assert_eq!(d.port, 9000);
        assert!(!d.https);
        assert!(!d.udp);
    }
}

#[test]
fn instance_without_addresses_gives_no_descriptor() {
    let mut search = named();
    search.step(Event::Resolved(server("a._foo._tcp.local.", &[])));
    search.step(Event::Idle);
    search.step(Event::Stopped);
    assert!(search.finish().unwrap().is_empty());
}

#[test]
fn advertised_https_wins_over_the_fallback() {
    for fallback in [false, true] {
        let query = Browse::new(Some("foo"), Some("server"), false, fallback, second());
        for value in ["https", "HTTPS", "Https"] {
            let found = describe(
                &query,
                "_foo._tcp.local.",
                &instance("a", Some("server"), Some(value), &["10.0.0.1"], 443),
            );
            assert_eq!(found.len(), 1);
            assert!(found[0].https);
            assert_eq!(found[0].address, "https://10.0.0.1:443/");
        }
    }
}

#[test]
fn advertised_http_wins_over_the_fallback() {
    for fallback in [false, true] {
        let query = Browse::new(Some("foo"), Some("server"), false, fallback, second());
        for value in ["http", "HTTP", "", "tls", "https "] {
            let found = describe(
                &query,
                "_foo._tcp.local.",
                &instance("a", Some("server"), Some(value), &["10.0.0.1"], 80),
            );
            assert!(!found[0].https);
            assert_eq!(found[0].address, "http://10.0.0.1:80/");
        }
    }
}

#[test]
fn fallback_decides_without_advertised_transport() {
    let resolved = instance("a", Some("server"), None, &["10.0.0.1"], 8443);
    let secure = Browse::new(Some("foo"), Some("server"), false, true, second());
    let found = describe(&secure, "_foo._tcp.local.", &resolved);
    assert!(found[0].https);
    assert_eq!(found[0].address, "https://10.0.0.1:8443/");
    let plain = Browse::new(Some("foo"), Some("server"), false, false, second());
    let found = describe(&plain, "_foo._tcp.local.", &resolved);
    assert!(!found[0].https);
    assert_eq!(found[0].address, "http://10.0.0.1:8443/");
}

#[test]
fn transport_is_decided_as_stated() {
    assert!(is_secure(&Some("https".to_string()), false));
    assert!(is_secure(&Some("hTTps".to_string()), false));
    assert!(!is_secure(&Some("http".to_string()), true));
    assert!(is_secure(&None, true));
    assert!(!is_secure(&None, false));
}

#[test]
fn role_filter_is_exact() {
    let server = Some("server".to_string());
    assert!(role_passes(&server, &Some("server".to_string())));
    assert!(!role_passes(&server, &Some("Server".to_string())));
    assert!(!role_passes(&server, &Some("".to_string())));
    assert!(!role_passes(&server, &None));
    assert!(role_passes(&None, &Some("anything".to_string())));
    assert!(role_passes(&None, &None));
    assert!(role_passes(&Some(String::new()), &Some(String::new())));
    assert!(!role_passes(&Some(String::new()), &None));
}

#[test]
fn descriptor_carries_the_layer_of_the_query() {
    let query = Browse::new(Some("foo"), None, true, false, second());
    let found = describe(&query, "_foo._udp.local.", &instance("a", None, None, &["10.0.0.1"], 5));
    assert!(found[0].udp);
    assert_eq!(found[0].role, "");
    assert_eq!(found[0].name, "foo");
}

#[test]
fn closed_stream_fails_the_search() {
    let mut search = named();
    search.step(Event::Resolved(server("a._foo._tcp.local.", &["10.0.0.1"])));
    assert!(matches!(search.step(Event::Closed), Action::Shutdown));
    assert!(matches!(search.step(Event::Stopped), Action::Finish));
    assert!(matches!(search.finish(), Err(DiscoverError::MdnsChannelClosed)));
}

#[test]
fn closed_stream_outranks_a_failed_shutdown() {
    let mut search = named();
    assert!(matches!(search.step(Event::Closed), Action::Shutdown));
    let cause = mdns_sd::Error::Msg("shutdown failed".to_string());
    assert!(matches!(search.step(Event::StopFailed(cause)), Action::Finish));
    assert!(matches!(search.finish(), Err(DiscoverError::MdnsChannelClosed)));
}

#[test]
fn failed_shutdown_fails_a_search_that_went_well() {
    let mut search = named();
    search.step(Event::Resolved(server("a._foo._tcp.local.", &["10.0.0.1"])));
    assert!(matches!(search.step(Event::Idle), Action::Shutdown));
    let cause = mdns_sd::Error::Msg("shutdown failed".to_string());
    assert!(matches!(search.step(Event::StopFailed(cause)), Action::Finish));
    match search.finish() {
        Err(DiscoverError::Mdns(cause)) => {
            assert_eq!(cause, mdns_sd::Error::Msg("shutdown failed".to_string()))
        }
        _ => panic!("the failure of the shutdown was not returned"),
    }
}

#[test]
fn failed_browse_shuts_the_daemon_down_and_fails() {
    let mut search = Search::new(Browse::new(Some("foo"), None, false, false, second()));
    let action = search.step(Event::BrowseFailed(mdns_sd::Error::Again));
    assert!(matches!(action, Action::Shutdown));
    assert_eq!(search.phase(), Phase::Closing);
    assert!(matches!(search.step(Event::Stopped), Action::Finish));
    assert_eq!(search.phase(), Phase::Done);
    assert!(matches!(search.finish(), Err(DiscoverError::Mdns(mdns_sd::Error::Again))));
}

#[test]
fn failed_enumeration_browse_shuts_the_daemon_down_and_fails() {
    let mut search = Search::new(Browse::new(None, None, false, false, second()));
    let action = search.step(Event::BrowseFailed(mdns_sd::Error::DaemonShutdown));
    assert!(matches!(action, Action::Shutdown));
    assert!(matches!(search.step(Event::Stopped), Action::Finish));
    assert!(matches!(search.finish(), Err(DiscoverError::Mdns(mdns_sd::Error::DaemonShutdown))));
}

#[test]
fn failed_browse_outranks_a_failed_shutdown() {
    let mut search = Search::new(Browse::new(Some("foo"), None, false, false, second()));
    let browse = mdns_sd::Error::Msg("no browse".to_string());
    assert!(matches!(search.step(Event::BrowseFailed(browse)), Action::Shutdown));
    let shutdown = mdns_sd::Error::Msg("no shutdown".to_string());
    assert!(matches!(search.step(Event::StopFailed(shutdown)), Action::Finish));
    match search.finish() {
        Err(DiscoverError::Mdns(cause)) => {
            assert_eq!(cause, mdns_sd::Error::Msg("no browse".to_string()))
        }
        _ => panic!("the failure of the browse was not returned"),
    }
}

#[test]
fn failed_browse_of_a_later_type_keeps_nothing_and_shuts_down() {
    let mut search = Search::new(Browse::new(None, None, false, false, second()));
    search.step(Event::Browsing);
    search.step(type_event("_a._tcp.local."));
    search.step(type_event("_b._tcp.local."));
    search.step(Event::Idle);
    search.step(Event::Browsing);
    search.step(Event::Resolved(instance("x", None, None, &["10.0.0.1"], 1)));
    assert!(is_browse(&search.step(Event::Idle), "_b._tcp.local."));
    assert!(matches!(search.step(Event::BrowseFailed(mdns_sd::Error::Again)), Action::Shutdown));
    assert!(matches!(search.step(Event::Stopped), Action::Finish));
    assert!(matches!(search.finish(), Err(DiscoverError::Mdns(mdns_sd::Error::Again))));
}

fn type_event(service_type: &str) -> Event {
    Event::Resolved(instance(service_type, None, None, &[], 0))
}

#[test]
fn wildcard_search_browses_each_type_once_in_order() {
    let mut search = Search::new(Browse::new(None, None, false, true, second()));
    assert!(matches!(search.step(Event::Browsing), Action::Listen));
    assert!(matches!(search.step(type_event("_ssh._tcp.local.")), Action::Listen));
    assert!(matches!(search.step(type_event("_http._tcp.local.")), Action::Listen));
    assert!(matches!(search.step(Event::Other), Action::Listen));
    assert!(matches!(search.step(type_event("_ssh._tcp.local.")), Action::Listen));
    assert!(is_browse(&search.step(Event::Idle), "_http._tcp.local."));
    assert!(matches!(search.step(Event::Browsing), Action::Listen));
    let web = instance("web._http._tcp.local.", Some("server"), None, &["10.0.0.80"], 80);
    assert!(matches!(search.step(Event::Resolved(web)), Action::Listen));
    assert!(is_browse(&search.step(Event::Idle), "_ssh._tcp.local."));
    assert!(matches!(search.step(Event::Browsing), Action::Listen));
    let shell = instance("box._ssh._tcp.local.", None, Some("http"), &["10.0.0.22"], 22);
    assert!(matches!(search.step(Event::Resolved(shell)), Action::Listen));
    assert!(matches!(search.step(Event::Idle), Action::Shutdown));
    assert!(matches!(search.step(Event::Stopped), Action::Finish));
    let found = search.finish().unwrap();
    assert_eq!(addresses(&found), vec!["https://10.0.0.80:80/", "http://10.0.0.22:22/"]);
    assert_eq!(found[0].name, "_http._tcp.local");
    assert_eq!(found[0].role, "server");
    assert_eq!(found[1].name, "_ssh._tcp.local");
    assert_eq!(found[1].role, "");
}

#[test]
fn closed_enumeration_goes_on_with_what_it_has() {
    let mut search = Search::new(Browse::new(None, None, false, false, second()));
    search.step(Event::Browsing);
    search.step(type_event("_http._tcp.local."));
    assert!(is_browse(&search.step(Event::Closed), "_http._tcp.local."));
    search.step(Event::Browsing);
    assert!(matches!(search.step(Event::Idle), Action::Shutdown));
    search.step(Event::Stopped);
    assert!(search.finish().unwrap().is_empty());
}

#[test]
fn closed_stream_stops_browsing_further_types() {
    let mut search = Search::new(Browse::new(None, None, false, false, second()));
    search.step(Event::Browsing);
    search.step(type_event("_a._tcp.local."));
    search.step(type_event("_b._tcp.local."));
    assert!(is_browse(&search.step(Event::Idle), "_a._tcp.local."));
    search.step(Event::Browsing);
    assert!(matches!(search.step(Event::Closed), Action::Shutdown));
    assert!(matches!(search.step(Event::Stopped), Action::Finish));
    assert!(matches!(search.finish(), Err(DiscoverError::MdnsChannelClosed)));
}

#[test]
fn instance_is_observed_once_across_types() {
    let mut search = Search::new(Browse::new(None, None, false, false, second()));
    search.step(Event::Browsing);
    search.step(type_event("_a._tcp.local."));
    search.step(type_event("_b._tcp.local."));
    search.step(Event::Idle);
    search.step(Event::Browsing);
    search.step(Event::Resolved(instance("x", None, None, &["10.0.0.1"], 1)));
    search.step(Event::Idle);
    search.step(Event::Browsing);
    search.step(Event::Resolved(instance("x", None, None, &["10.0.0.1"], 1)));
    search.step(Event::Idle);
    search.step(Event::Stopped);
    let found = search.finish().unwrap();
    assert_eq!(found.len(), 1);
    assert_eq!(found[0].name, "_a._tcp.local");
}

#[test]
fn wildcard_search_with_role_filter_leaves_out_roleless_instances() {
    let mut search = Search::new(Browse::new(None, Some("server"), false, false, second()));
    search.step(Event::Browsing);
    search.step(type_event("_a._tcp.local."));
    search.step(Event::Idle);
    search.step(Event::Browsing);
    search.step(Event::Resolved(instance("x", None, None, &["10.0.0.1"], 1)));
    search.step(Event::Resolved(instance("y", Some("server"), None, &["10.0.0.2"], 2)));
    search.step(Event::Idle);
    search.step(Event::Stopped);
    let found = search.finish().unwrap();
    assert_eq!(addresses(&found), vec!["http://10.0.0.2:2/"]);
}

#[test]
fn events_that_answer_nothing_change_nothing() {
    let mut search = Search::new(Browse::new(Some("foo"), None, false, false, second()));
    assert!(is_browse(&search.step(Event::Idle), "_foo._tcp.local."));
    assert!(is_browse(&search.step(Event::Stopped), "_foo._tcp.local."));
    assert!(is_browse(&search.step(Event::Resolved(server("a", &["10.0.0.1"]))), "_foo._tcp.local."));
    assert_eq!(search.phase(), Phase::Opening);
    assert!(matches!(search.step(Event::Browsing), Action::Listen));
    assert!(matches!(search.step(Event::Browsing), Action::Listen));
    assert!(matches!(search.step(Event::Stopped), Action::Listen));
    assert!(matches!(search.step(Event::Idle), Action::Shutdown));
    assert!(matches!(search.step(Event::Idle), Action::Shutdown));
    assert!(matches!(search.step(Event::Resolved(server("b", &["10.0.0.2"]))), Action::Shutdown));
    assert!(matches!(search.step(Event::Stopped), Action::Finish));
    assert!(matches!(search.step(Event::Closed), Action::Finish));
    assert!(search.finish().unwrap().is_empty());
}

#[test]
fn search_keeps_its_query() {
    let search = Search::new(Browse::new(Some("foo"), Some("server"), true, true, Duration::from_millis(250)));
    assert_eq!(search.query().name.as_deref(), Some("foo"));
    assert_eq!(search.query().role.as_deref(), Some("server"));
    assert!(search.query().udp);
    assert!(search.query().https);
    assert_eq!(search.query().idle_timeout, Duration::from_millis(250));
    assert!(is_browse(&search.pending(), "_foo._udp.local."));
}

#[test]
fn announcer_search_asks_for_name_and_role() {
    let find = Find::new("foo", "server", false, true, second());
    let mut search = Announce::search(find);
    assert!(is_browse(&search.pending(), "_foo._tcp.local."));
    search.step(Event::Browsing);
    search.step(Event::Resolved(instance("a", None, None, &["10.0.0.1"], 1)));
    search.step(Event::Resolved(instance("b", Some("client"), None, &["10.0.0.2"], 2)));
    search.step(Event::Resolved(instance("c", Some("server"), None, &["10.0.0.3"], 3)));
    search.step(Event::Idle);
    search.step(Event::Stopped);
    let found = Announce::found(&search.finish().unwrap());
    assert_eq!(found.len(), 1);
    assert_eq!(found[0].announcer, "server");
    assert_eq!(found[0].name, "foo");
    assert_eq!(found[0].identifier, "c");
    assert_eq!(found[0].address, "https://10.0.0.3:3/");
    assert_eq!(found[0].address(), "https://10.0.0.3:3/");
    assert_eq!(found[0].port, 3);
    assert!(found[0].https);
    assert!(!found[0].udp);
    assert!(found[0].mdns_daemon.is_none());
}
