use discover::mdns::endpoint::format_endpoint;
use discover::mdns::record::{compose_registration, host_name, service_type};
use discover::order::{insert_text, text_before};
use discover::text::{decimal, eq_ignore_ascii_case, hex, trim_trailing_dots};
use discover::utility::IpAddress;

#[test]
fn decimal_writes_every_length() {
    assert_eq!(decimal(0), "0");
    assert_eq!(decimal(9), "9");
    assert_eq!(decimal(10), "10");
    assert_eq!(decimal(80), "80");
    assert_eq!(decimal(443), "443");
    assert_eq!(decimal(8080), "8080");
    assert_eq!(decimal(10000), "10000");
    assert_eq!(decimal(65535), "65535");
}

#[test]
fn decimal_agrees_with_std_on_every_port() {
    let mut n: u16 = 0;
    loop {
        assert_eq!(decimal(n), n.to_string());
        if n == u16::MAX {
            break;
        }
        n += 1;
    }
}

#[test]
fn endpoint_has_scheme_address_port_and_slash() {
    assert_eq!(format_endpoint("10.0.0.5", 8080, false), "http://10.0.0.5:8080/");
    assert_eq!(format_endpoint("10.0.0.5", 8080, true), "https://10.0.0.5:8080/");
    assert_eq!(format_endpoint("192.168.1.20", 0, false), "http://192.168.1.20:0/");
    assert_eq!(format_endpoint("192.168.1.20", 65535, true), "https://192.168.1.20:65535/");
}

#[test]
fn endpoint_takes_the_address_as_written() {
    assert_eq!(format_endpoint("2001:db8::1", 443, true), "https://2001:db8::1:443/");
    assert_eq!(format_endpoint("", 1, false), "http://:1/");
    assert_eq!(format_endpoint("a b/c", 7, false), "http://a b/c:7/");
}

#[test]
fn case_of_ascii_letters_is_disregarded() {
    assert!(eq_ignore_ascii_case("https", "https"));
    assert!(eq_ignore_ascii_case("HTTPS", "https"));
    assert!(eq_ignore_ascii_case("HtTpS", "https"));
    assert!(eq_ignore_ascii_case("", ""));
    assert!(!eq_ignore_ascii_case("http", "https"));
    assert!(!eq_ignore_ascii_case("https ", "https"));
    assert!(!eq_ignore_ascii_case("httpz", "https"));
    assert!(!eq_ignore_ascii_case("", "https"));
}

#[test]
fn case_of_other_letters_counts() {
    assert!(eq_ignore_ascii_case("\u{e9}A", "\u{e9}a"));
    assert!(!eq_ignore_ascii_case("\u{c9}", "\u{e9}"));
    assert!(!eq_ignore_ascii_case("@", "`"));
    assert!(!eq_ignore_ascii_case("[", "{"));
}

#[test]
fn case_comparison_agrees_with_std() {
    let samples = ["", "a", "A", "https", "HTTPS", "Http", "h\u{e9}", "H\u{e9}", "H\u{c9}", "z[", "Z{"];
    for a in samples {
        for b in samples {
            assert_eq!(eq_ignore_ascii_case(a, b), a.eq_ignore_ascii_case(b));
        }
    }
}

#[test]
fn trailing_dots_are_removed() {
    assert_eq!(trim_trailing_dots("_foo._tcp.local."), "_foo._tcp.local");
    assert_eq!(trim_trailing_dots("_foo._tcp.local"), "_foo._tcp.local");
    assert_eq!(trim_trailing_dots("a.."), "a");
    assert_eq!(trim_trailing_dots("..."), "");
    assert_eq!(trim_trailing_dots(""), "");
    assert_eq!(trim_trailing_dots(".a"), ".a");
    assert_eq!(trim_trailing_dots("\u{e9}."), "\u{e9}");
}

#[test]
fn strings_are_ordered_from_the_front() {
    assert!(text_before("", "a"));
    assert!(text_before("a", "b"));
    assert!(text_before("a", "ab"));
    assert!(text_before("ab", "b"));
    assert!(text_before("Z", "a"));
    assert!(text_before("_a._tcp.local.", "_b._tcp.local."));
    assert!(!text_before("a", "a"));
    assert!(!text_before("b", "a"));
    assert!(!text_before("ab", "a"));
    assert!(!text_before("", ""));
}

#[test]
fn string_order_agrees_with_std() {
    let samples = ["", "a", "ab", "b", "B", "\u{e9}", "z", "\u{10348}", "\u{ffff}", "a\u{e9}"];
    for a in samples {
        for b in samples {
            assert_eq!(text_before(a, b), a < b);
        }
    }
}

#[test]
fn inserting_keeps_the_list_sorted_and_without_repeats() {
    let mut list: Vec<String> = Vec::new();
    for name in ["m", "b", "z", "b", "a", "m", "za", ""] {
        insert_text(&mut list, name.to_string());
    }
    assert_eq!(list, vec!["", "a", "b", "m", "z", "za"]);
}

#[test]
fn inserting_agrees_with_sort_and_dedup() {
    let names = ["_http._tcp.local.", "_ssh._tcp.local.", "_http._tcp.local.", "_afp._tcp.local.", "_ipp._udp.local."];
    let mut list: Vec<String> = Vec::new();
    for name in names {
        insert_text(&mut list, name.to_string());
    }
    let mut expected: Vec<String> = names.iter().map(|n| n.to_string()).collect();
    expected.sort();
    expected.dedup();
    assert_eq!(list, expected);
}

#[test]
fn service_type_names_the_layer() {
    assert_eq!(service_type("foo", false), "_foo._tcp.local.");
    assert_eq!(service_type("foo", true), "_foo._udp.local.");
    assert_eq!(service_type("demo-service", false), "_demo-service._tcp.local.");
    assert_eq!(service_type("", true), "_._udp.local.");
}

#[test]
fn host_name_is_local() {
    assert_eq!(host_name("foo"), "foo.local.");
    assert_eq!(host_name(""), ".local.");
}

#[test]
fn registration_holds_role_and_transport() {
    let ips = vec![IpAddress::V4(10, 0, 0, 5)];
    let record = compose_registration("server", "foo", "instance1", 8080, false, true, ips.clone());
    assert_eq!(record.service_type, "_foo._tcp.local.");
    assert_eq!(record.instance, "instance1");
    assert_eq!(record.host_name, "foo.local.");
    assert_eq!(record.addresses, ips);
    assert_eq!(record.port, 8080);
    assert_eq!(record.role, "server");
    assert_eq!(record.transport, "https");
    let plain = compose_registration("client", "bar", "i2", 1, true, false, Vec::new());
    assert_eq!(plain.service_type, "_bar._udp.local.");
    assert_eq!(plain.role, "client");
    assert_eq!(plain.transport, "http");
    assert!(plain.addresses.is_empty());
}

#[test]
fn hex_writes_small_letters_without_leading_zeros() {
    assert_eq!(hex(0), "0");
    assert_eq!(hex(9), "9");
    assert_eq!(hex(10), "a");
    assert_eq!(hex(15), "f");
    assert_eq!(hex(16), "10");
    assert_eq!(hex(0xdb8), "db8");
    assert_eq!(hex(0x2001), "2001");
    assert_eq!(hex(0xfe80), "fe80");
    assert_eq!(hex(0xffff), "ffff");
}

#[test]
fn hex_agrees_with_std_on_every_segment() {
    let mut n: u16 = 0;
    loop {
        assert_eq!(hex(n), format!("{:x}", n));
        if n == u16::MAX {
            break;
        }
        n += 1;
    }
}

#[test]
fn addresses_are_written_in_full() {
    assert_eq!(IpAddress::V4(10, 0, 0, 5).to_text(), "10.0.0.5");
    assert_eq!(IpAddress::V4(0, 0, 0, 0).to_text(), "0.0.0.0");
    assert_eq!(IpAddress::V4(255, 255, 255, 255).to_text(), "255.255.255.255");
    assert_eq!(IpAddress::V4(192, 168, 1, 20).to_text(), "192.168.1.20");
    assert_eq!(IpAddress::V6(0x2001, 0xdb8, 0, 0, 0, 0, 0, 1).to_text(), "2001:db8:0:0:0:0:0:1");
    assert_eq!(IpAddress::V6(0, 0, 0, 0, 0, 0, 0, 0).to_text(), "0:0:0:0:0:0:0:0");
    assert_eq!(
        IpAddress::V6(0xfe80, 0x1, 0x20, 0x300, 0x4000, 0xabcd, 0xffff, 0xf).to_text(),
        "fe80:1:20:300:4000:abcd:ffff:f"
    );
}
