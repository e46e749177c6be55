//! What a published service tells the network about itself.

use crate::error::DiscoverError;
use crate::order::texts;
use crate::utility::{address_texts, IpAddress};
use mdns_sd::ServiceInfo;
use vstd::prelude::*;

verus! {

/// The label of the protocol layer in a service type.
pub open spec fn layer_text(udp: bool) -> Seq<char> {
    if udp {
        "udp"@
    } else {
        "tcp"@
    }
}

/// The service type of `name`: `_name._udp.local.` or `_name._tcp.local.`.
pub open spec fn service_type_text(name: Seq<char>, udp: bool) -> Seq<char> {
    "_"@ + name + "._"@ + layer_text(udp) + ".local."@
}

/// The host name of a service: `name.local.`.
pub open spec fn host_name_text(name: Seq<char>) -> Seq<char> {
    name + ".local."@
}

/// The value of the `transport` property.
pub open spec fn transport_text(https: bool) -> Seq<char> {
    if https {
        "https"@
    } else {
        "http"@
    }
}

/// Composes the service type of `name` on the given protocol layer.
pub fn service_type(name: &str, udp: bool) -> (text: String)
    ensures
        text@ == service_type_text(name@, udp),
{
    let mut text = String::from_str("_");
    text.append(name);
    text.append("._");
    text.append(
        if udp {
            "udp"
        } else {
            "tcp"
        },
    );
    text.append(".local.");
    text
}

/// Composes the host name of the service `name`.
pub fn host_name(name: &str) -> (text: String)
    ensures
        text@ == host_name_text(name@),
{
    let mut text = String::from_str(name);
    text.append(".local.");
    text
}

/// The properties of a service record that this library knows: the role of
/// the instance and its transport.
pub struct Properties {
    /// The value under the key `role`, if the record has that key.
    pub role: Option<String>,
    /// The value under the key `transport`, if the record has that key.
    pub transport: Option<String>,
}

/// What the properties say, as plain text.
pub struct PropertiesView {
    pub role: Option<Seq<char>>,
    pub transport: Option<Seq<char>>,
}

/// What an optional string says.
pub open spec fn opt_text(s: Option<String>) -> Option<Seq<char>> {
    match s {
        Some(s) => Some(s@),
        None => None,
    }
}

impl View for Properties {
    type V = PropertiesView;

    open spec fn view(&self) -> PropertiesView {
        PropertiesView { role: opt_text(self.role), transport: opt_text(self.transport) }
    }
}

/// The record that a publisher registers with the mDNS daemon.
pub struct Registration {
    /// The service type, as `service_type` composes it.
    pub service_type: String,
    /// The instance identifier.
    pub instance: String,
    /// The host name, as `host_name` composes it.
    pub host_name: String,
    /// The addresses that the service is announced on.
    pub addresses: Vec<IpAddress>,
    /// The port of the service.
    pub port: u16,
    /// The value of the property `role`.
    pub role: String,
    /// The value of the property `transport`.
    pub transport: String,
}

/// A registration, as plain values.
pub struct RegistrationView {
    pub service_type: Seq<char>,
    pub instance: Seq<char>,
    pub host_name: Seq<char>,
    pub addresses: Seq<IpAddress>,
    pub port: u16,
    pub role: Seq<char>,
    pub transport: Seq<char>,
}

impl View for Registration {
    type V = RegistrationView;

    open spec fn view(&self) -> RegistrationView {
        RegistrationView {
            service_type: self.service_type@,
            instance: self.instance@,
            host_name: self.host_name@,
            addresses: self.addresses@,
            port: self.port,
            role: self.role@,
            transport: self.transport@,
        }
    }
}

/// The record of a service, as plain values: its type and host name come
/// from `name`, its properties are `role` and the transport that `https`
/// stands for.
pub open spec fn registration_of(
    role: Seq<char>,
    name: Seq<char>,
    identifier: Seq<char>,
    port: u16,
    udp: bool,
    https: bool,
    addresses: Seq<IpAddress>,
) -> RegistrationView {
    RegistrationView {
        service_type: service_type_text(name, udp),
        instance: identifier,
        host_name: host_name_text(name),
        addresses,
        port,
        role,
        transport: transport_text(https),
    }
}

/// Composes the record of a service.
pub fn compose_registration(
    role: &str,
    name: &str,
    identifier: &str,
    port: u16,
    udp: bool,
    https: bool,
    addresses: Vec<IpAddress>,
) -> (record: Registration)
    ensures
        record@ == registration_of(role@, name@, identifier@, port, udp, https, addresses@),
{
    let transport = if https {
        "https"
    } else {
        "http"
    };
    Registration {
        service_type: service_type(name, udp),
        instance: String::from_str(identifier),
        host_name: host_name(name),
        addresses,
        port,
        role: String::from_str(role),
        transport: String::from_str(transport),
    }
}

/// How many bytes the text takes in UTF-8.
pub open spec fn utf8_len(text: Seq<char>) -> nat {
    vstd::utf8::encode_utf8(text).len()
}

/// The longest property, in bytes: a property is one string of a TXT
/// record, which holds the key, an equals sign and the value.
pub const PROPERTY_MAX: usize = 255;

/// The longest value, in bytes, that the property `role` can have.
pub const ROLE_MAX: usize = 250;

/// The longest value, in bytes, that the property `transport` can have.
pub const TRANSPORT_MAX: usize = 245;

/// The keys of the properties of a record, in their order.
pub open spec fn property_keys() -> Seq<Seq<char>> {
    seq!["role"@, "transport"@]
}

/// Whether `text` is an address as `IpAddress::to_text` writes it.
pub open spec fn is_written_address(text: Seq<char>) -> bool {
    exists|ip: IpAddress| text == #[trigger] ip.text()
}

/// Whether every text of `list` is an address as `IpAddress::to_text`
/// writes it.
pub open spec fn are_written_addresses(list: Seq<Seq<char>>) -> bool {
    forall|i: int| 0 <= i < list.len() ==> is_written_address(#[trigger] list[i])
}

/// The keys of `pairs`, in their order.
pub open spec fn keys_of(pairs: Seq<(String, String)>) -> Seq<Seq<char>> {
    Seq::new(pairs.len(), |i: int| pairs[i].0@)
}

/// The values of `pairs`, in their order.
pub open spec fn values_of(pairs: Seq<(String, String)>) -> Seq<Seq<char>> {
    Seq::new(pairs.len(), |i: int| pairs[i].1@)
}

/// Whether a property can stand in a service record: its key is ASCII and
/// holds no equals sign, and key, equals sign and value take no more than
/// `PROPERTY_MAX` bytes.
pub open spec fn property_fits(key: Seq<char>, value: Seq<char>) -> bool {
    &&& vstd::utf8::is_ascii_chars(key)
    &&& !key.contains('=')
    &&& utf8_len(key) + 1 + utf8_len(value) <= PROPERTY_MAX
}

/// Whether every property of the two lists can stand in a service record.
pub open spec fn properties_fit(keys: Seq<Seq<char>>, values: Seq<Seq<char>>) -> bool {
    forall|i: int| 0 <= i < keys.len() ==> property_fits(#[trigger] keys[i], values[i])
}

/// The service record that `mdns_sd::ServiceInfo::new` makes of these
/// values, where it makes one. The record is taken as what it holds: the
/// names, the port, the set of addresses and the properties. Nothing is
/// said of the order in which its addresses are walked.
pub uninterp spec fn service_record(
    service_type: Seq<char>,
    instance: Seq<char>,
    host_name: Seq<char>,
    addresses: Seq<Seq<char>>,
    port: u16,
    keys: Seq<Seq<char>>,
    values: Seq<Seq<char>>,
) -> ServiceInfo;

/// Calls `mdns_sd::ServiceInfo::new`.
///
/// The contract names the record that the call makes, and says of its
/// success what the source shows. `new` fails where an address does not
/// parse and where a property that it keeps is unfit; it fails nowhere
/// else. The addresses that `IpAddress::to_text` writes parse. So with
/// such addresses and fit properties the call succeeds. Of two properties
/// whose keys are the same but for the case of letters `new` keeps the
/// first only, so the first property of the list is always kept: where the
/// call succeeds, that one is fit.
#[verifier::external_body]
fn new_service_info(
    service_type: &str,
    instance: &str,
    host_name: &str,
    addresses: &Vec<String>,
    port: u16,
    properties: &Vec<(String, String)>,
) -> (info: Result<ServiceInfo, mdns_sd::Error>)
    ensures
        info matches Ok(made) ==> made == service_record(
            service_type@,
            instance@,
            host_name@,
            texts(addresses@),
            port,
            keys_of(properties@),
            values_of(properties@),
        ),
        are_written_addresses(texts(addresses@)) && properties_fit(
            keys_of(properties@),
            values_of(properties@),
        ) ==> info is Ok,
        info is Ok && properties@.len() > 0 ==> property_fits(
            keys_of(properties@)[0],
            values_of(properties@)[0],
        ),
{
    ServiceInfo::new(service_type, instance, host_name, &addresses[..], port, &properties[..])
}

/// What `finish_service_info` makes of the daemon crate's answer: the
/// record, or the crate's failure as one of this library.
pub open spec fn finished(info: Result<ServiceInfo, mdns_sd::Error>) -> Result<
    ServiceInfo,
    DiscoverError,
> {
    match info {
        Ok(info) => Ok(info),
        Err(cause) => Err(DiscoverError::Mdns(cause)),
    }
}

/// Turns the daemon crate's answer to a request for a service record into
/// the library's.
pub fn finish_service_info(info: Result<ServiceInfo, mdns_sd::Error>) -> (done: Result<
    ServiceInfo,
    DiscoverError,
>)
    ensures
        done == finished(info),
{
    match info {
        Ok(info) => Ok(info),
        Err(cause) => Err(DiscoverError::Mdns(cause)),
    }
}

/// The properties of a record: `role` first, then `transport`.
pub fn record_properties(role: &str, transport: &str) -> (pairs: Vec<(String, String)>)
    ensures
        keys_of(pairs@) == property_keys(),
        values_of(pairs@) == seq![role@, transport@],
{
    let mut pairs: Vec<(String, String)> = Vec::new();
    pairs.push((String::from_str("role"), String::from_str(role)));
    pairs.push((String::from_str("transport"), String::from_str(transport)));
    assert(keys_of(pairs@) =~= property_keys());
    assert(values_of(pairs@) =~= seq![role@, transport@]);
    pairs
}

/// The two keys are fit, and take four and nine bytes: a role fits exactly
/// up to `ROLE_MAX` bytes, a transport exactly up to `TRANSPORT_MAX`.
pub proof fn lemma_property_limits(role: Seq<char>, transport: Seq<char>)
    ensures
        property_fits(property_keys()[0], role) <==> utf8_len(role) <= ROLE_MAX,
        property_fits(property_keys()[1], transport) <==> utf8_len(transport) <= TRANSPORT_MAX,
{
    reveal_strlit("role");
    reveal_strlit("transport");
    vstd::utf8::is_ascii_chars_encode_utf8("role"@);
    vstd::utf8::is_ascii_chars_encode_utf8("transport"@);
}

impl RegistrationView {
    /// The service record of this registration: what the daemon crate
    /// makes of its names, its addresses as they are written, its port,
    /// and its two properties.
    pub open spec fn record(self) -> ServiceInfo {
        service_record(
            self.service_type,
            self.instance,
            self.host_name,
            address_texts(self.addresses),
            self.port,
            property_keys(),
            seq![self.role, self.transport],
        )
    }
}

impl Registration {
    /// Writes the addresses of the record.
    pub fn address_texts(&self) -> (list: Vec<String>)
        ensures
            texts(list@) == address_texts(self@.addresses),
    {
        let mut list: Vec<String> = Vec::new();
        let mut i: usize = 0;
        while i < self.addresses.len()
            invariant
                i <= self.addresses.len(),
                list.len() == i,
                forall|k: int| 0 <= k < i ==> (#[trigger] list@[k])@ == self.addresses@[k].text(),
            decreases self.addresses.len() - i,
        {
            list.push(self.addresses[i].to_text());
            i = i + 1;
        }
        assert(texts(list@) =~= address_texts(self@.addresses));
        list
    }

    /// Makes the service record that the daemon registers: the record of
    /// this registration. Where the transport fits, the record is made
    /// exactly when the role has at most `ROLE_MAX` bytes; a failure is
    /// the daemon crate's, as a failure of this library.
    pub fn service_info(&self) -> (info: Result<ServiceInfo, DiscoverError>)
        ensures
            info matches Ok(made) ==> made == self@.record(),
            utf8_len(self@.transport) <= TRANSPORT_MAX ==> (info is Ok <==> utf8_len(self@.role)
                <= ROLE_MAX),
            info matches Err(failure) ==> failure is Mdns,
    {
        let addresses = self.address_texts();
        let properties = record_properties(self.role.as_str(), self.transport.as_str());
        proof {
            assert forall|i: int| 0 <= i < addresses@.len() implies is_written_address(
                #[trigger] texts(addresses@)[i],
            ) by {
                assert(texts(addresses@).len() == address_texts(self@.addresses).len());
                assert(address_texts(self@.addresses)[i] == self@.addresses[i].text());
            }
            lemma_property_limits(self@.role, self@.transport);
            assert(keys_of(properties@).len() == 2);
        }
        finish_service_info(
            new_service_info(
                self.service_type.as_str(),
                self.instance.as_str(),
                self.host_name.as_str(),
                &addresses,
                self.port,
                &properties,
            ),
        )
    }
}

/// The transport that this library writes fits into its property.
pub proof fn lemma_transport_fits(https: bool)
    ensures
        utf8_len(transport_text(https)) <= TRANSPORT_MAX,
{
    reveal_strlit("https");
    reveal_strlit("http");
    vstd::utf8::is_ascii_chars_encode_utf8(transport_text(https));
}

} // verus!
