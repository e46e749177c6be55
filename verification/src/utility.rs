//! The local addresses that a service is announced on.

use crate::error::DiscoverError;
use crate::text::{decimal, decimal_text, hex, hex_text};
use vstd::prelude::*;

verus! {

/// An IP address, by its bytes.
#[derive(Clone, Copy, Debug, PartialEq, Eq, Structural)]
pub enum IpAddress {
    /// An IPv4 address, by its four octets.
    V4(u8, u8, u8, u8),
    /// An IPv6 address, by its eight segments.
    V6(u16, u16, u16, u16, u16, u16, u16, u16),
}

/// An address of a network interface of this machine, as the operating
/// system reports it.
#[derive(Clone, Copy, Debug, PartialEq, Eq, Structural)]
pub struct Interface {
    /// The address.
    pub ip: IpAddress,
    /// Whether the interface is reported as a loopback interface.
    pub loopback: bool,
}

impl IpAddress {
    /// Whether this is an IPv4 address of the block that link-local
    /// addresses are taken from: its first octet is 169.
    pub open spec fn in_v4_link_local_block(self) -> bool {
        self matches IpAddress::V4(first, _, _, _) && first == 169
    }

    /// Whether this is a unicast link-local IPv6 address: one of
    /// `fe80::/10`.
    pub open spec fn is_v6_link_local(self) -> bool {
        self matches IpAddress::V6(first, _, _, _, _, _, _, _) && 0xfe80 <= first <= 0xfebf
    }
}

impl IpAddress {
    /// The address as it is written: an IPv4 address as its four octets in
    /// decimal with dots between them, an IPv6 address as its eight
    /// segments in hexadecimal with colons between them, none left out.
    pub open spec fn text(self) -> Seq<char> {
        match self {
            IpAddress::V4(a, b, c, d) => decimal_text(a as nat) + "."@ + decimal_text(b as nat)
                + "."@ + decimal_text(c as nat) + "."@ + decimal_text(d as nat),
            IpAddress::V6(a, b, c, d, e, f, g, h) => hex_text(a as nat) + ":"@ + hex_text(b as nat)
                + ":"@ + hex_text(c as nat) + ":"@ + hex_text(d as nat) + ":"@ + hex_text(
                e as nat,
            ) + ":"@ + hex_text(f as nat) + ":"@ + hex_text(g as nat) + ":"@ + hex_text(h as nat),
        }
    }

    /// Writes the address.
    pub fn to_text(&self) -> (text: String)
        ensures
            text@ == self.text(),
    {
        match *self {
            IpAddress::V4(a, b, c, d) => {
                let mut text = decimal(a as u16);
                text.append(".");
                text.append(decimal(b as u16).as_str());
                text.append(".");
                text.append(decimal(c as u16).as_str());
                text.append(".");
                text.append(decimal(d as u16).as_str());
                text
            },
            IpAddress::V6(a, b, c, d, e, f, g, h) => {
                let mut text = hex(a);
                text.append(":");
                text.append(hex(b).as_str());
                text.append(":");
                text.append(hex(c).as_str());
                text.append(":");
                text.append(hex(d).as_str());
                text.append(":");
                text.append(hex(e).as_str());
                text.append(":");
                text.append(hex(f).as_str());
                text.append(":");
                text.append(hex(g).as_str());
                text.append(":");
                text.append(hex(h).as_str());
                text
            },
        }
    }
}

/// What the addresses of `list` are written as, in their order.
pub open spec fn address_texts(list: Seq<IpAddress>) -> Seq<Seq<char>> {
    Seq::new(list.len(), |i: int| list[i].text())
}

impl Interface {
    /// Whether a service can be announced on this address: it is no
    /// loopback address and no link-local one.
    pub open spec fn usable(self) -> bool {
        !self.loopback && !self.ip.in_v4_link_local_block() && !self.ip.is_v6_link_local()
    }

    /// Decides whether a service can be announced on this address.
    pub fn is_usable(&self) -> (usable: bool)
        ensures
            usable == self.usable(),
    {
        if self.loopback {
            return false;
        }
        match self.ip {
            IpAddress::V4(first, _, _, _) => first != 169,
            IpAddress::V6(first, _, _, _, _, _, _, _) => !(0xfe80 <= first && first <= 0xfebf),
        }
    }
}

/// The addresses of the usable interfaces among `found`, in the order of
/// `found`.
pub open spec fn usable_ips(found: Seq<Interface>) -> Seq<IpAddress>
    decreases found.len(),
{
    if found.len() == 0 {
        Seq::empty()
    } else if found.last().usable() {
        usable_ips(found.drop_last()).push(found.last().ip)
    } else {
        usable_ips(found.drop_last())
    }
}

/// What `collect_local_ips` makes of the operating system's answer.
pub open spec fn local_ips(found: Result<Seq<Interface>, std::io::Error>) -> Result<
    Seq<IpAddress>,
    DiscoverError,
> {
    match found {
        Err(cause) => Err(DiscoverError::InterfaceEnumerationFailed(cause)),
        Ok(list) => if usable_ips(list).len() == 0 {
            Err(DiscoverError::NoUsableInterfaces)
        } else {
            Ok(usable_ips(list))
        },
    }
}

/// The interface list of an answer of the operating system, as plain
/// values.
pub open spec fn answer_view(found: Result<Vec<Interface>, std::io::Error>) -> Result<
    Seq<Interface>,
    std::io::Error,
> {
    match found {
        Ok(list) => Ok(list@),
        Err(cause) => Err(cause),
    }
}

/// The list of addresses of a result, as plain values.
pub open spec fn ips_view(ips: Result<Vec<IpAddress>, DiscoverError>) -> Result<
    Seq<IpAddress>,
    DiscoverError,
> {
    match ips {
        Ok(list) => Ok(list@),
        Err(error) => Err(error),
    }
}

/// Picks the addresses to announce a service on from the answer of the
/// operating system to a query for its network interfaces: every address
/// that is neither loopback nor link-local, in the reported order. Fails
/// where the query failed, and where no address is left.
pub fn collect_local_ips(found: Result<Vec<Interface>, std::io::Error>) -> (ips: Result<
    Vec<IpAddress>,
    DiscoverError,
>)
    ensures
        ips_view(ips) == local_ips(answer_view(found)),
{
    let list = match found {
        Ok(list) => list,
        Err(cause) => {
            return Err(DiscoverError::InterfaceEnumerationFailed(cause));
        },
    };
    let mut ips: Vec<IpAddress> = Vec::new();
    let mut i: usize = 0;
    while i < list.len()
        invariant
            i <= list.len(),
            ips@ == usable_ips(list@.subrange(0, i as int)),
        decreases list.len() - i,
    {
        proof {
            let head = list@.subrange(0, i + 1);
            assert(head.drop_last() =~= list@.subrange(0, i as int));
        }
        if list[i].is_usable() {
            ips.push(list[i].ip);
        }
        i = i + 1;
    }
    assert(list@.subrange(0, i as int) =~= list@);
    if ips.len() == 0 {
        return Err(DiscoverError::NoUsableInterfaces);
    }
    Ok(ips)
}

/// Every address that is picked is the address of a usable interface of
/// the list.
pub proof fn law_picked_are_usable(found: Seq<Interface>, k: int)
    requires
        0 <= k < usable_ips(found).len(),
    ensures
        exists|i: int|
            0 <= i < found.len() && #[trigger] found[i].usable() && found[i].ip == usable_ips(
                found,
            )[k],
    decreases found.len(),
{
    if found.last().usable() && k == usable_ips(found).len() - 1 {
        assert(found[found.len() - 1].usable());
    } else {
        law_picked_are_usable(found.drop_last(), k);
        let rest = found.drop_last();
        let i = choose|i: int|
            0 <= i < rest.len() && #[trigger] rest[i].usable() && rest[i].ip == usable_ips(rest)[k];
        assert(found[i].usable());
    }
}

/// The address of every usable interface of the list is picked.
pub proof fn law_usable_are_picked(found: Seq<Interface>, i: int)
    requires
        0 <= i < found.len(),
        found[i].usable(),
    ensures
        usable_ips(found).contains(found[i].ip),
    decreases found.len(),
{
    let picked = usable_ips(found);
    if i == found.len() - 1 {
        assert(picked[picked.len() - 1] == found[i].ip);
    } else {
        let rest = found.drop_last();
        law_usable_are_picked(rest, i);
        let k = choose|k: int| 0 <= k < usable_ips(rest).len() && usable_ips(rest)[k] == rest[i].ip;
        assert(picked[k] == found[i].ip);
    }
}

/// No more addresses are picked than interfaces were found, and none where
/// every interface is loopback or link-local.
pub proof fn law_picked_count(found: Seq<Interface>)
    ensures
        usable_ips(found).len() <= found.len(),
        (forall|i: int| 0 <= i < found.len() ==> !(#[trigger] found[i]).usable()) ==> usable_ips(
            found,
        ).len() == 0,
    decreases found.len(),
{
    if found.len() > 0 {
        let rest = found.drop_last();
        law_picked_count(rest);
        if forall|i: int| 0 <= i < found.len() ==> !(#[trigger] found[i]).usable() {
            assert forall|i: int| 0 <= i < rest.len() implies !(#[trigger] rest[i]).usable() by {
                assert(rest[i] == found[i]);
            }
            assert(!found[found.len() - 1].usable());
        }
    }
}

} // verus!
