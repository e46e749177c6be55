//! The queries that a search is started with.

use crate::mdns::record::opt_text;
use std::time::Duration;
use vstd::prelude::*;

verus! {

/// A query for services: by name or for every service type on the network,
/// with or without a role to match.
#[derive(Debug)]
pub struct Browse {
    /// The service name; `None` browses every advertised service type.
    pub name: Option<String>,
    /// The role that an instance must advertise; `None` takes any.
    pub role: Option<String>,
    /// Whether the service runs over UDP rather than TCP.
    pub udp: bool,
    /// Whether an instance that advertises no transport counts as secure.
    pub https: bool,
    /// How long a browse may stay silent before it is taken as complete.
    pub idle_timeout: Duration,
}

/// A query, as plain values.
pub struct BrowseView {
    pub name: Option<Seq<char>>,
    pub role: Option<Seq<char>>,
    pub udp: bool,
    pub https: bool,
    pub idle_timeout: Duration,
}

impl View for Browse {
    type V = BrowseView;

    open spec fn view(&self) -> BrowseView {
        BrowseView {
            name: opt_text(self.name),
            role: opt_text(self.role),
            udp: self.udp,
            https: self.https,
            idle_timeout: self.idle_timeout,
        }
    }
}

/// What an optional string slice says.
pub open spec fn opt_str_text(s: Option<&str>) -> Option<Seq<char>> {
    match s {
        Some(s) => Some(s@),
        None => None,
    }
}

fn owned(s: Option<&str>) -> (o: Option<String>)
    ensures
        opt_text(o) == opt_str_text(s),
{
    match s {
        Some(s) => Some(String::from_str(s)),
        None => None,
    }
}

fn copy_of(s: &Option<String>) -> (c: Option<String>)
    ensures
        c == *s,
{
    match s {
        Some(s) => Some(s.clone()),
        None => None,
    }
}

impl Clone for Browse {
    fn clone(&self) -> (copy: Self)
        ensures
            copy == *self,
    {
        Browse {
            name: copy_of(&self.name),
            role: copy_of(&self.role),
            udp: self.udp,
            https: self.https,
            idle_timeout: self.idle_timeout,
        }
    }
}

impl Clone for Find {
    fn clone(&self) -> (copy: Self)
        ensures
            copy == *self,
    {
        Find {
            name: self.name.clone(),
            role_to_find: self.role_to_find.clone(),
            udp: self.udp,
            https: self.https,
            idle_timeout: self.idle_timeout,
        }
    }
}

impl Browse {
    /// A query with the given fields.
    pub fn new(
        name: Option<&str>,
        role: Option<&str>,
        udp: bool,
        https: bool,
        idle_timeout: Duration,
    ) -> (browse: Self)
        ensures
            browse@ == (BrowseView {
                name: opt_str_text(name),
                role: opt_str_text(role),
                udp,
                https,
                idle_timeout,
            }),
    {
        Self { name: owned(name), role: owned(role), udp, https, idle_timeout }
    }
}

/// A query for the instances of one named service that play one role.
#[derive(Debug)]
pub struct Find {
    /// The service name.
    pub name: String,
    /// The role that an instance must advertise.
    pub role_to_find: String,
    /// Whether the service runs over UDP rather than TCP.
    pub udp: bool,
    /// Whether an instance that advertises no transport counts as secure.
    pub https: bool,
    /// How long the browse may stay silent before it is taken as complete.
    pub idle_timeout: Duration,
}

impl Find {
    /// A query with the given fields.
    pub fn new(name: &str, role_to_find: &str, udp: bool, https: bool, idle_timeout: Duration) -> (find:
        Self)
        ensures
            find.name@ == name@,
            find.role_to_find@ == role_to_find@,
            find.udp == udp,
            find.https == https,
            find.idle_timeout == idle_timeout,
    {
        Self {
            name: String::from_str(name),
            role_to_find: String::from_str(role_to_find),
            udp,
            https,
            idle_timeout,
        }
    }

    /// The same query in its general form: the name and the role are both
    /// given.
    pub open spec fn as_browse(self) -> BrowseView {
        BrowseView {
            name: Some(self.name@),
            role: Some(self.role_to_find@),
            udp: self.udp,
            https: self.https,
            idle_timeout: self.idle_timeout,
        }
    }

    /// Turns the query into its general form.
    pub fn into_browse(self) -> (browse: Browse)
        ensures
            browse@ == self.as_browse(),
    {
        Browse {
            name: Some(self.name),
            role: Some(self.role_to_find),
            udp: self.udp,
            https: self.https,
            idle_timeout: self.idle_timeout,
        }
    }
}

} // verus!
