//! The failures that an operation of this library ends with.

use vstd::prelude::*;

verus! {

/// Why a publish, stop or search did not succeed.
#[derive(Debug)]
pub enum DiscoverError {
    /// The mDNS daemon failed: on creation, registration, browse start or
    /// shutdown.
    Mdns(mdns_sd::Error),
    /// A browse stream ended before its idle timeout.
    MdnsChannelClosed,
    /// The operating system could not list the network interfaces.
    InterfaceEnumerationFailed(std::io::Error),
    /// The interfaces were listed, and none has a usable address.
    NoUsableInterfaces,
}

/// What a failure of the mDNS daemon says of itself: the text that the
/// `Display` of `mdns_sd::Error` writes for it, which goes by the failure
/// alone.
pub uninterp spec fn mdns_error_said(err: mdns_sd::Error) -> Seq<char>;

/// The text that `mdns_sd::Error`'s `Display` writes for `err`.
#[verifier::external_body]
fn mdns_error_text(err: &mdns_sd::Error) -> (text: String)
    ensures
        text@ == mdns_error_said(*err),
{
    format!("{}", err)
}

/// The text that `std::io::Error`'s `Display` writes for `err`. Nothing is
/// claimed of the text: for a failure of the operating system it is the
/// system's own description, in the language that the process runs in.
#[verifier::external_body]
fn io_error_text(err: &std::io::Error) -> (text: String) {
    format!("{}", err)
}

impl DiscoverError {
    /// The fixed words that a message for this failure begins with; for the
    /// two failures without a cause they are the whole message.
    pub open spec fn heading(self) -> Seq<char> {
        match self {
            DiscoverError::Mdns(_) => "mDNS error: "@,
            DiscoverError::MdnsChannelClosed => "mDNS event channel closed"@,
            DiscoverError::InterfaceEnumerationFailed(_) => "Failed to enumerate network interfaces: "@,
            DiscoverError::NoUsableInterfaces => "No usable network interfaces found"@,
        }
    }

    /// Whether the failure wraps a cause whose own text ends the message.
    pub open spec fn has_cause(self) -> bool {
        self is Mdns || self is InterfaceEnumerationFailed
    }

    /// The message of this failure where its cause, if it has one, says
    /// `cause`.
    pub open spec fn message_text(self, cause: Seq<char>) -> Seq<char> {
        if self.has_cause() {
            self.heading() + cause
        } else {
            self.heading()
        }
    }

    /// Composes the message of this failure from the text of its cause. A
    /// failure without a cause has its fixed message, whatever `cause`
    /// holds.
    pub fn message_with(&self, cause: &str) -> (text: String)
        ensures
            text@ == self.message_text(cause@),
    {
        match self {
            DiscoverError::Mdns(_) => String::from_str("mDNS error: ").concat(cause),
            DiscoverError::MdnsChannelClosed => String::from_str("mDNS event channel closed"),
            DiscoverError::InterfaceEnumerationFailed(_) => String::from_str(
                "Failed to enumerate network interfaces: ",
            ).concat(cause),
            DiscoverError::NoUsableInterfaces => String::from_str(
                "No usable network interfaces found",
            ),
        }
    }

    /// The message for a reader: the heading, then the cause's own text
    /// where there is a cause.
    pub fn message(&self) -> (text: String)
        ensures
            exists|cause: Seq<char>| text@ == #[trigger] self.message_text(cause),
            !self.has_cause() ==> text@ == self.heading(),
            *self matches DiscoverError::Mdns(cause) ==> text@ == self.message_text(
                mdns_error_said(cause),
            ),
    {
        let cause = match self {
            DiscoverError::Mdns(err) => mdns_error_text(err),
            DiscoverError::InterfaceEnumerationFailed(err) => io_error_text(err),
            _ => String::new(),
        };
        self.message_with(cause.as_str())
    }
}

impl From<mdns_sd::Error> for DiscoverError {
    fn from(err: mdns_sd::Error) -> (error: Self) {
        DiscoverError::Mdns(err)
    }
}

impl vstd::std_specs::convert::FromSpecImpl<mdns_sd::Error> for DiscoverError {
    open spec fn obeys_from_spec() -> bool {
        true
    }

    open spec fn from_spec(err: mdns_sd::Error) -> Self {
        DiscoverError::Mdns(err)
    }
}

} // verus!
