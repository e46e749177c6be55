//! The address under which a discovered service is reached.

use crate::text::{decimal, decimal_text};
use vstd::prelude::*;

verus! {

/// The scheme of an endpoint: `https` where the transport is secure, else
/// `http`.
pub open spec fn scheme_text(https: bool) -> Seq<char> {
    if https {
        "https"@
    } else {
        "http"@
    }
}

/// The endpoint of `address` and `port`: scheme, `://`, the address as it
/// is written, a colon, the port in decimal, and a slash.
pub open spec fn endpoint_text(address: Seq<char>, port: u16, https: bool) -> Seq<char> {
    scheme_text(https) + "://"@ + address + ":"@ + decimal_text(port as nat) + "/"@
}

/// Writes the endpoint of a resolved address. The address is taken as it
/// is written: nothing in it is escaped or checked.
pub fn format_endpoint(address: &str, port: u16, https: bool) -> (text: String)
    ensures
        text@ == endpoint_text(address@, port, https),
{
    let mut text = String::from_str(
        if https {
            "https"
        } else {
            "http"
        },
    );
    text.append("://");
    text.append(address);
    text.append(":");
    text.append(decimal(port).as_str());
    text.append("/");
    text
}

} // verus!
