//! The names that a user of the library needs, in one place.

pub use crate::error::DiscoverError;
pub use crate::mdns::announcer::Announce;
pub use crate::mdns::discovery::Discover;
pub use crate::mdns::find::{Browse, Find};
pub use crate::mdns::record::{Properties, Registration};
pub use crate::mdns::session::{Action, Event, Phase, ResolvedInstance, Search};
pub use crate::utility::{collect_local_ips, Interface, IpAddress};
