//! The handle of a published service: where it is kept, and how it is
//! given up.
//!
//! A descriptor is inactive, with an empty slot, or active, with the
//! daemon that announces it in the slot. The daemon is started, and told to
//! register and to shut down, outside this library; these functions say
//! what becomes of the slot for each way such a request can end.

use crate::error::DiscoverError;
use mdns_sd::ServiceDaemon;
use vstd::prelude::*;

verus! {

/// The slot of a descriptor after an attempt to publish it on `daemon`,
/// and what the attempt returns: where the registration succeeded the
/// slot holds `daemon`; where it failed the slot is as before and the
/// failure is returned.
pub open spec fn after_publish(
    slot: Option<ServiceDaemon>,
    daemon: ServiceDaemon,
    registered: Result<(), mdns_sd::Error>,
) -> (Option<ServiceDaemon>, Result<(), DiscoverError>) {
    match registered {
        Ok(_) => (Some(daemon), Ok(())),
        Err(cause) => (slot, Err(DiscoverError::Mdns(cause))),
    }
}

/// The slot of a descriptor after an attempt to stop it, and what the
/// attempt returns. An empty slot stays empty and the attempt succeeds,
/// whatever `shutdown` holds: nothing was there to shut down. Otherwise
/// `shutdown` is how the shutdown of the daemon in the slot ended: after a
/// success the slot is empty, after a failure it keeps the daemon and the
/// failure is returned.
pub open spec fn after_stop(slot: Option<ServiceDaemon>, shutdown: Result<(), mdns_sd::Error>) -> (
    Option<ServiceDaemon>,
    Result<(), DiscoverError>,
) {
    match slot {
        None => (None, Ok(())),
        Some(daemon) => match shutdown {
            Ok(_) => (None, Ok(())),
            Err(cause) => (Some(daemon), Err(DiscoverError::Mdns(cause))),
        },
    }
}

/// Keeps `daemon` in the slot where the registration on it succeeded.
pub fn keep_handle(
    slot: &mut Option<ServiceDaemon>,
    daemon: ServiceDaemon,
    registered: Result<(), mdns_sd::Error>,
) -> (done: Result<(), DiscoverError>)
    ensures
        (*final(slot), done) == after_publish(*old(slot), daemon, registered),
{
    match registered {
        Ok(_) => {
            *slot = Some(daemon);
            Ok(())
        },
        Err(cause) => Err(DiscoverError::Mdns(cause)),
    }
}

/// Empties the slot where the shutdown of its daemon succeeded.
pub fn release_handle(slot: &mut Option<ServiceDaemon>, shutdown: Result<(), mdns_sd::Error>) -> (done:
    Result<(), DiscoverError>)
    ensures
        (*final(slot), done) == after_stop(*old(slot), shutdown),
{
    if slot.is_none() {
        return Ok(());
    }
    match shutdown {
        Ok(_) => {
            *slot = None;
            Ok(())
        },
        Err(cause) => Err(DiscoverError::Mdns(cause)),
    }
}

/// A descriptor that was published and then stopped holds no handle, and
/// stopping it once more succeeds and changes nothing, however the second
/// shutdown request is said to have ended.
pub proof fn law_publish_then_stop(
    slot: Option<ServiceDaemon>,
    daemon: ServiceDaemon,
    again: Result<(), mdns_sd::Error>,
)
    ensures
        ({
            let published = after_publish(slot, daemon, Ok(()));
            let stopped = after_stop(published.0, Ok(()));
            let twice = after_stop(stopped.0, again);
            &&& published.0 == Some(daemon)
            &&& published.1 is Ok
            &&& stopped.0 is None
            &&& stopped.1 is Ok
            &&& twice.0 == stopped.0
            &&& twice.1 is Ok
        }),
{
}

/// Stopping an inactive descriptor succeeds and leaves it inactive.
pub proof fn law_stop_inactive(shutdown: Result<(), mdns_sd::Error>)
    ensures
        after_stop(None, shutdown) == (None::<ServiceDaemon>, Ok::<(), DiscoverError>(())),
{
}

} // verus!
