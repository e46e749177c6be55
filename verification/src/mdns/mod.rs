//! Announcing a service and searching for services.

pub mod announcer;
pub mod discovery;
pub mod endpoint;
pub mod find;
pub mod laws;
pub mod publication;
pub mod record;
pub mod session;
