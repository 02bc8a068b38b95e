//! A line-oriented chat relay: a registry of connected handles that fans
//! broadcast lines out to every other handle, and the per-connection session
//! protocol that talks to it.

pub mod channel;
pub mod hub;
pub mod load;
pub mod models;
pub mod registry_laws;
pub mod session;
pub mod session_laws;
pub mod wire;
