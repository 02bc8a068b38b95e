//! A load generator for the relay: the plan it follows, the behaviour of
//! one simulated client, and the tallies it keeps.

pub mod client;
pub mod client_laws;
pub mod config;
pub mod histogram;
pub mod metrics;
pub mod pause;
pub mod report;
pub mod text;
