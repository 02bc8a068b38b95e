//! The plan of a load test.

use vstd::prelude::*;

verus! {

/// One phase of a load test: so many clients at once, for so long, each
/// pausing between its messages for a time within the given bounds.
#[derive(Clone, Debug, PartialEq, Eq)]
pub struct TestStep {
    pub name: String,
    pub concurrency: usize,
    pub duration_secs: u64,
    /// The shortest and the longest pause, in milliseconds.
    pub think_time_ms: [u64; 2],
}

/// A whole load test: the server to aim at and the phases to run in order.
#[derive(Clone, Debug, PartialEq, Eq)]
pub struct TestConfig {
    pub host: String,
    pub port: u16,
    pub steps: Vec<TestStep>,
}

} // verus!
