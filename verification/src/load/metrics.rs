//! What a load test counts: messages sent and received, failures, and the
//! time each reply took.

use vstd::prelude::*;
use vstd::multiset::Multiset;
use crate::load::histogram::add_samples;
use crate::load::histogram::bounded_histogram;
use crate::load::histogram::growing_histogram;
use crate::load::histogram::grows;
use crate::load::histogram::layout;
use crate::load::histogram::limit;
use crate::load::histogram::same_slots;
use crate::load::histogram::samples;
use crate::load::histogram::within;
use crate::load::histogram::Latencies;
use crate::load::histogram::MergeError;

verus! {

/// The number of significant digits the latency histograms keep.
pub const LATENCY_DIGITS: u8 = 3;

/// The longest latency, in microseconds, that the combined histogram is
/// made for.
pub const LONGEST_LATENCY_MICROS: u64 = 30_000_000;

/// What has been counted, as numbers without bound, and what the latency
/// histogram holds.
pub struct Tallies {
    pub sent: nat,
    pub received: nat,
    pub login_failures: nat,
    pub send_errors: nat,
    pub latencies: Multiset<u64>,
}

impl Tallies {
    /// Nothing counted yet.
    pub open spec fn zero() -> Tallies {
        Tallies {
            sent: 0,
            received: 0,
            login_failures: 0,
            send_errors: 0,
            latencies: Multiset::empty(),
        }
    }

    /// These tallies and `other` added up.
    pub open spec fn plus(self, other: Tallies) -> Tallies {
        Tallies {
            sent: self.sent + other.sent,
            received: self.received + other.received,
            login_failures: self.login_failures + other.login_failures,
            send_errors: self.send_errors + other.send_errors,
            latencies: self.latencies.add(other.latencies),
        }
    }

    /// These tallies with the counts of `other` added and the latencies
    /// left as they are.
    pub open spec fn plus_counts(self, other: Tallies) -> Tallies {
        Tallies { latencies: self.latencies, ..self.plus(other) }
    }

    /// Whether the four counts fit the machine's 64-bit counters.
    pub open spec fn counts_fit(self) -> bool {
        &&& self.sent <= u64::MAX
        &&& self.received <= u64::MAX
        &&& self.login_failures <= u64::MAX
        &&& self.send_errors <= u64::MAX
    }

    /// Whether the four counts and the number of latencies held fit the
    /// machine's 64-bit counters.
    pub open spec fn fits(self) -> bool {
        self.counts_fit() && self.latencies.len() <= u64::MAX
    }
}

/// The totals after an attempt to add `local` to `total`, where the
/// histogram of the totals has slots for the values up to `bound` and none
/// beyond: everything is added if no latency of `local` lies above `bound`,
/// nothing otherwise.
pub open spec fn merged_into(total: Tallies, local: Tallies, bound: u64) -> Tallies {
    if within(local.latencies, bound) {
        total.plus(local)
    } else {
        total
    }
}

/// Adding up is the same in either order.
pub proof fn lemma_plus_commutes(total: Tallies, first: Tallies, second: Tallies)
    ensures
        total.plus(first).plus(second) == total.plus(second).plus(first),
{
    assert(total.latencies.add(first.latencies).add(second.latencies) =~= total.latencies.add(
        second.latencies,
    ).add(first.latencies));
}

/// The order in which two clients are added to the totals does not matter:
/// whether each is taken does not depend on the other, and the totals are
/// the same either way.
pub proof fn lemma_merge_order_is_immaterial(
    total: Tallies,
    first: Tallies,
    second: Tallies,
    bound: u64,
)
    ensures
        merged_into(merged_into(total, first, bound), second, bound) == merged_into(
            merged_into(total, second, bound),
            first,
            bound,
        ),
{
    lemma_plus_commutes(total, first, second);
}

/// What one simulated client has counted.
#[derive(Debug)]
pub struct LocalMetrics {
    pub messages_sent: u64,
    pub messages_received: u64,
    pub login_failures: u64,
    pub send_errors: u64,
    pub latencies: Latencies,
}

impl View for LocalMetrics {
    type V = Tallies;

    open spec fn view(&self) -> Tallies {
        Tallies {
            sent: self.messages_sent as nat,
            received: self.messages_received as nat,
            login_failures: self.login_failures as nat,
            send_errors: self.send_errors as nat,
            latencies: samples(self.latencies),
        }
    }
}

impl LocalMetrics {
    /// Fresh counts around `latencies`, which keeps what it holds.
    pub fn starting_with(latencies: Latencies) -> (metrics: LocalMetrics)
        ensures
            metrics@ == (Tallies { latencies: samples(latencies), ..Tallies::zero() }),
            metrics.latencies == latencies,
    {
        LocalMetrics {
            messages_sent: 0,
            messages_received: 0,
            login_failures: 0,
            send_errors: 0,
            latencies,
        }
    }

    /// Fresh counts with an empty histogram that grows with what it is
    /// given.
    pub fn new() -> (metrics: LocalMetrics)
        ensures
            metrics@ == Tallies::zero(),
            layout(metrics.latencies) == (1u64, LATENCY_DIGITS, true),
    {
        let built = growing_histogram(LATENCY_DIGITS);
        LocalMetrics::starting_with(built.unwrap())
    }
}

impl Default for LocalMetrics {
    /// Fresh counts with an empty histogram that grows with what it is
    /// given.
    fn default() -> (metrics: LocalMetrics)
        ensures
            metrics@ == Tallies::zero(),
            layout(metrics.latencies) == (1u64, LATENCY_DIGITS, true),
    {
        LocalMetrics::new()
    }
}

/// What all the clients of one phase have counted together.
#[derive(Debug)]
pub struct GlobalMetrics {
    total_sent: u64,
    total_received: u64,
    total_login_failures: u64,
    total_send_errors: u64,
    combined_latencies: Latencies,
}

impl View for GlobalMetrics {
    type V = Tallies;

    closed spec fn view(&self) -> Tallies {
        Tallies {
            sent: self.total_sent as nat,
            received: self.total_received as nat,
            login_failures: self.total_login_failures as nat,
            send_errors: self.total_send_errors as nat,
            latencies: samples(self.combined_latencies),
        }
    }
}

impl GlobalMetrics {
    /// The histogram that the latencies of all clients are added to.
    pub closed spec fn histogram(&self) -> Latencies {
        self.combined_latencies
    }

    /// Whether the histogram of the totals is of the kind whose answer to a
    /// client can be told from what the client holds: it does not grow, has
    /// its slots in the same places as the client's, and its slots end
    /// below the greatest number that 64 bits hold.
    pub open spec fn settles(&self, local: LocalMetrics) -> bool {
        &&& !grows(self.histogram())
        &&& same_slots(self.histogram(), local.latencies)
        &&& limit(self.histogram()) < u64::MAX
    }

    /// Whether `local` is sure to be taken by these totals: the histogram
    /// of the totals settles the matter, and no latency of `local` lies
    /// above the highest value that the totals have a slot for.
    pub open spec fn takes_in(&self, local: LocalMetrics) -> bool {
        self.settles(local) && within(local@.latencies, limit(self.histogram()))
    }

    /// What the histogram of the totals holds is what the totals show.
    pub proof fn lemma_view_shows_histogram(&self)
        ensures
            self@.latencies == samples(self.histogram()),
    {
    }

    /// Fresh totals around `latencies`, which keeps what it holds.
    pub fn starting_with(latencies: Latencies) -> (metrics: GlobalMetrics)
        ensures
            metrics@ == (Tallies { latencies: samples(latencies), ..Tallies::zero() }),
            metrics.histogram() == latencies,
    {
        GlobalMetrics {
            total_sent: 0,
            total_received: 0,
            total_login_failures: 0,
            total_send_errors: 0,
            combined_latencies: latencies,
        }
    }

    /// Fresh totals with an empty histogram that does not grow and has
    /// slots for latencies of thirty seconds at least.
    pub fn new() -> (metrics: GlobalMetrics)
        ensures
            metrics@ == Tallies::zero(),
            layout(metrics.histogram()) == (1u64, LATENCY_DIGITS, false),
            LONGEST_LATENCY_MICROS <= limit(metrics.histogram()) < u64::MAX,
    {
        let built = bounded_histogram(1, LONGEST_LATENCY_MICROS, LATENCY_DIGITS);
        GlobalMetrics::starting_with(built.unwrap())
    }

    /// Adds what one client has counted to the totals: its counts, and its
    /// latencies slot for slot. The client must be one that the totals are
    /// sure to take.
    pub fn merge(&mut self, local: LocalMetrics)
        requires
            old(self)@.plus(local@).fits(),
            old(self).takes_in(local),
        ensures
            final(self)@ == old(self)@.plus(local@),
            layout(final(self).histogram()) == layout(old(self).histogram()),
            limit(final(self).histogram()) == limit(old(self).histogram()),
    {
        self.try_merge(local).unwrap()
    }

    /// Tries to add what one client has counted to the totals. A client
    /// that took no latency is always added. Where the histogram of the
    /// totals settles the matter, the client is added exactly if none of
    /// its latencies lies above the highest value that the totals have a
    /// slot for. A client that is not added leaves the totals as they were,
    /// and the error says why.
    pub fn try_merge(&mut self, local: LocalMetrics) -> (merged: Result<(), MergeError>)
        requires
            old(self)@.plus(local@).fits(),
        ensures
            local@.latencies.len() == 0 ==> merged is Ok,
            old(self).settles(local) ==> (merged is Ok <==> within(
                local@.latencies,
                limit(old(self).histogram()),
            )),
            old(self).settles(local) ==> final(self)@ == merged_into(
                old(self)@,
                local@,
                limit(old(self).histogram()),
            ),
            merged is Ok && !grows(old(self).histogram()) && same_slots(
                old(self).histogram(),
                local.latencies,
            ) ==> within(local@.latencies, limit(old(self).histogram())),
            merged is Ok ==> (Tallies { latencies: old(self)@.latencies, ..final(self)@ }) == old(
                self,
            )@.plus_counts(local@),
            merged is Ok && same_slots(old(self).histogram(), local.latencies) ==> final(self)@
                == old(self)@.plus(local@),
            merged is Err ==> final(self)@ == old(self)@,
            layout(final(self).histogram()) == layout(old(self).histogram()),
            !grows(old(self).histogram()) ==> limit(final(self).histogram()) == limit(
                old(self).histogram(),
            ),
    {
        let added = add_samples(&mut self.combined_latencies, &local.latencies);
        self.add_counts(&local, added)
    }

    /// Finishes the adding of one client once its latencies have been dealt
    /// with: `added` is what adding the latencies gave. Where they were
    /// added, the client's counts are added to the totals; where they were
    /// refused, the totals stay as they are. Either way `added` is handed
    /// back. The histogram itself is not touched.
    pub fn add_counts(&mut self, local: &LocalMetrics, added: Result<(), MergeError>) -> (merged:
        Result<(), MergeError>)
        requires
            added is Ok ==> old(self)@.plus(local@).counts_fit(),
        ensures
            merged == added,
            added is Ok ==> final(self)@ == old(self)@.plus_counts(local@),
            added is Err ==> final(self)@ == old(self)@,
            final(self).histogram() == old(self).histogram(),
    {
        if added.is_ok() {
            self.total_sent = self.total_sent + local.messages_sent;
            self.total_received = self.total_received + local.messages_received;
            self.total_login_failures = self.total_login_failures + local.login_failures;
            self.total_send_errors = self.total_send_errors + local.send_errors;
        }
        added
    }

    /// How many messages have been sent.
    pub fn total_sent(&self) -> (count: u64)
        ensures
            count == self@.sent,
    {
        self.total_sent
    }

    /// How many replies have been received.
    pub fn total_received(&self) -> (count: u64)
        ensures
            count == self@.received,
    {
        self.total_received
    }

    /// How many clients failed to log in.
    pub fn total_login_failures(&self) -> (count: u64)
        ensures
            count == self@.login_failures,
    {
        self.total_login_failures
    }

    /// How many messages could not be sent.
    pub fn total_send_errors(&self) -> (count: u64)
        ensures
            count == self@.send_errors,
    {
        self.total_send_errors
    }

    /// The latencies of all the replies received.
    pub fn combined_latencies(&self) -> (latencies: &Latencies)
        ensures
            *latencies == self.histogram(),
    {
        &self.combined_latencies
    }
}

} // verus!
