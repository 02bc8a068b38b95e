//! The latency histogram, which `hdrhistogram` keeps. Its behaviour is
//! taken on trust.
//!
//! A histogram does not keep the values it is given. It sorts them into
//! slots, each a range of values it does not tell apart, and counts how
//! many fell into each slot. Everything said here is said of those counts.

use vstd::prelude::*;
use vstd::multiset::Multiset;

verus! {

/// A histogram of latencies in microseconds.
#[verifier::external_body]
#[derive(Debug)]
pub struct Latencies {
    histogram: hdrhistogram::Histogram<u64>,
}

/// What a histogram holds: for each of its slots, as many copies of the
/// slot's lowest value as the slot has counted.
pub uninterp spec fn samples(latencies: Latencies) -> Multiset<u64>;

/// How a histogram is laid out: the lowest value it tells from zero, the
/// significant digits it keeps, and whether it grows to take what it is
/// given. The first two decide where its slots begin and end.
pub uninterp spec fn layout(latencies: Latencies) -> (u64, u8, bool);

/// The highest value that a histogram has a slot for: the last value of
/// its last slot.
pub uninterp spec fn limit(latencies: Latencies) -> u64;

/// The lowest value of the slot of a histogram that `value` falls into.
/// Where the slots lie depends on the first two parts of the layout alone.
pub uninterp spec fn kept_as(latencies: Latencies, value: u64) -> u64;

/// Whether a histogram grows to take what it is given.
pub open spec fn grows(latencies: Latencies) -> bool {
    layout(latencies).2
}

/// Whether a histogram takes `value` when it is recorded: one that grows
/// takes every value, one that does not takes what it has a slot for.
pub open spec fn takes(latencies: Latencies, value: u64) -> bool {
    grows(latencies) || value <= limit(latencies)
}

/// Whether two histograms have their slots in the same places.
pub open spec fn same_slots(first: Latencies, second: Latencies) -> bool {
    layout(first).0 == layout(second).0 && layout(first).1 == layout(second).1
}

/// Whether none of `held` lies above `bound`.
pub open spec fn within(held: Multiset<u64>, bound: u64) -> bool {
    forall|value: u64| held.count(value) > 0 ==> value <= bound
}

/// Whether `slots` lists what `latencies` holds: each entry gives a value
/// of one slot that has counted something and the count of that slot, and
/// every such slot has an entry.
pub open spec fn lists(slots: Seq<(u64, u64)>, latencies: Latencies) -> bool {
    &&& forall|i: int|
        0 <= i < slots.len() ==> slots[i].1 > 0 && samples(latencies).count(
            kept_as(latencies, #[trigger] slots[i].0),
        ) == slots[i].1
    &&& forall|i: int, j: int|
        0 <= i < j < slots.len() ==> kept_as(latencies, #[trigger] slots[i].0) != kept_as(
            latencies,
            #[trigger] slots[j].0,
        )
    &&& forall|value: u64| #[trigger]
        samples(latencies).count(value) > 0 ==> exists|i: int|
            0 <= i < slots.len() && kept_as(latencies, #[trigger] slots[i].0) == value
}

/// Why two histograms could not be added up.
#[derive(Clone, Copy, Debug, PartialEq, Eq, Structural)]
pub enum MergeError {
    /// The histogram that was to be added holds a value beyond the range of
    /// the one it was to be added to.
    ValueExceedsRange,
    /// The histogram would have had to grow beyond what can be addressed.
    ResizeFailed,
}

/// Calls `Histogram::new`, which builds an empty histogram that grows with
/// the values it is given, tells values from 1 upwards apart and keeps
/// `sigfig` significant digits. It refuses more than five digits and
/// nothing else; `None` stands for its refusal.
#[verifier::external_body]
pub(crate) fn growing_histogram(sigfig: u8) -> (built: Option<Latencies>)
    ensures
        built is Some <==> sigfig <= 5,
        built is Some ==> samples(built->Some_0) == Multiset::<u64>::empty(),
        built is Some ==> layout(built->Some_0) == (1u64, sigfig, true),
{
    match hdrhistogram::Histogram::<u64>::new(sigfig) {
        Ok(histogram) => Some(Latencies { histogram }),
        Err(_) => None,
    }
}

/// Calls `Histogram::new_with_bounds`, which builds an empty histogram that
/// does not grow, tells values from `low` upwards apart, has slots for the
/// values up to `high` at least and keeps `sigfig` significant digits;
/// `None` stands for its refusal. With 1 as the lowest value it refuses a
/// highest value below 2 and more than five digits, and nothing else; of
/// other lowest values nothing is said here. The slots it makes end below
/// the greatest number that 64 bits hold wherever `high` is no more than
/// half of that.
#[verifier::external_body]
pub(crate) fn bounded_histogram(low: u64, high: u64, sigfig: u8) -> (built: Option<Latencies>)
    ensures
        low == 1 && high >= 2 && sigfig <= 5 ==> built is Some,
        low == 1 && (high < 2 || sigfig > 5) ==> built is None,
        built is Some ==> samples(built->Some_0) == Multiset::<u64>::empty(),
        built is Some ==> layout(built->Some_0) == (low, sigfig, false),
        built is Some ==> limit(built->Some_0) >= high,
        built is Some && high <= i64::MAX ==> limit(built->Some_0) < u64::MAX,
{
    match hdrhistogram::Histogram::<u64>::new_with_bounds(low, high, sigfig) {
        Ok(histogram) => Some(Latencies { histogram }),
        Err(_) => None,
    }
}

/// Calls `Histogram::record`, which raises the count of the slot that
/// `value` falls into by one or, where the histogram has no slot for the
/// value and does not grow, refuses and leaves the histogram as it was.
/// Returns whether the value was taken. A histogram that grows takes every
/// value, including those beyond the range its makers write of. The
/// lowest value of a slot is no greater than any value that falls into it,
/// and the slots stay where they are. Counts that no longer fit their
/// counters are left out.
#[verifier::external_body]
pub(crate) fn record_sample(latencies: &mut Latencies, value: u64) -> (taken: bool)
    requires
        samples(*old(latencies)).len() < u64::MAX,
    ensures
        taken == takes(*old(latencies), value),
        taken ==> samples(*final(latencies)) == samples(*old(latencies)).insert(
            kept_as(*old(latencies), value),
        ),
        !taken ==> samples(*final(latencies)) == samples(*old(latencies)),
        kept_as(*old(latencies), value) <= value,
        forall|any: u64| #[trigger]
            kept_as(*final(latencies), any) == kept_as(*old(latencies), any),
        layout(*final(latencies)) == layout(*old(latencies)),
        !grows(*old(latencies)) ==> limit(*final(latencies)) == limit(*old(latencies)),
{
    latencies.histogram.record(value).is_ok()
}

/// Calls `Histogram::add`, which adds the counts of `other` to those of
/// `latencies` or, where `other` has counted in a slot that `latencies` has
/// no room for, refuses and leaves `latencies` as it was. An `other` that
/// has counted nothing is never refused. Between two histograms with their
/// slots in the same places, of which the receiving one does not grow:
/// where it adds, `other` holds nothing above the highest value that
/// `latencies` has a slot for; and where `other` holds nothing above that
/// value, it adds, provided the slots of `latencies` end below the
/// greatest number that 64 bits hold. (In the very last slot it tells that
/// number from the others, which the counts do not.) What it adds between
/// two such histograms is slot for slot what `other` holds, and the slots
/// stay where they are. Counts that no longer fit their counters are left
/// out.
#[verifier::external_body]
pub(crate) fn add_samples(latencies: &mut Latencies, other: &Latencies) -> (added: Result<
    (),
    MergeError,
>)
    requires
        samples(*old(latencies)).len() + samples(*other).len() <= u64::MAX,
    ensures
        samples(*other).len() == 0 ==> added is Ok,
        added is Ok && !grows(*old(latencies)) && same_slots(*old(latencies), *other) ==> within(
            samples(*other),
            limit(*old(latencies)),
        ),
        !grows(*old(latencies)) && same_slots(*old(latencies), *other) && limit(*old(latencies))
            < u64::MAX && within(samples(*other), limit(*old(latencies))) ==> added is Ok,
        added is Ok && same_slots(*old(latencies), *other) ==> samples(*final(latencies))
            == samples(*old(latencies)).add(samples(*other)),
        added is Err ==> samples(*final(latencies)) == samples(*old(latencies)),
        forall|any: u64| #[trigger]
            kept_as(*final(latencies), any) == kept_as(*old(latencies), any),
        same_slots(*old(latencies), *other) ==> forall|any: u64| #[trigger]
            kept_as(*old(latencies), any) == kept_as(*other, any),
        layout(*final(latencies)) == layout(*old(latencies)),
        !grows(*old(latencies)) ==> limit(*final(latencies)) == limit(*old(latencies)),
{
    match latencies.histogram.add(&other.histogram) {
        Ok(()) => Ok(()),
        Err(hdrhistogram::AdditionError::OtherAddendValueExceedsRange) => Err(
            MergeError::ValueExceedsRange,
        ),
        Err(hdrhistogram::AdditionError::ResizeFailedUsizeTypeTooSmall) => Err(
            MergeError::ResizeFailed,
        ),
    }
}

/// Calls `Histogram::iter_recorded`, which goes through the slots that
/// have counted something, each once, and gives for each the highest value
/// of the slot and its count.
#[verifier::external_body]
pub(crate) fn recorded_slots(latencies: &Latencies) -> (slots: Vec<(u64, u64)>)
    ensures
        lists(slots@, *latencies),
{
    latencies.histogram.iter_recorded().map(
        |slot| (slot.value_iterated_to(), slot.count_at_value()),
    ).collect()
}

impl Latencies {
    /// What the histogram holds, slot by slot: for each slot that has
    /// counted something, the highest value of the slot and its count.
    pub fn slots(&self) -> (slots: Vec<(u64, u64)>)
        ensures
            lists(slots@, *self),
    {
        recorded_slots(self)
    }
}

} // verus!
