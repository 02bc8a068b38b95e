//! What holds of the counts of every simulated client, proved from the
//! meaning of its steps.

use vstd::prelude::*;
use crate::load::client::counts_after;
use crate::load::client::next_phase;
use crate::load::client::ClientEventView;
use crate::load::client::ClientPhase;
use crate::load::metrics::Tallies;

verus! {

/// The phase of a client that was started and has been told `events`.
pub open spec fn phase_after(events: Seq<ClientEventView>, duration_secs: u64) -> ClientPhase
    decreases events.len(),
{
    if events.len() == 0 {
        ClientPhase::Connecting
    } else {
        next_phase(phase_after(events.drop_last(), duration_secs), events.last(), duration_secs)
    }
}

/// The counts of a client that was started with none and has been told
/// `events`, the latencies left aside.
pub open spec fn counts_of(events: Seq<ClientEventView>, duration_secs: u64) -> Tallies
    decreases events.len(),
{
    if events.len() == 0 {
        Tallies::zero()
    } else {
        counts_after(
            phase_after(events.drop_last(), duration_secs),
            events.last(),
            counts_of(events.drop_last(), duration_secs),
        )
    }
}

/// Whether `counts` are what a client in `phase` can have counted.
pub open spec fn fitting(phase: ClientPhase, counts: Tallies) -> bool {
    match phase {
        ClientPhase::Connecting
        | ClientPhase::AwaitingPrompt
        | ClientPhase::SendingName
        | ClientPhase::AwaitingLoginReply => counts.sent == 0 && counts.received == 0
            && counts.login_failures == 0 && counts.send_errors == 0,
        ClientPhase::Ready | ClientPhase::Pausing | ClientPhase::Sending => counts.sent
            == counts.received && counts.login_failures == 0 && counts.send_errors == 0,
        ClientPhase::AwaitingEcho => counts.sent == counts.received + 1 && counts.login_failures == 0
            && counts.send_errors == 0,
        ClientPhase::Finished => if counts.login_failures == 0 {
            counts.received <= counts.sent <= counts.received + 1 && counts.send_errors <= 1
        } else {
            counts.login_failures == 1 && counts.sent == 0 && counts.received == 0
                && counts.send_errors == 0
        },
    }
}

/// Whatever a client is told: it has received no more replies than it has
/// sent messages and at most one fewer; it has failed at most once, either
/// to log in or to send; a client that has failed is finished; and a client
/// that failed to log in has sent nothing.
pub proof fn lemma_replies_follow_messages(events: Seq<ClientEventView>, duration_secs: u64)
    ensures
        fitting(phase_after(events, duration_secs), counts_of(events, duration_secs)),
        counts_of(events, duration_secs).received <= counts_of(events, duration_secs).sent
            <= counts_of(events, duration_secs).received + 1,
        counts_of(events, duration_secs).login_failures + counts_of(
            events,
            duration_secs,
        ).send_errors <= 1,
        counts_of(events, duration_secs).login_failures + counts_of(
            events,
            duration_secs,
        ).send_errors == 1 ==> phase_after(events, duration_secs) == ClientPhase::Finished,
        counts_of(events, duration_secs).login_failures == 1 ==> counts_of(
            events,
            duration_secs,
        ).sent == 0,
    decreases events.len(),
{
    if events.len() > 0 {
        lemma_replies_follow_messages(events.drop_last(), duration_secs);
    }
}

} // verus!
