//! One simulated client: it connects, logs in under a name of its own,
//! then sends a message, waits for a line to come back and pauses, over and
//! over until its time is up. The decisions are made here; connecting,
//! reading, writing, sleeping and reading the clock are left to the caller,
//! who reports what happened as events and carries out the actions it gets
//! back.

use vstd::prelude::*;
use vstd::multiset::Multiset;
use crate::load::config::TestStep;
use crate::load::histogram::grows;
use crate::load::histogram::kept_as;
use crate::load::histogram::layout;
use crate::load::histogram::record_sample;
use crate::load::histogram::takes;
use crate::load::histogram::Latencies;
use crate::load::metrics::LocalMetrics;
use crate::load::metrics::Tallies;
use crate::load::text::client_message;
use crate::load::text::client_message_text;
use crate::load::text::client_name;
use crate::load::text::client_name_text;
use crate::load::text::contains_text;
use crate::load::text::is_refusal;
use crate::load::text::refusal_marker;
use crate::wire::line_of;
use crate::wire::line_text;

verus! {

/// Where a simulated client stands.
#[derive(Clone, Copy, Debug, PartialEq, Eq, Structural)]
pub enum ClientPhase {
    /// The connection is being made.
    Connecting,
    /// The server's prompt has yet to arrive.
    AwaitingPrompt,
    /// The name is being written.
    SendingName,
    /// The server's answer to the name has yet to arrive.
    AwaitingLoginReply,
    /// Logged in; the clock decides whether another round begins.
    Ready,
    /// Pausing before the next message.
    Pausing,
    /// A message is being written.
    Sending,
    /// A line has yet to come back for the message sent.
    AwaitingEcho,
    /// The client is done and its counts can be collected.
    Finished,
}

/// What the caller reports to a simulated client.
#[derive(Clone, Debug, PartialEq, Eq)]
pub enum ClientEvent {
    /// The connection stands.
    Connected,
    /// The connection could not be made.
    ConnectFailed,
    /// A line was read during login.
    Line { text: String },
    /// The server's stream has ended.
    EndOfStream,
    /// Reading from the server failed.
    ReadFailed,
    /// What was to be written has been written.
    Written,
    /// Writing to the server failed.
    WriteFailed,
    /// So many whole seconds have passed since the client logged in.
    Clock { elapsed_secs: u64 },
    /// The pause is over.
    Woke,
    /// A line came back, so many microseconds after the message was sent.
    Echo { latency_micros: u64 },
}

/// What a simulated client asks the caller to do.
#[derive(Clone, Debug, PartialEq, Eq)]
pub enum ClientAction {
    /// Write `text` to the server.
    Write { text: String },
    /// Sleep for one pause of the step.
    Pause,
}

/// A `ClientEvent` with its text as a sequence of characters.
pub enum ClientEventView {
    Connected,
    ConnectFailed,
    Line { text: Seq<char> },
    EndOfStream,
    ReadFailed,
    Written,
    WriteFailed,
    Clock { elapsed_secs: u64 },
    Woke,
    Echo { latency_micros: u64 },
}

/// A `ClientAction` with its text as a sequence of characters.
pub enum ClientActionView {
    Write { text: Seq<char> },
    Pause,
}

impl View for ClientEvent {
    type V = ClientEventView;

    open spec fn view(&self) -> ClientEventView {
        match *self {
            ClientEvent::Connected => ClientEventView::Connected,
            ClientEvent::ConnectFailed => ClientEventView::ConnectFailed,
            ClientEvent::Line { text } => ClientEventView::Line { text: text@ },
            ClientEvent::EndOfStream => ClientEventView::EndOfStream,
            ClientEvent::ReadFailed => ClientEventView::ReadFailed,
            ClientEvent::Written => ClientEventView::Written,
            ClientEvent::WriteFailed => ClientEventView::WriteFailed,
            ClientEvent::Clock { elapsed_secs } => ClientEventView::Clock { elapsed_secs },
            ClientEvent::Woke => ClientEventView::Woke,
            ClientEvent::Echo { latency_micros } => ClientEventView::Echo { latency_micros },
        }
    }
}

impl View for ClientAction {
    type V = ClientActionView;

    open spec fn view(&self) -> ClientActionView {
        match *self {
            ClientAction::Write { text } => ClientActionView::Write { text: text@ },
            ClientAction::Pause => ClientActionView::Pause,
        }
    }
}

/// The views of `actions`, in the same order.
pub open spec fn views_of(actions: Seq<ClientAction>) -> Seq<ClientActionView> {
    Seq::new(actions.len(), |i: int| actions[i]@)
}

/// The phase a client is in after `event`, when its step lasts
/// `duration_secs` seconds.
pub open spec fn next_phase(
    phase: ClientPhase,
    event: ClientEventView,
    duration_secs: u64,
) -> ClientPhase {
    match phase {
        ClientPhase::Connecting => match event {
            ClientEventView::Connected => ClientPhase::AwaitingPrompt,
            ClientEventView::ConnectFailed => ClientPhase::Finished,
            _ => phase,
        },
        ClientPhase::AwaitingPrompt => match event {
            ClientEventView::Line { text } => ClientPhase::SendingName,
            ClientEventView::EndOfStream => ClientPhase::SendingName,
            ClientEventView::ReadFailed => ClientPhase::Finished,
            _ => phase,
        },
        ClientPhase::SendingName => match event {
            ClientEventView::Written => ClientPhase::AwaitingLoginReply,
            ClientEventView::WriteFailed => ClientPhase::Finished,
            _ => phase,
        },
        ClientPhase::AwaitingLoginReply => match event {
            ClientEventView::Line { text } => if contains_text(text, refusal_marker()) {
                ClientPhase::Finished
            } else {
                ClientPhase::Ready
            },
            ClientEventView::EndOfStream => ClientPhase::Finished,
            ClientEventView::ReadFailed => ClientPhase::Finished,
            _ => phase,
        },
        ClientPhase::Ready => match event {
            ClientEventView::Clock { elapsed_secs } => if elapsed_secs < duration_secs {
                ClientPhase::Pausing
            } else {
                ClientPhase::Finished
            },
            _ => phase,
        },
        ClientPhase::Pausing => match event {
            ClientEventView::Woke => ClientPhase::Sending,
            _ => phase,
        },
        ClientPhase::Sending => match event {
            ClientEventView::Written => ClientPhase::AwaitingEcho,
            ClientEventView::WriteFailed => ClientPhase::Finished,
            _ => phase,
        },
        ClientPhase::AwaitingEcho => match event {
            ClientEventView::Echo { latency_micros } => ClientPhase::Ready,
            ClientEventView::EndOfStream => ClientPhase::Finished,
            ClientEventView::ReadFailed => ClientPhase::Finished,
            _ => phase,
        },
        ClientPhase::Finished => phase,
    }
}

/// Whether `event` ends the client's login in failure.
pub open spec fn fails_login(phase: ClientPhase, event: ClientEventView) -> bool {
    match phase {
        ClientPhase::Connecting => event is ConnectFailed,
        ClientPhase::AwaitingPrompt => event is ReadFailed,
        ClientPhase::SendingName => event is WriteFailed,
        ClientPhase::AwaitingLoginReply => match event {
            ClientEventView::Line { text } => contains_text(text, refusal_marker()),
            ClientEventView::EndOfStream => true,
            ClientEventView::ReadFailed => true,
            _ => false,
        },
        _ => false,
    }
}

/// The counts of a client after `event`, the latencies left aside.
pub open spec fn counts_after(phase: ClientPhase, event: ClientEventView, counts: Tallies) -> Tallies {
    if fails_login(phase, event) {
        Tallies { login_failures: counts.login_failures + 1, ..counts }
    } else if phase == ClientPhase::Sending && event is Written {
        Tallies { sent: counts.sent + 1, ..counts }
    } else if phase == ClientPhase::Sending && event is WriteFailed {
        Tallies { send_errors: counts.send_errors + 1, ..counts }
    } else if phase == ClientPhase::AwaitingEcho && event is Echo {
        Tallies { received: counts.received + 1, ..counts }
    } else {
        counts
    }
}

/// What the histogram of a client holds after `event`, where it held `held`
/// before: a reply that the client was waiting for is counted in the slot
/// its latency falls into, if the histogram takes it; nothing else changes
/// what is held.
pub open spec fn latencies_after(
    phase: ClientPhase,
    event: ClientEventView,
    histogram: Latencies,
    held: Multiset<u64>,
) -> Multiset<u64> {
    if phase == ClientPhase::AwaitingEcho && event is Echo && takes(
        histogram,
        event->Echo_latency_micros,
    ) {
        held.insert(kept_as(histogram, event->Echo_latency_micros))
    } else {
        held
    }
}

/// What the client numbered `client_id` asks for when `event` is reported,
/// in order.
pub open spec fn actions_for(
    phase: ClientPhase,
    event: ClientEventView,
    client_id: nat,
    duration_secs: u64,
) -> Seq<ClientActionView> {
    match phase {
        ClientPhase::AwaitingPrompt => match event {
            ClientEventView::Line { text } => seq![
                ClientActionView::Write { text: line_text(client_name_text(client_id)) },
            ],
            ClientEventView::EndOfStream => seq![
                ClientActionView::Write { text: line_text(client_name_text(client_id)) },
            ],
            _ => seq![],
        },
        ClientPhase::Ready => match event {
            ClientEventView::Clock { elapsed_secs } => if elapsed_secs < duration_secs {
                seq![ClientActionView::Pause]
            } else {
                seq![]
            },
            _ => seq![],
        },
        ClientPhase::Pausing => match event {
            ClientEventView::Woke => seq![
                ClientActionView::Write { text: line_text(client_message_text(client_id)) },
            ],
            _ => seq![],
        },
        _ => seq![],
    }
}

/// One simulated client.
#[derive(Debug)]
pub struct LoadClient {
    client_id: usize,
    step: TestStep,
    phase: ClientPhase,
    metrics: LocalMetrics,
}

impl LoadClient {
    /// The number that tells this client from the others of its step.
    pub closed spec fn id(&self) -> usize {
        self.client_id
    }

    /// The step this client belongs to.
    pub closed spec fn plan(&self) -> TestStep {
        self.step
    }

    /// Where this client stands.
    pub closed spec fn stage(&self) -> ClientPhase {
        self.phase
    }

    /// What this client has counted.
    pub closed spec fn counted(&self) -> Tallies {
        self.metrics@
    }

    /// The histogram that this client puts its latencies into.
    pub closed spec fn histogram(&self) -> Latencies {
        self.metrics.latencies
    }

    /// Whether every reply this client has counted is in its histogram, and
    /// every further one will be: the histogram grows with what it is
    /// given, and holds as many latencies as replies have been counted.
    pub open spec fn timed(&self) -> bool {
        grows(self.histogram()) && self.counted().latencies.len() == self.counted().received
    }

    /// A client of `step`, numbered `client_id`, that has yet to connect
    /// and counts into `metrics`.
    pub fn new(client_id: usize, step: TestStep, metrics: LocalMetrics) -> (client: LoadClient)
        ensures
            client.id() == client_id,
            client.plan() == step,
            client.stage() == ClientPhase::Connecting,
            client.counted() == metrics@,
            client.histogram() == metrics.latencies,
    {
        LoadClient { client_id, step, phase: ClientPhase::Connecting, metrics }
    }

    /// Where this client stands.
    pub fn phase(&self) -> (phase: ClientPhase)
        ensures
            phase == self.stage(),
    {
        self.phase
    }

    /// The step this client belongs to.
    pub fn step_plan(&self) -> (step: &TestStep)
        ensures
            *step == self.plan(),
    {
        &self.step
    }

    /// What this client has counted so far.
    pub fn metrics(&self) -> (metrics: &LocalMetrics)
        ensures
            metrics@ == self.counted(),
            metrics.latencies == self.histogram(),
    {
        &self.metrics
    }

    /// Hands over what this client has counted.
    pub fn into_metrics(self) -> (metrics: LocalMetrics)
        ensures
            metrics@ == self.counted(),
            metrics.latencies == self.histogram(),
    {
        self.metrics
    }

    /// Moves the client on by one event and returns what the caller is to
    /// do. An event that cannot occur in a phase changes nothing and asks
    /// for nothing. A reply's latency is put to the histogram if the
    /// histogram takes it, as one that grows always does; the reply is
    /// counted either way.
    pub fn step(&mut self, event: ClientEvent) -> (actions: Vec<ClientAction>)
        requires
            old(self).counted().sent < u64::MAX,
            old(self).counted().received < u64::MAX,
            old(self).counted().login_failures < u64::MAX,
            old(self).counted().send_errors < u64::MAX,
            old(self).counted().latencies.len() < u64::MAX,
        ensures
            final(self).id() == old(self).id(),
            final(self).plan() == old(self).plan(),
            final(self).stage() == next_phase(old(self).stage(), event@, old(self).plan().duration_secs),
            views_of(actions@) == actions_for(
                old(self).stage(),
                event@,
                old(self).id() as nat,
                old(self).plan().duration_secs,
            ),
            (Tallies { latencies: old(self).counted().latencies, ..final(self).counted() })
                == counts_after(old(self).stage(), event@, old(self).counted()),
            final(self).counted().latencies == latencies_after(
                old(self).stage(),
                event@,
                old(self).histogram(),
                old(self).counted().latencies,
            ),
            old(self).stage() == ClientPhase::AwaitingEcho && event@ is Echo ==> kept_as(
                old(self).histogram(),
                event@->Echo_latency_micros,
            ) <= event@->Echo_latency_micros,
            layout(final(self).histogram()) == layout(old(self).histogram()),
            old(self).timed() ==> final(self).timed(),
    {
        let mut actions: Vec<ClientAction> = Vec::new();
        let ghost before = self.phase;
        let ghost duration = self.step.duration_secs;
        let ghost id = self.client_id as nat;
        match self.phase {
            ClientPhase::Connecting => match event {
                ClientEvent::Connected => {
                    self.phase = ClientPhase::AwaitingPrompt;
                },
                ClientEvent::ConnectFailed => {
                    self.metrics.login_failures = self.metrics.login_failures + 1;
                    self.phase = ClientPhase::Finished;
                },
                _ => {},
            },
            ClientPhase::AwaitingPrompt => match event {
                ClientEvent::Line { .. } | ClientEvent::EndOfStream => {
                    let name = client_name(self.client_id);
                    actions.push(ClientAction::Write { text: line_of(name.as_str()) });
                    self.phase = ClientPhase::SendingName;
                },
                ClientEvent::ReadFailed => {
                    self.metrics.login_failures = self.metrics.login_failures + 1;
                    self.phase = ClientPhase::Finished;
                },
                _ => {},
            },
            ClientPhase::SendingName => match event {
                ClientEvent::Written => {
                    self.phase = ClientPhase::AwaitingLoginReply;
                },
                ClientEvent::WriteFailed => {
                    self.metrics.login_failures = self.metrics.login_failures + 1;
                    self.phase = ClientPhase::Finished;
                },
                _ => {},
            },
            ClientPhase::AwaitingLoginReply => match event {
                ClientEvent::Line { text } => {
                    if is_refusal(text.as_str()) {
                        self.metrics.login_failures = self.metrics.login_failures + 1;
                        self.phase = ClientPhase::Finished;
                    } else {
                        self.phase = ClientPhase::Ready;
                    }
                },
                ClientEvent::EndOfStream | ClientEvent::ReadFailed => {
                    self.metrics.login_failures = self.metrics.login_failures + 1;
                    self.phase = ClientPhase::Finished;
                },
                _ => {},
            },
            ClientPhase::Ready => match event {
                ClientEvent::Clock { elapsed_secs } => {
                    if elapsed_secs < self.step.duration_secs {
                        actions.push(ClientAction::Pause);
                        self.phase = ClientPhase::Pausing;
                    } else {
                        self.phase = ClientPhase::Finished;
                    }
                },
                _ => {},
            },
            ClientPhase::Pausing => match event {
                ClientEvent::Woke => {
                    let message = client_message(self.client_id);
                    actions.push(ClientAction::Write { text: line_of(message.as_str()) });
                    self.phase = ClientPhase::Sending;
                },
                _ => {},
            },
            ClientPhase::Sending => match event {
                ClientEvent::Written => {
                    self.metrics.messages_sent = self.metrics.messages_sent + 1;
                    self.phase = ClientPhase::AwaitingEcho;
                },
                ClientEvent::WriteFailed => {
                    self.metrics.send_errors = self.metrics.send_errors + 1;
                    self.phase = ClientPhase::Finished;
                },
                _ => {},
            },
            ClientPhase::AwaitingEcho => match event {
                ClientEvent::Echo { latency_micros } => {
                    let _ = record_sample(&mut self.metrics.latencies, latency_micros);
                    self.metrics.messages_received = self.metrics.messages_received + 1;
                    self.phase = ClientPhase::Ready;
                },
                ClientEvent::EndOfStream | ClientEvent::ReadFailed => {
                    self.phase = ClientPhase::Finished;
                },
                _ => {},
            },
            ClientPhase::Finished => {},
        }
        assert(views_of(actions@) =~= actions_for(before, event@, id, duration));
        actions
    }
}

} // verus!
