//! Values exchanged between a session and the registry.

use vstd::prelude::*;

verus! {

/// How many lines a session's mailbox holds before further lines to it are
/// dropped.
pub const MAILBOX_CAPACITY: usize = 100;

/// How many commands may wait for the registry at once.
pub const COMMAND_QUEUE_CAPACITY: usize = 1000;

/// The registry's answer to a registration request.
#[derive(Clone, Copy, Debug, PartialEq, Eq, Structural)]
pub enum RegisterResult {
    /// The handle was free and now belongs to the requester.
    Success,
    /// Another live record already holds the handle.
    UsernameTaken,
}

/// What became of one line offered to one mailbox.
#[derive(Clone, Copy, Debug, PartialEq, Eq, Structural)]
pub enum DeliveryOutcome {
    /// The mailbox accepted the line.
    Delivered,
    /// The mailbox was at capacity; the line was discarded.
    Dropped,
    /// The receiving end of the mailbox is gone.
    Closed,
}

/// The network address a connection came from, as plain numbers.
#[derive(Clone, Copy, Debug, PartialEq, Eq)]
pub enum PeerAddress {
    V4 { octets: [u8; 4], port: u16 },
    V6 { segments: [u16; 8], port: u16, flowinfo: u32, scope_id: u32 },
}

/// Everything the registry keeps about one connected client.
#[derive(Debug)]
pub struct Client {
    pub username: String,
    pub addr: PeerAddress,
    /// Where lines meant for this client are put.
    pub sender: tokio::sync::mpsc::Sender<String>,
}

/// A `Client` with its handle as a sequence of characters.
pub struct ClientView {
    pub username: Seq<char>,
    pub addr: PeerAddress,
    pub sender: tokio::sync::mpsc::Sender<String>,
}

impl View for Client {
    type V = ClientView;

    open spec fn view(&self) -> ClientView {
        ClientView { username: self.username@, addr: self.addr, sender: self.sender }
    }
}

/// What a session may ask of the registry.
#[derive(Debug)]
pub enum HubCommand {
    /// Claim a handle. Exactly one `RegisterResult` is offered to `responder`.
    Register {
        username: String,
        addr: PeerAddress,
        sender: tokio::sync::mpsc::Sender<String>,
        responder: tokio::sync::oneshot::Sender<RegisterResult>,
    },
    /// Give a handle up.
    Deregister { username: String },
    /// Relay `message` to everyone but `from`.
    Broadcast { from: String, message: String },
}

/// One recipient of a broadcast and what its mailbox did with the line.
#[derive(Clone, Debug, PartialEq, Eq)]
pub struct Delivery {
    pub recipient: String,
    pub outcome: DeliveryOutcome,
}

/// The account of one broadcast: the line that went out and one entry for
/// each mailbox it was offered to.
#[derive(Clone, Debug, PartialEq, Eq)]
pub struct BroadcastReport {
    pub line: String,
    pub deliveries: Vec<Delivery>,
}

/// What the registry did with one command.
#[derive(Clone, Debug, PartialEq, Eq)]
pub enum HubEffect {
    /// A claim of `username` was answered with `reply`.
    Registered { username: String, addr: PeerAddress, reply: RegisterResult, total_clients: usize },
    /// `username` was given up; `removed` says whether it had been held.
    Deregistered { username: String, removed: bool, total_clients: usize },
    /// A line was relayed.
    Relayed { report: BroadcastReport },
}

impl BroadcastReport {
    /// The handles the line was offered to, in the order of the attempts.
    pub open spec fn recipients(&self) -> Seq<Seq<char>> {
        Seq::new(self.deliveries@.len(), |i: int| self.deliveries@[i].recipient@)
    }
}

} // verus!
