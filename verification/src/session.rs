//! The protocol of one connection: a client first claims a handle, then
//! chats until the connection ends, and its handle is given up on the way
//! out. The decisions are made here; reading, writing and waiting are left
//! to the caller, who reports what happened as events and carries out the
//! actions it gets back.

use vstd::prelude::*;
use vstd::string::StringExecFns;
use crate::models::RegisterResult;
use crate::wire::line_of;
use crate::wire::line_text;
use crate::wire::empty_handle_line;
use crate::wire::empty_handle_text;
use crate::wire::prompt_line;
use crate::wire::prompt_text;
use crate::wire::taken_line;
use crate::wire::taken_text;
use crate::wire::trim;
use crate::wire::trimmed;
use crate::wire::welcome_line;
use crate::wire::welcome_text;

verus! {

/// Why a session is over.
#[derive(Clone, Copy, Debug, PartialEq, Eq, Structural)]
pub enum SessionEnd {
    /// The client went away before it held a handle.
    LoginDisconnected,
    /// Reading from or writing to the client failed before it held a handle.
    LoginIoFailed,
    /// The registry could not be reached with the claim.
    HubShutdown,
    /// The registry took the claim and never answered it.
    RequestDropped,
    /// The client closed the connection.
    Disconnected,
    /// Reading from the client failed.
    ReadFailed,
    /// Writing to the client failed.
    WriteFailed,
    /// The registry could not be reached with a line.
    HubClosed,
}

/// Whether a session that ended for `reason` held a handle when it ended.
pub open spec fn ended_in_chat(reason: SessionEnd) -> bool {
    reason == SessionEnd::Disconnected || reason == SessionEnd::ReadFailed || reason
        == SessionEnd::WriteFailed || reason == SessionEnd::HubClosed
}

/// What a session that ended for `reason` has to say for itself: a
/// sentence where the login failed for a reason of the protocol's own,
/// nothing where the connection itself failed or the chat simply ended.
pub open spec fn failure_text(reason: SessionEnd) -> Option<Seq<char>> {
    match reason {
        SessionEnd::LoginDisconnected => Some("Client disconnected during login"@),
        SessionEnd::HubShutdown => Some("Hub has been shutdown."@),
        SessionEnd::RequestDropped => Some("Hub dropped the request (shutdown?)."@),
        _ => None,
    }
}

/// Whether a session that ended for `reason` has failed in the eyes of
/// whoever ran it: it ended before the client held a handle, or it ended
/// on a failed write before the client had been welcomed. `welcomed` says
/// whether the welcome had been written.
pub open spec fn ends_in_failure(reason: SessionEnd, welcomed: bool) -> bool {
    !ended_in_chat(reason) || (reason == SessionEnd::WriteFailed && !welcomed)
}

impl SessionEnd {
    /// Whether a session that ended this way has failed in the eyes of
    /// whoever ran it. `welcomed` says whether the welcome had been written.
    pub fn is_failure(&self, welcomed: bool) -> (failed: bool)
        ensures
            failed == ends_in_failure(*self, welcomed),
    {
        match self {
            SessionEnd::WriteFailed => !welcomed,
            _ => self.is_login_failure(),
        }
    }

    /// Whether the session ended before the client held a handle.
    pub fn is_login_failure(&self) -> (failed: bool)
        ensures
            failed == !ended_in_chat(*self),
    {
        match self {
            SessionEnd::LoginDisconnected => true,
            SessionEnd::LoginIoFailed => true,
            SessionEnd::HubShutdown => true,
            SessionEnd::RequestDropped => true,
            _ => false,
        }
    }

    /// The sentence that reports this ending, where it has one.
    pub fn describe(&self) -> (text: Option<String>)
        ensures
            text is Some == failure_text(*self) is Some,
            text is Some ==> text->Some_0@ == failure_text(*self)->Some_0,
    {
        match self {
            SessionEnd::LoginDisconnected => Some(
                String::from_str("Client disconnected during login"),
            ),
            SessionEnd::HubShutdown => Some(String::from_str("Hub has been shutdown.")),
            SessionEnd::RequestDropped => Some(
                String::from_str("Hub dropped the request (shutdown?)."),
            ),
            _ => None,
        }
    }
}

/// Where a session stands.
#[derive(Clone, Debug, PartialEq, Eq)]
pub enum SessionState {
    /// The client has been asked for a handle and has yet to answer.
    AwaitingHandle,
    /// A claim of `handle` is with the registry.
    AwaitingReply { handle: String },
    /// The client holds `handle` and chats.
    Registered { handle: String },
    /// The session is over.
    Ended { reason: SessionEnd },
}

/// What the caller reports to a session.
#[derive(Clone, Debug, PartialEq, Eq)]
pub enum SessionEvent {
    /// A line was read from the client.
    Line { text: String },
    /// The client's stream has ended.
    EndOfStream,
    /// Reading from the client failed.
    ReadFailed,
    /// Writing to the client failed.
    WriteFailed,
    /// A command could not be handed to the registry.
    HubUnreachable,
    /// The registry has answered the claim.
    Reply { result: RegisterResult },
    /// The registry will never answer the claim.
    ReplyLost,
    /// A line has arrived in the session's mailbox.
    Incoming { line: String },
}

/// What a session asks the caller to do.
#[derive(Clone, Debug, PartialEq, Eq)]
pub enum SessionAction {
    /// Write `text` to the client.
    Write { text: String },
    /// Claim `username` at the registry, with the session's own mailbox.
    Register { username: String },
    /// Ask the registry to relay `message`.
    Broadcast { from: String, message: String },
    /// Give `username` up at the registry.
    Deregister { username: String },
}

/// A `SessionState` with its handle as a sequence of characters.
pub enum SessionStateView {
    AwaitingHandle,
    AwaitingReply { handle: Seq<char> },
    Registered { handle: Seq<char> },
    Ended { reason: SessionEnd },
}

/// A `SessionEvent` with its text as a sequence of characters.
pub enum SessionEventView {
    Line { text: Seq<char> },
    EndOfStream,
    ReadFailed,
    WriteFailed,
    HubUnreachable,
    Reply { result: RegisterResult },
    ReplyLost,
    Incoming { line: Seq<char> },
}

/// A `SessionAction` with its text as sequences of characters.
pub enum SessionActionView {
    Write { text: Seq<char> },
    Register { username: Seq<char> },
    Broadcast { from: Seq<char>, message: Seq<char> },
    Deregister { username: Seq<char> },
}

impl View for SessionState {
    type V = SessionStateView;

    open spec fn view(&self) -> SessionStateView {
        match *self {
            SessionState::AwaitingHandle => SessionStateView::AwaitingHandle,
            SessionState::AwaitingReply { handle } => SessionStateView::AwaitingReply {
                handle: handle@,
            },
            SessionState::Registered { handle } => SessionStateView::Registered { handle: handle@ },
            SessionState::Ended { reason } => SessionStateView::Ended { reason },
        }
    }
}

impl View for SessionEvent {
    type V = SessionEventView;

    open spec fn view(&self) -> SessionEventView {
        match *self {
            SessionEvent::Line { text } => SessionEventView::Line { text: text@ },
            SessionEvent::EndOfStream => SessionEventView::EndOfStream,
            SessionEvent::ReadFailed => SessionEventView::ReadFailed,
            SessionEvent::WriteFailed => SessionEventView::WriteFailed,
            SessionEvent::HubUnreachable => SessionEventView::HubUnreachable,
            SessionEvent::Reply { result } => SessionEventView::Reply { result },
            SessionEvent::ReplyLost => SessionEventView::ReplyLost,
            SessionEvent::Incoming { line } => SessionEventView::Incoming { line: line@ },
        }
    }
}

impl View for SessionAction {
    type V = SessionActionView;

    open spec fn view(&self) -> SessionActionView {
        match *self {
            SessionAction::Write { text } => SessionActionView::Write { text: text@ },
            SessionAction::Register { username } => SessionActionView::Register {
                username: username@,
            },
            SessionAction::Broadcast { from, message } => SessionActionView::Broadcast {
                from: from@,
                message: message@,
            },
            SessionAction::Deregister { username } => SessionActionView::Deregister {
                username: username@,
            },
        }
    }
}

/// The views of `actions`, in the same order.
pub open spec fn views_of(actions: Seq<SessionAction>) -> Seq<SessionActionView> {
    Seq::new(actions.len(), |i: int| actions[i]@)
}

/// The state a session is in after `event`.
pub open spec fn next_state(state: SessionStateView, event: SessionEventView) -> SessionStateView {
    match state {
        SessionStateView::AwaitingHandle => match event {
            SessionEventView::Line { text } => if trimmed(text).len() == 0 {
                SessionStateView::AwaitingHandle
            } else {
                SessionStateView::AwaitingReply { handle: trimmed(text) }
            },
            SessionEventView::EndOfStream => SessionStateView::Ended {
                reason: SessionEnd::LoginDisconnected,
            },
            SessionEventView::ReadFailed | SessionEventView::WriteFailed => SessionStateView::Ended {
                reason: SessionEnd::LoginIoFailed,
            },
            _ => state,
        },
        SessionStateView::AwaitingReply { handle } => match event {
            SessionEventView::Reply { result: RegisterResult::Success } => SessionStateView::Registered {
                handle,
            },
            SessionEventView::Reply {
                result: RegisterResult::UsernameTaken,
            } => SessionStateView::AwaitingHandle,
            SessionEventView::HubUnreachable => SessionStateView::Ended {
                reason: SessionEnd::HubShutdown,
            },
            SessionEventView::ReplyLost => SessionStateView::Ended {
                reason: SessionEnd::RequestDropped,
            },
            _ => state,
        },
        SessionStateView::Registered { handle } => match event {
            SessionEventView::EndOfStream => SessionStateView::Ended {
                reason: SessionEnd::Disconnected,
            },
            SessionEventView::ReadFailed => SessionStateView::Ended { reason: SessionEnd::ReadFailed },
            SessionEventView::WriteFailed => SessionStateView::Ended {
                reason: SessionEnd::WriteFailed,
            },
            SessionEventView::HubUnreachable => SessionStateView::Ended {
                reason: SessionEnd::HubClosed,
            },
            _ => state,
        },
        SessionStateView::Ended { reason } => state,
    }
}

/// What a session in `state` asks for when `event` is reported, in order.
pub open spec fn actions_for(state: SessionStateView, event: SessionEventView) -> Seq<
    SessionActionView,
> {
    match state {
        SessionStateView::AwaitingHandle => match event {
            SessionEventView::Line { text } => if trimmed(text).len() == 0 {
                seq![
                    SessionActionView::Write { text: empty_handle_text() },
                    SessionActionView::Write { text: prompt_text() },
                ]
            } else {
                seq![SessionActionView::Register { username: trimmed(text) }]
            },
            _ => seq![],
        },
        SessionStateView::AwaitingReply { handle } => match event {
            SessionEventView::Reply { result: RegisterResult::Success } => seq![
                SessionActionView::Write { text: welcome_text(handle) },
            ],
            SessionEventView::Reply { result: RegisterResult::UsernameTaken } => seq![
                SessionActionView::Write { text: taken_text(handle) },
                SessionActionView::Write { text: prompt_text() },
            ],
            _ => seq![],
        },
        SessionStateView::Registered { handle } => match event {
            SessionEventView::Line { text } => if trimmed(text).len() == 0 {
                seq![]
            } else {
                seq![SessionActionView::Broadcast { from: handle, message: trimmed(text) }]
            },
            SessionEventView::Incoming { line } => seq![
                SessionActionView::Write { text: line_text(line) },
            ],
            SessionEventView::EndOfStream
            | SessionEventView::ReadFailed
            | SessionEventView::WriteFailed
            | SessionEventView::HubUnreachable => seq![
                SessionActionView::Deregister { username: handle },
            ],
            _ => seq![],
        },
        SessionStateView::Ended { reason } => seq![],
    }
}

/// Starts a session on a fresh connection: the client is asked for a handle.
pub fn open_session() -> (opened: (SessionState, Vec<SessionAction>))
    ensures
        opened.0@ == SessionStateView::AwaitingHandle,
        views_of(opened.1@) == seq![SessionActionView::Write { text: prompt_text() }],
{
    let mut actions: Vec<SessionAction> = Vec::new();
    actions.push(SessionAction::Write { text: prompt_line() });
    assert(views_of(actions@) =~= seq![SessionActionView::Write { text: prompt_text() }]);
    (SessionState::AwaitingHandle, actions)
}

/// What a client that has been asked for a handle gets for `event`.
fn step_awaiting_handle(event: SessionEvent) -> (stepped: (SessionState, Vec<SessionAction>))
    ensures
        stepped.0@ == next_state(SessionStateView::AwaitingHandle, event@),
        views_of(stepped.1@) == actions_for(SessionStateView::AwaitingHandle, event@),
{
    let mut actions: Vec<SessionAction> = Vec::new();
    let next = match event {
        SessionEvent::Line { text } => {
            let handle = trim(text.as_str());
            if handle.is_empty() {
                actions.push(SessionAction::Write { text: empty_handle_line() });
                actions.push(SessionAction::Write { text: prompt_line() });
                SessionState::AwaitingHandle
            } else {
                actions.push(SessionAction::Register { username: handle.to_owned() });
                SessionState::AwaitingReply { handle: handle.to_owned() }
            }
        },
        SessionEvent::EndOfStream => SessionState::Ended { reason: SessionEnd::LoginDisconnected },
        SessionEvent::ReadFailed => SessionState::Ended { reason: SessionEnd::LoginIoFailed },
        SessionEvent::WriteFailed => SessionState::Ended { reason: SessionEnd::LoginIoFailed },
        _ => SessionState::AwaitingHandle,
    };
    assert(views_of(actions@) =~= actions_for(SessionStateView::AwaitingHandle, event@));
    (next, actions)
}

/// What a client whose claim of `handle` is with the registry gets for
/// `event`.
fn step_awaiting_reply(handle: String, event: SessionEvent) -> (stepped: (
    SessionState,
    Vec<SessionAction>,
))
    ensures
        stepped.0@ == next_state(SessionStateView::AwaitingReply { handle: handle@ }, event@),
        views_of(stepped.1@) == actions_for(
            SessionStateView::AwaitingReply { handle: handle@ },
            event@,
        ),
{
    let ghost before = SessionStateView::AwaitingReply { handle: handle@ };
    let mut actions: Vec<SessionAction> = Vec::new();
    let next = match event {
        SessionEvent::Reply { result: RegisterResult::Success } => {
            actions.push(SessionAction::Write { text: welcome_line(handle.as_str()) });
            SessionState::Registered { handle }
        },
        SessionEvent::Reply { result: RegisterResult::UsernameTaken } => {
            actions.push(SessionAction::Write { text: taken_line(handle.as_str()) });
            actions.push(SessionAction::Write { text: prompt_line() });
            SessionState::AwaitingHandle
        },
        SessionEvent::HubUnreachable => SessionState::Ended { reason: SessionEnd::HubShutdown },
        SessionEvent::ReplyLost => SessionState::Ended { reason: SessionEnd::RequestDropped },
        _ => SessionState::AwaitingReply { handle },
    };
    assert(views_of(actions@) =~= actions_for(before, event@));
    (next, actions)
}

/// What a client that holds `handle` gets for `event`.
fn step_registered(handle: String, event: SessionEvent) -> (stepped: (
    SessionState,
    Vec<SessionAction>,
))
    ensures
        stepped.0@ == next_state(SessionStateView::Registered { handle: handle@ }, event@),
        views_of(stepped.1@) == actions_for(SessionStateView::Registered { handle: handle@ }, event@),
{
    let ghost before = SessionStateView::Registered { handle: handle@ };
    let mut actions: Vec<SessionAction> = Vec::new();
    let next = match event {
        SessionEvent::Line { text } => {
            let message = trim(text.as_str());
            if !message.is_empty() {
                actions.push(
                    SessionAction::Broadcast { from: handle.clone(), message: message.to_owned() },
                );
            }
            SessionState::Registered { handle }
        },
        SessionEvent::Incoming { line } => {
            actions.push(SessionAction::Write { text: line_of(line.as_str()) });
            SessionState::Registered { handle }
        },
        SessionEvent::EndOfStream => {
            actions.push(SessionAction::Deregister { username: handle });
            SessionState::Ended { reason: SessionEnd::Disconnected }
        },
        SessionEvent::ReadFailed => {
            actions.push(SessionAction::Deregister { username: handle });
            SessionState::Ended { reason: SessionEnd::ReadFailed }
        },
        SessionEvent::WriteFailed => {
            actions.push(SessionAction::Deregister { username: handle });
            SessionState::Ended { reason: SessionEnd::WriteFailed }
        },
        SessionEvent::HubUnreachable => {
            actions.push(SessionAction::Deregister { username: handle });
            SessionState::Ended { reason: SessionEnd::HubClosed }
        },
        _ => SessionState::Registered { handle },
    };
    assert(views_of(actions@) =~= actions_for(before, event@));
    (next, actions)
}

/// Moves a session on by one event: returns the state it is in afterwards
/// and what the caller is to do, in that order. An event that cannot occur
/// in a state changes nothing and asks for nothing.
pub fn step(state: SessionState, event: SessionEvent) -> (stepped: (
    SessionState,
    Vec<SessionAction>,
))
    ensures
        stepped.0@ == next_state(state@, event@),
        views_of(stepped.1@) == actions_for(state@, event@),
{
    match state {
        SessionState::AwaitingHandle => step_awaiting_handle(event),
        SessionState::AwaitingReply { handle } => step_awaiting_reply(handle, event),
        SessionState::Registered { handle } => step_registered(handle, event),
        SessionState::Ended { reason } => {
            let actions: Vec<SessionAction> = Vec::new();
            assert(views_of(actions@) =~= actions_for(state@, event@));
            (SessionState::Ended { reason }, actions)
        },
    }
}

} // verus!
