//! What holds of every session, proved from the meaning of its steps.

use vstd::prelude::*;
use crate::models::RegisterResult;
use crate::session::actions_for;
use crate::session::ended_in_chat;
use crate::session::next_state;
use crate::session::SessionActionView;
use crate::session::SessionEventView;
use crate::session::SessionStateView;
use crate::wire::prompt_text;
use crate::wire::trimmed;

verus! {

/// The state of a session that was opened and has been told `events`.
pub open spec fn state_after(events: Seq<SessionEventView>) -> SessionStateView
    decreases events.len(),
{
    if events.len() == 0 {
        SessionStateView::AwaitingHandle
    } else {
        next_state(state_after(events.drop_last()), events.last())
    }
}

/// Everything a session has asked for since it was opened, the opening
/// prompt included, once it has been told `events`.
pub open spec fn actions_after(events: Seq<SessionEventView>) -> Seq<SessionActionView>
    decreases events.len(),
{
    if events.len() == 0 {
        seq![SessionActionView::Write { text: prompt_text() }]
    } else {
        actions_after(events.drop_last()) + actions_for(
            state_after(events.drop_last()),
            events.last(),
        )
    }
}

/// How many of `actions` give a handle up.
pub open spec fn releases_in(actions: Seq<SessionActionView>) -> nat
    decreases actions.len(),
{
    if actions.len() == 0 {
        0
    } else if actions.last() is Deregister {
        releases_in(actions.drop_last()) + 1
    } else {
        releases_in(actions.drop_last())
    }
}

/// A session that is over stays over and asks for nothing more.
pub proof fn lemma_ended_is_final(state: SessionStateView, event: SessionEventView)
    requires
        state is Ended,
    ensures
        next_state(state, event) == state,
        actions_for(state, event) == Seq::<SessionActionView>::empty(),
{
}

/// A session that holds a handle gives it up whenever it ends, whatever
/// ends it, and asks for nothing else then.
pub proof fn lemma_leaving_gives_handle_up(handle: Seq<char>, event: SessionEventView)
    requires
        next_state(SessionStateView::Registered { handle }, event) is Ended,
    ensures
        actions_for(SessionStateView::Registered { handle }, event) == seq![
            SessionActionView::Deregister { username: handle },
        ],
        ended_in_chat(next_state(SessionStateView::Registered { handle }, event)->Ended_reason),
{
}

/// A handle is given up only by the session that holds it, and only as
/// that session ends.
pub proof fn lemma_only_holder_gives_up(state: SessionStateView, event: SessionEventView, at: int)
    requires
        0 <= at < actions_for(state, event).len(),
        actions_for(state, event)[at] is Deregister,
    ensures
        state == (SessionStateView::Registered {
            handle: actions_for(state, event)[at]->Deregister_username,
        }),
        next_state(state, event) is Ended,
{
}

/// An empty handle and a handle that is taken cost the client nothing but
/// another try: the session goes back to waiting for a handle, and the
/// last thing it writes is the prompt.
pub proof fn lemma_refused_handle_is_asked_again(state: SessionStateView, event: SessionEventView)
    requires
        (state is AwaitingHandle && event is Line && trimmed(event->Line_text).len() == 0) || (state is AwaitingReply
            && event == (SessionEventView::Reply { result: RegisterResult::UsernameTaken })),
    ensures
        next_state(state, event) == SessionStateView::AwaitingHandle,
        actions_for(state, event).len() == 2,
        actions_for(state, event)[1] == (SessionActionView::Write { text: prompt_text() }),
{
}

/// A claim never carries an empty handle, and it carries the line that was
/// read with the white space around it taken away.
pub proof fn lemma_claim_carries_trimmed_handle(
    state: SessionStateView,
    event: SessionEventView,
    at: int,
)
    requires
        0 <= at < actions_for(state, event).len(),
        actions_for(state, event)[at] is Register,
    ensures
        state is AwaitingHandle,
        event is Line,
        actions_for(state, event)[at]->Register_username == trimmed(event->Line_text),
        actions_for(state, event)[at]->Register_username.len() > 0,
        next_state(state, event) == (SessionStateView::AwaitingReply {
            handle: trimmed(event->Line_text),
        }),
{
}

/// A relay request goes out under the handle the session holds, carries
/// the line that was read with the white space around it taken away, and
/// is never made for a line that is empty then.
pub proof fn lemma_relay_carries_own_handle(
    state: SessionStateView,
    event: SessionEventView,
    at: int,
)
    requires
        0 <= at < actions_for(state, event).len(),
        actions_for(state, event)[at] is Broadcast,
    ensures
        state == (SessionStateView::Registered {
            handle: actions_for(state, event)[at]->Broadcast_from,
        }),
        event is Line,
        actions_for(state, event)[at]->Broadcast_message == trimmed(event->Line_text),
        actions_for(state, event)[at]->Broadcast_message.len() > 0,
        next_state(state, event) == state,
{
}

/// Giving handles up adds up over actions put one after the other.
proof fn lemma_releases_add_up(first: Seq<SessionActionView>, second: Seq<SessionActionView>)
    ensures
        releases_in(first + second) == releases_in(first) + releases_in(second),
    decreases second.len(),
{
    if second.len() == 0 {
        assert(first + second =~= first);
    } else {
        assert((first + second).drop_last() =~= first + second.drop_last());
        assert((first + second).last() == second.last());
        lemma_releases_add_up(first, second.drop_last());
    }
}

/// How many handles one step gives up: one when it ends a session that
/// holds a handle, none otherwise.
proof fn lemma_releases_of_step(state: SessionStateView, event: SessionEventView)
    ensures
        releases_in(actions_for(state, event)) == if state is Registered && next_state(
            state,
            event,
        ) is Ended {
            1nat
        } else {
            0nat
        },
{
    reveal_with_fuel(releases_in, 3);
    let actions = actions_for(state, event);
    if actions.len() == 1 {
        assert(actions.drop_last().len() == 0);
    } else if actions.len() == 2 {
        assert(actions.drop_last().len() == 1);
        assert(actions.drop_last().drop_last().len() == 0);
        assert(actions.drop_last().last() == actions[0]);
    }
}

/// Over its whole life a session gives a handle up exactly once if it ends
/// after it has held one, and never otherwise: not while it is still
/// running, and not when it ends before it holds a handle.
pub proof fn lemma_handle_given_up_once(events: Seq<SessionEventView>)
    ensures
        releases_in(actions_after(events)) == if state_after(events) is Ended && ended_in_chat(
            state_after(events)->Ended_reason,
        ) {
            1nat
        } else {
            0nat
        },
    decreases events.len(),
{
    if events.len() == 0 {
        reveal_with_fuel(releases_in, 2);
        let opening = actions_after(events);
        assert(opening.drop_last().len() == 0);
    } else {
        let earlier = events.drop_last();
        lemma_handle_given_up_once(earlier);
        lemma_releases_of_step(state_after(earlier), events.last());
        lemma_releases_add_up(
            actions_after(earlier),
            actions_for(state_after(earlier), events.last()),
        );
    }
}

} // verus!
