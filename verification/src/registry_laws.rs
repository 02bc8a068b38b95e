//! What holds of the registry whatever commands arrive, proved from the
//! meaning of the commands alone.

use vstd::prelude::*;
use crate::hub::deregistered;
use crate::hub::next_registry;
use crate::hub::recipients_of;
use crate::hub::register_reply;
use crate::models::ClientView;
use crate::models::HubCommand;
use crate::models::RegisterResult;

verus! {

/// Whether `command` is a claim of `handle`.
pub open spec fn claims(command: HubCommand, handle: Seq<char>) -> bool {
    command matches HubCommand::Register { username, .. } && username@ == handle
}

/// Whether `command` gives `handle` up.
pub open spec fn releases(command: HubCommand, handle: Seq<char>) -> bool {
    command matches HubCommand::Deregister { username } && username@ == handle
}

/// The record that a claim asks the registry to keep.
pub open spec fn claimed_record(command: HubCommand) -> ClientView
    recommends
        command is Register,
{
    ClientView {
        username: command->Register_username@,
        addr: command->Register_addr,
        sender: command->Register_sender,
    }
}

/// The registry after `commands` have been handled one after the other.
pub open spec fn run_commands(
    registry: Map<Seq<char>, ClientView>,
    commands: Seq<HubCommand>,
) -> Map<Seq<char>, ClientView>
    decreases commands.len(),
{
    if commands.len() == 0 {
        registry
    } else {
        next_registry(run_commands(registry, commands.drop_last()), commands.last())
    }
}

/// The answer that the claim at position `at` of `commands` gets, when the
/// commands are handled in order starting from `registry`.
pub open spec fn reply_at(
    registry: Map<Seq<char>, ClientView>,
    commands: Seq<HubCommand>,
    at: int,
) -> RegisterResult
    recommends
        0 <= at < commands.len(),
        commands[at] is Register,
{
    register_reply(run_commands(registry, commands.take(at)), commands[at]->Register_username@)
}

/// While nobody gives `handle` up, it is held after a run of commands
/// exactly if it was held before or one of the commands claimed it; and
/// where it was free before, its record is that of the first claim.
pub proof fn lemma_held_once_claimed(
    registry: Map<Seq<char>, ClientView>,
    commands: Seq<HubCommand>,
    handle: Seq<char>,
)
    requires
        forall|k: int| 0 <= k < commands.len() ==> !releases(#[trigger] commands[k], handle),
    ensures
        run_commands(registry, commands).contains_key(handle) <==> registry.contains_key(handle)
            || exists|k: int| 0 <= k < commands.len() && claims(#[trigger] commands[k], handle),
        !registry.contains_key(handle) ==> forall|first: int|
            0 <= first < commands.len() && claims(#[trigger] commands[first], handle) && (forall|k: int|
                0 <= k < first ==> !claims(#[trigger] commands[k], handle)) ==> run_commands(
                registry,
                commands,
            )[handle] == claimed_record(commands[first]),
    decreases commands.len(),
{
    if commands.len() > 0 {
        let earlier = commands.drop_last();
        let last = commands.last();
        let n = earlier.len() as int;
        assert forall|k: int| 0 <= k < earlier.len() implies !releases(
            #[trigger] earlier[k],
            handle,
        ) by {
            assert(earlier[k] == commands[k]);
        }
        lemma_held_once_claimed(registry, earlier, handle);
        let before = run_commands(registry, earlier);
        assert(!releases(commands[n], handle));
        if before.contains_key(handle) && !registry.contains_key(handle) {
            let k = choose|k: int| 0 <= k < earlier.len() && claims(#[trigger] earlier[k], handle);
            assert(claims(commands[k], handle));
        }
        if exists|k: int| 0 <= k < commands.len() && claims(#[trigger] commands[k], handle) {
            let k = choose|k: int| 0 <= k < commands.len() && claims(#[trigger] commands[k], handle);
            if k < n {
                assert(claims(earlier[k], handle));
            }
        }
        if !registry.contains_key(handle) {
            assert forall|first: int|
                0 <= first < commands.len() && claims(#[trigger] commands[first], handle) && (forall|
                    k: int,
                |
                    0 <= k < first ==> !claims(#[trigger] commands[k], handle)) implies run_commands(
                registry,
                commands,
            )[handle] == claimed_record(commands[first]) by {
                if first < n {
                    assert(claims(earlier[first], handle));
                    assert forall|k: int| 0 <= k < first implies !claims(
                        #[trigger] earlier[k],
                        handle,
                    ) by {
                        assert(earlier[k] == commands[k]);
                    }
                    assert(before.contains_key(handle));
                    assert(before[handle] == claimed_record(earlier[first]));
                } else {
                    assert forall|k: int| 0 <= k < earlier.len() implies !claims(
                        #[trigger] earlier[k],
                        handle,
                    ) by {
                        assert(earlier[k] == commands[k]);
                    }
                    assert(!before.contains_key(handle));
                }
            }
        }
    }
}

/// Of all the claims of one handle that the registry handles, in whatever
/// order they arrive and whatever else arrives between them, exactly one
/// succeeds: where the handle is free at the start and never given up, the
/// first claim is answered `Success`, every other claim of it is answered
/// `UsernameTaken`, and at the end the handle is held with the record of
/// the first claim and no other.
pub proof fn lemma_one_claim_wins(
    registry: Map<Seq<char>, ClientView>,
    commands: Seq<HubCommand>,
    handle: Seq<char>,
    first: int,
)
    requires
        !registry.contains_key(handle),
        forall|k: int| 0 <= k < commands.len() ==> !releases(#[trigger] commands[k], handle),
        0 <= first < commands.len(),
        claims(commands[first], handle),
        forall|k: int| 0 <= k < first ==> !claims(#[trigger] commands[k], handle),
    ensures
        reply_at(registry, commands, first) == RegisterResult::Success,
        forall|other: int|
            0 <= other < commands.len() && other != first && claims(
                #[trigger] commands[other],
                handle,
            ) ==> reply_at(registry, commands, other) == RegisterResult::UsernameTaken,
        run_commands(registry, commands).contains_key(handle),
        run_commands(registry, commands)[handle] == claimed_record(commands[first]),
{
    lemma_held_once_claimed(registry, commands, handle);
    assert forall|at: int| 0 <= at < commands.len() && claims(#[trigger] commands[at], handle) implies (
    reply_at(registry, commands, at) == RegisterResult::Success <==> at == first) by {
        let prefix = commands.take(at);
        assert forall|k: int| 0 <= k < prefix.len() implies !releases(
            #[trigger] prefix[k],
            handle,
        ) by {
            assert(prefix[k] == commands[k]);
        }
        lemma_held_once_claimed(registry, prefix, handle);
        if at <= first {
            assert forall|k: int| 0 <= k < prefix.len() implies !claims(
                #[trigger] prefix[k],
                handle,
            ) by {
                assert(prefix[k] == commands[k]);
            }
        } else {
            assert(claims(prefix[first], handle));
        }
    }
}

/// A later claim of a handle is refused for as long as the handle is held:
/// a registry that holds `handle` answers every claim of it `UsernameTaken`
/// and keeps the record it had.
pub proof fn lemma_held_handle_is_refused(registry: Map<Seq<char>, ClientView>, claim: HubCommand)
    requires
        claim is Register,
        registry.contains_key(claim->Register_username@),
    ensures
        register_reply(registry, claim->Register_username@) == RegisterResult::UsernameTaken,
        next_registry(registry, claim) == registry,
{
}

/// A line is never offered to the client that sent it.
pub proof fn lemma_sender_is_no_recipient(registry: Map<Seq<char>, ClientView>, from: Seq<char>)
    ensures
        !recipients_of(registry, from).contains(from),
{
}

/// A line is offered to every connected client other than its sender,
/// whatever becomes of it at any other client's mailbox.
pub proof fn lemma_every_other_client_is_offered(
    registry: Map<Seq<char>, ClientView>,
    from: Seq<char>,
    to: Seq<char>,
)
    requires
        registry.contains_key(to),
        to != from,
    ensures
        recipients_of(registry, from).contains(to),
{
}

/// Relaying a line leaves the registry as it was.
pub proof fn lemma_relay_keeps_registry(registry: Map<Seq<char>, ClientView>, relay: HubCommand)
    requires
        relay is Broadcast,
    ensures
        next_registry(registry, relay) == registry,
{
}

/// Giving up a handle that nobody holds changes nothing, and giving one up
/// a second time changes nothing more.
pub proof fn lemma_deregister_is_idempotent(registry: Map<Seq<char>, ClientView>, handle: Seq<char>)
    ensures
        !registry.contains_key(handle) ==> deregistered(registry, handle) == registry,
        !deregistered(registry, handle).contains_key(handle),
        deregistered(deregistered(registry, handle), handle) == deregistered(registry, handle),
{
    if !registry.contains_key(handle) {
        assert(deregistered(registry, handle) =~= registry);
    }
    assert(deregistered(deregistered(registry, handle), handle) =~= deregistered(registry, handle));
}

} // verus!
