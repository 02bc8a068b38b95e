//! The registry of connected clients: the one place that knows who is
//! connected, and the only code that changes that knowledge.

use vstd::prelude::*;
use crate::channel::send_reply;
use crate::channel::try_deliver;
use crate::models::BroadcastReport;
use crate::models::Client;
use crate::models::ClientView;
use crate::models::Delivery;
use crate::models::HubCommand;
use crate::models::HubEffect;
use crate::models::PeerAddress;
use crate::models::RegisterResult;
use crate::wire::broadcast_line;
use crate::wire::broadcast_text;

verus! {

/// The registry after a request to add `record`: unchanged where the handle
/// is already held, extended by the record where it is free.
pub open spec fn registered(
    registry: Map<Seq<char>, ClientView>,
    record: ClientView,
) -> Map<Seq<char>, ClientView> {
    if registry.contains_key(record.username) {
        registry
    } else {
        registry.insert(record.username, record)
    }
}

/// The answer that a request for `handle` gets from `registry`.
pub open spec fn register_reply(
    registry: Map<Seq<char>, ClientView>,
    handle: Seq<char>,
) -> RegisterResult {
    if registry.contains_key(handle) {
        RegisterResult::UsernameTaken
    } else {
        RegisterResult::Success
    }
}

/// The registry after `handle` is given up.
pub open spec fn deregistered(
    registry: Map<Seq<char>, ClientView>,
    handle: Seq<char>,
) -> Map<Seq<char>, ClientView> {
    registry.remove(handle)
}

/// The handles that a broadcast from `from` is offered to: every held handle
/// but the sender's own.
pub open spec fn recipients_of(
    registry: Map<Seq<char>, ClientView>,
    from: Seq<char>,
) -> Set<Seq<char>> {
    registry.dom().remove(from)
}

/// The registry after `command` has been handled.
pub open spec fn next_registry(
    registry: Map<Seq<char>, ClientView>,
    command: HubCommand,
) -> Map<Seq<char>, ClientView> {
    match command {
        HubCommand::Register { username, addr, sender, responder } => registered(
            registry,
            ClientView { username: username@, addr, sender },
        ),
        HubCommand::Deregister { username } => deregistered(registry, username@),
        HubCommand::Broadcast { from, message } => registry,
    }
}

/// Whether `effect` is a true account of handling `command` in `registry`.
pub open spec fn accounts_for(
    effect: HubEffect,
    registry: Map<Seq<char>, ClientView>,
    command: HubCommand,
) -> bool {
    match command {
        HubCommand::Register { username, addr, sender, responder } => {
            &&& effect matches HubEffect::Registered {
                username: claimed,
                addr: from_addr,
                reply,
                total_clients,
            }
            &&& claimed@ == username@
            &&& from_addr == addr
            &&& reply == register_reply(registry, username@)
            &&& total_clients == next_registry(registry, command).len()
        },
        HubCommand::Deregister { username } => {
            &&& effect matches HubEffect::Deregistered { username: given_up, removed, total_clients }
            &&& given_up@ == username@
            &&& removed == registry.contains_key(username@)
            &&& total_clients == next_registry(registry, command).len()
        },
        HubCommand::Broadcast { from, message } => {
            &&& effect matches HubEffect::Relayed { report }
            &&& report.line@ == broadcast_text(from@, message@)
            &&& report.recipients().no_duplicates()
            &&& report.recipients().to_set() == recipients_of(registry, from@)
        },
    }
}

/// The handles of `records`, in the same order.
spec fn handles_of(records: Seq<Client>) -> Seq<Seq<char>> {
    Seq::new(records.len(), |i: int| records[i].username@)
}

/// The mapping that a list of records with distinct handles stands for.
spec fn registry_of(records: Seq<Client>) -> Map<Seq<char>, ClientView> {
    Map::new(
        |h: Seq<char>| handles_of(records).contains(h),
        |h: Seq<char>| records[handles_of(records).index_of(h)]@,
    )
}

proof fn lemma_record_at(records: Seq<Client>, i: int)
    requires
        handles_of(records).no_duplicates(),
        0 <= i < records.len(),
    ensures
        registry_of(records).contains_key(records[i].username@),
        registry_of(records)[records[i].username@] == records[i]@,
{
    let handles = handles_of(records);
    assert(handles[i] == records[i].username@);
    let j = handles.index_of(records[i].username@);
    assert(0 <= j < handles.len() && handles[j] == handles[i]);
}

proof fn lemma_push_record(records: Seq<Client>, record: Client)
    requires
        handles_of(records).no_duplicates(),
        !handles_of(records).contains(record.username@),
    ensures
        handles_of(records.push(record)).no_duplicates(),
        registry_of(records.push(record)) == registry_of(records).insert(
            record.username@,
            record@,
        ),
{
    let grown = records.push(record);
    let before = handles_of(records);
    let after = handles_of(grown);
    assert(after =~= before.push(record.username@));
    assert forall|i: int, j: int| 0 <= i < after.len() && 0 <= j < after.len() && i != j implies after[i]
        != after[j] by {
        if i < before.len() {
            assert(before[i] == after[i]);
        }
        if j < before.len() {
            assert(before[j] == after[j]);
        }
    }
    let target = registry_of(records).insert(record.username@, record@);
    assert forall|h: Seq<char>| registry_of(grown).contains_key(h) == target.contains_key(h) by {
        if after.contains(h) {
            let i = after.index_of(h);
            if i < before.len() {
                assert(before[i] == h);
            }
        }
        if before.contains(h) {
            let i = before.index_of(h);
            assert(after[i] == h);
        }
        if h == record.username@ {
            assert(after[before.len() as int] == h);
        }
    }
    assert forall|h: Seq<char>| registry_of(grown).contains_key(h) implies registry_of(grown)[h]
        == target[h] by {
        let i = after.index_of(h);
        lemma_record_at(grown, i);
        if i < before.len() {
            assert(before[i] == h);
            lemma_record_at(records, i);
        }
    }
    assert(registry_of(grown) =~= target);
}

proof fn lemma_remove_record(records: Seq<Client>, at: int)
    requires
        handles_of(records).no_duplicates(),
        0 <= at < records.len(),
    ensures
        handles_of(records.remove(at)).no_duplicates(),
        registry_of(records.remove(at)) == registry_of(records).remove(records[at].username@),
{
    let shrunk = records.remove(at);
    let before = handles_of(records);
    let after = handles_of(shrunk);
    let gone = records[at].username@;
    assert(before[at] == gone);
    assert(after =~= before.remove(at));
    assert forall|i: int, j: int| 0 <= i < after.len() && 0 <= j < after.len() && i != j implies after[i]
        != after[j] by {
        let oi = if i < at { i } else { i + 1 };
        let oj = if j < at { j } else { j + 1 };
        assert(after[i] == before[oi]);
        assert(after[j] == before[oj]);
    }
    let target = registry_of(records).remove(gone);
    assert forall|h: Seq<char>| registry_of(shrunk).contains_key(h) == target.contains_key(h) by {
        if after.contains(h) {
            let i = after.index_of(h);
            let oi = if i < at { i } else { i + 1 };
            assert(before[oi] == h);
        }
        if before.contains(h) && h != gone {
            let oi = before.index_of(h);
            let i = if oi < at { oi } else { oi - 1 };
            assert(after[i] == h);
        }
    }
    assert forall|h: Seq<char>| registry_of(shrunk).contains_key(h) implies registry_of(shrunk)[h]
        == target[h] by {
        let i = after.index_of(h);
        let oi = if i < at { i } else { i + 1 };
        assert(before[oi] == h);
        lemma_record_at(shrunk, i);
        lemma_record_at(records, oi);
    }
    assert(registry_of(shrunk) =~= target);
}

proof fn lemma_registry_size(records: Seq<Client>)
    requires
        handles_of(records).no_duplicates(),
    ensures
        registry_of(records).dom().finite(),
        registry_of(records).len() == records.len(),
{
    let handles = handles_of(records);
    assert(registry_of(records).dom() =~= handles.to_set());
    handles.unique_seq_to_set();
}

/// The registry of connected clients.
///
/// The records are kept in a list in which no handle occurs twice, and are
/// looked up by going through it. A hash map keyed by the handle is not
/// used because nothing is known to the verifier about how strings hash.
#[derive(Debug)]
pub struct Hub {
    clients: Vec<Client>,
}

impl Hub {
    #[verifier::type_invariant]
    spec fn handles_are_unique(self) -> bool {
        handles_of(self.clients@).no_duplicates()
    }

    /// The registry as a mapping from each held handle to its record.
    pub closed spec fn view(&self) -> Map<Seq<char>, ClientView> {
        registry_of(self.clients@)
    }

    /// Every record is kept under the handle it carries.
    pub proof fn lemma_records_are_keyed_by_handle(&self)
        ensures
            forall|handle: Seq<char>| #[trigger]
                self@.contains_key(handle) ==> self@[handle].username == handle,
    {
        assert forall|handle: Seq<char>| #[trigger] self@.contains_key(handle) implies self@[handle].username
            == handle by {
            let at = handles_of(self.clients@).index_of(handle);
            assert(handles_of(self.clients@)[at] == handle);
        }
    }

    /// An empty registry.
    pub fn new() -> (hub: Hub)
        ensures
            hub@ == Map::<Seq<char>, ClientView>::empty(),
    {
        let hub = Hub { clients: Vec::new() };
        assert(hub@ =~= Map::<Seq<char>, ClientView>::empty());
        hub
    }

    /// Where the record of `handle` is kept, if there is one.
    fn position(&self, handle: &str) -> (found: Option<usize>)
        ensures
            match found {
                Some(i) => i < self.clients@.len() && self.clients@[i as int].username@ == handle@,
                None => !handles_of(self.clients@).contains(handle@),
            },
    {
        let wanted: String = handle.to_owned();
        let mut i: usize = 0;
        while i < self.clients.len()
            invariant
                i <= self.clients@.len(),
                wanted@ == handle@,
                forall|j: int| 0 <= j < i ==> self.clients@[j].username@ != handle@,
            decreases self.clients@.len() - i,
        {
            if self.clients[i].username == wanted {
                return Some(i);
            }
            i += 1;
        }
        None
    }

    /// Handles a request to claim `username`. A handle that is already held
    /// stays with its holder and the request is answered `UsernameTaken`; a
    /// free one is recorded with `addr` and `sender` and the request is
    /// answered `Success`. The answer is offered to `responder` and returned;
    /// a requester that has gone away in the meantime changes nothing.
    pub fn register(
        &mut self,
        username: String,
        addr: PeerAddress,
        sender: tokio::sync::mpsc::Sender<String>,
        responder: tokio::sync::oneshot::Sender<RegisterResult>,
    ) -> (reply: RegisterResult)
        ensures
            reply == register_reply(old(self)@, username@),
            final(self)@ == registered(
                old(self)@,
                (ClientView { username: username@, addr, sender }),
            ),
    {
        proof {
            use_type_invariant(&*self);
        }
        let reply = match self.position(username.as_str()) {
            Some(i) => {
                assert(handles_of(self.clients@)[i as int] == username@);
                RegisterResult::UsernameTaken
            },
            None => {
                let record = Client { username, addr, sender };
                proof {
                    lemma_push_record(self.clients@, record);
                }
                let mut clients: Vec<Client> = Vec::new();
                std::mem::swap(&mut clients, &mut self.clients);
                clients.push(record);
                self.clients = clients;
                RegisterResult::Success
            },
        };
        let _ = send_reply(responder, reply);
        reply
    }

    /// Removes the record of `username`, if there is one, and says whether
    /// there was. Giving up a handle that nobody holds changes nothing.
    pub fn deregister(&mut self, username: &str) -> (removed: bool)
        ensures
            removed == old(self)@.contains_key(username@),
            final(self)@ == deregistered(old(self)@, username@),
    {
        proof {
            use_type_invariant(&*self);
        }
        match self.position(username) {
            Some(i) => {
                proof {
                    lemma_remove_record(self.clients@, i as int);
                    assert(handles_of(self.clients@)[i as int] == username@);
                }
                let mut clients: Vec<Client> = Vec::new();
                std::mem::swap(&mut clients, &mut self.clients);
                let _ = clients.remove(i);
                self.clients = clients;
                true
            },
            None => {
                assert(self@ =~= deregistered(self@, username@));
                false
            },
        }
    }

    /// Relays `message` from `from`: the line `[from]: message` is offered,
    /// without waiting, once to the mailbox of every connected client but
    /// `from`. A full or closed mailbox costs that client the line and nobody
    /// else anything. The registry itself is left as it was.
    pub fn broadcast(&self, from: &str, message: &str) -> (report: BroadcastReport)
        ensures
            report.line@ == broadcast_text(from@, message@),
            report.recipients().no_duplicates(),
            report.recipients().to_set() == recipients_of(self@, from@),
            !report.recipients().contains(from@),
    {
        proof {
            use_type_invariant(self);
        }
        let line = broadcast_line(from, message);
        let sender_handle: String = from.to_owned();
        let mut deliveries: Vec<Delivery> = Vec::new();
        let ghost handles = handles_of(self.clients@);
        let mut i: usize = 0;
        while i < self.clients.len()
            invariant
                i <= self.clients@.len(),
                handles == handles_of(self.clients@),
                handles.no_duplicates(),
                sender_handle@ == from@,
                line@ == broadcast_text(from@, message@),
                forall|k: int|
                    0 <= k < deliveries@.len() ==> deliveries@[k].recipient@ != from@ && exists|j: int|
                        0 <= j < i && handles[j] == #[trigger] deliveries@[k].recipient@,
                forall|j: int|
                    0 <= j < i && #[trigger] handles[j] != from@ ==> exists|k: int|
                        0 <= k < deliveries@.len() && deliveries@[k].recipient@ == handles[j],
                forall|k: int, l: int|
                    0 <= k < deliveries@.len() && 0 <= l < deliveries@.len() && k != l
                        ==> deliveries@[k].recipient@ != deliveries@[l].recipient@,
            decreases self.clients@.len() - i,
        {
            let client = &self.clients[i];
            assert(handles[i as int] == client.username@);
            if client.username != sender_handle {
                let outcome = try_deliver(&client.sender, line.clone());
                let ghost before = deliveries@;
                deliveries.push(Delivery { recipient: client.username.clone(), outcome });
                proof {
                    let last = before.len() as int;
                    assert(deliveries@[last].recipient@ == handles[i as int]);
                    assert forall|k: int| 0 <= k < before.len() implies deliveries@[k] == before[k] by {}
                    assert forall|j: int| 0 <= j < i + 1 && #[trigger] handles[j] != from@ implies exists|
                        k: int,
                    |
                        0 <= k < deliveries@.len() && deliveries@[k].recipient@ == handles[j] by {
                        if j < i {
                            let k = choose|k: int|
                                0 <= k < before.len() && before[k].recipient@ == handles[j];
                            assert(deliveries@[k].recipient@ == handles[j]);
                        } else {
                            assert(deliveries@[last].recipient@ == handles[j]);
                        }
                    }
                }
            }
            i += 1;
        }
        let report = BroadcastReport { line, deliveries };
        proof {
            let got = report.recipients();
            assert forall|h: Seq<char>| got.to_set().contains(h) == recipients_of(self@, from@).contains(
                h,
            ) by {
                if got.contains(h) {
                    let k = got.index_of(h);
                    assert(report.deliveries@[k].recipient@ == h);
                }
                if handles.contains(h) && h != from@ {
                    let j = handles.index_of(h);
                    let k = choose|k: int|
                        0 <= k < report.deliveries@.len() && report.deliveries@[k].recipient@
                            == handles[j];
                    assert(got[k] == h);
                }
            }
            assert(got.to_set() =~= recipients_of(self@, from@));
        }
        report
    }

    /// Handles one command: a claim, a release or a relay. Commands are
    /// handled one at a time, each on the registry the one before it left.
    pub fn dispatch(&mut self, command: HubCommand) -> (effect: HubEffect)
        ensures
            final(self)@ == next_registry(old(self)@, command),
            accounts_for(effect, old(self)@, command),
    {
        match command {
            HubCommand::Register { username, addr, sender, responder } => {
                let claimed = username.clone();
                let reply = self.register(username, addr, sender, responder);
                let total_clients = self.len();
                HubEffect::Registered { username: claimed, addr, reply, total_clients }
            },
            HubCommand::Deregister { username } => {
                let removed = self.deregister(username.as_str());
                let total_clients = self.len();
                HubEffect::Deregistered { username, removed, total_clients }
            },
            HubCommand::Broadcast { from, message } => {
                let report = self.broadcast(from.as_str(), message.as_str());
                HubEffect::Relayed { report }
            },
        }
    }

    /// How many clients are connected.
    pub fn len(&self) -> (count: usize)
        ensures
            self@.dom().finite(),
            count == self@.len(),
    {
        proof {
            use_type_invariant(self);
            lemma_registry_size(self.clients@);
        }
        self.clients.len()
    }

    /// Whether `handle` is held by a connected client.
    pub fn contains(&self, handle: &str) -> (held: bool)
        ensures
            held == self@.contains_key(handle@),
    {
        let found = self.position(handle);
        proof {
            if let Some(i) = found {
                assert(handles_of(self.clients@)[i as int] == handle@);
            }
        }
        found.is_some()
    }
}

} // verus!
