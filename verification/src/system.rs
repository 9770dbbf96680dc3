//! A server with all its clients: what holds whatever happens, in whatever
//! order.

use vstd::prelude::*;
use crate::client_util::ClientInternalMessageView;
use crate::client_worker::ClientWorkerView;
use crate::protocol::GuessProtocolView;
use crate::server::ServerStateView;
use crate::server_worker::Reaction;
use crate::server_worker::ServerActionView;
use crate::server_worker::ServerWorkerView;
use crate::util::InternalMessageView;
use crate::util::Sender;

verus! {

/// A server with all its clients. Each client has handled what was written to
/// it so far. What has been sent to a channel can be delivered at any time.
#[verifier::ext_equal]
pub struct System {
    pub store: ServerStateView,
    pub workers: Map<Seq<char>, ServerWorkerView>,
    pub clients: Map<Seq<char>, ClientWorkerView>,
    pub sent: Set<(Sender, InternalMessageView<GuessProtocolView>)>,
}

/// What one worker may send to another: no message of the network, and of the
/// messages that can be passed on only guesses and hints.
pub open spec fn comes_from_worker(message: InternalMessageView<GuessProtocolView>) -> bool {
    &&& crate::laws::is_deliverable(message)
    &&& !(message is Network) && !(message is StdIn) && !(message is Error)
}

impl System {
    /// A server that nobody has connected to.
    pub open spec fn is_start(self) -> bool {
        &&& self.store.clients == Map::<Seq<char>, crate::server::ClientEntry>::empty()
        &&& self.workers == Map::<Seq<char>, ServerWorkerView>::empty()
        &&& self.clients == Map::<Seq<char>, ClientWorkerView>::empty()
        &&& self.sent == Set::<(Sender, InternalMessageView<GuessProtocolView>)>::empty()
    }

    /// A client is let in.
    pub open spec fn join(self, tx: Sender) -> System {
        let id = crate::text::decimal(self.store.id_generator);
        System {
            store: self.store.register(tx),
            workers: self.workers.insert(id, crate::server_worker::new_worker(id, tx)),
            clients: self.clients.insert(id, crate::client_worker::new_client(id)),
            ..self
        }
    }

    /// A client is gone.
    pub open spec fn leave(self, id: Seq<char>) -> System {
        System {
            store: self.store.remove(id),
            workers: self.workers.remove(id),
            clients: self.clients.remove(id),
            ..self
        }
    }

    /// Whether a worker may find `message` in its channel: anything may come
    /// from the network, all else has been sent there.
    pub open spec fn may_arrive(
        self,
        worker: ServerWorkerView,
        message: InternalMessageView<GuessProtocolView>,
    ) -> bool {
        message is Network || message is Error || self.sent.contains((worker.tx, message))
    }

    /// The worker of the client `id` does what `then` says.
    pub open spec fn handle(self, id: Seq<char>, then: Reaction) -> System {
        System {
            store: then.store,
            workers: self.workers.insert(id, then.worker),
            clients: self.clients.insert(
                id,
                crate::laws::after_writes(self.clients[id], then.actions),
            ),
            sent: self.sent.union(
                Set::new(
                    |sent: (Sender, InternalMessageView<GuessProtocolView>)|
                        then.actions.contains(ServerActionView::Send(sent.0, sent.1)),
                ),
            ),
        }
    }

    /// What always holds: the storage knows exactly the clients that are
    /// there, each under its own id and with its own channel; workers and
    /// clients are well-formed; each client knows the state that its worker
    /// holds; and what is sent to a channel is what a worker may send.
    pub open spec fn inv(self) -> bool {
        &&& self.store.ids_issued()
        &&& self.store.clients.dom() == self.workers.dom()
        &&& self.clients.dom() == self.workers.dom()
        &&& forall|id: Seq<char>| #[trigger]
            self.workers.dom().contains(id) ==> {
                &&& self.workers[id].id == id
                &&& self.workers[id].wf()
                &&& self.workers[id].tx == self.store.clients[id].tx
                &&& self.clients[id].id == id
                &&& crate::laws::mirrors(self.clients[id], self.workers[id])
            }
        &&& forall|sent: (Sender, InternalMessageView<GuessProtocolView>)| #[trigger]
            self.sent.contains(sent) ==> comes_from_worker(sent.1)
    }
}

/// Whether a server can go from `before` to `after` in one step.
pub open spec fn step(before: System, after: System) -> bool {
    ||| exists|tx: Sender| after == #[trigger] before.join(tx)
    ||| exists|id: Seq<char>| after == #[trigger] before.leave(id)
    ||| exists|
        id: Seq<char>,
        message: InternalMessageView<GuessProtocolView>,
        then: Reaction,
    | #[trigger]
        handles(before, id, message, then) && after == before.handle(id, then)
}

/// Whether the worker of the client `id` may find `message` and then do what
/// `then` says.
pub open spec fn handles(
    system: System,
    id: Seq<char>,
    message: InternalMessageView<GuessProtocolView>,
    then: Reaction,
) -> bool {
    &&& system.workers.dom().contains(id)
    &&& system.may_arrive(system.workers[id], message)
    &&& crate::server_worker::reacts(system.workers[id], system.store, message, then)
}

/// Whether `run` are the states that a server goes through one after the
/// other, from the first on.
pub open spec fn is_run(run: Seq<System>) -> bool {
    &&& run.len() > 0
    &&& run[0].is_start()
    &&& forall|i: int, j: int|
        0 <= i && j == i + 1 && j < run.len() ==> step(#[trigger] run[i], #[trigger] run[j])
}

/// A worker sends nothing but what may come from a worker.
proof fn lemma_sends(
    worker: ServerWorkerView,
    store: ServerStateView,
    message: InternalMessageView<GuessProtocolView>,
    then: Reaction,
    tx: Sender,
    sent: InternalMessageView<GuessProtocolView>,
)
    requires
        crate::server_worker::reacts(worker, store, message, then),
        then.actions.contains(ServerActionView::Send(tx, sent)),
    ensures
        comes_from_worker(sent),
{
    let i = choose|i: int|
        0 <= i < then.actions.len() && then.actions[i] == ServerActionView::Send(tx, sent);
    assert(then.actions[i] == ServerActionView::Send(tx, sent));
}

/// The id of a client stays, whatever is written to it.
proof fn lemma_writes_keep_id(client: ClientWorkerView, actions: Seq<ServerActionView>)
    ensures
        crate::laws::after_writes(client, actions).id == client.id,
    decreases actions.len(),
{
    if actions.len() > 0 {
        lemma_writes_keep_id(client, actions.drop_last());
    }
}

/// No step breaks what always holds.
pub proof fn law_step_keeps_inv(before: System, after: System)
    requires
        before.inv(),
        step(before, after),
    ensures
        after.inv(),
{
    if exists|tx: Sender| after == #[trigger] before.join(tx) {
        let tx = choose|tx: Sender| after == #[trigger] before.join(tx);
        assert(crate::laws::store_step(before.store, before.store.register(tx)));
        crate::laws::law_step_keeps_ids(before.store, after.store);
        assert(after.store.clients.dom() =~= after.workers.dom());
        assert(after.clients.dom() =~= after.workers.dom());
    } else if exists|id: Seq<char>| after == #[trigger] before.leave(id) {
        let left = choose|id: Seq<char>| after == #[trigger] before.leave(id);
        assert(crate::laws::store_step(before.store, before.store.remove(left)));
        crate::laws::law_step_keeps_ids(before.store, after.store);
        assert(after.store.clients.dom() =~= after.workers.dom());
        assert(after.clients.dom() =~= after.workers.dom());
    } else {
        let (id, message, then) = choose|
            id: Seq<char>,
            message: InternalMessageView<GuessProtocolView>,
            then: Reaction,
        | #[trigger]
            handles(before, id, message, then) && after == before.handle(id, then);
        let worker = before.workers[id];
        crate::laws::law_worker_stays_wf(worker, before.store, message, then);
        crate::laws::law_store_frame(worker, before.store, message, then);
        crate::laws::law_client_mirrors_worker(
            before.clients[id],
            worker,
            before.store,
            message,
            then,
        );
        lemma_writes_keep_id(before.clients[id], then.actions);
        assert(after.workers.dom() =~= before.workers.dom());
        assert(after.clients.dom() =~= before.clients.dom());
        assert forall|other: Seq<char>| #[trigger] after.workers.dom().contains(other) implies {
            &&& after.workers[other].id == other
            &&& after.workers[other].wf()
            &&& after.workers[other].tx == after.store.clients[other].tx
            &&& after.clients[other].id == other
            &&& crate::laws::mirrors(after.clients[other], after.workers[other])
        } by {
            assert(before.workers.dom().contains(other));
            assert(before.store.clients.dom().contains(other));
        }
        assert forall|sent: (Sender, InternalMessageView<GuessProtocolView>)| #[trigger]
            after.sent.contains(sent) implies comes_from_worker(sent.1) by {
            if !before.sent.contains(sent) {
                lemma_sends(worker, before.store, message, then, sent.0, sent.1);
            }
        }
    }
}

/// Whatever happens, and in whatever order, at any time: the storage knows
/// exactly the clients that are there, workers and clients are well-formed,
/// and each client knows the state that its worker holds.
pub proof fn law_inv_always_holds(run: Seq<System>, i: int)
    requires
        is_run(run),
        0 <= i < run.len(),
    ensures
        run[i].inv(),
    decreases i,
{
    if i > 0 {
        law_inv_always_holds(run, i - 1);
        assert(step(run[i - 1], run[i]));
        law_step_keeps_inv(run[i - 1], run[i]);
    }
}

/// Whatever happens, and in whatever order, no client is ever written a
/// message that it cannot make sense of.
pub proof fn law_clients_can_always_handle(
    run: Seq<System>,
    i: int,
    id: Seq<char>,
    message: InternalMessageView<GuessProtocolView>,
    then: Reaction,
    written: GuessProtocolView,
    client: ClientWorkerView,
)
    requires
        is_run(run),
        0 <= i < run.len(),
        handles(run[i], id, message, then),
        then.actions.contains(ServerActionView::Write(written)),
    ensures
        client.can_handle(ClientInternalMessageView::Network(Ok(written))),
{
    law_inv_always_holds(run, i);
    crate::laws::law_client_can_handle_writes(
        run[i].workers[id],
        run[i].store,
        message,
        then,
        written,
        client,
    );
}

} // verus!
