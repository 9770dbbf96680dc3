//! The storage that the workers of a server share.

use vstd::prelude::*;
use crate::protocol::ClientState;
use crate::protocol::ClientStateView;
use crate::text::decimal_text;
use crate::text::same_text;
use crate::util::Sender;

verus! {

/// What the server knows of one client.
#[verifier::ext_equal]
pub struct ClientEntry {
    pub state: ClientStateView,
    pub tx: Sender,
}

/// What a [`ServerState`] holds: the number of the next id, and the connected
/// clients by their ids.
#[verifier::ext_equal]
pub struct ServerStateView {
    pub id_generator: nat,
    pub clients: Map<Seq<char>, ClientEntry>,
}

impl ServerStateView {
    /// Each client has an id that was issued before: the decimal notation of a
    /// number below the next one.
    pub open spec fn ids_issued(self) -> bool {
        forall|id: Seq<char>| #[trigger]
            self.clients.dom().contains(id) ==> exists|n: nat|
                n < self.id_generator && id == #[trigger] crate::text::decimal(n)
    }

    /// Without any client; the first id is that of the number `first_id`.
    pub open spec fn empty(first_id: nat) -> ServerStateView {
        ServerStateView { id_generator: first_id, clients: Map::empty() }
    }

    /// A storage begins with nobody in it and with the number that it is given.
    pub proof fn law_begins_empty(first_id: nat, id: Seq<char>)
        ensures
            ServerStateView::empty(first_id).id_generator == first_id,
            !ServerStateView::empty(first_id).clients.dom().contains(id),
    {
    }

    /// Whether a client with this id is connected and in no game.
    pub open spec fn is_free(self, id: Seq<char>) -> bool {
        self.clients.dom().contains(id) && self.clients[id].state is Free
    }

    /// Whether a match against `opponent` can be had by the client `id`.
    pub open spec fn can_play(self, id: Seq<char>, opponent: Seq<char>) -> bool {
        opponent != id && self.is_free(opponent)
    }

    /// With a new client, which can be reached at `tx`.
    pub open spec fn register(self, tx: Sender) -> ServerStateView {
        ServerStateView {
            id_generator: self.id_generator + 1,
            clients: self.clients.insert(
                crate::text::decimal(self.id_generator),
                ClientEntry { state: ClientStateView::Free, tx },
            ),
        }
    }

    /// With another state of the client `id`, if that is connected.
    pub open spec fn set_state(self, id: Seq<char>, state: ClientStateView) -> ServerStateView {
        if self.clients.dom().contains(id) {
            ServerStateView {
                clients: self.clients.insert(id, ClientEntry { state, tx: self.clients[id].tx }),
                ..self
            }
        } else {
            self
        }
    }

    /// Without the client `id`.
    pub open spec fn remove(self, id: Seq<char>) -> ServerStateView {
        ServerStateView { clients: self.clients.remove(id), ..self }
    }

    /// Whether `ids` lists, in any order and each once, the clients that the
    /// client `id` can have a match against.
    pub open spec fn is_opponent_list(self, id: Seq<char>, ids: Seq<Seq<char>>) -> bool {
        &&& ids.no_duplicates()
        &&& forall|opponent: Seq<char>| #[trigger]
            ids.contains(opponent) <==> self.can_play(id, opponent)
    }

    /// The id that the next client gets is not in use.
    pub proof fn law_next_id_unused(self)
        requires
            self.ids_issued(),
        ensures
            !self.clients.dom().contains(crate::text::decimal(self.id_generator)),
    {
        let id = crate::text::decimal(self.id_generator);
        if self.clients.dom().contains(id) {
            let n = choose|n: nat|
                n < self.id_generator && id == #[trigger] crate::text::decimal(n);
            crate::text::law_decimal_injective(n, self.id_generator);
        }
    }
}

/// A connected client.
struct Client {
    id: String,
    state: ClientState,
    tx: Sender,
}

/// Main storage of the server.
pub struct ServerState {
    id_generator: usize,
    available_clients: Vec<Client>,
}

/// Whether `clients[i]` is the client `id`.
spec fn is_at(clients: Seq<Client>, id: Seq<char>, i: int) -> bool {
    0 <= i < clients.len() && clients[i].id@ == id
}

/// The clients by their ids.
spec fn by_id(clients: Seq<Client>) -> Map<Seq<char>, ClientEntry> {
    Map::new(
        |id: Seq<char>| exists|i: int| is_at(clients, id, i),
        |id: Seq<char>|
            {
                let i = choose|i: int| is_at(clients, id, i);
                ClientEntry { state: clients[i].state@, tx: clients[i].tx }
            },
    )
}

/// No two clients have the same id.
spec fn distinct(clients: Seq<Client>) -> bool {
    forall|i: int, j: int|
        0 <= i < j < clients.len() ==> (#[trigger] clients[i]).id@ != (#[trigger] clients[j]).id@
}

impl View for ServerState {
    type V = ServerStateView;

    closed spec fn view(&self) -> ServerStateView {
        ServerStateView {
            id_generator: self.id_generator as nat,
            clients: by_id(self.available_clients@),
        }
    }
}

impl ServerState {
    /// No id occurs twice.
    pub closed spec fn ids_distinct(self) -> bool {
        distinct(self.available_clients@)
    }

    /// The invariant of the storage.
    pub open spec fn wf(self) -> bool {
        self.ids_distinct() && self@.ids_issued()
    }

    /// An empty storage, which will give `first_id` as its first id.
    pub fn new(first_id: usize) -> (store: ServerState)
        ensures
            store.wf(),
            store@ == ServerStateView::empty(first_id as nat),
    {
        let store = ServerState { id_generator: first_id, available_clients: Vec::new() };
        assert(store@.clients =~= Map::empty());
        store
    }

    /// The number of the next id.
    pub fn id_generator(&self) -> (n: usize)
        ensures
            n == self@.id_generator,
    {
        self.id_generator
    }

    /// How many clients are connected.
    pub fn client_count(&self) -> (n: usize)
        requires
            self.wf(),
        ensures
            self@.clients.dom().finite(),
            n == self@.clients.len(),
    {
        proof {
            let ids = self.available_clients@.map_values(|client: Client| client.id@);
            assert(ids.no_duplicates());
            ids.unique_seq_to_set();
            assert forall|id: Seq<char>|
                ids.to_set().contains(id) implies self@.clients.dom().contains(id) by {
                let i = choose|i: int| 0 <= i < ids.len() && ids[i] == id;
                assert(is_at(self.available_clients@, id, i));
            }
            assert forall|id: Seq<char>|
                self@.clients.dom().contains(id) implies ids.to_set().contains(id) by {
                let i = choose|i: int| is_at(self.available_clients@, id, i);
                assert(ids[i] == id);
            }
            assert(ids.to_set() =~= self@.clients.dom());
            vstd::seq_lib::seq_to_set_is_finite(ids);
        }
        self.available_clients.len()
    }

    /// Where the client `id` stands.
    fn find(&self, id: &str) -> (at: Option<usize>)
        requires
            self.wf(),
        ensures
            match at {
                Some(i) => {
                    &&& is_at(self.available_clients@, id@, i as int)
                    &&& self@.clients.dom().contains(id@)
                    &&& self@.clients[id@] == (ClientEntry {
                        state: self.available_clients@[i as int].state@,
                        tx: self.available_clients@[i as int].tx,
                    })
                },
                None => !self@.clients.dom().contains(id@),
            },
    {
        let mut i: usize = 0;
        while i < self.available_clients.len()
            invariant
                self.wf(),
                i <= self.available_clients@.len(),
                forall|j: int| 0 <= j < i ==> (#[trigger] self.available_clients@[j]).id@ != id@,
            decreases self.available_clients@.len() - i,
        {
            if same_text(self.available_clients[i].id.as_str(), id) {
                assert(is_at(self.available_clients@, id@, i as int));
                return Some(i);
            }
            i = i + 1;
        }
        None
    }

    /// The state of the client `id`, if that is connected.
    pub fn client_state(&self, id: &str) -> (state: Option<&ClientState>)
        requires
            self.wf(),
        ensures
            match state {
                Some(state) => {
                    &&& self@.clients.dom().contains(id@)
                    &&& state@ == self@.clients[id@].state
                },
                None => !self@.clients.dom().contains(id@),
            },
    {
        match self.find(id) {
            Some(i) => Some(&self.available_clients[i].state),
            None => None,
        }
    }

    /// The channel of the client `opponent`, if the client `id` can have a
    /// match against it.
    pub fn free_opponent(&self, id: &str, opponent: &str) -> (tx: Option<Sender>)
        requires
            self.wf(),
        ensures
            tx == (if self@.can_play(id@, opponent@) {
                Some(self@.clients[opponent@].tx)
            } else {
                None
            }),
    {
        match self.find(opponent) {
            Some(i) => {
                if self.available_clients[i].state.is_free() && !same_text(opponent, id) {
                    Some(self.available_clients[i].tx)
                } else {
                    None
                }
            },
            None => None,
        }
    }

    /// The ids of the clients that the client `id` can have a match against.
    pub fn opponents(&self, id: &str) -> (ids: Vec<String>)
        requires
            self.wf(),
        ensures
            self@.is_opponent_list(id@, crate::protocol::texts(ids@)),
    {
        let mut ids: Vec<String> = Vec::new();
        let ghost mut from: Seq<int> = Seq::empty();
        let mut i: usize = 0;
        while i < self.available_clients.len()
            invariant
                self.wf(),
                i <= self.available_clients@.len(),
                from.len() == ids@.len(),
                forall|k: int|
                    0 <= k < from.len() ==> {
                        let client = self.available_clients@[#[trigger] from[k]];
                        &&& 0 <= from[k] < i
                        &&& client.id@ == ids@[k]@
                        &&& client.state@ is Free
                        &&& client.id@ != id@
                    },
                forall|k: int, l: int| 0 <= k < l < from.len() ==> from[k] < from[l],
                forall|j: int|
                    0 <= j < i && (#[trigger] self.available_clients@[j]).state@ is Free
                        && self.available_clients@[j].id@ != id@ ==> from.contains(j),
            decreases self.available_clients@.len() - i,
        {
            let client = &self.available_clients[i];
            let ghost before = from;
            if client.state.is_free() && !same_text(client.id.as_str(), id) {
                ids.push(client.id.clone());
                proof {
                    from = from.push(i as int);
                    assert(from[from.len() - 1] == i);
                }
            }
            proof {
                assert forall|j: int|
                    0 <= j < i + 1 && (#[trigger] self.available_clients@[j]).state@ is Free
                        && self.available_clients@[j].id@ != id@ implies from.contains(j) by {
                    if j < i {
                        let k = choose|k: int| 0 <= k < before.len() && before[k] == j;
                        assert(from[k] == j);
                    }
                }
            }
            i = i + 1;
        }
        proof {
            let listed = crate::protocol::texts(ids@);
            assert forall|opponent: Seq<char>| #[trigger]
                listed.contains(opponent) <==> self@.can_play(id@, opponent) by {
                if listed.contains(opponent) {
                    let k = choose|k: int| 0 <= k < listed.len() && listed[k] == opponent;
                    assert(ids@[k]@ == opponent);
                    self.lemma_entry(from[k]);
                }
                if self@.can_play(id@, opponent) {
                    let j = choose|j: int| is_at(self.available_clients@, opponent, j);
                    self.lemma_entry(j);
                    assert(from.contains(j));
                    let k = choose|k: int| 0 <= k < from.len() && from[k] == j;
                    assert(listed[k] == opponent);
                }
            }
            assert forall|k: int, l: int| 0 <= k < listed.len() && 0 <= l < listed.len() && k != l
                implies listed[k] != listed[l] by {
                let a = self.available_clients@[from[k]];
                let b = self.available_clients@[from[l]];
                assert(a.id@ == ids@[k]@ && b.id@ == ids@[l]@);
                assert(from[k] < from[l] || from[l] < from[k]);
            }
        }
        ids
    }

    /// Adds a client, which can be reached at `tx`, and gives the id of it.
    pub fn register(&mut self, tx: Sender) -> (id: String)
        requires
            old(self).wf(),
            old(self)@.id_generator < usize::MAX,
        ensures
            final(self).wf(),
            final(self)@ == old(self)@.register(tx),
            id@ == crate::text::decimal(old(self)@.id_generator),
    {
        let id = decimal_text(self.id_generator);
        proof {
            self@.law_next_id_unused();
        }
        let ghost before = self.available_clients@;
        let ghost issued = self@;
        self.id_generator = self.id_generator + 1;
        self.available_clients.push(Client { id: id.clone(), state: ClientState::Free, tx });
        proof {
            let after = self.available_clients@;
            assert(after == before.push(after.last()));
            assert forall|i: int|
                0 <= i < before.len() implies (#[trigger] before[i]).id@ != id@ by {
                assert(is_at(before, before[i].id@, i));
                assert(issued.clients.dom().contains(before[i].id@));
            }
            assert(distinct(after));
            lemma_pushed(before, after.last());
            assert(self@ =~= issued.register(tx));
            assert forall|other: Seq<char>| #[trigger] self@.clients.dom().contains(other)
                implies exists|n: nat|
                n < self@.id_generator && other == #[trigger] crate::text::decimal(n) by {
                if other == id@ {
                    assert(other == crate::text::decimal(issued.id_generator));
                } else {
                    assert(issued.clients.dom().contains(other));
                    let n = choose|n: nat|
                        n < issued.id_generator && other == #[trigger] crate::text::decimal(n);
                    assert(other == crate::text::decimal(n));
                }
            }
        }
        id
    }

    /// Sets the state of the client `id`, if that is connected.
    pub fn set_state(&mut self, id: &str, state: ClientState)
        requires
            old(self).wf(),
        ensures
            final(self).wf(),
            final(self)@ == old(self)@.set_state(id@, state@),
    {
        let ghost before = *self;
        if let Some(i) = self.find(id) {
            self.available_clients[i].state = state;
            proof {
                let old_clients = before.available_clients@;
                let new_clients = self.available_clients@;
                assert(distinct(new_clients));
                lemma_same_ids(old_clients, new_clients);
                assert(self@.clients.dom() =~= before@.clients.dom());
                assert forall|other: Seq<char>| #[trigger] self@.clients.dom().contains(other)
                    implies self@.clients[other] == before@.set_state(
                    id@,
                    state@,
                ).clients[other] by {
                    let j = choose|j: int| is_at(new_clients, other, j);
                    before.lemma_entry(j);
                    lemma_by_id(new_clients, j);
                    if j != i && other == id@ {
                        assert(is_at(old_clients, other, j));
                    }
                }
                assert(self@ =~= before@.set_state(id@, state@));
            }
        }
    }

    /// Removes the client `id`, if that is connected.
    pub fn remove(&mut self, id: &str)
        requires
            old(self).wf(),
        ensures
            final(self).wf(),
            final(self)@ == old(self)@.remove(id@),
    {
        let ghost before = *self;
        if let Some(i) = self.find(id) {
            let _ = self.available_clients.remove(i);
            proof {
                let old_clients = before.available_clients@;
                let new_clients = self.available_clients@;
                assert(new_clients =~= old_clients.remove(i as int));
                assert(distinct(new_clients));
                let removed = before@.remove(id@);
                assert forall|other: Seq<char>|
                    self@.clients.dom().contains(other) <==> removed.clients.dom().contains(
                        other,
                    ) by {
                    if self@.clients.dom().contains(other) {
                        let j = choose|j: int| is_at(new_clients, other, j);
                        let k = if j < i { j } else { j + 1 };
                        assert(new_clients[j] == old_clients[k]);
                        before.lemma_entry(k);
                    }
                    if before@.clients.dom().contains(other) && other != id@ {
                        let k = choose|k: int| is_at(old_clients, other, k);
                        let j = if k < i { k } else { k - 1 };
                        assert(new_clients[j] == old_clients[k]);
                        assert(is_at(new_clients, other, j));
                    }
                }
                assert(self@.clients.dom() =~= removed.clients.dom());
                assert forall|other: Seq<char>| #[trigger] self@.clients.dom().contains(other)
                    implies self@.clients[other] == before@.clients[other] by {
                    let j = choose|j: int| is_at(new_clients, other, j);
                    let k = if j < i { j } else { j + 1 };
                    assert(new_clients[j] == old_clients[k]);
                    before.lemma_entry(k);
                    lemma_by_id(new_clients, j);
                }
                assert(self@ =~= removed);
            }
        } else {
            assert(self@.clients.remove(id@) =~= self@.clients);
        }
    }

    /// What the storage holds of its `i`-th client.
    proof fn lemma_entry(self, i: int)
        requires
            self.wf(),
            0 <= i < self.available_clients@.len(),
        ensures
            ({
                let client = self.available_clients@[i];
                &&& self@.clients.dom().contains(client.id@)
                &&& self@.clients[client.id@] == (ClientEntry {
                    state: client.state@,
                    tx: client.tx,
                })
            }),
    {
        lemma_by_id(self.available_clients@, i);
    }
}

/// Where ids are distinct, the map holds each client as it is.
proof fn lemma_by_id(clients: Seq<Client>, i: int)
    requires
        distinct(clients),
        0 <= i < clients.len(),
    ensures
        by_id(clients).dom().contains(clients[i].id@),
        by_id(clients)[clients[i].id@] == (ClientEntry {
            state: clients[i].state@,
            tx: clients[i].tx,
        }),
{
    assert(is_at(clients, clients[i].id@, i));
}

/// One more client in the list is one more in the map.
proof fn lemma_pushed(clients: Seq<Client>, client: Client)
    requires
        distinct(clients.push(client)),
    ensures
        by_id(clients.push(client)) == by_id(clients).insert(
            client.id@,
            ClientEntry { state: client.state@, tx: client.tx },
        ),
{
    let after = clients.push(client);
    let entry = ClientEntry { state: client.state@, tx: client.tx };
    let inserted = by_id(clients).insert(client.id@, entry);
    assert(distinct(clients)) by {
        assert forall|i: int, j: int| 0 <= i < j < clients.len() implies (#[trigger] clients[i]).id@
            != (#[trigger] clients[j]).id@ by {
            assert(after[i] == clients[i] && after[j] == clients[j]);
        }
    }
    assert(after[clients.len() as int] == client);
    lemma_by_id(after, clients.len() as int);
    assert forall|id: Seq<char>|
        by_id(after).dom().contains(id) <==> inserted.dom().contains(id) by {
        if by_id(after).dom().contains(id) && id != client.id@ {
            let i = choose|i: int| is_at(after, id, i);
            assert(is_at(clients, id, i));
        }
        if by_id(clients).dom().contains(id) {
            let i = choose|i: int| is_at(clients, id, i);
            assert(is_at(after, id, i));
        }
    }
    assert forall|id: Seq<char>| #[trigger] by_id(after).dom().contains(id) implies by_id(after)[id]
        == inserted[id] by {
        if id != client.id@ {
            let i = choose|i: int| is_at(after, id, i);
            lemma_by_id(after, i);
            lemma_by_id(clients, i);
        }
    }
    assert(by_id(after) =~= inserted);
}

/// The same ids in the list are the same ids in the map.
proof fn lemma_same_ids(a: Seq<Client>, b: Seq<Client>)
    requires
        a.len() == b.len(),
        forall|i: int| 0 <= i < a.len() ==> (#[trigger] a[i]).id@ == (#[trigger] b[i]).id@,
    ensures
        by_id(a).dom() == by_id(b).dom(),
{
    assert forall|id: Seq<char>| by_id(a).dom().contains(id) <==> by_id(b).dom().contains(id) by {
        if by_id(a).dom().contains(id) {
            let i = choose|i: int| is_at(a, id, i);
            assert(is_at(b, id, i));
        }
        if by_id(b).dom().contains(id) {
            let i = choose|i: int| is_at(b, id, i);
            assert(is_at(a, id, i));
        }
    }
    assert(by_id(a).dom() =~= by_id(b).dom());
}

/// The storage says all that it holds, and nothing else: the number of the next
/// id, and each client under its id, with its state and its channel.
proof fn law_store_says_all(store: ServerState, i: int, id: Seq<char>)
    requires
        store.wf(),
        0 <= i < store.available_clients@.len(),
    ensures
        store@.id_generator == store.id_generator,
        ({
            let client = store.available_clients@[i];
            &&& store@.clients.dom().contains(client.id@)
            &&& store@.clients[client.id@].state == client.state@
            &&& store@.clients[client.id@].tx == client.tx
        }),
        store@.clients.dom().contains(id) ==> exists|j: int|
            0 <= j < store.available_clients@.len() && (#[trigger] store.available_clients@[j]).id@
                == id,
{
    store.lemma_entry(i);
    if store@.clients.dom().contains(id) {
        let j = choose|j: int| is_at(store.available_clients@, id, j);
        assert(store.available_clients@[j].id@ == id);
    }
}

} // verus!
