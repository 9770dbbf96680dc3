//! The server's side of a connection to one client.

use vstd::prelude::*;
use crate::protocol::ClientState;
use crate::protocol::ClientStateView;
use crate::protocol::GuessProtocol;
use crate::protocol::GuessProtocolView;
use crate::protocol::ReadError;
use crate::server::ServerState;
use crate::server::ServerStateView;
use crate::text::same_text;
use crate::util::InternalMessage;
use crate::util::InternalMessageView;
use crate::util::Sender;

verus! {

/// What a worker wants done.
#[derive(Debug, PartialEq)]
pub enum ServerAction {
    /// Write a message to the client.
    Write(GuessProtocol),
    /// Send a message to a joint channel.
    Send(Sender, InternalMessage<GuessProtocol>),
}

/// What a [`ServerAction`] says.
pub enum ServerActionView {
    Write(GuessProtocolView),
    Send(Sender, InternalMessageView<GuessProtocolView>),
}

impl View for ServerAction {
    type V = ServerActionView;

    open spec fn view(&self) -> ServerActionView {
        match self {
            ServerAction::Write(message) => ServerActionView::Write(message@),
            ServerAction::Send(tx, message) => ServerActionView::Send(*tx, message@),
        }
    }
}

/// What a list of actions says.
pub open spec fn acted(actions: Seq<ServerAction>) -> Seq<ServerActionView> {
    actions.map_values(|action: ServerAction| action@)
}

/// What a [`ServerWorker`] knows.
#[verifier::ext_equal]
pub struct ServerWorkerView {
    pub id: Seq<char>,
    pub client_state: ClientStateView,
    pub tx: Sender,
    pub tx_to_opponent: Option<Sender>,
    pub opponent_word: Option<Seq<char>>,
}

impl ServerWorkerView {
    /// A worker has an opponent if and only if its client is in a game, and
    /// knows the word if and only if its client is to guess it.
    pub open spec fn wf(self) -> bool {
        &&& self.tx_to_opponent is None <==> self.client_state is Free
        &&& self.opponent_word is Some <==> self.client_state is Guesser
    }

    /// In no game.
    pub open spec fn reset(self) -> ServerWorkerView {
        ServerWorkerView {
            client_state: ClientStateView::Free,
            tx_to_opponent: None,
            opponent_word: None,
            ..self
        }
    }
}

/// What one message makes a worker do: what the worker and the storage are
/// afterwards, what is to be done, and whether the connection goes on.
#[verifier::ext_equal]
pub struct Reaction {
    pub worker: ServerWorkerView,
    pub store: ServerStateView,
    pub actions: Seq<ServerActionView>,
    pub result: Result<(), ()>,
}

/// Nothing but one message to the client.
pub open spec fn answer(
    worker: ServerWorkerView,
    store: ServerStateView,
    message: GuessProtocolView,
) -> Reaction {
    Reaction { worker, store, actions: seq![ServerActionView::Write(message)], result: Ok(()) }
}

/// Nothing but one message to the opponent, if there is one.
pub open spec fn tell_opponent(
    worker: ServerWorkerView,
    store: ServerStateView,
    message: InternalMessageView<GuessProtocolView>,
) -> Reaction {
    Reaction {
        worker,
        store,
        actions: match worker.tx_to_opponent {
            Some(tx) => seq![ServerActionView::Send(tx, message)],
            None => seq![],
        },
        result: Ok(()),
    }
}

/// The match is over: the client is told so by `message` and is free again.
pub open spec fn end_match(
    worker: ServerWorkerView,
    store: ServerStateView,
    message: GuessProtocolView,
) -> Reaction {
    answer(worker.reset(), store.set_state(worker.id, ClientStateView::Free), message)
}

/// The client asks for a match in which `opponent` is to guess `word`.
pub open spec fn on_select(
    worker: ServerWorkerView,
    store: ServerStateView,
    opponent: Seq<char>,
    word: Seq<char>,
) -> Reaction {
    if store.can_play(worker.id, opponent) {
        let tx = store.clients[opponent].tx;
        let role = ClientStateView::Riddlemaker(word);
        Reaction {
            worker: ServerWorkerView { client_state: role, tx_to_opponent: Some(tx), ..worker },
            store: store.set_state(opponent, ClientStateView::Guesser).set_state(worker.id, role),
            actions: seq![
                ServerActionView::Send(
                    tx,
                    InternalMessageView::OpponentAssigned(worker.tx, worker.id, word),
                ),
                ServerActionView::Write(
                    GuessProtocolView::OpponentConnectionEstablished(opponent, role),
                ),
            ],
            result: Ok(()),
        }
    } else {
        answer(worker, store, GuessProtocolView::OpponentConnectionNotEstablished(opponent))
    }
}

/// The client guesses `word`.
pub open spec fn on_guess(
    worker: ServerWorkerView,
    store: ServerStateView,
    word: Seq<char>,
) -> Reaction {
    match worker.tx_to_opponent {
        Some(tx) if worker.opponent_word == Some(word) => {
            let end = end_match(worker, store, GuessProtocolView::ServerWordFound);
            Reaction {
                actions: seq![ServerActionView::Send(tx, InternalMessageView::WordFound)]
                    + end.actions,
                ..end
            }
        },
        _ => tell_opponent(
            worker,
            store,
            InternalMessageView::Opponent(GuessProtocolView::ClientGuess(word)),
        ),
    }
}

/// A message of the client, other than a request for the list of opponents.
pub open spec fn on_request(
    worker: ServerWorkerView,
    store: ServerStateView,
    message: GuessProtocolView,
) -> Reaction {
    match (worker.client_state, message) {
        (ClientStateView::Free, GuessProtocolView::ClientSelectOpponent(opponent, word)) =>
            on_select(worker, store, opponent, word),
        (ClientStateView::Guesser, GuessProtocolView::ClientGuess(word)) => on_guess(
            worker,
            store,
            word,
        ),
        (ClientStateView::Riddlemaker(_), GuessProtocolView::ClientHint(hint)) => tell_opponent(
            worker,
            store,
            InternalMessageView::Opponent(GuessProtocolView::ClientHint(hint)),
        ),
        _ => answer(worker, store, GuessProtocolView::LogicError),
    }
}

/// An opponent has chosen the client to guess `word`.
pub open spec fn on_assigned(
    worker: ServerWorkerView,
    store: ServerStateView,
    tx: Sender,
    opponent: Seq<char>,
    word: Seq<char>,
) -> Reaction {
    if worker.client_state is Free {
        answer(
            ServerWorkerView {
                client_state: ClientStateView::Guesser,
                tx_to_opponent: Some(tx),
                opponent_word: Some(word),
                ..worker
            },
            store,
            GuessProtocolView::OpponentConnectionEstablished(opponent, ClientStateView::Guesser),
        )
    } else {
        Reaction { worker, store, actions: seq![], result: Ok(()) }
    }
}

/// What a message makes a worker do, other than a request for the list of
/// opponents.
pub open spec fn reaction(
    worker: ServerWorkerView,
    store: ServerStateView,
    message: InternalMessageView<GuessProtocolView>,
) -> Reaction {
    match message {
        InternalMessageView::Error => Reaction {
            result: Err(()),
            ..tell_opponent(worker, store, InternalMessageView::OpponentDisconnected)
        },
        InternalMessageView::OpponentDisconnected => end_match(
            worker,
            store,
            GuessProtocolView::ServerOpponentDisconnected,
        ),
        InternalMessageView::OpponentAssigned(tx, opponent, word) => on_assigned(
            worker,
            store,
            tx,
            opponent,
            word,
        ),
        InternalMessageView::WordFound => end_match(
            worker,
            store,
            GuessProtocolView::ServerWordFound,
        ),
        InternalMessageView::Opponent(message) => answer(worker, store, message),
        InternalMessageView::Network(Err(_)) => answer(
            worker,
            store,
            GuessProtocolView::UnrecognizedMessageError,
        ),
        InternalMessageView::Network(Ok(message)) => on_request(worker, store, message),
        InternalMessageView::StdIn(_) => Reaction {
            worker,
            store,
            actions: seq![],
            result: Ok(()),
        },
    }
}

/// Whether `then` is what `message` makes a worker do. The list of opponents
/// comes in no particular order; all else is determined.
pub open spec fn reacts(
    worker: ServerWorkerView,
    store: ServerStateView,
    message: InternalMessageView<GuessProtocolView>,
    then: Reaction,
) -> bool {
    if message == InternalMessageView::Network(
        Ok::<GuessProtocolView, ()>(GuessProtocolView::ClientListOpponents),
    ) {
        exists|ids: Seq<Seq<char>>| #[trigger]
            store.is_opponent_list(worker.id, ids) && then == answer(
                worker,
                store,
                GuessProtocolView::ServerOpponentList(ids),
            )
    } else {
        then == reaction(worker, store, message)
    }
}

/// Whether a client that answered the server's first message with `reply` is
/// let in.
pub open spec fn is_admitted(
    reply: Result<GuessProtocolView, ReadError>,
    password: Seq<char>,
) -> bool {
    reply == Ok::<GuessProtocolView, ReadError>(GuessProtocolView::ClientPassword(password))
}

/// The worker of a client that has just been let in under `id`.
pub open spec fn new_worker(id: Seq<char>, tx: Sender) -> ServerWorkerView {
    ServerWorkerView {
        id,
        client_state: ClientStateView::Free,
        tx,
        tx_to_opponent: None,
        opponent_word: None,
    }
}

/// What it means for a client to be let in: its worker, the storage with it,
/// and what it is told.
pub struct Admission {
    pub worker: ServerWorkerView,
    pub store: ServerStateView,
    pub told: ServerActionView,
}

/// How a client is let in, if it is.
pub open spec fn admission(
    reply: Result<GuessProtocolView, ReadError>,
    password: Seq<char>,
    store: ServerStateView,
    tx: Sender,
) -> Option<Admission> {
    if is_admitted(reply, password) {
        let id = crate::text::decimal(store.id_generator);
        Some(
            Admission {
                worker: new_worker(id, tx),
                store: store.register(tx),
                told: ServerActionView::Write(GuessProtocolView::ConnectionEstablished(id)),
            },
        )
    } else {
        None
    }
}

/// A client is let in if and only if it answers with the password, letter for
/// letter. It then gets the next number as its id: it is told that id, its
/// worker has it, and the storage holds it there, free and with its channel,
/// beside all others.
pub proof fn law_admission(
    reply: Result<GuessProtocolView, ReadError>,
    password: Seq<char>,
    store: ServerStateView,
    tx: Sender,
    other: Seq<char>,
)
    ensures
        admission(reply, password, store, tx) is Some <==> {
            &&& reply is Ok
            &&& reply->Ok_0 is ClientPassword
            &&& reply->Ok_0->ClientPassword_0 == password
        },
        admission(reply, password, store, tx) is Some ==> {
            let let_in = admission(reply, password, store, tx)->Some_0;
            let id = crate::text::decimal(store.id_generator);
            &&& let_in.told == ServerActionView::Write(
                GuessProtocolView::ConnectionEstablished(id),
            )
            &&& let_in.worker == (ServerWorkerView {
                id,
                client_state: ClientStateView::Free,
                tx,
                tx_to_opponent: None,
                opponent_word: None,
            })
            &&& let_in.store.id_generator == store.id_generator + 1
            &&& let_in.store.clients.dom().contains(id)
            &&& let_in.store.clients[id].state == ClientStateView::Free
            &&& let_in.store.clients[id].tx == tx
            &&& other != id ==> {
                &&& let_in.store.clients.dom().contains(other) <==> store.clients.dom().contains(
                    other,
                )
                &&& store.clients.dom().contains(other) ==> let_in.store.clients[other]
                    == store.clients[other]
            }
        },
{
}

/// Server-side representation of a client.
pub struct ServerWorker {
    /// Client id
    id: String,
    /// Client game state
    client_state: ClientState,
    /// Joint channel of the client
    tx: Sender,
    /// Joint channel of the opponent
    tx_to_opponent: Option<Sender>,
    /// Opponent word
    opponent_word: Option<String>,
}

impl View for ServerWorker {
    type V = ServerWorkerView;

    closed spec fn view(&self) -> ServerWorkerView {
        ServerWorkerView {
            id: self.id@,
            client_state: self.client_state@,
            tx: self.tx,
            tx_to_opponent: self.tx_to_opponent,
            opponent_word: match self.opponent_word {
                Some(word) => Some(word@),
                None => None,
            },
        }
    }
}

/// Adds one action to a list.
fn act(out: &mut Vec<ServerAction>, action: ServerAction)
    ensures
        acted(final(out)@) == acted(old(out)@).push(action@),
{
    out.push(action);
    assert(acted(out@) =~= acted(old(out)@).push(action@));
}

impl ServerWorker {
    /// The message by which the server opens a connection. The client is to
    /// answer with the password.
    pub fn greeting() -> (message: GuessProtocol)
        ensures
            message@ == GuessProtocolView::ServerHello,
    {
        GuessProtocol::ServerHello
    }

    /// Whether a client that answered the greeting with `reply` is to be let
    /// in: only the right password will do.
    pub fn admits(reply: &Result<GuessProtocol, ReadError>, password: &str) -> (admitted: bool)
        ensures
            admitted == is_admitted(crate::protocol::reply_view(*reply), password@),
    {
        match reply {
            Ok(GuessProtocol::ClientPassword(given)) => same_text(given.as_str(), password),
            _ => false,
        }
    }

    /// Lets in a client whose `reply` to the greeting was the right password:
    /// gives it an id, stores it under that id and tells it. Any other reply
    /// is refused.
    pub fn new(
        reply: Result<GuessProtocol, ReadError>,
        password: &str,
        store: &mut ServerState,
        tx: Sender,
        out: &mut Vec<ServerAction>,
    ) -> (worker: Result<ServerWorker, ()>)
        requires
            old(store).wf(),
            is_admitted(crate::protocol::reply_view(reply), password@) ==> old(store)@.id_generator < usize::MAX,
        ensures
            final(store).wf(),
            worker is Ok <==> is_admitted(crate::protocol::reply_view(reply), password@),
            match worker {
                Ok(worker) => {
                    let id = crate::text::decimal(old(store)@.id_generator);
                    &&& worker@ == new_worker(id, tx)
                    &&& final(store)@ == old(store)@.register(tx)
                    &&& acted(final(out)@) == acted(old(out)@).push(
                        ServerActionView::Write(GuessProtocolView::ConnectionEstablished(id)),
                    )
                },
                Err(_) => {
                    &&& *final(store) == *old(store)
                    &&& *final(out) == *old(out)
                },
            },
            match admission(
                crate::protocol::reply_view(reply),
                password@,
                old(store)@,
                tx,
            ) {
                Some(let_in) => {
                    &&& worker matches Ok(worker)
                    &&& worker@ == let_in.worker
                    &&& final(store)@ == let_in.store
                    &&& acted(final(out)@) == acted(old(out)@).push(let_in.told)
                },
                None => worker is Err,
            },
    {
        if !ServerWorker::admits(&reply, password) {
            return Err(());
        }
        let id = store.register(tx);
        act(out, ServerAction::Write(GuessProtocol::ConnectionEstablished(id.clone())));
        Ok(
            ServerWorker {
                id,
                client_state: ClientState::Free,
                tx,
                tx_to_opponent: None,
                opponent_word: None,
            },
        )
    }

    /// The id of the client.
    pub fn id(&self) -> (id: &str)
        ensures
            id@ == self@.id,
    {
        self.id.as_str()
    }

    /// The game state of the client.
    pub fn client_state(&self) -> (state: &ClientState)
        ensures
            state@ == self@.client_state,
    {
        &self.client_state
    }

    /// The word that the client is to guess.
    pub fn opponent_word(&self) -> (word: Option<&str>)
        ensures
            match word {
                Some(word) => self@.opponent_word == Some(word@),
                None => self@.opponent_word is None,
            },
    {
        match &self.opponent_word {
            Some(word) => Some(word.as_str()),
            None => None,
        }
    }

    /// Handles one message from the joint channel of the client: appends what
    /// is to be done to `out`. An error means that the connection is lost.
    pub fn handle_message(
        &mut self,
        msg: InternalMessage<GuessProtocol>,
        store: &mut ServerState,
        out: &mut Vec<ServerAction>,
    ) -> (result: Result<(), ()>)
        requires
            old(store).wf(),
        ensures
            final(store).wf(),
            acted(old(out)@).is_prefix_of(acted(final(out)@)),
            reacts(
                old(self)@,
                old(store)@,
                msg@,
                (Reaction {
                    worker: final(self)@,
                    store: final(store)@,
                    actions: acted(final(out)@).skip(old(out)@.len() as int),
                    result,
                }),
            ),
    {
        let ghost before = acted(out@);
        match msg {
            // Client was likely disconnected, therefore terminate
            InternalMessage::Error => {
                if let Some(tx) = self.tx_to_opponent {
                    act(out, ServerAction::Send(tx, InternalMessage::OpponentDisconnected));
                }
                assert(acted(out@).skip(before.len() as int) =~= reaction(
                    old(self)@,
                    old(store)@,
                    msg@,
                ).actions);
                return Err(());
            },
            InternalMessage::OpponentDisconnected => {
                act(out, ServerAction::Write(GuessProtocol::ServerOpponentDisconnected));
                self.reset_state(store);
            },
            // Client got connected as a guesser
            InternalMessage::OpponentAssigned(tx, id, word) => {
                if self.client_state.is_free() {
                    self.client_state = ClientState::Guesser;
                    self.tx_to_opponent = Some(tx);
                    self.opponent_word = Some(word);
                    act(
                        out,
                        ServerAction::Write(
                            GuessProtocol::OpponentConnectionEstablished(id, ClientState::Guesser),
                        ),
                    );
                }
            },
            InternalMessage::WordFound => {
                act(out, ServerAction::Write(GuessProtocol::ServerWordFound));
                self.reset_state(store);
            },
            // Resend messages from opponent to client
            InternalMessage::Opponent(message) => {
                act(out, ServerAction::Write(message));
            },
            // Invalid message was read, inform client
            InternalMessage::Network(Err(_)) => {
                act(out, ServerAction::Write(GuessProtocol::UnrecognizedMessageError));
            },
            // Process valid messages from client
            InternalMessage::Network(Ok(message)) => {
                self.handle_request(message, store, out);
            },
            InternalMessage::StdIn(_) => {},
        }
        proof {
            if !(msg@ is Network && msg@->Network_0 is Ok) {
                let then = reaction(old(self)@, old(store)@, msg@);
                assert(acted(out@).skip(before.len() as int) =~= then.actions);
            }
        }
        Ok(())
    }

    /// Handles one valid message of the client.
    fn handle_request(
        &mut self,
        message: GuessProtocol,
        store: &mut ServerState,
        out: &mut Vec<ServerAction>,
    )
        requires
            old(store).wf(),
        ensures
            final(store).wf(),
            acted(old(out)@).is_prefix_of(acted(final(out)@)),
            reacts(
                old(self)@,
                old(store)@,
                InternalMessageView::Network(Ok(message@)),
                (Reaction {
                    worker: final(self)@,
                    store: final(store)@,
                    actions: acted(final(out)@).skip(old(out)@.len() as int),
                    result: Ok(()),
                }),
            ),
    {
        let ghost before = acted(out@);
        match (&self.client_state, message) {
            (_, GuessProtocol::ClientListOpponents) => {
                let ids = store.opponents(self.id.as_str());
                act(out, ServerAction::Write(GuessProtocol::ServerOpponentList(ids)));
                proof {
                    let listed = crate::protocol::texts(ids@);
                    assert(store@.is_opponent_list(self@.id, listed));
                    assert(acted(out@).skip(before.len() as int) =~= answer(
                        self@,
                        store@,
                        GuessProtocolView::ServerOpponentList(listed),
                    ).actions);
                }
            },
            (ClientState::Free, GuessProtocol::ClientSelectOpponent(opponent, word)) => {
                self.select_opponent(opponent, word, store, out);
            },
            (ClientState::Guesser, GuessProtocol::ClientGuess(word)) => {
                self.guess(word, store, out);
            },
            (ClientState::Riddlemaker(_), GuessProtocol::ClientHint(hint)) => {
                if let Some(tx) = self.tx_to_opponent {
                    act(
                        out,
                        ServerAction::Send(
                            tx,
                            InternalMessage::Opponent(GuessProtocol::ClientHint(hint)),
                        ),
                    );
                }
            },
            // Logic error: message was valid, but not currently expected
            _ => {
                act(out, ServerAction::Write(GuessProtocol::LogicError));
            },
        }
        proof {
            if !(message@ is ClientListOpponents) {
                let then = on_request(old(self)@, old(store)@, message@);
                assert(acted(out@).skip(before.len() as int) =~= then.actions);
            }
        }
    }

    /// Starts a match in which `opponent` is to guess `word`, if that can be.
    fn select_opponent(
        &mut self,
        opponent: String,
        word: String,
        store: &mut ServerState,
        out: &mut Vec<ServerAction>,
    )
        requires
            old(store).wf(),
        ensures
            final(store).wf(),
            ({
                let then = on_select(old(self)@, old(store)@, opponent@, word@);
                &&& final(self)@ == then.worker
                &&& final(store)@ == then.store
                &&& acted(final(out)@) == acted(old(out)@) + then.actions
            }),
    {
        let ghost before = acted(out@);
        match store.free_opponent(self.id.as_str(), opponent.as_str()) {
            Some(tx) => {
                store.set_state(opponent.as_str(), ClientState::Guesser);
                act(
                    out,
                    ServerAction::Send(
                        tx,
                        InternalMessage::OpponentAssigned(self.tx, self.id.clone(), word.clone()),
                    ),
                );
                self.tx_to_opponent = Some(tx);
                self.client_state = ClientState::Riddlemaker(word);
                store.set_state(self.id.as_str(), self.client_state.clone());
                act(
                    out,
                    ServerAction::Write(
                        GuessProtocol::OpponentConnectionEstablished(
                            opponent,
                            self.client_state.clone(),
                        ),
                    ),
                );
            },
            None => {
                act(
                    out,
                    ServerAction::Write(GuessProtocol::OpponentConnectionNotEstablished(opponent)),
                );
            },
        }
        assert(acted(out@) =~= before + on_select(
            old(self)@,
            old(store)@,
            opponent@,
            word@,
        ).actions);
    }

    /// Ends the match if `word` is the one to guess; otherwise shows the guess
    /// to the opponent.
    fn guess(&mut self, word: String, store: &mut ServerState, out: &mut Vec<ServerAction>)
        requires
            old(store).wf(),
        ensures
            final(store).wf(),
            ({
                let then = on_guess(old(self)@, old(store)@, word@);
                &&& final(self)@ == then.worker
                &&& final(store)@ == then.store
                &&& acted(final(out)@) == acted(old(out)@) + then.actions
            }),
    {
        let ghost before = acted(out@);
        if let Some(tx) = self.tx_to_opponent {
            let found = match &self.opponent_word {
                Some(to_guess) => *to_guess == word,
                None => false,
            };
            if found {
                act(out, ServerAction::Send(tx, InternalMessage::WordFound));
                act(out, ServerAction::Write(GuessProtocol::ServerWordFound));
                self.reset_state(store);
            } else {
                act(
                    out,
                    ServerAction::Send(
                        tx,
                        InternalMessage::Opponent(GuessProtocol::ClientGuess(word)),
                    ),
                );
            }
        }
        assert(acted(out@) =~= before + on_guess(old(self)@, old(store)@, word@).actions);
    }

    /// State reset, such as when a game was won or forfeited
    pub fn reset_state(&mut self, store: &mut ServerState)
        requires
            old(store).wf(),
        ensures
            final(store).wf(),
            final(self)@ == old(self)@.reset(),
            final(store)@ == old(store)@.set_state(old(self)@.id, ClientStateView::Free),
    {
        self.client_state = ClientState::Free;
        self.tx_to_opponent = None;
        self.opponent_word = None;
        store.set_state(self.id.as_str(), ClientState::Free);
    }

    /// Connection lost: clean up
    pub fn drop(self, store: &mut ServerState)
        requires
            old(store).wf(),
        ensures
            final(store).wf(),
            final(store)@ == old(store)@.remove(self@.id),
    {
        store.remove(self.id.as_str());
    }
}

/// An action says all that it holds, and nothing else; a list of actions says
/// each of them, in its place.
pub proof fn law_actions_say_all(
    message: GuessProtocol,
    tx: Sender,
    sent: InternalMessage<GuessProtocol>,
    actions: Seq<ServerAction>,
)
    ensures
        ServerAction::Write(message)@ == ServerActionView::Write(message@),
        ServerAction::Send(tx, sent)@ == ServerActionView::Send(tx, sent@),
        acted(actions).len() == actions.len(),
        forall|i: int| 0 <= i < actions.len() ==> #[trigger] acted(actions)[i] == actions[i]@,
{
}

/// A worker says all that it holds, and nothing else.
proof fn law_worker_says_all(worker: ServerWorker)
    ensures
        worker@.id == worker.id@,
        worker@.client_state == worker.client_state@,
        worker@.tx == worker.tx,
        worker@.tx_to_opponent == worker.tx_to_opponent,
        worker@.opponent_word is Some <==> worker.opponent_word is Some,
        worker.opponent_word is Some ==> worker@.opponent_word->Some_0
            == worker.opponent_word->Some_0@,
{
}

/// Who is let in: one who answers with the password, letter for letter.
pub proof fn law_only_the_password_admits(
    reply: Result<GuessProtocolView, ReadError>,
    password: Seq<char>,
    given: Seq<char>,
)
    ensures
        is_admitted(Ok(GuessProtocolView::ClientPassword(given)), password) <==> given == password,
        is_admitted(reply, password) ==> reply is Ok && reply->Ok_0 is ClientPassword
            && reply->Ok_0->ClientPassword_0 == password,
{
}

/// A client that is let in is in no game, and has its own id and channel.
pub proof fn law_new_worker(id: Seq<char>, tx: Sender)
    ensures
        new_worker(id, tx) == (ServerWorkerView {
            id,
            client_state: ClientStateView::Free,
            tx,
            tx_to_opponent: None,
            opponent_word: None,
        }),
{
}

} // verus!
