//! How the server opens a connection: what it writes and reads, and in which
//! order.

use vstd::prelude::*;
use crate::protocol::GuessProtocol;
use crate::protocol::GuessProtocolView;
use crate::protocol::ReadError;
use crate::server::ServerState;
use crate::server::ServerStateView;
use crate::server_worker::ServerAction;
use crate::server_worker::ServerWorker;
use crate::server_worker::ServerWorkerView;
use crate::util::Sender;

verus! {

/// What the server wants done while it opens a connection. Each step but the
/// last two is answered by one event.
pub enum ServerOpeningStep {
    /// Write a message to the client.
    Write(GuessProtocol),
    /// Read a message of the client.
    Read,
    /// The client is let in.
    Done(ServerWorker),
    /// The client is refused.
    Refuse,
}

/// What a [`ServerOpeningStep`] says.
pub enum ServerOpeningStepView {
    Write(GuessProtocolView),
    Read,
    Done(ServerWorkerView),
    Refuse,
}

impl View for ServerOpeningStep {
    type V = ServerOpeningStepView;

    open spec fn view(&self) -> ServerOpeningStepView {
        match self {
            ServerOpeningStep::Write(message) => ServerOpeningStepView::Write(message@),
            ServerOpeningStep::Read => ServerOpeningStepView::Read,
            ServerOpeningStep::Done(worker) => ServerOpeningStepView::Done(worker@),
            ServerOpeningStep::Refuse => ServerOpeningStepView::Refuse,
        }
    }
}

/// What came of a step.
#[derive(Debug, PartialEq)]
pub enum ServerOpeningEvent {
    /// The message was written.
    Written,
    /// This was read.
    Reply(Result<GuessProtocol, ReadError>),
}

/// What a [`ServerOpeningEvent`] says.
pub enum ServerOpeningEventView {
    Written,
    Reply(Result<GuessProtocolView, ReadError>),
}

impl View for ServerOpeningEvent {
    type V = ServerOpeningEventView;

    open spec fn view(&self) -> ServerOpeningEventView {
        match self {
            ServerOpeningEvent::Written => ServerOpeningEventView::Written,
            ServerOpeningEvent::Reply(reply) => ServerOpeningEventView::Reply(
                crate::protocol::reply_view(*reply),
            ),
        }
    }
}

/// What the server waits for while it opens a connection.
pub enum ServerHandshake {
    AwaitGreeted,
    AwaitPassword,
    /// The worker of the client begins as soon as the client is told its id.
    AwaitTold(ServerWorker),
    /// The client is let in, or refused.
    Over,
}

/// What a [`ServerHandshake`] says.
pub enum ServerHandshakeView {
    AwaitGreeted,
    AwaitPassword,
    AwaitTold(ServerWorkerView),
    Over,
}

impl View for ServerHandshake {
    type V = ServerHandshakeView;

    open spec fn view(&self) -> ServerHandshakeView {
        match self {
            ServerHandshake::AwaitGreeted => ServerHandshakeView::AwaitGreeted,
            ServerHandshake::AwaitPassword => ServerHandshakeView::AwaitPassword,
            ServerHandshake::AwaitTold(worker) => ServerHandshakeView::AwaitTold(worker@),
            ServerHandshake::Over => ServerHandshakeView::Over,
        }
    }
}

/// Whether an event is the right password at the time when it is due.
pub open spec fn lets_in(
    state: ServerHandshakeView,
    event: ServerOpeningEventView,
    password: Seq<char>,
) -> bool {
    &&& state is AwaitPassword
    &&& event matches ServerOpeningEventView::Reply(reply)
    &&& crate::server_worker::is_admitted(reply, password)
}

/// What follows an event: what is waited for from then on, and the next step.
/// `id` and `tx` are those of the client if it is let in. Nothing follows an
/// event that is not waited for.
pub open spec fn after_event(
    state: ServerHandshakeView,
    event: ServerOpeningEventView,
    password: Seq<char>,
    id: Seq<char>,
    tx: Sender,
) -> Option<(ServerHandshakeView, ServerOpeningStepView)> {
    match (state, event) {
        (ServerHandshakeView::AwaitGreeted, ServerOpeningEventView::Written) => Some(
            (ServerHandshakeView::AwaitPassword, ServerOpeningStepView::Read),
        ),
        (ServerHandshakeView::AwaitPassword, ServerOpeningEventView::Reply(reply)) => Some(
            if crate::server_worker::is_admitted(reply, password) {
                (
                    ServerHandshakeView::AwaitTold(crate::server_worker::new_worker(id, tx)),
                    ServerOpeningStepView::Write(GuessProtocolView::ConnectionEstablished(id)),
                )
            } else {
                (ServerHandshakeView::Over, ServerOpeningStepView::Refuse)
            },
        ),
        (ServerHandshakeView::AwaitTold(worker), ServerOpeningEventView::Written) => Some(
            (ServerHandshakeView::Over, ServerOpeningStepView::Done(worker)),
        ),
        _ => None,
    }
}

/// What the storage is after an event: only the right password adds a client.
pub open spec fn store_after_event(
    state: ServerHandshakeView,
    event: ServerOpeningEventView,
    password: Seq<char>,
    store: ServerStateView,
    tx: Sender,
) -> ServerStateView {
    if lets_in(state, event, password) {
        store.register(tx)
    } else {
        store
    }
}

impl ServerHandshake {
    /// Begins to open a connection: the server speaks first.
    pub fn start() -> (begun: (ServerHandshake, ServerOpeningStep))
        ensures
            begun.0@ == ServerHandshakeView::AwaitGreeted,
            begun.1@ == ServerOpeningStepView::Write(GuessProtocolView::ServerHello),
    {
        (ServerHandshake::AwaitGreeted, ServerOpeningStep::Write(ServerWorker::greeting()))
    }

    /// Whether the storage has an id left for the client, if the event lets it
    /// in.
    pub fn has_id(
        &self,
        event: &ServerOpeningEvent,
        password: &str,
        store: &ServerState,
    ) -> (enough: bool)
        ensures
            enough == (lets_in(self@, event@, password@) ==> store@.id_generator < usize::MAX),
    {
        match (self, event) {
            (ServerHandshake::AwaitPassword, ServerOpeningEvent::Reply(reply)) => {
                store.id_generator() < usize::MAX || !ServerWorker::admits(reply, password)
            },
            _ => true,
        }
    }

    /// Goes on after an event. Nothing is to be done, and nothing changes, if
    /// the event is not waited for.
    pub fn next(
        &mut self,
        event: ServerOpeningEvent,
        password: &str,
        store: &mut ServerState,
        tx: Sender,
    ) -> (step: Option<ServerOpeningStep>)
        requires
            old(store).wf(),
            lets_in(old(self)@, event@, password@) ==> old(store)@.id_generator < usize::MAX,
        ensures
            final(store).wf(),
            final(store)@ == store_after_event(old(self)@, event@, password@, old(store)@, tx),
            match after_event(
                old(self)@,
                event@,
                password@,
                crate::text::decimal(old(store)@.id_generator),
                tx,
            ) {
                Some((state, view)) => {
                    &&& final(self)@ == state
                    &&& step matches Some(step)
                    &&& step@ == view
                },
                None => final(self)@ == old(self)@ && step is None,
            },
    {
        let mut state = ServerHandshake::Over;
        std::mem::swap(&mut state, self);
        match (state, event) {
            (ServerHandshake::AwaitGreeted, ServerOpeningEvent::Written) => {
                *self = ServerHandshake::AwaitPassword;
                Some(ServerOpeningStep::Read)
            },
            (ServerHandshake::AwaitPassword, ServerOpeningEvent::Reply(reply)) => {
                let mut told: Vec<ServerAction> = Vec::new();
                match ServerWorker::new(reply, password, store, tx, &mut told) {
                    Ok(worker) => {
                        let id = worker.id().to_string();
                        *self = ServerHandshake::AwaitTold(worker);
                        Some(ServerOpeningStep::Write(GuessProtocol::ConnectionEstablished(id)))
                    },
                    Err(_) => Some(ServerOpeningStep::Refuse),
                }
            },
            (ServerHandshake::AwaitTold(worker), ServerOpeningEvent::Written) => {
                Some(ServerOpeningStep::Done(worker))
            },
            (state, _) => {
                *self = state;
                None
            },
        }
    }
}

/// The opening of a connection, or the beginning of one: the steps in their
/// order, what is waited for after each, and the events that came of all but
/// the last. `ids` are those that the storage would give at each event.
pub struct ServerOpening {
    pub password: Seq<char>,
    pub tx: Sender,
    pub steps: Seq<ServerOpeningStepView>,
    pub states: Seq<ServerHandshakeView>,
    pub events: Seq<ServerOpeningEventView>,
    pub ids: Seq<Seq<char>>,
}

impl ServerOpening {
    /// Whether a handshake can go like this.
    pub open spec fn is_valid(self) -> bool {
        &&& self.steps.len() > 0
        &&& self.states.len() == self.steps.len()
        &&& self.events.len() == self.steps.len() - 1
        &&& self.ids.len() == self.events.len()
        &&& self.steps[0] == ServerOpeningStepView::Write(GuessProtocolView::ServerHello)
        &&& self.states[0] is AwaitGreeted
        &&& forall|i: int|
            0 <= i < self.events.len() ==> after_event(
                self.states[i],
                #[trigger] self.events[i],
                self.password,
                self.ids[i],
                self.tx,
            ) == Some((self.states[i + 1], self.steps[i + 1]))
    }

    /// Each event leads to the next step.
    proof fn lemma_goes_on(self, i: int)
        requires
            self.is_valid(),
            0 <= i < self.events.len(),
        ensures
            after_event(
                self.states[i],
                self.events[i],
                self.password,
                self.ids[i],
                self.tx,
            ) == Some((self.states[i + 1], self.steps[i + 1])),
    {
    }

    /// The order of the steps: the greeting is written before anything is
    /// read, then the reply is read, and then the client is either refused or
    /// told its id, and with the latter it is let in under that id. It is
    /// refused if and only if the reply is not the password.
    pub proof fn law_order_of_steps(self)
        requires
            self.is_valid(),
        ensures
            self.steps.len() <= 4,
            self.steps[0] == ServerOpeningStepView::Write(GuessProtocolView::ServerHello),
            self.steps.len() > 1 ==> self.steps[1] is Read,
            self.steps.len() > 2 ==> {
                &&& self.events[1] matches ServerOpeningEventView::Reply(reply)
                &&& self.steps[2] == (if crate::server_worker::is_admitted(reply, self.password) {
                    ServerOpeningStepView::Write(
                        GuessProtocolView::ConnectionEstablished(self.ids[1]),
                    )
                } else {
                    ServerOpeningStepView::Refuse
                })
            },
            self.steps.len() > 3 ==> self.steps[3] == ServerOpeningStepView::Done(
                crate::server_worker::new_worker(self.ids[1], self.tx),
            ),
    {
        if self.events.len() > 0 {
            self.lemma_goes_on(0);
        }
        if self.events.len() > 1 {
            self.lemma_goes_on(1);
        }
        if self.events.len() > 2 {
            self.lemma_goes_on(2);
        }
        if self.events.len() > 3 {
            self.lemma_goes_on(3);
        }
    }

    /// A client whose reply is not the password is sent nothing but the
    /// greeting, and nothing more is read from it.
    pub proof fn law_wrong_password_ends_all(self)
        requires
            self.is_valid(),
            self.events.len() > 1,
            !(self.events[1] matches ServerOpeningEventView::Reply(reply)
                && crate::server_worker::is_admitted(reply, self.password)),
        ensures
            self.steps == seq![
                ServerOpeningStepView::Write(GuessProtocolView::ServerHello),
                ServerOpeningStepView::Read,
                ServerOpeningStepView::Refuse,
            ],
    {
        self.law_order_of_steps();
        self.lemma_goes_on(0);
        self.lemma_goes_on(1);
        if self.events.len() > 2 {
            self.lemma_goes_on(2);
        }
        assert(self.steps =~= seq![
            ServerOpeningStepView::Write(GuessProtocolView::ServerHello),
            ServerOpeningStepView::Read,
            ServerOpeningStepView::Refuse,
        ]);
    }
}

/// Once the greeting is written, the reply is read.
pub proof fn law_after_greeting(password: Seq<char>, id: Seq<char>, tx: Sender)
    ensures
        after_event(
            ServerHandshakeView::AwaitGreeted,
            ServerOpeningEventView::Written,
            password,
            id,
            tx,
        ) == Some((ServerHandshakeView::AwaitPassword, ServerOpeningStepView::Read)),
{
}

/// The password, letter for letter, lets a client in: it is told its id, and
/// once that is written its worker begins, under that id, with its channel and
/// in no game.
pub proof fn law_after_right_password(password: Seq<char>, id: Seq<char>, tx: Sender)
    ensures
        ({
            let worker = ServerWorkerView {
                id,
                client_state: crate::protocol::ClientStateView::Free,
                tx,
                tx_to_opponent: None,
                opponent_word: None,
            };
            after_event(
                ServerHandshakeView::AwaitPassword,
                ServerOpeningEventView::Reply(Ok(GuessProtocolView::ClientPassword(password))),
                password,
                id,
                tx,
            ) == Some(
                (
                    ServerHandshakeView::AwaitTold(worker),
                    ServerOpeningStepView::Write(GuessProtocolView::ConnectionEstablished(id)),
                ),
            )
        }),
{
}

/// Once a client is told its id, its worker begins as it is.
pub proof fn law_after_telling(
    worker: ServerWorkerView,
    password: Seq<char>,
    id: Seq<char>,
    tx: Sender,
)
    ensures
        after_event(
            ServerHandshakeView::AwaitTold(worker),
            ServerOpeningEventView::Written,
            password,
            id,
            tx,
        ) == Some((ServerHandshakeView::Over, ServerOpeningStepView::Done(worker))),
{
}

/// Anything but the password ends the handshake, and the client is refused.
pub proof fn law_after_wrong_password(
    reply: Result<GuessProtocolView, ReadError>,
    password: Seq<char>,
    id: Seq<char>,
    tx: Sender,
)
    requires
        !(reply is Ok && reply->Ok_0 is ClientPassword && reply->Ok_0->ClientPassword_0
            == password),
    ensures
        after_event(
            ServerHandshakeView::AwaitPassword,
            ServerOpeningEventView::Reply(reply),
            password,
            id,
            tx,
        ) == Some((ServerHandshakeView::Over, ServerOpeningStepView::Refuse)),
{
}

/// Nothing follows an event that is not waited for, and nothing at all once the
/// handshake is over.
pub proof fn law_nothing_follows(
    state: ServerHandshakeView,
    event: ServerOpeningEventView,
    password: Seq<char>,
    id: Seq<char>,
    tx: Sender,
)
    requires
        match state {
            ServerHandshakeView::AwaitGreeted => !(event is Written),
            ServerHandshakeView::AwaitPassword => !(event is Reply),
            ServerHandshakeView::AwaitTold(_) => !(event is Written),
            ServerHandshakeView::Over => true,
        },
    ensures
        after_event(state, event, password, id, tx) is None,
{
}

/// The storage gets a client from the handshake when the password is due and
/// comes, and at no other event: then that client, free and with its channel,
/// under the number that is next, while all others stay.
pub proof fn law_storage_during_handshake(
    state: ServerHandshakeView,
    event: ServerOpeningEventView,
    password: Seq<char>,
    store: ServerStateView,
    tx: Sender,
    other: Seq<char>,
)
    ensures
        ({
            let after = store_after_event(state, event, password, store, tx);
            let id = crate::text::decimal(store.id_generator);
            let comes = {
                &&& state is AwaitPassword
                &&& event is Reply
                &&& event->Reply_0 is Ok
                &&& event->Reply_0->Ok_0 is ClientPassword
                &&& event->Reply_0->Ok_0->ClientPassword_0 == password
            };
            &&& lets_in(state, event, password) <==> comes
            &&& !comes ==> after == store
            &&& comes ==> {
                &&& after.id_generator == store.id_generator + 1
                &&& after.clients.dom().contains(id)
                &&& after.clients[id].state == crate::protocol::ClientStateView::Free
                &&& after.clients[id].tx == tx
                &&& other != id ==> {
                    &&& after.clients.dom().contains(other) <==> store.clients.dom().contains(
                        other,
                    )
                    &&& store.clients.dom().contains(other) ==> after.clients[other]
                        == store.clients[other]
                }
            }
        }),
{
}

/// States, steps and events say all that they hold, and nothing else.
pub proof fn law_states_steps_and_events_say_all(
    message: GuessProtocol,
    worker: ServerWorker,
    error: ReadError,
)
    ensures
        ServerOpeningStep::Write(message)@ == ServerOpeningStepView::Write(message@),
        ServerOpeningStep::Read@ == ServerOpeningStepView::Read,
        ServerOpeningStep::Done(worker)@ == ServerOpeningStepView::Done(worker@),
        ServerOpeningStep::Refuse@ == ServerOpeningStepView::Refuse,
        ServerOpeningEvent::Written@ == ServerOpeningEventView::Written,
        ServerOpeningEvent::Reply(Ok(message))@ == ServerOpeningEventView::Reply(Ok(message@)),
        ServerOpeningEvent::Reply(Err(error))@ == ServerOpeningEventView::Reply(Err(error)),
        ServerHandshake::AwaitGreeted@ == ServerHandshakeView::AwaitGreeted,
        ServerHandshake::AwaitPassword@ == ServerHandshakeView::AwaitPassword,
        ServerHandshake::AwaitTold(worker)@ == ServerHandshakeView::AwaitTold(worker@),
        ServerHandshake::Over@ == ServerHandshakeView::Over,
{
}

} // verus!
