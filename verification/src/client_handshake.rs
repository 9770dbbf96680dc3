//! How a client opens its connection: what it reads, asks and writes, and in
//! which order.

use vstd::prelude::*;
use crate::client_worker::ClientWorker;
use crate::client_worker::ClientWorkerView;
use crate::protocol::GuessProtocol;
use crate::protocol::GuessProtocolView;
use crate::protocol::ReadError;

verus! {

/// What a client wants done while it opens its connection. Each step but the
/// last two is answered by one event.
pub enum ClientOpeningStep {
    /// Read a message of the server.
    Read,
    /// Show this prompt to the user, and take a line.
    Ask(&'static str),
    /// Write a message to the server.
    Write(GuessProtocol),
    /// The connection is open.
    Done(ClientWorker),
    /// The connection is given up, for this reason.
    Fail(&'static str),
}

/// What a [`ClientOpeningStep`] says.
pub enum ClientOpeningStepView {
    Read,
    Ask(Seq<char>),
    Write(GuessProtocolView),
    Done(ClientWorkerView),
    Fail(Seq<char>),
}

impl View for ClientOpeningStep {
    type V = ClientOpeningStepView;

    open spec fn view(&self) -> ClientOpeningStepView {
        match self {
            ClientOpeningStep::Read => ClientOpeningStepView::Read,
            ClientOpeningStep::Ask(prompt) => ClientOpeningStepView::Ask(prompt@),
            ClientOpeningStep::Write(message) => ClientOpeningStepView::Write(message@),
            ClientOpeningStep::Done(client) => ClientOpeningStepView::Done(client@),
            ClientOpeningStep::Fail(reason) => ClientOpeningStepView::Fail(reason@),
        }
    }
}

/// What came of a step.
#[derive(Debug, PartialEq)]
pub enum ClientOpeningEvent {
    /// This was read.
    Reply(Result<GuessProtocol, ReadError>),
    /// This was typed.
    Typed(String),
    /// The message was written.
    Written,
}

/// What a [`ClientOpeningEvent`] says.
pub enum ClientOpeningEventView {
    Reply(Result<GuessProtocolView, ReadError>),
    Typed(Seq<char>),
    Written,
}

impl View for ClientOpeningEvent {
    type V = ClientOpeningEventView;

    open spec fn view(&self) -> ClientOpeningEventView {
        match self {
            ClientOpeningEvent::Reply(reply) => ClientOpeningEventView::Reply(
                crate::protocol::reply_view(*reply),
            ),
            ClientOpeningEvent::Typed(line) => ClientOpeningEventView::Typed(line@),
            ClientOpeningEvent::Written => ClientOpeningEventView::Written,
        }
    }
}

/// What a client waits for while it opens its connection.
#[derive(Clone, Copy, Debug, PartialEq, Eq, Structural)]
pub enum ClientHandshake {
    AwaitGreeting,
    AwaitPassword,
    AwaitWrite,
    AwaitId,
    /// The connection is open, or given up.
    Over,
}

/// What the handshake gives up with.
pub open spec fn incorrect() -> ClientOpeningStepView {
    ClientOpeningStepView::Fail("Incorrect server response"@)
}

/// What follows an event: what is waited for from then on, and the next step.
/// Nothing follows an event that is not waited for.
pub open spec fn after_event(state: ClientHandshake, event: ClientOpeningEventView) -> Option<
    (ClientHandshake, ClientOpeningStepView),
> {
    match (state, event) {
        (ClientHandshake::AwaitGreeting, ClientOpeningEventView::Reply(reply)) => Some(
            if crate::client_worker::is_greeted(reply) {
                (
                    ClientHandshake::AwaitPassword,
                    ClientOpeningStepView::Ask("Enter server password: "@),
                )
            } else {
                (ClientHandshake::Over, incorrect())
            },
        ),
        (ClientHandshake::AwaitPassword, ClientOpeningEventView::Typed(password)) => Some(
            (
                ClientHandshake::AwaitWrite,
                ClientOpeningStepView::Write(GuessProtocolView::ClientPassword(password)),
            ),
        ),
        (ClientHandshake::AwaitWrite, ClientOpeningEventView::Written) => Some(
            (ClientHandshake::AwaitId, ClientOpeningStepView::Read),
        ),
        (ClientHandshake::AwaitId, ClientOpeningEventView::Reply(reply)) => Some(
            (
                ClientHandshake::Over,
                match crate::client_worker::assigned_id(reply) {
                    Some(id) => ClientOpeningStepView::Done(crate::client_worker::new_client(id)),
                    None => incorrect(),
                },
            ),
        ),
        _ => None,
    }
}

impl ClientHandshake {
    /// Begins to open a connection: the server speaks first.
    pub fn start() -> (begun: (ClientHandshake, ClientOpeningStep))
        ensures
            begun.0 == ClientHandshake::AwaitGreeting,
            begun.1@ == ClientOpeningStepView::Read,
    {
        (ClientHandshake::AwaitGreeting, ClientOpeningStep::Read)
    }

    /// Goes on after an event. Nothing is to be done, and nothing changes, if
    /// the event is not waited for.
    pub fn next(&mut self, event: ClientOpeningEvent) -> (step: Option<ClientOpeningStep>)
        ensures
            match after_event(*old(self), event@) {
                Some((state, view)) => {
                    &&& *final(self) == state
                    &&& step matches Some(step)
                    &&& step@ == view
                },
                None => *final(self) == *old(self) && step is None,
            },
    {
        match (*self, event) {
            (ClientHandshake::AwaitGreeting, ClientOpeningEvent::Reply(reply)) => {
                match ClientWorker::check_greeting(reply) {
                    Ok(_) => {
                        *self = ClientHandshake::AwaitPassword;
                        Some(ClientOpeningStep::Ask("Enter server password: "))
                    },
                    Err(reason) => {
                        *self = ClientHandshake::Over;
                        Some(ClientOpeningStep::Fail(reason))
                    },
                }
            },
            (ClientHandshake::AwaitPassword, ClientOpeningEvent::Typed(password)) => {
                *self = ClientHandshake::AwaitWrite;
                Some(ClientOpeningStep::Write(ClientWorker::password_message(password)))
            },
            (ClientHandshake::AwaitWrite, ClientOpeningEvent::Written) => {
                *self = ClientHandshake::AwaitId;
                Some(ClientOpeningStep::Read)
            },
            (ClientHandshake::AwaitId, ClientOpeningEvent::Reply(reply)) => {
                *self = ClientHandshake::Over;
                match ClientWorker::new(reply) {
                    Ok(client) => Some(ClientOpeningStep::Done(client)),
                    Err(reason) => Some(ClientOpeningStep::Fail(reason)),
                }
            },
            _ => None,
        }
    }
}

/// The opening of a connection, or the beginning of one: the steps in their
/// order, what is waited for after each, and the events that came of all but
/// the last.
pub struct ClientOpening {
    pub steps: Seq<ClientOpeningStepView>,
    pub states: Seq<ClientHandshake>,
    pub events: Seq<ClientOpeningEventView>,
}

impl ClientOpening {
    /// Whether a handshake can go like this.
    pub open spec fn is_valid(self) -> bool {
        &&& self.steps.len() > 0
        &&& self.states.len() == self.steps.len()
        &&& self.events.len() == self.steps.len() - 1
        &&& self.steps[0] is Read
        &&& self.states[0] is AwaitGreeting
        &&& forall|i: int|
            0 <= i < self.events.len() ==> after_event(
                self.states[i],
                #[trigger] self.events[i],
            ) == Some((self.states[i + 1], self.steps[i + 1]))
    }

    /// Each event leads to the next step.
    proof fn lemma_goes_on(self, i: int)
        requires
            self.is_valid(),
            0 <= i < self.events.len(),
        ensures
            after_event(
                self.states[i],
                self.events[i],
            ) == Some((self.states[i + 1], self.steps[i + 1])),
    {
    }

    /// If the first message of the server is anything but the greeting, the
    /// client gives up at once: no password is asked for, nothing is written
    /// and nothing more is read.
    pub proof fn law_wrong_greeting_ends_all(self)
        requires
            self.is_valid(),
            self.events.len() > 0,
            !(self.events[0] matches ClientOpeningEventView::Reply(reply)
                && crate::client_worker::is_greeted(reply)),
        ensures
            self.steps == seq![ClientOpeningStepView::Read, incorrect()],
    {
        self.lemma_goes_on(0);
        assert(self.states[1] is Over);
        if self.events.len() > 1 {
            self.lemma_goes_on(1);
        }
        assert(self.steps =~= seq![ClientOpeningStepView::Read, incorrect()]);
    }

    /// The order of the steps: the greeting is read, then the user is asked
    /// for the password, then what was typed is written, then the id is read,
    /// and with that the handshake ends. It gets past the first step only if
    /// the server has greeted.
    pub proof fn law_order_of_steps(self)
        requires
            self.is_valid(),
        ensures
            self.steps.len() <= 5,
            self.steps.len() > 2 ==> {
                &&& self.events[0] matches ClientOpeningEventView::Reply(reply)
                &&& crate::client_worker::is_greeted(reply)
                &&& self.steps[1] == ClientOpeningStepView::Ask("Enter server password: "@)
                &&& self.events[1] matches ClientOpeningEventView::Typed(password)
                &&& self.steps[2] == ClientOpeningStepView::Write(
                    GuessProtocolView::ClientPassword(password),
                )
            },
            self.steps.len() > 3 ==> self.steps[3] is Read,
            self.steps.len() > 4 ==> {
                &&& self.events[3] matches ClientOpeningEventView::Reply(reply)
                &&& self.steps[4] == (match crate::client_worker::assigned_id(reply) {
                    Some(id) => ClientOpeningStepView::Done(crate::client_worker::new_client(id)),
                    None => incorrect(),
                })
            },
    {
        if self.events.len() > 0 {
            self.lemma_goes_on(0);
        }
        if self.events.len() > 1 {
            self.lemma_goes_on(1);
        }
        if self.events.len() > 2 {
            self.lemma_goes_on(2);
        }
        if self.events.len() > 3 {
            self.lemma_goes_on(3);
        }
        if self.events.len() > 4 {
            self.lemma_goes_on(4);
        }
    }

    /// A password leaves the client only after the greeting, and only the one
    /// that was typed.
    pub proof fn law_password_only_after_greeting(self, i: int, message: GuessProtocolView)
        requires
            self.is_valid(),
            0 <= i < self.steps.len(),
            self.steps[i] == ClientOpeningStepView::Write(message),
        ensures
            self.events[0] matches ClientOpeningEventView::Reply(reply)
                && crate::client_worker::is_greeted(reply),
            self.events[1] matches ClientOpeningEventView::Typed(password) && message
                == GuessProtocolView::ClientPassword(password),
    {
        self.law_order_of_steps();
        if self.events.len() > 0 {
            self.lemma_goes_on(0);
        }
    }
}

/// What a client does with the first reply: if it is the greeting, the user is
/// asked for the password; anything else ends the handshake.
pub proof fn law_after_greeting(reply: Result<GuessProtocolView, ReadError>)
    ensures
        after_event(
            ClientHandshake::AwaitGreeting,
            ClientOpeningEventView::Reply(Ok(GuessProtocolView::ServerHello)),
        ) == Some(
            (
                ClientHandshake::AwaitPassword,
                ClientOpeningStepView::Ask("Enter server password: "@),
            ),
        ),
        !(reply is Ok && reply->Ok_0 is ServerHello) ==> after_event(
            ClientHandshake::AwaitGreeting,
            ClientOpeningEventView::Reply(reply),
        ) == Some(
            (
                ClientHandshake::Over,
                ClientOpeningStepView::Fail("Incorrect server response"@),
            ),
        ),
{
}

/// What the user types is the password, letter for letter; once it is written,
/// the reply is read.
pub proof fn law_after_password(typed: Seq<char>)
    ensures
        after_event(ClientHandshake::AwaitPassword, ClientOpeningEventView::Typed(typed)) == Some(
            (
                ClientHandshake::AwaitWrite,
                ClientOpeningStepView::Write(GuessProtocolView::ClientPassword(typed)),
            ),
        ),
        after_event(ClientHandshake::AwaitWrite, ClientOpeningEventView::Written) == Some(
            (ClientHandshake::AwaitId, ClientOpeningStepView::Read),
        ),
{
}

/// What a client does with the second reply: if it is an id, the client is in
/// under that id and in no game; anything else ends the handshake.
pub proof fn law_after_id(id: Seq<char>, reply: Result<GuessProtocolView, ReadError>)
    ensures
        after_event(
            ClientHandshake::AwaitId,
            ClientOpeningEventView::Reply(Ok(GuessProtocolView::ConnectionEstablished(id))),
        ) == Some(
            (
                ClientHandshake::Over,
                ClientOpeningStepView::Done(
                    ClientWorkerView {
                        id,
                        client_state: crate::protocol::ClientStateView::Free,
                        opponent_id: None,
                    },
                ),
            ),
        ),
        !(reply is Ok && reply->Ok_0 is ConnectionEstablished) ==> after_event(
            ClientHandshake::AwaitId,
            ClientOpeningEventView::Reply(reply),
        ) == Some(
            (
                ClientHandshake::Over,
                ClientOpeningStepView::Fail("Incorrect server response"@),
            ),
        ),
{
}

/// Nothing follows an event that is not waited for, and nothing at all once the
/// handshake is over.
pub proof fn law_nothing_follows(state: ClientHandshake, event: ClientOpeningEventView)
    requires
        match state {
            ClientHandshake::AwaitGreeting => !(event is Reply),
            ClientHandshake::AwaitPassword => !(event is Typed),
            ClientHandshake::AwaitWrite => !(event is Written),
            ClientHandshake::AwaitId => !(event is Reply),
            ClientHandshake::Over => true,
        },
    ensures
        after_event(state, event) is None,
{
}

/// Steps and events say all that they hold, and nothing else.
pub proof fn law_steps_and_events_say_all(
    message: GuessProtocol,
    text: &'static str,
    client: ClientWorker,
    line: String,
    error: ReadError,
)
    ensures
        ClientOpeningStep::Read@ == ClientOpeningStepView::Read,
        ClientOpeningStep::Ask(text)@ == ClientOpeningStepView::Ask(text@),
        ClientOpeningStep::Write(message)@ == ClientOpeningStepView::Write(message@),
        ClientOpeningStep::Done(client)@ == ClientOpeningStepView::Done(client@),
        ClientOpeningStep::Fail(text)@ == ClientOpeningStepView::Fail(text@),
        ClientOpeningEvent::Reply(Ok(message))@ == ClientOpeningEventView::Reply(Ok(message@)),
        ClientOpeningEvent::Reply(Err(error))@ == ClientOpeningEventView::Reply(Err(error)),
        ClientOpeningEvent::Typed(line)@ == ClientOpeningEventView::Typed(line@),
        ClientOpeningEvent::Written@ == ClientOpeningEventView::Written,
{
}

} // verus!
