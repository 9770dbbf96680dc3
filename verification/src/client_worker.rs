//! The client's side of its connection to the server.

use vstd::prelude::*;
use crate::client_util::ClientInternalMessage;
use crate::client_util::ClientInternalMessageView;
use crate::client_util::Command;
use crate::client_util::CommandView;
use crate::protocol::ClientState;
use crate::protocol::ClientStateView;
use crate::protocol::GuessProtocol;
use crate::protocol::GuessProtocolView;
use crate::protocol::ReadError;
use crate::text::decimal_text;

verus! {

/// What a client wants done.
#[derive(Debug, PartialEq)]
pub enum ClientAction {
    /// Write a message to the server.
    Write(GuessProtocol),
    /// Show a line to the user.
    Print(String),
    /// Show a message that has no text of its own, and the id of the opponent,
    /// in the notation for debugging.
    PrintDebug(GuessProtocol, Option<String>),
}

/// What a [`ClientAction`] says.
pub enum ClientActionView {
    Write(GuessProtocolView),
    Print(Seq<char>),
    PrintDebug(GuessProtocolView, Option<Seq<char>>),
}

/// The text of a string that may be missing.
pub open spec fn option_text(s: Option<String>) -> Option<Seq<char>> {
    match s {
        Some(text) => Some(text@),
        None => None,
    }
}

impl View for ClientAction {
    type V = ClientActionView;

    open spec fn view(&self) -> ClientActionView {
        match self {
            ClientAction::Write(message) => ClientActionView::Write(message@),
            ClientAction::Print(line) => ClientActionView::Print(line@),
            ClientAction::PrintDebug(message, opponent) => ClientActionView::PrintDebug(
                message@,
                option_text(*opponent),
            ),
        }
    }
}

/// What a list of actions says.
pub open spec fn acted(actions: Seq<ClientAction>) -> Seq<ClientActionView> {
    actions.map_values(|action: ClientAction| action@)
}

/// What a [`ClientWorker`] knows.
#[verifier::ext_equal]
pub struct ClientWorkerView {
    pub id: Seq<char>,
    pub client_state: ClientStateView,
    pub opponent_id: Option<Seq<char>>,
}

impl ClientWorkerView {
    /// A client knows an opponent if and only if it is in a game.
    pub open spec fn wf(self) -> bool {
        self.opponent_id is None <==> self.client_state is Free
    }

    /// In no game.
    pub open spec fn reset(self) -> ClientWorkerView {
        ClientWorkerView { client_state: ClientStateView::Free, opponent_id: None, ..self }
    }

    /// Whether the client can make sense of `message`: a match in which it has
    /// no role cannot begin.
    pub open spec fn can_handle(
        self,
        message: ClientInternalMessageView<GuessProtocolView>,
    ) -> bool {
        !(message matches ClientInternalMessageView::Network(
            Ok(GuessProtocolView::OpponentConnectionEstablished(_, ClientStateView::Free)),
        ) && self.opponent_id is None)
    }
}

/// What one message makes a client do: what the client is afterwards, what is
/// to be done, and whether the connection goes on (if not, why).
#[verifier::ext_equal]
pub struct ClientReaction {
    pub client: ClientWorkerView,
    pub actions: Seq<ClientActionView>,
    pub result: Result<(), Seq<char>>,
}

/// Nothing but one action.
pub open spec fn only(client: ClientWorkerView, action: ClientActionView) -> ClientReaction {
    ClientReaction { client, actions: seq![action], result: Ok(()) }
}

/// Nothing but one line to the user.
pub open spec fn say(client: ClientWorkerView, line: Seq<char>) -> ClientReaction {
    only(client, ClientActionView::Print(line))
}

/// How the user is told of the assigned id and the commands.
pub open spec fn welcome_lines(id: Seq<char>) -> Seq<ClientActionView> {
    seq![
        ClientActionView::Print("You were assigned ID "@ + id),
        ClientActionView::Print(
            "Available commands:\n\tlist - List available opponents\n\tconnect ID WORD - Connect to an opponent"@,
        ),
    ]
}

/// How the user is told of possible opponents.
pub open spec fn opponent_lines(ids: Seq<Seq<char>>) -> Seq<ClientActionView> {
    if ids.len() > 0 {
        seq![
            ClientActionView::Print(
                "Available opponents ("@ + crate::text::decimal(ids.len()) + "):"@,
            ),
        ] + ids.map_values(|id: Seq<char>| ClientActionView::Print(id))
    } else {
        seq![ClientActionView::Print("No available opponents"@)]
    }
}

/// What the user is called in a role.
pub open spec fn role_name(state: ClientStateView) -> Seq<char> {
    if state is Riddlemaker {
        "riddlemaker"@
    } else {
        "guesser"@
    }
}

/// How the user is told that the word was found.
pub open spec fn found_lines(state: ClientStateView) -> Seq<ClientActionView> {
    match state {
        ClientStateView::Riddlemaker(_) => seq![
            ClientActionView::Print("Opponent found the word!"@),
        ],
        ClientStateView::Guesser => seq![ClientActionView::Print("You found the word!"@)],
        ClientStateView::Free => seq![],
    }
}

/// What a message of the server makes a client do.
pub open spec fn on_server_message(
    client: ClientWorkerView,
    message: GuessProtocolView,
) -> ClientReaction {
    match (message, client.opponent_id) {
        (GuessProtocolView::ServerOpponentList(ids), None) => ClientReaction {
            client,
            actions: opponent_lines(ids),
            result: Ok(()),
        },
        (GuessProtocolView::OpponentConnectionEstablished(id, state), None) => say(
            ClientWorkerView { client_state: state, opponent_id: Some(id), ..client },
            "You were connected to user "@ + id + " as a "@ + role_name(state),
        ),
        (GuessProtocolView::OpponentConnectionNotEstablished(id), None) => say(
            client,
            "Connection to user "@ + id + " could not be established"@,
        ),
        (GuessProtocolView::ServerOpponentDisconnected, Some(_)) => say(
            client.reset(),
            "Opponent disconnected"@,
        ),
        (GuessProtocolView::ClientGuess(word), Some(id)) => say(
            client,
            "User "@ + id + " guessed '"@ + word + "'"@,
        ),
        (GuessProtocolView::ClientHint(word), Some(id)) => say(
            client,
            "User "@ + id + " hinted '"@ + word + "'"@,
        ),
        (GuessProtocolView::ServerWordFound, Some(_)) => ClientReaction {
            client: client.reset(),
            actions: found_lines(client.client_state),
            result: Ok(()),
        },
        _ => only(client, ClientActionView::PrintDebug(message, client.opponent_id)),
    }
}

/// What a command makes a client do.
pub open spec fn on_command(client: ClientWorkerView, command: CommandView) -> ClientReaction {
    match command {
        CommandView::List => only(
            client,
            ClientActionView::Write(GuessProtocolView::ClientListOpponents),
        ),
        CommandView::Connect(id, word) => only(
            client,
            ClientActionView::Write(GuessProtocolView::ClientSelectOpponent(id, word)),
        ),
        CommandView::Unrecognized => say(client, "unrecognized command"@),
    }
}

/// Whether `then` is what a typed line makes a client do: a command outside of
/// a game, a hint or a guess in one.
pub open spec fn reacts_to_line(
    client: ClientWorkerView,
    line: Seq<char>,
    then: ClientReaction,
) -> bool {
    match client.client_state {
        ClientStateView::Free => exists|command: CommandView| #[trigger]
            crate::client_util::asks_for(line, command) && then == on_command(client, command),
        ClientStateView::Riddlemaker(_) => then == only(
            client,
            ClientActionView::Write(GuessProtocolView::ClientHint(line)),
        ),
        ClientStateView::Guesser => then == only(
            client,
            ClientActionView::Write(GuessProtocolView::ClientGuess(line)),
        ),
    }
}

/// Whether `then` is what a message makes a client do.
pub open spec fn reacts(
    client: ClientWorkerView,
    message: ClientInternalMessageView<GuessProtocolView>,
    then: ClientReaction,
) -> bool {
    match message {
        ClientInternalMessageView::Error => then == (ClientReaction {
            client,
            actions: seq![],
            result: Err("Connection to server was lost"@),
        }),
        ClientInternalMessageView::Network(Err(_)) => then == only(
            client,
            ClientActionView::Write(GuessProtocolView::UnrecognizedMessageError),
        ),
        ClientInternalMessageView::Network(Ok(message)) => then == on_server_message(
            client,
            message,
        ),
        ClientInternalMessageView::StdIn(line) => reacts_to_line(client, line, then),
    }
}

/// A client that has just been let in under `id`.
pub open spec fn new_client(id: Seq<char>) -> ClientWorkerView {
    ClientWorkerView { id, client_state: ClientStateView::Free, opponent_id: None }
}

/// Whether the server has opened the connection as it should.
pub open spec fn is_greeted(reply: Result<GuessProtocolView, ReadError>) -> bool {
    reply == Ok::<GuessProtocolView, ReadError>(GuessProtocolView::ServerHello)
}

/// The id that the server has given to the client, if it has let it in.
pub open spec fn assigned_id(reply: Result<GuessProtocolView, ReadError>) -> Option<Seq<char>> {
    match reply {
        Ok(GuessProtocolView::ConnectionEstablished(id)) => Some(id),
        _ => None,
    }
}

/// The text of an error.
pub open spec fn result_text(result: Result<(), &'static str>) -> Result<(), Seq<char>> {
    match result {
        Ok(_) => Ok(()),
        Err(text) => Err(text@),
    }
}

/// Client-side representation of client state
pub struct ClientWorker {
    id: String,
    client_state: ClientState,
    opponent_id: Option<String>,
}

impl View for ClientWorker {
    type V = ClientWorkerView;

    closed spec fn view(&self) -> ClientWorkerView {
        ClientWorkerView {
            id: self.id@,
            client_state: self.client_state@,
            opponent_id: option_text(self.opponent_id),
        }
    }
}

/// Adds one action to a list.
fn act(out: &mut Vec<ClientAction>, action: ClientAction)
    ensures
        acted(final(out)@) == acted(old(out)@).push(action@),
{
    out.push(action);
    assert(acted(out@) =~= acted(old(out)@).push(action@));
}

/// Joins four pieces of text.
fn join(a: &str, b: &str, c: &str, d: &str) -> (joined: String)
    ensures
        joined@ == a@ + b@ + c@ + d@,
{
    let mut joined = a.to_string();
    joined.append(b);
    joined.append(c);
    joined.append(d);
    joined
}

impl ClientWorker {
    /// Checks that the server has opened the connection as it should. The
    /// password of the user is then due.
    pub fn check_greeting(reply: Result<GuessProtocol, ReadError>) -> (result: Result<
        (),
        &'static str,
    >)
        ensures
            result_text(result) == (if is_greeted(crate::protocol::reply_view(reply)) {
                Ok(())
            } else {
                Err("Incorrect server response"@)
            }),
    {
        match reply {
            Ok(GuessProtocol::ServerHello) => Ok(()),
            _ => Err("Incorrect server response"),
        }
    }

    /// The message by which the password of the user is given to the server.
    pub fn password_message(password: String) -> (message: GuessProtocol)
        ensures
            message@ == GuessProtocolView::ClientPassword(password@),
    {
        GuessProtocol::ClientPassword(password)
    }

    /// A client that has been let in: the server's `reply` to the password
    /// tells its id.
    pub fn new(reply: Result<GuessProtocol, ReadError>) -> (client: Result<
        ClientWorker,
        &'static str,
    >)
        ensures
            match assigned_id(crate::protocol::reply_view(reply)) {
                Some(id) => {
                    &&& client matches Ok(client)
                    &&& client@ == new_client(id)
                },
                None => {
                    &&& client matches Err(text)
                    &&& text@ == "Incorrect server response"@
                },
            },
    {
        match reply {
            Ok(GuessProtocol::ConnectionEstablished(id)) => Ok(
                ClientWorker { id, client_state: ClientState::Free, opponent_id: None },
            ),
            _ => Err("Incorrect server response"),
        }
    }

    /// Get id assigned to the user
    pub fn id(&self) -> (id: &str)
        ensures
            id@ == self@.id,
    {
        self.id.as_str()
    }

    /// Tells the user the assigned id and the commands: appends what is to be
    /// done to `out`.
    pub fn welcome(&self, out: &mut Vec<ClientAction>)
        ensures
            acted(final(out)@) == acted(old(out)@) + welcome_lines(self@.id),
    {
        let mut line = "You were assigned ID ".to_string();
        line.append(self.id.as_str());
        act(out, ClientAction::Print(line));
        act(
            out,
            ClientAction::Print(
                "Available commands:\n\tlist - List available opponents\n\tconnect ID WORD - Connect to an opponent".to_string(),
            ),
        );
        assert(acted(out@) =~= acted(old(out)@) + welcome_lines(self@.id));
    }

    /// Whether the client can make sense of `msg`.
    pub fn can_handle(&self, msg: &ClientInternalMessage<GuessProtocol>) -> (can: bool)
        ensures
            can == self@.can_handle(msg@),
    {
        match (msg, &self.opponent_id) {
            (
                ClientInternalMessage::Network(
                    Ok(GuessProtocol::OpponentConnectionEstablished(_, ClientState::Free)),
                ),
                None,
            ) => false,
            _ => true,
        }
    }

    /// Handles one message from the joint channel: appends what is to be done
    /// to `out`. An error means that the connection is lost.
    pub fn handle_message(
        &mut self,
        msg: ClientInternalMessage<GuessProtocol>,
        out: &mut Vec<ClientAction>,
    ) -> (result: Result<(), &'static str>)
        requires
            old(self)@.can_handle(msg@),
        ensures
            acted(old(out)@).is_prefix_of(acted(final(out)@)),
            reacts(
                old(self)@,
                msg@,
                (ClientReaction {
                    client: final(self)@,
                    actions: acted(final(out)@).skip(old(out)@.len() as int),
                    result: result_text(result),
                }),
            ),
    {
        let ghost before = acted(out@);
        match msg {
            // Connection to server was lost
            ClientInternalMessage::Error => {
                assert(acted(out@).skip(before.len() as int) =~= seq![]);
                return Err("Connection to server was lost");
            },
            // Invalid message was read, inform server
            ClientInternalMessage::Network(Err(_)) => {
                act(out, ClientAction::Write(GuessProtocol::UnrecognizedMessageError));
                assert(acted(out@).skip(before.len() as int) =~= seq![
                    ClientActionView::Write(GuessProtocolView::UnrecognizedMessageError),
                ]);
            },
            // Handle valid messages from server
            ClientInternalMessage::Network(Ok(message)) => {
                self.handle_server_message(message, out);
                assert(acted(out@).skip(before.len() as int) =~= on_server_message(
                    old(self)@,
                    message@,
                ).actions);
            },
            // Handle keyboard input
            ClientInternalMessage::StdIn(line) => {
                self.handle_line(line, out);
            },
        }
        Ok(())
    }

    /// Handles one valid message of the server.
    fn handle_server_message(&mut self, message: GuessProtocol, out: &mut Vec<ClientAction>)
        requires
            old(self)@.can_handle(ClientInternalMessageView::Network(Ok(message@))),
        ensures
            ({
                let then = on_server_message(old(self)@, message@);
                &&& final(self)@ == then.client
                &&& acted(final(out)@) == acted(old(out)@) + then.actions
            }),
    {
        let ghost before = acted(out@);
        match (message, &self.opponent_id) {
            (GuessProtocol::ServerOpponentList(ids), None) => {
                print_opponents(ids, out);
            },
            (GuessProtocol::OpponentConnectionEstablished(id, state), None) => {
                let role = match &state {
                    ClientState::Riddlemaker(_) => "riddlemaker",
                    _ => "guesser",
                };
                let line = join("You were connected to user ", id.as_str(), " as a ", role);
                act(out, ClientAction::Print(line));
                self.client_state = state;
                self.opponent_id = Some(id);
            },
            (GuessProtocol::OpponentConnectionNotEstablished(id), None) => {
                let mut line = "Connection to user ".to_string();
                line.append(id.as_str());
                line.append(" could not be established");
                act(out, ClientAction::Print(line));
            },
            (GuessProtocol::ServerOpponentDisconnected, Some(_)) => {
                act(out, ClientAction::Print("Opponent disconnected".to_string()));
                self.reset_state();
            },
            (GuessProtocol::ClientGuess(word), Some(id)) => {
                let mut line = join("User ", id.as_str(), " guessed '", word.as_str());
                line.append("'");
                act(out, ClientAction::Print(line));
            },
            (GuessProtocol::ClientHint(word), Some(id)) => {
                let mut line = join("User ", id.as_str(), " hinted '", word.as_str());
                line.append("'");
                act(out, ClientAction::Print(line));
            },
            (GuessProtocol::ServerWordFound, Some(_)) => {
                match &self.client_state {
                    ClientState::Riddlemaker(_) => {
                        act(out, ClientAction::Print("Opponent found the word!".to_string()));
                    },
                    ClientState::Guesser => {
                        act(out, ClientAction::Print("You found the word!".to_string()));
                    },
                    ClientState::Free => {},
                }
                self.reset_state();
            },
            (message, opponent) => {
                act(out, ClientAction::PrintDebug(message, opponent.clone()));
            },
        }
        assert(acted(out@) =~= before + on_server_message(old(self)@, message@).actions);
    }

    /// Handles one line that was typed.
    fn handle_line(&self, line: String, out: &mut Vec<ClientAction>)
        ensures
            acted(old(out)@).is_prefix_of(acted(final(out)@)),
            reacts_to_line(
                self@,
                line@,
                (ClientReaction {
                    client: self@,
                    actions: acted(final(out)@).skip(old(out)@.len() as int),
                    result: Ok(()),
                }),
            ),
    {
        let ghost before = acted(out@);
        match &self.client_state {
            ClientState::Free => {
                let command = Command::parse(line.as_str());
                let action = match command {
                    Command::List => ClientAction::Write(GuessProtocol::ClientListOpponents),
                    Command::Connect(id, word) => ClientAction::Write(
                        GuessProtocol::ClientSelectOpponent(id, word),
                    ),
                    Command::Unrecognized => ClientAction::Print(
                        "unrecognized command".to_string(),
                    ),
                };
                act(out, action);
                assert(acted(out@).skip(before.len() as int) =~= on_command(
                    self@,
                    command@,
                ).actions);
                assert(crate::client_util::asks_for(line@, command@));
            },
            ClientState::Riddlemaker(_) => {
                act(out, ClientAction::Write(GuessProtocol::ClientHint(line)));
                assert(acted(out@).skip(before.len() as int) =~= seq![
                    ClientActionView::Write(GuessProtocolView::ClientHint(line@)),
                ]);
            },
            ClientState::Guesser => {
                act(out, ClientAction::Write(GuessProtocol::ClientGuess(line)));
                assert(acted(out@).skip(before.len() as int) =~= seq![
                    ClientActionView::Write(GuessProtocolView::ClientGuess(line@)),
                ]);
            },
        }
    }

    /// State reset, such as when a game was won or forfeited
    pub fn reset_state(&mut self)
        ensures
            final(self)@ == old(self)@.reset(),
    {
        self.client_state = ClientState::Free;
        self.opponent_id = None;
    }
}

/// Tells the user of possible opponents.
fn print_opponents(ids: Vec<String>, out: &mut Vec<ClientAction>)
    ensures
        acted(final(out)@) == acted(old(out)@) + opponent_lines(crate::protocol::texts(ids@)),
{
    let ghost before = acted(out@);
    let ghost listed = crate::protocol::texts(ids@);
    let n: usize = ids.len();
    if n == 0 {
        act(out, ClientAction::Print("No available opponents".to_string()));
        return;
    }
    let mut header = "Available opponents (".to_string();
    header.append(decimal_text(n).as_str());
    header.append("):");
    act(out, ClientAction::Print(header));
    let mut i: usize = 0;
    while i < n
        invariant
            n == ids@.len(),
            n > 0,
            i <= n,
            listed == crate::protocol::texts(ids@),
            acted(out@) =~= before + opponent_lines(listed).take(i + 1),
        decreases n - i,
    {
        act(out, ClientAction::Print(ids[i].clone()));
        i = i + 1;
    }
    assert(opponent_lines(listed).take(n + 1) =~= opponent_lines(listed));
}

/// An action says all that it holds, and nothing else; a list of actions says
/// each of them, in its place.
pub proof fn law_actions_say_all(
    message: GuessProtocol,
    line: String,
    opponent: String,
    actions: Seq<ClientAction>,
)
    ensures
        ClientAction::Write(message)@ == ClientActionView::Write(message@),
        ClientAction::Print(line)@ == ClientActionView::Print(line@),
        ClientAction::PrintDebug(message, Some(opponent))@ == ClientActionView::PrintDebug(
            message@,
            Some(opponent@),
        ),
        ClientAction::PrintDebug(message, None)@ == ClientActionView::PrintDebug(message@, None),
        acted(actions).len() == actions.len(),
        forall|i: int| 0 <= i < actions.len() ==> #[trigger] acted(actions)[i] == actions[i]@,
{
}

/// A client says all that it holds, and nothing else.
proof fn law_client_says_all(client: ClientWorker)
    ensures
        client@.id == client.id@,
        client@.client_state == client.client_state@,
        client@.opponent_id is Some <==> client.opponent_id is Some,
        client.opponent_id is Some ==> client@.opponent_id->Some_0 == client.opponent_id->Some_0@,
{
}

/// A result says whether all went well, and if not, why.
pub proof fn law_result_says_all(text: &'static str)
    ensures
        result_text(Ok(())) == Ok::<(), Seq<char>>(()),
        result_text(Err(text)) == Err::<(), Seq<char>>(text@),
{
}

/// The server has greeted if and only if it has sent its greeting; it has let
/// the client in under an id if and only if it has sent that id. Nothing else
/// that is read will do, and least of all what cannot be read.
pub proof fn law_replies(reply: Result<GuessProtocolView, ReadError>, id: Seq<char>)
    ensures
        is_greeted(Ok(GuessProtocolView::ServerHello)),
        is_greeted(reply) ==> reply is Ok && reply->Ok_0 is ServerHello,
        assigned_id(Ok(GuessProtocolView::ConnectionEstablished(id))) == Some(id),
        assigned_id(reply) is Some ==> reply is Ok && reply->Ok_0 is ConnectionEstablished,
{
}

/// A client that is let in is in no game, and has the id that it was given.
pub proof fn law_new_client(id: Seq<char>)
    ensures
        new_client(id) == (ClientWorkerView {
            id,
            client_state: ClientStateView::Free,
            opponent_id: None,
        }),
{
}

} // verus!
