//! The messages of the game, as they flow between client and server.

use vstd::prelude::*;

verus! {

/// A client is either free (not in a game) or has a role in one.
#[derive(Debug, PartialEq)]
pub enum ClientState {
    Free,
    /// The word that the opponent is to guess.
    Riddlemaker(String),
    Guesser,
}

/// What a [`ClientState`] says.
pub enum ClientStateView {
    Free,
    Riddlemaker(Seq<char>),
    Guesser,
}

impl View for ClientState {
    type V = ClientStateView;

    open spec fn view(&self) -> ClientStateView {
        match self {
            ClientState::Free => ClientStateView::Free,
            ClientState::Riddlemaker(word) => ClientStateView::Riddlemaker(word@),
            ClientState::Guesser => ClientStateView::Guesser,
        }
    }
}

impl Clone for ClientState {
    fn clone(&self) -> (copy: Self)
        ensures
            copy == *self,
    {
        match self {
            ClientState::Free => ClientState::Free,
            ClientState::Riddlemaker(word) => ClientState::Riddlemaker(word.clone()),
            ClientState::Guesser => ClientState::Guesser,
        }
    }
}

impl ClientState {
    /// Whether the client is in no game.
    pub fn is_free(&self) -> (free: bool)
        ensures
            free == (self@ is Free),
    {
        match self {
            ClientState::Free => true,
            _ => false,
        }
    }
}

/// The texts of a list of strings.
pub open spec fn texts(list: Seq<String>) -> Seq<Seq<char>> {
    list.map_values(|s: String| s@)
}

/// Protocol of the game: the messages that flow between machines.
#[derive(Debug, PartialEq)]
pub enum GuessProtocol {
    /// The first message on a connection, from the server.
    ServerHello,
    /// The answer of a client to the server's first message.
    ClientPassword(String),
    /// The password was right; the client is known by this id from now on.
    ConnectionEstablished(String),
    /// A client asks whom it can play against.
    ClientListOpponents,
    /// The ids of the possible opponents.
    ServerOpponentList(Vec<String>),
    /// A client asks for a match against an opponent (id), with a word to guess.
    ClientSelectOpponent(String, String),
    /// The match against an opponent (id) is on; the client has this role.
    OpponentConnectionEstablished(String, ClientState),
    /// The match against an opponent (id) was refused.
    OpponentConnectionNotEstablished(String),
    /// A guess; passed on to the riddlemaker.
    ClientGuess(String),
    /// A hint; passed on to the guesser.
    ClientHint(String),
    /// The match is over: the word was found.
    ServerWordFound,
    /// The match is over: the opponent is gone.
    ServerOpponentDisconnected,
    /// The answer to a message that could not be read.
    UnrecognizedMessageError,
    /// The answer to a message that was not expected in this state.
    LogicError,
}

/// What a [`GuessProtocol`] message says.
pub enum GuessProtocolView {
    ServerHello,
    ClientPassword(Seq<char>),
    ConnectionEstablished(Seq<char>),
    ClientListOpponents,
    ServerOpponentList(Seq<Seq<char>>),
    ClientSelectOpponent(Seq<char>, Seq<char>),
    OpponentConnectionEstablished(Seq<char>, ClientStateView),
    OpponentConnectionNotEstablished(Seq<char>),
    ClientGuess(Seq<char>),
    ClientHint(Seq<char>),
    ServerWordFound,
    ServerOpponentDisconnected,
    UnrecognizedMessageError,
    LogicError,
}

impl View for GuessProtocol {
    type V = GuessProtocolView;

    open spec fn view(&self) -> GuessProtocolView {
        match self {
            GuessProtocol::ServerHello => GuessProtocolView::ServerHello,
            GuessProtocol::ClientPassword(password) => GuessProtocolView::ClientPassword(password@),
            GuessProtocol::ConnectionEstablished(id) => GuessProtocolView::ConnectionEstablished(
                id@,
            ),
            GuessProtocol::ClientListOpponents => GuessProtocolView::ClientListOpponents,
            GuessProtocol::ServerOpponentList(ids) => GuessProtocolView::ServerOpponentList(
                texts(ids@),
            ),
            GuessProtocol::ClientSelectOpponent(
                id,
                word,
            ) => GuessProtocolView::ClientSelectOpponent(id@, word@),
            GuessProtocol::OpponentConnectionEstablished(
                id,
                state,
            ) => GuessProtocolView::OpponentConnectionEstablished(id@, state@),
            GuessProtocol::OpponentConnectionNotEstablished(
                id,
            ) => GuessProtocolView::OpponentConnectionNotEstablished(id@),
            GuessProtocol::ClientGuess(word) => GuessProtocolView::ClientGuess(word@),
            GuessProtocol::ClientHint(hint) => GuessProtocolView::ClientHint(hint@),
            GuessProtocol::ServerWordFound => GuessProtocolView::ServerWordFound,
            GuessProtocol::ServerOpponentDisconnected =>
                GuessProtocolView::ServerOpponentDisconnected,
            GuessProtocol::UnrecognizedMessageError => GuessProtocolView::UnrecognizedMessageError,
            GuessProtocol::LogicError => GuessProtocolView::LogicError,
        }
    }
}

/// Why a message could not be read from a connection.
#[derive(Clone, Copy, Debug, PartialEq, Eq, Structural)]
pub enum ReadError {
    /// The connection failed, and nothing more can be read from it.
    Io,
    /// What was read is no message of the protocol.
    Malformed,
}

/// What an attempt to read a message has brought.
pub open spec fn reply_view(reply: Result<GuessProtocol, ReadError>) -> Result<
    GuessProtocolView,
    ReadError,
> {
    match reply {
        Ok(message) => Ok(message@),
        Err(error) => Err(error),
    }
}

/// A state says all that it holds, and nothing else.
pub proof fn law_state_says_all(word: String)
    ensures
        ClientState::Free@ == ClientStateView::Free,
        ClientState::Riddlemaker(word)@ == ClientStateView::Riddlemaker(word@),
        ClientState::Guesser@ == ClientStateView::Guesser,
{
}

/// A list of strings says each of them, in its place.
pub proof fn law_list_says_all(list: Seq<String>)
    ensures
        texts(list).len() == list.len(),
        forall|i: int| 0 <= i < list.len() ==> #[trigger] texts(list)[i] == list[i]@,
{
}

/// A message says all that it holds, and nothing else.
pub proof fn law_message_says_all(
    password: String,
    id: String,
    word: String,
    ids: Vec<String>,
    state: ClientState,
    i: int,
)
    ensures
        GuessProtocol::ServerHello@ == GuessProtocolView::ServerHello,
        GuessProtocol::ClientPassword(password)@ == GuessProtocolView::ClientPassword(password@),
        GuessProtocol::ConnectionEstablished(id)@ == GuessProtocolView::ConnectionEstablished(id@),
        GuessProtocol::ClientListOpponents@ == GuessProtocolView::ClientListOpponents,
        GuessProtocol::ClientSelectOpponent(id, word)@ == GuessProtocolView::ClientSelectOpponent(id@, word@),
        GuessProtocol::OpponentConnectionNotEstablished(id)@ == GuessProtocolView::OpponentConnectionNotEstablished(id@),
        GuessProtocol::ClientGuess(word)@ == GuessProtocolView::ClientGuess(word@),
        GuessProtocol::ClientHint(word)@ == GuessProtocolView::ClientHint(word@),
        GuessProtocol::ServerWordFound@ == GuessProtocolView::ServerWordFound,
        GuessProtocol::ServerOpponentDisconnected@ == GuessProtocolView::ServerOpponentDisconnected,
        GuessProtocol::UnrecognizedMessageError@ == GuessProtocolView::UnrecognizedMessageError,
        GuessProtocol::LogicError@ == GuessProtocolView::LogicError,
        GuessProtocol::OpponentConnectionEstablished(id, state)@
            == GuessProtocolView::OpponentConnectionEstablished(id@, state@),
        GuessProtocol::ServerOpponentList(ids)@ is ServerOpponentList,
        GuessProtocol::ServerOpponentList(ids)@->ServerOpponentList_0.len() == ids@.len(),
        0 <= i < ids@.len() ==> GuessProtocol::ServerOpponentList(ids)@->ServerOpponentList_0[i]
            == ids@[i]@,
{
}

/// An attempt to read says what was read, or why nothing was.
pub proof fn law_reply_says_all(message: GuessProtocol, error: ReadError)
    ensures
        reply_view(Ok(message)) == Ok::<GuessProtocolView, ReadError>(message@),
        reply_view(Err(error)) == Err::<GuessProtocolView, ReadError>(error),
{
}

} // verus!
