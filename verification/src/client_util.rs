//! The messages between the tasks of a client, and what a user types.

use vstd::prelude::*;
use crate::protocol::ReadError;
use crate::text::find_char;
use crate::text::same_text;

verus! {

/// Internal message type: the messages that flow between the tasks of a client.
#[derive(Debug, PartialEq)]
pub enum ClientInternalMessage<T> {
    /// A message was read from the network, or something that is no message.
    Network(Result<T, ()>),
    /// A line was typed.
    StdIn(String),
    /// The connection is lost.
    Error,
}

/// What a [`ClientInternalMessage`] says.
pub enum ClientInternalMessageView<V> {
    Network(Result<V, ()>),
    StdIn(Seq<char>),
    Error,
}

impl<T: View> View for ClientInternalMessage<T> {
    type V = ClientInternalMessageView<T::V>;

    open spec fn view(&self) -> ClientInternalMessageView<T::V> {
        match self {
            ClientInternalMessage::Network(Ok(message)) => ClientInternalMessageView::Network(
                Ok(message@),
            ),
            ClientInternalMessage::Network(Err(_)) => ClientInternalMessageView::Network(Err(())),
            ClientInternalMessage::StdIn(line) => ClientInternalMessageView::StdIn(line@),
            ClientInternalMessage::Error => ClientInternalMessageView::Error,
        }
    }
}

impl<T> ClientInternalMessage<T> {
    /// What follows an attempt to read: the message for the joint channel, and
    /// whether another attempt is made.
    pub open spec fn after_read(read: Result<T, ReadError>) -> (Self, bool) {
        match read {
            Ok(message) => (ClientInternalMessage::Network(Ok(message)), true),
            Err(ReadError::Malformed) => (ClientInternalMessage::Network(Err(())), true),
            Err(ReadError::Io) => (ClientInternalMessage::Error, false),
        }
    }

    /// Each message that is read is reported as it is, what is no message is
    /// reported as such, and reading goes on; only a lost connection is
    /// reported as an error, and ends it.
    pub proof fn law_after_read(message: T)
        ensures
            Self::after_read(Ok(message)) == (ClientInternalMessage::Network(Ok::<T, ()>(message)), true),
            Self::after_read(Err(ReadError::Malformed)) == (
                ClientInternalMessage::Network(Err::<T, ()>(())),
                true,
            ),
            Self::after_read(Err(ReadError::Io)) == (ClientInternalMessage::<T>::Error, false),
    {
    }

    /// What a network listener does after one attempt to read a message: which
    /// message it sends to the joint channel, and whether it goes on reading.
    pub fn on_read(read: Result<T, ReadError>) -> (step: (Self, bool))
        ensures
            step == Self::after_read(read),
            step == (match read {
                Ok(message) => (ClientInternalMessage::Network(Ok(message)), true),
                Err(ReadError::Malformed) => (ClientInternalMessage::Network(Err(())), true),
                Err(ReadError::Io) => (ClientInternalMessage::Error, false),
            }),
    {
        match read {
            Ok(message) => (ClientInternalMessage::Network(Ok(message)), true),
            Err(ReadError::Malformed) => (ClientInternalMessage::Network(Err(())), true),
            Err(ReadError::Io) => (ClientInternalMessage::Error, false),
        }
    }
}

/// What a user who is in no game can ask for.
#[derive(Debug, PartialEq)]
pub enum Command {
    /// `list`: who can be played against?
    List,
    /// `connect ID WORD`: a match against a user (id), with a word to guess.
    Connect(String, String),
    /// Anything else.
    Unrecognized,
}

/// What a [`Command`] says.
pub enum CommandView {
    List,
    Connect(Seq<char>, Seq<char>),
    Unrecognized,
}

impl View for Command {
    type V = CommandView;

    open spec fn view(&self) -> CommandView {
        match self {
            Command::List => CommandView::List,
            Command::Connect(id, word) => CommandView::Connect(id@, word@),
            Command::Unrecognized => CommandView::Unrecognized,
        }
    }
}

/// Whether `input` asks for a match against `id` with the word `word`: the two
/// stand behind `connect`, each after one space. The id holds no space; the
/// word goes on to the end, spaces included.
pub open spec fn asks_to_connect(input: Seq<char>, id: Seq<char>, word: Seq<char>) -> bool {
    input == "connect "@ + id + " "@ + word && !id.contains(' ')
}

/// Whether `command` is what `input` asks for.
pub open spec fn asks_for(input: Seq<char>, command: CommandView) -> bool {
    match command {
        CommandView::List => input == "list"@,
        CommandView::Connect(id, word) => asks_to_connect(input, id, word),
        CommandView::Unrecognized => {
            &&& input != "list"@
            &&& forall|id: Seq<char>, word: Seq<char>| !asks_to_connect(input, id, word)
        },
    }
}

impl Command {
    /// Reads a line as a command.
    pub fn parse(input: &str) -> (command: Command)
        ensures
            asks_for(input@, command@),
    {
        proof {
            reveal_strlit("list");
            reveal_strlit("connect ");
            reveal_strlit(" ");
        }
        if same_text(input, "list") {
            return Command::List;
        }
        let n: usize = input.unicode_len();
        if n < 8 || !same_text(input.substring_char(0, 8), "connect ") {
            proof {
                assert forall|id: Seq<char>, word: Seq<char>|
                    !asks_to_connect(input@, id, word) by {
                    if asks_to_connect(input@, id, word) {
                        assert(input@.subrange(0, 8) =~= "connect "@);
                    }
                }
            }
            return Command::Unrecognized;
        }
        let rest = input.substring_char(8, n);
        match find_char(rest, ' ') {
            Some(i) => {
                let id = input.substring_char(8, 8 + i).to_string();
                let word = input.substring_char(8 + i + 1, n).to_string();
                proof {
                    assert(input@ =~= "connect "@ + id@ + " "@ + word@);
                    assert(id@ =~= rest@.take(i as int));
                }
                Command::Connect(id, word)
            },
            None => {
                proof {
                    assert forall|id: Seq<char>, word: Seq<char>|
                        !asks_to_connect(input@, id, word) by {
                        if asks_to_connect(input@, id, word) {
                            assert(rest@[id.len() as int] == ' ');
                        }
                    }
                }
                Command::Unrecognized
            },
        }
    }
}

/// A line asks for one thing only.
pub proof fn law_command_unambiguous(input: Seq<char>, a: CommandView, b: CommandView)
    requires
        asks_for(input, a),
        asks_for(input, b),
    ensures
        a == b,
{
    reveal_strlit("list");
    reveal_strlit("connect ");
    reveal_strlit(" ");
    if a is Connect && b is Connect {
        let (id, word) = (a->Connect_0, a->Connect_1);
        let (other_id, other_word) = (b->Connect_0, b->Connect_1);
        assert(input[8 + id.len() as int] == ' ');
        assert(input[8 + other_id.len() as int] == ' ');
        if id.len() < other_id.len() {
            assert(other_id[id.len() as int] == input[8 + id.len() as int]);
        }
        if other_id.len() < id.len() {
            assert(id[other_id.len() as int] == input[8 + other_id.len() as int]);
        }
        assert(id =~= input.subrange(8, 8 + id.len() as int));
        assert(other_id =~= input.subrange(8, 8 + id.len() as int));
        assert(word =~= input.skip(9 + id.len() as int));
        assert(other_word =~= input.skip(9 + id.len() as int));
    }
    if a is List && b is Connect {
        assert(input.len() > 4);
    }
    if a is Connect && b is List {
        assert(input.len() > 4);
    }
}

/// An internal message says all that it holds, and nothing else.
pub proof fn law_internal_message_says_all<T: View>(message: T, line: String)
    ensures
        ClientInternalMessage::<T>::Network(Ok(message))@ == ClientInternalMessageView::Network(
            Ok::<T::V, ()>(message@),
        ),
        ClientInternalMessage::<T>::Network(Err(()))@ == ClientInternalMessageView::<
            T::V,
        >::Network(Err(())),
        ClientInternalMessage::<T>::StdIn(line)@ == ClientInternalMessageView::<T::V>::StdIn(
            line@,
        ),
        ClientInternalMessage::<T>::Error@ == ClientInternalMessageView::<T::V>::Error,
{
}

/// A command says all that it holds, and nothing else.
pub proof fn law_command_says_all(id: String, word: String)
    ensures
        Command::List@ == CommandView::List,
        Command::Connect(id, word)@ == CommandView::Connect(id@, word@),
        Command::Unrecognized@ == CommandView::Unrecognized,
{
}

} // verus!
