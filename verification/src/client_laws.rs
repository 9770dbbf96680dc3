//! What each message makes a client do, spelled out: the client afterwards,
//! and everything that is written and shown.

use vstd::prelude::*;
use crate::client_util::ClientInternalMessageView;
use crate::client_util::CommandView;
use crate::client_worker::ClientActionView;
use crate::client_worker::ClientReaction;
use crate::client_worker::ClientWorkerView;
use crate::protocol::ClientStateView;
use crate::protocol::GuessProtocolView;

verus! {

// ---------------------------------------------------------------------------
// What is typed
// ---------------------------------------------------------------------------

/// A free user who types `list` asks the server for opponents, and nothing else
/// happens, whoever the user is.
pub proof fn law_list_command(
    client: ClientWorkerView,
    then: ClientReaction,
)
    requires
        client.client_state == ClientStateView::Free,
        crate::client_worker::reacts(
            client,
            ClientInternalMessageView::StdIn("list"@),
            then,
        ),
    ensures
        then.actions == seq![ClientActionView::Write(GuessProtocolView::ClientListOpponents)],
        then.client == client,
        then.result == Ok::<(), Seq<char>>(()),
{
    let command = choose|command: CommandView| #[trigger]
        crate::client_util::asks_for("list"@, command) && then == crate::client_worker::on_command(
            client,
            command,
        );
    assert(crate::client_util::asks_for("list"@, CommandView::List));
    crate::client_util::law_command_unambiguous("list"@, command, CommandView::List);
}

/// A free user who types `connect`, an id and a word asks the server for that
/// match, and nothing else happens, whoever the user is. The id holds no space; the
/// word may hold anything.
pub proof fn law_connect_line(
    client: ClientWorkerView,
    id: Seq<char>,
    word: Seq<char>,
    then: ClientReaction,
)
    requires
        client.client_state == ClientStateView::Free,
        forall|i: int| 0 <= i < id.len() ==> id[i] != ' ',
        crate::client_worker::reacts(
            client,
            ClientInternalMessageView::StdIn("connect "@ + id + " "@ + word),
            then,
        ),
    ensures
        then.actions == seq![ClientActionView::Write(GuessProtocolView::ClientSelectOpponent(id, word))],
        then.client == client,
        then.result == Ok::<(), Seq<char>>(()),
{
    crate::laws::law_connect_command(client, id, word, then);
}

/// A free user who types anything else is told so, and nothing is written.
pub proof fn law_unknown_command(
    client: ClientWorkerView,
    line: Seq<char>,
    then: ClientReaction,
)
    requires
        client.client_state == ClientStateView::Free,
        line != "list"@,
        forall|id: Seq<char>, word: Seq<char>|
            line == #[trigger] ("connect "@ + id + " "@ + word) ==> id.contains(' '),
        crate::client_worker::reacts(
            client,
            ClientInternalMessageView::StdIn(line),
            then,
        ),
    ensures
        then.actions == seq![ClientActionView::Print("unrecognized command"@)],
        then.client == client,
        then.result == Ok::<(), Seq<char>>(()),
{
    let command = choose|command: CommandView| #[trigger]
        crate::client_util::asks_for(line, command) && then == crate::client_worker::on_command(
            client,
            command,
        );
    if command is Connect {
        let (id, word) = (command->Connect_0, command->Connect_1);
        assert(line == "connect "@ + id + " "@ + word);
    }
}

/// Whatever a riddlemaker types is a hint, word for word.
pub proof fn law_riddlemaker_types_hints(
    client: ClientWorkerView,
    word: Seq<char>,
    line: Seq<char>,
    then: ClientReaction,
)
    requires
        client.client_state == ClientStateView::Riddlemaker(word),
        crate::client_worker::reacts(
            client,
            ClientInternalMessageView::StdIn(line),
            then,
        ),
    ensures
        then.actions == seq![ClientActionView::Write(GuessProtocolView::ClientHint(line))],
        then.client == client,
        then.result == Ok::<(), Seq<char>>(()),
{
}

/// Whatever a guesser types is a guess, word for word.
pub proof fn law_guesser_types_guesses(
    client: ClientWorkerView,
    line: Seq<char>,
    then: ClientReaction,
)
    requires
        client.client_state == ClientStateView::Guesser,
        crate::client_worker::reacts(
            client,
            ClientInternalMessageView::StdIn(line),
            then,
        ),
    ensures
        then.actions == seq![ClientActionView::Write(GuessProtocolView::ClientGuess(line))],
        then.client == client,
        then.result == Ok::<(), Seq<char>>(()),
{
}

// ---------------------------------------------------------------------------
// What the server says
// ---------------------------------------------------------------------------

/// A user in no game who gets an empty list of opponents is told that there is
/// nobody.
pub proof fn law_no_opponents_shown(
    client: ClientWorkerView,
    ids: Seq<Seq<char>>,
    then: ClientReaction,
)
    requires
        client.opponent_id is None,
        ids.len() == 0,
        crate::client_worker::reacts(
            client,
            ClientInternalMessageView::Network(Ok(GuessProtocolView::ServerOpponentList(ids))),
            then,
        ),
    ensures
        then.actions == seq![ClientActionView::Print("No available opponents"@)],
        then.client == client,
        then.result == Ok::<(), Seq<char>>(()),
{
}

/// A user in no game who gets a list of opponents is shown how many there are, and
/// then each of them, in the order of the list.
pub proof fn law_opponents_shown(
    client: ClientWorkerView,
    ids: Seq<Seq<char>>,
    then: ClientReaction,
)
    requires
        client.opponent_id is None,
        ids.len() > 0,
        crate::client_worker::reacts(
            client,
            ClientInternalMessageView::Network(Ok(GuessProtocolView::ServerOpponentList(ids))),
            then,
        ),
    ensures
        then.actions.len() == ids.len() + 1,
        then.actions[0] == ClientActionView::Print(
            "Available opponents ("@ + crate::text::decimal(ids.len()) + "):"@,
        ),
        forall|i: int|
            0 <= i < ids.len() ==> #[trigger] then.actions[i + 1] == ClientActionView::Print(ids[i]),
        then.client == client,
        then.result == Ok::<(), Seq<char>>(()),
{
}

/// A user in no game who becomes riddlemaker is told so, with the id of the
/// opponent, and the client keeps both.
pub proof fn law_riddlemaker_shown(
    client: ClientWorkerView,
    id: Seq<char>,
    word: Seq<char>,
    then: ClientReaction,
)
    requires
        client.opponent_id is None,
        crate::client_worker::reacts(
            client,
            ClientInternalMessageView::Network(Ok(GuessProtocolView::OpponentConnectionEstablished(id, ClientStateView::Riddlemaker(word)))),
            then,
        ),
    ensures
        then.actions == seq![
            ClientActionView::Print(
                "You were connected to user "@ + id + " as a "@ + "riddlemaker"@,
            ),
        ],
        then.client == (ClientWorkerView {
            id: client.id,
            client_state: ClientStateView::Riddlemaker(word),
            opponent_id: Some(id),
        }),
        then.result == Ok::<(), Seq<char>>(()),
{
}

/// A user in no game who becomes guesser is told so, with the id of the opponent,
/// and the client keeps both.
pub proof fn law_guesser_shown(
    client: ClientWorkerView,
    id: Seq<char>,
    then: ClientReaction,
)
    requires
        client.opponent_id is None,
        crate::client_worker::reacts(
            client,
            ClientInternalMessageView::Network(Ok(GuessProtocolView::OpponentConnectionEstablished(id, ClientStateView::Guesser))),
            then,
        ),
    ensures
        then.actions == seq![
            ClientActionView::Print("You were connected to user "@ + id + " as a "@ + "guesser"@),
        ],
        then.client == (ClientWorkerView {
            id: client.id,
            client_state: ClientStateView::Guesser,
            opponent_id: Some(id),
        }),
        then.result == Ok::<(), Seq<char>>(()),
{
}

/// A user in no game who is refused a match is told so, with the id that was asked
/// for.
pub proof fn law_refusal_shown(
    client: ClientWorkerView,
    id: Seq<char>,
    then: ClientReaction,
)
    requires
        client.opponent_id is None,
        crate::client_worker::reacts(
            client,
            ClientInternalMessageView::Network(Ok(GuessProtocolView::OpponentConnectionNotEstablished(id))),
            then,
        ),
    ensures
        then.actions == seq![
            ClientActionView::Print("Connection to user "@ + id + " could not be established"@),
        ],
        then.client == client,
        then.result == Ok::<(), Seq<char>>(()),
{
}

/// A user whose opponent is gone is told just that, in either role, and the client
/// is in no game.
pub proof fn law_disconnection_shown(
    client: ClientWorkerView,
    opponent: Seq<char>,
    then: ClientReaction,
)
    requires
        client.opponent_id == Some(opponent),
        crate::client_worker::reacts(
            client,
            ClientInternalMessageView::Network(Ok(GuessProtocolView::ServerOpponentDisconnected)),
            then,
        ),
    ensures
        then.actions == seq![ClientActionView::Print("Opponent disconnected"@)],
        then.client == (ClientWorkerView {
            id: client.id,
            client_state: ClientStateView::Free,
            opponent_id: None,
        }),
        then.result == Ok::<(), Seq<char>>(()),
{
}

/// A user in a game is shown a guess word for word, with the id of the opponent.
pub proof fn law_guess_shown(
    client: ClientWorkerView,
    opponent: Seq<char>,
    word: Seq<char>,
    then: ClientReaction,
)
    requires
        client.opponent_id == Some(opponent),
        crate::client_worker::reacts(
            client,
            ClientInternalMessageView::Network(Ok(GuessProtocolView::ClientGuess(word))),
            then,
        ),
    ensures
        then.actions == seq![
            ClientActionView::Print("User "@ + opponent + " guessed '"@ + word + "'"@),
        ],
        then.client == client,
        then.result == Ok::<(), Seq<char>>(()),
{
}

/// A user in a game is shown a hint word for word, with the id of the opponent.
pub proof fn law_hint_shown(
    client: ClientWorkerView,
    opponent: Seq<char>,
    word: Seq<char>,
    then: ClientReaction,
)
    requires
        client.opponent_id == Some(opponent),
        crate::client_worker::reacts(
            client,
            ClientInternalMessageView::Network(Ok(GuessProtocolView::ClientHint(word))),
            then,
        ),
    ensures
        then.actions == seq![
            ClientActionView::Print("User "@ + opponent + " hinted '"@ + word + "'"@),
        ],
        then.client == client,
        then.result == Ok::<(), Seq<char>>(()),
{
}

/// When the word is found, the riddlemaker is told that it was the opponent, and
/// the client is in no game.
pub proof fn law_found_shown_to_riddlemaker(
    client: ClientWorkerView,
    opponent: Seq<char>,
    word: Seq<char>,
    then: ClientReaction,
)
    requires
        client.opponent_id == Some(opponent),
        client.client_state == ClientStateView::Riddlemaker(word),
        crate::client_worker::reacts(
            client,
            ClientInternalMessageView::Network(Ok(GuessProtocolView::ServerWordFound)),
            then,
        ),
    ensures
        then.actions == seq![ClientActionView::Print("Opponent found the word!"@)],
        then.client == (ClientWorkerView {
            id: client.id,
            client_state: ClientStateView::Free,
            opponent_id: None,
        }),
        then.result == Ok::<(), Seq<char>>(()),
{
}

/// When the word is found, the guesser is congratulated, and the client is in no
/// game.
pub proof fn law_found_shown_to_guesser(
    client: ClientWorkerView,
    opponent: Seq<char>,
    then: ClientReaction,
)
    requires
        client.opponent_id == Some(opponent),
        client.client_state == ClientStateView::Guesser,
        crate::client_worker::reacts(
            client,
            ClientInternalMessageView::Network(Ok(GuessProtocolView::ServerWordFound)),
            then,
        ),
    ensures
        then.actions == seq![ClientActionView::Print("You found the word!"@)],
        then.client == (ClientWorkerView {
            id: client.id,
            client_state: ClientStateView::Free,
            opponent_id: None,
        }),
        then.result == Ok::<(), Seq<char>>(()),
{
}

/// When the word is found and the client has no role, nothing is shown, and the
/// client is in no game.
pub proof fn law_found_without_role(
    client: ClientWorkerView,
    opponent: Seq<char>,
    then: ClientReaction,
)
    requires
        client.opponent_id == Some(opponent),
        client.client_state == ClientStateView::Free,
        crate::client_worker::reacts(
            client,
            ClientInternalMessageView::Network(Ok(GuessProtocolView::ServerWordFound)),
            then,
        ),
    ensures
        then.actions.len() == 0,
        then.client == (ClientWorkerView {
            id: client.id,
            client_state: ClientStateView::Free,
            opponent_id: None,
        }),
        then.result == Ok::<(), Seq<char>>(()),
{
}

/// Any message that is out of place is shown as it is, with the id of the opponent,
/// and changes nothing: in no game, all but a list and the answers to a request for
/// a match; in a game, all but guesses, hints and the two ends of it.
pub proof fn law_out_of_place_shown(
    client: ClientWorkerView,
    message: GuessProtocolView,
    then: ClientReaction,
)
    requires
        client.opponent_id is None ==> !(message is ServerOpponentList
            || message is OpponentConnectionEstablished
            || message is OpponentConnectionNotEstablished),
        client.opponent_id is Some ==> !(message is ServerOpponentDisconnected
            || message is ClientGuess || message is ClientHint || message is ServerWordFound),
        crate::client_worker::reacts(
            client,
            ClientInternalMessageView::Network(Ok(message)),
            then,
        ),
    ensures
        then.actions == seq![ClientActionView::PrintDebug(message, client.opponent_id)],
        then.client == client,
        then.result == Ok::<(), Seq<char>>(()),
{
}

/// What cannot be read as a message is answered as such, and nothing is shown.
pub proof fn law_unreadable_answered(
    client: ClientWorkerView,
    then: ClientReaction,
)
    requires
        crate::client_worker::reacts(
            client,
            ClientInternalMessageView::Network(Err(())),
            then,
        ),
    ensures
        then.actions == seq![ClientActionView::Write(GuessProtocolView::UnrecognizedMessageError)],
        then.client == client,
        then.result == Ok::<(), Seq<char>>(()),
{
}

/// A client that loses the server ends with that reason. It writes and shows
/// nothing, and changes nothing.
pub proof fn law_server_lost(client: ClientWorkerView, then: ClientReaction)
    requires
        crate::client_worker::reacts(client, ClientInternalMessageView::Error, then),
    ensures
        then.result == Err::<(), Seq<char>>("Connection to server was lost"@),
        then.actions.len() == 0,
        then.client == client,
{
}

/// The one message that a client cannot make sense of: a match in which it has
/// no role, while it is in none.
pub proof fn law_cannot_handle(
    client: ClientWorkerView,
    message: ClientInternalMessageView<GuessProtocolView>,
)
    ensures
        client.can_handle(message) <==> !{
            &&& client.opponent_id is None
            &&& message is Network
            &&& message->Network_0 is Ok
            &&& message->Network_0->Ok_0 is OpponentConnectionEstablished
            &&& message->Network_0->Ok_0->OpponentConnectionEstablished_1 == ClientStateView::Free
        },
{
}

/// To reset a client leaves nothing of a game, and keeps its id.
pub proof fn law_reset(client: ClientWorkerView)
    ensures
        client.reset() == (ClientWorkerView {
            id: client.id,
            client_state: ClientStateView::Free,
            opponent_id: None,
        }),
{
}

/// The user is welcomed with the assigned id, and then with the commands.
pub proof fn law_welcome(id: Seq<char>)
    ensures
        crate::client_worker::welcome_lines(id) == seq![
            ClientActionView::Print("You were assigned ID "@ + id),
            ClientActionView::Print(
                "Available commands:\n\tlist - List available opponents\n\tconnect ID WORD - Connect to an opponent"@,
            ),
        ],
{
}

/// What a line asks for: `list` for the list, `connect` with an id and a word
/// for a match, and nothing else for anything.
pub proof fn law_commands(input: Seq<char>, id: Seq<char>, word: Seq<char>)
    ensures
        crate::client_util::asks_for(input, CommandView::List) <==> input == "list"@,
        crate::client_util::asks_for(input, CommandView::Connect(id, word)) <==> {
            &&& input == "connect "@ + id + " "@ + word
            &&& !id.contains(' ')
        },
        crate::client_util::asks_for(input, CommandView::Unrecognized) ==> {
            &&& input != "list"@
            &&& input == "connect "@ + id + " "@ + word ==> id.contains(' ')
        },
{
    assert(crate::client_util::asks_to_connect(input, id, word) <==> {
        &&& input == "connect "@ + id + " "@ + word
        &&& !id.contains(' ')
    });
}

/// When an opponent is lost, the remaining user is shown just that, whichever
/// role the user has.
pub proof fn law_loss_of_opponent_is_shown(
    riddlemaker: crate::server_worker::ServerWorkerView,
    guesser: crate::server_worker::ServerWorkerView,
    store: crate::server::ServerStateView,
    word: Seq<char>,
    riddlemaker_client: ClientWorkerView,
    guesser_client: ClientWorkerView,
)
    requires
        crate::laws::in_match(riddlemaker, guesser, store, word),
        crate::laws::mirrors(riddlemaker_client, riddlemaker),
        crate::laws::mirrors(guesser_client, guesser),
    ensures
        crate::client_worker::on_server_message(
            riddlemaker_client,
            GuessProtocolView::ServerOpponentDisconnected,
        ).actions == seq![ClientActionView::Print("Opponent disconnected"@)],
        crate::client_worker::on_server_message(
            guesser_client,
            GuessProtocolView::ServerOpponentDisconnected,
        ).actions == seq![ClientActionView::Print("Opponent disconnected"@)],
{
}

} // verus!
