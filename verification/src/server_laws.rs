//! What each message makes a worker do, spelled out: the worker and the
//! storage afterwards, and everything that is written and sent.

use vstd::prelude::*;
use crate::protocol::ClientStateView;
use crate::protocol::GuessProtocolView;
use crate::server::ClientEntry;
use crate::server::ServerStateView;
use crate::server_worker::Reaction;
use crate::server_worker::ServerActionView;
use crate::server_worker::ServerWorkerView;
use crate::util::InternalMessageView;
use crate::util::Sender;

verus! {

/// `after` is `before`, but for the state of the client `id`, if that is
/// connected.
pub open spec fn only_state_changed(
    before: ServerStateView,
    after: ServerStateView,
    id: Seq<char>,
    state: ClientStateView,
) -> bool {
    &&& after.id_generator == before.id_generator
    &&& forall|other: Seq<char>| #[trigger]
        after.clients.dom().contains(other) <==> before.clients.dom().contains(other)
    &&& forall|other: Seq<char>| #[trigger]
        before.clients.dom().contains(other) ==> after.clients[other] == (if other == id {
            ClientEntry { state, tx: before.clients[other].tx }
        } else {
            before.clients[other]
        })
}

/// What `only_state_changed` means for each single client.
pub proof fn law_only_state_changed_means(
    before: ServerStateView,
    after: ServerStateView,
    id: Seq<char>,
    state: ClientStateView,
    other: Seq<char>,
)
    requires
        only_state_changed(before, after, id, state),
        before.clients.dom().contains(other),
    ensures
        after.id_generator == before.id_generator,
        after.clients.dom() == before.clients.dom(),
        after.clients[other].tx == before.clients[other].tx,
        other == id ==> after.clients[other].state == state,
        other != id ==> after.clients[other].state == before.clients[other].state,
{
    assert(after.clients.dom() =~= before.clients.dom());
}

// ---------------------------------------------------------------------------
// The list of opponents
// ---------------------------------------------------------------------------

/// A client that asks for opponents gets one list, in which each id stands
/// once: those of the clients that are connected, free and not itself.
pub proof fn law_list_holds_the_free_others(
    worker: ServerWorkerView,
    store: ServerStateView,
    then: Reaction,
    id: Seq<char>,
)
    requires
        crate::server_worker::reacts(
            worker,
            store,
            InternalMessageView::Network(Ok(GuessProtocolView::ClientListOpponents)),
            then,
        ),
    ensures
        then.worker == worker,
        then.store == store,
        then.result == Ok::<(), ()>(()),
        then.actions.len() == 1,
        then.actions[0] is Write,
        then.actions[0]->Write_0 is ServerOpponentList,
        ({
            let ids = then.actions[0]->Write_0->ServerOpponentList_0;
            &&& forall|i: int, j: int| 0 <= i < j < ids.len() ==> ids[i] != ids[j]
            &&& (exists|i: int| 0 <= i < ids.len() && ids[i] == id) <==> {
                &&& id != worker.id
                &&& store.clients.dom().contains(id)
                &&& store.clients[id].state == ClientStateView::Free
            }
        }),
{
    let ids = then.actions[0]->Write_0->ServerOpponentList_0;
    assert(store.is_opponent_list(worker.id, ids));
    assert(ids.contains(id) <==> store.can_play(worker.id, id));
    assert(ids.contains(id) <==> exists|i: int| 0 <= i < ids.len() && ids[i] == id);
}

/// No client is in the list that it gets.
pub proof fn law_nobody_lists_itself(
    worker: ServerWorkerView,
    store: ServerStateView,
    then: Reaction,
    i: int,
)
    requires
        crate::server_worker::reacts(
            worker,
            store,
            InternalMessageView::Network(Ok(GuessProtocolView::ClientListOpponents)),
            then,
        ),
        0 <= i < then.actions[0]->Write_0->ServerOpponentList_0.len(),
    ensures
        then.actions[0]->Write_0->ServerOpponentList_0[i] != worker.id,
{
    law_list_holds_the_free_others(worker, store, then, worker.id);
}

// ---------------------------------------------------------------------------
// A match is asked for
// ---------------------------------------------------------------------------

/// A client that asks for a match against itself is refused, and nothing
/// changes.
pub proof fn law_nobody_plays_itself(
    worker: ServerWorkerView,
    store: ServerStateView,
    opponent: Seq<char>,
    word: Seq<char>,
    then: Reaction,
)
    requires
        worker.client_state == ClientStateView::Free,
        opponent == worker.id,
        crate::server_worker::reacts(
            worker,
            store,
            InternalMessageView::Network(
                Ok(GuessProtocolView::ClientSelectOpponent(opponent, word)),
            ),
            then,
        ),
    ensures
        then.actions == seq![
            ServerActionView::Write(
                GuessProtocolView::OpponentConnectionNotEstablished(worker.id),
            ),
        ],
        then.worker == worker,
        then.store == store,
        then.result == Ok::<(), ()>(()),
{
}

/// A free client that asks for a match against one who is not connected or not
/// free is refused, and nothing changes.
pub proof fn law_match_refused(
    worker: ServerWorkerView,
    store: ServerStateView,
    opponent: Seq<char>,
    word: Seq<char>,
    then: Reaction,
)
    requires
        worker.client_state == ClientStateView::Free,
        !store.clients.dom().contains(opponent) || store.clients[opponent].state
            != ClientStateView::Free,
        crate::server_worker::reacts(
            worker,
            store,
            InternalMessageView::Network(
                Ok(GuessProtocolView::ClientSelectOpponent(opponent, word)),
            ),
            then,
        ),
    ensures
        then.actions == seq![
            ServerActionView::Write(GuessProtocolView::OpponentConnectionNotEstablished(opponent)),
        ],
        then.worker == worker,
        then.store == store,
        then.result == Ok::<(), ()>(()),
{
}

/// A free client that asks for a match against another who is connected and
/// free gets it: the other is sent the channel and id of the one who asks and
/// the word; the one who asks is told; the storage calls the one riddlemaker
/// and the other guesser, and is otherwise as it was.
pub proof fn law_match_made(
    worker: ServerWorkerView,
    store: ServerStateView,
    opponent: Seq<char>,
    word: Seq<char>,
    then: Reaction,
    anyone: Seq<char>,
)
    requires
        worker.client_state == ClientStateView::Free,
        opponent != worker.id,
        store.clients.dom().contains(opponent),
        store.clients[opponent].state == ClientStateView::Free,
        crate::server_worker::reacts(
            worker,
            store,
            InternalMessageView::Network(
                Ok(GuessProtocolView::ClientSelectOpponent(opponent, word)),
            ),
            then,
        ),
    ensures
        then.actions == seq![
            ServerActionView::Send(
                store.clients[opponent].tx,
                InternalMessageView::OpponentAssigned(worker.tx, worker.id, word),
            ),
            ServerActionView::Write(
                GuessProtocolView::OpponentConnectionEstablished(
                    opponent,
                    ClientStateView::Riddlemaker(word),
                ),
            ),
        ],
        then.worker == (ServerWorkerView {
            id: worker.id,
            client_state: ClientStateView::Riddlemaker(word),
            tx: worker.tx,
            tx_to_opponent: Some(store.clients[opponent].tx),
            opponent_word: worker.opponent_word,
        }),
        then.result == Ok::<(), ()>(()),
        then.store.id_generator == store.id_generator,
        then.store.clients.dom().contains(anyone) <==> store.clients.dom().contains(anyone),
        store.clients.dom().contains(anyone) ==> {
            &&& then.store.clients[anyone].tx == store.clients[anyone].tx
            &&& then.store.clients[anyone].state == (if anyone == opponent {
                ClientStateView::Guesser
            } else if anyone == worker.id {
                ClientStateView::Riddlemaker(word)
            } else {
                store.clients[anyone].state
            })
        },
{
}

/// A free client that is chosen becomes the guesser: it keeps the channel of
/// the other and the word, and its user is told the id of the other and the
/// role, and nothing else.
pub proof fn law_assigned(
    worker: ServerWorkerView,
    store: ServerStateView,
    tx: Sender,
    opponent: Seq<char>,
    word: Seq<char>,
    then: Reaction,
)
    requires
        worker.client_state == ClientStateView::Free,
        crate::server_worker::reacts(
            worker,
            store,
            InternalMessageView::OpponentAssigned(tx, opponent, word),
            then,
        ),
    ensures
        then.actions == seq![
            ServerActionView::Write(
                GuessProtocolView::OpponentConnectionEstablished(
                    opponent,
                    ClientStateView::Guesser,
                ),
            ),
        ],
        then.worker == (ServerWorkerView {
            id: worker.id,
            client_state: ClientStateView::Guesser,
            tx: worker.tx,
            tx_to_opponent: Some(tx),
            opponent_word: Some(word),
        }),
        then.store == store,
        then.result == Ok::<(), ()>(()),
{
}

/// A client in a game that is chosen by another takes no notice.
pub proof fn law_assigned_while_busy(
    worker: ServerWorkerView,
    store: ServerStateView,
    tx: Sender,
    opponent: Seq<char>,
    word: Seq<char>,
    then: Reaction,
)
    requires
        worker.client_state != ClientStateView::Free,
        crate::server_worker::reacts(
            worker,
            store,
            InternalMessageView::OpponentAssigned(tx, opponent, word),
            then,
        ),
    ensures
        then.actions.len() == 0,
        then.worker == worker,
        then.store == store,
        then.result == Ok::<(), ()>(()),
{
}

// ---------------------------------------------------------------------------
// Guesses and hints
// ---------------------------------------------------------------------------

/// The guess of the very word ends the match: the opponent is told before the
/// client, and the client is free, for the worker and for the storage.
pub proof fn law_right_guess(
    worker: ServerWorkerView,
    store: ServerStateView,
    tx: Sender,
    word: Seq<char>,
    then: Reaction,
)
    requires
        worker.client_state == ClientStateView::Guesser,
        worker.tx_to_opponent == Some(tx),
        worker.opponent_word == Some(word),
        crate::server_worker::reacts(
            worker,
            store,
            InternalMessageView::Network(Ok(GuessProtocolView::ClientGuess(word))),
            then,
        ),
    ensures
        then.actions == seq![
            ServerActionView::Send(tx, InternalMessageView::WordFound),
            ServerActionView::Write(GuessProtocolView::ServerWordFound),
        ],
        then.worker == (ServerWorkerView {
            id: worker.id,
            client_state: ClientStateView::Free,
            tx: worker.tx,
            tx_to_opponent: None,
            opponent_word: None,
        }),
        only_state_changed(store, then.store, worker.id, ClientStateView::Free),
        then.result == Ok::<(), ()>(()),
{
    assert(then.actions =~= seq![
        ServerActionView::Send(tx, InternalMessageView::WordFound),
        ServerActionView::Write(GuessProtocolView::ServerWordFound),
    ]);
}

/// Any other guess is passed on to the opponent as it is, and nothing changes.
pub proof fn law_other_guess(
    worker: ServerWorkerView,
    store: ServerStateView,
    tx: Sender,
    guess: Seq<char>,
    then: Reaction,
)
    requires
        worker.client_state == ClientStateView::Guesser,
        worker.tx_to_opponent == Some(tx),
        worker.opponent_word != Some(guess),
        crate::server_worker::reacts(
            worker,
            store,
            InternalMessageView::Network(Ok(GuessProtocolView::ClientGuess(guess))),
            then,
        ),
    ensures
        then.actions == seq![
            ServerActionView::Send(
                tx,
                InternalMessageView::Opponent(GuessProtocolView::ClientGuess(guess)),
            ),
        ],
        then.worker == worker,
        then.store == store,
        then.result == Ok::<(), ()>(()),
{
}

/// The hint of a riddlemaker is passed on to the opponent as it is, and nothing
/// changes.
pub proof fn law_hint(
    worker: ServerWorkerView,
    store: ServerStateView,
    tx: Sender,
    hint: Seq<char>,
    then: Reaction,
)
    requires
        worker.client_state is Riddlemaker,
        worker.tx_to_opponent == Some(tx),
        crate::server_worker::reacts(
            worker,
            store,
            InternalMessageView::Network(Ok(GuessProtocolView::ClientHint(hint))),
            then,
        ),
    ensures
        then.actions == seq![
            ServerActionView::Send(
                tx,
                InternalMessageView::Opponent(GuessProtocolView::ClientHint(hint)),
            ),
        ],
        then.worker == worker,
        then.store == store,
        then.result == Ok::<(), ()>(()),
{
}

/// A guess or a hint in the right role, but without an opponent, does nothing.
pub proof fn law_nobody_to_tell(
    worker: ServerWorkerView,
    store: ServerStateView,
    message: GuessProtocolView,
    then: Reaction,
)
    requires
        worker.tx_to_opponent is None,
        (worker.client_state is Guesser && message is ClientGuess) || (
        worker.client_state is Riddlemaker && message is ClientHint),
        crate::server_worker::reacts(worker, store, InternalMessageView::Network(Ok(message)), then),
    ensures
        then.actions.len() == 0,
        then.worker == worker,
        then.store == store,
        then.result == Ok::<(), ()>(()),
{
}

/// What comes from the opponent is written to the client as it is, whatever
/// the client's state, and nothing changes.
pub proof fn law_passed_on(
    worker: ServerWorkerView,
    store: ServerStateView,
    message: GuessProtocolView,
    then: Reaction,
)
    requires
        crate::server_worker::reacts(worker, store, InternalMessageView::Opponent(message), then),
    ensures
        then.actions == seq![ServerActionView::Write(message)],
        then.worker == worker,
        then.store == store,
        then.result == Ok::<(), ()>(()),
{
}

// ---------------------------------------------------------------------------
// Errors
// ---------------------------------------------------------------------------

/// A valid message at the wrong time is answered with a logic error, and
/// nothing changes: a request for a match by one who is in a game, a guess by
/// one who is no guesser, a hint by one who is no riddlemaker, and every
/// message that only a server sends or that only opens a connection.
pub proof fn law_wrong_time(
    worker: ServerWorkerView,
    store: ServerStateView,
    message: GuessProtocolView,
    then: Reaction,
)
    requires
        match message {
            GuessProtocolView::ClientListOpponents => false,
            GuessProtocolView::ClientSelectOpponent(_, _) => worker.client_state
                != ClientStateView::Free,
            GuessProtocolView::ClientGuess(_) => worker.client_state != ClientStateView::Guesser,
            GuessProtocolView::ClientHint(_) => !(worker.client_state is Riddlemaker),
            _ => true,
        },
        crate::server_worker::reacts(worker, store, InternalMessageView::Network(Ok(message)), then),
    ensures
        then.actions == seq![ServerActionView::Write(GuessProtocolView::LogicError)],
        then.worker == worker,
        then.store == store,
        then.result == Ok::<(), ()>(()),
{
}

/// What cannot be read as a message is answered as such, and nothing changes.
pub proof fn law_unreadable(worker: ServerWorkerView, store: ServerStateView, then: Reaction)
    requires
        crate::server_worker::reacts(worker, store, InternalMessageView::Network(Err(())), then),
    ensures
        then.actions == seq![ServerActionView::Write(GuessProtocolView::UnrecognizedMessageError)],
        then.worker == worker,
        then.store == store,
        then.result == Ok::<(), ()>(()),
{
}

/// A typed line means nothing to a worker.
pub proof fn law_typed_line(
    worker: ServerWorkerView,
    store: ServerStateView,
    line: Seq<char>,
    then: Reaction,
)
    requires
        crate::server_worker::reacts(worker, store, InternalMessageView::StdIn(line), then),
    ensures
        then.actions.len() == 0,
        then.worker == worker,
        then.store == store,
        then.result == Ok::<(), ()>(()),
{
}

// ---------------------------------------------------------------------------
// The end of a match and of a connection
// ---------------------------------------------------------------------------

/// A worker that loses its client tells the opponent, if there is one, and
/// ends. It writes nothing and changes nothing.
pub proof fn law_connection_lost(
    worker: ServerWorkerView,
    store: ServerStateView,
    then: Reaction,
)
    requires
        crate::server_worker::reacts(worker, store, InternalMessageView::Error, then),
    ensures
        then.result == Err::<(), ()>(()),
        then.worker == worker,
        then.store == store,
        worker.tx_to_opponent matches Some(tx) ==> then.actions == seq![
            ServerActionView::Send(tx, InternalMessageView::OpponentDisconnected),
        ],
        worker.tx_to_opponent is None ==> then.actions.len() == 0,
{
}

/// A worker that hears that the opponent is gone tells the client just that,
/// and the client is free, for the worker and for the storage.
pub proof fn law_opponent_gone(worker: ServerWorkerView, store: ServerStateView, then: Reaction)
    requires
        crate::server_worker::reacts(
            worker,
            store,
            InternalMessageView::OpponentDisconnected,
            then,
        ),
    ensures
        then.actions == seq![
            ServerActionView::Write(GuessProtocolView::ServerOpponentDisconnected),
        ],
        then.worker == (ServerWorkerView {
            id: worker.id,
            client_state: ClientStateView::Free,
            tx: worker.tx,
            tx_to_opponent: None,
            opponent_word: None,
        }),
        only_state_changed(store, then.store, worker.id, ClientStateView::Free),
        then.result == Ok::<(), ()>(()),
{
}

/// A worker that hears that the word was found tells the client just that, and
/// the client is free, for the worker and for the storage.
pub proof fn law_word_found(worker: ServerWorkerView, store: ServerStateView, then: Reaction)
    requires
        crate::server_worker::reacts(worker, store, InternalMessageView::WordFound, then),
    ensures
        then.actions == seq![ServerActionView::Write(GuessProtocolView::ServerWordFound)],
        then.worker == (ServerWorkerView {
            id: worker.id,
            client_state: ClientStateView::Free,
            tx: worker.tx,
            tx_to_opponent: None,
            opponent_word: None,
        }),
        only_state_changed(store, then.store, worker.id, ClientStateView::Free),
        then.result == Ok::<(), ()>(()),
{
}

/// To reset a worker leaves nothing of a game, and keeps the id and the
/// channel of the client.
pub proof fn law_reset(worker: ServerWorkerView)
    ensures
        worker.reset() == (ServerWorkerView {
            id: worker.id,
            client_state: ClientStateView::Free,
            tx: worker.tx,
            tx_to_opponent: None,
            opponent_word: None,
        }),
{
}

// ---------------------------------------------------------------------------
// The storage
// ---------------------------------------------------------------------------

/// To register a client adds one that is free, under the number that is next
/// and with its channel; the number goes up by one, and all others stay.
pub proof fn law_register(store: ServerStateView, tx: Sender, other: Seq<char>)
    ensures
        ({
            let after = store.register(tx);
            let id = crate::text::decimal(store.id_generator);
            &&& after.id_generator == store.id_generator + 1
            &&& after.clients.dom().contains(id)
            &&& after.clients[id].state == ClientStateView::Free
            &&& after.clients[id].tx == tx
            &&& other != id ==> {
                &&& after.clients.dom().contains(other) <==> store.clients.dom().contains(other)
                &&& store.clients.dom().contains(other) ==> after.clients[other]
                    == store.clients[other]
            }
        }),
{
}

/// To remove a client takes away that client, and nothing else.
pub proof fn law_remove(store: ServerStateView, id: Seq<char>, other: Seq<char>)
    ensures
        ({
            let after = store.remove(id);
            &&& after.id_generator == store.id_generator
            &&& !after.clients.dom().contains(id)
            &&& other != id ==> {
                &&& after.clients.dom().contains(other) <==> store.clients.dom().contains(other)
                &&& store.clients.dom().contains(other) ==> after.clients[other]
                    == store.clients[other]
            }
        }),
{
}

/// To set the state of a client changes that state, and nothing else; if the
/// client is not connected, nothing at all.
pub proof fn law_set_state(store: ServerStateView, id: Seq<char>, state: ClientStateView)
    ensures
        only_state_changed(store, store.set_state(id, state), id, state),
        !store.clients.dom().contains(id) ==> store.set_state(id, state) == store,
{
}

/// Whom one can play: another client that is connected and free.
pub proof fn law_can_play(store: ServerStateView, id: Seq<char>, opponent: Seq<char>)
    ensures
        store.can_play(id, opponent) <==> {
            &&& opponent != id
            &&& store.clients.dom().contains(opponent)
            &&& store.clients[opponent].state == ClientStateView::Free
        },
        store.is_free(opponent) <==> {
            &&& store.clients.dom().contains(opponent)
            &&& store.clients[opponent].state == ClientStateView::Free
        },
        !store.can_play(id, id),
{
}

/// A list of opponents holds exactly those whom one can play, each once.
pub proof fn law_opponent_list(
    store: ServerStateView,
    id: Seq<char>,
    ids: Seq<Seq<char>>,
    opponent: Seq<char>,
)
    requires
        store.is_opponent_list(id, ids),
    ensures
        forall|i: int, j: int| 0 <= i < j < ids.len() ==> ids[i] != ids[j],
        (exists|i: int| 0 <= i < ids.len() && ids[i] == opponent) <==> {
            &&& opponent != id
            &&& store.clients.dom().contains(opponent)
            &&& store.clients[opponent].state == ClientStateView::Free
        },
{
    assert(ids.contains(opponent) <==> store.can_play(id, opponent));
    assert(ids.contains(opponent) <==> exists|i: int| 0 <= i < ids.len() && ids[i] == opponent);
}

/// All ids are issued: each is the decimal notation of a number below the
/// next.
pub proof fn law_ids_issued(store: ServerStateView, id: Seq<char>)
    requires
        store.ids_issued(),
        store.clients.dom().contains(id),
    ensures
        exists|n: nat| n < store.id_generator && id == #[trigger] crate::text::decimal(n),
{
}

} // verus!
