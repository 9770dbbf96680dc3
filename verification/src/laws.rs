//! What holds of the game as a whole.

use vstd::prelude::*;
use crate::client_handshake::ClientHandshake;
use crate::client_handshake::ClientOpeningEventView;
use crate::client_handshake::ClientOpeningStepView;
use crate::client_util::ClientInternalMessageView;
use crate::client_worker::ClientActionView;
use crate::client_worker::ClientReaction;
use crate::client_worker::ClientWorkerView;
use crate::protocol::ClientStateView;
use crate::protocol::GuessProtocolView;
use crate::server::ServerStateView;
use crate::server_handshake::ServerHandshakeView;
use crate::server_handshake::ServerOpeningEventView;
use crate::server_worker::Reaction;
use crate::server_worker::ServerActionView;
use crate::server_worker::ServerWorkerView;
use crate::util::InternalMessageView;
use crate::util::Sender;

verus! {

/// A valid message that a worker has read from its client.
pub open spec fn request(message: GuessProtocolView) -> InternalMessageView<GuessProtocolView> {
    InternalMessageView::Network(Ok(message))
}

// ---------------------------------------------------------------------------
// One worker
// ---------------------------------------------------------------------------

/// Whatever a worker is told, it stays well-formed and keeps its id and its
/// channel.
pub proof fn law_worker_stays_wf(
    worker: ServerWorkerView,
    store: ServerStateView,
    message: InternalMessageView<GuessProtocolView>,
    then: Reaction,
)
    requires
        worker.wf(),
        crate::server_worker::reacts(worker, store, message, then),
    ensures
        then.worker.wf(),
        then.worker.id == worker.id,
        then.worker.tx == worker.tx,
{
}

/// Only a lost connection ends a worker.
pub proof fn law_only_error_ends(
    worker: ServerWorkerView,
    store: ServerStateView,
    message: InternalMessageView<GuessProtocolView>,
    then: Reaction,
)
    requires
        crate::server_worker::reacts(worker, store, message, then),
    ensures
        then.result is Err <==> message is Error,
{
}

/// Whatever a worker is told, no client is added to the storage or removed
/// from it, no channel changes and no id is issued. Besides its own, a worker
/// touches the state of the one opponent that it starts a match against, and
/// that becomes the guesser.
pub proof fn law_store_frame(
    worker: ServerWorkerView,
    store: ServerStateView,
    message: InternalMessageView<GuessProtocolView>,
    then: Reaction,
)
    requires
        crate::server_worker::reacts(worker, store, message, then),
    ensures
        then.store.id_generator == store.id_generator,
        then.store.clients.dom() == store.clients.dom(),
        store.ids_issued() ==> then.store.ids_issued(),
        forall|id: Seq<char>| #[trigger]
            store.clients.dom().contains(id) ==> {
                &&& then.store.clients[id].tx == store.clients[id].tx
                &&& id != worker.id && then.store.clients[id] != store.clients[id] ==> {
                    &&& worker.client_state is Free
                    &&& store.is_free(id)
                    &&& then.store.clients[id].state is Guesser
                    &&& exists|word: Seq<char>|
                        message == #[trigger] request(
                            GuessProtocolView::ClientSelectOpponent(id, word),
                        )
                }
            },
{
    assert(then.store.clients.dom() =~= store.clients.dom());
    assert forall|id: Seq<char>| #[trigger]
        store.clients.dom().contains(id) && id != worker.id && then.store.clients[id]
            != store.clients[id] implies exists|word: Seq<char>|
        message == #[trigger] request(GuessProtocolView::ClientSelectOpponent(id, word)) by {
        let asked = message->Network_0->Ok_0;
        assert(message == request(
            GuessProtocolView::ClientSelectOpponent(id, asked->ClientSelectOpponent_1),
        ));
    }
}

/// Whether a client in `state` may send `message`.
pub open spec fn is_expected(state: ClientStateView, message: GuessProtocolView) -> bool {
    match message {
        GuessProtocolView::ClientListOpponents => true,
        GuessProtocolView::ClientSelectOpponent(_, _) => state is Free,
        GuessProtocolView::ClientGuess(_) => state is Guesser,
        GuessProtocolView::ClientHint(_) => state is Riddlemaker,
        _ => false,
    }
}

/// The server reacts to whatever a client sends: what cannot be read is
/// answered with one error, what is not expected with another, and all else is
/// answered or passed on to the opponent.
pub proof fn law_every_request_answered(
    worker: ServerWorkerView,
    store: ServerStateView,
    message: Result<GuessProtocolView, ()>,
    then: Reaction,
)
    requires
        worker.wf(),
        crate::server_worker::reacts(worker, store, InternalMessageView::Network(message), then),
    ensures
        then.result is Ok,
        then.actions.len() > 0,
        then.actions == seq![ServerActionView::Write(GuessProtocolView::UnrecognizedMessageError)]
            <==> message is Err,
        then.actions == seq![ServerActionView::Write(GuessProtocolView::LogicError)] <==> (
        message matches Ok(valid) && !is_expected(worker.client_state, valid)),
{
    assert(then.actions.len() > 0);
    let unrecognized = seq![
        ServerActionView::Write(GuessProtocolView::UnrecognizedMessageError),
    ];
    let unexpected = seq![ServerActionView::Write(GuessProtocolView::LogicError)];
    assert(unrecognized[0] != unexpected[0]);
    let first = then.actions[0];
    if then.actions == unrecognized {
        assert(first == unrecognized[0]);
    }
    if then.actions == unexpected {
        assert(first == unexpected[0]);
    }
}

/// A request that is answered with an error, or with the refusal of a match,
/// changes nothing.
pub proof fn law_refusal_changes_nothing(
    worker: ServerWorkerView,
    store: ServerStateView,
    message: Result<GuessProtocolView, ()>,
    refusal: GuessProtocolView,
    then: Reaction,
)
    requires
        crate::server_worker::reacts(worker, store, InternalMessageView::Network(message), then),
        then.actions.contains(ServerActionView::Write(refusal)),
        refusal is UnrecognizedMessageError || refusal is LogicError
            || refusal is OpponentConnectionNotEstablished,
    ensures
        then.worker == worker,
        then.store == store,
        then.actions == seq![ServerActionView::Write(refusal)],
{
    let i = choose|i: int|
        0 <= i < then.actions.len() && then.actions[i] == ServerActionView::Write(refusal);
    assert(then.actions[i] == ServerActionView::Write(refusal));
    assert(then.actions =~= seq![ServerActionView::Write(refusal)]);
}

/// A free client that asks for a match is either confirmed or refused. It is
/// confirmed if and only if the opponent is another client that is free.
pub proof fn law_match_confirmed_or_refused(
    worker: ServerWorkerView,
    store: ServerStateView,
    opponent: Seq<char>,
    word: Seq<char>,
    then: Reaction,
)
    requires
        worker.client_state is Free,
        crate::server_worker::reacts(
            worker,
            store,
            request(GuessProtocolView::ClientSelectOpponent(opponent, word)),
            then,
        ),
    ensures
        then.actions.contains(
            ServerActionView::Write(
                GuessProtocolView::OpponentConnectionEstablished(
                    opponent,
                    ClientStateView::Riddlemaker(word),
                ),
            ),
        ) <==> store.can_play(worker.id, opponent),
        then.actions.contains(
            ServerActionView::Write(GuessProtocolView::OpponentConnectionNotEstablished(opponent)),
        ) <==> !store.can_play(worker.id, opponent),
{
    let confirmed = ServerActionView::Write(
        GuessProtocolView::OpponentConnectionEstablished(
            opponent,
            ClientStateView::Riddlemaker(word),
        ),
    );
    let refused = ServerActionView::Write(
        GuessProtocolView::OpponentConnectionNotEstablished(opponent),
    );
    if store.can_play(worker.id, opponent) {
        assert(then.actions[1] == confirmed);
    } else {
        assert(then.actions[0] == refused);
    }
}

/// The list of opponents tells exactly against whom a match would be
/// confirmed.
pub proof fn law_list_is_whom_one_can_play(
    worker: ServerWorkerView,
    store: ServerStateView,
    ids: Seq<Seq<char>>,
    listing: Reaction,
    opponent: Seq<char>,
    word: Seq<char>,
    selection: Reaction,
)
    requires
        worker.client_state is Free,
        crate::server_worker::reacts(
            worker,
            store,
            request(GuessProtocolView::ClientListOpponents),
            listing,
        ),
        listing.actions == seq![
            ServerActionView::Write(GuessProtocolView::ServerOpponentList(ids)),
        ],
        crate::server_worker::reacts(
            worker,
            store,
            request(GuessProtocolView::ClientSelectOpponent(opponent, word)),
            selection,
        ),
    ensures
        ids.contains(opponent) <==> selection.actions.contains(
            ServerActionView::Write(
                GuessProtocolView::OpponentConnectionEstablished(
                    opponent,
                    ClientStateView::Riddlemaker(word),
                ),
            ),
        ),
{
    let listed = choose|listed: Seq<Seq<char>>| #[trigger]
        store.is_opponent_list(worker.id, listed) && listing
            == crate::server_worker::answer(
            worker,
            store,
            GuessProtocolView::ServerOpponentList(listed),
        );
    assert(listing.actions[0] == ServerActionView::Write(
        GuessProtocolView::ServerOpponentList(listed),
    ));
    assert(listed == ids);
    law_match_confirmed_or_refused(worker, store, opponent, word, selection);
}

/// To list the opponents changes nothing, and is answered with the list alone.
pub proof fn law_listing_changes_nothing(
    worker: ServerWorkerView,
    store: ServerStateView,
    then: Reaction,
)
    requires
        crate::server_worker::reacts(
            worker,
            store,
            request(GuessProtocolView::ClientListOpponents),
            then,
        ),
    ensures
        then.worker == worker,
        then.store == store,
        then.result is Ok,
        then.actions.len() == 1,
        then.actions[0] matches ServerActionView::Write(
            GuessProtocolView::ServerOpponentList(ids),
        ) && store.is_opponent_list(worker.id, ids),
{
}

/// A worker whose client is in a game ignores that another has chosen it.
pub proof fn law_busy_ignores_assignment(
    worker: ServerWorkerView,
    store: ServerStateView,
    tx: Sender,
    opponent: Seq<char>,
    word: Seq<char>,
    then: Reaction,
)
    requires
        !(worker.client_state is Free),
        crate::server_worker::reacts(
            worker,
            store,
            InternalMessageView::OpponentAssigned(tx, opponent, word),
            then,
        ),
    ensures
        then == (Reaction { worker, store, actions: seq![], result: Ok(()) }),
{
}

/// The news that the match is over frees a client whatever its state was, and
/// the same news again changes nothing more.
pub proof fn law_end_of_match_frees(
    worker: ServerWorkerView,
    store: ServerStateView,
    message: InternalMessageView<GuessProtocolView>,
    then: Reaction,
    again: Reaction,
)
    requires
        message is WordFound || message is OpponentDisconnected,
        crate::server_worker::reacts(worker, store, message, then),
        crate::server_worker::reacts(then.worker, then.store, message, again),
    ensures
        then.worker == worker.reset(),
        store.clients.dom().contains(worker.id) ==> then.store.is_free(worker.id),
        again.worker == then.worker,
        again.store == then.store,
{
    assert(again.store.clients =~= then.store.clients);
}

/// Only guesses and hints are passed on to an opponent.
pub proof fn law_only_guesses_and_hints_pass(
    worker: ServerWorkerView,
    store: ServerStateView,
    message: InternalMessageView<GuessProtocolView>,
    then: Reaction,
    tx: Sender,
    passed: GuessProtocolView,
)
    requires
        crate::server_worker::reacts(worker, store, message, then),
        then.actions.contains(ServerActionView::Send(tx, InternalMessageView::Opponent(passed))),
    ensures
        passed is ClientGuess || passed is ClientHint,
        worker.tx_to_opponent == Some(tx),
        message == request(passed),
{
    let sent = ServerActionView::Send(tx, InternalMessageView::Opponent(passed));
    let i = choose|i: int| 0 <= i < then.actions.len() && then.actions[i] == sent;
    assert(then.actions[i] == sent);
}

/// The word stays secret: two workers that differ in nothing but the word to
/// guess do the same, but for a guess of one of the two words.
pub proof fn law_word_stays_secret(
    worker: ServerWorkerView,
    store: ServerStateView,
    message: InternalMessageView<GuessProtocolView>,
    word: Seq<char>,
    other: Seq<char>,
    then: Reaction,
)
    requires
        message != request(GuessProtocolView::ClientGuess(word)),
        message != request(GuessProtocolView::ClientGuess(other)),
        crate::server_worker::reacts(
            ServerWorkerView { opponent_word: Some(word), ..worker },
            store,
            message,
            then,
        ),
    ensures
        exists|same: Reaction| #[trigger]
            crate::server_worker::reacts(
                ServerWorkerView { opponent_word: Some(other), ..worker },
                store,
                message,
                same,
            ) && same.actions == then.actions && same.store == then.store && same.result
                == then.result,
{
    let twin = ServerWorkerView { opponent_word: Some(other), ..worker };
    if message == request(GuessProtocolView::ClientListOpponents) {
        let ids = choose|ids: Seq<Seq<char>>| #[trigger]
            store.is_opponent_list(worker.id, ids) && then == crate::server_worker::answer(
                ServerWorkerView { opponent_word: Some(word), ..worker },
                store,
                GuessProtocolView::ServerOpponentList(ids),
            );
        let same = crate::server_worker::answer(
            twin,
            store,
            GuessProtocolView::ServerOpponentList(ids),
        );
        assert(store.is_opponent_list(twin.id, ids));
        assert(crate::server_worker::reacts(twin, store, message, same));
    } else {
        let same = crate::server_worker::reaction(twin, store, message);
        assert(crate::server_worker::reacts(twin, store, message, same));
        assert(same.actions =~= then.actions);
    }
}

/// The word is not shown to the guesser when the match starts: what is done
/// does not depend on it.
pub proof fn law_word_not_shown_at_start(
    worker: ServerWorkerView,
    store: ServerStateView,
    tx: Sender,
    opponent: Seq<char>,
    word: Seq<char>,
    other: Seq<char>,
)
    ensures
        crate::server_worker::reaction(
            worker,
            store,
            InternalMessageView::OpponentAssigned(tx, opponent, word),
        ).actions == crate::server_worker::reaction(
            worker,
            store,
            InternalMessageView::OpponentAssigned(tx, opponent, other),
        ).actions,
{
}

// ---------------------------------------------------------------------------
// Ids
// ---------------------------------------------------------------------------

/// Whether the storage can go from `before` to `after` in one step: a client is
/// let in, a client leaves, or a worker handles a message.
pub open spec fn store_step(before: ServerStateView, after: ServerStateView) -> bool {
    ||| exists|tx: Sender| after == #[trigger] before.register(tx)
    ||| exists|id: Seq<char>| after == #[trigger] before.remove(id)
    ||| exists|
        worker: ServerWorkerView,
        message: InternalMessageView<GuessProtocolView>,
        then: Reaction,
    | #[trigger]
        crate::server_worker::reacts(worker, before, message, then) && after == then.store
}

/// Whether `states` are the states that a storage goes through one after the
/// other.
pub open spec fn is_history(states: Seq<ServerStateView>) -> bool {
    forall|i: int, j: int|
        0 <= i && j == i + 1 && j < states.len() ==> store_step(
            #[trigger] states[i],
            #[trigger] states[j],
        )
}

/// One step keeps the ids of the storage in order, and takes back no id.
pub proof fn law_step_keeps_ids(before: ServerStateView, after: ServerStateView)
    requires
        store_step(before, after),
    ensures
        before.ids_issued() ==> after.ids_issued(),
        before.id_generator <= after.id_generator,
{
    if exists|tx: Sender| after == #[trigger] before.register(tx) {
        if before.ids_issued() {
            assert forall|id: Seq<char>| #[trigger] after.clients.dom().contains(id) implies exists|
                n: nat,
            |
                n < after.id_generator && id == #[trigger] crate::text::decimal(n) by {
                if before.clients.dom().contains(id) {
                    let n = choose|n: nat|
                        n < before.id_generator && id == #[trigger] crate::text::decimal(n);
                    assert(id == crate::text::decimal(n));
                } else {
                    assert(id == crate::text::decimal(before.id_generator));
                }
            }
        }
    } else if exists|id: Seq<char>| after == #[trigger] before.remove(id) {
        let left = choose|id: Seq<char>| after == #[trigger] before.remove(id);
        assert forall|id: Seq<char>| #[trigger] after.clients.dom().contains(id)
            implies before.clients.dom().contains(id) by {}
    } else {
        let (worker, message, then) = choose|
            worker: ServerWorkerView,
            message: InternalMessageView<GuessProtocolView>,
            then: Reaction,
        | #[trigger]
            crate::server_worker::reacts(worker, before, message, then) && after == then.store;
        law_store_frame(worker, before, message, then);
    }
}

/// No id is issued twice: of two clients that are let in one after the other,
/// whatever happens in between, the second gets another id.
pub proof fn law_ids_never_reused(
    states: Seq<ServerStateView>,
    first: int,
    second: int,
    first_tx: Sender,
    second_tx: Sender,
)
    requires
        is_history(states),
        0 <= first < second < states.len() - 1,
        states[first + 1] == states[first].register(first_tx),
        states[second + 1] == states[second].register(second_tx),
    ensures
        crate::text::decimal(states[first].id_generator) != crate::text::decimal(
            states[second].id_generator,
        ),
{
    lemma_history_takes_back_no_id(states, first + 1, second);
    crate::text::law_decimal_injective(states[first].id_generator, states[second].id_generator);
}

/// Whatever happens to the storage, each client keeps an id that was issued.
pub proof fn law_history_keeps_ids(states: Seq<ServerStateView>, i: int)
    requires
        is_history(states),
        0 <= i < states.len(),
        states[0].ids_issued(),
    ensures
        states[i].ids_issued(),
    decreases i,
{
    if i > 0 {
        law_history_keeps_ids(states, i - 1);
        assert(store_step(states[i - 1], states[i]));
        law_step_keeps_ids(states[i - 1], states[i]);
    }
}

/// Later numbers are no lower.
proof fn lemma_history_takes_back_no_id(states: Seq<ServerStateView>, i: int, j: int)
    requires
        is_history(states),
        0 <= i <= j < states.len(),
    ensures
        states[i].id_generator <= states[j].id_generator,
    decreases j,
{
    if i < j {
        lemma_history_takes_back_no_id(states, i, j - 1);
        assert(store_step(states[j - 1], states[j]));
        law_step_keeps_ids(states[j - 1], states[j]);
    }
}

/// A client that leaves leaves no trace but the number of its id.
pub proof fn law_removal_undoes_registration(store: ServerStateView, tx: Sender)
    requires
        store.ids_issued(),
    ensures
        store.register(tx).remove(crate::text::decimal(store.id_generator)) == (ServerStateView {
            id_generator: store.id_generator + 1,
            clients: store.clients,
        }),
{
    store.law_next_id_unused();
    let id = crate::text::decimal(store.id_generator);
    assert(store.register(tx).remove(id).clients =~= store.clients);
}

/// A new client is free: every other client can have a match against it.
pub proof fn law_new_client_can_be_played(store: ServerStateView, tx: Sender, anyone: Seq<char>)
    requires
        anyone != crate::text::decimal(store.id_generator),
    ensures
        store.register(tx).can_play(anyone, crate::text::decimal(store.id_generator)),
{
}

/// A client that is gone is gone: nobody can have a match against it, all
/// others stay as they are, and to remove it again changes nothing.
pub proof fn law_gone_client_is_gone(store: ServerStateView, id: Seq<char>, other: Seq<char>)
    requires
        other != id,
    ensures
        !store.remove(id).can_play(other, id),
        store.remove(id).clients.dom().contains(other) <==> store.clients.dom().contains(other),
        store.clients.dom().contains(other) ==> store.remove(id).clients[other]
            == store.clients[other],
        store.remove(id).remove(id) == store.remove(id),
{
    assert(store.remove(id).remove(id).clients =~= store.remove(id).clients);
}

// ---------------------------------------------------------------------------
// Two workers and the storage
// ---------------------------------------------------------------------------

/// The client of `worker` can be played against, and the storage says so.
pub open spec fn is_ready(worker: ServerWorkerView, store: ServerStateView) -> bool {
    &&& worker.wf()
    &&& worker.client_state is Free
    &&& store.is_free(worker.id)
    &&& store.clients[worker.id].tx == worker.tx
}

/// The two are in a match in which `guesser` is to guess `word`, and the
/// storage says so.
pub open spec fn in_match(
    riddlemaker: ServerWorkerView,
    guesser: ServerWorkerView,
    store: ServerStateView,
    word: Seq<char>,
) -> bool {
    &&& riddlemaker.wf() && guesser.wf()
    &&& riddlemaker.id != guesser.id
    &&& riddlemaker.client_state == ClientStateView::Riddlemaker(word)
    &&& guesser.client_state is Guesser
    &&& guesser.opponent_word == Some(word)
    &&& riddlemaker.tx_to_opponent == Some(guesser.tx)
    &&& guesser.tx_to_opponent == Some(riddlemaker.tx)
    &&& store.clients.dom().contains(riddlemaker.id)
    &&& store.clients[riddlemaker.id].state == riddlemaker.client_state
    &&& store.clients[riddlemaker.id].tx == riddlemaker.tx
    &&& store.clients.dom().contains(guesser.id)
    &&& store.clients[guesser.id].state == guesser.client_state
    &&& store.clients[guesser.id].tx == guesser.tx
}

/// A match between two clients that are ready: the one that asks is confirmed,
/// the other is informed, and then the two are in the match.
pub proof fn law_match_starts(
    a: ServerWorkerView,
    b: ServerWorkerView,
    store: ServerStateView,
    word: Seq<char>,
)
    requires
        is_ready(a, store),
        is_ready(b, store),
        a.id != b.id,
    ensures
        ({
            let asked = crate::server_worker::reaction(
                a,
                store,
                request(GuessProtocolView::ClientSelectOpponent(b.id, word)),
            );
            let assigned = InternalMessageView::OpponentAssigned(a.tx, a.id, word);
            let informed = crate::server_worker::reaction(b, asked.store, assigned);
            &&& asked.actions == seq![
                ServerActionView::Send(b.tx, assigned),
                ServerActionView::Write(
                    GuessProtocolView::OpponentConnectionEstablished(
                        b.id,
                        ClientStateView::Riddlemaker(word),
                    ),
                ),
            ]
            &&& informed.actions == seq![
                ServerActionView::Write(
                    GuessProtocolView::OpponentConnectionEstablished(
                        a.id,
                        ClientStateView::Guesser,
                    ),
                ),
            ]
            &&& in_match(asked.worker, informed.worker, informed.store, word)
        }),
{
}

/// Nobody else can have a match against one who is in a match.
pub proof fn law_players_are_busy(
    riddlemaker: ServerWorkerView,
    guesser: ServerWorkerView,
    store: ServerStateView,
    word: Seq<char>,
    anyone: Seq<char>,
)
    requires
        in_match(riddlemaker, guesser, store, word),
    ensures
        !store.can_play(anyone, riddlemaker.id),
        !store.can_play(anyone, guesser.id),
{
}

/// Two clients that are ready can each choose the other.
pub proof fn law_either_can_choose(
    a: ServerWorkerView,
    b: ServerWorkerView,
    store: ServerStateView,
)
    requires
        is_ready(a, store),
        is_ready(b, store),
        a.id != b.id,
    ensures
        store.can_play(a.id, b.id),
        store.can_play(b.id, a.id),
{
}

/// A match is not disturbed by anyone else: not by what other workers are
/// told, not by those who join and not by those who leave.
pub proof fn law_match_undisturbed(
    riddlemaker: ServerWorkerView,
    guesser: ServerWorkerView,
    store: ServerStateView,
    word: Seq<char>,
    other: ServerWorkerView,
    message: InternalMessageView<GuessProtocolView>,
    then: Reaction,
    tx: Sender,
)
    requires
        in_match(riddlemaker, guesser, store, word),
        other.id != riddlemaker.id,
        other.id != guesser.id,
        crate::server_worker::reacts(other, store, message, then),
    ensures
        in_match(riddlemaker, guesser, then.store, word),
        in_match(riddlemaker, guesser, store.remove(other.id), word),
        store.ids_issued() ==> in_match(riddlemaker, guesser, store.register(tx), word),
{
    law_store_frame(other, store, message, then);
    if store.ids_issued() {
        store.law_next_id_unused();
    }
}

/// A hint reaches the guesser as it was written, and the match goes on.
pub proof fn law_hint_delivered(
    riddlemaker: ServerWorkerView,
    guesser: ServerWorkerView,
    store: ServerStateView,
    word: Seq<char>,
    hint: Seq<char>,
)
    requires
        in_match(riddlemaker, guesser, store, word),
    ensures
        ({
            let given = crate::server_worker::reaction(
                riddlemaker,
                store,
                request(GuessProtocolView::ClientHint(hint)),
            );
            let passed = InternalMessageView::Opponent(GuessProtocolView::ClientHint(hint));
            let shown = crate::server_worker::reaction(guesser, given.store, passed);
            &&& given.actions == seq![ServerActionView::Send(guesser.tx, passed)]
            &&& shown.actions == seq![ServerActionView::Write(GuessProtocolView::ClientHint(hint))]
            &&& given.worker == riddlemaker
            &&& shown.worker == guesser
            &&& shown.store == store
        }),
{
}

/// A wrong guess reaches the riddlemaker as it was written, and the match goes
/// on.
pub proof fn law_wrong_guess_delivered(
    riddlemaker: ServerWorkerView,
    guesser: ServerWorkerView,
    store: ServerStateView,
    word: Seq<char>,
    guess: Seq<char>,
)
    requires
        in_match(riddlemaker, guesser, store, word),
        guess != word,
    ensures
        ({
            let made = crate::server_worker::reaction(
                guesser,
                store,
                request(GuessProtocolView::ClientGuess(guess)),
            );
            let passed = InternalMessageView::Opponent(GuessProtocolView::ClientGuess(guess));
            let shown = crate::server_worker::reaction(riddlemaker, made.store, passed);
            &&& made.actions == seq![ServerActionView::Send(riddlemaker.tx, passed)]
            &&& shown.actions == seq![
                ServerActionView::Write(GuessProtocolView::ClientGuess(guess)),
            ]
            &&& made.worker == guesser
            &&& shown.worker == riddlemaker
            &&& shown.store == store
        }),
{
}

/// The right guess ends the match: both clients are told, and both are ready
/// for another.
pub proof fn law_right_guess_ends_match(
    riddlemaker: ServerWorkerView,
    guesser: ServerWorkerView,
    store: ServerStateView,
    word: Seq<char>,
)
    requires
        in_match(riddlemaker, guesser, store, word),
    ensures
        ({
            let made = crate::server_worker::reaction(
                guesser,
                store,
                request(GuessProtocolView::ClientGuess(word)),
            );
            let told = crate::server_worker::reaction(
                riddlemaker,
                made.store,
                InternalMessageView::WordFound,
            );
            &&& made.actions == seq![
                ServerActionView::Send(riddlemaker.tx, InternalMessageView::WordFound),
                ServerActionView::Write(GuessProtocolView::ServerWordFound),
            ]
            &&& told.actions == seq![ServerActionView::Write(GuessProtocolView::ServerWordFound)]
            &&& is_ready(made.worker, told.store)
            &&& is_ready(told.worker, told.store)
        }),
{
    let made = crate::server_worker::reaction(
        guesser,
        store,
        request(GuessProtocolView::ClientGuess(word)),
    );
    assert(made.actions =~= seq![
        ServerActionView::Send(riddlemaker.tx, InternalMessageView::WordFound),
        ServerActionView::Write(GuessProtocolView::ServerWordFound),
    ]);
}

/// When one of two players is lost, the match ends: the other is told and is
/// ready for another, and the one that is lost is gone from the storage. It
/// does not matter whether that happens before the other is told.
pub proof fn law_disconnection_ends_match(
    riddlemaker: ServerWorkerView,
    guesser: ServerWorkerView,
    store: ServerStateView,
    word: Seq<char>,
    guesser_is_lost: bool,
)
    requires
        in_match(riddlemaker, guesser, store, word),
    ensures
        ({
            let (lost, other) = if guesser_is_lost {
                (guesser, riddlemaker)
            } else {
                (riddlemaker, guesser)
            };
            let left = crate::server_worker::reaction(lost, store, InternalMessageView::Error);
            let told = crate::server_worker::reaction(
                other,
                left.store,
                InternalMessageView::OpponentDisconnected,
            );
            let told_late = crate::server_worker::reaction(
                other,
                left.store.remove(lost.id),
                InternalMessageView::OpponentDisconnected,
            );
            &&& left.result is Err
            &&& left.actions == seq![
                ServerActionView::Send(other.tx, InternalMessageView::OpponentDisconnected),
            ]
            &&& told.actions == seq![
                ServerActionView::Write(GuessProtocolView::ServerOpponentDisconnected),
            ]
            &&& told_late.actions == told.actions
            &&& told_late.worker == told.worker
            &&& told_late.store == told.store.remove(lost.id)
            &&& is_ready(told.worker, told_late.store)
            &&& !told_late.store.clients.dom().contains(lost.id)
        }),
{
    let (lost, other) = if guesser_is_lost {
        (guesser, riddlemaker)
    } else {
        (riddlemaker, guesser)
    };
    let left = crate::server_worker::reaction(lost, store, InternalMessageView::Error);
    let told = crate::server_worker::reaction(
        other,
        left.store,
        InternalMessageView::OpponentDisconnected,
    );
    let told_late = crate::server_worker::reaction(
        other,
        left.store.remove(lost.id),
        InternalMessageView::OpponentDisconnected,
    );
    assert(told_late.store.clients =~= told.store.remove(lost.id).clients);
}

/// The storage tells the truth of a worker's client: it holds the client's
/// state, or already calls it a guesser while the worker has yet to hear of
/// the match.
pub open spec fn agrees(worker: ServerWorkerView, store: ServerStateView) -> bool {
    &&& store.clients.dom().contains(worker.id)
    &&& store.clients[worker.id].tx == worker.tx
    &&& store.clients[worker.id].state == worker.client_state || (
    store.clients[worker.id].state is Guesser && worker.client_state is Free)
}

/// Whatever a worker is told, the storage goes on to tell the truth of its
/// client, as long as it hears of a match only while the storage calls it a
/// guesser.
pub proof fn law_storage_agrees_with_worker(
    worker: ServerWorkerView,
    store: ServerStateView,
    message: InternalMessageView<GuessProtocolView>,
    then: Reaction,
)
    requires
        agrees(worker, store),
        crate::server_worker::reacts(worker, store, message, then),
        message is OpponentAssigned && worker.client_state is Free
            ==> store.clients[worker.id].state is Guesser,
    ensures
        agrees(then.worker, then.store),
{
}

/// Whatever a worker is told, the storage goes on to tell the truth of the
/// clients of all other workers.
pub proof fn law_storage_agrees_with_others(
    worker: ServerWorkerView,
    store: ServerStateView,
    message: InternalMessageView<GuessProtocolView>,
    then: Reaction,
    other: ServerWorkerView,
)
    requires
        other.id != worker.id,
        agrees(other, store),
        crate::server_worker::reacts(worker, store, message, then),
    ensures
        agrees(other, then.store),
{
}

// ---------------------------------------------------------------------------
// Clients
// ---------------------------------------------------------------------------

/// Whatever a client is told, it stays well-formed and keeps its id.
pub proof fn law_client_stays_wf(
    client: ClientWorkerView,
    message: ClientInternalMessageView<GuessProtocolView>,
    then: ClientReaction,
)
    requires
        client.wf(),
        client.can_handle(message),
        crate::client_worker::reacts(client, message, then),
    ensures
        then.client.wf(),
        then.client.id == client.id,
        then.result is Err <==> message is Error,
{
}

/// What is typed changes nothing of a client, and leads to one action.
pub proof fn law_typing_changes_nothing(
    client: ClientWorkerView,
    line: Seq<char>,
    then: ClientReaction,
)
    requires
        crate::client_worker::reacts(client, ClientInternalMessageView::StdIn(line), then),
    ensures
        then.client == client,
        then.actions.len() == 1,
        then.result is Ok,
{
}

/// Only three messages change a client: the start of a match while it is in
/// none, and the two ends of a match while it is in one.
pub proof fn law_what_changes_a_client(
    client: ClientWorkerView,
    message: ClientInternalMessageView<GuessProtocolView>,
    then: ClientReaction,
)
    requires
        crate::client_worker::reacts(client, message, then),
        then.client != client,
    ensures
        message matches ClientInternalMessageView::Network(Ok(received)) && (
        received is OpponentConnectionEstablished && client.opponent_id is None
            || received is ServerWordFound && client.opponent_id is Some
            || received is ServerOpponentDisconnected && client.opponent_id is Some),
{
}

/// A free user who types `connect`, an id and a word, with one space before
/// each, asks for that match, whatever the word holds.
pub proof fn law_connect_command(
    client: ClientWorkerView,
    id: Seq<char>,
    word: Seq<char>,
    then: ClientReaction,
)
    requires
        client.client_state is Free,
        !id.contains(' '),
        crate::client_worker::reacts(
            client,
            ClientInternalMessageView::StdIn("connect "@ + id + " "@ + word),
            then,
        ),
    ensures
        then.actions == seq![
            ClientActionView::Write(GuessProtocolView::ClientSelectOpponent(id, word)),
        ],
        then.client == client,
{
    let line = "connect "@ + id + " "@ + word;
    let command = choose|command: crate::client_util::CommandView| #[trigger]
        crate::client_util::asks_for(line, command) && then == crate::client_worker::on_command(
            client,
            command,
        );
    let meant = crate::client_util::CommandView::Connect(id, word);
    assert(crate::client_util::asks_for(line, meant));
    crate::client_util::law_command_unambiguous(line, command, meant);
}

// ---------------------------------------------------------------------------
// A client and its worker
// ---------------------------------------------------------------------------

/// What a client is after it has handled all messages among `actions` that are
/// written to it.
pub open spec fn after_writes(
    client: ClientWorkerView,
    actions: Seq<ServerActionView>,
) -> ClientWorkerView
    decreases actions.len(),
{
    if actions.len() == 0 {
        client
    } else {
        let earlier = after_writes(client, actions.drop_last());
        match actions.last() {
            ServerActionView::Write(message) => crate::client_worker::on_server_message(
                earlier,
                message,
            ).client,
            ServerActionView::Send(_, _) => earlier,
        }
    }
}

/// The client knows the state that its worker holds.
pub open spec fn mirrors(client: ClientWorkerView, worker: ServerWorkerView) -> bool {
    client.wf() && client.client_state == worker.client_state
}

/// What a worker may find in its channel: of the messages that can be passed
/// on to an opponent, only guesses and hints are.
pub open spec fn is_deliverable(message: InternalMessageView<GuessProtocolView>) -> bool {
    message matches InternalMessageView::Opponent(passed) ==> passed is ClientGuess
        || passed is ClientHint
}

/// A client can make sense of everything that its worker writes to it.
pub proof fn law_client_can_handle_writes(
    worker: ServerWorkerView,
    store: ServerStateView,
    message: InternalMessageView<GuessProtocolView>,
    then: Reaction,
    written: GuessProtocolView,
    client: ClientWorkerView,
)
    requires
        is_deliverable(message),
        crate::server_worker::reacts(worker, store, message, then),
        then.actions.contains(ServerActionView::Write(written)),
    ensures
        client.can_handle(ClientInternalMessageView::Network(Ok(written))),
{
    let i = choose|i: int|
        0 <= i < then.actions.len() && then.actions[i] == ServerActionView::Write(written);
    assert(then.actions[i] == ServerActionView::Write(written));
}

/// A client and its worker stay in step: whatever the worker is told, once the
/// client has handled what is written to it, it knows the worker's state.
pub proof fn law_client_mirrors_worker(
    client: ClientWorkerView,
    worker: ServerWorkerView,
    store: ServerStateView,
    message: InternalMessageView<GuessProtocolView>,
    then: Reaction,
)
    requires
        mirrors(client, worker),
        is_deliverable(message),
        crate::server_worker::reacts(worker, store, message, then),
    ensures
        mirrors(after_writes(client, then.actions), then.worker),
{
    reveal_with_fuel(after_writes, 3);
    if then.actions.len() == 1 {
        assert(then.actions.drop_last() =~= seq![]);
    }
    if then.actions.len() == 2 {
        assert(then.actions.drop_last().drop_last() =~= seq![]);
    }
}

/// The two sides open a connection in step. Each message that one of them
/// writes in its handshake is what the other waits for: the client goes on
/// with the server's greeting; the server lets the client in if and only if
/// the user typed its password; and both then know the client by the same id.
pub proof fn law_handshake(
    typed: Seq<char>,
    password: Seq<char>,
    id: Seq<char>,
    tx: Sender,
)
    ensures
        crate::client_handshake::after_event(
            ClientHandshake::AwaitGreeting,
            ClientOpeningEventView::Reply(Ok(GuessProtocolView::ServerHello)),
        ) matches Some((ClientHandshake::AwaitPassword, ClientOpeningStepView::Ask(_))),
        ({
            let answered = crate::client_handshake::after_event(
                ClientHandshake::AwaitPassword,
                ClientOpeningEventView::Typed(typed),
            );
            let answer = answered->Some_0.1->Write_0;
            let decided = crate::server_handshake::after_event(
                ServerHandshakeView::AwaitPassword,
                ServerOpeningEventView::Reply(Ok(answer)),
                password,
                id,
                tx,
            );
            let told = decided->Some_0.1->Write_0;
            let ended = crate::client_handshake::after_event(
                ClientHandshake::AwaitId,
                ClientOpeningEventView::Reply(Ok(told)),
            );
            &&& answered matches Some((_, ClientOpeningStepView::Write(_)))
            &&& decided is Some
            &&& decided->Some_0.1 is Write <==> typed == password
            &&& decided->Some_0.1 is Refuse <==> typed != password
            &&& typed == password ==> {
                &&& decided->Some_0.0 == ServerHandshakeView::AwaitTold(
                    crate::server_worker::new_worker(id, tx),
                )
                &&& ended == Some(
                    (
                        ClientHandshake::Over,
                        ClientOpeningStepView::Done(crate::client_worker::new_client(id)),
                    ),
                )
            }
        }),
{
}

/// When the word is found, both users are told so, each as suits the role, and
/// both clients are free.
pub proof fn law_word_found_is_shown(
    riddlemaker: ServerWorkerView,
    guesser: ServerWorkerView,
    store: ServerStateView,
    word: Seq<char>,
    riddlemaker_client: ClientWorkerView,
    guesser_client: ClientWorkerView,
)
    requires
        in_match(riddlemaker, guesser, store, word),
        mirrors(riddlemaker_client, riddlemaker),
        mirrors(guesser_client, guesser),
    ensures
        ({
            let found = GuessProtocolView::ServerWordFound;
            let other = crate::client_worker::on_server_message(riddlemaker_client, found);
            let finder = crate::client_worker::on_server_message(guesser_client, found);
            &&& other.actions == seq![ClientActionView::Print("Opponent found the word!"@)]
            &&& finder.actions == seq![ClientActionView::Print("You found the word!"@)]
            &&& other.client == riddlemaker_client.reset()
            &&& finder.client == guesser_client.reset()
        }),
{
}

/// When a match starts, each client learns its role and the id of the other.
pub proof fn law_players_know_each_other(
    client_a: ClientWorkerView,
    client_b: ClientWorkerView,
    a: ServerWorkerView,
    b: ServerWorkerView,
    store: ServerStateView,
    word: Seq<char>,
)
    requires
        mirrors(client_a, a),
        mirrors(client_b, b),
        is_ready(a, store),
        is_ready(b, store),
        a.id != b.id,
    ensures
        ({
            let asked = crate::server_worker::reaction(
                a,
                store,
                request(GuessProtocolView::ClientSelectOpponent(b.id, word)),
            );
            let informed = crate::server_worker::reaction(
                b,
                asked.store,
                InternalMessageView::OpponentAssigned(a.tx, a.id, word),
            );
            &&& after_writes(client_a, asked.actions) == (ClientWorkerView {
                client_state: ClientStateView::Riddlemaker(word),
                opponent_id: Some(b.id),
                ..client_a
            })
            &&& after_writes(client_b, informed.actions) == (ClientWorkerView {
                client_state: ClientStateView::Guesser,
                opponent_id: Some(a.id),
                ..client_b
            })
        }),
{
    reveal_with_fuel(after_writes, 3);
    let asked = crate::server_worker::reaction(
        a,
        store,
        request(GuessProtocolView::ClientSelectOpponent(b.id, word)),
    );
    let informed = crate::server_worker::reaction(
        b,
        asked.store,
        InternalMessageView::OpponentAssigned(a.tx, a.id, word),
    );
    assert(asked.actions.drop_last().drop_last() =~= seq![]);
    assert(informed.actions.drop_last() =~= seq![]);
}

/// In a match, what one user types is shown to the other as it was typed: a
/// hint to the guesser, and a guess to the riddlemaker unless it is right.
pub proof fn law_typed_line_reaches_screen(
    riddlemaker: ServerWorkerView,
    guesser: ServerWorkerView,
    store: ServerStateView,
    word: Seq<char>,
    riddlemaker_client: ClientWorkerView,
    guesser_client: ClientWorkerView,
    line: Seq<char>,
    hinted: ClientReaction,
    guessed: ClientReaction,
)
    requires
        in_match(riddlemaker, guesser, store, word),
        mirrors(riddlemaker_client, riddlemaker),
        mirrors(guesser_client, guesser),
        riddlemaker_client.opponent_id == Some(guesser.id),
        guesser_client.opponent_id == Some(riddlemaker.id),
        crate::client_worker::reacts(
            riddlemaker_client,
            ClientInternalMessageView::StdIn(line),
            hinted,
        ),
        crate::client_worker::reacts(
            guesser_client,
            ClientInternalMessageView::StdIn(line),
            guessed,
        ),
    ensures
        ({
            let hint = GuessProtocolView::ClientHint(line);
            let passed = InternalMessageView::Opponent(hint);
            &&& hinted.actions == seq![ClientActionView::Write(hint)]
            &&& crate::server_worker::reaction(riddlemaker, store, request(hint)).actions == seq![
                ServerActionView::Send(guesser.tx, passed),
            ]
            &&& crate::server_worker::reaction(guesser, store, passed).actions == seq![
                ServerActionView::Write(hint),
            ]
            &&& crate::client_worker::on_server_message(guesser_client, hint).actions == seq![
                ClientActionView::Print(
                    "User "@ + riddlemaker.id + " hinted '"@ + line + "'"@,
                ),
            ]
        }),
        line != word ==> ({
            let guess = GuessProtocolView::ClientGuess(line);
            let passed = InternalMessageView::Opponent(guess);
            &&& guessed.actions == seq![ClientActionView::Write(guess)]
            &&& crate::server_worker::reaction(guesser, store, request(guess)).actions == seq![
                ServerActionView::Send(riddlemaker.tx, passed),
            ]
            &&& crate::server_worker::reaction(riddlemaker, store, passed).actions == seq![
                ServerActionView::Write(guess),
            ]
            &&& crate::client_worker::on_server_message(riddlemaker_client, guess).actions == seq![
                ClientActionView::Print("User "@ + guesser.id + " guessed '"@ + line + "'"@),
            ]
        }),
{
}

} // verus!
