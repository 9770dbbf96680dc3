//! Scenarios of a server with one to three clients.

use std::collections::VecDeque;
use word_guess::protocol::ClientState;
use word_guess::protocol::GuessProtocol as Ptcl;
use word_guess::protocol::ReadError;
use word_guess::server::ServerState;
use word_guess::server_worker::ServerAction;
use word_guess::server_worker::ServerWorker;
use word_guess::util::InternalMessage as IMsg;
use word_guess::util::Sender;

/// A worker with its joint channel and its connection. The channel of a worker
/// is named by its position.
struct ServerWorkerMockContext {
    worker: Result<ServerWorker, ()>,
    worker_rx: VecDeque<IMsg<Ptcl>>,
    client_r: VecDeque<Ptcl>,
    client_w: Vec<Ptcl>,
}

/// Does what a worker wants done.
fn perform(workers: &mut [ServerWorkerMockContext], index: usize, actions: Vec<ServerAction>) {
    for action in actions {
        match action {
            ServerAction::Write(message) => workers[index].client_w.push(message),
            ServerAction::Send(tx, message) => {
                workers[tx.channel as usize].worker_rx.push_back(message)
            }
        }
    }
}

/// Creates an empty store and initializes some number of workers.
fn initialize(
    password: &str,
    start_id: usize,
    passwords: Vec<&str>,
) -> (ServerState, Vec<ServerWorkerMockContext>) {
    let mut store = ServerState::new(start_id);
    let mut workers: Vec<ServerWorkerMockContext> = Vec::new();
    for (index, p) in passwords.into_iter().enumerate() {
        let mut client_r = VecDeque::new();
        client_r.push_back(Ptcl::ClientPassword(p.to_string()));
        let client_w = vec![ServerWorker::greeting()];
        let reply = client_r.pop_front().ok_or(ReadError::Io);
        let mut actions = Vec::new();
        let tx = Sender { channel: index as u64 };
        let worker = ServerWorker::new(reply, password, &mut store, tx, &mut actions);
        workers.push(ServerWorkerMockContext {
            worker,
            worker_rx: VecDeque::new(),
            client_r,
            client_w,
        });
        perform(&mut workers, index, actions);
    }
    (store, workers)
}

fn drain_queues(workers: &mut Vec<ServerWorkerMockContext>) -> Vec<Vec<Ptcl>> {
    workers.iter_mut().map(|w| w.client_w.drain(..).collect()).collect()
}

fn assert_queues_empty(workers: &Vec<ServerWorkerMockContext>) {
    for w in workers {
        assert!(w.client_r.is_empty());
        assert!(w.client_w.is_empty());
        assert!(w.worker_rx.is_empty());
    }
}

fn assert_workers_eq(
    workers: &Vec<ServerWorkerMockContext>,
    expected: Vec<Result<(&str, ClientState, Option<String>), ()>>,
) {
    assert_eq!(workers.len(), expected.len());
    for (w, e) in std::iter::zip(workers, expected) {
        match (&w.worker, e) {
            (Ok(w), Ok((id, state, oword))) => {
                assert_eq!(w.id(), id);
                assert_eq!(*w.client_state(), state);
                assert_eq!(w.opponent_word().map(|word| word.to_string()), oword);
            }
            (Err(_), Err(_)) => {}
            _ => panic!(),
        }
    }
}

fn assert_store_eq(store: &ServerState, expected: (usize, Vec<(&str, ClientState)>)) {
    assert_eq!(store.id_generator(), expected.0);
    assert_eq!(store.client_count(), expected.1.len());
    for (id, state) in expected.1 {
        assert_eq!(*store.client_state(id).unwrap(), state);
    }
}

fn handle_msg(
    store: &mut ServerState,
    workers: &mut Vec<ServerWorkerMockContext>,
    index: usize,
    msg: IMsg<Ptcl>,
) -> Result<(), ()> {
    let mut actions = Vec::new();
    let result = match &mut workers[index].worker {
        Ok(w) => w.handle_message(msg, store, &mut actions),
        _ => panic!(),
    };
    perform(workers, index, actions);
    result
}

/// The worker ends, and its client leaves the store.
fn disconnect(store: &mut ServerState, context: &mut ServerWorkerMockContext) {
    if let Ok(worker) = std::mem::replace(&mut context.worker, Err(())) {
        worker.drop(store);
    }
}

#[test]
fn test_can_establish_communication() {
    // Execute
    let (store, mut workers) = initialize("password", 7, vec!["password"]);

    // Drain communication queues
    let messages: Vec<Vec<Ptcl>> = drain_queues(&mut workers);

    // Test
    assert_queues_empty(&workers);
    assert_eq!(messages, vec![vec![Ptcl::ServerHello,
                                   Ptcl::ConnectionEstablished("7".to_string())]]);

    assert_workers_eq(&workers, vec![Ok(("7", ClientState::Free, None))]);
    assert_store_eq(&store, (8, vec![("7", ClientState::Free)]));
}

#[test]
fn test_rejects_invalid_password() {
    // Execute
    let (store, mut workers) = initialize("password", 7, vec!["not_password"]);

    // Drain communication queues
    let messages: Vec<Vec<Ptcl>> = drain_queues(&mut workers);

    // Test
    assert_queues_empty(&workers);
    assert_eq!(messages, vec![vec![Ptcl::ServerHello]]);
    assert_workers_eq(&workers, vec![Err(())]);
    assert_store_eq(&store, (7, vec![]));
}

#[test]
fn test_can_handle_disconnection() {
    // Prepare
    let (mut store, mut workers) = initialize("password", 7, vec!["password"]);

    // Execute
    disconnect(&mut store, &mut workers[0]);

    // Drain communication queues
    let messages: Vec<Vec<Ptcl>> = drain_queues(&mut workers);

    // Test
    assert_queues_empty(&workers);
    assert_eq!(messages, vec![vec![Ptcl::ServerHello,
                                   Ptcl::ConnectionEstablished("7".to_string())]]);
    assert_workers_eq(&workers, vec![Err(())]);
    assert_store_eq(&store, (8, vec![]));
}

#[test]
fn test_rejects_connection_nonexistent() {
    // Prepare
    let (mut store, mut workers) = initialize("password", 7, vec!["password"]);

    // Execute
    let r = handle_msg(&mut store, &mut workers, 0, IMsg::Network(Ok(
                                Ptcl::ClientSelectOpponent("404".to_string(),
                                                           "missing".to_string()))));

    // Drain communication queues
    let messages: Vec<Vec<Ptcl>> = drain_queues(&mut workers);

    // Test
    assert_eq!(r, Ok(()));
    assert_queues_empty(&workers);
    assert_eq!(messages, vec![vec![Ptcl::ServerHello,
                                   Ptcl::ConnectionEstablished("7".to_string()),
                                   Ptcl::OpponentConnectionNotEstablished("404".to_string())]]);
    assert_workers_eq(&workers, vec![Ok(("7", ClientState::Free, None))]);
    assert_store_eq(&store, (8, vec![("7", ClientState::Free)]));
}

#[test]
fn test_rejects_connection_self() {
    // Prepare
    let (mut store, mut workers) = initialize("password", 7, vec!["password"]);

    // Execute
    let r = handle_msg(&mut store, &mut workers, 0, IMsg::Network(Ok(
                                    Ptcl::ClientSelectOpponent("7".to_string(),
                                                               "self".to_string()))));

    // Drain communication queues
    let messages: Vec<Vec<Ptcl>> = drain_queues(&mut workers);

    // Test
    assert_eq!(r, Ok(()));
    assert_queues_empty(&workers);
    assert_eq!(messages, vec![vec![Ptcl::ServerHello,
                                   Ptcl::ConnectionEstablished("7".to_string()),
                                   Ptcl::OpponentConnectionNotEstablished("7".to_string())]]);
    assert_workers_eq(&workers, vec![Ok(("7", ClientState::Free, None))]);
    assert_store_eq(&store, (8, vec![("7", ClientState::Free)]));
}

#[test]
fn test_allows_game_start() {
    // Prepare
    let (mut store, mut workers) = initialize("password", 7, vec!["password", "password"]);

    // Execute
    let r1 = handle_msg(&mut store, &mut workers, 0, IMsg::Network(Ok(
                                    Ptcl::ClientSelectOpponent("8".to_string(),
                                                           "valid".to_string()))));
    let msg2 = workers[1].worker_rx.pop_front().unwrap();
    let r2 = handle_msg(&mut store, &mut workers, 1, msg2);

    // Drain communication queues
    let messages: Vec<Vec<Ptcl>> = drain_queues(&mut workers);

    // Test
    let state1 = ClientState::Riddlemaker("valid".to_string());
    let state2 = ClientState::Guesser;
    assert_eq!(r1, Ok(()));
    assert_eq!(r2, Ok(()));
    assert_queues_empty(&workers);
    assert_eq!(messages, vec![vec![Ptcl::ServerHello,
                                   Ptcl::ConnectionEstablished("7".to_string()),
                                   Ptcl::OpponentConnectionEstablished("8".to_string(), state1.clone())],
                              vec![Ptcl::ServerHello,
                                   Ptcl::ConnectionEstablished("8".to_string()),
                                   Ptcl::OpponentConnectionEstablished("7".to_string(), state2.clone())],]);
    assert_workers_eq(&workers, vec![Ok(("7", state1.clone(), None)),
                                     Ok(("8", state2.clone(), Some("valid".to_string())))]);
    assert_store_eq(&store, (9, vec![("7", state1.clone()), ("8", state2.clone())]));
}

#[test]
fn test_rejects_connection_busy() {
    // Prepare
    let (mut store, mut workers) = initialize("password", 7, vec!["password", "password", "password"]);

    // Execute
    let r1 = handle_msg(&mut store, &mut workers, 0, IMsg::Network(Ok(
                                    Ptcl::ClientSelectOpponent("8".to_string(),
                                                           "valid".to_string()))));
    let msg2 = workers[1].worker_rx.pop_front().unwrap();
    let r2 = handle_msg(&mut store, &mut workers, 1, msg2);
    let r3 = handle_msg(&mut store, &mut workers, 2, IMsg::Network(Ok(
                                    Ptcl::ClientSelectOpponent("7".to_string(),
                                                           "busy".to_string()))));

    // Drain communication queues
    let messages: Vec<Vec<Ptcl>> = drain_queues(&mut workers);

    // Test
    let state1 = ClientState::Riddlemaker("valid".to_string());
    let state2 = ClientState::Guesser;
    let state3 = ClientState::Free;
    assert_eq!(r1, Ok(()));
    assert_eq!(r2, Ok(()));
    assert_eq!(r3, Ok(()));
    assert_queues_empty(&workers);
    assert_eq!(messages, vec![vec![Ptcl::ServerHello,
                                   Ptcl::ConnectionEstablished("7".to_string()),
                                   Ptcl::OpponentConnectionEstablished("8".to_string(), state1.clone())],
                              vec![Ptcl::ServerHello,
                                   Ptcl::ConnectionEstablished("8".to_string()),
                                   Ptcl::OpponentConnectionEstablished("7".to_string(), state2.clone())],
                              vec![Ptcl::ServerHello,
                                   Ptcl::ConnectionEstablished("9".to_string()),
                                   Ptcl::OpponentConnectionNotEstablished("7".to_string())],]);
    assert_workers_eq(&workers, vec![Ok(("7", state1.clone(), None)),
                                     Ok(("8", state2.clone(), Some("valid".to_string()))),
                                     Ok(("9", state3.clone(), None)),]);
    assert_store_eq(&store, (10, vec![("7", state1.clone()), ("8", state2.clone()),
                                     ("9", state3.clone())]));
}

#[test]
fn test_handles_opponent_disconnection() {
    // Prepare
    let (mut store, mut workers) = initialize("password", 7, vec!["password", "password"]);

    // Execute
    let r1 = handle_msg(&mut store, &mut workers, 0, IMsg::Network(Ok(
                                    Ptcl::ClientSelectOpponent("8".to_string(),
                                                           "valid".to_string()))));
    let msg2 = workers[1].worker_rx.pop_front().unwrap();
    let r2 = handle_msg(&mut store, &mut workers, 1, msg2);
    let r3 = handle_msg(&mut store, &mut workers, 1, IMsg::Error);
    let msg4 = workers[0].worker_rx.pop_front().unwrap();
    let r4 = handle_msg(&mut store, &mut workers, 0, msg4);

    // Drain communication queues
    let messages: Vec<Vec<Ptcl>> = drain_queues(&mut workers);

    // Test
    let state1 = ClientState::Riddlemaker("valid".to_string());
    let state2 = ClientState::Guesser;
    let state3 = ClientState::Free;
    assert_eq!(r1, Ok(()));
    assert_eq!(r2, Ok(()));
    assert_eq!(r3, Err(()));
    assert_eq!(r4, Ok(()));
    assert_queues_empty(&workers);
    assert_eq!(messages, vec![vec![Ptcl::ServerHello,
                                   Ptcl::ConnectionEstablished("7".to_string()),
                                   Ptcl::OpponentConnectionEstablished("8".to_string(), state1.clone()),
                                   Ptcl::ServerOpponentDisconnected],
                              vec![Ptcl::ServerHello,
                                   Ptcl::ConnectionEstablished("8".to_string()),
                                   Ptcl::OpponentConnectionEstablished("7".to_string(), state2.clone())],]);
    assert_workers_eq(&workers, vec![Ok(("7", state3.clone(), None)),
                                     Ok(("8", state2.clone(), Some("valid".to_string()))),]);
    assert_store_eq(&store, (9, vec![("7", state3.clone()), ("8", state2.clone()),]));

    // Simulate worker[1] destruction after task terminates
    disconnect(&mut store, &mut workers[1]);

    // Test
    assert_workers_eq(&workers, vec![Ok(("7", state3.clone(), None)),
                                     Err(()),]);
    assert_store_eq(&store, (9, vec![("7", state3.clone()), ]));
}

#[test]
fn test_handles_hint() {
    // Prepare
    let (mut store, mut workers) = initialize("password", 7, vec!["password", "password"]);

    // Execute
    let r1 = handle_msg(&mut store, &mut workers, 0, IMsg::Network(Ok(
                                    Ptcl::ClientSelectOpponent("8".to_string(),
                                                           "valid".to_string()))));
    let msg2 = workers[1].worker_rx.pop_front().unwrap();
    let r2 = handle_msg(&mut store, &mut workers, 1, msg2);
    let r3 = handle_msg(&mut store, &mut workers, 0, IMsg::Network(Ok(
                                    Ptcl::ClientHint("correct".to_string()))));
    let msg4 = workers[1].worker_rx.pop_front().unwrap();
    let r4 = handle_msg(&mut store, &mut workers, 1, msg4);

    // Drain communication queues
    let messages: Vec<Vec<Ptcl>> = drain_queues(&mut workers);

    // Test
    let state1 = ClientState::Riddlemaker("valid".to_string());
    let state2 = ClientState::Guesser;
    assert_eq!(r1, Ok(()));
    assert_eq!(r2, Ok(()));
    assert_eq!(r3, Ok(()));
    assert_eq!(r4, Ok(()));
    assert_queues_empty(&workers);
    assert_eq!(messages, vec![vec![Ptcl::ServerHello,
                                   Ptcl::ConnectionEstablished("7".to_string()),
                                   Ptcl::OpponentConnectionEstablished("8".to_string(), state1.clone()),],
                              vec![Ptcl::ServerHello,
                                   Ptcl::ConnectionEstablished("8".to_string()),
                                   Ptcl::OpponentConnectionEstablished("7".to_string(), state2.clone()),
                                   Ptcl::ClientHint("correct".to_string())],]);
    assert_workers_eq(&workers, vec![Ok(("7", state1.clone(), None)),
                                     Ok(("8", state2.clone(), Some("valid".to_string()))),]);
    assert_store_eq(&store, (9, vec![("7", state1.clone()), ("8", state2.clone()),]));
}

#[test]
fn test_handles_incorrect_guess() {
    // Prepare
    let (mut store, mut workers) = initialize("password", 7, vec!["password", "password"]);

    // Execute
    let r1 = handle_msg(&mut store, &mut workers, 0, IMsg::Network(Ok(
                                    Ptcl::ClientSelectOpponent("8".to_string(),
                                                           "valid".to_string()))));
    let msg2 = workers[1].worker_rx.pop_front().unwrap();
    let r2 = handle_msg(&mut store, &mut workers, 1, msg2);
    let r3 = handle_msg(&mut store, &mut workers, 1, IMsg::Network(Ok(
                                    Ptcl::ClientGuess("incorrect".to_string()))));
    let msg4 = workers[0].worker_rx.pop_front().unwrap();
    let r4 = handle_msg(&mut store, &mut workers, 0, msg4);

    // Drain communication queues
    let messages: Vec<Vec<Ptcl>> = drain_queues(&mut workers);

    // Test
    let state1 = ClientState::Riddlemaker("valid".to_string());
    let state2 = ClientState::Guesser;
    assert_eq!(r1, Ok(()));
    assert_eq!(r2, Ok(()));
    assert_eq!(r3, Ok(()));
    assert_eq!(r4, Ok(()));
    assert_queues_empty(&workers);
    assert_eq!(messages, vec![vec![Ptcl::ServerHello,
                                   Ptcl::ConnectionEstablished("7".to_string()),
                                   Ptcl::OpponentConnectionEstablished("8".to_string(), state1.clone()),
                                   Ptcl::ClientGuess("incorrect".to_string())],
                              vec![Ptcl::ServerHello,
                                   Ptcl::ConnectionEstablished("8".to_string()),
                                   Ptcl::OpponentConnectionEstablished("7".to_string(), state2.clone())],]);
    assert_workers_eq(&workers, vec![Ok(("7", state1.clone(), None)),
                                     Ok(("8", state2.clone(), Some("valid".to_string()))),]);
    assert_store_eq(&store, (9, vec![("7", state1.clone()), ("8", state2.clone()),]));
}

#[test]
fn test_handles_correct_guess() {
    // Prepare
    let (mut store, mut workers) = initialize("password", 7, vec!["password", "password"]);

    // Execute
    let r1 = handle_msg(&mut store, &mut workers, 0, IMsg::Network(Ok(
                                    Ptcl::ClientSelectOpponent("8".to_string(),
                                                           "valid".to_string()))));
    let msg2 = workers[1].worker_rx.pop_front().unwrap();
    let r2 = handle_msg(&mut store, &mut workers, 1, msg2);
    let r3 = handle_msg(&mut store, &mut workers, 1, IMsg::Network(Ok(
                                    Ptcl::ClientGuess("valid".to_string()))));
    let msg4 = workers[0].worker_rx.pop_front().unwrap();
    let r4 = handle_msg(&mut store, &mut workers, 0, msg4);

    // Drain communication queues
    let messages: Vec<Vec<Ptcl>> = drain_queues(&mut workers);

    // Test
    let state1 = ClientState::Riddlemaker("valid".to_string());
    let state2 = ClientState::Guesser;
    let state3 = ClientState::Free;
    assert_eq!(r1, Ok(()));
    assert_eq!(r2, Ok(()));
    assert_eq!(r3, Ok(()));
    assert_eq!(r4, Ok(()));
    assert_queues_empty(&workers);
    assert_eq!(messages, vec![vec![Ptcl::ServerHello,
                                   Ptcl::ConnectionEstablished("7".to_string()),
                                   Ptcl::OpponentConnectionEstablished("8".to_string(), state1.clone()),
                                   Ptcl::ServerWordFound],
                              vec![Ptcl::ServerHello,
                                   Ptcl::ConnectionEstablished("8".to_string()),
                                   Ptcl::OpponentConnectionEstablished("7".to_string(), state2.clone()),
                                   Ptcl::ServerWordFound],]);
    assert_workers_eq(&workers, vec![Ok(("7", state3.clone(), None)),
                                     Ok(("8", state3.clone(), None)),]);
    assert_store_eq(&store, (9, vec![("7", state3.clone()), ("8", state3.clone()),]));
}

#[test]
fn test_handles_riddlemaker_guess() {
    // Prepare
    let (mut store, mut workers) = initialize("password", 7, vec!["password", "password"]);

    // Execute
    let r1 = handle_msg(&mut store, &mut workers, 0, IMsg::Network(Ok(
                                    Ptcl::ClientSelectOpponent("8".to_string(),
                                                           "valid".to_string()))));
    let msg2 = workers[1].worker_rx.pop_front().unwrap();
    let r2 = handle_msg(&mut store, &mut workers, 1, msg2);
    let r3 = handle_msg(&mut store, &mut workers, 0, IMsg::Network(Ok(
                                    Ptcl::ClientGuess("valid".to_string()))));

    // Drain communication queues
    let messages: Vec<Vec<Ptcl>> = drain_queues(&mut workers);

    // Test
    let state1 = ClientState::Riddlemaker("valid".to_string());
    let state2 = ClientState::Guesser;
    assert_eq!(r1, Ok(()));
    assert_eq!(r2, Ok(()));
    assert_eq!(r3, Ok(()));
    assert_queues_empty(&workers);
    assert_eq!(messages, vec![vec![Ptcl::ServerHello,
                                   Ptcl::ConnectionEstablished("7".to_string()),
                                   Ptcl::OpponentConnectionEstablished("8".to_string(), state1.clone()),
                                   Ptcl::LogicError],
                              vec![Ptcl::ServerHello,
                                   Ptcl::ConnectionEstablished("8".to_string()),
                                   Ptcl::OpponentConnectionEstablished("7".to_string(), state2.clone())],]);
    assert_workers_eq(&workers, vec![Ok(("7", state1.clone(), None)),
                                     Ok(("8", state2.clone(), Some("valid".to_string()))),]);
    assert_store_eq(&store, (9, vec![("7", state1.clone()), ("8", state2.clone()),]));
}

#[test]
fn test_handles_connection_after_game_ends() {
    // Prepare
    let (mut store, mut workers) = initialize("password", 7, vec!["password", "password"]);

    // Execute
    let r1 = handle_msg(&mut store, &mut workers, 0, IMsg::Network(Ok(
                                    Ptcl::ClientSelectOpponent("8".to_string(),
                                                           "valid".to_string()))));
    let msg2 = workers[1].worker_rx.pop_front().unwrap();
    let r2 = handle_msg(&mut store, &mut workers, 1, msg2);
    let r3 = handle_msg(&mut store, &mut workers, 1, IMsg::Network(Ok(
                                    Ptcl::ClientGuess("valid".to_string()))));
    let msg4 = workers[0].worker_rx.pop_front().unwrap();
    let r4 = handle_msg(&mut store, &mut workers, 0, msg4);
    let r5 = handle_msg(&mut store, &mut workers, 0, IMsg::Network(Ok(
                                    Ptcl::ClientSelectOpponent("8".to_string(),
                                                           "valid".to_string()))));
    let msg6 = workers[1].worker_rx.pop_front().unwrap();
    let r6 = handle_msg(&mut store, &mut workers, 1, msg6);

    // Drain communication queues
    let messages: Vec<Vec<Ptcl>> = drain_queues(&mut workers);

    // Test
    let state1 = ClientState::Riddlemaker("valid".to_string());
    let state2 = ClientState::Guesser;
    assert_eq!(r1, Ok(()));
    assert_eq!(r2, Ok(()));
    assert_eq!(r3, Ok(()));
    assert_eq!(r4, Ok(()));
    assert_eq!(r5, Ok(()));
    assert_eq!(r6, Ok(()));
    assert_queues_empty(&workers);
    assert_eq!(messages, vec![vec![Ptcl::ServerHello,
                                   Ptcl::ConnectionEstablished("7".to_string()),
                                   Ptcl::OpponentConnectionEstablished("8".to_string(), state1.clone()),
                                   Ptcl::ServerWordFound,
                                   Ptcl::OpponentConnectionEstablished("8".to_string(), state1.clone())],
                              vec![Ptcl::ServerHello,
                                   Ptcl::ConnectionEstablished("8".to_string()),
                                   Ptcl::OpponentConnectionEstablished("7".to_string(), state2.clone()),
                                   Ptcl::ServerWordFound,
                                   Ptcl::OpponentConnectionEstablished("7".to_string(), state2.clone()),],]);
    assert_workers_eq(&workers, vec![Ok(("7", state1.clone(), None)),
                                     Ok(("8", state2.clone(), Some("valid".to_string()))),]);
    assert_store_eq(&store, (9, vec![("7", state1.clone()), ("8", state2.clone()),]));
}

#[test]
fn test_handles_connection_before_game_ends() {
    // Prepare
    let (mut store, mut workers) = initialize("password", 7, vec!["password", "password", "password"]);

    // Execute
    let r1 = handle_msg(&mut store, &mut workers, 0, IMsg::Network(Ok(
                                    Ptcl::ClientSelectOpponent("8".to_string(),
                                                           "valid".to_string()))));
    let msg2 = workers[1].worker_rx.pop_front().unwrap();
    let r2 = handle_msg(&mut store, &mut workers, 1, msg2);
    let r3 = handle_msg(&mut store, &mut workers, 0, IMsg::Network(Ok(
                                    Ptcl::ClientSelectOpponent("9".to_string(),
                                                           "valid".to_string()))));

    // Drain communication queues
    let messages: Vec<Vec<Ptcl>> = drain_queues(&mut workers);

    // Test
    let state1 = ClientState::Riddlemaker("valid".to_string());
    let state2 = ClientState::Guesser;
    let state3 = ClientState::Free;
    assert_eq!(r1, Ok(()));
    assert_eq!(r2, Ok(()));
    assert_eq!(r3, Ok(()));
    //assert_queues_empty(&workers);
    assert_eq!(messages, vec![vec![Ptcl::ServerHello,
                                   Ptcl::ConnectionEstablished("7".to_string()),
                                   Ptcl::OpponentConnectionEstablished("8".to_string(), state1.clone()),
                                   Ptcl::LogicError],
                              vec![Ptcl::ServerHello,
                                   Ptcl::ConnectionEstablished("8".to_string()),
                                   Ptcl::OpponentConnectionEstablished("7".to_string(), state2.clone()),],
                              vec![Ptcl::ServerHello,
                                   Ptcl::ConnectionEstablished("9".to_string()),],]);
    assert_workers_eq(&workers, vec![Ok(("7", state1.clone(), None)),
                                     Ok(("8", state2.clone(), Some("valid".to_string()))),
                                     Ok(("9", state3.clone(), None))]);
    assert_store_eq(&store, (10, vec![("7", state1.clone()), ("8", state2.clone()),
                                     ("9", state3.clone()),]));
}

#[test]
fn test_handles_guess_without_opponent() {
    // Prepare
    let (mut store, mut workers) = initialize("password", 7, vec!["password"]);

    // Execute
    let r = handle_msg(&mut store, &mut workers, 0, IMsg::Network(Ok(
                                    Ptcl::ClientGuess("alone".to_string()))));

    // Drain communication queues
    let messages: Vec<Vec<Ptcl>> = drain_queues(&mut workers);

    // Test
    assert_eq!(r, Ok(()));
    assert_queues_empty(&workers);
    assert_eq!(messages, vec![vec![Ptcl::ServerHello,
                                   Ptcl::ConnectionEstablished("7".to_string()),
                                   Ptcl::LogicError]]);
    assert_workers_eq(&workers, vec![Ok(("7", ClientState::Free, None))]);
    assert_store_eq(&store, (8, vec![("7", ClientState::Free)]));
}

#[test]
fn test_handles_hint_without_opponent() {
    // Prepare
    let (mut store, mut workers) = initialize("password", 7, vec!["password"]);

    // Execute
    let r = handle_msg(&mut store, &mut workers, 0, IMsg::Network(Ok(
                                    Ptcl::ClientHint("alone".to_string()))));

    // Drain communication queues
    let messages: Vec<Vec<Ptcl>> = drain_queues(&mut workers);

    // Test
    assert_eq!(r, Ok(()));
    assert_queues_empty(&workers);
    assert_eq!(messages, vec![vec![Ptcl::ServerHello,
                                   Ptcl::ConnectionEstablished("7".to_string()),
                                   Ptcl::LogicError]]);
    assert_workers_eq(&workers, vec![Ok(("7", ClientState::Free, None))]);
    assert_store_eq(&store, (8, vec![("7", ClientState::Free)]));
}

/// Starts a match between the first two workers.
fn start_match(store: &mut ServerState, workers: &mut Vec<ServerWorkerMockContext>, word: &str) {
    let opponent = workers[1].worker.as_ref().unwrap_or_else(|_| panic!()).id().to_string();
    let select = Ptcl::ClientSelectOpponent(opponent, word.to_string());
    assert_eq!(handle_msg(store, workers, 0, IMsg::Network(Ok(select))), Ok(()));
    let assigned = workers[1].worker_rx.pop_front().unwrap();
    assert_eq!(handle_msg(store, workers, 1, assigned), Ok(()));
    drain_queues(workers);
}

#[test]
fn test_any_other_reply_is_refused() {
    let replies = vec![
        Err(ReadError::Io),
        Err(ReadError::Malformed),
        Ok(Ptcl::ServerHello),
        Ok(Ptcl::ClientGuess("password".to_string())),
        Ok(Ptcl::ClientPassword("".to_string())),
        Ok(Ptcl::ClientPassword("password ".to_string())),
        Ok(Ptcl::ClientPassword("Password".to_string())),
    ];
    for reply in replies {
        let mut store = ServerState::new(1);
        let mut actions = Vec::new();
        let tx = Sender { channel: 0 };
        assert!(ServerWorker::new(reply, "password", &mut store, tx, &mut actions).is_err());
        assert_eq!(actions, vec![]);
        assert_store_eq(&store, (1, vec![]));
    }
}

#[test]
fn test_new_appends_to_actions() {
    let mut store = ServerState::new(41);
    let mut actions = vec![ServerAction::Write(Ptcl::ServerHello)];
    let reply = Ok(Ptcl::ClientPassword("p".to_string()));
    let worker = ServerWorker::new(reply, "p", &mut store, Sender { channel: 3 }, &mut actions);
    assert!(worker.is_ok());
    assert_eq!(
        actions,
        vec![
            ServerAction::Write(Ptcl::ServerHello),
            ServerAction::Write(Ptcl::ConnectionEstablished("41".to_string())),
        ]
    );
}

#[test]
fn test_lists_free_opponents_only() {
    let (mut store, mut workers) = initialize("p", 9, vec!["p", "p", "p", "p", "p"]);
    start_match(&mut store, &mut workers, "word");
    let list = IMsg::Network(Ok(Ptcl::ClientListOpponents));
    assert_eq!(handle_msg(&mut store, &mut workers, 2, list), Ok(()));
    match workers[2].client_w.pop() {
        Some(Ptcl::ServerOpponentList(mut ids)) => {
            ids.sort();
            assert_eq!(ids, vec!["12".to_string(), "13".to_string()]);
        }
        _ => panic!(),
    }
    // A client in a game can ask too
    let list = IMsg::Network(Ok(Ptcl::ClientListOpponents));
    assert_eq!(handle_msg(&mut store, &mut workers, 0, list), Ok(()));
    match workers[0].client_w.pop() {
        Some(Ptcl::ServerOpponentList(mut ids)) => {
            ids.sort();
            assert_eq!(ids, vec!["11".to_string(), "12".to_string(), "13".to_string()]);
        }
        _ => panic!(),
    }
    assert_queues_empty(&workers);
}

#[test]
fn test_list_of_nobody() {
    let (mut store, mut workers) = initialize("p", 1, vec!["p"]);
    drain_queues(&mut workers);
    let list = IMsg::Network(Ok(Ptcl::ClientListOpponents));
    assert_eq!(handle_msg(&mut store, &mut workers, 0, list), Ok(()));
    assert_eq!(workers[0].client_w, vec![Ptcl::ServerOpponentList(vec![])]);
}

#[test]
fn test_every_listed_opponent_can_be_selected() {
    let (mut store, mut workers) = initialize("p", 1, vec!["p", "p", "p"]);
    drain_queues(&mut workers);
    for id in store.opponents("1") {
        let (mut store, mut workers) = initialize("p", 1, vec!["p", "p", "p"]);
        drain_queues(&mut workers);
        let select = Ptcl::ClientSelectOpponent(id.clone(), "w".to_string());
        assert_eq!(handle_msg(&mut store, &mut workers, 0, IMsg::Network(Ok(select))), Ok(()));
        let role = ClientState::Riddlemaker("w".to_string());
        assert_eq!(workers[0].client_w, vec![Ptcl::OpponentConnectionEstablished(id, role)]);
    }
    store.remove("2");
    assert_eq!(store.opponents("1"), vec!["3".to_string()]);
}

#[test]
fn test_id_is_compared_as_text() {
    let (mut store, mut workers) = initialize("p", 7, vec!["p", "p"]);
    drain_queues(&mut workers);
    for id in ["08", "+8", " 8", ""] {
        let select = Ptcl::ClientSelectOpponent(id.to_string(), "w".to_string());
        assert_eq!(handle_msg(&mut store, &mut workers, 0, IMsg::Network(Ok(select))), Ok(()));
        let messages = drain_queues(&mut workers);
        let refusal = Ptcl::OpponentConnectionNotEstablished(id.to_string());
        assert_eq!(messages, vec![vec![refusal], vec![]]);
    }
    assert_queues_empty(&workers);
}

#[test]
fn test_unreadable_message_is_answered() {
    let (mut store, mut workers) = initialize("p", 1, vec!["p", "p"]);
    start_match(&mut store, &mut workers, "word");
    for index in 0..2 {
        let r = handle_msg(&mut store, &mut workers, index, IMsg::Network(Err(())));
        assert_eq!(r, Ok(()));
        assert_eq!(workers[index].client_w.pop(), Some(Ptcl::UnrecognizedMessageError));
    }
    assert_queues_empty(&workers);
    let role = ClientState::Riddlemaker("word".to_string());
    assert_store_eq(&store, (3, vec![("1", role), ("2", ClientState::Guesser)]));
}

#[test]
fn test_unexpected_messages_are_logic_errors() {
    let (mut store, mut workers) = initialize("p", 1, vec!["p", "p"]);
    start_match(&mut store, &mut workers, "word");
    let unexpected = vec![
        (0, Ptcl::ClientGuess("word".to_string())),
        (0, Ptcl::ClientSelectOpponent("2".to_string(), "w".to_string())),
        (1, Ptcl::ClientHint("hint".to_string())),
        (1, Ptcl::ClientSelectOpponent("1".to_string(), "w".to_string())),
        (0, Ptcl::ServerHello),
        (1, Ptcl::ClientPassword("p".to_string())),
        (1, Ptcl::ServerWordFound),
        (0, Ptcl::LogicError),
    ];
    for (index, message) in unexpected {
        let r = handle_msg(&mut store, &mut workers, index, IMsg::Network(Ok(message)));
        assert_eq!(r, Ok(()));
        assert_eq!(workers[index].client_w.pop(), Some(Ptcl::LogicError));
        assert_queues_empty(&workers);
    }
}

#[test]
fn test_assignment_of_busy_client_is_ignored() {
    let (mut store, mut workers) = initialize("p", 1, vec!["p", "p"]);
    start_match(&mut store, &mut workers, "word");
    let tx = Sender { channel: 0 };
    let assigned = IMsg::OpponentAssigned(tx, "1".to_string(), "other".to_string());
    assert_eq!(handle_msg(&mut store, &mut workers, 1, assigned), Ok(()));
    assert_queues_empty(&workers);
    assert_workers_eq(
        &workers,
        vec![
            Ok(("1", ClientState::Riddlemaker("word".to_string()), None)),
            Ok(("2", ClientState::Guesser, Some("word".to_string()))),
        ],
    );
}

#[test]
fn test_typed_line_means_nothing_to_server() {
    let (mut store, mut workers) = initialize("p", 1, vec!["p"]);
    drain_queues(&mut workers);
    let line = IMsg::StdIn("list".to_string());
    assert_eq!(handle_msg(&mut store, &mut workers, 0, line), Ok(()));
    assert_queues_empty(&workers);
}

#[test]
fn test_lost_connection_without_opponent() {
    let (mut store, mut workers) = initialize("p", 1, vec!["p"]);
    drain_queues(&mut workers);
    assert_eq!(handle_msg(&mut store, &mut workers, 0, IMsg::Error), Err(()));
    assert_queues_empty(&workers);
    assert_store_eq(&store, (2, vec![("1", ClientState::Free)]));
}

#[test]
fn test_riddlemaker_disconnection() {
    let (mut store, mut workers) = initialize("p", 1, vec!["p", "p"]);
    start_match(&mut store, &mut workers, "word");
    assert_eq!(handle_msg(&mut store, &mut workers, 0, IMsg::Error), Err(()));
    // The worker is gone before the other hears of it
    disconnect(&mut store, &mut workers[0]);
    let told = workers[1].worker_rx.pop_front().unwrap();
    assert_eq!(told, IMsg::OpponentDisconnected);
    assert_eq!(handle_msg(&mut store, &mut workers, 1, told), Ok(()));
    assert_eq!(workers[1].client_w.pop(), Some(Ptcl::ServerOpponentDisconnected));
    assert_workers_eq(&workers, vec![Err(()), Ok(("2", ClientState::Free, None))]);
    assert_store_eq(&store, (3, vec![("2", ClientState::Free)]));
}

#[test]
fn test_ids_are_not_reused() {
    let mut store = ServerState::new(1);
    let tx = Sender { channel: 0 };
    assert_eq!(store.register(tx), "1");
    assert_eq!(store.register(tx), "2");
    store.remove("2");
    store.remove("1");
    assert_eq!(store.register(tx), "3");
    assert_store_eq(&store, (4, vec![("3", ClientState::Free)]));
}

#[test]
fn test_store_ignores_unknown_ids() {
    let mut store = ServerState::new(1);
    let tx = Sender { channel: 5 };
    assert_eq!(store.register(tx), "1");
    store.set_state("2", ClientState::Guesser);
    store.remove("2");
    assert_store_eq(&store, (2, vec![("1", ClientState::Free)]));
    assert_eq!(store.free_opponent("2", "1"), Some(tx));
    assert_eq!(store.free_opponent("1", "1"), None);
    assert_eq!(store.free_opponent("1", "2"), None);
    store.set_state("1", ClientState::Guesser);
    assert_eq!(store.free_opponent("2", "1"), None);
    assert_eq!(store.client_state("1"), Some(&ClientState::Guesser));
    assert_eq!(store.client_state("2"), None);
}

#[test]
fn test_reset_state_frees_worker_and_store() {
    let (mut store, mut workers) = initialize("p", 1, vec!["p", "p"]);
    start_match(&mut store, &mut workers, "word");
    if let Ok(worker) = &mut workers[1].worker {
        worker.reset_state(&mut store);
    }
    let role = ClientState::Riddlemaker("word".to_string());
    assert_workers_eq(
        &workers,
        vec![Ok(("1", role.clone(), None)), Ok(("2", ClientState::Free, None))],
    );
    assert_store_eq(&store, (3, vec![("1", role), ("2", ClientState::Free)]));
}

#[test]
fn test_guess_differs_only_by_the_word() {
    // What the guesser sees at the start does not depend on the word
    let mut seen = Vec::new();
    for word in ["first", "second"] {
        let (mut store, mut workers) = initialize("p", 1, vec!["p", "p"]);
        drain_queues(&mut workers);
        let select = Ptcl::ClientSelectOpponent("2".to_string(), word.to_string());
        assert_eq!(handle_msg(&mut store, &mut workers, 0, IMsg::Network(Ok(select))), Ok(()));
        let assigned = workers[1].worker_rx.pop_front().unwrap();
        assert_eq!(handle_msg(&mut store, &mut workers, 1, assigned), Ok(()));
        let guess = IMsg::Network(Ok(Ptcl::ClientGuess("third".to_string())));
        assert_eq!(handle_msg(&mut store, &mut workers, 1, guess), Ok(()));
        seen.push(drain_queues(&mut workers).pop());
    }
    assert_eq!(seen[0], seen[1]);
}

#[test]
fn test_store_is_ahead_of_guesser() {
    let (mut store, mut workers) = initialize("p", 1, vec!["p", "p", "p"]);
    drain_queues(&mut workers);
    let select = Ptcl::ClientSelectOpponent("2".to_string(), "w".to_string());
    assert_eq!(handle_msg(&mut store, &mut workers, 0, IMsg::Network(Ok(select))), Ok(()));
    // The guesser has yet to hear of the match, but nobody else can have it
    let role = ClientState::Riddlemaker("w".to_string());
    assert_workers_eq(
        &workers,
        vec![
            Ok(("1", role.clone(), None)),
            Ok(("2", ClientState::Free, None)),
            Ok(("3", ClientState::Free, None)),
        ],
    );
    let states = vec![("1", role), ("2", ClientState::Guesser), ("3", ClientState::Free)];
    assert_store_eq(&store, (4, states));
    assert_eq!(store.opponents("3"), Vec::<String>::new());
}

#[test]
fn test_match_is_not_disturbed() {
    let (mut store, mut workers) = initialize("p", 1, vec!["p", "p", "p", "p"]);
    start_match(&mut store, &mut workers, "word");
    for message in [
        Ptcl::ClientSelectOpponent("1".to_string(), "w".to_string()),
        Ptcl::ClientSelectOpponent("2".to_string(), "w".to_string()),
        Ptcl::ClientSelectOpponent("4".to_string(), "w".to_string()),
        Ptcl::ClientGuess("word".to_string()),
    ] {
        let r = handle_msg(&mut store, &mut workers, 2, IMsg::Network(Ok(message)));
        assert_eq!(r, Ok(()));
    }
    disconnect(&mut store, &mut workers[2]);
    assert_eq!(store.register(Sender { channel: 9 }), "5");
    let role = ClientState::Riddlemaker("word".to_string());
    assert_eq!(store.client_state("1"), Some(&role));
    assert_eq!(store.client_state("2"), Some(&ClientState::Guesser));
    drain_queues(&mut workers);
    let hint = IMsg::Network(Ok(Ptcl::ClientHint("hint".to_string())));
    assert_eq!(handle_msg(&mut store, &mut workers, 0, hint), Ok(()));
    let passed = workers[1].worker_rx.pop_front().unwrap();
    assert_eq!(passed, IMsg::Opponent(Ptcl::ClientHint("hint".to_string())));
}

#[test]
fn test_end_of_match_twice() {
    for message in ["found", "gone"] {
        let (mut store, mut workers) = initialize("p", 1, vec!["p", "p"]);
        start_match(&mut store, &mut workers, "word");
        for _ in 0..2 {
            let end = if message == "found" { IMsg::WordFound } else { IMsg::OpponentDisconnected };
            assert_eq!(handle_msg(&mut store, &mut workers, 1, end), Ok(()));
            assert_eq!(store.client_state("2"), Some(&ClientState::Free));
            match &workers[1].worker {
                Ok(worker) => assert_eq!(worker.client_state(), &ClientState::Free),
                Err(_) => panic!(),
            }
        }
    }
}

#[test]
fn test_new_client_can_be_played() {
    let mut store = ServerState::new(1);
    let first = Sender { channel: 1 };
    let second = Sender { channel: 2 };
    assert_eq!(store.register(first), "1");
    assert_eq!(store.register(second), "2");
    // Either can choose the other
    assert_eq!(store.free_opponent("1", "2"), Some(second));
    assert_eq!(store.free_opponent("2", "1"), Some(first));
    store.remove("2");
    store.remove("2");
    assert_eq!(store.free_opponent("1", "2"), None);
    assert_eq!(store.client_count(), 1);
}
