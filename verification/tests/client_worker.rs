//! A client, and a client together with its worker.

use word_guess::client_util::ClientInternalMessage as IMsg;
use word_guess::client_util::Command;
use word_guess::client_worker::ClientAction;
use word_guess::client_worker::ClientWorker;
use word_guess::protocol::ClientState;
use word_guess::protocol::GuessProtocol as Ptcl;
use word_guess::protocol::ReadError;
use word_guess::server::ServerState;
use word_guess::server_worker::ServerAction;
use word_guess::server_worker::ServerWorker;
use word_guess::util::InternalMessage;
use word_guess::util::Sender;

const INCORRECT: &str = "Incorrect server response";

fn client(id: &str) -> ClientWorker {
    match ClientWorker::new(Ok(Ptcl::ConnectionEstablished(id.to_string()))) {
        Ok(client) => client,
        Err(_) => panic!(),
    }
}

fn handle(client: &mut ClientWorker, msg: IMsg<Ptcl>) -> Vec<ClientAction> {
    assert!(client.can_handle(&msg));
    let mut actions = Vec::new();
    assert_eq!(client.handle_message(msg, &mut actions), Ok(()));
    actions
}

fn receive(client: &mut ClientWorker, message: Ptcl) -> Vec<ClientAction> {
    handle(client, IMsg::Network(Ok(message)))
}

fn enter(client: &mut ClientWorker, line: &str) -> Vec<ClientAction> {
    handle(client, IMsg::StdIn(line.to_string()))
}

fn print(line: &str) -> ClientAction {
    ClientAction::Print(line.to_string())
}

fn riddlemaker(word: &str) -> ClientState {
    ClientState::Riddlemaker(word.to_string())
}

fn established(id: &str, state: ClientState) -> Ptcl {
    Ptcl::OpponentConnectionEstablished(id.to_string(), state)
}

#[test]
fn test_client_checks_greeting() {
    assert_eq!(ClientWorker::check_greeting(Ok(Ptcl::ServerHello)), Ok(()));
    assert_eq!(ClientWorker::check_greeting(Ok(Ptcl::LogicError)), Err(INCORRECT));
    assert_eq!(ClientWorker::check_greeting(Err(ReadError::Io)), Err(INCORRECT));
    assert_eq!(ClientWorker::check_greeting(Err(ReadError::Malformed)), Err(INCORRECT));
}

#[test]
fn test_client_takes_assigned_id() {
    assert_eq!(client("7").id(), "7");
    assert_eq!(ClientWorker::new(Ok(Ptcl::ServerHello)).err(), Some(INCORRECT));
    assert_eq!(ClientWorker::new(Err(ReadError::Io)).err(), Some(INCORRECT));
    assert_eq!(ClientWorker::new(Err(ReadError::Malformed)).err(), Some(INCORRECT));
}

#[test]
fn test_handshake() {
    for (typed, admitted) in [("secret", true), ("guess", false)] {
        assert_eq!(ClientWorker::check_greeting(Ok(ServerWorker::greeting())), Ok(()));
        let answer = ClientWorker::password_message(typed.to_string());
        let mut store = ServerState::new(7);
        let mut actions = Vec::new();
        let tx = Sender { channel: 0 };
        let worker = ServerWorker::new(Ok(answer), "secret", &mut store, tx, &mut actions);
        assert_eq!(worker.is_ok(), admitted);
        assert_eq!(actions.is_empty(), !admitted);
        if let Some(ServerAction::Write(message)) = actions.pop() {
            match ClientWorker::new(Ok(message)) {
                Ok(client) => assert_eq!(client.id(), "7"),
                Err(_) => panic!(),
            }
        }
    }
}

#[test]
fn test_client_welcomes_user() {
    let mut actions = Vec::new();
    client("12").welcome(&mut actions);
    assert_eq!(
        actions,
        vec![
            print("You were assigned ID 12"),
            print("Available commands:\n\tlist - List available opponents\n\tconnect ID WORD - Connect to an opponent"),
        ]
    );
}

#[test]
fn test_debug_notation() {
    let mut client = client("1");
    match receive(&mut client, Ptcl::LogicError).pop() {
        Some(ClientAction::PrintDebug(message, opponent_id)) => {
            assert_eq!(format!("{:?}", (message, &opponent_id)), "(LogicError, None)")
        }
        _ => panic!(),
    }
    receive(&mut client, established("2", ClientState::Guesser));
    match receive(&mut client, established("3", riddlemaker("w"))).pop() {
        Some(ClientAction::PrintDebug(message, opponent_id)) => assert_eq!(
            format!("{:?}", (message, &opponent_id)),
            "(OpponentConnectionEstablished(\"3\", Riddlemaker(\"w\")), Some(\"2\"))"
        ),
        _ => panic!(),
    }
}

#[test]
fn test_client_reports_lost_connection() {
    let mut actions = Vec::new();
    let result = client("1").handle_message(IMsg::Error, &mut actions);
    assert_eq!(result, Err("Connection to server was lost"));
    assert_eq!(actions, vec![]);
}

#[test]
fn test_client_answers_unreadable_message() {
    assert_eq!(
        handle(&mut client("1"), IMsg::Network(Err(()))),
        vec![ClientAction::Write(Ptcl::UnrecognizedMessageError)]
    );
}

#[test]
fn test_commands() {
    let connect = |id: &str, word: &str| Command::Connect(id.to_string(), word.to_string());
    assert_eq!(Command::parse("list"), Command::List);
    assert_eq!(Command::parse("connect 8 word"), connect("8", "word"));
    assert_eq!(Command::parse("connect 8 more words"), connect("8", "more words"));
    assert_eq!(Command::parse("connect 8 "), connect("8", ""));
    assert_eq!(Command::parse("connect  word"), connect("", "word"));
    assert_eq!(Command::parse("connect   "), connect("", " "));
    let unrecognized = [
        "", " ", "list ", " list", "List", "connect", "connect ", "connect 8", "Connect 8 word",
        "connect8 word x", " connect 8 word", "connects 8 word",
    ];
    for line in unrecognized {
        assert_eq!(Command::parse(line), Command::Unrecognized);
    }
}

#[test]
fn test_free_client_sends_commands() {
    let mut client = client("1");
    assert_eq!(enter(&mut client, "list"), vec![ClientAction::Write(Ptcl::ClientListOpponents)]);
    assert_eq!(
        enter(&mut client, "connect 2 two words"),
        vec![ClientAction::Write(Ptcl::ClientSelectOpponent(
            "2".to_string(),
            "two words".to_string()
        ))]
    );
    assert_eq!(enter(&mut client, "help"), vec![print("unrecognized command")]);
}

#[test]
fn test_free_client_shows_messages() {
    let mut client = client("1");
    assert_eq!(
        receive(&mut client, Ptcl::ServerOpponentList(vec![])),
        vec![print("No available opponents")]
    );
    assert_eq!(
        receive(&mut client, Ptcl::ServerOpponentList(vec!["3".to_string(), "2".to_string()])),
        vec![print("Available opponents (2):"), print("3"), print("2")]
    );
    assert_eq!(
        receive(&mut client, Ptcl::OpponentConnectionNotEstablished("5".to_string())),
        vec![print("Connection to user 5 could not be established")]
    );
    for message in [
        Ptcl::LogicError,
        Ptcl::ServerWordFound,
        Ptcl::ServerOpponentDisconnected,
        Ptcl::ServerHello,
    ] {
        match &receive(&mut client, message)[..] {
            [ClientAction::PrintDebug(_, None)] => {}
            _ => panic!(),
        }
    }
    assert_eq!(
        receive(&mut client, Ptcl::ClientGuess("w".to_string())),
        vec![ClientAction::PrintDebug(Ptcl::ClientGuess("w".to_string()), None)]
    );
}

#[test]
fn test_riddlemaker_client() {
    let mut client = client("1");
    assert_eq!(
        receive(&mut client, established("2", riddlemaker("word"))),
        vec![print("You were connected to user 2 as a riddlemaker")]
    );
    assert_eq!(
        enter(&mut client, "list"),
        vec![ClientAction::Write(Ptcl::ClientHint("list".to_string()))]
    );
    assert_eq!(
        receive(&mut client, Ptcl::ClientGuess("wrong".to_string())),
        vec![print("User 2 guessed 'wrong'")]
    );
    assert_eq!(
        receive(&mut client, Ptcl::ServerOpponentList(vec![])),
        vec![ClientAction::PrintDebug(Ptcl::ServerOpponentList(vec![]), Some("2".to_string()))]
    );
    assert_eq!(
        receive(&mut client, Ptcl::ServerWordFound),
        vec![print("Opponent found the word!")]
    );
    assert_eq!(enter(&mut client, "list"), vec![ClientAction::Write(Ptcl::ClientListOpponents)]);
}

#[test]
fn test_guesser_client() {
    let mut client = client("2");
    assert_eq!(
        receive(&mut client, established("1", ClientState::Guesser)),
        vec![print("You were connected to user 1 as a guesser")]
    );
    assert_eq!(
        enter(&mut client, "connect 1 word"),
        vec![ClientAction::Write(Ptcl::ClientGuess("connect 1 word".to_string()))]
    );
    assert_eq!(
        receive(&mut client, Ptcl::ClientHint("five letters".to_string())),
        vec![print("User 1 hinted 'five letters'")]
    );
    assert_eq!(receive(&mut client, Ptcl::ServerWordFound), vec![print("You found the word!")]);
    assert_eq!(enter(&mut client, "word"), vec![print("unrecognized command")]);
}

#[test]
fn test_client_is_free_after_disconnection() {
    let mut client = client("2");
    receive(&mut client, established("1", ClientState::Guesser));
    assert_eq!(
        receive(&mut client, Ptcl::ServerOpponentDisconnected),
        vec![print("Opponent disconnected")]
    );
    assert_eq!(enter(&mut client, "list"), vec![ClientAction::Write(Ptcl::ClientListOpponents)]);
}

#[test]
fn test_client_reset_state() {
    let mut client = client("2");
    receive(&mut client, established("1", ClientState::Guesser));
    client.reset_state();
    assert_eq!(enter(&mut client, "list"), vec![ClientAction::Write(Ptcl::ClientListOpponents)]);
    assert_eq!(client.id(), "2");
}

#[test]
fn test_match_without_role_cannot_be_handled() {
    let mut client = client("2");
    let without_role = IMsg::Network(Ok(established("1", ClientState::Free)));
    assert!(!client.can_handle(&without_role));
    assert!(client.can_handle(&IMsg::Error));
    receive(&mut client, established("1", ClientState::Guesser));
    // In a game it is shown like any other message that is out of place
    assert!(client.can_handle(&without_role));
    assert_eq!(
        handle(&mut client, without_role),
        vec![ClientAction::PrintDebug(
            established("1", ClientState::Free),
            Some("1".to_string())
        )]
    );
}

#[test]
fn test_client_appends_to_actions() {
    let mut actions = vec![print("before")];
    let result = client("1").handle_message(IMsg::StdIn("list".to_string()), &mut actions);
    assert_eq!(result, Ok(()));
    assert_eq!(
        actions,
        vec![print("before"), ClientAction::Write(Ptcl::ClientListOpponents)]
    );
}

/// A player: the client, its worker and what the worker has yet to read.
struct Player {
    client: ClientWorker,
    worker: ServerWorker,
    inbox: Vec<InternalMessage<Ptcl>>,
    screen: Vec<String>,
}

fn player(store: &mut ServerState, channel: u64) -> Player {
    let mut actions = Vec::new();
    let reply = Ok(ClientWorker::password_message("pw".to_string()));
    let tx = Sender { channel };
    let worker = match ServerWorker::new(reply, "pw", store, tx, &mut actions) {
        Ok(worker) => worker,
        Err(_) => panic!(),
    };
    let client = match actions.pop() {
        Some(ServerAction::Write(message)) => match ClientWorker::new(Ok(message)) {
            Ok(client) => client,
            Err(_) => panic!(),
        },
        _ => panic!(),
    };
    Player { client, worker, inbox: Vec::new(), screen: Vec::new() }
}

/// Lets the player at `index` type a line, and runs everything that follows.
fn play(store: &mut ServerState, players: &mut [Player], index: usize, line: &str) {
    for action in enter(&mut players[index].client, line) {
        match action {
            ClientAction::Write(message) => {
                players[index].inbox.push(InternalMessage::Network(Ok(message)))
            }
            ClientAction::Print(text) => players[index].screen.push(text),
            ClientAction::PrintDebug(_, _) => panic!(),
        }
    }
    while let Some(at) = players.iter().position(|player| !player.inbox.is_empty()) {
        let msg = players[at].inbox.remove(0);
        let mut actions = Vec::new();
        assert_eq!(players[at].worker.handle_message(msg, store, &mut actions), Ok(()));
        for action in actions {
            match action {
                ServerAction::Send(tx, msg) => players[tx.channel as usize].inbox.push(msg),
                ServerAction::Write(message) => {
                    for shown in receive(&mut players[at].client, message) {
                        match shown {
                            ClientAction::Print(text) => players[at].screen.push(text),
                            _ => panic!(),
                        }
                    }
                }
            }
        }
    }
}

#[test]
fn test_whole_game() {
    let mut store = ServerState::new(1);
    let mut players = vec![player(&mut store, 0), player(&mut store, 1)];
    play(&mut store, &mut players, 0, "list");
    play(&mut store, &mut players, 0, "connect 2 the word");
    play(&mut store, &mut players, 1, "a word");
    play(&mut store, &mut players, 0, "not any");
    assert_eq!(players[0].worker.client_state(), &riddlemaker("the word"));
    assert_eq!(players[1].worker.client_state(), &ClientState::Guesser);
    play(&mut store, &mut players, 1, "the word");
    assert_eq!(
        players[0].screen,
        vec![
            "Available opponents (1):",
            "2",
            "You were connected to user 2 as a riddlemaker",
            "User 2 guessed 'a word'",
            "Opponent found the word!",
        ]
    );
    assert_eq!(
        players[1].screen,
        vec![
            "You were connected to user 1 as a guesser",
            "User 1 hinted 'not any'",
            "You found the word!",
        ]
    );
    // Both are free again, and the other can choose now
    play(&mut store, &mut players, 1, "connect 1 again");
    assert_eq!(players[0].worker.opponent_word(), Some("again"));
    assert_eq!(players[0].worker.client_state(), &ClientState::Guesser);
}
