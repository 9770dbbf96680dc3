//! Named arguments and network listeners.

use word_guess::client_util::ClientInternalMessage;
use word_guess::protocol::GuessProtocol;
use word_guess::protocol::ReadError;
use word_guess::server_util::ServerInternalMessage;
use word_guess::util::find_arg;
use word_guess::util::parse_arg;
use word_guess::util::InternalMessage;

fn arg_set_1() -> Vec<String> {
    vec!["--received-option".to_string(), "value1".to_string(),
         "--different-received-option".to_string(), "value2".to_string(),
         "--last-received-option".to_string(), "value3".to_string()]
}
fn arg_set_2() -> Vec<String> {
    vec!["--received-option".to_string(), "--different-received-option".to_string(),
         "--different-received-option".to_string(), "value2".to_string(),
         "--last-received-option".to_string(), "value3".to_string()]
}
fn empty() -> Vec<&'static str> { vec![] }
fn accepted_options() -> Vec<&'static str> {
    vec!["--received-option", "--different-received-option", "--last-received-option"]
}

#[test]
fn test_parse_arg_doesnt_find_missing() {
    assert_eq!(parse_arg::<String>("--searched-option", &arg_set_1(), &empty()),
               None);
}

#[test]
fn test_parse_arg_finds_only() {
    let args = vec!["--received-option".to_string(), "value".to_string()];

    assert_eq!(parse_arg::<String>("--received-option", &args, &empty()),
               Some("value".to_string()));
}

#[test]
fn test_parse_arg_finds_first() {
    assert_eq!(parse_arg::<String>("--received-option", &arg_set_1(), &empty()),
               Some("value1".to_string()));
}

#[test]
fn test_parse_arg_finds_mid() {
    assert_eq!(parse_arg::<String>("--different-received-option", &arg_set_1(), &empty()),
               Some("value2".to_string()));
}

#[test]
fn test_parse_arg_finds_last() {
    assert_eq!(parse_arg::<String>("--last-received-option", &arg_set_1(), &empty()),
               Some("value3".to_string()));
}

#[test]
fn test_parse_arg_finds_tricky() {
    assert_eq!(parse_arg::<String>("--different-received-option",
                                   &arg_set_2(), &accepted_options()),
               Some("value2".to_string()));
}

fn args(texts: &[&str]) -> Vec<String> {
    texts.iter().map(|text| text.to_string()).collect()
}

#[test]
fn test_parse_arg_without_value() {
    assert_eq!(parse_arg::<String>("--a", &args(&["x", "--a"]), &["--a"]), None);
    assert_eq!(parse_arg::<String>("--a", &args(&["--b"]), &["--a", "--b"]), None);
    assert_eq!(parse_arg::<String>("--a", &args(&[]), &["--a"]), None);
}

#[test]
fn test_parse_arg_takes_first_occurrence() {
    let given = args(&["--a", "1", "--a", "2"]);
    assert_eq!(parse_arg::<String>("--a", &given, &["--a"]), Some("1".to_string()));
    // The value may look like a name
    let given = args(&["--a", "--a", "2"]);
    assert_eq!(parse_arg::<String>("--a", &given, &["--a"]), Some("--a".to_string()));
}

#[test]
fn test_parse_arg_passes_over_unknown_arguments() {
    let given = args(&["program", "--unknown", "--a", "1", "--b", "2"]);
    assert_eq!(parse_arg::<String>("--a", &given, &["--a", "--b"]), Some("1".to_string()));
}

#[test]
fn test_parse_arg_passes_over_values() {
    let given = args(&["--b", "--a", "1", "--a", "2"]);
    assert_eq!(parse_arg::<String>("--a", &given, &["--a", "--b"]), Some("2".to_string()));
    assert_eq!(parse_arg::<String>("--a", &given, &["--a"]), Some("1".to_string()));
}

#[test]
fn test_parse_arg_goes_on_with_rest() {
    let options = ["--a", "--b"];
    // A known argument is passed over together with its value
    let given = args(&["--b", "--a", "x", "--a", "1"]);
    let found = parse_arg::<String>("--a", &given, &options);
    assert_eq!(found, Some("1".to_string()));
    assert_eq!(found, parse_arg::<String>("--a", &given[2..], &options));
    assert_eq!(parse_arg::<String>("--a", &given[1..], &options), Some("x".to_string()));
    // Anything else alone
    let given = args(&["word", "--a", "1"]);
    let found = parse_arg::<String>("--a", &given, &options);
    assert_eq!(found, Some("1".to_string()));
    assert_eq!(found, parse_arg::<String>("--a", &given[1..], &options));
    // A known argument without a value
    assert_eq!(parse_arg::<u16>("--a", &args(&["--b"]), &options), None);
    assert_eq!(parse_arg::<u16>("--a", &args(&[]), &options), None);
}

#[test]
fn test_parse_arg_order_of_options() {
    let given = args(&["--b", "--a", "--c", "--a", "--a", "7"]);
    let expected = Some(7u16);
    assert_eq!(parse_arg::<u16>("--a", &given, &["--a", "--b", "--c"]), expected);
    assert_eq!(parse_arg::<u16>("--a", &given, &["--c", "--b"]), expected);
    assert_eq!(parse_arg::<u16>("--a", &given, &["--b", "--c", "--b", "--a", "--a"]), expected);
    assert_eq!(parse_arg::<u16>("--a", &given, &["--b"]), None);
}

#[test]
fn test_parse_arg_with_more_arguments() {
    let given = args(&["--b", "x", "--a", "7"]);
    assert_eq!(parse_arg::<u16>("--a", &given, &["--a", "--b"]), Some(7));
    for more in [vec!["--a", "8"], vec!["--b"], vec!["--a"], vec!["9", "--b", "--a", "8"]] {
        let mut longer = given.clone();
        longer.extend(args(&more));
        assert_eq!(parse_arg::<u16>("--a", &longer, &["--a", "--b"]), Some(7));
    }
}

#[test]
fn test_parse_arg_reads_numbers() {
    let cases: Vec<(&str, Option<u16>)> = vec![
        ("0", Some(0)),
        ("8080", Some(8080)),
        ("+8080", Some(8080)),
        ("0000000008080", Some(8080)),
        ("65535", Some(65535)),
        ("65536", None),
        ("99999999999999999999", None),
        ("", None),
        ("+", None),
        ("++1", None),
        ("-1", None),
        ("1 ", None),
        (" 1", None),
        ("1_0", None),
        ("0x10", None),
        ("port", None),
        ("\u{0661}", None),
    ];
    for (text, expected) in cases {
        assert_eq!(parse_arg::<u16>("--port", &args(&["--port", text]), &["--port"]), expected);
        assert_eq!(text.parse::<u16>().ok(), expected);
    }
}

#[test]
fn test_find_arg_gives_text() {
    let given = args(&["program", "--a", "text"]);
    assert_eq!(find_arg("--a", &given, &["--a"]), Some("text"));
    assert_eq!(find_arg("--b", &given, &["--a"]), None);
}

#[test]
fn test_listener_reports_messages() {
    let message = GuessProtocol::ClientListOpponents;
    let (report, go_on) = InternalMessage::on_read(Ok(message));
    assert_eq!(report, InternalMessage::Network(Ok(GuessProtocol::ClientListOpponents)));
    assert!(go_on);
    assert_eq!(
        ClientInternalMessage::on_read(Ok(1)),
        (ClientInternalMessage::Network(Ok(1)), true)
    );
    assert_eq!(
        ServerInternalMessage::on_read(Ok(1)),
        (ServerInternalMessage::Network(Ok(1)), true)
    );
}

#[test]
fn test_listener_survives_what_is_no_message() {
    let read: Result<u8, ReadError> = Err(ReadError::Malformed);
    assert_eq!(InternalMessage::on_read(read), (InternalMessage::Network(Err(())), true));
    assert_eq!(
        ClientInternalMessage::on_read(read),
        (ClientInternalMessage::Network(Err(())), true)
    );
    assert_eq!(
        ServerInternalMessage::on_read(read),
        (ServerInternalMessage::Network(Err(())), true)
    );
}

#[test]
fn test_listener_ends_with_connection() {
    let read: Result<u8, ReadError> = Err(ReadError::Io);
    assert_eq!(InternalMessage::on_read(read), (InternalMessage::Error, false));
    assert_eq!(ClientInternalMessage::on_read(read), (ClientInternalMessage::Error, false));
    assert_eq!(ServerInternalMessage::on_read(read), (ServerInternalMessage::Error, false));
}
