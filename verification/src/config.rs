//! What the arguments of the two programs ask for.

use vstd::prelude::*;
use crate::util::parse_arg;

verus! {

/// Where a client finds its server.
#[derive(Debug, PartialEq)]
pub enum Destination {
    /// An address and a port.
    Tcp(String),
    /// The path of a socket.
    UnixSocket(String),
}

/// The arguments that a client knows.
pub open spec fn client_options() -> Seq<&'static str> {
    seq!["--tcp-address", "--unix-socket-path"]
}

/// Whether `destination` is what the arguments of a client ask for.
pub open spec fn is_destination(
    args: Seq<String>,
    destination: Result<Destination, &'static str>,
) -> bool {
    match (
        crate::util::given_value("--tcp-address"@, args, client_options()),
        crate::util::given_value("--unix-socket-path"@, args, client_options()),
    ) {
        (Some(address), None) => destination matches Ok(Destination::Tcp(given)) && given@
            == address,
        (None, Some(path)) => destination matches Ok(Destination::UnixSocket(given)) && given@
            == path,
        _ => destination matches Err(text) && text@
            == "Exactly one destination must be provided (`--tcp-address ADDRESS:PORT` or `--unix-socket-path PATH`, not both)."@,
    }
}

/// A client goes where the one destination that is given says, over TCP or over
/// a socket. If both are given, or neither, it goes nowhere.
pub proof fn law_destination(args: Seq<String>, destination: Result<Destination, &'static str>)
    requires
        is_destination(args, destination),
    ensures
        ({
            let options = seq!["--tcp-address", "--unix-socket-path"];
            let address = crate::util::given_value("--tcp-address"@, args, options);
            let path = crate::util::given_value("--unix-socket-path"@, args, options);
            &&& address is Some && path is None ==> {
                &&& destination is Ok
                &&& destination->Ok_0 is Tcp
                &&& destination->Ok_0->Tcp_0@ == address->Some_0
            }
            &&& address is None && path is Some ==> {
                &&& destination is Ok
                &&& destination->Ok_0 is UnixSocket
                &&& destination->Ok_0->UnixSocket_0@ == path->Some_0
            }
            &&& (address is Some <==> path is Some) ==> {
                &&& destination is Err
                &&& destination->Err_0@
                    == "Exactly one destination must be provided (`--tcp-address ADDRESS:PORT` or `--unix-socket-path PATH`, not both)."@
            }
        }),
{
}

/// Reads the arguments of a client: exactly one destination has to be there.
pub fn client_destination(args: &[String]) -> (destination: Result<Destination, &'static str>)
    ensures
        is_destination(args@, destination),
{
    let options: [&str; 2] = ["--tcp-address", "--unix-socket-path"];
    assert(options@ =~= client_options());
    let tcp_address: Option<String> = parse_arg("--tcp-address", args, &options);
    let unix_socket_path: Option<String> = parse_arg("--unix-socket-path", args, &options);
    match (tcp_address, unix_socket_path) {
        (Some(address), None) => Ok(Destination::Tcp(address)),
        (None, Some(path)) => Ok(Destination::UnixSocket(path)),
        _ => Err(
            "Exactly one destination must be provided (`--tcp-address ADDRESS:PORT` or `--unix-socket-path PATH`, not both).",
        ),
    }
}

/// How a server is to be reached.
#[derive(Debug, PartialEq)]
pub struct ServerConfig {
    /// What a client has to know to be let in.
    pub password: String,
    pub tcp_port: Option<u16>,
    pub unix_socket_path: Option<String>,
}

/// What the arguments of a server lack.
#[derive(Clone, Copy, Debug, PartialEq, Eq, Structural)]
pub enum ConfigError {
    NoPassword,
    NoListener,
}

/// The arguments that a server knows.
pub open spec fn server_options() -> Seq<&'static str> {
    seq!["--server-password", "--tcp-port", "--unix-socket-path"]
}

/// The port that `--tcp-port` names. What is no port counts as nothing.
pub open spec fn port_argument(args: Seq<String>) -> Option<nat> {
    match crate::util::given_value("--tcp-port"@, args, server_options()) {
        Some(text) => match crate::text::unsigned_value(text) {
            Some(port) if port <= u16::MAX => Some(port),
            _ => None,
        },
        None => None,
    }
}

/// Whether `config` is what the arguments of a server ask for.
pub open spec fn is_server_config(
    args: Seq<String>,
    config: Result<ServerConfig, ConfigError>,
) -> bool {
    let password = crate::util::given_value("--server-password"@, args, server_options());
    let port = port_argument(args);
    let path = crate::util::given_value("--unix-socket-path"@, args, server_options());
    match config {
        Ok(config) => {
            &&& password == Some(config.password@)
            &&& port == (match config.tcp_port {
                Some(port) => Some(port as nat),
                None => None,
            })
            &&& path == (match config.unix_socket_path {
                Some(path) => Some(path@),
                None => None,
            })
            &&& port is Some || path is Some
        },
        Err(ConfigError::NoPassword) => password is None,
        Err(ConfigError::NoListener) => password is Some && port is None && path is None,
    }
}

/// A server without a password is refused. One with a password listens on the
/// port that can be read from `--tcp-port`, at the path that is given by
/// `--unix-socket-path`, or both; if there is neither, it is refused.
pub proof fn law_server_config(
    args: Seq<String>,
    config: Result<ServerConfig, ConfigError>,
    port: Option<u16>,
)
    requires
        is_server_config(args, config),
        crate::util::is_parsed::<u16>(
            "--tcp-port"@,
            args,
            seq!["--server-password", "--tcp-port", "--unix-socket-path"],
            port,
        ),
    ensures
        ({
            let options = seq!["--server-password", "--tcp-port", "--unix-socket-path"];
            let password = crate::util::given_value("--server-password"@, args, options);
            let path = crate::util::given_value("--unix-socket-path"@, args, options);
            &&& password is None ==> config == Err::<ServerConfig, ConfigError>(
                ConfigError::NoPassword,
            )
            &&& password is Some && port is None && path is None ==> config == Err::<
                ServerConfig,
                ConfigError,
            >(ConfigError::NoListener)
            &&& password is Some && (port is Some || path is Some) ==> {
                &&& config is Ok
                &&& config->Ok_0.password@ == password->Some_0
                &&& config->Ok_0.tcp_port == port
                &&& config->Ok_0.unix_socket_path is Some <==> path is Some
                &&& path is Some ==> config->Ok_0.unix_socket_path->Some_0@ == path->Some_0
            }
        }),
{
}

/// Every port can be asked for: a server with a password that is given a number
/// of at most 65535 in decimal listens on that port.
pub proof fn law_every_port_can_be_given(
    args: Seq<String>,
    config: Result<ServerConfig, ConfigError>,
    password: Seq<char>,
    n: nat,
)
    requires
        is_server_config(args, config),
        n <= 65535,
        crate::util::given_value(
            "--server-password"@,
            args,
            seq!["--server-password", "--tcp-port", "--unix-socket-path"],
        ) == Some(password),
        crate::util::given_value(
            "--tcp-port"@,
            args,
            seq!["--server-password", "--tcp-port", "--unix-socket-path"],
        ) == Some(crate::text::decimal(n)),
    ensures
        config is Ok,
        config->Ok_0.password@ == password,
        config->Ok_0.tcp_port == Some(n as u16),
{
    crate::text::law_decimal_read_back(n);
}

/// Reads the arguments of a server: a password, and at least one of a port and
/// the path of a socket.
pub fn server_config(args: &[String]) -> (config: Result<ServerConfig, ConfigError>)
    ensures
        is_server_config(args@, config),
{
    let options: [&str; 3] = ["--server-password", "--tcp-port", "--unix-socket-path"];
    assert(options@ =~= server_options());
    let password: Option<String> = parse_arg("--server-password", args, &options);
    let tcp_port: Option<u16> = parse_arg("--tcp-port", args, &options);
    let unix_socket_path: Option<String> = parse_arg("--unix-socket-path", args, &options);
    match password {
        None => Err(ConfigError::NoPassword),
        Some(password) => {
            if tcp_port.is_none() && unix_socket_path.is_none() {
                Err(ConfigError::NoListener)
            } else {
                Ok(ServerConfig { password, tcp_port, unix_socket_path })
            }
        },
    }
}

} // verus!
