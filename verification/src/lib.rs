//! A word guessing game for two players who meet on a server.

pub mod client_handshake;
pub mod client_laws;
pub mod client_util;
pub mod client_worker;
pub mod config;
pub mod laws;
pub mod protocol;
pub mod server;
pub mod server_handshake;
pub mod server_laws;
pub mod server_util;
pub mod server_worker;
pub mod system;
pub mod text;
pub mod util;
