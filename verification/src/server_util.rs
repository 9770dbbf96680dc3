//! The messages between the tasks of a server.

use vstd::prelude::*;
use crate::protocol::ReadError;
use crate::util::Sender;

verus! {

/// Internal message type: the messages that flow between the tasks of a server.
#[derive(Debug, PartialEq)]
pub enum ServerInternalMessage<T> {
    /// A message was read from the network, or something that is no message.
    Network(Result<T, ()>),
    /// A message of the opponent, to be passed on.
    Opponent(T),
    /// An opponent (channel and id) has chosen this client to guess a word.
    OpponentAssigned(Sender, String, String),
    /// The opponent has found the word.
    WordFound,
    /// The opponent is gone.
    OpponentDisconnected,
    /// The connection is lost.
    Error,
}

impl<T> ServerInternalMessage<T> {
    /// What follows an attempt to read: the message for the joint channel, and
    /// whether another attempt is made.
    pub open spec fn after_read(read: Result<T, ReadError>) -> (Self, bool) {
        match read {
            Ok(message) => (ServerInternalMessage::Network(Ok(message)), true),
            Err(ReadError::Malformed) => (ServerInternalMessage::Network(Err(())), true),
            Err(ReadError::Io) => (ServerInternalMessage::Error, false),
        }
    }

    /// Each message that is read is reported as it is, what is no message is
    /// reported as such, and reading goes on; only a lost connection is
    /// reported as an error, and ends it.
    pub proof fn law_after_read(message: T)
        ensures
            Self::after_read(Ok(message)) == (ServerInternalMessage::Network(Ok::<T, ()>(message)), true),
            Self::after_read(Err(ReadError::Malformed)) == (
                ServerInternalMessage::Network(Err::<T, ()>(())),
                true,
            ),
            Self::after_read(Err(ReadError::Io)) == (ServerInternalMessage::<T>::Error, false),
    {
    }

    /// What a network listener does after one attempt to read a message: which
    /// message it sends to the joint channel, and whether it goes on reading.
    pub fn on_read(read: Result<T, ReadError>) -> (step: (Self, bool))
        ensures
            step == Self::after_read(read),
            step == (match read {
                Ok(message) => (ServerInternalMessage::Network(Ok(message)), true),
                Err(ReadError::Malformed) => (ServerInternalMessage::Network(Err(())), true),
                Err(ReadError::Io) => (ServerInternalMessage::Error, false),
            }),
    {
        match read {
            Ok(message) => (ServerInternalMessage::Network(Ok(message)), true),
            Err(ReadError::Malformed) => (ServerInternalMessage::Network(Err(())), true),
            Err(ReadError::Io) => (ServerInternalMessage::Error, false),
        }
    }
}

} // verus!
