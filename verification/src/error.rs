//! Error categories shared across the server.

use vstd::prelude::*;
use vstd::string::*;

verus! {

/// Error of a server operation, by category, with a message.
#[derive(Debug)]
pub enum McError {
    /// Serialization, deserialization, invalid packets.
    Protocol(String),
    /// Connection, timeout, encryption.
    Network(String),
    /// Missing chunk, generation failure, block out of bounds.
    World(String),
    /// Player not found, inventory full, invalid action.
    Player(String),
    /// Database, file I/O, NBT.
    Persistence(String),
    /// Invalid syntax, permission denied.
    Command(String),
    /// Missing or invalid configuration.
    Config(String),
    /// Unexpected state.
    Internal(String),
}

/// Result of a server operation.
pub type McResult<T> = Result<T, McError>;

/// The text that an error displays: its category and its message.
pub open spec fn error_text(e: McError) -> Seq<char> {
    match e {
        McError::Protocol(m) => "protocol error: "@ + m@,
        McError::Network(m) => "network error: "@ + m@,
        McError::World(m) => "world error: "@ + m@,
        McError::Player(m) => "player error: "@ + m@,
        McError::Persistence(m) => "persistence error: "@ + m@,
        McError::Command(m) => "command error: "@ + m@,
        McError::Config(m) => "config error: "@ + m@,
        McError::Internal(m) => "internal error: "@ + m@,
    }
}

impl McError {
    pub fn protocol(msg: &str) -> (r: McError)
        ensures
            r matches McError::Protocol(m) && m@ == msg@,
    {
        McError::Protocol(String::from_str(msg))
    }

    pub fn network(msg: &str) -> (r: McError)
        ensures
            r matches McError::Network(m) && m@ == msg@,
    {
        McError::Network(String::from_str(msg))
    }

    pub fn world(msg: &str) -> (r: McError)
        ensures
            r matches McError::World(m) && m@ == msg@,
    {
        McError::World(String::from_str(msg))
    }

    pub fn player(msg: &str) -> (r: McError)
        ensures
            r matches McError::Player(m) && m@ == msg@,
    {
        McError::Player(String::from_str(msg))
    }

    pub fn persistence(msg: &str) -> (r: McError)
        ensures
            r matches McError::Persistence(m) && m@ == msg@,
    {
        McError::Persistence(String::from_str(msg))
    }

    /// The text that this error displays.
    pub fn message(&self) -> (r: String)
        ensures
            r@ == error_text(*self),
    {
        let (prefix, m) = match self {
            McError::Protocol(m) => ("protocol error: ", m),
            McError::Network(m) => ("network error: ", m),
            McError::World(m) => ("world error: ", m),
            McError::Player(m) => ("player error: ", m),
            McError::Persistence(m) => ("persistence error: ", m),
            McError::Command(m) => ("command error: ", m),
            McError::Config(m) => ("config error: ", m),
            McError::Internal(m) => ("internal error: ", m),
        };
        let mut s = String::from_str(prefix);
        s.append(m.as_str());
        s
    }
}

/// Turns a missing value into an internal error.
pub trait McOptionExt<T>: Sized {
    fn ok_or_mc(self, category: &str, msg: &str) -> McResult<T>;
}

impl<T> McOptionExt<T> for Option<T> {
    /// The value when present; otherwise an internal error whose message is
    /// `"<category>: <msg>"`.
    fn ok_or_mc(self, category: &str, msg: &str) -> (r: McResult<T>)
        ensures
            self matches Some(v) ==> r == Ok::<T, McError>(v),
            self is None ==> (r matches Err(McError::Internal(m)) && m@ == category@ + ": "@ + msg@),
    {
        match self {
            Some(v) => Ok(v),
            None => {
                let mut s = String::from_str(category);
                s.append(": ");
                s.append(msg);
                Err(McError::Internal(s))
            },
        }
    }
}

} // verus!
