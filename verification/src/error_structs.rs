//! The error taxonomy: connection handling, sending, and command
//! dispatch.  Local per-connection failures never cross connections.

use vstd::prelude::*;

verus! {

/// A failure while handling a connection.
#[derive(Clone, Copy, Debug, PartialEq, Eq, Structural)]
pub enum HandlerError {
    StdIoError,
}

/// A failure in a session's listening activities.
#[derive(Clone, Copy, Debug, PartialEq, Eq, Structural)]
pub enum ListenerError {
    ConnectionError,
    UserIsUnidentified,
}

/// A failure while writing a line out.
#[derive(Clone, Copy, Debug, PartialEq, Eq, Structural)]
pub enum SenderError {
    StdIoError,
}

/// A failure while dispatching a parsed command.
#[derive(Clone, Copy, Debug, PartialEq, Eq, Structural)]
pub enum CommandExecError {
    NonexistantCommand,
}

impl From<SenderError> for ListenerError {
    /// A send failure ends the connection.
    fn from(value: SenderError) -> (r: ListenerError) {
        match value {
            SenderError::StdIoError => ListenerError::ConnectionError,
        }
    }
}

impl vstd::std_specs::convert::FromSpecImpl<SenderError> for ListenerError {
    open spec fn obeys_from_spec() -> bool {
        true
    }

    open spec fn from_spec(value: SenderError) -> ListenerError {
        match value {
            SenderError::StdIoError => ListenerError::ConnectionError,
        }
    }
}

} // verus!
