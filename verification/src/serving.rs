//! How the control server goes from one action to the next.
//!
//! The functions here decide; the program around them acts and reports what
//! happened.

use vstd::prelude::*;

use crate::control::ControlCommand;

verus! {

/// How long the server waits when no client is pending, or when execution has
/// not stopped yet, in milliseconds.
pub const POLL_INTERVAL_MS: u64 = 100;

/// What has happened to a control server.
#[derive(Debug, Clone, Copy, PartialEq, Eq, Structural)]
pub enum ServerEvent {
    /// The server is starting.
    Started {
        /// Whether a file exists at the path of the socket.
        socket_exists: bool,
    },
    /// The old socket file has been removed.
    SocketRemoved,
    /// The directory of the socket exists.
    ParentCreated,
    /// The socket is bound and does not block.
    Listening,
    /// One of the steps up to listening has failed.
    SetupFailed,
    /// A client has connected.
    Connected,
    /// The connection of a client has ended, with or without an error.
    ClientServed,
    /// No client is pending.
    NothingPending,
    /// The wait is over.
    Waited,
    /// Accepting a client has failed.
    AcceptFailed,
    /// The socket file has been removed, or could not be.
    CleanedUp,
}

/// What a control server does next.
#[derive(Debug, Clone, Copy, PartialEq, Eq, Structural)]
pub enum ServerStep {
    /// Remove the file at the path of the socket.
    RemoveSocket,
    /// Create the directory of the socket.
    CreateParent,
    /// Bind the socket and make it non-blocking.
    Listen,
    /// Try to accept a client.
    Accept,
    /// Handle the client that has connected.
    ServeClient,
    /// Wait for the given time.
    Wait {
        /// Milliseconds.
        millis: u64,
    },
    /// Remove the socket file; a failure to do so does not matter.
    CleanUp,
    /// Return the error of the step that failed.
    Fail,
    /// Return.
    Stop,
}

/// The step that an event leads to.
pub open spec fn server_step(
    event: ServerEvent,
    has_parent: bool,
    shutdown: bool,
) -> ServerStep {
    let prepare = if has_parent {
        ServerStep::CreateParent
    } else {
        ServerStep::Listen
    };
    let poll = if shutdown {
        ServerStep::CleanUp
    } else {
        ServerStep::Accept
    };
    match event {
        ServerEvent::Started { socket_exists } => if socket_exists {
            ServerStep::RemoveSocket
        } else {
            prepare
        },
        ServerEvent::SocketRemoved => prepare,
        ServerEvent::ParentCreated => ServerStep::Listen,
        ServerEvent::SetupFailed => ServerStep::Fail,
        ServerEvent::Listening | ServerEvent::ClientServed | ServerEvent::Waited
        | ServerEvent::AcceptFailed => poll,
        ServerEvent::Connected => ServerStep::ServeClient,
        ServerEvent::NothingPending => ServerStep::Wait { millis: POLL_INTERVAL_MS },
        ServerEvent::CleanedUp => ServerStep::Stop,
    }
}

/// Decides what the server does after an event.
///
/// The shutdown flag is looked at each time before a client is accepted.
pub fn next_server_step(event: ServerEvent, has_parent: bool, shutdown: bool) -> (step: ServerStep)
    ensures
        step == server_step(event, has_parent, shutdown),
{
    match event {
        ServerEvent::Started { socket_exists } => {
            if socket_exists {
                ServerStep::RemoveSocket
            } else if has_parent {
                ServerStep::CreateParent
            } else {
                ServerStep::Listen
            }
        },
        ServerEvent::SocketRemoved => {
            if has_parent {
                ServerStep::CreateParent
            } else {
                ServerStep::Listen
            }
        },
        ServerEvent::ParentCreated => ServerStep::Listen,
        ServerEvent::SetupFailed => ServerStep::Fail,
        ServerEvent::Listening
        | ServerEvent::ClientServed
        | ServerEvent::Waited
        | ServerEvent::AcceptFailed => {
            if shutdown {
                ServerStep::CleanUp
            } else {
                ServerStep::Accept
            }
        },
        ServerEvent::Connected => ServerStep::ServeClient,
        ServerEvent::NothingPending => ServerStep::Wait { millis: POLL_INTERVAL_MS },
        ServerEvent::CleanedUp => ServerStep::Stop,
    }
}

/// What has happened on the connection of a client.
#[derive(Debug, Clone, Copy, PartialEq, Eq, Structural)]
pub enum ClientEvent {
    /// The client has connected.
    Opened,
    /// A read returned the end of the input.
    EndOfInput,
    /// A read returned a line.
    LineRead,
    /// A read failed.
    ReadFailed,
    /// The line has been handled, and its response is ready.
    Handled {
        /// Whether the line asked for a pause.
        pauses: bool,
    },
    /// Execution has stopped: the pause has taken effect, or there is nothing
    /// left to run.
    ExecutionStopped,
    /// Execution has not stopped yet.
    StillRunning,
    /// The wait is over.
    Waited,
    /// The response to a line has been sent.
    ResponseSent,
    /// Sending the response failed.
    SendFailed,
}

/// What the server does next for a client.
#[derive(Debug, Clone, Copy, PartialEq, Eq, Structural)]
pub enum ClientStep {
    /// Read a line.
    ReadLine,
    /// Handle the line.
    Handle,
    /// Ask the scheduler whether execution has stopped.
    CheckStopped,
    /// Wait for the given time.
    Wait {
        /// Milliseconds.
        millis: u64,
    },
    /// Send the response, followed by a newline.
    Respond,
    /// Close the connection.
    Close,
    /// Close the connection and return the error.
    CloseWithError,
}

/// Whether a request is a command to pause.
pub open spec fn asks_for_pause(request: Result<ControlCommand, String>) -> bool {
    request matches Ok(command) && command is Pause
}

/// The event that a request has been handled.
pub fn handled_event(request: &Result<ControlCommand, String>) -> (event: ClientEvent)
    ensures
        event == (ClientEvent::Handled { pauses: asks_for_pause(*request) }),
{
    match request {
        Ok(ControlCommand::Pause) => ClientEvent::Handled { pauses: true },
        _ => ClientEvent::Handled { pauses: false },
    }
}

/// The step that an event on a connection leads to.
pub open spec fn client_step(event: ClientEvent, shutdown: bool) -> ClientStep {
    match event {
        ClientEvent::Opened => ClientStep::ReadLine,
        ClientEvent::EndOfInput | ClientEvent::ReadFailed => ClientStep::Close,
        ClientEvent::LineRead => ClientStep::Handle,
        ClientEvent::Handled { pauses } => if pauses {
            ClientStep::CheckStopped
        } else {
            ClientStep::Respond
        },
        ClientEvent::ExecutionStopped => ClientStep::Respond,
        ClientEvent::StillRunning => ClientStep::Wait { millis: POLL_INTERVAL_MS },
        ClientEvent::Waited => ClientStep::CheckStopped,
        ClientEvent::ResponseSent => if shutdown {
            ClientStep::Close
        } else {
            ClientStep::ReadLine
        },
        ClientEvent::SendFailed => ClientStep::CloseWithError,
    }
}

/// Decides what the server does after an event on a connection.
///
/// The response to a pause is held back until execution has stopped: it goes
/// out on no other event. A shutdown takes effect once the line that has been
/// read is answered, also where that line asks for a pause.
pub fn next_client_step(event: ClientEvent, shutdown: bool) -> (step: ClientStep)
    ensures
        step == client_step(event, shutdown),
        step == ClientStep::Respond <==> event == ClientEvent::ExecutionStopped || event == (
        ClientEvent::Handled { pauses: false }),
{
    match event {
        ClientEvent::Opened => ClientStep::ReadLine,
        ClientEvent::EndOfInput | ClientEvent::ReadFailed => ClientStep::Close,
        ClientEvent::LineRead => ClientStep::Handle,
        ClientEvent::Handled { pauses } => {
            if pauses {
                ClientStep::CheckStopped
            } else {
                ClientStep::Respond
            }
        },
        ClientEvent::ExecutionStopped => ClientStep::Respond,
        ClientEvent::StillRunning => ClientStep::Wait { millis: POLL_INTERVAL_MS },
        ClientEvent::Waited => ClientStep::CheckStopped,
        ClientEvent::ResponseSent => {
            if shutdown {
                ClientStep::Close
            } else {
                ClientStep::ReadLine
            }
        },
        ClientEvent::SendFailed => ClientStep::CloseWithError,
    }
}

} // verus!
