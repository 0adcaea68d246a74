//! The terminal client of the broadcast chat: it prints what the server
//! sends and sends each line that the user types.
use vstd::prelude::*;

verus! {

/// What the terminal client waits for.
#[derive(Debug)]
pub enum ClientEvent {
    /// The server sent a text frame.
    ServerText(String),
    /// The server sent a frame that holds no text (binary, ping, ...).
    ServerOther,
    /// The connection ended or failed.
    ServerGone,
    /// The user typed a line (with its line ending, as read).
    InputLine(String),
    /// Standard input has no more lines to give.
    InputClosed,
}

/// What the terminal client does next.
#[derive(Debug)]
pub enum ClientAction {
    /// Print this line on standard output.
    Print(String),
    /// Send this text to the server in a text frame.
    Send(String),
    /// Nothing to do; wait for the next event.
    Wait,
    /// Leave the loop: the connection is over.
    Stop,
}

/// The line printed for a text `text` from the server.
pub open spec fn server_line(text: Seq<char>) -> Seq<char> {
    "Anita's Computer - From server: "@ + text
}

/// Decides what the client does on `event`: print each text from the
/// server, send each typed line unchanged, stop when the connection ends.
pub fn client_step(event: ClientEvent) -> (action: ClientAction)
    ensures
        match event {
            ClientEvent::ServerText(text) => action matches ClientAction::Print(line) && line@
                == server_line(text@),
            ClientEvent::ServerOther => action is Wait,
            ClientEvent::ServerGone => action is Stop,
            ClientEvent::InputLine(typed) => action matches ClientAction::Send(sent) && sent@
                == typed@,
            ClientEvent::InputClosed => action is Wait,
        },
{
    match event {
        ClientEvent::ServerText(text) => {
            let mut line = "Anita's Computer - From server: ".to_owned();
            line.append(text.as_str());
            ClientAction::Print(line)
        },
        ClientEvent::ServerOther => ClientAction::Wait,
        ClientEvent::ServerGone => ClientAction::Stop,
        ClientEvent::InputLine(typed) => ClientAction::Send(typed),
        ClientEvent::InputClosed => ClientAction::Wait,
    }
}

} // verus!
