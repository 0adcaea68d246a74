//! The frames that the chat client and server exchange over the WebSocket.
//!
//! On the wire each frame is a JSON object with the fields `messageType`
//! (`"users"`, `"register"` or `"message"`), `dataArray` and `data`; a chat
//! line travels in `data` as a JSON object of its own with the fields `from`
//! and `message`. Turning frames into JSON text and back is left to the
//! program that holds the socket; this module holds the frames as values.
use vstd::prelude::*;

verus! {

/// The kind of a frame.
#[derive(Clone, Copy, Debug, PartialEq, Eq, Structural)]
pub enum MsgTypes {
    /// The server lists the users who are online (in `data_array`).
    Users,
    /// A client registers under the user name in `data`.
    Register,
    /// A chat line: from the server, a `MessageData` encoded in `data`;
    /// from a client, the typed text in `data`.
    Message,
}

/// One frame of the chat protocol.
#[derive(Debug)]
pub struct WebSocketMessage {
    pub message_type: MsgTypes,
    pub data_array: Option<Vec<String>>,
    pub data: Option<String>,
}

/// A frame as a mathematical value.
pub struct FrameModel {
    pub message_type: MsgTypes,
    pub data_array: Option<Seq<Seq<char>>>,
    pub data: Option<Seq<char>>,
}

/// The contents of a list of strings.
pub open spec fn strings_view(v: Seq<String>) -> Seq<Seq<char>> {
    v.map_values(|s: String| s@)
}

/// An optional string as an optional sequence of characters.
pub open spec fn opt_string_view(s: Option<String>) -> Option<Seq<char>> {
    match s {
        Some(s) => Some(s@),
        None => None,
    }
}

impl View for WebSocketMessage {
    type V = FrameModel;

    open spec fn view(&self) -> FrameModel {
        FrameModel {
            message_type: self.message_type,
            data_array: match self.data_array {
                Some(a) => Some(strings_view(a@)),
                None => None,
            },
            data: opt_string_view(self.data),
        }
    }
}

/// The frame with which a client registers as `username`.
pub open spec fn register_frame(username: Seq<char>) -> FrameModel {
    FrameModel { message_type: MsgTypes::Register, data_array: None, data: Some(username) }
}

/// The frame with which a client sends the chat text `text`.
pub open spec fn chat_line_frame(text: Seq<char>) -> FrameModel {
    FrameModel { message_type: MsgTypes::Message, data_array: None, data: Some(text) }
}

impl WebSocketMessage {
    /// The frame that registers the user `username` with the server.
    pub fn register(username: String) -> (frame: WebSocketMessage)
        ensures
            frame@ == register_frame(username@),
    {
        WebSocketMessage { message_type: MsgTypes::Register, data: Some(username), data_array: None }
    }

    /// The frame that sends the chat text `text` to the server.
    pub fn chat_line(text: String) -> (frame: WebSocketMessage)
        ensures
            frame@ == chat_line_frame(text@),
    {
        WebSocketMessage { message_type: MsgTypes::Message, data: Some(text), data_array: None }
    }
}

/// A chat line as the server relays it: who wrote it, and what.
#[derive(Debug)]
pub struct MessageData {
    pub from: String,
    pub message: String,
}

/// A chat line as a mathematical value.
pub struct LineModel {
    pub from: Seq<char>,
    pub message: Seq<char>,
}

impl View for MessageData {
    type V = LineModel;

    open spec fn view(&self) -> LineModel {
        LineModel { from: self.from@, message: self.message@ }
    }
}

} // verus!
