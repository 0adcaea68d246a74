//! The logic of a small WebSocket chat: the frames that client and server
//! exchange, the state of the chat view and how each event changes it, the
//! login form and the terminal client's event handling.
pub mod text;
pub mod protocol;
pub mod chat;
pub mod login;
pub mod client;
pub mod laws;
pub mod meaning;
