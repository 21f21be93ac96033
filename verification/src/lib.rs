//! Chat session logic for a terminal assistant server: the message log of a
//! chat, its rendering as prompt context, the steps of a chat action, the
//! request and reply bodies exchanged with the language model, and the pairing
//! of the CLI and frontend WebSocket connections of one session.

pub mod timestamp;
pub mod app_state;
pub mod handler;
pub mod chat;
pub mod websocket_server;
