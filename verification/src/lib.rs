//! A chat-operated control plane for a small fleet of game server
//! processes.
//!
//! The crate holds the decision core of the bot: the registry of game
//! backends, the interpretation of host-side observations into outcome
//! messages, the command handlers, the authorization gate, and the
//! deferred-response protocol. Everything that talks to the outside
//! world (the chat gateway, the public-IP lookup, the OS process
//! control) lives in the surrounding binary, which feeds this library
//! plain values and sends its answers on.

pub mod commands;
pub mod events;
pub mod games;
pub mod host;
pub mod text;
