//! Settings resolution, chat session bookkeeping and the interactive loop of a
//! command-line client for a chat-completion endpoint.
//!
//! The crate decides; it does not read or write. [`settings`] and [`config`]
//! resolve the settings from what the caller found on the command line, in the
//! configuration file and in the environment. [`chat`] keeps the conversation
//! and says what an answer of the endpoint does to it. [`repl`] is the loop
//! around both, as a state machine that the caller drives. [`document`] and
//! [`style`] are the two places where other crates are called.

pub mod chat;
pub mod config;
pub mod document;
pub mod repl;
pub mod settings;
pub mod style;
pub mod text;
