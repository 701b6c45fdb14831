//! Core of a private-channel language-tutoring chat bot.
//!
//! The crate holds the verified heart of the bot: the single-use token store
//! that gates access, the authentication strategy around it, the command
//! parser, the per-user conversation session with bounded undo, and the
//! registry that hands each user their session.  Transport, storage I/O and
//! the completion service are collaborators that the surrounding program
//! drives; the types here decide everything and record every history change.

pub mod auth;
pub mod commands;
pub mod config;
pub mod conversation;
pub mod gateway;
pub mod registry;
pub mod session;
pub mod store;
