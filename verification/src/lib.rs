//! Tracks the text touched during an insert or replace session of a Neovim
//! buffer and says which highlight commands the editor should receive.
//!
//! The crate decodes the editor's notifications into [`event::Event`]s, feeds
//! them to the session state machine in [`session`], and renders the commands
//! that the state machine emits. Talking to the editor is left to the caller.

pub mod position;
pub mod text;
pub mod args;
pub mod event;
pub mod handler;
pub mod highlight;
pub mod session;
pub mod logging;
