//! The core of a personal diary tool: it plans a fresh workspace, reads and
//! writes the settings document, and plans and renders the entry of a day.
//!
//! Nothing here touches the disk or the clock. A host performs the
//! operations that a [`session::Session`] hands out and reports how each
//! one went.

pub mod command;
pub mod date;
pub mod disk;
pub mod entry_writer;
pub mod error;
pub mod guarantees;
pub mod initializer;
pub mod layout;
pub mod session;
pub mod setting;
pub mod template;
pub mod text;
