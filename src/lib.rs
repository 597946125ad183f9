//! A command registry and a prefix-based dispatcher for a chat bot.
//!
//! Incoming text is mapped to a named command through an explicit,
//! build-once registry; the dispatcher decides what to do with each
//! message and reports the reply that should be sent back.

pub mod text;
pub mod command;
pub mod commands;
pub mod registry;
pub mod events;
pub mod laws;
