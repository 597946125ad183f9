//! What the bot does on each platform event.

pub mod message_create;
pub mod ready;
