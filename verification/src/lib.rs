//! Telegram doxing emulator: the verified core.
//!
//! The bot answers `/dox` commands, forwarded messages, inline queries and
//! guest mentions with a report of what Telegram tells about a user or chat.
//! This crate holds the decisions: parsing requests, resolving the doxee one
//! Telegram lookup at a time, and rendering the replies.
use vstd::prelude::*;

pub mod commands;
pub mod dox_impl;
pub mod doxee_resolution;
pub mod guest;
pub mod inline;
pub mod laws;
pub mod messages;
pub mod non_command;
pub mod outcome;
pub mod replies;
pub mod resolver;
pub mod text;

verus! {

/// Configuration for the bot.
#[derive(Debug, Clone, PartialEq, Eq)]
pub struct Config {
    /// The token for the bot.
    pub token: String,
    /// Optional proxy URL.
    pub proxy: Option<String>,
}

} // verus!
