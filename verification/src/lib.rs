//! A voice-presence notification library for a chat-platform bot.
//!
//! The bot announces voice-channel presence changes (join, move, leave) of a
//! guild's members into a designated text channel, and lets administrators
//! pick that channel with a slash command.  This crate holds the decision
//! logic of the bot, verified: classifying a presence transition, resolving
//! the per-guild notification channel with a default fallback, composing the
//! notification for each target channel, and dispatching slash commands.
//! Gateway traffic, database access and message delivery are left to the
//! surrounding binary, which hands this crate plain values.

pub mod channel;
pub mod command;
pub mod config;
pub mod models;
pub mod notify;
pub mod presence;
