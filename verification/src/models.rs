//! Plain data carried between the bot's components: the persisted per-guild
//! notification-channel row, the kinds of qualifying voice events, and the
//! reserved per-event opt-out row.

use vstd::prelude::*;

verus! {

/// One persisted row of the configuration store: the guild and the name of
/// the text channel that receives its notifications.  `guild_id` is the
/// unique key of the store.
#[derive(Debug)]
pub struct GuildNotfChannel {
    pub guild_id: i64,
    pub channel_name: String,
}

/// The qualifying voice events, i.e. the transitions that produce a
/// notification.  A transition that does not change the channel qualifies as
/// none of these (see `presence::VoiceEventKind::NoOp`).
#[derive(Debug, Clone, Copy, PartialEq, Eq, Structural)]
pub enum VoiceStateEvent {
    Join,
    Move,
    Leave,
}

/// Reserved row for per-guild suppression of one event kind.  The commands
/// that would write it are declared but deliberately without effect, so
/// nothing reads or stores this yet.
#[derive(Debug, Clone, Copy, PartialEq, Eq, Structural)]
pub struct GuildNotfDisabled {
    pub guild_id: u64,
    pub event: u8,
}

} // verus!
