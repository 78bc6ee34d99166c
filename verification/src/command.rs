//! The slash-command handler: a terminal state machine over the command name
//! and its single typed option, deciding the action the reactor performs.

use vstd::prelude::*;
use vstd::string::StringExecFns;
use crate::channel::ChannelInfo;
use crate::channel::ChannelKind;

verus! {

/// The resolved value of a command's option: a channel reference or a flag.
#[derive(Debug)]
pub enum CommandArg {
    Channel(ChannelInfo),
    Flag(bool),
}

/// What an invocation decides.  `NoAction` covers every silent drop: a
/// missing or wrongly typed option, a channel option of the wrong channel
/// type, and the reserved per-event opt-out commands that are declared but
/// deliberately without effect.
#[derive(Debug)]
pub enum CommandAction {
    /// Enumerate the occupants of the given voice channel and reply with them.
    ListMembers { channel_id: u64 },
    /// Upsert the guild's notification channel and confirm it to the invoker.
    SetNotfChannel { guild_id: i64, channel_name: String },
    /// Do nothing and send no reply.
    NoAction,
    /// Reply that the command is not implemented.
    ReplyNotImplemented,
}

/// The store key of a guild: its identifier reinterpreted as the signed
/// 64-bit column the store is keyed by.
pub open spec fn spec_guild_db_key(guild_id: u64) -> i64 {
    guild_id as i64
}

/// Reinterprets a guild identifier as the store's signed key column.
pub fn guild_db_key(guild_id: u64) -> (key: i64)
    ensures
        key == spec_guild_db_key(guild_id),
{
    #[verifier::truncate] (guild_id as i64)
}

/// What `handle_command` decides, case by case: `members` on a voice channel
/// lists its occupants, `notfchannel` on a text channel stores that channel
/// for the invoking guild, the reserved opt-out commands and every malformed
/// invocation are dropped silently, and an unrecognized command is answered
/// with a generic reply.
pub open spec fn spec_handle_command(name: Seq<char>, option: Option<CommandArg>) -> CommandAction {
    if name == "members"@ {
        match option {
            Some(CommandArg::Channel(channel)) => if channel.kind == ChannelKind::Voice {
                CommandAction::ListMembers { channel_id: channel.channel_id }
            } else {
                CommandAction::NoAction
            },
            _ => CommandAction::NoAction,
        }
    } else if name == "notfchannel"@ {
        match option {
            Some(CommandArg::Channel(channel)) => if channel.kind == ChannelKind::Text {
                CommandAction::SetNotfChannel {
                    guild_id: spec_guild_db_key(channel.guild_id),
                    channel_name: channel.name,
                }
            } else {
                CommandAction::NoAction
            },
            _ => CommandAction::NoAction,
        }
    } else if name == "onjoin"@ || name == "onmove"@ || name == "onleave"@ {
        CommandAction::NoAction
    } else {
        CommandAction::ReplyNotImplemented
    }
}

/// Decides what a command invocation does.  Terminal per invocation: the
/// result is the whole effect, there is no multi-turn state.
pub fn handle_command(name: &String, option: Option<CommandArg>) -> (action: CommandAction)
    ensures
        action == spec_handle_command(name@, option),
{
    if name.eq(&String::from_str("members")) {
        match option {
            Some(CommandArg::Channel(channel)) => {
                if channel.kind == ChannelKind::Voice {
                    CommandAction::ListMembers { channel_id: channel.channel_id }
                } else {
                    CommandAction::NoAction
                }
            },
            _ => CommandAction::NoAction,
        }
    } else if name.eq(&String::from_str("notfchannel")) {
        match option {
            Some(CommandArg::Channel(channel)) => {
                if channel.kind == ChannelKind::Text {
                    CommandAction::SetNotfChannel {
                        guild_id: guild_db_key(channel.guild_id),
                        channel_name: channel.name,
                    }
                } else {
                    CommandAction::NoAction
                }
            },
            _ => CommandAction::NoAction,
        }
    } else if name.eq(&String::from_str("onjoin")) || name.eq(&String::from_str("onmove"))
        || name.eq(&String::from_str("onleave")) {
        CommandAction::NoAction
    } else {
        CommandAction::ReplyNotImplemented
    }
}

/// The reply to a `members` invocation: the occupants of the voice channel,
/// each to be rendered as a mention, and their count.
#[derive(Debug)]
pub struct MembersReply {
    pub channel_name: String,
    pub member_ids: Vec<u64>,
    pub count: usize,
}

/// Builds the reply to a `members` invocation from the channel's occupants:
/// exactly one mention per occupant, in order, and the count of them.
pub fn members_reply(channel_name: &String, member_ids: Vec<u64>) -> (reply: MembersReply)
    ensures
        reply.channel_name@ == channel_name@,
        reply.member_ids@ == member_ids@,
        reply.count == member_ids@.len(),
{
    let count = member_ids.len();
    MembersReply { channel_name: channel_name.clone(), member_ids, count }
}

/// The confirmation sent after a successful `notfchannel` write.
pub fn notfchannel_confirmation(channel_name: &String) -> (reply: String)
    ensures
        reply@ == "I'll send notification to "@ + channel_name@,
{
    String::from_str("I'll send notification to ").concat(channel_name.as_str())
}

/// The generic reply to an unrecognized command.
pub fn not_implemented_reply() -> (reply: String)
    ensures
        reply@ == "not implemented :("@,
{
    String::from_str("not implemented :(")
}

} // verus!
