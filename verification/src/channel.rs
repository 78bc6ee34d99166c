//! The crate's picture of a guild channel, and the selection of notification
//! targets: among a guild's channels, the text channels whose name equals the
//! resolved notification-channel name.

use vstd::prelude::*;

verus! {

/// The channel types the bot distinguishes: notifications go to text
/// channels, member listings are made over voice channels, and every other
/// type is ignored.
#[derive(Debug, Clone, Copy, PartialEq, Eq, Structural)]
pub enum ChannelKind {
    Text,
    Voice,
    Other,
}

/// What the bot reads of a guild channel: its identifier, the guild it
/// belongs to, its name, and its type.
#[derive(Debug)]
pub struct ChannelInfo {
    pub channel_id: u64,
    pub guild_id: u64,
    pub name: String,
    pub kind: ChannelKind,
}

/// A channel receives notifications when it is a text channel carrying
/// exactly the resolved notification-channel name.
pub open spec fn spec_is_notf_target(channel: ChannelInfo, target_name: Seq<char>) -> bool {
    channel.name@ == target_name && channel.kind == ChannelKind::Text
}

/// The identifiers of the notification targets among `channels`, in order.
pub open spec fn spec_select_notf_channels(
    channels: Seq<ChannelInfo>,
    target_name: Seq<char>,
) -> Seq<u64>
    decreases channels.len(),
{
    if channels.len() == 0 {
        Seq::empty()
    } else {
        let rest = spec_select_notf_channels(channels.drop_last(), target_name);
        if spec_is_notf_target(channels.last(), target_name) {
            rest.push(channels.last().channel_id)
        } else {
            rest
        }
    }
}

/// Selects the notification targets of a guild: every text channel named
/// `target_name`, and nothing else, in the order the channels were given.
pub fn select_notf_channels(channels: &Vec<ChannelInfo>, target_name: &String) -> (targets: Vec<
    u64,
>)
    ensures
        targets@ == spec_select_notf_channels(channels@, target_name@),
{
    let mut targets: Vec<u64> = Vec::new();
    let mut i: usize = 0;
    while i < channels.len()
        invariant
            i <= channels@.len(),
            targets@ == spec_select_notf_channels(channels@.take(i as int), target_name@),
        decreases channels@.len() - i,
    {
        proof {
            assert(channels@.take(i + 1).drop_last() =~= channels@.take(i as int));
            assert(channels@.take(i + 1).last() == channels@[i as int]);
        }
        if channels[i].kind == ChannelKind::Text && channels[i].name == *target_name {
            targets.push(channels[i].channel_id);
        }
        i += 1;
    }
    proof {
        assert(channels@.take(channels@.len() as int) =~= channels@);
    }
    targets
}

} // verus!
