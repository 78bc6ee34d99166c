//! Composing the notification for a qualifying presence transition, and the
//! per-target bookkeeping of the best-effort broadcast that delivers it.

use vstd::prelude::*;
use vstd::string::StringExecFns;
use crate::channel::ChannelInfo;
use crate::channel::spec_select_notf_channels;
use crate::config::spec_resolve_stored;
use crate::models::VoiceStateEvent;
use crate::presence::VoiceEventKind;
use crate::presence::VoiceLocation;
use crate::presence::classify;
use crate::presence::spec_classify;
use crate::presence::spec_event_of_kind;

verus! {

/// The snapshot of the member a gateway event carries: identity, display
/// name, and avatar reference.
#[derive(Debug)]
pub struct MemberInfo {
    pub user_id: u64,
    pub display_name: String,
    pub avatar_url: String,
}

/// One presence transition, derived per gateway event and never persisted:
/// who moved, from where, to where.
#[derive(Debug)]
pub struct PresenceTransition {
    pub member: MemberInfo,
    pub previous: VoiceLocation,
    pub current: VoiceLocation,
}

/// An RGB color; each event kind has a fixed one.
#[derive(Debug, Clone, Copy, PartialEq, Eq, Structural)]
pub struct MessageColor {
    pub red: u8,
    pub green: u8,
    pub blue: u8,
}

/// The notification for one qualifying event, ready to be rendered and sent
/// to every target channel: the announced event, the finished title line, and
/// the values the body references (member mention, the channels involved,
/// the member's avatar).
#[derive(Debug)]
pub struct NotificationMessage {
    pub event: VoiceStateEvent,
    pub title: String,
    pub mention_user_id: u64,
    pub previous_channel: Option<String>,
    pub current_channel: Option<String>,
    pub color: MessageColor,
    pub thumbnail: String,
}

/// The words appended to the member's display name in the title line.
pub open spec fn spec_title_suffix(event: VoiceStateEvent) -> Seq<char> {
    match event {
        VoiceStateEvent::Join => " joined VC!"@,
        VoiceStateEvent::Move => " moved VC!"@,
        VoiceStateEvent::Leave => " left VC!"@,
    }
}

/// The fixed color of each event kind.
pub open spec fn spec_event_color(event: VoiceStateEvent) -> MessageColor {
    match event {
        VoiceStateEvent::Join => MessageColor { red: 40, green: 167, blue: 69 },
        VoiceStateEvent::Move => MessageColor { red: 23, green: 162, blue: 184 },
        VoiceStateEvent::Leave => MessageColor { red: 220, green: 53, blue: 59 },
    }
}

/// Whether the channel names at hand suffice to announce the event: a join
/// names the new channel, a leave the previous one, a move both, and a no-op
/// is never announced.
pub open spec fn spec_names_sufficient(
    kind: VoiceEventKind,
    previous_name: Option<String>,
    current_name: Option<String>,
) -> bool {
    match kind {
        VoiceEventKind::Join => current_name is Some,
        VoiceEventKind::Leave => previous_name is Some,
        VoiceEventKind::Move => previous_name is Some && current_name is Some,
        VoiceEventKind::NoOp => false,
    }
}

/// What a correctly composed notification looks like for a transition and the
/// channel names the caller resolved: one message exactly when the transition
/// qualifies and the names it needs are known, carrying the classified event,
/// the title built from the display name, the member's mention and avatar,
/// the event's color, and the channel names the event kind references.
pub open spec fn spec_notification_ok(
    message: Option<NotificationMessage>,
    transition: PresenceTransition,
    previous_name: Option<String>,
    current_name: Option<String>,
) -> bool {
    let kind = spec_classify(transition.previous, transition.current);
    match message {
        None => !spec_names_sufficient(kind, previous_name, current_name),
        Some(msg) => {
            &&& spec_names_sufficient(kind, previous_name, current_name)
            &&& Some(msg.event) == spec_event_of_kind(kind)
            &&& msg.title@ == transition.member.display_name@ + spec_title_suffix(msg.event)
            &&& msg.mention_user_id == transition.member.user_id
            &&& msg.previous_channel == (if kind is Leave || kind is Move {
                previous_name
            } else {
                None::<String>
            })
            &&& msg.current_channel == (if kind is Join || kind is Move {
                current_name
            } else {
                None::<String>
            })
            &&& msg.color == spec_event_color(msg.event)
            &&& msg.thumbnail@ == transition.member.avatar_url@
        },
    }
}

/// Composes the notification for a presence transition, given the names of
/// the channels involved as far as the caller could resolve them.  Returns
/// `None` exactly when nothing is to be sent: the transition is a no-op, or a
/// channel name the event kind must reference is unknown.
pub fn build_notification(
    transition: &PresenceTransition,
    previous_name: Option<String>,
    current_name: Option<String>,
) -> (message: Option<NotificationMessage>)
    ensures
        spec_notification_ok(message, *transition, previous_name, current_name),
{
    let kind = classify(&transition.previous, &transition.current);
    match kind {
        VoiceEventKind::NoOp => None,
        VoiceEventKind::Join => match current_name {
            Some(current) => Some(
                NotificationMessage {
                    event: VoiceStateEvent::Join,
                    title: transition.member.display_name.clone().concat(" joined VC!"),
                    mention_user_id: transition.member.user_id,
                    previous_channel: None,
                    current_channel: Some(current),
                    color: MessageColor { red: 40, green: 167, blue: 69 },
                    thumbnail: transition.member.avatar_url.clone(),
                },
            ),
            None => None,
        },
        VoiceEventKind::Leave => match previous_name {
            Some(previous) => Some(
                NotificationMessage {
                    event: VoiceStateEvent::Leave,
                    title: transition.member.display_name.clone().concat(" left VC!"),
                    mention_user_id: transition.member.user_id,
                    previous_channel: Some(previous),
                    current_channel: None,
                    color: MessageColor { red: 220, green: 53, blue: 59 },
                    thumbnail: transition.member.avatar_url.clone(),
                },
            ),
            None => None,
        },
        VoiceEventKind::Move => match (previous_name, current_name) {
            (Some(previous), Some(current)) => Some(
                NotificationMessage {
                    event: VoiceStateEvent::Move,
                    title: transition.member.display_name.clone().concat(" moved VC!"),
                    mention_user_id: transition.member.user_id,
                    previous_channel: Some(previous),
                    current_channel: Some(current),
                    color: MessageColor { red: 23, green: 162, blue: 184 },
                    thumbnail: transition.member.avatar_url.clone(),
                },
            ),
            _ => None,
        },
    }
}

/// Everything the reactor needs to act on one voice-state change: the
/// composed notification, if the event qualifies, and the identifiers of the
/// target channels to send it to.
#[derive(Debug)]
pub struct NotificationPlan {
    pub message: Option<NotificationMessage>,
    pub targets: Vec<u64>,
}

/// The whole decision for one voice-state change: resolves the target channel
/// name (stored name on a hit, default on a miss or store failure), selects
/// the matching text channels of the guild, and composes the notification.
/// The caller only has to send `message` to each channel in `targets`.
pub fn plan_notification(
    transition: &PresenceTransition,
    stored_name: &Option<String>,
    default_name: &String,
    channels: &Vec<ChannelInfo>,
    previous_name: Option<String>,
    current_name: Option<String>,
) -> (plan: NotificationPlan)
    ensures
        spec_notification_ok(plan.message, *transition, previous_name, current_name),
        plan.targets@ == spec_select_notf_channels(
            channels@,
            spec_resolve_stored(*stored_name, default_name@),
        ),
{
    let target_name = crate::config::resolve_target_channel_name(stored_name, default_name);
    let targets = crate::channel::select_notf_channels(channels, &target_name);
    let message = build_notification(transition, previous_name, current_name);
    NotificationPlan { message, targets }
}

/// The outcome of one best-effort send: which channel, and whether the
/// delivery succeeded.
#[derive(Debug, Clone, Copy, PartialEq, Eq, Structural)]
pub struct DeliveryOutcome {
    pub target_channel_id: u64,
    pub delivered: bool,
}

/// The per-target record of a best-effort broadcast: the i-th entry pairs the
/// i-th target with the i-th send's outcome, each independent of the others.
pub open spec fn spec_delivery_report(targets: Seq<u64>, outcomes: Seq<bool>) -> Seq<
    DeliveryOutcome,
> {
    Seq::new(
        targets.len(),
        |i: int| DeliveryOutcome { target_channel_id: targets[i], delivered: outcomes[i] },
    )
}

/// Pairs each target channel of a broadcast with the outcome of its own send,
/// for observability: delivery is at-most-once and fire-and-forget, so the
/// record is all that remains of a failure.
pub fn delivery_report(targets: &Vec<u64>, outcomes: &Vec<bool>) -> (report: Vec<DeliveryOutcome>)
    requires
        targets@.len() == outcomes@.len(),
    ensures
        report@ == spec_delivery_report(targets@, outcomes@),
{
    let mut report: Vec<DeliveryOutcome> = Vec::new();
    let mut i: usize = 0;
    while i < targets.len()
        invariant
            targets@.len() == outcomes@.len(),
            i <= targets@.len(),
            report@ == spec_delivery_report(targets@, outcomes@).take(i as int),
        decreases targets@.len() - i,
    {
        report.push(DeliveryOutcome { target_channel_id: targets[i], delivered: outcomes[i] });
        proof {
            assert(report@ =~= spec_delivery_report(targets@, outcomes@).take(i + 1));
        }
        i += 1;
    }
    proof {
        assert(spec_delivery_report(targets@, outcomes@).take(targets@.len() as int)
            =~= spec_delivery_report(targets@, outcomes@));
    }
    report
}

/// A transition that does not change the channel is never announced: every
/// correctly composed outcome for a transition that classifies as `NoOp` is
/// no message at all.
pub proof fn lemma_noop_never_notifies(
    message: Option<NotificationMessage>,
    transition: PresenceTransition,
    previous_name: Option<String>,
    current_name: Option<String>,
)
    requires
        spec_notification_ok(message, transition, previous_name, current_name),
        spec_classify(transition.previous, transition.current) == VoiceEventKind::NoOp,
    ensures
        message is None,
{
}

/// Deliveries are isolated: what the broadcast records for one target depends
/// on that target's own send alone, so a failure at one channel can neither
/// prevent nor change the delivery record at any other.  Classification takes
/// only the two locations, so the delivery outcomes cannot alter it either.
pub proof fn lemma_delivery_isolation(
    targets: Seq<u64>,
    outcomes1: Seq<bool>,
    outcomes2: Seq<bool>,
    i: int,
)
    requires
        outcomes1.len() == targets.len(),
        outcomes2.len() == targets.len(),
        0 <= i < targets.len(),
        outcomes1[i] == outcomes2[i],
    ensures
        spec_delivery_report(targets, outcomes1)[i] == spec_delivery_report(targets, outcomes2)[i],
{
}

} // verus!
