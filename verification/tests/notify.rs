use vc_notf::channel::{select_notf_channels, ChannelInfo, ChannelKind};
use vc_notf::config::{default_notf_channel_name, ConfigStore};
use vc_notf::models::VoiceStateEvent;
use vc_notf::notify::{
    build_notification, delivery_report, plan_notification, MemberInfo, MessageColor,
    PresenceTransition,
};
use vc_notf::presence::VoiceLocation;

fn member() -> MemberInfo {
    MemberInfo {
        user_id: 1001,
        display_name: "M".to_string(),
        avatar_url: "https://cdn.example/avatars/1001.png".to_string(),
    }
}

fn guild_channels() -> Vec<ChannelInfo> {
    vec![
        ChannelInfo {
            channel_id: 1,
            guild_id: 77,
            name: "Lobby".to_string(),
            kind: ChannelKind::Voice,
        },
        ChannelInfo {
            channel_id: 2,
            guild_id: 77,
            name: "Study".to_string(),
            kind: ChannelKind::Voice,
        },
        ChannelInfo {
            channel_id: 3,
            guild_id: 77,
            name: "vc-notf".to_string(),
            kind: ChannelKind::Text,
        },
        ChannelInfo {
            channel_id: 4,
            guild_id: 77,
            name: "announcements".to_string(),
            kind: ChannelKind::Text,
        },
        ChannelInfo {
            channel_id: 5,
            guild_id: 77,
            name: "vc-notf".to_string(),
            kind: ChannelKind::Voice,
        },
    ]
}

#[test]
fn select_matches_name_and_text_kind_only() {
    let channels = guild_channels();
    let targets = select_notf_channels(&channels, &"vc-notf".to_string());
    // Channel 5 shares the name but is a voice channel; channel 4 is text but
    // carries another name.
    assert_eq!(targets, vec![3]);
    let targets = select_notf_channels(&channels, &"announcements".to_string());
    assert_eq!(targets, vec![4]);
    let targets = select_notf_channels(&channels, &"missing".to_string());
    assert_eq!(targets, Vec::<u64>::new());
}

#[test]
fn same_channel_move_sends_nothing() {
    // Guild with no stored config; a member "moves" from Lobby to Lobby.
    let transition = PresenceTransition {
        member: member(),
        previous: VoiceLocation::Present { channel_id: 1 },
        current: VoiceLocation::Present { channel_id: 1 },
    };
    let plan = plan_notification(
        &transition,
        &None,
        &default_notf_channel_name(),
        &guild_channels(),
        Some("Lobby".to_string()),
        Some("Lobby".to_string()),
    );
    assert!(plan.message.is_none());
}

#[test]
fn join_notifies_default_channel() {
    // Guild with no stored config; a member appears in Lobby from nowhere.
    let transition = PresenceTransition {
        member: member(),
        previous: VoiceLocation::Absent,
        current: VoiceLocation::Present { channel_id: 1 },
    };
    let plan = plan_notification(
        &transition,
        &None,
        &default_notf_channel_name(),
        &guild_channels(),
        None,
        Some("Lobby".to_string()),
    );
    // One target: the text channel named by the default, "vc-notf".
    assert_eq!(plan.targets, vec![3]);
    let message = plan.message.expect("a join must be announced");
    assert_eq!(message.event, VoiceStateEvent::Join);
    assert_eq!(message.title, "M joined VC!".to_string());
    assert_eq!(message.mention_user_id, 1001);
    assert_eq!(message.previous_channel, None);
    assert_eq!(message.current_channel, Some("Lobby".to_string()));
    assert_eq!(
        message.color,
        MessageColor { red: 40, green: 167, blue: 69 }
    );
}

#[test]
fn move_notifies_configured_channel() {
    // Guild with stored config "announcements"; a member moves Lobby -> Study.
    let mut store = ConfigStore::new();
    store.upsert(77, "announcements".to_string());
    let stored = store.lookup(77);
    let transition = PresenceTransition {
        member: member(),
        previous: VoiceLocation::Present { channel_id: 1 },
        current: VoiceLocation::Present { channel_id: 2 },
    };
    let plan = plan_notification(
        &transition,
        &stored,
        &default_notf_channel_name(),
        &guild_channels(),
        Some("Lobby".to_string()),
        Some("Study".to_string()),
    );
    assert_eq!(plan.targets, vec![4]);
    let message = plan.message.expect("a move must be announced");
    assert_eq!(message.event, VoiceStateEvent::Move);
    assert_eq!(message.title, "M moved VC!".to_string());
    assert_eq!(message.previous_channel, Some("Lobby".to_string()));
    assert_eq!(message.current_channel, Some("Study".to_string()));
    assert_eq!(
        message.color,
        MessageColor { red: 23, green: 162, blue: 184 }
    );
}

#[test]
fn leave_references_previous_channel() {
    let transition = PresenceTransition {
        member: member(),
        previous: VoiceLocation::Present { channel_id: 1 },
        current: VoiceLocation::Absent,
    };
    let message = build_notification(&transition, Some("Lobby".to_string()), None)
        .expect("a leave must be announced");
    assert_eq!(message.event, VoiceStateEvent::Leave);
    assert_eq!(message.title, "M left VC!".to_string());
    assert_eq!(message.previous_channel, Some("Lobby".to_string()));
    assert_eq!(message.current_channel, None);
    assert_eq!(
        message.color,
        MessageColor { red: 220, green: 53, blue: 59 }
    );
    assert_eq!(message.thumbnail, "https://cdn.example/avatars/1001.png".to_string());
}

#[test]
fn missing_required_name_sends_nothing() {
    // A join whose new channel's name could not be resolved is dropped.
    let transition = PresenceTransition {
        member: member(),
        previous: VoiceLocation::Absent,
        current: VoiceLocation::Present { channel_id: 1 },
    };
    assert!(build_notification(&transition, None, None).is_none());
    // A move missing either name is dropped too.
    let transition = PresenceTransition {
        member: member(),
        previous: VoiceLocation::Present { channel_id: 1 },
        current: VoiceLocation::Present { channel_id: 2 },
    };
    assert!(build_notification(&transition, Some("Lobby".to_string()), None).is_none());
    assert!(build_notification(&transition, None, Some("Study".to_string())).is_none());
}

#[test]
fn every_matching_channel_is_a_target() {
    // Two text channels share the resolved name: the event is attempted once
    // per matching channel, in order.
    let channels = vec![
        ChannelInfo {
            channel_id: 3,
            guild_id: 77,
            name: "vc-notf".to_string(),
            kind: ChannelKind::Text,
        },
        ChannelInfo {
            channel_id: 6,
            guild_id: 77,
            name: "vc-notf".to_string(),
            kind: ChannelKind::Text,
        },
    ];
    let targets = select_notf_channels(&channels, &"vc-notf".to_string());
    assert_eq!(targets, vec![3, 6]);
}

#[test]
fn failed_delivery_leaves_other_target_delivered() {
    // Two targets for the same event; the send to the first fails.
    let targets: Vec<u64> = vec![3, 4];
    let outcomes = vec![false, true];
    let report = delivery_report(&targets, &outcomes);
    assert_eq!(report.len(), 2);
    assert_eq!(report[0].target_channel_id, 3);
    assert!(!report[0].delivered);
    assert_eq!(report[1].target_channel_id, 4);
    assert!(report[1].delivered);
    // The second target's record equals what it is when both sends succeed.
    let all_ok = delivery_report(&targets, &vec![true, true]);
    assert_eq!(report[1], all_ok[1]);
}
