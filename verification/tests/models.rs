use tripwire::models::{
    AppIcon, Badge, Channel, ChannelCategory, ChannelKind, DirectMessageChannel, Server, User,
    UserStatus, VoiceConnectionStatus, VoiceState, unread_badge_text,
};
use tripwire::screens::{ServerSettingsScreen, SettingsScreen};
use tripwire::actions::{SelectFont, SelectRadius};
use tripwire::mock_data::{make_servers, make_user};

fn user(id: &str, name: &str, status: UserStatus) -> User {
    make_user(id, name, "0042", status)
}

fn server_named(name: &str) -> Server {
    Server {
        id: "s".to_string(),
        name: name.to_string(),
        categories: vec![],
        members: vec![],
        notification_count: 0,
    }
}

#[test]
fn status_colours_and_labels() {
    assert_eq!(UserStatus::Online.color_hex(), "#23a55a");
    assert_eq!(UserStatus::Idle.color_hex(), "#f0b232");
    assert_eq!(UserStatus::DoNotDisturb.color_hex(), "#f23f43");
    assert_eq!(UserStatus::Offline.color_hex(), "#80848e");
    assert_eq!(UserStatus::Online.label(), "Online");
    assert_eq!(UserStatus::Idle.label(), "Idle");
    assert_eq!(UserStatus::DoNotDisturb.label(), "Do Not Disturb");
    assert_eq!(UserStatus::Offline.label(), "Offline");
}

#[test]
fn user_names_and_presence() {
    let u = user("u1", "Alice", UserStatus::Idle);
    assert_eq!(u.display_name(), "Alice");
    assert_eq!(u.tag(), "Alice#0042");
    assert!(u.is_online());
    assert!(user("u", "x", UserStatus::Online).is_online());
    assert!(user("u", "x", UserStatus::DoNotDisturb).is_online());
    assert!(!user("u", "x", UserStatus::Offline).is_online());
}

#[test]
fn badge_labels_colours_icons() {
    assert_eq!(Badge::Staff.label(), "Staff");
    assert_eq!(Badge::Partner.label(), "Partnered Server Owner");
    assert_eq!(Badge::ActiveDeveloper.label(), "Active Developer");
    assert_eq!(Badge::Staff.color(), "#5865F2");
    assert_eq!(Badge::HypeSquad.color(), "#F47B68");
    assert_eq!(Badge::EarlySupporter.color(), "#EB459E");
    assert_eq!(Badge::VerifiedBot.color(), "#3BA55D");
    assert_eq!(Badge::Partner.icon(), AppIcon::Star);
    assert_eq!(Badge::BugHunterLevel2.icon(), AppIcon::Search);
    assert_eq!(Badge::TeamUser.icon(), AppIcon::User);
    assert_eq!(Badge::ActiveDeveloper.icon(), AppIcon::Settings2);
}

#[test]
fn channel_kinds() {
    assert_eq!(ChannelKind::Text.prefix(), "#");
    assert_eq!(ChannelKind::Voice.prefix(), "🔊");
    assert_eq!(ChannelKind::Stage.prefix(), "🎙️");
    assert_eq!(ChannelKind::Media.icon(), AppIcon::FolderOpen);
    assert_eq!(ChannelKind::Forum.description(), "Forum channel for topic-based discussions");
    assert!(ChannelKind::Voice.is_voice_based());
    assert!(ChannelKind::Stage.is_voice_based());
    assert!(!ChannelKind::Text.is_voice_based());
    assert!(!ChannelKind::Announcement.is_voice_based());
    let c = Channel {
        id: "1".into(),
        name: "n".into(),
        kind: ChannelKind::Stage,
        unread: 0,
        topic: None,
        members_connected: 0,
        voice_participants: vec![],
    };
    assert!(c.is_voice_based());
}

#[test]
fn server_initials() {
    assert_eq!(server_named("Tripwire HQ").initials(), "TH");
    assert_eq!(server_named("dev corner lounge").initials(), "DC");
    assert_eq!(server_named("  solo  ").initials(), "S");
    assert_eq!(server_named("").initials(), "");
    assert_eq!(server_named("ßeta x").initials(), "SSX");
}

#[test]
fn all_channels_in_category_order() {
    let servers = make_servers();
    let ids: Vec<&str> = servers[0].all_channels().iter().map(|c| c.id.as_str()).collect();
    assert_eq!(ids, vec!["101", "102", "103", "104", "105", "108", "106", "107", "109"]);
    let empty = ChannelCategory { name: "e".into(), channels: vec![], collapsed: true };
    let s = Server { categories: vec![empty], ..server_named("x") };
    assert!(s.all_channels().is_empty());
}

#[test]
fn voice_state_connection() {
    let mut v = VoiceState {
        channel_id: "106".into(),
        channel_name: "Lounge".into(),
        server_id: None,
        server_name: None,
        status: VoiceConnectionStatus::Connecting,
        is_muted: false,
        is_deafened: false,
        is_video_enabled: false,
        is_screen_sharing: false,
    };
    assert!(!v.is_connected());
    v.status = VoiceConnectionStatus::Connected;
    assert!(v.is_connected());
}

#[test]
fn dm_display_name_is_recipient() {
    let d = DirectMessageChannel {
        id: "dm".into(),
        recipient: user("u2", "Bob", UserStatus::Idle),
        last_message: None,
        last_message_time: None,
        unread: 0,
    };
    assert_eq!(d.display_name(), "Bob");
}

#[test]
fn screen_labels() {
    assert_eq!(SettingsScreen::Account.label(), "My Account");
    assert_eq!(SettingsScreen::Privacy.label(), "Privacy & Safety");
    assert_eq!(SettingsScreen::About.label(), "About");
    assert_eq!(ServerSettingsScreen::Overview.label(), "Overview");
    assert_eq!(ServerSettingsScreen::Members.label(), "Members");
}

#[test]
fn actions_compare_by_value() {
    assert_eq!(SelectFont(14), SelectFont(14));
    assert_ne!(SelectRadius(4), SelectRadius(8));
}

#[test]
fn unread_totals_add_notifications_and_channels() {
    let servers = make_servers();
    assert_eq!(servers[0].unread_total(), Some(20));
    assert_eq!(servers[1].unread_total(), Some(18));
    assert_eq!(servers[2].unread_total(), Some(14));
    let mut big = servers[2].clone();
    big.notification_count = usize::MAX;
    assert_eq!(big.unread_total(), None);
    big.categories[0].channels[1].unread = 0;
    assert_eq!(big.unread_total(), Some(usize::MAX));
}

#[test]
fn unread_badge_caps_at_nine() {
    assert_eq!(unread_badge_text(0), None);
    assert_eq!(unread_badge_text(1).as_deref(), Some("1"));
    assert_eq!(unread_badge_text(9).as_deref(), Some("9"));
    assert_eq!(unread_badge_text(10).as_deref(), Some("9+"));
    assert_eq!(unread_badge_text(usize::MAX).as_deref(), Some("9+"));
}
