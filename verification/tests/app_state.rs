use tripwire::app::TripwireApp;
use tripwire::auth::AuthState;
use tripwire::message::Message;
use tripwire::mock_data::{make_dm_channels, make_dm_messages_for, make_messages_for, make_servers, make_user};
use tripwire::models::{ChannelKind, UserStatus, VoiceConnectionStatus};
use tripwire::screens::{AppView, ServerSettingsScreen, SettingsScreen};
use tripwire::upload::AttachmentError;
use tripwire::forum::ForumThread;
use tripwire::members::{channel_count, media_messages, partition_members};
use tripwire::voice::{sample_stage_participants, sample_voice_participants, stage_audience_count, voice_member_count, StageRole};

fn signed_in() -> TripwireApp {
    let mut auth = AuthState::new(None);
    auth.bypass_login();
    TripwireApp::new(auth)
}

fn ids(ms: &[Message]) -> Vec<&str> {
    ms.iter().map(|m| m.id.as_str()).collect()
}

#[test]
fn starts_on_the_first_channel() {
    let app = signed_in();
    assert_eq!(app.current_view, AppView::Servers);
    assert_eq!(app.active_channel_id.as_deref(), Some("101"));
    assert_eq!(app.active_channel_name(), Some("announcements"));
    assert_eq!(app.active_channel_topic(), Some("Official announcements only."));
    assert_eq!(app.active_channel_kind(), Some(ChannelKind::Announcement));
    assert_eq!(ids(app.active_messages()), vec!["a1", "a2"]);
    assert!(app.active_dm_messages().is_empty());
    assert!(app.show_members);
    assert_eq!(app.settings_screen, SettingsScreen::Account);
}

#[test]
fn mock_data_shapes() {
    let servers = make_servers();
    assert_eq!(servers.len(), 3);
    assert_eq!(servers[1].name, "Dev Corner");
    assert_eq!(ids(&make_messages_for("103")).len(), 7);
    assert_eq!(ids(&make_messages_for("201")), vec!["d1", "d2"]);
    assert_eq!(ids(&make_messages_for("999")), vec!["empty1"]);
    assert_eq!(make_dm_channels().len(), 4);
    assert_eq!(ids(&make_dm_messages_for("dm-bob")), vec!["dm1", "dm2"]);
    assert_eq!(ids(&make_dm_messages_for("dm-frank")), vec!["dmf1"]);
    assert!(make_dm_messages_for("dm-carol").is_empty());
}

#[test]
fn mock_data_contents() {
    let servers = make_servers();
    let general = &servers[0].categories[1];
    assert_eq!(general.name, "General");
    assert!(!general.collapsed);
    let off_topic = &general.channels[2];
    assert_eq!(off_topic.name, "off-topic");
    assert_eq!(off_topic.unread, 12);
    assert!(off_topic.topic.is_none());
    let lounge = &servers[0].categories[2].channels[0];
    assert_eq!(lounge.members_connected, 3);
    assert!(lounge.voice_participants.is_empty());
    assert_eq!(servers[2].members[1].username, "Iris");
    assert_eq!(servers[2].members[1].status, UserStatus::Idle);
    let general_history = make_messages_for("103");
    assert!(general_history[3].edited);
    assert_eq!(general_history[0].content, "Hey everyone! How's it going? 👋");
    assert_eq!(general_history[5].author.username, "Carol");
    let dms = make_dm_channels();
    assert_eq!(dms[3].last_message.as_deref(), Some("Check out this new library I found"));
    assert_eq!(dms[2].last_message_time.as_deref(), Some("2 days ago"));
    assert_eq!(make_dm_messages_for("dm-bob")[1].timestamp, "Today at 12:45 PM");
}

#[test]
fn switching_servers_opens_their_first_channel() {
    let mut app = signed_in();
    app.switch_server(1);
    assert_eq!(app.active_server, 1);
    assert_eq!(app.active_channel_id.as_deref(), Some("201"));
    assert_eq!(ids(app.active_messages()), vec!["d1", "d2"]);
    app.switch_server(7);
    assert_eq!(app.active_server, 7);
    assert_eq!(app.active_channel_id.as_deref(), Some("201"));
    assert!(app.active_server().is_none());
    assert!(app.active_channel().is_none());
}

#[test]
fn loaded_history_is_kept_when_switching_back() {
    let mut app = signed_in();
    app.switch_channel("103".into());
    assert!(app.send_message("new one", 5));
    app.switch_channel("104".into());
    assert_eq!(ids(app.active_messages()), vec!["empty1"]);
    app.switch_channel("103".into());
    assert_eq!(app.active_messages().len(), 8);
    assert_eq!(app.active_messages().last().unwrap().content, "new one");
}

#[test]
fn dms_switch_views() {
    let mut app = signed_in();
    app.switch_dm("dm-bob".into());
    assert_eq!(app.current_view, AppView::DirectMessages);
    assert!(app.active_channel_id.is_none());
    assert_eq!(ids(app.active_dm_messages()), vec!["dm1", "dm2"]);
    assert_eq!(app.active_dm().map(|d| d.display_name()), Some("Bob".to_string()));
    app.switch_to_servers();
    assert!(app.active_dm().is_none());
    assert_eq!(app.current_view, AppView::Servers);
    assert!(app.active_dm_id.is_none());
    app.switch_to_dms();
    assert_eq!(app.current_view, AppView::DirectMessages);
}

#[test]
fn sending_appends_to_the_open_list() {
    let mut app = signed_in();
    assert!(!app.send_message("   ", 1));
    assert_eq!(app.active_messages().len(), 2);
    assert!(app.send_message("  hello  ", 1_000));
    let last = app.active_messages().last().unwrap();
    assert_eq!(last.content, "hello");
    assert_eq!(last.id, "msg_1000");
    assert_eq!(last.author.id, "dev_user");
    assert_eq!(last.timestamp, "Just now");
    assert_eq!(last.created_at, 1_000);
    app.switch_dm("dm-carol".into());
    assert!(app.send_message("hey", 2));
    assert_eq!(ids(app.active_dm_messages()), vec!["msg_2"]);
}

#[test]
fn sending_without_user_clears_but_sends_nothing() {
    let mut app = TripwireApp::new(AuthState::new(None));
    assert!(app.send_message("hello", 1));
    assert_eq!(app.active_messages().len(), 2);
}

#[test]
fn attachment_and_reply_go_with_the_message() {
    let mut app = signed_in();
    assert_eq!(app.process_attachment(b"xyz", Some("bmp"), Some("a.bmp")), Err(AttachmentError::UnsupportedType));
    assert!(app.pending_attachment.is_none());
    assert_eq!(app.process_attachment(b"xyz", Some("png"), Some("a.png")), Ok(()));
    let first = make_messages_for("101").remove(0);
    app.start_reply(&first);
    assert_eq!(app.replying_to.as_ref().unwrap().content_preview, first.content_preview(50));
    assert!(app.send_message("", 3));
    let last = app.active_messages().last().unwrap();
    assert_eq!(last.attachment.as_ref().unwrap().base64_data, "eHl6");
    assert_eq!(last.reply_to.as_ref().unwrap().message_id, "a1");
    assert!(app.pending_attachment.is_none());
    assert!(app.replying_to.is_none());
    app.process_attachment(b"q", Some("gif"), None).unwrap();
    app.clear_attachment();
    assert!(app.pending_attachment.is_none());
    app.start_reply(&first);
    app.cancel_reply();
    assert!(app.replying_to.is_none());
}

#[test]
fn reactions_toggle_in_the_open_channel() {
    let mut app = signed_in();
    app.toggle_reaction("a1", "👍".into());
    assert!(app.active_messages()[0].user_reacted("👍", "dev_user"));
    app.toggle_reaction("a1", "👍".into());
    assert_eq!(app.active_messages()[0].reaction_count("👍"), 0);
    app.toggle_reaction("nope", "👍".into());
    let mut anon = TripwireApp::new(AuthState::new(None));
    anon.toggle_reaction("a1", "👍".into());
    assert_eq!(anon.active_messages()[0].reaction_count("👍"), 0);
}

#[test]
fn editing_a_message() {
    let mut app = signed_in();
    assert_eq!(app.start_edit_message("zzz".into()), None);
    assert!(app.editing_message_id.is_none());
    assert_eq!(app.start_edit_message("a2".into()).unwrap(), app.active_messages()[1].content);
    assert!(!app.save_edit("   "));
    assert_eq!(app.editing_message_id.as_deref(), Some("a2"));
    assert!(app.save_edit(" fixed "));
    assert!(app.editing_message_id.is_none());
    let m = &app.active_messages()[1];
    assert_eq!(m.content, "fixed");
    assert!(m.edited);
    assert_eq!(m.edited_timestamp.as_deref(), Some("Just now"));
    assert!(!app.save_edit("again"));
    app.start_edit_message("a1".into());
    app.cancel_edit();
    assert!(app.editing_message_id.is_none());
}

#[test]
fn deleting_a_message() {
    let mut app = signed_in();
    app.delete_message("a1");
    assert_eq!(ids(app.active_messages()), vec!["a2"]);
    app.delete_message("missing");
    assert_eq!(ids(app.active_messages()), vec!["a2"]);
}

#[test]
fn categories_fold_and_unfold() {
    let mut app = signed_in();
    app.toggle_category("General");
    assert!(app.servers[0].categories[1].collapsed);
    app.toggle_category("General");
    assert!(!app.servers[0].categories[1].collapsed);
    app.toggle_category("Nope");
    assert!(app.servers[0].categories.iter().all(|c| !c.collapsed));
}

#[test]
fn profiles_are_kept() {
    let mut app = signed_in();
    let bob = make_user("u2", "Bob", "0002", UserStatus::Idle);
    app.show_user_profile(bob.clone());
    assert_eq!(app.show_profile.as_ref().unwrap().user.username, "Bob");
    assert_eq!(app.user_profiles.len(), 1);
    app.close_profile();
    assert!(app.show_profile.is_none());
    app.show_user_profile(bob);
    assert_eq!(app.user_profiles.len(), 1);
}

#[test]
fn settings_dialogs() {
    let mut app = signed_in();
    app.open_settings();
    assert!(app.show_settings);
    app.switch_settings_screen(SettingsScreen::Language);
    assert_eq!(app.settings_screen, SettingsScreen::Language);
    app.close_settings();
    assert!(!app.show_settings);
    app.open_server_settings();
    app.switch_server_settings_screen(ServerSettingsScreen::Roles);
    app.close_server_settings();
    app.open_server_settings();
    assert!(app.show_server_settings);
    assert_eq!(app.server_settings_screen, ServerSettingsScreen::Overview);
}

#[test]
fn voice_sessions() {
    let mut app = signed_in();
    let servers = make_servers();
    let lounge = servers[0].categories[2].channels[0].clone();
    let gaming = servers[0].categories[2].channels[1].clone();
    assert!(app.join_voice_channel(lounge.clone(), Some(servers[0].clone())));
    assert!(!app.is_in_voice_channel("106"));
    assert!(app.is_in_voice());
    app.complete_voice_connection();
    assert!(app.is_in_voice_channel("106"));
    let v = app.voice_state.as_ref().unwrap();
    assert_eq!(v.server_name.as_deref(), Some("Tripwire HQ"));
    assert!(!app.join_voice_channel(gaming.clone(), None));
    assert_eq!(app.show_voice_switch_warning.as_ref().unwrap().0.id, "107");
    assert!(app.is_in_voice_channel("106"));
    app.cancel_voice_switch();
    assert!(app.show_voice_switch_warning.is_none());
    assert!(!app.join_voice_channel(gaming, None));
    assert!(app.confirm_voice_switch());
    assert_eq!(app.voice_state.as_ref().unwrap().channel_id, "107");
    assert_eq!(app.voice_state.as_ref().unwrap().status, VoiceConnectionStatus::Connecting);
    assert!(!app.confirm_voice_switch());
    app.leave_voice_channel();
    assert!(!app.is_in_voice());
}

#[test]
fn voice_controls() {
    let mut app = signed_in();
    app.toggle_mute();
    assert!(app.voice_state.is_none());
    let servers = make_servers();
    app.join_voice_channel(servers[0].categories[2].channels[0].clone(), None);
    app.toggle_mute();
    assert!(app.voice_state.as_ref().unwrap().is_muted);
    app.toggle_mute();
    assert!(!app.voice_state.as_ref().unwrap().is_muted);
    app.toggle_deafen();
    let v = app.voice_state.as_ref().unwrap();
    assert!(v.is_deafened && v.is_muted);
    app.toggle_mute();
    let v = app.voice_state.as_ref().unwrap();
    assert!(v.is_deafened && v.is_muted);
    app.toggle_deafen();
    let v = app.voice_state.as_ref().unwrap();
    assert!(!v.is_deafened && v.is_muted);
    app.toggle_video();
    app.toggle_screen_share();
    let v = app.voice_state.as_ref().unwrap();
    assert!(v.is_video_enabled && v.is_screen_sharing);
    app.toggle_video();
    app.toggle_screen_share();
    let v = app.voice_state.as_ref().unwrap();
    assert!(!v.is_video_enabled && !v.is_screen_sharing);
}

#[test]
fn threads_collect_replies() {
    let mut app = signed_in();
    assert!(!app.send_thread_reply("hi", 1));
    app.open_thread("a1".into());
    assert_eq!(app.open_thread_id.as_deref(), Some("a1"));
    assert!(app.thread_messages.get("a1").unwrap().is_empty());
    assert!(!app.send_thread_reply("  ", 1));
    assert!(app.send_thread_reply("first reply ", 9));
    let replies = app.thread_messages.get("a1").unwrap();
    assert_eq!(replies.len(), 1);
    let r = &replies[0];
    assert_eq!(r.content, "first reply ");
    assert!(r.id.starts_with("thread-msg-"));
    assert_eq!(r.id.len(), 47);
    assert_eq!(r.id.as_bytes()[11 + 14], b'4');
    assert_eq!(r.thread_id.as_deref(), Some("a1"));
    assert_eq!(r.author.username, "You");
    assert_eq!(app.get_message_by_id("a1").unwrap().thread_count, 1);
    assert!(app.get_message_by_id("nothing").is_none());
    app.open_voice_chat_sidebar();
    assert!(app.open_thread_id.is_none());
    assert!(app.show_voice_chat_sidebar);
    app.close_voice_chat_sidebar();
    app.open_forum_thread("a2".into());
    assert_eq!(app.open_thread_id.as_deref(), Some("a2"));
    app.close_thread();
    assert!(app.open_thread_id.is_none());
}

#[test]
fn typing_users_are_named_by_the_server() {
    let mut app = signed_in();
    assert!(app.get_typing_users().is_empty());
    app.typing_users.insert("101".into(), vec!["u2".into(), "zz".into(), "u3".into()]);
    assert_eq!(app.get_typing_users(), vec!["Bob".to_string(), "Carol".to_string()]);
}

#[test]
fn logout_signs_out() {
    let mut app = signed_in();
    app.logout();
    assert!(!app.auth.is_authenticated());
}

#[test]
fn forum_threads_from_every_third_message() {
    let app = signed_in();
    let ms = make_messages_for("103");
    let threads: Vec<ForumThread> = app.group_messages_into_threads(&ms);
    assert_eq!(threads.len(), 3);
    assert_eq!(threads[0].id, "m1");
    assert_eq!(threads[1].id, "m4");
    assert_eq!(threads[2].id, "m7");
    assert!(threads[0].is_pinned && !threads[1].is_pinned);
    assert_eq!(threads[1].reply_count, 4);
    assert_eq!(threads[2].reply_count, 7);
    assert_eq!(threads[0].title, "Hey everyone! How's it going? 👋");
    assert_eq!(threads[0].tags, vec!["discussion".to_string()]);
    assert!(app.group_messages_into_threads(&[]).is_empty());
}

#[test]
fn forum_titles() {
    let app = signed_in();
    let mut ms = make_messages_for("999");
    ms[0].content = "line one\r\nline two".into();
    assert_eq!(app.group_messages_into_threads(&ms)[0].title, "line one");
    ms[0].content = String::new();
    assert_eq!(app.group_messages_into_threads(&ms)[0].title, "Untitled");
    ms[0].content = "x".repeat(100);
    assert_eq!(app.group_messages_into_threads(&ms)[0].title, "x".repeat(80));
    ms[0].content = "\nsecond".into();
    assert_eq!(app.group_messages_into_threads(&ms)[0].title, "");
}

#[test]
fn member_panel_and_counts() {
    let servers = make_servers();
    let (online, offline) = partition_members(&servers[0].members);
    let on: Vec<&str> = online.iter().map(|u| u.username.as_str()).collect();
    let off: Vec<&str> = offline.iter().map(|u| u.username.as_str()).collect();
    assert_eq!(on, vec!["Alice", "Bob", "Carol"]);
    assert_eq!(off, vec!["Dave", "Eve"]);
    assert_eq!(channel_count(&servers[0]), 9);
    assert_eq!(channel_count(&servers[2]), 2);
    let mut ms = make_messages_for("103");
    ms[2].attachment = tripwire::upload::prepare_attachment(b"x", Some("png"), None).ok();
    let media: Vec<&str> = media_messages(&ms).iter().map(|m| m.id.as_str()).collect();
    assert_eq!(media, vec!["m3"]);
}

#[test]
fn voice_and_stage_samples() {
    let v = sample_voice_participants();
    assert_eq!(v.len(), 3);
    assert_eq!(v[2].username, "Charlie");
    assert_eq!(voice_member_count(1, 3), 3);
    assert_eq!(voice_member_count(5, 3), 5);
    let s = sample_stage_participants();
    assert_eq!(s[0].role, StageRole::Moderator);
    assert_eq!(stage_audience_count(10, 3), 7);
    assert_eq!(stage_audience_count(2, 3), 0);
}
