use tripwire::message::{Attachment, Message, MessageReply, Reactions};
use tripwire::mock_data::make_user;
use tripwire::models::UserStatus;
use tripwire::upload::{prepare_attachment, AttachmentError, MAX_ATTACHMENT_BYTES};

fn message(id: &str, author: &str, content: &str, created_at: u128) -> Message {
    Message {
        id: id.to_string(),
        author: make_user(author, author, "0001", UserStatus::Online),
        content: content.to_string(),
        timestamp: "now".to_string(),
        edited: false,
        edited_timestamp: None,
        attachment: None,
        reactions: Reactions::new(),
        reply_to: None,
        mentioned_users: vec![],
        pinned: false,
        thread_id: None,
        thread_count: 0,
        created_at,
    }
}

const MINUTE: u128 = 60_000_000_000;

#[test]
fn reactions_add_count_and_remove() {
    let mut m = message("m", "a", "hi", 0);
    assert_eq!(m.reaction_count("👍"), 0);
    m.add_reaction("👍".into(), "u1".into());
    m.add_reaction("👍".into(), "u2".into());
    assert_eq!(m.reaction_count("👍"), 2);
    assert!(m.user_reacted("👍", "u1"));
    assert!(!m.user_reacted("❤️", "u1"));
    m.remove_reaction("👍", "u1");
    assert_eq!(m.reaction_count("👍"), 1);
    assert!(!m.user_reacted("👍", "u1"));
    m.remove_reaction("👍", "u2");
    assert_eq!(m.reaction_count("👍"), 0);
    assert!(m.reactions.summary().is_empty());
}

#[test]
fn removing_a_missing_reaction_changes_nothing() {
    let mut m = message("m", "a", "hi", 0);
    m.add_reaction("👍".into(), "u1".into());
    m.remove_reaction("🎉", "u1");
    m.remove_reaction("👍", "u9");
    assert_eq!(m.reaction_count("👍"), 1);
    assert_eq!(m.reactions.summary(), vec![("👍".to_string(), 1)]);
}

#[test]
fn duplicate_reactions_are_all_removed() {
    let mut m = message("m", "a", "hi", 0);
    m.add_reaction("👍".into(), "u1".into());
    m.add_reaction("👍".into(), "u1".into());
    assert_eq!(m.reaction_count("👍"), 2);
    m.remove_reaction("👍", "u1");
    assert_eq!(m.reaction_count("👍"), 0);
}

#[test]
fn toggle_twice_restores_and_flips() {
    let mut m = message("m", "a", "hi", 0);
    m.add_reaction("👍".into(), "u2".into());
    assert!(!m.user_reacted("👍", "u1"));
    m.toggle_reaction("👍".into(), "u1".into());
    assert!(m.user_reacted("👍", "u1"));
    assert_eq!(m.reaction_count("👍"), 2);
    m.toggle_reaction("👍".into(), "u1".into());
    assert!(!m.user_reacted("👍", "u1"));
    assert_eq!(m.reactions.summary(), vec![("👍".to_string(), 1)]);
    m.toggle_reaction("🔥".into(), "u1".into());
    m.toggle_reaction("🔥".into(), "u1".into());
    assert_eq!(m.reaction_count("🔥"), 0);
    assert_eq!(m.reactions.summary().len(), 1);
}

#[test]
fn replies_mentions_threads() {
    let mut m = message("m", "a", "hi", 0);
    assert!(!m.is_reply());
    m.reply_to = Some(Box::new(MessageReply {
        message_id: "x".into(),
        author: make_user("b", "b", "0001", UserStatus::Idle),
        content_preview: "p".into(),
    }));
    assert!(m.is_reply());
    m.mentioned_users = vec!["u7".into()];
    assert!(m.is_mentioned("u7"));
    assert!(!m.is_mentioned("u8"));
    assert!(!m.is_thread_parent());
    m.thread_count = 3;
    assert!(m.is_thread_parent());
}

#[test]
fn content_preview_cuts_at_bytes() {
    let m = message("m", "a", "hello world", 0);
    assert_eq!(m.content_preview(50), "hello world");
    assert_eq!(m.content_preview(11), "hello world");
    assert_eq!(m.content_preview(5), "hello...");
    assert_eq!(m.content_preview(0), "...");
    let e = message("m", "a", "héllo", 0);
    assert_eq!(e.content_preview(3), "hé...");
}

#[test]
fn grouping_same_author_within_five_minutes() {
    let earlier = message("1", "alice", "a", 10 * MINUTE);
    let later = message("2", "alice", "b", 10 * MINUTE + 4 * MINUTE);
    assert!(later.should_group_with(&earlier));
    let much_later = message("3", "alice", "c", 10 * MINUTE + 5 * MINUTE);
    assert!(!much_later.should_group_with(&earlier));
    let just_under = message("4", "alice", "d", 10 * MINUTE + 5 * MINUTE - 1);
    assert!(just_under.should_group_with(&earlier));
    assert!(!earlier.should_group_with(&later));
    let other = message("5", "bob", "e", 10 * MINUTE + MINUTE);
    assert!(!other.should_group_with(&earlier));
    let mut reply = message("6", "alice", "f", 10 * MINUTE + MINUTE);
    reply.reply_to = Some(Box::new(MessageReply {
        message_id: "1".into(),
        author: make_user("alice", "alice", "0001", UserStatus::Online),
        content_preview: "a".into(),
    }));
    assert!(!reply.should_group_with(&earlier));
    assert!(earlier.should_group_with(&earlier));
}

#[test]
fn image_attachments() {
    let a = Attachment {
        filename: "a.png".into(),
        mime_type: "image/png".into(),
        base64_data: String::new(),
        size: 0,
    };
    assert!(a.is_image());
    let b = Attachment { mime_type: "text/plain".into(), ..a.clone() };
    assert!(!b.is_image());
    let c = Attachment { mime_type: "image".into(), ..a };
    assert!(!c.is_image());
}

#[test]
fn prepare_attachment_checks_size_then_type() {
    let ok = prepare_attachment(b"abc", Some("png"), Some("cat.png")).unwrap();
    assert_eq!(ok.mime_type, "image/png");
    assert_eq!(ok.filename, "cat.png");
    assert_eq!(ok.base64_data, "YWJj");
    assert_eq!(ok.size, 3);
    assert_eq!(prepare_attachment(b"", Some("jpeg"), None).unwrap().mime_type, "image/jpeg");
    assert_eq!(prepare_attachment(b"", Some("jpg"), None).unwrap().filename, "unknown");
    assert_eq!(prepare_attachment(b"", Some("gif"), None).unwrap().mime_type, "image/gif");
    assert_eq!(prepare_attachment(b"", Some("webp"), None).unwrap().mime_type, "image/webp");
    assert_eq!(prepare_attachment(b"", Some("PNG"), None).unwrap_err(), AttachmentError::UnsupportedType);
    assert_eq!(prepare_attachment(b"", None, None).unwrap_err(), AttachmentError::UnsupportedType);
    let big = vec![0u8; MAX_ATTACHMENT_BYTES + 1];
    assert_eq!(
        prepare_attachment(&big, Some("txt"), None).unwrap_err(),
        AttachmentError::TooLarge(MAX_ATTACHMENT_BYTES + 1)
    );
    let edge = vec![0u8; MAX_ATTACHMENT_BYTES];
    assert!(prepare_attachment(&edge, Some("gif"), None).is_ok());
}
