//! Sample servers, channels, conversations and messages.
use vstd::prelude::*;
use crate::models::{
    Channel, ChannelCategory, ChannelKind, DirectMessageChannel, Server, User, UserProfile,
    UserStatus, VoiceParticipant, flat_channels,
};
use crate::upload::opt_seq;
use crate::message::{Message, Reactions};
use crate::text::str_eq;

verus! {

/// A user with the given fields.
pub fn make_user(id: &str, name: &str, disc: &str, status: UserStatus) -> (u: User)
    ensures
        u.id@ == id@,
        u.username@ == name@,
        u.discriminator@ == disc@,
        u.status == status,
{
    User {
        id: String::from_str(id),
        username: String::from_str(name),
        discriminator: String::from_str(disc),
        status,
    }
}

/// The profile shown for a user about whom nothing more is known.
pub fn make_user_profile(user: User) -> (p: UserProfile)
    ensures
        p.user == user,
        p.bio is None && p.custom_status is None && p.custom_status_emoji is None,
        p.accent_color is None && p.banner_url is None && p.note is None,
        p.member_since@ == Seq::<char>::empty(),
        p.roles@.len() == 0,
        p.badges@.len() == 0,
{
    UserProfile {
        user,
        bio: None,
        custom_status: None,
        custom_status_emoji: None,
        accent_color: None,
        banner_url: None,
        member_since: String::new(),
        roles: Vec::new(),
        badges: Vec::new(),
        note: None,
    }
}

fn opt_text(s: Option<&str>) -> (r: Option<String>)
    ensures
        r.is_some() == s.is_some(),
        r matches Some(x) ==> x@ == s.unwrap()@,
{
    match s {
        Some(t) => Some(String::from_str(t)),
        None => None,
    }
}

fn channel(
    id: &str,
    name: &str,
    kind: ChannelKind,
    unread: usize,
    topic: Option<&str>,
    members_connected: usize,
) -> (c: Channel)
    ensures
        c.id@ == id@,
        c.name@ == name@,
        c.kind == kind,
        c.unread == unread,
        c.members_connected == members_connected,
        text_of(c.topic) == opt_seq(topic),
        c.voice_participants@ == Seq::<VoiceParticipant>::empty(),
{
    Channel {
        id: String::from_str(id),
        name: String::from_str(name),
        kind,
        unread,
        topic: opt_text(topic),
        members_connected,
        voice_participants: Vec::new(),
    }
}

/// An optional text by its characters.
pub open spec fn text_of(o: Option<String>) -> Option<Seq<char>> {
    match o {
        Some(s) => Some(s@),
        None => None,
    }
}

/// A user as shown: identifier, name, discriminator and presence.
pub type UserRow = (Seq<char>, Seq<char>, Seq<char>, UserStatus);

/// A channel as shown: identifier, name, kind, unread count, topic, number
/// of connected members and voice participants.
pub type ChannelRow = (Seq<char>, Seq<char>, ChannelKind, usize, Option<Seq<char>>, usize, Seq<VoiceParticipant>);

/// A category: name, its channels and whether it is collapsed.
pub type CategoryRow = (Seq<char>, Seq<ChannelRow>, bool);

/// A server: identifier, name, categories, members and notification count.
pub type ServerRow = (Seq<char>, Seq<char>, Seq<CategoryRow>, Seq<UserRow>, usize);

pub open spec fn user_row(u: User) -> UserRow {
    (u.id@, u.username@, u.discriminator@, u.status)
}

pub open spec fn user_rows(us: Seq<User>) -> Seq<UserRow> {
    us.map_values(|u: User| user_row(u))
}

pub open spec fn channel_row(c: Channel) -> ChannelRow {
    (c.id@, c.name@, c.kind, c.unread, text_of(c.topic), c.members_connected, c.voice_participants@)
}

pub open spec fn channel_rows(cs: Seq<Channel>) -> Seq<ChannelRow> {
    cs.map_values(|c: Channel| channel_row(c))
}

pub open spec fn category_row(c: ChannelCategory) -> CategoryRow {
    (c.name@, channel_rows(c.channels@), c.collapsed)
}

pub open spec fn server_row(s: Server) -> ServerRow {
    (s.id@, s.name@, s.categories@.map_values(|c: ChannelCategory| category_row(c)), user_rows(s.members@), s.notification_count)
}

/// The identifiers of a list of channels.
pub open spec fn channel_ids(cs: Seq<Channel>) -> Seq<Seq<char>> {
    cs.map_values(|c: Channel| c.id@)
}

pub open spec fn alice() -> UserRow { ("u1"@, "Alice"@, "0001"@, UserStatus::Online) }
pub open spec fn bob() -> UserRow { ("u2"@, "Bob"@, "0002"@, UserStatus::Idle) }
pub open spec fn carol() -> UserRow { ("u3"@, "Carol"@, "0003"@, UserStatus::DoNotDisturb) }
pub open spec fn dave() -> UserRow { ("u4"@, "Dave"@, "0004"@, UserStatus::Offline) }
pub open spec fn eve() -> UserRow { ("u5"@, "Eve"@, "0005"@, UserStatus::Offline) }
pub open spec fn frank() -> UserRow { ("u6"@, "Frank"@, "0006"@, UserStatus::Online) }
pub open spec fn grace() -> UserRow { ("u7"@, "Grace"@, "0007"@, UserStatus::Offline) }
pub open spec fn hank() -> UserRow { ("u8"@, "Hank"@, "0008"@, UserStatus::Online) }
pub open spec fn iris() -> UserRow { ("u9"@, "Iris"@, "0009"@, UserStatus::Idle) }

/// A channel without voice participants.
pub open spec fn plain_channel(
    id: Seq<char>,
    name: Seq<char>,
    kind: ChannelKind,
    unread: usize,
    topic: Option<Seq<char>>,
    connected: usize,
) -> ChannelRow {
    (id, name, kind, unread, topic, connected, Seq::empty())
}

/// The sample servers, in order.
pub open spec fn sample_servers() -> Seq<ServerRow> {
    seq![
        ("1"@, "Tripwire HQ"@, seq![
            ("Information"@, seq![
                plain_channel("101"@, "announcements"@, ChannelKind::Announcement, 1, Some("Official announcements only."@), 0),
                plain_channel("102"@, "rules"@, ChannelKind::Text, 0, Some("Read before participating."@), 0),
            ], false),
            ("General"@, seq![
                plain_channel("103"@, "general"@, ChannelKind::Text, 5, Some("Chat about anything!"@), 0),
                plain_channel("104"@, "introductions"@, ChannelKind::Text, 0, Some("Introduce yourself to the community."@), 0),
                plain_channel("105"@, "off-topic"@, ChannelKind::Text, 12, None, 0),
                plain_channel("108"@, "media-sharing"@, ChannelKind::Media, 2, Some("Share your photos and videos"@), 0),
            ], false),
            ("Voice"@, seq![
                plain_channel("106"@, "Lounge"@, ChannelKind::Voice, 0, None, 3),
                plain_channel("107"@, "Gaming"@, ChannelKind::Voice, 0, None, 0),
                plain_channel("109"@, "Town Hall"@, ChannelKind::Stage, 0, Some("Monthly community meetings"@), 0),
            ], false),
        ], seq![alice(), bob(), carol(), dave(), eve()], 0),
        ("2"@, "Dev Corner"@, seq![
            ("Dev"@, seq![
                plain_channel("201"@, "general-dev"@, ChannelKind::Text, 3, Some("Development discussion"@), 0),
                plain_channel("202"@, "rust"@, ChannelKind::Text, 0, Some("Rustaceans unite!"@), 0),
                plain_channel("203"@, "code-review"@, ChannelKind::Text, 2, None, 0),
                plain_channel("204"@, "help-forum"@, ChannelKind::Forum, 8, Some("Ask questions and get help"@), 0),
            ], false),
        ], seq![alice(), frank(), grace()], 5),
        ("3"@, "Design Lab"@, seq![
            ("Design"@, seq![
                plain_channel("301"@, "inspiration"@, ChannelKind::Text, 0, Some("Share design inspiration"@), 0),
                plain_channel("302"@, "feedback"@, ChannelKind::Text, 7, None, 0),
            ], false),
        ], seq![hank(), iris()], 7),
    ]
}

/// Whether `s` holds exactly the sample servers.
pub open spec fn is_sample_servers(s: Seq<Server>) -> bool {
    s.map_values(|x: Server| server_row(x)) == sample_servers()
}

/// The three sample servers with their categories, channels and members.
pub fn make_servers() -> (r: Vec<Server>)
    ensures
        is_sample_servers(r@),
        channel_ids(flat_channels(r@[0].categories@)) == seq![
            "101"@, "102"@, "103"@, "104"@, "105"@, "108"@, "106"@, "107"@, "109"@,
        ],
        channel_ids(flat_channels(r@[1].categories@)) == seq!["201"@, "202"@, "203"@, "204"@],
        channel_ids(flat_channels(r@[2].categories@)) == seq!["301"@, "302"@],
{
    let info = ChannelCategory {
        name: String::from_str("Information"),
        channels: vec![
            channel("101", "announcements", ChannelKind::Announcement, 1, Some("Official announcements only."), 0),
            channel("102", "rules", ChannelKind::Text, 0, Some("Read before participating."), 0),
        ],
        collapsed: false,
    };
    let general = ChannelCategory {
        name: String::from_str("General"),
        channels: vec![
            channel("103", "general", ChannelKind::Text, 5, Some("Chat about anything!"), 0),
            channel("104", "introductions", ChannelKind::Text, 0, Some("Introduce yourself to the community."), 0),
            channel("105", "off-topic", ChannelKind::Text, 12, None, 0),
            channel("108", "media-sharing", ChannelKind::Media, 2, Some("Share your photos and videos"), 0),
        ],
        collapsed: false,
    };
    let voice = ChannelCategory {
        name: String::from_str("Voice"),
        channels: vec![
            channel("106", "Lounge", ChannelKind::Voice, 0, None, 3),
            channel("107", "Gaming", ChannelKind::Voice, 0, None, 0),
            channel("109", "Town Hall", ChannelKind::Stage, 0, Some("Monthly community meetings"), 0),
        ],
        collapsed: false,
    };
    let hq = Server {
        id: String::from_str("1"),
        name: String::from_str("Tripwire HQ"),
        categories: vec![info, general, voice],
        members: vec![
            make_user("u1", "Alice", "0001", UserStatus::Online),
            make_user("u2", "Bob", "0002", UserStatus::Idle),
            make_user("u3", "Carol", "0003", UserStatus::DoNotDisturb),
            make_user("u4", "Dave", "0004", UserStatus::Offline),
            make_user("u5", "Eve", "0005", UserStatus::Offline),
        ],
        notification_count: 0,
    };
    let dev = ChannelCategory {
        name: String::from_str("Dev"),
        channels: vec![
            channel("201", "general-dev", ChannelKind::Text, 3, Some("Development discussion"), 0),
            channel("202", "rust", ChannelKind::Text, 0, Some("Rustaceans unite!"), 0),
            channel("203", "code-review", ChannelKind::Text, 2, None, 0),
            channel("204", "help-forum", ChannelKind::Forum, 8, Some("Ask questions and get help"), 0),
        ],
        collapsed: false,
    };
    let corner = Server {
        id: String::from_str("2"),
        name: String::from_str("Dev Corner"),
        categories: vec![dev],
        members: vec![
            make_user("u1", "Alice", "0001", UserStatus::Online),
            make_user("u6", "Frank", "0006", UserStatus::Online),
            make_user("u7", "Grace", "0007", UserStatus::Offline),
        ],
        notification_count: 5,
    };
    let design = ChannelCategory {
        name: String::from_str("Design"),
        channels: vec![
            channel("301", "inspiration", ChannelKind::Text, 0, Some("Share design inspiration"), 0),
            channel("302", "feedback", ChannelKind::Text, 7, None, 0),
        ],
        collapsed: false,
    };
    let lab = Server {
        id: String::from_str("3"),
        name: String::from_str("Design Lab"),
        categories: vec![design],
        members: vec![
            make_user("u8", "Hank", "0008", UserStatus::Online),
            make_user("u9", "Iris", "0009", UserStatus::Idle),
        ],
        notification_count: 7,
    };
    let r = vec![hq, corner, lab];
    proof {
        reveal_with_fuel(flat_channels, 4);
        let c0 = flat_channels(r@[0].categories@);
        assert(channel_ids(c0) =~= seq!["101"@, "102"@, "103"@, "104"@, "105"@, "108"@, "106"@, "107"@, "109"@]);
        let c1 = flat_channels(r@[1].categories@);
        assert(channel_ids(c1) =~= seq!["201"@, "202"@, "203"@, "204"@]);
        let c2 = flat_channels(r@[2].categories@);
        assert(channel_ids(c2) =~= seq!["301"@, "302"@]);
        assert(r@.map_values(|x: Server| server_row(x)) =~~= sample_servers());
    }
    r
}

/// A sample message has no reactions, reply, attachment, mention or thread,
/// and carries creation time zero.
pub open spec fn is_plain_sample(m: Message) -> bool {
    &&& m.reactions@ == Map::<Seq<char>, Seq<Seq<char>>>::empty()
    &&& m.reply_to is None
    &&& m.attachment is None
    &&& m.mentioned_users@.len() == 0
    &&& m.thread_id is None
    &&& m.thread_count == 0
    &&& !m.pinned
    &&& m.edited_timestamp is None
    &&& m.created_at == 0
}

fn sample(id: &str, author: User, content: &str, timestamp: &str, edited: bool) -> (m: Message)
    ensures
        m.id@ == id@,
        m.author == author,
        m.content@ == content@,
        m.timestamp@ == timestamp@,
        m.edited == edited,
        is_plain_sample(m),
{
    Message {
        id: String::from_str(id),
        author,
        content: String::from_str(content),
        timestamp: String::from_str(timestamp),
        edited,
        edited_timestamp: None,
        attachment: None,
        reactions: Reactions::new(),
        reply_to: None,
        mentioned_users: Vec::new(),
        pinned: false,
        thread_id: None,
        thread_count: 0,
        created_at: 0,
    }
}

/// A message as shown: identifier, author, text, time label and whether it
/// was edited.
pub type MessageRow = (Seq<char>, UserRow, Seq<char>, Seq<char>, bool);

pub open spec fn message_row(m: Message) -> MessageRow {
    (m.id@, user_row(m.author), m.content@, m.timestamp@, m.edited)
}

pub open spec fn message_rows(ms: Seq<Message>) -> Seq<MessageRow> {
    ms.map_values(|m: Message| message_row(m))
}

/// The sample history of a server channel, oldest first.
pub open spec fn channel_history(channel_id: Seq<char>) -> Seq<MessageRow> {
    if channel_id == "103"@ {
        seq![
            ("m1"@, alice(), "Hey everyone! How's it going? 👋"@, "Today at 9:00 AM"@, false),
            ("m2"@, bob(), "Doing great! Just finished setting up Tripwire locally."@, "Today at 9:02 AM"@, false),
            ("m3"@, carol(), "This UI is looking amazing. Love the Discord vibe!"@, "Today at 9:05 AM"@, false),
            ("m4"@, alice(), "Thanks! Built entirely with GPUI components. The component library is fantastic."@, "Today at 9:07 AM"@, true),
            ("m5"@, bob(), "I saw the auth screen — nice touch with the dev bypass button for testing."@, "Today at 9:10 AM"@, false),
            ("m6"@, carol(), "The resizable panels from the Dock system would make a great addition here."@, "Today at 9:12 AM"@, false),
            ("m7"@, alice(), "100% on the roadmap. Also planning markdown rendering for messages using the Text component."@, "Today at 9:15 AM"@, false),
        ]
    } else if channel_id == "101"@ {
        seq![
            ("a1"@, alice(), "🎉 Welcome to Tripwire! This is our brand-new communication platform."@, "Yesterday at 8:00 AM"@, false),
            ("a2"@, alice(), "We're in early alpha — expect rapid changes. Your feedback is welcome in #general."@, "Yesterday at 8:01 AM"@, false),
        ]
    } else if channel_id == "201"@ {
        seq![
            ("d1"@, frank(), "Anyone familiar with the GPUI entity system? I'm trying to share state across views."@, "Today at 10:30 AM"@, false),
            ("d2"@, alice(), "Use a Global or pass Entity<T> handles around. Globals are easiest for app-wide state."@, "Today at 10:35 AM"@, false),
        ]
    } else {
        seq![("empty1"@, alice(), "Be the first to send a message in this channel!"@, "Today"@, false)]
    }
}

/// The sample history of a channel.
pub open spec fn is_channel_sample(channel_id: Seq<char>, ms: Seq<Message>) -> bool {
    &&& forall|i: int| 0 <= i < ms.len() ==> is_plain_sample(#[trigger] ms[i])
    &&& message_rows(ms) == channel_history(channel_id)
}

/// The sample history of a server channel.
pub fn make_messages_for(channel_id: &str) -> (r: Vec<Message>)
    ensures
        is_channel_sample(channel_id@, r@),
{
    let alice = make_user("u1", "Alice", "0001", UserStatus::Online);
    let bob = make_user("u2", "Bob", "0002", UserStatus::Idle);
    let carol = make_user("u3", "Carol", "0003", UserStatus::DoNotDisturb);
    if str_eq(channel_id, "103") {
        let r = vec![
            sample("m1", alice.clone(), "Hey everyone! How's it going? 👋", "Today at 9:00 AM", false),
            sample("m2", bob.clone(), "Doing great! Just finished setting up Tripwire locally.", "Today at 9:02 AM", false),
            sample("m3", carol.clone(), "This UI is looking amazing. Love the Discord vibe!", "Today at 9:05 AM", false),
            sample("m4", alice.clone(), "Thanks! Built entirely with GPUI components. The component library is fantastic.", "Today at 9:07 AM", true),
            sample("m5", bob.clone(), "I saw the auth screen — nice touch with the dev bypass button for testing.", "Today at 9:10 AM", false),
            sample("m6", carol.clone(), "The resizable panels from the Dock system would make a great addition here.", "Today at 9:12 AM", false),
            sample("m7", alice.clone(), "100% on the roadmap. Also planning markdown rendering for messages using the Text component.", "Today at 9:15 AM", false),
        ];
        assert(message_rows(r@) =~~= channel_history(channel_id@));
        r
    } else if str_eq(channel_id, "101") {
        let r = vec![
            sample("a1", alice.clone(), "🎉 Welcome to Tripwire! This is our brand-new communication platform.", "Yesterday at 8:00 AM", false),
            sample("a2", alice.clone(), "We're in early alpha — expect rapid changes. Your feedback is welcome in #general.", "Yesterday at 8:01 AM", false),
        ];
        assert(message_rows(r@) =~~= channel_history(channel_id@));
        r
    } else if str_eq(channel_id, "201") {
        let r = vec![
            sample("d1", make_user("u6", "Frank", "0006", UserStatus::Online), "Anyone familiar with the GPUI entity system? I'm trying to share state across views.", "Today at 10:30 AM", false),
            sample("d2", alice.clone(), "Use a Global or pass Entity<T> handles around. Globals are easiest for app-wide state.", "Today at 10:35 AM", false),
        ];
        assert(message_rows(r@) =~~= channel_history(channel_id@));
        r
    } else {
        let r = vec![
            sample("empty1", alice, "Be the first to send a message in this channel!", "Today", false),
        ];
        assert(message_rows(r@) =~~= channel_history(channel_id@));
        r
    }
}

fn dm_channel(
    id: &str,
    recipient: User,
    last_message: &str,
    last_message_time: &str,
    unread: usize,
) -> (d: DirectMessageChannel)
    ensures
        d.id@ == id@,
        d.recipient == recipient,
        d.last_message matches Some(m) && m@ == last_message@,
        d.last_message_time matches Some(t) && t@ == last_message_time@,
        d.unread == unread,
{
    DirectMessageChannel {
        id: String::from_str(id),
        recipient,
        last_message: Some(String::from_str(last_message)),
        last_message_time: Some(String::from_str(last_message_time)),
        unread,
    }
}

/// A conversation as listed: identifier, recipient, last message and its
/// time label, unread count.
pub type DmRow = (Seq<char>, UserRow, Option<Seq<char>>, Option<Seq<char>>, usize);

pub open spec fn dm_row(d: DirectMessageChannel) -> DmRow {
    (d.id@, user_row(d.recipient), text_of(d.last_message), text_of(d.last_message_time), d.unread)
}

/// The sample conversations, in order.
pub open spec fn sample_dms() -> Seq<DmRow> {
    seq![
        ("dm-bob"@, bob(), Some("That sounds great! Let's do it."@), Some("12:45 PM"@), 2),
        ("dm-carol"@, carol(), Some("Thanks for the help!"@), Some("Yesterday"@), 0),
        ("dm-dave"@, dave(), Some("See you later!"@), Some("2 days ago"@), 0),
        ("dm-frank"@, frank(), Some("Check out this new library I found"@), Some("10:20 AM"@), 5),
    ]
}

/// Whether `ds` holds exactly the sample conversations.
pub open spec fn is_sample_dms(ds: Seq<DirectMessageChannel>) -> bool {
    ds.map_values(|d: DirectMessageChannel| dm_row(d)) == sample_dms()
}

/// The sample direct-message conversations.
pub fn make_dm_channels() -> (r: Vec<DirectMessageChannel>)
    ensures
        is_sample_dms(r@),
{
    let r = vec![
        dm_channel("dm-bob", make_user("u2", "Bob", "0002", UserStatus::Idle), "That sounds great! Let's do it.", "12:45 PM", 2),
        dm_channel("dm-carol", make_user("u3", "Carol", "0003", UserStatus::DoNotDisturb), "Thanks for the help!", "Yesterday", 0),
        dm_channel("dm-dave", make_user("u4", "Dave", "0004", UserStatus::Offline), "See you later!", "2 days ago", 0),
        dm_channel("dm-frank", make_user("u6", "Frank", "0006", UserStatus::Online), "Check out this new library I found", "10:20 AM", 5),
    ];
    assert(r@.map_values(|d: DirectMessageChannel| dm_row(d)) =~~= sample_dms());
    r
}

/// The sample history of a conversation, oldest first.
pub open spec fn dm_history(dm_id: Seq<char>) -> Seq<MessageRow> {
    if dm_id == "dm-bob"@ {
        seq![
            ("dm1"@, alice(), "Hey Bob! Want to pair program later?"@, "Today at 12:30 PM"@, false),
            ("dm2"@, bob(), "That sounds great! Let's do it."@, "Today at 12:45 PM"@, false),
        ]
    } else if dm_id == "dm-frank"@ {
        seq![("dmf1"@, frank(), "Check out this new library I found"@, "Today at 10:20 AM"@, false)]
    } else {
        Seq::empty()
    }
}

/// The sample history of a conversation.
pub open spec fn is_dm_sample(dm_id: Seq<char>, ms: Seq<Message>) -> bool {
    &&& forall|i: int| 0 <= i < ms.len() ==> is_plain_sample(#[trigger] ms[i])
    &&& message_rows(ms) == dm_history(dm_id)
}

/// The sample history of a direct-message conversation.
pub fn make_dm_messages_for(dm_id: &str) -> (r: Vec<Message>)
    ensures
        is_dm_sample(dm_id@, r@),
{
    let current_user = make_user("u1", "Alice", "0001", UserStatus::Online);
    if str_eq(dm_id, "dm-bob") {
        let bob = make_user("u2", "Bob", "0002", UserStatus::Idle);
        let r = vec![
            sample("dm1", current_user, "Hey Bob! Want to pair program later?", "Today at 12:30 PM", false),
            sample("dm2", bob, "That sounds great! Let's do it.", "Today at 12:45 PM", false),
        ];
        assert(message_rows(r@) =~~= dm_history(dm_id@));
        r
    } else if str_eq(dm_id, "dm-frank") {
        let frank = make_user("u6", "Frank", "0006", UserStatus::Online);
        let r = vec![
            sample("dmf1", frank, "Check out this new library I found", "Today at 10:20 AM", false),
        ];
        assert(message_rows(r@) =~~= dm_history(dm_id@));
        r
    } else {
        let r = Vec::new();
        assert(message_rows(r@) =~= dm_history(dm_id@));
        r
    }
}

} // verus!
