//! Users, servers, channels and voice sessions.
use vstd::prelude::*;
use crate::text::{str_concat, push_char, push_decimal, decimal, is_whitespace, is_white_space};

verus! {

// ── Voice state ─────────────────────────────────────────────────────────────

/// Progress of a voice connection.
#[derive(Debug, Clone, Copy, PartialEq, Eq, Structural)]
pub enum VoiceConnectionStatus {
    Disconnected,
    Connecting,
    Connected,
}

/// The voice session the user takes part in.
#[derive(Debug)]
pub struct VoiceState {
    pub channel_id: String,
    pub channel_name: String,
    pub server_id: Option<String>,
    pub server_name: Option<String>,
    pub status: VoiceConnectionStatus,
    pub is_muted: bool,
    pub is_deafened: bool,
    pub is_video_enabled: bool,
    pub is_screen_sharing: bool,
}

/// A copy of an optional string.
pub fn clone_opt_string(s: &Option<String>) -> (r: Option<String>)
    ensures
        r == *s,
{
    match s {
        Some(x) => Some(x.clone()),
        None => None,
    }
}

impl Clone for VoiceState {
    fn clone(&self) -> (r: Self)
        ensures
            r == *self,
    {
        VoiceState {
            channel_id: self.channel_id.clone(),
            channel_name: self.channel_name.clone(),
            server_id: clone_opt_string(&self.server_id),
            server_name: clone_opt_string(&self.server_name),
            status: self.status,
            is_muted: self.is_muted,
            is_deafened: self.is_deafened,
            is_video_enabled: self.is_video_enabled,
            is_screen_sharing: self.is_screen_sharing,
        }
    }
}

impl VoiceState {
    /// Whether the connection is established.
    pub fn is_connected(&self) -> (r: bool)
        ensures
            r == (self.status == VoiceConnectionStatus::Connected),
    {
        self.status == VoiceConnectionStatus::Connected
    }
}

// ── User status ─────────────────────────────────────────────────────────────

/// Presence of a user.
#[derive(Debug, Clone, Copy, PartialEq, Eq, Structural)]
pub enum UserStatus {
    Online,
    Idle,
    DoNotDisturb,
    Offline,
}

impl UserStatus {
    /// The colour of the presence dot, as `#rrggbb`.
    pub fn color_hex(&self) -> (r: &'static str)
        ensures
            r@ == match *self {
                UserStatus::Online => "#23a55a"@,
                UserStatus::Idle => "#f0b232"@,
                UserStatus::DoNotDisturb => "#f23f43"@,
                UserStatus::Offline => "#80848e"@,
            },
    {
        match self {
            UserStatus::Online => "#23a55a",
            UserStatus::Idle => "#f0b232",
            UserStatus::DoNotDisturb => "#f23f43",
            UserStatus::Offline => "#80848e",
        }
    }

    /// The human-readable name of the status.
    pub fn label(&self) -> (r: &'static str)
        ensures
            r@ == match *self {
                UserStatus::Online => "Online"@,
                UserStatus::Idle => "Idle"@,
                UserStatus::DoNotDisturb => "Do Not Disturb"@,
                UserStatus::Offline => "Offline"@,
            },
    {
        match self {
            UserStatus::Online => "Online",
            UserStatus::Idle => "Idle",
            UserStatus::DoNotDisturb => "Do Not Disturb",
            UserStatus::Offline => "Offline",
        }
    }
}

// ── Users ───────────────────────────────────────────────────────────────────

/// A user account.
#[derive(Debug)]
pub struct User {
    pub id: String,
    pub username: String,
    pub discriminator: String,
    pub status: UserStatus,
}

impl Clone for User {
    fn clone(&self) -> (r: Self)
        ensures
            r == *self,
    {
        User {
            id: self.id.clone(),
            username: self.username.clone(),
            discriminator: self.discriminator.clone(),
            status: self.status,
        }
    }
}

impl User {
    /// The name shown for the user: the user name.
    pub fn display_name(&self) -> (r: String)
        ensures
            r == self.username,
    {
        self.username.clone()
    }

    /// `username#discriminator`.
    pub fn tag(&self) -> (r: String)
        ensures
            r@ == self.username@ + seq!['#'] + self.discriminator@,
    {
        let mut r = self.username.clone();
        push_char(&mut r, '#');
        r.append(self.discriminator.as_str());
        r
    }

    /// Whether the user counts as online: every status but `Offline`.
    pub fn is_online(&self) -> (r: bool)
        ensures
            r == (self.status != UserStatus::Offline),
    {
        match self.status {
            UserStatus::Offline => false,
            _ => true,
        }
    }
}

/// A role on a server.
#[derive(Debug)]
pub struct Role {
    pub id: String,
    pub name: String,
    pub color: String,
}

impl Clone for Role {
    fn clone(&self) -> (r: Self)
        ensures
            r == *self,
    {
        Role { id: self.id.clone(), name: self.name.clone(), color: self.color.clone() }
    }
}

/// The extended profile of a user.
#[derive(Debug)]
pub struct UserProfile {
    pub user: User,
    pub bio: Option<String>,
    pub custom_status: Option<String>,
    pub custom_status_emoji: Option<String>,
    pub accent_color: Option<String>,
    pub banner_url: Option<String>,
    pub member_since: String,
    pub roles: Vec<Role>,
    pub badges: Vec<Badge>,
    pub note: Option<String>,
}

impl UserProfile {
    /// `a` and `b` hold the same data (their role and badge lists by view).
    pub open spec fn same_as(self, other: UserProfile) -> bool {
        &&& self.user == other.user
        &&& self.bio == other.bio
        &&& self.custom_status == other.custom_status
        &&& self.custom_status_emoji == other.custom_status_emoji
        &&& self.accent_color == other.accent_color
        &&& self.banner_url == other.banner_url
        &&& self.member_since == other.member_since
        &&& self.roles@ == other.roles@
        &&& self.badges@ == other.badges@
        &&& self.note == other.note
    }
}

impl Clone for UserProfile {
    fn clone(&self) -> (r: Self)
        ensures
            r.same_as(*self),
    {
        let roles = self.roles.clone();
        let badges = self.badges.clone();
        assert(roles@ =~= self.roles@);
        assert(badges@ =~= self.badges@);
        UserProfile {
            user: self.user.clone(),
            bio: clone_opt_string(&self.bio),
            custom_status: clone_opt_string(&self.custom_status),
            custom_status_emoji: clone_opt_string(&self.custom_status_emoji),
            accent_color: clone_opt_string(&self.accent_color),
            banner_url: clone_opt_string(&self.banner_url),
            member_since: self.member_since.clone(),
            roles,
            badges,
            note: clone_opt_string(&self.note),
        }
    }
}

// ── Icons ───────────────────────────────────────────────────────────────────

/// The icons the data model refers to; the interface maps each to a glyph.
#[derive(Debug, Clone, Copy, PartialEq, Eq, Structural)]
pub enum AppIcon {
    Star,
    Search,
    Heart,
    User,
    Check,
    Settings,
    Settings2,
    File,
    Inbox,
    Bell,
    LayoutDashboard,
    BookOpen,
    FolderOpen,
}

// ── Badges ──────────────────────────────────────────────────────────────────

/// A profile badge.
#[derive(Debug, Clone, Copy, PartialEq, Eq, Structural)]
pub enum Badge {
    Staff,
    Partner,
    HypeSquad,
    BugHunterLevel1,
    BugHunterLevel2,
    EarlySupporter,
    TeamUser,
    VerifiedBot,
    EarlyVerifiedBotDeveloper,
    DiscordCertifiedModerator,
    ActiveDeveloper,
}

impl Badge {
    /// The icon drawn for the badge.
    pub fn icon(&self) -> (r: AppIcon)
        ensures
            r == match *self {
                Badge::Staff | Badge::Partner | Badge::HypeSquad
                | Badge::DiscordCertifiedModerator => AppIcon::Star,
                Badge::BugHunterLevel1 | Badge::BugHunterLevel2 => AppIcon::Search,
                Badge::EarlySupporter => AppIcon::Heart,
                Badge::TeamUser => AppIcon::User,
                Badge::VerifiedBot => AppIcon::Check,
                Badge::EarlyVerifiedBotDeveloper => AppIcon::Settings,
                Badge::ActiveDeveloper => AppIcon::Settings2,
            },
    {
        match self {
            Badge::Staff => AppIcon::Star,
            Badge::Partner => AppIcon::Star,
            Badge::HypeSquad => AppIcon::Star,
            Badge::BugHunterLevel1 => AppIcon::Search,
            Badge::BugHunterLevel2 => AppIcon::Search,
            Badge::EarlySupporter => AppIcon::Heart,
            Badge::TeamUser => AppIcon::User,
            Badge::VerifiedBot => AppIcon::Check,
            Badge::EarlyVerifiedBotDeveloper => AppIcon::Settings,
            Badge::DiscordCertifiedModerator => AppIcon::Star,
            Badge::ActiveDeveloper => AppIcon::Settings2,
        }
    }

    /// The badge's title.
    pub fn label(&self) -> (r: &'static str)
        ensures
            r@ == match *self {
                Badge::Staff => "Staff"@,
                Badge::Partner => "Partnered Server Owner"@,
                Badge::HypeSquad => "HypeSquad Events"@,
                Badge::BugHunterLevel1 => "Bug Hunter Level 1"@,
                Badge::BugHunterLevel2 => "Bug Hunter Level 2"@,
                Badge::EarlySupporter => "Early Supporter"@,
                Badge::TeamUser => "Team User"@,
                Badge::VerifiedBot => "Verified Bot"@,
                Badge::EarlyVerifiedBotDeveloper => "Early Verified Bot Developer"@,
                Badge::DiscordCertifiedModerator => "Discord Certified Moderator"@,
                Badge::ActiveDeveloper => "Active Developer"@,
            },
    {
        match self {
            Badge::Staff => "Staff",
            Badge::Partner => "Partnered Server Owner",
            Badge::HypeSquad => "HypeSquad Events",
            Badge::BugHunterLevel1 => "Bug Hunter Level 1",
            Badge::BugHunterLevel2 => "Bug Hunter Level 2",
            Badge::EarlySupporter => "Early Supporter",
            Badge::TeamUser => "Team User",
            Badge::VerifiedBot => "Verified Bot",
            Badge::EarlyVerifiedBotDeveloper => "Early Verified Bot Developer",
            Badge::DiscordCertifiedModerator => "Discord Certified Moderator",
            Badge::ActiveDeveloper => "Active Developer",
        }
    }

    /// The badge's colour, as `#RRGGBB`.
    pub fn color(&self) -> (r: &'static str)
        ensures
            r@ == match *self {
                Badge::Staff | Badge::TeamUser | Badge::EarlyVerifiedBotDeveloper
                | Badge::ActiveDeveloper => "#5865F2"@,
                Badge::Partner => "#4E96D4"@,
                Badge::HypeSquad => "#F47B68"@,
                Badge::BugHunterLevel1 | Badge::BugHunterLevel2 | Badge::VerifiedBot
                | Badge::DiscordCertifiedModerator => "#3BA55D"@,
                Badge::EarlySupporter => "#EB459E"@,
            },
    {
        match self {
            Badge::Staff => "#5865F2",
            Badge::Partner => "#4E96D4",
            Badge::HypeSquad => "#F47B68",
            Badge::BugHunterLevel1 => "#3BA55D",
            Badge::BugHunterLevel2 => "#3BA55D",
            Badge::EarlySupporter => "#EB459E",
            Badge::TeamUser => "#5865F2",
            Badge::VerifiedBot => "#3BA55D",
            Badge::EarlyVerifiedBotDeveloper => "#5865F2",
            Badge::DiscordCertifiedModerator => "#3BA55D",
            Badge::ActiveDeveloper => "#5865F2",
        }
    }
}

// ── Channels ────────────────────────────────────────────────────────────────

/// The kind of a server channel.
#[derive(Debug, Clone, Copy, PartialEq, Eq, Structural)]
pub enum ChannelKind {
    Text,
    Voice,
    Announcement,
    Stage,
    Forum,
    Media,
}

impl ChannelKind {
    /// The symbol shown before the channel's name.
    pub fn prefix(&self) -> (r: &'static str)
        ensures
            r@ == match *self {
                ChannelKind::Text => "#"@,
                ChannelKind::Voice => "🔊"@,
                ChannelKind::Announcement => "📢"@,
                ChannelKind::Stage => "🎙️"@,
                ChannelKind::Forum => "💬"@,
                ChannelKind::Media => "📁"@,
            },
    {
        match self {
            ChannelKind::Text => "#",
            ChannelKind::Voice => "🔊",
            ChannelKind::Announcement => "📢",
            ChannelKind::Stage => "🎙️",
            ChannelKind::Forum => "💬",
            ChannelKind::Media => "📁",
        }
    }

    /// The icon drawn for the channel.
    pub fn icon(&self) -> (r: AppIcon)
        ensures
            r == match *self {
                ChannelKind::Text => AppIcon::File,
                ChannelKind::Voice => AppIcon::Inbox,
                ChannelKind::Announcement => AppIcon::Bell,
                ChannelKind::Stage => AppIcon::LayoutDashboard,
                ChannelKind::Forum => AppIcon::BookOpen,
                ChannelKind::Media => AppIcon::FolderOpen,
            },
    {
        match self {
            ChannelKind::Text => AppIcon::File,
            ChannelKind::Voice => AppIcon::Inbox,
            ChannelKind::Announcement => AppIcon::Bell,
            ChannelKind::Stage => AppIcon::LayoutDashboard,
            ChannelKind::Forum => AppIcon::BookOpen,
            ChannelKind::Media => AppIcon::FolderOpen,
        }
    }

    /// A sentence that describes the kind.
    pub fn description(&self) -> (r: &'static str)
        ensures
            r@ == match *self {
                ChannelKind::Text => "Text channel for messaging"@,
                ChannelKind::Voice => "Voice channel for audio conversations"@,
                ChannelKind::Announcement => "Announcement channel for important updates"@,
                ChannelKind::Stage => "Stage channel for large audio events"@,
                ChannelKind::Forum => "Forum channel for topic-based discussions"@,
                ChannelKind::Media => "Media channel for sharing files and images"@,
            },
    {
        match self {
            ChannelKind::Text => "Text channel for messaging",
            ChannelKind::Voice => "Voice channel for audio conversations",
            ChannelKind::Announcement => "Announcement channel for important updates",
            ChannelKind::Stage => "Stage channel for large audio events",
            ChannelKind::Forum => "Forum channel for topic-based discussions",
            ChannelKind::Media => "Media channel for sharing files and images",
        }
    }

    /// Voice and stage channels carry audio.
    pub fn is_voice_based(&self) -> (r: bool)
        ensures
            r == (*self == ChannelKind::Voice || *self == ChannelKind::Stage),
    {
        match self {
            ChannelKind::Voice | ChannelKind::Stage => true,
            _ => false,
        }
    }
}

/// Someone connected to a voice channel.
#[derive(Debug, Clone)]
pub struct VoiceParticipant {
    pub user_id: String,
    pub username: String,
    pub avatar: Option<String>,
    pub is_speaking: bool,
    pub is_muted: bool,
    pub is_deafened: bool,
    pub is_video: bool,
}

/// A channel of a server.
#[derive(Debug, Clone)]
pub struct Channel {
    pub id: String,
    pub name: String,
    pub kind: ChannelKind,
    pub unread: usize,
    pub topic: Option<String>,
    pub members_connected: usize,
    pub voice_participants: Vec<VoiceParticipant>,
}

impl Channel {
    /// Whether the channel's kind carries audio.
    pub fn is_voice_based(&self) -> (r: bool)
        ensures
            r == (self.kind == ChannelKind::Voice || self.kind == ChannelKind::Stage),
    {
        self.kind.is_voice_based()
    }
}

/// A named, collapsible group of channels.
#[derive(Debug, Clone)]
pub struct ChannelCategory {
    pub name: String,
    pub channels: Vec<Channel>,
    pub collapsed: bool,
}

/// A server (guild).
#[derive(Debug, Clone)]
pub struct Server {
    pub id: String,
    pub name: String,
    pub categories: Vec<ChannelCategory>,
    pub members: Vec<User>,
    pub notification_count: usize,
}

/// The channels of the categories, category by category, in order.
pub open spec fn flat_channels(cats: Seq<ChannelCategory>) -> Seq<Channel>
    decreases cats.len(),
{
    if cats.len() == 0 {
        Seq::empty()
    } else {
        flat_channels(cats.drop_last()) + cats.last().channels@
    }
}

/// The first character of each maximal run of characters that are not white
/// space, in order.
pub open spec fn word_initials(s: Seq<char>) -> Seq<char>
    decreases s.len(),
{
    if s.len() == 0 {
        Seq::empty()
    } else {
        let prev = word_initials(s.drop_last());
        if !is_white_space(s.last()) && (s.len() == 1 || is_white_space(s[s.len() - 2])) {
            prev.push(s.last())
        } else {
            prev
        }
    }
}

/// Upper-case form of a text under Unicode case mapping (`str::to_uppercase`).
pub uninterp spec fn upper_case(s: Seq<char>) -> Seq<char>;

/// Calls `str::to_uppercase`, which maps every character to its Unicode upper
/// case (a character may become several). The result is only named here, by
/// `upper_case`, and depends on the text alone.
#[verifier::external_body]
fn to_upper_case(s: &str) -> (r: String)
    ensures
        r@ == upper_case(s@),
{
    s.to_uppercase()
}

/// At most the first two characters of `s`.
pub open spec fn first_two(s: Seq<char>) -> Seq<char> {
    if s.len() <= 2 {
        s
    } else {
        s.take(2)
    }
}

impl Server {
    /// The initials of the first two words of the name, in upper case.
    pub fn initials(&self) -> (r: String)
        ensures
            r@ == upper_case(first_two(word_initials(self.name@))),
    {
        let name = self.name.as_str();
        let n = name.unicode_len();
        let mut letters = String::new();
        let mut i: usize = 0;
        while i < n
            invariant
                n == name@.len(),
                name@ == self.name@,
                i <= n,
                letters@ == word_initials(name@.take(i as int)),
            decreases n - i,
        {
            let c = name.get_char(i);
            let starts = !is_whitespace(c) && (i == 0 || is_whitespace(name.get_char(i - 1)));
            proof {
                let t = name@.take(i + 1);
                assert(t.drop_last() =~= name@.take(i as int));
                assert(t.last() == c);
                if i > 0 {
                    assert(t[t.len() - 2] == name@[i - 1]);
                }
            }
            if starts {
                push_char(&mut letters, c);
            }
            i = i + 1;
        }
        assert(name@.take(n as int) =~= name@);
        let k = letters.as_str().unicode_len();
        let first = if k <= 2 {
            letters.as_str()
        } else {
            letters.as_str().substring_char(0, 2)
        };
        to_upper_case(first)
    }

    /// All channels of the server, category by category.
    pub fn all_channels(&self) -> (r: Vec<&Channel>)
        ensures
            derefs(r@) == flat_channels(self.categories@),
    {
        let mut r: Vec<&Channel> = Vec::new();
        let mut i: usize = 0;
        assert(derefs(r@) =~= flat_channels(self.categories@.take(0)));
        while i < self.categories.len()
            invariant
                i <= self.categories@.len(),
                derefs(r@) == flat_channels(self.categories@.take(i as int)),
            decreases self.categories@.len() - i,
        {
            let cat = &self.categories[i];
            let ghost before = derefs(r@);
            let mut j: usize = 0;
            assert(derefs(r@) =~= before + cat.channels@.take(0));
            while j < cat.channels.len()
                invariant
                    j <= cat.channels@.len(),
                    derefs(r@) == before + cat.channels@.take(j as int),
                decreases cat.channels@.len() - j,
            {
                let ghost prev = r@;
                r.push(&cat.channels[j]);
                assert(derefs(r@) =~= derefs(prev).push(cat.channels@[j as int]));
                assert(cat.channels@.take(j + 1) =~= cat.channels@.take(j as int).push(
                    cat.channels@[j as int],
                ));
                j = j + 1;
            }
            proof {
                assert(cat.channels@.take(j as int) =~= cat.channels@);
                assert(self.categories@.take(i + 1).drop_last() =~= self.categories@.take(i as int));
            }
            i = i + 1;
        }
        assert(self.categories@.take(i as int) =~= self.categories@);
        r
    }
}

/// The unread counts of `cs`, added up.
pub open spec fn unread_sum(cs: Seq<Channel>) -> int
    decreases cs.len(),
{
    if cs.len() == 0 {
        0
    } else {
        unread_sum(cs.drop_last()) + cs.last().unread
    }
}

proof fn lemma_unread_prefix(cs: Seq<Channel>, i: int)
    requires
        0 <= i <= cs.len(),
    ensures
        unread_sum(cs.take(i)) <= unread_sum(cs),
    decreases cs.len(),
{
    if i < cs.len() {
        assert(cs.drop_last().take(i) =~= cs.take(i));
        lemma_unread_prefix(cs.drop_last(), i);
    } else {
        assert(cs.take(i) =~= cs);
    }
}

impl Server {
    /// The server's notifications plus the unread messages of all its
    /// channels; `None` when that total does not fit in a `usize`.
    pub fn unread_total(&self) -> (r: Option<usize>)
        ensures
            match r {
                Some(n) => n == self.notification_count + unread_sum(flat_channels(self.categories@)),
                None => self.notification_count + unread_sum(flat_channels(self.categories@))
                    > usize::MAX,
            },
    {
        let chans = self.all_channels();
        let ghost cs = flat_channels(self.categories@);
        let mut total: usize = self.notification_count;
        let mut i: usize = 0;
        assert(cs.take(0) =~= Seq::<Channel>::empty());
        while i < chans.len()
            invariant
                i <= chans@.len(),
                cs == flat_channels(self.categories@),
                derefs(chans@) == cs,
                total == self.notification_count + unread_sum(cs.take(i as int)),
            decreases chans@.len() - i,
        {
            let u = chans[i].unread;
            proof {
                assert(derefs(chans@)[i as int] == cs[i as int]);
                assert(cs.take(i + 1).drop_last() =~= cs.take(i as int));
                assert(cs.take(i + 1).last() == cs[i as int]);
                assert(unread_sum(cs.take(i + 1)) == unread_sum(cs.take(i as int)) + u);
            }
            match total.checked_add(u) {
                Some(t) => {
                    total = t;
                },
                None => {
                    proof {
                        lemma_unread_prefix(cs, i + 1);
                    }
                    return None;
                },
            }
            i = i + 1;
        }
        assert(cs.take(i as int) =~= cs);
        Some(total)
    }
}

/// The text of a server's unread badge for `total` unread items: none at
/// zero, the number up to nine, `9+` above.
pub fn unread_badge_text(total: usize) -> (r: Option<String>)
    ensures
        total == 0 ==> r is None,
        0 < total <= 9 ==> (r matches Some(s) && s@ == decimal(total as nat)),
        total > 9 ==> (r matches Some(s) && s@ == "9+"@),
{
    if total == 0 {
        None
    } else if total > 9 {
        Some(String::from_str("9+"))
    } else {
        let mut s = String::new();
        push_decimal(&mut s, total as u128);
        assert(s@ =~= decimal(total as nat));
        Some(s)
    }
}

/// The channels that a sequence of references points to.
pub open spec fn derefs(s: Seq<&Channel>) -> Seq<Channel> {
    s.map_values(|c: &Channel| *c)
}

/// A direct-message conversation.
#[derive(Debug, Clone)]
pub struct DirectMessageChannel {
    pub id: String,
    pub recipient: User,
    pub last_message: Option<String>,
    pub last_message_time: Option<String>,
    pub unread: usize,
}

impl DirectMessageChannel {
    /// The name shown for the conversation: the recipient's user name.
    pub fn display_name(&self) -> (r: String)
        ensures
            r == self.recipient.username,
    {
        self.recipient.username.clone()
    }
}

} // verus!
