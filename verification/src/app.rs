//! The state of the client and every change the user can make to it.
use vstd::prelude::*;
use crate::auth::AuthState;
use crate::message::{Attachment, Message, MessageReply, Reactions, toggled, preview_cut_ok, preview_of};
use crate::mock_data::{make_dm_channels, make_dm_messages_for, make_messages_for, make_servers,
    make_user_profile, is_channel_sample, is_dm_sample, is_sample_servers, is_sample_dms, dm_row,
    sample_dms, server_row, sample_servers};
use crate::models::{Channel, ChannelKind, DirectMessageChannel, Server, User, UserProfile, UserStatus,
    VoiceConnectionStatus, VoiceState, flat_channels, derefs};
use crate::screens::{AppView, ServerSettingsScreen, SettingsScreen};
use crate::store::KeyedStore;
use crate::text::{str_eq, trim, trimmed, is_blank, all_white_space, decimal};
use crate::encoding::timestamp_id;
use crate::upload::{AttachmentError, attachment_outcome, opt_seq, prepare_attachment};
use crate::models::ChannelCategory;
use crate::text::str_concat;

verus! {

/// Everything the client shows and edits, apart from the text typed into its
/// input boxes.
#[derive(Debug)]
pub struct TripwireApp {
    pub auth: AuthState,
    pub current_view: AppView,
    pub servers: Vec<Server>,
    pub active_server: usize,
    pub active_channel_id: Option<String>,
    /// Messages of each server channel, by channel id.
    pub messages: KeyedStore<Vec<Message>>,
    pub dm_channels: Vec<DirectMessageChannel>,
    pub active_dm_id: Option<String>,
    /// Messages of each direct-message conversation, by conversation id.
    pub dm_messages: KeyedStore<Vec<Message>>,
    pub show_members: bool,
    pub pending_attachment: Option<Attachment>,
    pub emoji_search: String,
    pub active_emoji_picker_message: Option<String>,
    pub replying_to: Option<MessageReply>,
    pub editing_message_id: Option<String>,
    /// Who is typing, by channel or conversation id.
    pub typing_users: KeyedStore<Vec<String>>,
    pub voice_state: Option<VoiceState>,
    /// A voice channel (with its server) that waits for the user to confirm
    /// leaving the current one.
    pub show_voice_switch_warning: Option<(Channel, Option<Server>)>,
    pub show_profile: Option<UserProfile>,
    pub user_profiles: KeyedStore<UserProfile>,
    pub show_settings: bool,
    pub settings_screen: SettingsScreen,
    pub show_server_settings: bool,
    pub server_settings_screen: ServerSettingsScreen,
    pub open_thread_id: Option<String>,
    /// Replies of each thread, by the id of the message it hangs off.
    pub thread_messages: KeyedStore<Vec<Message>>,
    pub show_voice_chat_sidebar: bool,
}

/// The messages stored under `key`, or none.
pub open spec fn list_for(store: Map<Seq<char>, Vec<Message>>, key: Option<String>) -> Seq<Message> {
    match key {
        Some(k) => if store.dom().contains(k@) {
            store[k@]@
        } else {
            Seq::empty()
        },
        None => Seq::empty(),
    }
}

/// `i` is the first position of a channel with identifier `id`.
pub open spec fn is_first_channel(cs: Seq<Channel>, id: Seq<char>, i: int) -> bool {
    &&& 0 <= i < cs.len()
    &&& cs[i].id@ == id
    &&& forall|j: int| 0 <= j < i ==> #[trigger] cs[j].id@ != id
}

/// The first channel of `cs` with identifier `id`.
pub open spec fn first_channel(cs: Seq<Channel>, id: Seq<char>) -> Option<Channel> {
    if exists|i: int| is_first_channel(cs, id, i) {
        Some(cs[choose|i: int| is_first_channel(cs, id, i)])
    } else {
        None
    }
}

/// `i` is the first position of a message with identifier `id`.
pub open spec fn is_first_message(ms: Seq<Message>, id: Seq<char>, i: int) -> bool {
    &&& 0 <= i < ms.len()
    &&& ms[i].id@ == id
    &&& forall|j: int| 0 <= j < i ==> #[trigger] ms[j].id@ != id
}

/// Whether some message of `ms` has identifier `id`.
pub open spec fn has_message(ms: Seq<Message>, id: Seq<char>) -> bool {
    exists|i: int| 0 <= i < ms.len() && #[trigger] ms[i].id@ == id
}

/// `after` is `before` with the history of server channel `key` loaded if it
/// was missing.
pub open spec fn loaded_channel(
    before: Map<Seq<char>, Vec<Message>>,
    after: Map<Seq<char>, Vec<Message>>,
    key: Seq<char>,
) -> bool {
    if before.dom().contains(key) {
        after == before
    } else {
        after.dom().contains(key) && after == before.insert(key, after[key])
            && is_channel_sample(key, after[key]@)
    }
}

/// `after` is `before` with the history of conversation `key` loaded if it
/// was missing.
pub open spec fn loaded_dm(
    before: Map<Seq<char>, Vec<Message>>,
    after: Map<Seq<char>, Vec<Message>>,
    key: Seq<char>,
) -> bool {
    if before.dom().contains(key) {
        after == before
    } else {
        after.dom().contains(key) && after == before.insert(key, after[key]) && is_dm_sample(
            key,
            after[key]@,
        )
    }
}

fn load_channel(store: &mut KeyedStore<Vec<Message>>, key: &String)
    ensures
        loaded_channel(old(store)@, final(store)@, key@),
{
    if !store.contains_key(key.as_str()) {
        let history = make_messages_for(key.as_str());
        store.insert(key.clone(), history);
    }
}

/// The voice session with the microphone muted or unmuted; while deafened
/// the microphone stays as it is.
pub open spec fn mute_toggled(v: Option<VoiceState>) -> Option<VoiceState> {
    match v {
        Some(v) => Some(VoiceState { is_muted: if v.is_deafened { v.is_muted } else { !v.is_muted }, ..v }),
        None => None,
    }
}

/// The voice session deafened (and so muted) or undeafened.
pub open spec fn deafen_toggled(v: Option<VoiceState>) -> Option<VoiceState> {
    match v {
        Some(v) => Some(VoiceState {
            is_deafened: !v.is_deafened,
            is_muted: if !v.is_deafened { true } else { v.is_muted },
            ..v
        }),
        None => None,
    }
}

/// The voice session with the camera turned on or off.
pub open spec fn video_toggled(v: Option<VoiceState>) -> Option<VoiceState> {
    match v {
        Some(v) => Some(VoiceState { is_video_enabled: !v.is_video_enabled, ..v }),
        None => None,
    }
}

/// The voice session with screen sharing started or stopped.
pub open spec fn screen_share_toggled(v: Option<VoiceState>) -> Option<VoiceState> {
    match v {
        Some(v) => Some(VoiceState { is_screen_sharing: !v.is_screen_sharing, ..v }),
        None => None,
    }
}

/// Muting twice leaves the session as it was.
pub proof fn law_mute_twice_restores(v: Option<VoiceState>)
    ensures
        mute_toggled(mute_toggled(v)) == v,
{
}

/// Turning the camera on and off again leaves the session as it was.
pub proof fn law_video_twice_restores(v: Option<VoiceState>)
    ensures
        video_toggled(video_toggled(v)) == v,
{
}

/// Starting and stopping screen sharing leaves the session as it was.
pub proof fn law_screen_share_twice_restores(v: Option<VoiceState>)
    ensures
        screen_share_toggled(screen_share_toggled(v)) == v,
{
}

/// Deafening also mutes: a session that is deafened after the toggle is
/// muted.
pub proof fn law_deafening_mutes(v: Option<VoiceState>)
    ensures
        deafen_toggled(v) matches Some(w) ==> (w.is_deafened ==> w.is_muted),
{
}

/// A deafened session is muted, and the mute and deafen toggles keep it so:
/// unmuting does not work while deafened.
pub proof fn law_deafened_stays_muted(v: Option<VoiceState>)
    requires
        v matches Some(s) ==> (s.is_deafened ==> s.is_muted),
    ensures
        mute_toggled(v) matches Some(w) ==> (w.is_deafened ==> w.is_muted),
        deafen_toggled(v) matches Some(w) ==> (w.is_deafened ==> w.is_muted),
{
}

/// The categories with the first one named `name` folded or unfolded.
pub open spec fn toggle_first_category(cs: Seq<ChannelCategory>, name: Seq<char>) -> Seq<ChannelCategory> {
    if exists|j: int| is_first_category(cs, name, j) {
        let j = choose|j: int| is_first_category(cs, name, j);
        cs.update(j, ChannelCategory { collapsed: !cs[j].collapsed, ..cs[j] })
    } else {
        cs
    }
}

/// Folding a category and folding it again leaves the categories as they
/// were.
pub proof fn law_category_toggle_twice_restores(cs: Seq<ChannelCategory>, name: Seq<char>)
    ensures
        toggle_first_category(toggle_first_category(cs, name), name) == cs,
{
    if exists|j: int| is_first_category(cs, name, j) {
        let j = choose|j: int| is_first_category(cs, name, j);
        let once = toggle_first_category(cs, name);
        assert(is_first_category(once, name, j));
        let k = choose|k: int| is_first_category(once, name, k);
        if k < j {
            assert(once[k].name@ == cs[k].name@);
        }
        if k > j {
            assert(once[j].name@ == name);
        }
        assert(k == j);
        assert(toggle_first_category(once, name) =~= cs);
    } else {
        assert forall|j: int| !is_first_category(cs, name, j) by {}
    }
}

/// Deleting a message leaves no message with its identifier and keeps every
/// other message.
pub proof fn law_deleted_gone(ms: Seq<Message>, id: Seq<char>)
    ensures
        !has_message(without_message(ms, id), id),
        forall|i: int| 0 <= i < ms.len() && ms[i].id@ != id ==> without_message(ms, id).contains(
            #[trigger] ms[i],
        ),
        without_message(ms, id).len() <= ms.len(),
    decreases ms.len(),
{
    if ms.len() > 0 {
        let p = ms.drop_last();
        law_deleted_gone(p, id);
        let w = without_message(ms, id);
        let wp = without_message(p, id);
        if has_message(w, id) {
            let i = choose|i: int| 0 <= i < w.len() && #[trigger] w[i].id@ == id;
            if ms.last().id@ == id || i < wp.len() {
                assert(wp[i].id@ == id);
            }
        }
        assert forall|i: int| 0 <= i < ms.len() && ms[i].id@ != id implies w.contains(#[trigger] ms[i]) by {
            if i == ms.len() - 1 {
                assert(w[w.len() - 1] == ms[i]);
            } else {
                assert(p[i] == ms[i]);
                assert(wp.contains(p[i]));
                let j = choose|j: int| 0 <= j < wp.len() && wp[j] == p[i];
                assert(w[j] == ms[i]);
            }
        }
    }
}

/// The test that keeps a message through the deletion of `id`.
pub open spec fn id_differs(id: Seq<char>) -> spec_fn(Message) -> bool {
    |m: Message| m.id@ != id
}

proof fn lemma_without_is_filter(ms: Seq<Message>, id: Seq<char>)
    ensures
        without_message(ms, id) == ms.filter(id_differs(id)),
    decreases ms.len(),
{
    reveal_with_fuel(Seq::<Message>::filter, 1);
    if ms.len() > 0 {
        lemma_without_is_filter(ms.drop_last(), id);
    }
}

/// Deleting message `id` from an open list keeps exactly the messages with
/// another identifier, in the order they had; other lists do not change.
pub proof fn law_delete_keeps_the_rest_in_order(
    before: Map<Seq<char>, Vec<Message>>,
    after: Map<Seq<char>, Vec<Message>>,
    key: Option<String>,
    id: Seq<char>,
)
    requires
        message_deleted(before, after, key, id),
    ensures
        key is Some && before.dom().contains(key->0@) ==> after[key->0@]@ == before[key->0@]@.filter(
            |m: Message| m.id@ != id,
        ),
        forall|k: Seq<char>| (key is None || k != key->0@) ==> #[trigger] after.dom().contains(k)
            == before.dom().contains(k),
        forall|k: Seq<char>| (key is None || k != key->0@) && before.dom().contains(k) ==> #[trigger] after[k]
            == before[k],
{
    if key is Some && before.dom().contains(key->0@) {
        lemma_without_is_filter(before[key->0@]@, id);
        assert(id_differs(id) =~= (|m: Message| m.id@ != id));
    }
}

/// Editing a message changes only its text and its edited mark and time:
/// it keeps its identifier, author, time label, attachment, reactions,
/// reply, mentions, pin, thread and creation time, and stays in its place,
/// the first message with that identifier.
pub proof fn law_edit_keeps_the_rest(
    before: Map<Seq<char>, Vec<Message>>,
    after: Map<Seq<char>, Vec<Message>>,
    key: Option<String>,
    id: Seq<char>,
    content: Seq<char>,
)
    requires
        message_edited(before, after, key, id, content),
        holds_message(before, key, id),
    ensures
        exists|i: int| {
            let o = before[key->0@]@[i];
            let m = #[trigger] after[key->0@]@[i];
            &&& 0 <= i < before[key->0@]@.len()
            &&& o.id@ == id
            &&& forall|j: int| 0 <= j < i ==> #[trigger] before[key->0@]@[j].id@ != id
            &&& m.content@ == content
            &&& m.edited
            &&& m.id == o.id
            &&& m.author == o.author
            &&& m.timestamp == o.timestamp
            &&& m.attachment == o.attachment
            &&& m.reactions == o.reactions
            &&& m.reply_to == o.reply_to
            &&& m.mentioned_users == o.mentioned_users
            &&& m.pinned == o.pinned
            &&& m.thread_id == o.thread_id
            &&& m.thread_count == o.thread_count
            &&& m.created_at == o.created_at
        },
        after[key->0@]@.len() == before[key->0@]@.len(),
{
    let k = key->0@;
    let ms = before[k]@;
    lemma_first_message_exists(ms, id);
    let i = first_message_index(ms, id);
    assert(after[k]@[i].content@ == content);
}

/// Turning the camera on or off always changes it, whatever else holds of
/// the session (deafened or not), and changes nothing else.
pub proof fn law_video_always_flips(v: VoiceState)
    ensures
        video_toggled(Some(v)) matches Some(w) && w.is_video_enabled != v.is_video_enabled
            && w.is_muted == v.is_muted && w.is_deafened == v.is_deafened && w.is_screen_sharing
            == v.is_screen_sharing && w.status == v.status && w.channel_id == v.channel_id
            && w.channel_name == v.channel_name && w.server_id == v.server_id && w.server_name
            == v.server_name,
        video_toggled(None) is None,
{
}

/// Starting or stopping screen sharing always changes it, whatever else
/// holds of the session, and changes nothing else.
pub proof fn law_screen_share_always_flips(v: VoiceState)
    ensures
        screen_share_toggled(Some(v)) matches Some(w) && w.is_screen_sharing != v.is_screen_sharing
            && w.is_muted == v.is_muted && w.is_deafened == v.is_deafened && w.is_video_enabled
            == v.is_video_enabled && w.status == v.status && w.channel_id == v.channel_id
            && w.channel_name == v.channel_name && w.server_id == v.server_id && w.server_name
            == v.server_name,
        screen_share_toggled(None) is None,
{
}

/// Muting a session that is not deafened always changes the microphone and
/// nothing else.
pub proof fn law_mute_flips_when_hearing(v: VoiceState)
    requires
        !v.is_deafened,
    ensures
        mute_toggled(Some(v)) matches Some(w) && w.is_muted != v.is_muted && w.is_deafened
            == v.is_deafened && w.is_video_enabled == v.is_video_enabled && w.is_screen_sharing
            == v.is_screen_sharing && w.status == v.status && w.channel_id == v.channel_id
            && w.channel_name == v.channel_name && w.server_id == v.server_id && w.server_name
            == v.server_name,
{
}

/// Folding by name changes only the fold mark of the first category with
/// that name: every category keeps its name and channels, and a category's
/// fold mark changes exactly when it is the first one named `name`.
pub proof fn law_category_toggle_only_first(cs: Seq<ChannelCategory>, name: Seq<char>)
    ensures
        toggle_first_category(cs, name).len() == cs.len(),
        forall|k: int| 0 <= k < cs.len() ==> (#[trigger] toggle_first_category(cs, name)[k]).name
            == cs[k].name && toggle_first_category(cs, name)[k].channels == cs[k].channels,
        forall|k: int| 0 <= k < cs.len() ==> ((#[trigger] toggle_first_category(cs, name)[k]).collapsed
            != cs[k].collapsed <==> (cs[k].name@ == name && forall|q: int| 0 <= q < k ==> cs[q].name@
            != name)),
{
    let r = toggle_first_category(cs, name);
    if exists|j: int| is_first_category(cs, name, j) {
        let j = choose|j: int| is_first_category(cs, name, j);
        assert forall|k: int| 0 <= k < cs.len() implies ((#[trigger] r[k]).collapsed != cs[k].collapsed <==> (
        cs[k].name@ == name && forall|q: int| 0 <= q < k ==> cs[q].name@ != name)) by {
            if k < j {
                assert(cs[k].name@ != name);
            } else if k > j {
                assert(cs[j].name@ == name);
            }
        }
    } else {
        assert forall|k: int| 0 <= k < cs.len() implies !(cs[k].name@ == name && forall|q: int|
            0 <= q < k ==> cs[q].name@ != name) by {
            if cs[k].name@ == name && forall|q: int| 0 <= q < k ==> cs[q].name@ != name {
                assert(is_first_category(cs, name, k));
            }
        }
    }
}

/// A history once loaded stays as it is when its channel is opened again.
pub proof fn law_loaded_history_kept(
    before: Map<Seq<char>, Vec<Message>>,
    after: Map<Seq<char>, Vec<Message>>,
    key: Seq<char>,
)
    requires
        loaded_channel(before, after, key) || loaded_dm(before, after, key),
    ensures
        after.dom().contains(key) || before.dom().contains(key),
        before.dom().contains(key) ==> after == before,
{
}

/// What is sent is read back: the list under the key grew by exactly the
/// new message, which comes last.
pub proof fn law_send_then_read(
    before: Map<Seq<char>, Vec<Message>>,
    after: Map<Seq<char>, Vec<Message>>,
    key: Seq<char>,
    author: User,
    content: Seq<char>,
    now: u128,
    attachment: Option<Attachment>,
    reply: Option<MessageReply>,
)
    requires
        appended(before, after, key, author, content, now, attachment, reply),
    ensures
        after[key]@.last().content@ == content,
        after[key]@.last().author == author,
        after[key]@.last().created_at == now,
        forall|i: int| 0 <= i < after[key]@.len() - 1 ==> #[trigger] after[key]@[i] == (if before.dom().contains(key) {
            before[key]@
        } else {
            Seq::empty()
        })[i],
        forall|k: Seq<char>| k != key ==> #[trigger] after.dom().contains(k) == before.dom().contains(k),
        forall|k: Seq<char>| k != key && before.dom().contains(k) ==> #[trigger] after[k] == before[k],
{
    let l = after[key]@;
    assert forall|i: int| 0 <= i < l.len() - 1 implies #[trigger] l[i] == (if before.dom().contains(key) {
        before[key]@
    } else {
        Seq::empty()
    })[i] by {
        assert(l.drop_last()[i] == l[i]);
    }
}

/// An edited message reads back with the new text, marked edited, in its
/// old place.
pub proof fn law_edit_then_read(
    before: Map<Seq<char>, Vec<Message>>,
    after: Map<Seq<char>, Vec<Message>>,
    key: Option<String>,
    id: Seq<char>,
    content: Seq<char>,
)
    requires
        message_edited(before, after, key, id, content),
        holds_message(before, key, id),
    ensures
        has_message(after[key->0@]@, id),
        after[key->0@]@[first_message_index(before[key->0@]@, id)].content@ == content,
        after[key->0@]@[first_message_index(before[key->0@]@, id)].edited,
        after[key->0@]@.len() == before[key->0@]@.len(),
{
    let ms = before[key->0@]@;
    lemma_first_message_exists(ms, id);
    let i = first_message_index(ms, id);
    assert(after[key->0@]@[i].id@ == id);
}

/// `i` is the first position of a category named `name`.
pub open spec fn is_first_category(cs: Seq<ChannelCategory>, name: Seq<char>, i: int) -> bool {
    &&& 0 <= i < cs.len()
    &&& cs[i].name@ == name
    &&& forall|j: int| 0 <= j < i ==> #[trigger] cs[j].name@ != name
}

/// `m` is the message that `author` sends with text `content` at `now`,
/// carrying `attachment` and answering `reply`.
pub open spec fn is_sent_message(
    m: Message,
    author: User,
    content: Seq<char>,
    now: u128,
    attachment: Option<Attachment>,
    reply: Option<MessageReply>,
) -> bool {
    &&& m.id@ == seq!['m', 's', 'g', '_'] + decimal(now as nat)
    &&& m.author == author
    &&& m.content@ == content
    &&& m.timestamp@ == "Just now"@
    &&& !m.edited
    &&& m.edited_timestamp is None
    &&& m.attachment == attachment
    &&& m.reactions@ == Map::<Seq<char>, Seq<Seq<char>>>::empty()
    &&& match reply {
        Some(r) => m.reply_to matches Some(b) && *b == r,
        None => m.reply_to is None,
    }
    &&& m.mentioned_users@.len() == 0
    &&& !m.pinned
    &&& m.thread_id is None
    &&& m.thread_count == 0
    &&& m.created_at == now
}

/// `after` is `before` with the message `author` sends appended to the list
/// under `key` (a list that is created when missing).
pub open spec fn appended(
    before: Map<Seq<char>, Vec<Message>>,
    after: Map<Seq<char>, Vec<Message>>,
    key: Seq<char>,
    author: User,
    content: Seq<char>,
    now: u128,
    attachment: Option<Attachment>,
    reply: Option<MessageReply>,
) -> bool {
    let old_list = if before.dom().contains(key) {
        before[key]@
    } else {
        Seq::empty()
    };
    &&& after.dom().contains(key)
    &&& after == before.insert(key, after[key])
    &&& after[key]@.len() == old_list.len() + 1
    &&& after[key]@.drop_last() == old_list
    &&& is_sent_message(after[key]@.last(), author, content, now, attachment, reply)
}

fn append_message(store: &mut KeyedStore<Vec<Message>>, key: &String, msg: Message)
    ensures
        final(store)@.dom().contains(key@),
        final(store)@ == old(store)@.insert(key@, final(store)@[key@]),
        final(store)@[key@]@ == (if old(store)@.dom().contains(key@) {
            old(store)@[key@]@
        } else {
            Seq::empty()
        }).push(msg),
{
    let mut list = match store.remove(key.as_str()) {
        Some(v) => v,
        None => Vec::new(),
    };
    list.push(msg);
    store.insert(key.clone(), list);
    assert(final(store)@ =~= old(store)@.insert(key@, list));
}

/// The position of the first message of `ms` with identifier `id`.
pub open spec fn first_message_index(ms: Seq<Message>, id: Seq<char>) -> int {
    choose|i: int| is_first_message(ms, id, i)
}

/// Whether the list under `key` holds a message with identifier `id`.
pub open spec fn holds_message(store: Map<Seq<char>, Vec<Message>>, key: Option<String>, id: Seq<char>) -> bool {
    key is Some && store.dom().contains(key->0@) && has_message(store[key->0@]@, id)
}

/// `after` differs from `before` only in the list under `key`, which has the
/// same length and the same messages except at position `i`.
pub open spec fn changed_at(
    before: Map<Seq<char>, Vec<Message>>,
    after: Map<Seq<char>, Vec<Message>>,
    key: Seq<char>,
    i: int,
) -> bool {
    &&& after.dom().contains(key)
    &&& after == before.insert(key, after[key])
    &&& after[key]@.len() == before[key]@.len()
    &&& forall|j: int| 0 <= j < before[key]@.len() && j != i ==> #[trigger] after[key]@[j] == before[key]@[j]
}

/// The reaction `emoji` of `user` toggled on message `id` of the list under
/// `key`; nothing changes when there is no such message.
pub open spec fn reaction_toggled(
    before: Map<Seq<char>, Vec<Message>>,
    after: Map<Seq<char>, Vec<Message>>,
    key: Option<String>,
    id: Seq<char>,
    emoji: Seq<char>,
    user: Seq<char>,
) -> bool {
    if holds_message(before, key, id) {
        let k = key->0@;
        let i = first_message_index(before[k]@, id);
        &&& changed_at(before, after, k, i)
        &&& after[k]@[i].reactions@ == toggled(before[k]@[i].reactions@, emoji, user)
        &&& after[k]@[i].same_but_reactions(before[k]@[i])
    } else {
        after == before
    }
}

/// Message `id` of the list under `key` given the text `content` and marked
/// edited just now; nothing changes when there is no such message.
pub open spec fn message_edited(
    before: Map<Seq<char>, Vec<Message>>,
    after: Map<Seq<char>, Vec<Message>>,
    key: Option<String>,
    id: Seq<char>,
    content: Seq<char>,
) -> bool {
    if holds_message(before, key, id) {
        let k = key->0@;
        let i = first_message_index(before[k]@, id);
        let m = after[k]@[i];
        &&& changed_at(before, after, k, i)
        &&& m == (Message {
            content: m.content,
            edited: true,
            edited_timestamp: m.edited_timestamp,
            ..before[k]@[i]
        })
        &&& m.content@ == content
        &&& m.edited_timestamp matches Some(t) && t@ == "Just now"@
    } else {
        after == before
    }
}

/// `ms` without the messages whose identifier is `id`, order kept.
pub open spec fn without_message(ms: Seq<Message>, id: Seq<char>) -> Seq<Message>
    decreases ms.len(),
{
    if ms.len() == 0 {
        Seq::empty()
    } else if ms.last().id@ == id {
        without_message(ms.drop_last(), id)
    } else {
        without_message(ms.drop_last(), id).push(ms.last())
    }
}

/// Every message `id` dropped from the list under `key`.
pub open spec fn message_deleted(
    before: Map<Seq<char>, Vec<Message>>,
    after: Map<Seq<char>, Vec<Message>>,
    key: Option<String>,
    id: Seq<char>,
) -> bool {
    if key is Some && before.dom().contains(key->0@) {
        let k = key->0@;
        &&& after.dom().contains(k)
        &&& after == before.insert(k, after[k])
        &&& after[k]@ == without_message(before[k]@, id)
    } else {
        after == before
    }
}

fn toggle_in(
    store: &mut KeyedStore<Vec<Message>>,
    key: &Option<String>,
    message_id: &str,
    emoji: String,
    user: String,
)
    ensures
        reaction_toggled(old(store)@, final(store)@, *key, message_id@, emoji@, user@),
{
    let k = match key {
        Some(k) => k,
        None => return,
    };
    let ghost before = store@;
    let mut list = match store.remove(k.as_str()) {
        Some(v) => v,
        None => {
            assert(store@ =~= before);
            return;
        },
    };
    let ghost ms = list@;
    match find_message(&list, message_id) {
        Some(i) => {
            proof { lemma_first_message_unique(ms, message_id@, i as int); }
            let mut m = list.remove(i);
            m.toggle_reaction(emoji, user);
            list.insert(i, m);
            assert(list@ =~= ms.update(i as int, m));
            store.insert(k.clone(), list);
            assert(store@ =~= before.insert(k@, list));
        },
        None => {
            store.insert(k.clone(), list);
            assert(store@ =~= before);
        },
    }
}

fn edit_in(store: &mut KeyedStore<Vec<Message>>, key: &Option<String>, message_id: &str, content: String)
    ensures
        message_edited(old(store)@, final(store)@, *key, message_id@, content@),
{
    let k = match key {
        Some(k) => k,
        None => return,
    };
    let ghost before = store@;
    let mut list = match store.remove(k.as_str()) {
        Some(v) => v,
        None => {
            assert(store@ =~= before);
            return;
        },
    };
    let ghost ms = list@;
    match find_message(&list, message_id) {
        Some(i) => {
            proof { lemma_first_message_unique(ms, message_id@, i as int); }
            let mut m = list.remove(i);
            m.content = content;
            m.edited = true;
            m.edited_timestamp = Some(String::from_str("Just now"));
            list.insert(i, m);
            assert(list@ =~= ms.update(i as int, m));
            store.insert(k.clone(), list);
            assert(store@ =~= before.insert(k@, list));
        },
        None => {
            store.insert(k.clone(), list);
            assert(store@ =~= before);
        },
    }
}

fn delete_in(store: &mut KeyedStore<Vec<Message>>, key: &Option<String>, message_id: &str)
    ensures
        message_deleted(old(store)@, final(store)@, *key, message_id@),
{
    let k = match key {
        Some(k) => k,
        None => return,
    };
    let ghost before = store@;
    let list = match store.remove(k.as_str()) {
        Some(v) => v,
        None => {
            assert(store@ =~= before);
            return;
        },
    };
    let ghost ms = list@;
    let mut kept: Vec<Message> = Vec::new();
    let mut rest = list;
    let ghost mut taken: int = 0;
    while rest.len() > 0
        invariant
            0 <= taken <= ms.len(),
            rest@ == ms.skip(taken),
            kept@ == without_message(ms.take(taken), message_id@),
        decreases rest@.len(),
    {
        let m = rest.remove(0);
        proof {
            assert(m == ms[taken]);
            assert(ms.take(taken + 1).drop_last() =~= ms.take(taken));
            assert(ms.take(taken + 1).last() == m);
        }
        if !str_eq(m.id.as_str(), message_id) {
            kept.push(m);
        }
        proof {
            assert(rest@ =~= ms.skip(taken + 1));
            taken = taken + 1;
        }
    }
    proof {
        assert(taken == ms.len());
        assert(ms.take(taken) =~= ms);
    }
    store.insert(k.clone(), kept);
    assert(store@ =~= before.insert(k@, kept));
}

/// A list that holds a message `id` has a first one.
pub proof fn lemma_first_message_exists(ms: Seq<Message>, id: Seq<char>)
    requires
        has_message(ms, id),
    ensures
        is_first_message(ms, id, first_message_index(ms, id)),
    decreases ms.len(),
{
    let p = ms.drop_last();
    if has_message(p, id) {
        lemma_first_message_exists(p, id);
        let i = first_message_index(p, id);
        assert(p[i] == ms[i]);
        assert forall|j: int| 0 <= j < i implies #[trigger] ms[j].id@ != id by {
            assert(p[j] == ms[j]);
        }
        assert(is_first_message(ms, id, i));
    } else {
        let i = ms.len() - 1;
        let w = choose|w: int| 0 <= w < ms.len() && #[trigger] ms[w].id@ == id;
        if w < i {
            assert(p[w] == ms[w]);
        }
        assert(w == i);
        assert forall|j: int| 0 <= j < i implies #[trigger] ms[j].id@ != id by {
            assert(p[j] == ms[j]);
        }
        assert(is_first_message(ms, id, i));
    }
}

proof fn lemma_first_message_unique(ms: Seq<Message>, id: Seq<char>, i: int)
    requires
        is_first_message(ms, id, i),
    ensures
        has_message(ms, id),
        first_message_index(ms, id) == i,
{
    assert(ms[i].id@ == id);
    let k = first_message_index(ms, id);
    if k > i {
        assert(ms[i].id@ == id);
    }
    if k < i {
        assert(ms[k].id@ == id);
    }
}

/// Whether some list of `store` holds a message with identifier `id`.
pub open spec fn store_has(store: Map<Seq<char>, Vec<Message>>, id: Seq<char>) -> bool {
    exists|k: Seq<char>| #[trigger] store.dom().contains(k) && has_message(store[k]@, id)
}

/// `m` is the first message with identifier `id` in one of the lists of
/// `store`.
pub open spec fn located(store: Map<Seq<char>, Vec<Message>>, id: Seq<char>, m: Message) -> bool {
    exists|k: Seq<char>, i: int|
        #[trigger] store.dom().contains(k) && is_first_message(store[k]@, id, i) && #[trigger] store[k]@[i]
            == m
}

/// No message `id` of `store` has reached the largest reply count.
pub open spec fn counts_below_max(store: Map<Seq<char>, Vec<Message>>, id: Seq<char>) -> bool {
    forall|k: Seq<char>, i: int|
        #[trigger] store.dom().contains(k) && 0 <= i < store[k]@.len() && #[trigger] store[k]@[i].id@
            == id ==> store[k]@[i].thread_count < usize::MAX
}

/// The first message `id` of the list under `k` has one more reply; nothing
/// else changed.
pub open spec fn bumped_at(
    before: Map<Seq<char>, Vec<Message>>,
    after: Map<Seq<char>, Vec<Message>>,
    k: Seq<char>,
    id: Seq<char>,
) -> bool {
    let ms = before[k]@;
    let i = first_message_index(ms, id);
    &&& changed_at(before, after, k, i)
    &&& after[k]@[i] == (Message { thread_count: (ms[i].thread_count + 1) as usize, ..ms[i] })
}

/// The reply count of one message `id` of `store` went up by one, or nothing
/// changed when `store` holds no such message.
pub open spec fn bumped(
    before: Map<Seq<char>, Vec<Message>>,
    after: Map<Seq<char>, Vec<Message>>,
    id: Seq<char>,
) -> bool {
    if store_has(before, id) {
        exists|k: Seq<char>| #[trigger] before.dom().contains(k) && has_message(before[k]@, id)
            && bumped_at(before, after, k, id)
    } else {
        after == before
    }
}

fn find_in_store(store: &KeyedStore<Vec<Message>>, id: &str) -> (r: Option<(String, usize)>)
    ensures
        r matches Some((k, i)) ==> store@.dom().contains(k@) && is_first_message(store@[k@]@, id@, i as int),
        r is None ==> !store_has(store@, id@),
{
    let keys = store.keys();
    let mut n: usize = 0;
    while n < keys.len()
        invariant
            n <= keys@.len(),
            forall|j: int| 0 <= j < keys@.len() ==> store@.dom().contains(#[trigger] keys@[j]@),
            forall|k: Seq<char>| #[trigger] store@.dom().contains(k) ==> exists|j: int|
                0 <= j < keys@.len() && keys@[j]@ == k,
            forall|j: int| 0 <= j < n ==> !has_message(store@[#[trigger] keys@[j]@]@, id@),
        decreases keys@.len() - n,
    {
        let k = &keys[n];
        match store.get(k.as_str()) {
            Some(list) => {
                match find_message(list, id) {
                    Some(i) => {
                        return Some((k.clone(), i));
                    },
                    None => {},
                }
            },
            None => {},
        }
        n = n + 1;
    }
    proof {
        if store_has(store@, id@) {
            let k = choose|k: Seq<char>| #[trigger] store@.dom().contains(k) && has_message(store@[k]@, id@);
            let j = choose|j: int| 0 <= j < keys@.len() && keys@[j]@ == k;
            assert(!has_message(store@[keys@[j]@]@, id@));
        }
    }
    None
}

fn bump_thread_count(store: &mut KeyedStore<Vec<Message>>, id: &str)
    requires
        counts_below_max(old(store)@, id@),
    ensures
        bumped(old(store)@, final(store)@, id@),
{
    let ghost before = store@;
    match find_in_store(store, id) {
        None => {},
        Some((k, i)) => {
            let mut list = store.remove(k.as_str()).unwrap();
            let ghost ms = list@;
            proof {
                lemma_first_message_unique(ms, id@, i as int);
                assert(before.dom().contains(k@) && 0 <= i < before[k@]@.len() && before[k@]@[i as int].id@ == id@);
            }
            let mut m = list.remove(i);
            m.thread_count = m.thread_count + 1;
            list.insert(i, m);
            assert(list@ =~= ms.update(i as int, m));
            store.insert(k.clone(), list);
            assert(store@ =~= before.insert(k@, list));
            assert(bumped_at(before, store@, k@, id@));
        },
    }
}

/// The characters of the lower-case hyphenated text of a random (version 4)
/// UUID: 32 hexadecimal digits in groups of 8, 4, 4, 4 and 12, the version
/// digit `4` and a variant digit among `8`, `9`, `a`, `b`.
pub open spec fn is_v4_uuid_text(s: Seq<char>) -> bool {
    &&& s.len() == 36
    &&& forall|i: int| 0 <= i < 36 ==> if i == 8 || i == 13 || i == 18 || i == 23 {
        #[trigger] s[i] == '-'
    } else {
        ('0' <= s[i] <= '9') || ('a' <= s[i] <= 'f')
    }
    &&& s[14] == '4'
    &&& s[19] == '8' || s[19] == '9' || s[19] == 'a' || s[19] == 'b'
}

/// Calls `uuid::Uuid::new_v4` and writes the result with `to_string`. The
/// value is random; what holds of every outcome is its layout, which the
/// crate's formatting code fixes.
#[verifier::external_body]
fn new_uuid_text() -> (r: String)
    ensures
        is_v4_uuid_text(r@),
{
    uuid::Uuid::new_v4().to_string()
}

/// `m` is the reply with text `content` that the current user writes in the
/// thread of `thread_id` at `now`, under the identifier `thread-msg-`
/// followed by a random UUID.
pub open spec fn is_thread_reply(m: Message, thread_id: Seq<char>, content: Seq<char>, now: u128) -> bool {
    &&& m.id@.len() == 47
    &&& m.id@.take(11) == "thread-msg-"@
    &&& is_v4_uuid_text(m.id@.skip(11))
    &&& m.author.id@ == "current-user"@
    &&& m.author.username@ == "You"@
    &&& m.author.discriminator@ == "0001"@
    &&& m.author.status == UserStatus::Online
    &&& m.content@ == content
    &&& m.timestamp@ == "Just now"@
    &&& !m.edited
    &&& m.edited_timestamp is None
    &&& m.attachment is None
    &&& m.reactions@ == Map::<Seq<char>, Seq<Seq<char>>>::empty()
    &&& m.reply_to is None
    &&& m.mentioned_users@.len() == 0
    &&& !m.pinned
    &&& m.thread_id matches Some(t) && t@ == thread_id
    &&& m.thread_count == 0
    &&& m.created_at == now
}

/// The first user of `us` with identifier `id`.
pub open spec fn first_user(us: Seq<User>, id: Seq<char>) -> Option<User> {
    if exists|i: int| 0 <= i < us.len() && #[trigger] us[i].id@ == id {
        let i = choose|i: int|
            0 <= i < us.len() && us[i].id@ == id && forall|j: int| 0 <= j < i ==> #[trigger] us[j].id@ != id;
        Some(us[i])
    } else {
        None
    }
}

/// The first conversation of `ds` with identifier `id`.
pub open spec fn first_dm(ds: Seq<DirectMessageChannel>, id: Seq<char>) -> Option<DirectMessageChannel> {
    if exists|i: int| 0 <= i < ds.len() && #[trigger] ds[i].id@ == id {
        let i = choose|i: int|
            0 <= i < ds.len() && ds[i].id@ == id && forall|j: int| 0 <= j < i ==> #[trigger] ds[j].id@ != id;
        Some(ds[i])
    } else {
        None
    }
}

fn find_user(us: &Vec<User>, id: &str) -> (r: Option<usize>)
    ensures
        match r {
            Some(i) => i < us@.len() && first_user(us@, id@) == Some(us@[i as int]),
            None => first_user(us@, id@) is None,
        },
{
    let mut i: usize = 0;
    while i < us.len()
        invariant
            i <= us@.len(),
            forall|j: int| 0 <= j < i ==> #[trigger] us@[j].id@ != id@,
        decreases us@.len() - i,
    {
        if str_eq(us[i].id.as_str(), id) {
            proof {
                let k = choose|k: int|
                    0 <= k < us@.len() && us@[k].id@ == id@ && forall|j: int| 0 <= j < k ==> #[trigger] us@[j].id@ != id@;
                assert(0 <= i < us@.len() && us@[i as int].id@ == id@ && forall|j: int| 0 <= j < i ==> #[trigger] us@[j].id@ != id@);
                if k > i {
                    assert(us@[i as int].id@ == id@);
                }
                assert(k == i);
            }
            return Some(i);
        }
        i = i + 1;
    }
    None
}

fn find_dm(ds: &Vec<DirectMessageChannel>, id: &str) -> (r: Option<usize>)
    ensures
        match r {
            Some(i) => i < ds@.len() && first_dm(ds@, id@) == Some(ds@[i as int]),
            None => first_dm(ds@, id@) is None,
        },
{
    let mut i: usize = 0;
    while i < ds.len()
        invariant
            i <= ds@.len(),
            forall|j: int| 0 <= j < i ==> #[trigger] ds@[j].id@ != id@,
        decreases ds@.len() - i,
    {
        if str_eq(ds[i].id.as_str(), id) {
            proof {
                let k = choose|k: int|
                    0 <= k < ds@.len() && ds@[k].id@ == id@ && forall|j: int| 0 <= j < k ==> #[trigger] ds@[j].id@ != id@;
                assert(0 <= i < ds@.len() && ds@[i as int].id@ == id@ && forall|j: int| 0 <= j < i ==> #[trigger] ds@[j].id@ != id@);
                if k > i {
                    assert(ds@[i as int].id@ == id@);
                }
                assert(k == i);
            }
            return Some(i);
        }
        i = i + 1;
    }
    None
}

fn find_message(ms: &Vec<Message>, id: &str) -> (r: Option<usize>)
    ensures
        r matches Some(i) ==> is_first_message(ms@, id@, i as int),
        r is None ==> !has_message(ms@, id@),
{
    let mut i: usize = 0;
    while i < ms.len()
        invariant
            i <= ms@.len(),
            forall|j: int| 0 <= j < i ==> #[trigger] ms@[j].id@ != id@,
        decreases ms@.len() - i,
    {
        if str_eq(ms[i].id.as_str(), id) {
            return Some(i);
        }
        i = i + 1;
    }
    None
}

impl TripwireApp {
    /// The key of the message list the current view shows.
    pub open spec fn active_key(self) -> Option<String> {
        match self.current_view {
            AppView::Servers => self.active_channel_id,
            AppView::DirectMessages => self.active_dm_id,
        }
    }

    /// The message store the current view draws from.
    pub open spec fn active_store(self) -> Map<Seq<char>, Vec<Message>> {
        match self.current_view {
            AppView::Servers => self.messages@,
            AppView::DirectMessages => self.dm_messages@,
        }
    }

    /// The state the client starts in: the sample servers, with the first
    /// channel of the first server open and its history loaded, the sample
    /// conversations, the members list shown, nothing else open.
    pub fn new(auth: AuthState) -> (r: Self)
        ensures
            r.auth == auth,
            r.current_view == AppView::Servers,
            is_sample_servers(r.servers@),
            r.servers@.len() == 3,
            r.active_server == 0,
            r.active_channel_id matches Some(c) && c@ == "101"@,
            r.messages@.dom() == set!["101"@],
            is_channel_sample("101"@, r.messages@["101"@]@),
            is_sample_dms(r.dm_channels@),
            r.dm_channels@.len() == 4,
            r.active_dm_id is None,
            r.dm_messages@ == Map::<Seq<char>, Vec<Message>>::empty(),
            r.show_members,
            r.pending_attachment is None,
            r.emoji_search@ == Seq::<char>::empty(),
            r.active_emoji_picker_message is None,
            r.replying_to is None,
            r.editing_message_id is None,
            r.typing_users@ == Map::<Seq<char>, Vec<String>>::empty(),
            r.voice_state is None,
            r.show_voice_switch_warning is None,
            r.show_profile is None,
            r.user_profiles@ == Map::<Seq<char>, UserProfile>::empty(),
            !r.show_settings,
            r.settings_screen == SettingsScreen::Account,
            !r.show_server_settings,
            r.server_settings_screen == ServerSettingsScreen::Overview,
            r.open_thread_id is None,
            r.thread_messages@ == Map::<Seq<char>, Vec<Message>>::empty(),
            !r.show_voice_chat_sidebar,
    {
        let servers = make_servers();
        assert(servers@.map_values(|x: Server| server_row(x)).len() == sample_servers().len());
        let chans = servers[0].all_channels();
        proof {
            let cs = flat_channels(servers@[0].categories@);
            assert(crate::mock_data::channel_ids(cs).len() == 9);
            assert(cs.len() == 9);
            assert(crate::mock_data::channel_ids(cs)[0] == cs[0].id@);
            assert(derefs(chans@)[0] == cs[0]);
        }
        let first_id = chans[0].id.clone();
        let mut messages = KeyedStore::new();
        let history = make_messages_for(first_id.as_str());
        messages.insert(first_id.clone(), history);
        assert(messages@.dom() =~= set!["101"@]);
        let dms = make_dm_channels();
        assert(dms@.map_values(|d: DirectMessageChannel| dm_row(d)).len() == sample_dms().len());
        TripwireApp {
            auth,
            current_view: AppView::Servers,
            servers,
            active_server: 0,
            active_channel_id: Some(first_id),
            messages,
            dm_channels: dms,
            active_dm_id: None,
            dm_messages: KeyedStore::new(),
            show_members: true,
            pending_attachment: None,
            emoji_search: String::new(),
            active_emoji_picker_message: None,
            replying_to: None,
            editing_message_id: None,
            typing_users: KeyedStore::new(),
            voice_state: None,
            show_voice_switch_warning: None,
            show_profile: None,
            user_profiles: KeyedStore::new(),
            show_settings: false,
            settings_screen: SettingsScreen::Account,
            show_server_settings: false,
            server_settings_screen: ServerSettingsScreen::Overview,
            open_thread_id: None,
            thread_messages: KeyedStore::new(),
            show_voice_chat_sidebar: false,
        }
    }

    // ── Queries ─────────────────────────────────────────────────────────────

    /// The selected server, if the index points at one.
    pub fn active_server(&self) -> (r: Option<&Server>)
        ensures
            r.is_some() == (self.active_server < self.servers@.len()),
            r matches Some(s) ==> *s == self.servers@[self.active_server as int],
    {
        if self.active_server < self.servers.len() {
            Some(&self.servers[self.active_server])
        } else {
            None
        }
    }

    /// The open conversation: the first one whose id is `active_dm_id`.
    pub fn active_dm(&self) -> (r: Option<&DirectMessageChannel>)
        ensures
            r.is_some() == (self.active_dm_id matches Some(id) && first_dm(self.dm_channels@, id@)
                is Some),
            r matches Some(d) ==> Some(*d) == first_dm(self.dm_channels@, self.active_dm_id->0@),
    {
        let id = match &self.active_dm_id {
            Some(id) => id,
            None => return None,
        };
        match find_dm(&self.dm_channels, id.as_str()) {
            Some(i) => Some(&self.dm_channels[i]),
            None => None,
        }
    }

    /// The open channel: the first channel of the selected server whose id
    /// is `active_channel_id`.
    pub open spec fn active_channel_spec(self) -> Option<Channel> {
        if self.active_server < self.servers@.len() && self.active_channel_id is Some {
            first_channel(
                flat_channels(self.servers@[self.active_server as int].categories@),
                self.active_channel_id->0@,
            )
        } else {
            None
        }
    }

    /// The open channel.
    pub fn active_channel(&self) -> (r: Option<&Channel>)
        ensures
            r.is_some() == self.active_channel_spec().is_some(),
            r matches Some(c) ==> *c == self.active_channel_spec().unwrap(),
    {
        let server = match self.active_server() {
            Some(s) => s,
            None => return None,
        };
        let id = match &self.active_channel_id {
            Some(id) => id,
            None => return None,
        };
        let chans = server.all_channels();
        let ghost cs = flat_channels(server.categories@);
        let mut i: usize = 0;
        while i < chans.len()
            invariant
                derefs(chans@) == cs,
                self.active_server < self.servers@.len(),
                *server == self.servers@[self.active_server as int],
                cs == flat_channels(server.categories@),
                self.active_channel_id == Some(*id),
                i <= chans@.len(),
                forall|j: int| 0 <= j < i ==> #[trigger] cs[j].id@ != id@,
            decreases chans@.len() - i,
        {
            let c: &Channel = chans[i];
            assert(*c == cs[i as int]);
            if str_eq(c.id.as_str(), id.as_str()) {
                proof {
                    assert(is_first_channel(cs, id@, i as int));
                    let k = choose|k: int| is_first_channel(cs, id@, k);
                    if k > i {
                        assert(cs[i as int].id@ == id@);
                    }
                    assert(k == i);
                    assert(self.active_channel_spec() == Some(cs[i as int]));
                }
                return Some(c);
            }
            i = i + 1;
        }
        None
    }

    /// The name of the open channel.
    pub fn active_channel_name(&self) -> (r: Option<&str>)
        ensures
            r.is_some() == self.active_channel_spec().is_some(),
            r matches Some(n) ==> n@ == self.active_channel_spec().unwrap().name@,
    {
        match self.active_channel() {
            Some(c) => Some(c.name.as_str()),
            None => None,
        }
    }

    /// The topic of the open channel, when it has one.
    pub fn active_channel_topic(&self) -> (r: Option<&str>)
        ensures
            r.is_some() == (self.active_channel_spec() matches Some(c) && c.topic.is_some()),
            r matches Some(t) ==> t@ == self.active_channel_spec().unwrap().topic.unwrap()@,
    {
        match self.active_channel() {
            Some(c) => match &c.topic {
                Some(t) => Some(t.as_str()),
                None => None,
            },
            None => None,
        }
    }

    /// The kind of the open channel.
    pub fn active_channel_kind(&self) -> (r: Option<ChannelKind>)
        ensures
            r == match self.active_channel_spec() {
                Some(c) => Some(c.kind),
                None => None,
            },
    {
        match self.active_channel() {
            Some(c) => Some(c.kind),
            None => None,
        }
    }

    /// The history of the open channel.
    pub fn active_messages(&self) -> (r: &[Message])
        ensures
            r@ == list_for(self.messages@, self.active_channel_id),
    {
        match &self.active_channel_id {
            Some(id) => match self.messages.get(id.as_str()) {
                Some(v) => v.as_slice(),
                None => &[],
            },
            None => &[],
        }
    }

    /// The history of the open conversation.
    pub fn active_dm_messages(&self) -> (r: &[Message])
        ensures
            r@ == list_for(self.dm_messages@, self.active_dm_id),
    {
        match &self.active_dm_id {
            Some(id) => match self.dm_messages.get(id.as_str()) {
                Some(v) => v.as_slice(),
                None => &[],
            },
            None => &[],
        }
    }

    // ── Navigation ──────────────────────────────────────────────────────────

    /// Shows the servers and closes any conversation.
    pub fn switch_to_servers(&mut self)
        ensures
            *final(self) == (TripwireApp {
                current_view: AppView::Servers,
                active_dm_id: None,
                ..*old(self)
            }),
    {
        self.current_view = AppView::Servers;
        self.active_dm_id = None;
    }

    /// Shows the direct messages.
    pub fn switch_to_dms(&mut self)
        ensures
            *final(self) == (TripwireApp { current_view: AppView::DirectMessages, ..*old(self) }),
    {
        self.current_view = AppView::DirectMessages;
    }

    /// Selects the server at `index`. When there is such a server, its first
    /// channel is opened (its history loaded if it was not yet), or none when
    /// it has no channels.
    pub fn switch_server(&mut self, index: usize)
        ensures
            index < old(self).servers@.len() ==> ({
                let cs = flat_channels(old(self).servers@[index as int].categories@);
                &&& cs.len() == 0 ==> final(self).active_channel_id is None && final(self).messages@
                    == old(self).messages@
                &&& cs.len() > 0 ==> (final(self).active_channel_id matches Some(c) && c@
                    == cs[0].id@) && loaded_channel(old(self).messages@, final(self).messages@, cs[0].id@)
            }),
            index >= old(self).servers@.len() ==> final(self).active_channel_id == old(self).active_channel_id && final(self).messages@ == old(self).messages@,
            *final(self) == (TripwireApp {
                current_view: AppView::Servers,
                active_server: index,
                active_dm_id: None,
                active_channel_id: final(self).active_channel_id,
                messages: final(self).messages,
                ..*old(self)
            }),
    {
        self.current_view = AppView::Servers;
        self.active_server = index;
        self.active_dm_id = None;
        if index < self.servers.len() {
            let chans = self.servers[index].all_channels();
            let channel_id: Option<String> = if chans.len() > 0 {
                assert(derefs(chans@)[0] == *chans@[0]);
                Some(chans[0].id.clone())
            } else {
                None
            };
            match &channel_id {
                Some(ch) => {
                    load_channel(&mut self.messages, ch);
                },
                None => {},
            }
            self.active_channel_id = channel_id;
        }
    }

    /// Opens the server channel `channel_id`, loading its history if it was
    /// not yet, and closes any conversation.
    pub fn switch_channel(&mut self, channel_id: String)
        ensures
            loaded_channel(old(self).messages@, final(self).messages@, channel_id@),
            *final(self) == (TripwireApp {
                current_view: AppView::Servers,
                active_channel_id: Some(channel_id),
                active_dm_id: None,
                messages: final(self).messages,
                ..*old(self)
            }),
    {
        self.current_view = AppView::Servers;
        load_channel(&mut self.messages, &channel_id);
        self.active_channel_id = Some(channel_id);
        self.active_dm_id = None;
    }

    /// Opens the conversation `dm_id`, loading its history if it was not
    /// yet, and closes any server channel.
    pub fn switch_dm(&mut self, dm_id: String)
        ensures
            loaded_dm(old(self).dm_messages@, final(self).dm_messages@, dm_id@),
            *final(self) == (TripwireApp {
                current_view: AppView::DirectMessages,
                active_dm_id: Some(dm_id),
                active_channel_id: None,
                dm_messages: final(self).dm_messages,
                ..*old(self)
            }),
    {
        self.current_view = AppView::DirectMessages;
        if !self.dm_messages.contains_key(dm_id.as_str()) {
            let history = make_dm_messages_for(dm_id.as_str());
            self.dm_messages.insert(dm_id.clone(), history);
        }
        self.active_dm_id = Some(dm_id);
        self.active_channel_id = None;
    }

    /// Folds or unfolds the first category named `category_name` of the
    /// selected server.
    pub fn toggle_category(&mut self, category_name: &str)
        ensures
            ({
                let i = old(self).active_server as int;
                let before = old(self).servers@;
                if i < before.len() {
                    &&& final(self).servers@.len() == before.len()
                    &&& forall|k: int| 0 <= k < before.len() && k != i ==> #[trigger] final(self).servers@[k] == before[k]
                    &&& final(self).servers@[i] == (Server {
                        categories: final(self).servers@[i].categories,
                        ..before[i]
                    })
                    &&& final(self).servers@[i].categories@ == toggle_first_category(
                        before[i].categories@,
                        category_name@,
                    )
                } else {
                    final(self).servers@ == before
                }
            }),
            *final(self) == (TripwireApp { servers: final(self).servers, ..*old(self) }),
    {
        let i = self.active_server;
        if i >= self.servers.len() {
            return;
        }
        let ghost before = self.servers@;
        let mut server = self.servers.remove(i);
        let n = server.categories.len();
        let mut j: usize = 0;
        while j < n && !str_eq(server.categories[j].name.as_str(), category_name)
            invariant
                n == server.categories@.len(),
                j <= n,
                server == before[i as int],
                forall|k: int| 0 <= k < j ==> #[trigger] server.categories@[k].name@ != category_name@,
            decreases n - j,
        {
            j = j + 1;
        }
        let found: Option<usize> = if j < n { Some(j) } else { None };
        match found {
            Some(j) => {
                proof {
                    assert(is_first_category(before[i as int].categories@, category_name@, j as int));
                    let k = choose|k: int| is_first_category(before[i as int].categories@, category_name@, k);
                    if k > j {
                        assert(before[i as int].categories@[j as int].name@ == category_name@);
                    }
                    assert(k == j);
                }
                let ghost cats = server.categories@;
                let mut cat = server.categories.remove(j);
                cat.collapsed = !cat.collapsed;
                server.categories.insert(j, cat);
                assert(server.categories@ =~= cats.update(j as int, cat));
                assert(server.categories@ == toggle_first_category(cats, category_name@));
            },
            None => {
                proof {
                    if exists|k: int| is_first_category(before[i as int].categories@, category_name@, k) {
                        let k = choose|k: int| is_first_category(before[i as int].categories@, category_name@, k);
                        assert(server.categories@[k].name@ != category_name@);
                    }
                    assert(server.categories@ == toggle_first_category(server.categories@, category_name@));
                }
            },
        }
        self.servers.insert(i, server);
        proof {
            assert(self.servers@ =~= before.update(i as int, server));
        }
    }

    // ── Composing ───────────────────────────────────────────────────────────

    /// Sends what was typed (`input`, trimmed) together with the pending
    /// attachment, as the signed-in user, to the open channel or
    /// conversation; the message is created at `now_nanos` nanoseconds after
    /// the Unix epoch. Nothing happens when there is neither text nor an
    /// attachment; otherwise the result is `true` and the input box is to be
    /// cleared, also when nobody is signed in (then nothing is sent).
    pub fn send_message(&mut self, input: &str, now_nanos: u128) -> (cleared: bool)
        ensures
            cleared == (trimmed(input@).len() > 0 || old(self).pending_attachment is Some),
            !cleared || old(self).auth.current_user is None ==> *final(self) == *old(self),
            cleared && old(self).auth.current_user is Some ==> final(self).pending_attachment is None
                && final(self).replying_to is None,
            cleared && old(self).auth.current_user is Some ==> match (
                old(self).current_view,
                old(self).active_key(),
            ) {
                (AppView::Servers, Some(k)) => appended(
                    old(self).messages@,
                    final(self).messages@,
                    k@,
                    old(self).auth.current_user->0,
                    trimmed(input@),
                    now_nanos,
                    old(self).pending_attachment,
                    old(self).replying_to,
                ) && final(self).dm_messages@ == old(self).dm_messages@,
                (AppView::DirectMessages, Some(k)) => appended(
                    old(self).dm_messages@,
                    final(self).dm_messages@,
                    k@,
                    old(self).auth.current_user->0,
                    trimmed(input@),
                    now_nanos,
                    old(self).pending_attachment,
                    old(self).replying_to,
                ) && final(self).messages@ == old(self).messages@,
                (_, None) => final(self).messages@ == old(self).messages@ && final(self).dm_messages@
                    == old(self).dm_messages@,
            },
            cleared && old(self).auth.current_user is Some ==> *final(self) == (TripwireApp {
                messages: final(self).messages,
                dm_messages: final(self).dm_messages,
                pending_attachment: None,
                replying_to: None,
                ..*old(self)
            }),
    {
        let content = trim(input);
        if content.as_str().unicode_len() == 0 && self.pending_attachment.is_none() {
            return false;
        }
        let user = match &self.auth.current_user {
            Some(u) => u.clone(),
            None => return true,
        };
        let attachment = self.pending_attachment.take();
        let reply = self.replying_to.take();
        let ghost attachment_g = attachment;
        let ghost reply_g = reply;
        let reply_to = match reply {
            Some(r) => Some(Box::new(r)),
            None => None,
        };
        let msg = Message {
            id: timestamp_id(now_nanos),
            author: user,
            content,
            timestamp: String::from_str("Just now"),
            edited: false,
            edited_timestamp: None,
            attachment,
            reactions: Reactions::new(),
            reply_to,
            mentioned_users: Vec::new(),
            pinned: false,
            thread_id: None,
            thread_count: 0,
            created_at: now_nanos,
        };
        let ghost sent = msg;
        assert(is_sent_message(sent, old(self).auth.current_user->0, trimmed(input@), now_nanos, attachment_g, reply_g));
        match self.current_view {
            AppView::Servers => {
                match &self.active_channel_id {
                    Some(k) => {
                        let ghost before = self.messages@;
                        append_message(&mut self.messages, k, msg);
                        proof {
                            let l = self.messages@[k@]@;
                            assert(l.drop_last() =~= list_for(before, Some(*k)));
                            assert(l.last() == sent);
                        }
                    },
                    None => {},
                }
            },
            AppView::DirectMessages => {
                match &self.active_dm_id {
                    Some(k) => {
                        let ghost before = self.dm_messages@;
                        append_message(&mut self.dm_messages, k, msg);
                        proof {
                            let l = self.dm_messages@[k@]@;
                            assert(l.drop_last() =~= list_for(before, Some(*k)));
                            assert(l.last() == sent);
                        }
                    },
                    None => {},
                }
            },
        }
        true
    }

    /// Processes a picked file (see `prepare_attachment`) and, when it can be
    /// attached, makes it the pending attachment.
    pub fn process_attachment(
        &mut self,
        data: &[u8],
        extension: Option<&str>,
        file_name: Option<&str>,
    ) -> (r: Result<(), AttachmentError>)
        ensures
            attachment_outcome(
                data@,
                opt_seq(extension),
                opt_seq(file_name),
                match r {
                    Ok(_) => Ok(final(self).pending_attachment->0),
                    Err(e) => Err(e),
                },
            ),
            r is Ok ==> final(self).pending_attachment is Some,
            r is Err ==> *final(self) == *old(self),
            *final(self) == (TripwireApp {
                pending_attachment: final(self).pending_attachment,
                ..*old(self)
            }),
    {
        match prepare_attachment(data, extension, file_name) {
            Ok(a) => {
                self.pending_attachment = Some(a);
                Ok(())
            },
            Err(e) => Err(e),
        }
    }

    /// Drops the pending attachment.
    pub fn clear_attachment(&mut self)
        ensures
            *final(self) == (TripwireApp { pending_attachment: None, ..*old(self) }),
    {
        self.pending_attachment = None;
    }

    // ── Reactions, replies, edits ───────────────────────────────────────────

    /// Toggles the signed-in user's reaction `emoji` on message `message_id`
    /// of the open channel or conversation. Nothing happens when nobody is
    /// signed in.
    pub fn toggle_reaction(&mut self, message_id: &str, emoji: String)
        ensures
            old(self).auth.current_user is None ==> *final(self) == *old(self),
            old(self).auth.current_user matches Some(u) ==> match old(self).current_view {
                AppView::Servers => reaction_toggled(
                    old(self).messages@,
                    final(self).messages@,
                    old(self).active_channel_id,
                    message_id@,
                    emoji@,
                    u.id@,
                ) && final(self).dm_messages@ == old(self).dm_messages@,
                AppView::DirectMessages => reaction_toggled(
                    old(self).dm_messages@,
                    final(self).dm_messages@,
                    old(self).active_dm_id,
                    message_id@,
                    emoji@,
                    u.id@,
                ) && final(self).messages@ == old(self).messages@,
            },
            *final(self) == (TripwireApp {
                messages: final(self).messages,
                dm_messages: final(self).dm_messages,
                ..*old(self)
            }),
    {
        let user_id = match &self.auth.current_user {
            Some(u) => u.id.clone(),
            None => return,
        };
        match self.current_view {
            AppView::Servers => toggle_in(&mut self.messages, &self.active_channel_id, message_id, emoji, user_id),
            AppView::DirectMessages => toggle_in(&mut self.dm_messages, &self.active_dm_id, message_id, emoji, user_id),
        }
    }

    /// Starts a reply to `message`, previewing its first fifty bytes.
    pub fn start_reply(&mut self, message: &Message)
        requires
            preview_cut_ok(message.content@, 50),
        ensures
            final(self).replying_to matches Some(r) && r.message_id == message.id && r.author
                == message.author && r.content_preview@ == preview_of(message.content@, 50),
            *final(self) == (TripwireApp { replying_to: final(self).replying_to, ..*old(self) }),
    {
        self.replying_to = Some(
            MessageReply {
                message_id: message.id.clone(),
                author: message.author.clone(),
                content_preview: message.content_preview(50),
            },
        );
    }

    /// Abandons the reply.
    pub fn cancel_reply(&mut self)
        ensures
            *final(self) == (TripwireApp { replying_to: None, ..*old(self) }),
    {
        self.replying_to = None;
    }

    /// Shows the profile of `user`: the one kept for their id, or a new bare
    /// one that is kept from then on.
    pub fn show_user_profile(&mut self, user: User)
        ensures
            old(self).user_profiles@.dom().contains(user.id@) ==> final(self).user_profiles@ == old(
                self).user_profiles@ && (final(self).show_profile matches Some(p) && p.same_as(
                old(self).user_profiles@[user.id@],
            )),
            !old(self).user_profiles@.dom().contains(user.id@) ==> ({
                let kept = final(self).user_profiles@[user.id@];
                &&& final(self).user_profiles@.dom().contains(user.id@)
                &&& final(self).user_profiles@ == old(self).user_profiles@.insert(user.id@, kept)
                &&& kept.user == user
                &&& kept.bio is None && kept.custom_status is None && kept.note is None
                &&& kept.custom_status_emoji is None && kept.accent_color is None
                &&& kept.banner_url is None && kept.member_since@.len() == 0
                &&& kept.roles@.len() == 0 && kept.badges@.len() == 0
                &&& final(self).show_profile matches Some(p) && p.same_as(kept)
            }),
            *final(self) == (TripwireApp {
                user_profiles: final(self).user_profiles,
                show_profile: final(self).show_profile,
                ..*old(self)
            }),
    {
        let profile = match self.user_profiles.get(user.id.as_str()) {
            Some(p) => p.clone(),
            None => {
                let id = user.id.clone();
                let fresh = make_user_profile(user);
                let shown = fresh.clone();
                self.user_profiles.insert(id, fresh);
                shown
            },
        };
        self.show_profile = Some(profile);
    }

    /// Closes the profile card.
    pub fn close_profile(&mut self)
        ensures
            *final(self) == (TripwireApp { show_profile: None, ..*old(self) }),
    {
        self.show_profile = None;
    }

    /// Opens the user settings.
    pub fn open_settings(&mut self)
        ensures
            *final(self) == (TripwireApp { show_settings: true, ..*old(self) }),
    {
        self.show_settings = true;
    }

    /// Closes the user settings.
    pub fn close_settings(&mut self)
        ensures
            *final(self) == (TripwireApp { show_settings: false, ..*old(self) }),
    {
        self.show_settings = false;
    }

    /// Shows page `screen` of the user settings.
    pub fn switch_settings_screen(&mut self, screen: SettingsScreen)
        ensures
            *final(self) == (TripwireApp { settings_screen: screen, ..*old(self) }),
    {
        self.settings_screen = screen;
    }

    /// Opens the server settings on their overview.
    pub fn open_server_settings(&mut self)
        ensures
            *final(self) == (TripwireApp {
                show_server_settings: true,
                server_settings_screen: ServerSettingsScreen::Overview,
                ..*old(self)
            }),
    {
        self.show_server_settings = true;
        self.server_settings_screen = ServerSettingsScreen::Overview;
    }

    /// Closes the server settings.
    pub fn close_server_settings(&mut self)
        ensures
            *final(self) == (TripwireApp { show_server_settings: false, ..*old(self) }),
    {
        self.show_server_settings = false;
    }

    /// Shows page `screen` of the server settings.
    pub fn switch_server_settings_screen(&mut self, screen: ServerSettingsScreen)
        ensures
            *final(self) == (TripwireApp { server_settings_screen: screen, ..*old(self) }),
    {
        self.server_settings_screen = screen;
    }

    /// Starts editing message `message_id` of the open channel or
    /// conversation; the result is its text, for the input box. Nothing
    /// happens when there is no such message.
    pub fn start_edit_message(&mut self, message_id: String) -> (r: Option<String>)
        ensures
            holds_message(old(self).active_store(), old(self).active_key(), message_id@) ==> ({
                let k = old(self).active_key()->0@;
                let ms = old(self).active_store()[k]@;
                &&& r matches Some(c) && c == ms[first_message_index(ms, message_id@)].content
                &&& *final(self) == (TripwireApp {
                    editing_message_id: Some(message_id),
                    ..*old(self)
                })
            }),
            !holds_message(old(self).active_store(), old(self).active_key(), message_id@) ==> r is None
                && *final(self) == *old(self),
    {
        let (store, key) = match self.current_view {
            AppView::Servers => (&self.messages, &self.active_channel_id),
            AppView::DirectMessages => (&self.dm_messages, &self.active_dm_id),
        };
        let k = match key {
            Some(k) => k,
            None => return None,
        };
        let list = match store.get(k.as_str()) {
            Some(l) => l,
            None => return None,
        };
        match find_message(list, message_id.as_str()) {
            Some(i) => {
                proof { lemma_first_message_unique(list@, message_id@, i as int); }
                let content = list[i].content.clone();
                self.editing_message_id = Some(message_id);
                Some(content)
            },
            None => None,
        }
    }

    /// Stops editing.
    pub fn cancel_edit(&mut self)
        ensures
            *final(self) == (TripwireApp { editing_message_id: None, ..*old(self) }),
    {
        self.editing_message_id = None;
    }

    /// Saves the edit with the text `input` (trimmed) and stops editing; the
    /// result is `true` when the input box is to be cleared. Blank text
    /// leaves everything as it was, as does the absence of an edit.
    pub fn save_edit(&mut self, input: &str) -> (r: bool)
        ensures
            r == (old(self).editing_message_id is Some && trimmed(input@).len() > 0),
            !r ==> *final(self) == *old(self),
            r ==> match old(self).current_view {
                AppView::Servers => message_edited(
                    old(self).messages@,
                    final(self).messages@,
                    old(self).active_channel_id,
                    old(self).editing_message_id->0@,
                    trimmed(input@),
                ) && final(self).dm_messages@ == old(self).dm_messages@,
                AppView::DirectMessages => message_edited(
                    old(self).dm_messages@,
                    final(self).dm_messages@,
                    old(self).active_dm_id,
                    old(self).editing_message_id->0@,
                    trimmed(input@),
                ) && final(self).messages@ == old(self).messages@,
            },
            r ==> *final(self) == (TripwireApp {
                messages: final(self).messages,
                dm_messages: final(self).dm_messages,
                editing_message_id: None,
                ..*old(self)
            }),
    {
        let message_id = match &self.editing_message_id {
            Some(id) => id.clone(),
            None => return false,
        };
        let content = trim(input);
        if content.as_str().unicode_len() == 0 {
            return false;
        }
        match self.current_view {
            AppView::Servers => edit_in(&mut self.messages, &self.active_channel_id, message_id.as_str(), content),
            AppView::DirectMessages => edit_in(&mut self.dm_messages, &self.active_dm_id, message_id.as_str(), content),
        }
        self.cancel_edit();
        true
    }

    /// Deletes every message `message_id` of the open channel or
    /// conversation.
    pub fn delete_message(&mut self, message_id: &str)
        ensures
            match old(self).current_view {
                AppView::Servers => message_deleted(
                    old(self).messages@,
                    final(self).messages@,
                    old(self).active_channel_id,
                    message_id@,
                ) && final(self).dm_messages@ == old(self).dm_messages@,
                AppView::DirectMessages => message_deleted(
                    old(self).dm_messages@,
                    final(self).dm_messages@,
                    old(self).active_dm_id,
                    message_id@,
                ) && final(self).messages@ == old(self).messages@,
            },
            *final(self) == (TripwireApp {
                messages: final(self).messages,
                dm_messages: final(self).dm_messages,
                ..*old(self)
            }),
    {
        match self.current_view {
            AppView::Servers => delete_in(&mut self.messages, &self.active_channel_id, message_id),
            AppView::DirectMessages => delete_in(&mut self.dm_messages, &self.active_dm_id, message_id),
        }
    }

    /// Signs out.
    pub fn logout(&mut self)
        ensures
            final(self).auth.current_user is None && final(self).auth.token is None
                && final(self).auth.login_error is None,
            *final(self) == (TripwireApp { auth: final(self).auth, ..*old(self) }),
    {
        self.auth.logout();
    }

    // ── Voice ───────────────────────────────────────────────────────────────

    /// Joins voice channel `channel` of `server`. While in another voice
    /// channel, the switch waits for confirmation instead and the result is
    /// `false`; otherwise the session starts connecting and the result is
    /// `true` (`complete_voice_connection` is then to follow).
    pub fn join_voice_channel(&mut self, channel: Channel, server: Option<Server>) -> (started: bool)
        ensures
            started == !(old(self).voice_state matches Some(v) && v.channel_id@ != channel.id@),
            !started ==> *final(self) == (TripwireApp {
                show_voice_switch_warning: Some((channel, server)),
                ..*old(self)
            }),
            started ==> (final(self).voice_state matches Some(v) && v.channel_id == channel.id
                && v.channel_name == channel.name && v.server_id == (match server {
                Some(s) => Some(s.id),
                None => None::<String>,
            }) && v.server_name == (match server {
                Some(s) => Some(s.name),
                None => None::<String>,
            }) && v.status == VoiceConnectionStatus::Connecting && !v.is_muted && !v.is_deafened
                && !v.is_video_enabled && !v.is_screen_sharing),
            started ==> *final(self) == (TripwireApp {
                voice_state: final(self).voice_state,
                ..*old(self)
            }),
    {
        match &self.voice_state {
            Some(current) => {
                if !str_eq(current.channel_id.as_str(), channel.id.as_str()) {
                    self.show_voice_switch_warning = Some((channel, server));
                    return false;
                }
            },
            None => {},
        }
        let (server_id, server_name) = match server {
            Some(s) => (Some(s.id), Some(s.name)),
            None => (None, None),
        };
        self.voice_state = Some(
            VoiceState {
                channel_id: channel.id,
                channel_name: channel.name,
                server_id,
                server_name,
                status: VoiceConnectionStatus::Connecting,
                is_muted: false,
                is_deafened: false,
                is_video_enabled: false,
                is_screen_sharing: false,
            },
        );
        true
    }

    /// Marks the voice session, if any, as connected.
    pub fn complete_voice_connection(&mut self)
        ensures
            match old(self).voice_state {
                Some(v) => final(self).voice_state == Some(VoiceState {
                    status: VoiceConnectionStatus::Connected,
                    ..v
                }),
                None => final(self).voice_state is None,
            },
            *final(self) == (TripwireApp { voice_state: final(self).voice_state, ..*old(self) }),
    {
        match &mut self.voice_state {
            Some(v) => {
                v.status = VoiceConnectionStatus::Connected;
            },
            None => {},
        }
    }

    /// Leaves the current voice channel for the one waiting for
    /// confirmation; the result says whether a connection was started.
    pub fn confirm_voice_switch(&mut self) -> (started: bool)
        ensures
            started == old(self).show_voice_switch_warning is Some,
            !started ==> *final(self) == *old(self),
            started ==> ({
                let (channel, server) = old(self).show_voice_switch_warning->0;
                &&& final(self).show_voice_switch_warning is None
                &&& final(self).voice_state matches Some(v) && v.channel_id == channel.id
                    && v.channel_name == channel.name && v.status
                    == VoiceConnectionStatus::Connecting && !v.is_muted && !v.is_deafened
                    && !v.is_video_enabled && !v.is_screen_sharing
                &&& final(self).voice_state->0.server_id == (match server {
                    Some(s) => Some(s.id),
                    None => None::<String>,
                })
                &&& final(self).voice_state->0.server_name == (match server {
                    Some(s) => Some(s.name),
                    None => None::<String>,
                })
                &&& *final(self) == (TripwireApp {
                    voice_state: final(self).voice_state,
                    show_voice_switch_warning: None,
                    ..*old(self)
                })
            }),
    {
        match self.show_voice_switch_warning.take() {
            Some((channel, server)) => {
                self.voice_state = None;
                self.join_voice_channel(channel, server)
            },
            None => false,
        }
    }

    /// Stays in the current voice channel.
    pub fn cancel_voice_switch(&mut self)
        ensures
            *final(self) == (TripwireApp { show_voice_switch_warning: None, ..*old(self) }),
    {
        self.show_voice_switch_warning = None;
    }

    /// Leaves the voice channel.
    pub fn leave_voice_channel(&mut self)
        ensures
            *final(self) == (TripwireApp { voice_state: None, ..*old(self) }),
    {
        self.voice_state = None;
    }

    /// Mutes or unmutes the microphone; while deafened nothing changes, as
    /// unmuting does not work then.
    pub fn toggle_mute(&mut self)
        ensures
            final(self).voice_state == mute_toggled(old(self).voice_state),
            *final(self) == (TripwireApp { voice_state: final(self).voice_state, ..*old(self) }),
    {
        let deafened = match &self.voice_state {
            Some(v) => v.is_deafened,
            None => true,
        };
        if !deafened {
            match &mut self.voice_state {
                Some(v) => {
                    v.is_muted = !v.is_muted;
                },
                None => {},
            }
        }
    }

    /// Deafens or undeafens; deafening also mutes.
    pub fn toggle_deafen(&mut self)
        ensures
            final(self).voice_state == deafen_toggled(old(self).voice_state),
            *final(self) == (TripwireApp { voice_state: final(self).voice_state, ..*old(self) }),
    {
        match &mut self.voice_state {
            Some(v) => {
                v.is_deafened = !v.is_deafened;
                if v.is_deafened {
                    v.is_muted = true;
                }
            },
            None => {},
        }
    }

    /// Turns the camera on or off.
    pub fn toggle_video(&mut self)
        ensures
            final(self).voice_state == video_toggled(old(self).voice_state),
            *final(self) == (TripwireApp { voice_state: final(self).voice_state, ..*old(self) }),
    {
        match &mut self.voice_state {
            Some(v) => {
                v.is_video_enabled = !v.is_video_enabled;
            },
            None => {},
        }
    }

    /// Starts or stops sharing the screen.
    pub fn toggle_screen_share(&mut self)
        ensures
            final(self).voice_state == screen_share_toggled(old(self).voice_state),
            *final(self) == (TripwireApp { voice_state: final(self).voice_state, ..*old(self) }),
    {
        match &mut self.voice_state {
            Some(v) => {
                v.is_screen_sharing = !v.is_screen_sharing;
            },
            None => {},
        }
    }

    /// Whether the user is connected to voice channel `channel_id`.
    pub fn is_in_voice_channel(&self, channel_id: &str) -> (r: bool)
        ensures
            r == (self.voice_state matches Some(v) && v.channel_id@ == channel_id@ && v.status
                == VoiceConnectionStatus::Connected),
    {
        match &self.voice_state {
            Some(v) => str_eq(v.channel_id.as_str(), channel_id) && v.is_connected(),
            None => false,
        }
    }

    /// Whether the user is in any voice channel, connected or not.
    pub fn is_in_voice(&self) -> (r: bool)
        ensures
            r == self.voice_state is Some,
    {
        self.voice_state.is_some()
    }

    // ── Threads ─────────────────────────────────────────────────────────────

    /// The first message `message_id` of the server channels, or else of the
    /// conversations.
    pub fn get_message_by_id(&self, message_id: &str) -> (r: Option<&Message>)
        ensures
            r.is_some() == (store_has(self.messages@, message_id@) || store_has(
                self.dm_messages@,
                message_id@,
            )),
            r matches Some(m) ==> if store_has(self.messages@, message_id@) {
                located(self.messages@, message_id@, *m)
            } else {
                located(self.dm_messages@, message_id@, *m)
            },
    {
        match find_in_store(&self.messages, message_id) {
            Some((k, i)) => {
                let list = self.messages.get(k.as_str()).unwrap();
                assert(located(self.messages@, message_id@, list@[i as int]));
                return Some(&list[i]);
            },
            None => {},
        }
        match find_in_store(&self.dm_messages, message_id) {
            Some((k, i)) => {
                let list = self.dm_messages.get(k.as_str()).unwrap();
                assert(located(self.dm_messages@, message_id@, list@[i as int]));
                Some(&list[i])
            },
            None => None,
        }
    }

    /// Opens the thread of message `message_id`, with an empty reply list
    /// when it has none yet.
    pub fn open_thread(&mut self, message_id: String)
        ensures
            old(self).thread_messages@.dom().contains(message_id@) ==> final(self).thread_messages@
                == old(self).thread_messages@,
            !old(self).thread_messages@.dom().contains(message_id@) ==> final(self).thread_messages@.dom().contains(message_id@)
                && final(self).thread_messages@ == old(self).thread_messages@.insert(
                message_id@,
                final(self).thread_messages@[message_id@],
            ) && final(self).thread_messages@[message_id@]@.len() == 0,
            *final(self) == (TripwireApp {
                open_thread_id: Some(message_id),
                thread_messages: final(self).thread_messages,
                ..*old(self)
            }),
    {
        if !self.thread_messages.contains_key(message_id.as_str()) {
            self.thread_messages.insert(message_id.clone(), Vec::new());
        }
        self.open_thread_id = Some(message_id);
    }

    /// Opens the thread of a forum post.
    pub fn open_forum_thread(&mut self, thread_id: String)
        ensures
            old(self).thread_messages@.dom().contains(thread_id@) ==> final(self).thread_messages@
                == old(self).thread_messages@,
            !old(self).thread_messages@.dom().contains(thread_id@) ==> final(self).thread_messages@.dom().contains(thread_id@)
                && final(self).thread_messages@ == old(self).thread_messages@.insert(
                thread_id@,
                final(self).thread_messages@[thread_id@],
            ) && final(self).thread_messages@[thread_id@]@.len() == 0,
            *final(self) == (TripwireApp {
                open_thread_id: Some(thread_id),
                thread_messages: final(self).thread_messages,
                ..*old(self)
            }),
    {
        self.open_thread(thread_id);
    }

    /// Closes the thread.
    pub fn close_thread(&mut self)
        ensures
            *final(self) == (TripwireApp { open_thread_id: None, ..*old(self) }),
    {
        self.open_thread_id = None;
    }

    /// Closes the voice chat sidebar.
    pub fn close_voice_chat_sidebar(&mut self)
        ensures
            *final(self) == (TripwireApp { show_voice_chat_sidebar: false, ..*old(self) }),
    {
        self.show_voice_chat_sidebar = false;
    }

    /// Opens the voice chat sidebar in place of any thread.
    pub fn open_voice_chat_sidebar(&mut self)
        ensures
            *final(self) == (TripwireApp {
                open_thread_id: None,
                show_voice_chat_sidebar: true,
                ..*old(self)
            }),
    {
        self.open_thread_id = None;
        self.show_voice_chat_sidebar = true;
    }

    /// Posts `input` (as typed) as a reply in the open thread at `now_nanos`
    /// and counts it on the message the thread hangs off. The result is
    /// `true`, and the input box is to be cleared, unless no thread is open
    /// or the text is blank; then nothing changes.
    pub fn send_thread_reply(&mut self, input: &str, now_nanos: u128) -> (sent: bool)
        requires
            old(self).open_thread_id matches Some(t) ==> counts_below_max(old(self).messages@, t@)
                && counts_below_max(old(self).dm_messages@, t@),
        ensures
            sent == (old(self).open_thread_id is Some && !all_white_space(input@)),
            !sent ==> *final(self) == *old(self),
            sent ==> ({
                let t = old(self).open_thread_id->0@;
                let before = old(self).thread_messages@;
                let old_list = if before.dom().contains(t) {
                    before[t]@
                } else {
                    Seq::empty()
                };
                let after = final(self).thread_messages@;
                &&& after.dom().contains(t)
                &&& after == before.insert(t, after[t])
                &&& after[t]@.len() == old_list.len() + 1
                &&& after[t]@.drop_last() == old_list
                &&& is_thread_reply(after[t]@.last(), t, input@, now_nanos)
                &&& if store_has(old(self).messages@, t) {
                    bumped(old(self).messages@, final(self).messages@, t) && final(self).dm_messages@
                        == old(self).dm_messages@
                } else {
                    final(self).messages@ == old(self).messages@ && bumped(
                        old(self).dm_messages@,
                        final(self).dm_messages@,
                        t,
                    )
                }
                &&& *final(self) == (TripwireApp {
                    thread_messages: final(self).thread_messages,
                    messages: final(self).messages,
                    dm_messages: final(self).dm_messages,
                    ..*old(self)
                })
            }),
    {
        let thread_id = match &self.open_thread_id {
            Some(id) => id.clone(),
            None => return false,
        };
        if is_blank(input) {
            return false;
        }
        let suffix = new_uuid_text();
        let id = str_concat("thread-msg-", suffix.as_str());
        proof {
            reveal_strlit("thread-msg-");
            assert(id@.take(11) =~= "thread-msg-"@);
            assert(id@.skip(11) =~= suffix@);
        }
        let author = User {
            id: String::from_str("current-user"),
            username: String::from_str("You"),
            discriminator: String::from_str("0001"),
            status: UserStatus::Online,
        };
        let reply = Message {
            id,
            author,
            content: String::from_str(input),
            timestamp: String::from_str("Just now"),
            edited: false,
            edited_timestamp: None,
            attachment: None,
            reactions: Reactions::new(),
            reply_to: None,
            mentioned_users: Vec::new(),
            pinned: false,
            thread_id: Some(thread_id.clone()),
            thread_count: 0,
            created_at: now_nanos,
        };
        let ghost r = reply;
        let ghost before = self.thread_messages@;
        append_message(&mut self.thread_messages, &thread_id, reply);
        proof {
            let l = self.thread_messages@[thread_id@]@;
            assert(l.drop_last() =~= list_for(before, Some(thread_id)));
            assert(l.last() == r);
        }
        match find_in_store(&self.messages, thread_id.as_str()) {
            Some(_) => {
                bump_thread_count(&mut self.messages, thread_id.as_str());
            },
            None => {
                bump_thread_count(&mut self.dm_messages, thread_id.as_str());
            },
        }
        true
    }

    // ── Typing indicators ───────────────────────────────────────────────────

    /// The name shown for typing user `user_id`: the member of the selected
    /// server with that id; with no server selected, the recipient of the open
    /// conversation.
    pub open spec fn typing_name(self, user_id: Seq<char>) -> Option<Seq<char>> {
        if self.active_server < self.servers@.len() {
            match first_user(self.servers@[self.active_server as int].members@, user_id) {
                Some(u) => Some(u.username@),
                None => None,
            }
        } else if self.active_dm_id is Some {
            match first_dm(self.dm_channels@, self.active_dm_id->0@) {
                Some(d) => Some(d.recipient.username@),
                None => None,
            }
        } else {
            None
        }
    }

    /// The names shown for typing users `ids`, skipping those without one.
    pub open spec fn typing_names(self, ids: Seq<Seq<char>>) -> Seq<Seq<char>>
        decreases ids.len(),
    {
        if ids.len() == 0 {
            Seq::empty()
        } else {
            let prev = self.typing_names(ids.drop_last());
            match self.typing_name(ids.last()) {
                Some(n) => prev.push(n),
                None => prev,
            }
        }
    }

    fn typing_name_of(&self, user_id: &str) -> (r: Option<String>)
        ensures
            match r {
                Some(n) => self.typing_name(user_id@) == Some(n@),
                None => self.typing_name(user_id@) is None,
            },
    {
        if self.active_server < self.servers.len() {
            let members = &self.servers[self.active_server].members;
            match find_user(members, user_id) {
                Some(i) => Some(members[i].username.clone()),
                None => None,
            }
        } else {
            match &self.active_dm_id {
                Some(dm_id) => match find_dm(&self.dm_channels, dm_id.as_str()) {
                    Some(i) => Some(self.dm_channels[i].recipient.username.clone()),
                    None => None,
                },
                None => None,
            }
        }
    }

    /// The names of those typing in the open channel or conversation.
    #[verifier::rlimit(50)]
    pub fn get_typing_users(&self) -> (r: Vec<String>)
        ensures
            r.deep_view() == match self.active_key() {
                Some(k) => if self.typing_users@.dom().contains(k@) {
                    self.typing_names(self.typing_users@[k@].deep_view())
                } else {
                    Seq::empty()
                },
                None => Seq::empty(),
            },
    {
        let key = match self.current_view {
            AppView::Servers => &self.active_channel_id,
            AppView::DirectMessages => &self.active_dm_id,
        };
        let ids = match key {
            Some(k) => match self.typing_users.get(k.as_str()) {
                Some(ids) => ids,
                None => return Vec::new(),
            },
            None => return Vec::new(),
        };
        let mut r: Vec<String> = Vec::new();
        let mut i: usize = 0;
        while i < ids.len()
            invariant
                i <= ids@.len(),
                r.deep_view() == self.typing_names(ids.deep_view().take(i as int)),
            decreases ids@.len() - i,
        {
            proof {
                assert(ids.deep_view().take(i + 1).drop_last() =~= ids.deep_view().take(i as int));
            }
            match self.typing_name_of(ids[i].as_str()) {
                Some(n) => {
                    let ghost before = r.deep_view();
                    r.push(n);
                    assert(r.deep_view() =~= before.push(n@));
                },
                None => {},
            }
            i = i + 1;
        }
        assert(ids.deep_view().take(i as int) =~= ids.deep_view());
        r
    }
}

} // verus!
