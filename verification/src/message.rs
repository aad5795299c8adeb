//! Messages, their attachments and their emoji reactions.
use vstd::prelude::*;
use vstd::utf8::{encode_utf8, decode_utf8, is_char_boundary};
use crate::models::User;
use crate::store::KeyedStore;
use crate::text::{push_char, str_eq};

verus! {

broadcast use vstd::utf8::encode_utf8_decode_utf8;

/// A file attached to a message, its bytes in Base64.
#[derive(Debug)]
pub struct Attachment {
    pub filename: String,
    pub mime_type: String,
    pub base64_data: String,
    pub size: usize,
}

impl Clone for Attachment {
    fn clone(&self) -> (r: Self)
        ensures
            r == *self,
    {
        Attachment {
            filename: self.filename.clone(),
            mime_type: self.mime_type.clone(),
            base64_data: self.base64_data.clone(),
            size: self.size,
        }
    }
}

/// Whether a MIME type names an image: it starts with `image/`.
pub open spec fn is_image_type(mime: Seq<char>) -> bool {
    mime.len() >= 6 && mime.take(6) == seq!['i', 'm', 'a', 'g', 'e', '/']
}

impl Attachment {
    /// Whether the attachment is an image.
    pub fn is_image(&self) -> (r: bool)
        ensures
            r == is_image_type(self.mime_type@),
    {
        let m = self.mime_type.as_str();
        if m.unicode_len() < 6 {
            return false;
        }
        let r = m.get_char(0) == 'i' && m.get_char(1) == 'm' && m.get_char(2) == 'a'
            && m.get_char(3) == 'g' && m.get_char(4) == 'e' && m.get_char(5) == '/';
        proof {
            if r {
                assert(m@.take(6) =~= seq!['i', 'm', 'a', 'g', 'e', '/']);
            } else {
                if m@.take(6) == seq!['i', 'm', 'a', 'g', 'e', '/'] {
                    assert(m@[0] == m@.take(6)[0]);
                    assert(m@[1] == m@.take(6)[1]);
                    assert(m@[2] == m@.take(6)[2]);
                    assert(m@[3] == m@.take(6)[3]);
                    assert(m@[4] == m@.take(6)[4]);
                    assert(m@[5] == m@.take(6)[5]);
                }
            }
        }
        r
    }
}

/// What a reply shows of the message it answers.
#[derive(Debug)]
pub struct MessageReply {
    pub message_id: String,
    pub author: User,
    pub content_preview: String,
}

impl Clone for MessageReply {
    fn clone(&self) -> (r: Self)
        ensures
            r == *self,
    {
        MessageReply {
            message_id: self.message_id.clone(),
            author: self.author.clone(),
            content_preview: self.content_preview.clone(),
        }
    }
}

// ── Reactions ───────────────────────────────────────────────────────────────

/// Who reacted with `emoji`, or nobody.
pub open spec fn users_of(m: Map<Seq<char>, Seq<Seq<char>>>, emoji: Seq<char>) -> Seq<Seq<char>> {
    if m.dom().contains(emoji) {
        m[emoji]
    } else {
        Seq::empty()
    }
}

/// Whether `user` reacted with `emoji`.
pub open spec fn reacted(m: Map<Seq<char>, Seq<Seq<char>>>, emoji: Seq<char>, user: Seq<char>) -> bool {
    users_of(m, emoji).contains(user)
}

/// Every emoji that is present has at least one user.
pub open spec fn nonempty_lists(m: Map<Seq<char>, Seq<Seq<char>>>) -> bool {
    forall|e: Seq<char>| #[trigger] m.dom().contains(e) ==> m[e].len() > 0
}

/// `user` appended to the users of `emoji`.
pub open spec fn with_reaction(
    m: Map<Seq<char>, Seq<Seq<char>>>,
    emoji: Seq<char>,
    user: Seq<char>,
) -> Map<Seq<char>, Seq<Seq<char>>> {
    m.insert(emoji, users_of(m, emoji).push(user))
}

/// `users` without any occurrence of `user`, order kept.
pub open spec fn without_user(users: Seq<Seq<char>>, user: Seq<char>) -> Seq<Seq<char>>
    decreases users.len(),
{
    if users.len() == 0 {
        Seq::empty()
    } else if users.last() == user {
        without_user(users.drop_last(), user)
    } else {
        without_user(users.drop_last(), user).push(users.last())
    }
}

/// Every occurrence of `user` taken from the users of `emoji`; an emoji that
/// is left with no users is dropped.
pub open spec fn without_reaction(
    m: Map<Seq<char>, Seq<Seq<char>>>,
    emoji: Seq<char>,
    user: Seq<char>,
) -> Map<Seq<char>, Seq<Seq<char>>> {
    if !m.dom().contains(emoji) {
        m
    } else if without_user(m[emoji], user).len() == 0 {
        m.remove(emoji)
    } else {
        m.insert(emoji, without_user(m[emoji], user))
    }
}

/// Takes the reaction away if `user` gave it, adds it otherwise.
pub open spec fn toggled(
    m: Map<Seq<char>, Seq<Seq<char>>>,
    emoji: Seq<char>,
    user: Seq<char>,
) -> Map<Seq<char>, Seq<Seq<char>>> {
    if reacted(m, emoji, user) {
        without_reaction(m, emoji, user)
    } else {
        with_reaction(m, emoji, user)
    }
}

/// `without_user` removes every occurrence of the user and keeps the rest.
pub proof fn lemma_without_user(users: Seq<Seq<char>>, user: Seq<char>)
    ensures
        !without_user(users, user).contains(user),
        !users.contains(user) ==> without_user(users, user) == users,
        forall|x: Seq<char>| x != user && users.contains(x) ==> #[trigger] without_user(users, user).contains(x),
    decreases users.len(),
{
    if users.len() > 0 {
        let p = users.drop_last();
        lemma_without_user(p, user);
        if !users.contains(user) {
            assert(!p.contains(user)) by {
                if p.contains(user) {
                    let i = choose|i: int| 0 <= i < p.len() && p[i] == user;
                    assert(users[i] == user);
                }
            }
            assert(users =~= p.push(users.last()));
        }
        let w = without_user(users, user);
        if w.contains(user) {
            let i = choose|i: int| 0 <= i < w.len() && w[i] == user;
            if users.last() != user && i == w.len() - 1 {
            } else {
                assert(without_user(p, user)[i] == user);
            }
        }
        assert forall|x: Seq<char>| x != user && users.contains(x) implies #[trigger] w.contains(x) by {
            let i = choose|i: int| 0 <= i < users.len() && users[i] == x;
            if i == users.len() - 1 {
                assert(w[w.len() - 1] == x);
            } else {
                assert(p[i] == x);
                assert(without_user(p, user).contains(x));
                let j = choose|j: int| 0 <= j < without_user(p, user).len() && without_user(p, user)[j] == x;
                assert(w[j] == x);
            }
        }
    }
}

/// Toggling a reaction flips whether the user has reacted.
pub proof fn law_toggle_flips(m: Map<Seq<char>, Seq<Seq<char>>>, emoji: Seq<char>, user: Seq<char>)
    ensures
        reacted(toggled(m, emoji, user), emoji, user) == !reacted(m, emoji, user),
{
    if reacted(m, emoji, user) {
        lemma_without_user(m[emoji], user);
    } else {
        let t = toggled(m, emoji, user);
        assert(users_of(t, emoji)[users_of(t, emoji).len() - 1] == user);
    }
}

/// Toggling a reaction the user had not given, and toggling it again, leaves
/// the reactions as they were.
pub proof fn law_toggle_twice_restores(
    m: Map<Seq<char>, Seq<Seq<char>>>,
    emoji: Seq<char>,
    user: Seq<char>,
)
    requires
        nonempty_lists(m),
        !reacted(m, emoji, user),
    ensures
        toggled(toggled(m, emoji, user), emoji, user) == m,
{
    let once = toggled(m, emoji, user);
    law_toggle_flips(m, emoji, user);
    let l = users_of(m, emoji);
    assert(once[emoji] == l.push(user));
    assert(l.push(user).drop_last() =~= l);
    lemma_without_user(l, user);
    assert(without_user(l.push(user), user) == l);
    if m.dom().contains(emoji) {
        assert(toggled(once, emoji, user) =~= m);
    } else {
        assert(toggled(once, emoji, user) =~= m);
    }
}

/// Adding a reaction raises its count by one.
pub proof fn law_add_counts_one(m: Map<Seq<char>, Seq<Seq<char>>>, emoji: Seq<char>, user: Seq<char>)
    ensures
        users_of(with_reaction(m, emoji, user), emoji).len() == users_of(m, emoji).len() + 1,
        reacted(with_reaction(m, emoji, user), emoji, user),
{
    let l = users_of(with_reaction(m, emoji, user), emoji);
    assert(l[l.len() - 1] == user);
}

/// After a removal the user no longer reacts with that emoji.
pub proof fn law_removed_not_reacted(m: Map<Seq<char>, Seq<Seq<char>>>, emoji: Seq<char>, user: Seq<char>)
    ensures
        !reacted(without_reaction(m, emoji, user), emoji, user),
{
    if m.dom().contains(emoji) {
        lemma_without_user(m[emoji], user);
    }
}

/// The emoji reactions of a message: for each emoji, who reacted, in order.
#[derive(Debug)]
pub struct Reactions {
    by_emoji: KeyedStore<Vec<String>>,
}

impl View for Reactions {
    type V = Map<Seq<char>, Seq<Seq<char>>>;

    closed spec fn view(&self) -> Map<Seq<char>, Seq<Seq<char>>> {
        Map::new(
            |e: Seq<char>| self.by_emoji@.dom().contains(e),
            |e: Seq<char>| self.by_emoji@[e].deep_view(),
        )
    }
}

fn without(users: &Vec<String>, user: &str) -> (r: Vec<String>)
    ensures
        r.deep_view() == without_user(users.deep_view(), user@),
{
    let mut r: Vec<String> = Vec::new();
    let mut i: usize = 0;
    while i < users.len()
        invariant
            i <= users@.len(),
            r.deep_view() == without_user(users.deep_view().take(i as int), user@),
        decreases users@.len() - i,
    {
        proof {
            assert(users.deep_view().take(i + 1).drop_last() =~= users.deep_view().take(i as int));
        }
        if !str_eq(users[i].as_str(), user) {
            let ghost before = r.deep_view();
            r.push(users[i].clone());
            assert(r.deep_view() =~= before.push(users@[i as int]@));
        }
        i = i + 1;
    }
    assert(users.deep_view().take(i as int) =~= users.deep_view());
    r
}

impl Reactions {
    #[verifier::type_invariant]
    closed spec fn lists_nonempty(self) -> bool {
        forall|e: Seq<char>| #[trigger] self.by_emoji@.dom().contains(e) ==> self.by_emoji@[e]@.len() > 0
    }

    /// No reactions.
    pub fn new() -> (r: Self)
        ensures
            r@ == Map::<Seq<char>, Seq<Seq<char>>>::empty(),
    {
        let r = Reactions { by_emoji: KeyedStore::new() };
        assert(r@ =~= Map::<Seq<char>, Seq<Seq<char>>>::empty());
        r
    }

    /// Adds `user` to those who reacted with `emoji`.
    pub fn add(&mut self, emoji: String, user: String)
        ensures
            final(self)@ == with_reaction(old(self)@, emoji@, user@),
            nonempty_lists(final(self)@),
    {
        proof {
            use_type_invariant(&*self);
        }
        let ghost old_view = self@;
        let ghost e = emoji@;
        let ghost u = user@;
        let mut store = KeyedStore::new();
        std::mem::swap(&mut store, &mut self.by_emoji);
        let existing = store.remove(emoji.as_str());
        let users = match existing {
            Some(mut list) => {
                let ghost before = list.deep_view();
                list.push(user);
                assert(list.deep_view() =~= before.push(u));
                list
            },
            None => {
                let mut list = Vec::new();
                list.push(user);
                assert(list.deep_view() =~= Seq::<Seq<char>>::empty().push(u));
                list
            },
        };
        store.insert(emoji, users);
        self.by_emoji = store;
        assert(self@ =~= with_reaction(old_view, e, u));
        proof {
            use_type_invariant(&*self);
        }
    }

    /// Takes `user` away from those who reacted with `emoji`; drops the emoji
    /// when nobody is left.
    pub fn remove(&mut self, emoji: &str, user: &str)
        ensures
            final(self)@ == without_reaction(old(self)@, emoji@, user@),
            nonempty_lists(final(self)@),
    {
        proof {
            use_type_invariant(&*self);
        }
        let ghost old_view = self@;
        let mut store = KeyedStore::new();
        std::mem::swap(&mut store, &mut self.by_emoji);
        match store.remove(emoji) {
            None => {},
            Some(list) => {
                let kept = without(&list, user);
                if kept.len() > 0 {
                    store.insert(String::from_str(emoji), kept);
                }
            },
        }
        self.by_emoji = store;
        assert(self@ =~= without_reaction(old_view, emoji@, user@));
        proof {
            use_type_invariant(&*self);
        }
    }

    /// How many reactions `emoji` has.
    pub fn count(&self, emoji: &str) -> (r: usize)
        ensures
            r == users_of(self@, emoji@).len(),
    {
        match self.by_emoji.get(emoji) {
            Some(list) => list.len(),
            None => 0,
        }
    }

    /// Whether `user` reacted with `emoji`.
    pub fn contains(&self, emoji: &str, user: &str) -> (r: bool)
        ensures
            r == reacted(self@, emoji@, user@),
    {
        match self.by_emoji.get(emoji) {
            Some(list) => {
                assert(users_of(self@, emoji@) == list.deep_view());
                let mut i: usize = 0;
                while i < list.len()
                    invariant
                        i <= list@.len(),
                        users_of(self@, emoji@) == list.deep_view(),
                        forall|j: int| 0 <= j < i ==> list@[j]@ != user@,
                    decreases list@.len() - i,
                {
                    if str_eq(list[i].as_str(), user) {
                        assert(list.deep_view()[i as int] == user@);
                        assert(users_of(self@, emoji@)[i as int] == user@);
                        return true;
                    }
                    i = i + 1;
                }
                proof {
                    if users_of(self@, emoji@).contains(user@) {
                        let j = choose|j: int| 0 <= j < list.deep_view().len() && list.deep_view()[j] == user@;
                        assert(list@[j]@ == user@);
                    }
                }
                false
            },
            None => false,
        }
    }

    /// The emojis, each once, with how many users reacted with each.
    pub fn summary(&self) -> (r: Vec<(String, usize)>)
        ensures
            r@.len() == self@.dom().len(),
            forall|i: int| 0 <= i < r@.len() ==> #[trigger] self@.dom().contains(r@[i].0@)
                && r@[i].1 == self@[r@[i].0@].len(),
            forall|e: Seq<char>| #[trigger] self@.dom().contains(e) ==> exists|i: int|
                0 <= i < r@.len() && r@[i].0@ == e,
    {
        let keys = self.by_emoji.keys();
        assert(self@.dom() =~= self.by_emoji@.dom());
        let mut r: Vec<(String, usize)> = Vec::new();
        let mut i: usize = 0;
        while i < keys.len()
            invariant
                i <= keys@.len(),
                r@.len() == i,
                forall|j: int| 0 <= j < keys@.len() ==> self.by_emoji@.dom().contains(#[trigger] keys@[j]@),
                forall|j: int| 0 <= j < i ==> #[trigger] r@[j].0 == keys@[j] && r@[j].1
                    == self@[keys@[j]@].len(),
            decreases keys@.len() - i,
        {
            let k = keys[i].clone();
            let n = self.count(k.as_str());
            r.push((k, n));
            i = i + 1;
        }
        proof {
            assert forall|e: Seq<char>| #[trigger] self@.dom().contains(e) implies exists|j: int|
                0 <= j < r@.len() && r@[j].0@ == e by {
                let j = choose|j: int| 0 <= j < keys@.len() && keys@[j]@ == e;
                assert(r@[j].0@ == e);
            }
        }
        r
    }
}

// ── Messages ────────────────────────────────────────────────────────────────

/// A chat message.
#[derive(Debug)]
pub struct Message {
    pub id: String,
    pub author: User,
    pub content: String,
    pub timestamp: String,
    pub edited: bool,
    pub edited_timestamp: Option<String>,
    pub attachment: Option<Attachment>,
    pub reactions: Reactions,
    pub reply_to: Option<Box<MessageReply>>,
    pub mentioned_users: Vec<String>,
    pub pinned: bool,
    pub thread_id: Option<String>,
    pub thread_count: usize,
    /// Creation time, in nanoseconds after the Unix epoch.
    pub created_at: u128,
}

/// Length in bytes of the UTF-8 encoding of `s`.
pub open spec fn utf8_len(s: Seq<char>) -> int {
    encode_utf8(s).len() as int
}

/// Whether a preview cut after `max_len` bytes falls between two characters
/// (or is not needed at all).
pub open spec fn preview_cut_ok(content: Seq<char>, max_len: usize) -> bool {
    utf8_len(content) <= max_len || is_char_boundary(encode_utf8(content), max_len as int)
}

/// The preview of `content`: the whole text if it fits in `max_len` bytes,
/// else its first `max_len` bytes followed by `...`.
pub open spec fn preview_of(content: Seq<char>, max_len: usize) -> Seq<char> {
    if utf8_len(content) <= max_len {
        content
    } else {
        decode_utf8(encode_utf8(content).subrange(0, max_len as int)) + seq!['.', '.', '.']
    }
}

/// Messages are grouped when the later one comes less than five minutes
/// after the earlier one.
pub open spec fn within_five_minutes(later: u128, earlier: u128) -> bool {
    earlier <= later && later - earlier < 300_000_000_000
}

impl Message {
    /// All fields but the reactions agree.
    pub open spec fn same_but_reactions(self, other: Message) -> bool {
        &&& self.id == other.id
        &&& self.author == other.author
        &&& self.content == other.content
        &&& self.timestamp == other.timestamp
        &&& self.edited == other.edited
        &&& self.edited_timestamp == other.edited_timestamp
        &&& self.attachment == other.attachment
        &&& self.reply_to == other.reply_to
        &&& self.mentioned_users == other.mentioned_users
        &&& self.pinned == other.pinned
        &&& self.thread_id == other.thread_id
        &&& self.thread_count == other.thread_count
        &&& self.created_at == other.created_at
    }

    /// Adds a reaction of `user_id` with `emoji`.
    pub fn add_reaction(&mut self, emoji: String, user_id: String)
        ensures
            final(self).reactions@ == with_reaction(old(self).reactions@, emoji@, user_id@),
            final(self).same_but_reactions(*old(self)),
    {
        self.reactions.add(emoji, user_id);
    }

    /// Takes away every reaction of `user_id` with `emoji`.
    pub fn remove_reaction(&mut self, emoji: &str, user_id: &str)
        ensures
            final(self).reactions@ == without_reaction(old(self).reactions@, emoji@, user_id@),
            final(self).same_but_reactions(*old(self)),
    {
        self.reactions.remove(emoji, user_id);
    }

    /// Removes the reaction if `user_id` gave it, adds it otherwise.
    pub fn toggle_reaction(&mut self, emoji: String, user_id: String)
        ensures
            final(self).reactions@ == toggled(old(self).reactions@, emoji@, user_id@),
            final(self).same_but_reactions(*old(self)),
    {
        if self.reactions.contains(emoji.as_str(), user_id.as_str()) {
            self.reactions.remove(emoji.as_str(), user_id.as_str());
        } else {
            self.reactions.add(emoji, user_id);
        }
    }

    /// How many reactions `emoji` has.
    pub fn reaction_count(&self, emoji: &str) -> (r: usize)
        ensures
            r == users_of(self.reactions@, emoji@).len(),
    {
        self.reactions.count(emoji)
    }

    /// Whether `user_id` reacted with `emoji`.
    pub fn user_reacted(&self, emoji: &str, user_id: &str) -> (r: bool)
        ensures
            r == reacted(self.reactions@, emoji@, user_id@),
    {
        self.reactions.contains(emoji, user_id)
    }

    /// Whether the message answers another.
    pub fn is_reply(&self) -> (r: bool)
        ensures
            r == self.reply_to.is_some(),
    {
        self.reply_to.is_some()
    }

    /// Whether `user_id` is among the mentioned users.
    pub fn is_mentioned(&self, user_id: &str) -> (r: bool)
        ensures
            r == exists|i: int|
                0 <= i < self.mentioned_users@.len() && #[trigger] self.mentioned_users@[i]@
                    == user_id@,
    {
        let mut i: usize = 0;
        while i < self.mentioned_users.len()
            invariant
                i <= self.mentioned_users@.len(),
                forall|j: int| 0 <= j < i ==> #[trigger] self.mentioned_users@[j]@ != user_id@,
            decreases self.mentioned_users@.len() - i,
        {
            if str_eq(self.mentioned_users[i].as_str(), user_id) {
                return true;
            }
            i = i + 1;
        }
        false
    }

    /// Whether a thread hangs off the message.
    pub fn is_thread_parent(&self) -> (r: bool)
        ensures
            r == (self.thread_count > 0),
    {
        self.thread_count > 0
    }

    /// The content cut to `max_len` bytes, with `...` when it was cut.
    pub fn content_preview(&self, max_len: usize) -> (r: String)
        requires
            preview_cut_ok(self.content@, max_len),
        ensures
            r@ == preview_of(self.content@, max_len),
    {
        let c = self.content.as_str();
        if c.as_bytes().len() <= max_len {
            assert(utf8_len(self.content@) <= max_len);
            self.content.clone()
        } else {
            let (head, _tail) = c.split_at(max_len);
            let mut r = String::from_str(head);
            push_char(&mut r, '.');
            push_char(&mut r, '.');
            push_char(&mut r, '.');
            proof {
                assert(encode_utf8(head@) == encode_utf8(c@).subrange(0, max_len as int));
                assert(decode_utf8(encode_utf8(head@)) == head@);
                assert(head@ == decode_utf8(encode_utf8(self.content@).subrange(0, max_len as int)));
                assert(r@ =~= head@ + seq!['.', '.', '.']);
                assert(!(utf8_len(self.content@) <= max_len));
            }
            r
        }
    }

    /// Whether the message should be drawn in one group with `other`, the
    /// message before it: same author, neither a reply, and this one written
    /// less than five minutes after `other`.
    pub fn should_group_with(&self, other: &Message) -> (r: bool)
        ensures
            r == (self.author.id@ == other.author.id@ && self.reply_to.is_none()
                && other.reply_to.is_none() && within_five_minutes(
                self.created_at,
                other.created_at,
            )),
    {
        if !str_eq(self.author.id.as_str(), other.author.id.as_str()) {
            return false;
        }
        if self.is_reply() || other.is_reply() {
            return false;
        }
        if self.created_at >= other.created_at {
            self.created_at - other.created_at < 300_000_000_000
        } else {
            false
        }
    }
}

} // verus!
