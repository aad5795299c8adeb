//! Forum channels: a channel's messages shown as discussion threads.
use vstd::prelude::*;
use crate::app::TripwireApp;
use crate::message::Message;
use crate::text::{before_char, before_first, push_char};

verus! {

/// A discussion thread of a forum channel.
#[derive(Debug, Clone)]
pub struct ForumThread {
    pub id: String,
    pub title: String,
    pub author: String,
    pub reply_count: usize,
    pub last_reply_time: String,
    pub tags: Vec<String>,
    pub is_pinned: bool,
    pub is_locked: bool,
}

/// The first line of `s` as `str::lines` yields it: the text up to the first
/// line feed, without a carriage return just before it; nothing for empty
/// text.
pub open spec fn first_line(s: Seq<char>) -> Option<Seq<char>> {
    if s.len() == 0 {
        None
    } else {
        let l = before_first(s, '\n');
        if l.len() < s.len() && l.len() > 0 && l.last() == '\r' {
            Some(l.drop_last())
        } else {
            Some(l)
        }
    }
}

/// At most the first `n` characters of `s`.
pub open spec fn first_chars(s: Seq<char>, n: int) -> Seq<char> {
    if s.len() <= n {
        s
    } else {
        s.take(n)
    }
}

/// The title of a thread opened by a message with text `content`: at most
/// 80 characters of its first line, or `Untitled`.
pub open spec fn thread_title(content: Seq<char>) -> Seq<char> {
    match first_line(content) {
        Some(l) => first_chars(l, 80),
        None => "Untitled"@,
    }
}

/// `t` is the thread that message `m`, at position `idx`, opens.
pub open spec fn is_thread_of(t: ForumThread, m: Message, idx: int) -> bool {
    &&& t.id == m.id
    &&& t.title@ == thread_title(m.content@)
    &&& t.author == m.author.username
    &&& t.reply_count == idx % 15 + 1
    &&& t.last_reply_time@ == "2 hours ago"@
    &&& t.tags@.len() == 1 && t.tags@[0]@ == "discussion"@
    &&& t.is_pinned == (idx == 0)
    &&& !t.is_locked
}

proof fn lemma_before_first_len(s: Seq<char>, c: char)
    ensures
        before_first(s, c).len() <= s.len(),
        before_first(s, c).len() < s.len() ==> s[before_first(s, c).len() as int] == c,
        forall|i: int| 0 <= i < before_first(s, c).len() ==> #[trigger] before_first(s, c)[i] == s[i],
    decreases s.len(),
{
    if s.len() > 0 && s[0] != c {
        lemma_before_first_len(s.drop_first(), c);
        let t = before_first(s.drop_first(), c);
        assert forall|i: int| 0 <= i < before_first(s, c).len() implies #[trigger] before_first(s, c)[i]
            == s[i] by {
            if i > 0 {
                assert(before_first(s, c)[i] == t[i - 1]);
            }
        }
    }
}

fn title_of(content: &str) -> (r: String)
    ensures
        r@ == thread_title(content@),
{
    if content.unicode_len() == 0 {
        return String::from_str("Untitled");
    }
    let l = before_char(content, '\n');
    proof {
        lemma_before_first_len(content@, '\n');
    }
    let n = l.as_str().unicode_len();
    let line: &str = if n < content.unicode_len() && n > 0 && l.as_str().get_char(n - 1) == '\r' {
        l.as_str().substring_char(0, n - 1)
    } else {
        l.as_str()
    };
    proof {
        if n < content@.len() && n > 0 && l@[n - 1] == '\r' {
            assert(l@.last() == '\r');
            assert(line@ =~= l@.drop_last());
        }
    }
    let k = line.unicode_len();
    if k <= 80 {
        String::from_str(line)
    } else {
        String::from_str(line.substring_char(0, 80))
    }
}

impl TripwireApp {
    /// The threads of a forum channel with messages `messages`: every third
    /// message, from the first, opens one.
    pub fn group_messages_into_threads(&self, messages: &[Message]) -> (r: Vec<ForumThread>)
        ensures
            r@.len() == (messages@.len() + 2) / 3,
            forall|j: int| 0 <= j < r@.len() ==> is_thread_of(#[trigger] r@[j], messages@[3 * j], 3 * j),
    {
        let n = messages.len();
        let mut r: Vec<ForumThread> = Vec::new();
        let mut i: usize = 0;
        while i < n
            invariant
                n == messages@.len(),
                i <= n,
                i < n ==> i == 3 * r@.len(),
                i == n ==> 3 * r@.len() >= n && 3 * r@.len() < n + 3,
                forall|j: int| 0 <= j < r@.len() ==> is_thread_of(#[trigger] r@[j], messages@[3 * j], 3 * j),
            decreases n - i,
        {
            let msg = &messages[i];
            let thread = ForumThread {
                id: msg.id.clone(),
                title: title_of(msg.content.as_str()),
                author: msg.author.username.clone(),
                reply_count: (i % 15) + 1,
                last_reply_time: String::from_str("2 hours ago"),
                tags: vec![String::from_str("discussion")],
                is_pinned: i == 0,
                is_locked: false,
            };
            r.push(thread);
            if n - i <= 3 {
                i = n;
            } else {
                i = i + 3;
            }
        }
        let ghost j = r@.len();
        assert((n + 2) / 3 == j) by (nonlinear_arith)
            requires
                3 * j >= n,
                3 * j < n + 3,
        ;
        r
    }
}

} // verus!
