//! What the member list, the media gallery and the server settings count and
//! sort.
use vstd::prelude::*;
use crate::message::Message;
use crate::models::{Server, User, UserStatus, flat_channels};

verus! {

/// The users a sequence of references points to.
pub open spec fn user_refs(s: Seq<&User>) -> Seq<User> {
    s.map_values(|u: &User| *u)
}

/// The users of `us` that are online (not `Offline`), order kept.
pub open spec fn online_users(us: Seq<User>) -> Seq<User>
    decreases us.len(),
{
    if us.len() == 0 {
        Seq::empty()
    } else if us.last().status != UserStatus::Offline {
        online_users(us.drop_last()).push(us.last())
    } else {
        online_users(us.drop_last())
    }
}

/// The users of `us` that are offline, order kept.
pub open spec fn offline_users(us: Seq<User>) -> Seq<User>
    decreases us.len(),
{
    if us.len() == 0 {
        Seq::empty()
    } else if us.last().status == UserStatus::Offline {
        offline_users(us.drop_last()).push(us.last())
    } else {
        offline_users(us.drop_last())
    }
}

/// Together the two parts hold every member once.
pub proof fn law_partition_sizes(us: Seq<User>)
    ensures
        online_users(us).len() + offline_users(us).len() == us.len(),
    decreases us.len(),
{
    if us.len() > 0 {
        law_partition_sizes(us.drop_last());
    }
}

/// Splits the members into those online and those offline, each in their
/// order in `members`.
pub fn partition_members(members: &[User]) -> (r: (Vec<&User>, Vec<&User>))
    ensures
        user_refs(r.0@) == online_users(members@),
        user_refs(r.1@) == offline_users(members@),
{
    let mut online: Vec<&User> = Vec::new();
    let mut offline: Vec<&User> = Vec::new();
    let mut i: usize = 0;
    assert(user_refs(online@) =~= online_users(members@.take(0)));
    assert(user_refs(offline@) =~= offline_users(members@.take(0)));
    while i < members.len()
        invariant
            i <= members@.len(),
            user_refs(online@) == online_users(members@.take(i as int)),
            user_refs(offline@) == offline_users(members@.take(i as int)),
        decreases members@.len() - i,
    {
        let u = &members[i];
        proof {
            assert(members@.take(i + 1).drop_last() =~= members@.take(i as int));
            assert(members@.take(i + 1).last() == *u);
        }
        if u.is_online() {
            let ghost before = online@;
            online.push(u);
            assert(user_refs(online@) =~= user_refs(before).push(*u));
        } else {
            let ghost before = offline@;
            offline.push(u);
            assert(user_refs(offline@) =~= user_refs(before).push(*u));
        }
        i = i + 1;
    }
    assert(members@.take(i as int) =~= members@);
    (online, offline)
}

/// The messages a sequence of references points to.
pub open spec fn message_refs(s: Seq<&Message>) -> Seq<Message> {
    s.map_values(|m: &Message| *m)
}

/// The messages of `ms` with an attachment, order kept.
pub open spec fn with_attachment(ms: Seq<Message>) -> Seq<Message>
    decreases ms.len(),
{
    if ms.len() == 0 {
        Seq::empty()
    } else if ms.last().attachment is Some {
        with_attachment(ms.drop_last()).push(ms.last())
    } else {
        with_attachment(ms.drop_last())
    }
}

/// The messages that a media channel's gallery shows: those with an
/// attachment.
pub fn media_messages(messages: &[Message]) -> (r: Vec<&Message>)
    ensures
        message_refs(r@) == with_attachment(messages@),
{
    let mut r: Vec<&Message> = Vec::new();
    let mut i: usize = 0;
    assert(message_refs(r@) =~= with_attachment(messages@.take(0)));
    while i < messages.len()
        invariant
            i <= messages@.len(),
            message_refs(r@) == with_attachment(messages@.take(i as int)),
        decreases messages@.len() - i,
    {
        let m = &messages[i];
        proof {
            assert(messages@.take(i + 1).drop_last() =~= messages@.take(i as int));
            assert(messages@.take(i + 1).last() == *m);
        }
        if m.attachment.is_some() {
            let ghost before = r@;
            r.push(m);
            assert(message_refs(r@) =~= message_refs(before).push(*m));
        }
        i = i + 1;
    }
    assert(messages@.take(i as int) =~= messages@);
    r
}

/// How many channels the server has, over all its categories.
pub fn channel_count(server: &Server) -> (r: usize)
    requires
        flat_channels(server.categories@).len() <= usize::MAX,
    ensures
        r == flat_channels(server.categories@).len(),
{
    let mut total: usize = 0;
    let mut i: usize = 0;
    while i < server.categories.len()
        invariant
            i <= server.categories@.len(),
            flat_channels(server.categories@).len() <= usize::MAX,
            total == flat_channels(server.categories@.take(i as int)).len(),
        decreases server.categories@.len() - i,
    {
        proof {
            assert(server.categories@.take(i + 1).drop_last() =~= server.categories@.take(i as int));
            lemma_flat_prefix_len(server.categories@, i + 1);
        }
        total = total + server.categories[i].channels.len();
        i = i + 1;
    }
    assert(server.categories@.take(i as int) =~= server.categories@);
    total
}

proof fn lemma_flat_prefix_len(cats: Seq<crate::models::ChannelCategory>, n: int)
    requires
        0 <= n <= cats.len(),
    ensures
        flat_channels(cats.take(n)).len() <= flat_channels(cats).len(),
    decreases cats.len() - n,
{
    if n < cats.len() {
        lemma_flat_prefix_len(cats, n + 1);
        assert(cats.take(n + 1).drop_last() =~= cats.take(n));
    } else {
        assert(cats.take(n) =~= cats);
    }
}

} // verus!
