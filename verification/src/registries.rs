//! The shared registries: registered local users (keyed by username),
//! foreign users learned over a server link (keyed by user identifier),
//! and channels (keyed by name).  Each exposes insert, remove, contains
//! and a snapshot; the daemon around the library serializes access, and
//! every mutation here is a plain in-memory update.

use vstd::prelude::*;
use crate::channels::Channel;
use crate::channels::ChannelModel;
use crate::channels::distinct_members;
use crate::channels::spec_add_member;
use crate::ids::UserId;
use crate::user::RegisteredUserModel;
use crate::user::User;
use crate::user::UserUnwrapped;

verus! {

/// Some entry carries this username.
pub open spec fn has_username(s: Seq<RegisteredUserModel>, name: Seq<char>) -> bool {
    exists|i: int| 0 <= i < s.len() && #[trigger] s[i].username == name
}

/// The index of the entry carrying this username (unique under
/// [`distinct_usernames`]).
pub open spec fn username_index(s: Seq<RegisteredUserModel>, name: Seq<char>) -> int {
    choose|i: int| 0 <= i < s.len() && #[trigger] s[i].username == name
}

/// No two entries carry the same username.
pub open spec fn distinct_usernames(s: Seq<RegisteredUserModel>) -> bool {
    forall|a: int, b: int|
        #![trigger s[a].username, s[b].username]
        0 <= a < b < s.len() ==> s[a].username != s[b].username
}

/// Some entry carries this user identifier.
pub open spec fn has_user_id(s: Seq<RegisteredUserModel>, uid: Seq<char>) -> bool {
    exists|i: int| 0 <= i < s.len() && #[trigger] s[i].user_id == uid
}

/// The index of the entry carrying this user identifier (unique under
/// [`distinct_user_ids`]).
pub open spec fn user_id_index(s: Seq<RegisteredUserModel>, uid: Seq<char>) -> int {
    choose|i: int| 0 <= i < s.len() && #[trigger] s[i].user_id == uid
}

/// No two entries carry the same user identifier.
pub open spec fn distinct_user_ids(s: Seq<RegisteredUserModel>) -> bool {
    forall|a: int, b: int|
        #![trigger s[a].user_id, s[b].user_id]
        0 <= a < b < s.len() ==> s[a].user_id != s[b].user_id
}

/// Some channel carries this name.
pub open spec fn has_channel(s: Seq<ChannelModel>, name: Seq<char>) -> bool {
    exists|i: int| 0 <= i < s.len() && #[trigger] s[i].name == name
}

/// The index of the channel carrying this name (unique under
/// [`distinct_channel_names`]).
pub open spec fn channel_index(s: Seq<ChannelModel>, name: Seq<char>) -> int {
    choose|i: int| 0 <= i < s.len() && #[trigger] s[i].name == name
}

/// No two channels carry the same name.
pub open spec fn distinct_channel_names(s: Seq<ChannelModel>) -> bool {
    forall|a: int, b: int|
        #![trigger s[a].name, s[b].name]
        0 <= a < b < s.len() ==> s[a].name != s[b].name
}

/// Under unique usernames, any entry matching a name sits at the chosen
/// index.
proof fn lemma_username_unique(s: Seq<RegisteredUserModel>, i: int, name: Seq<char>)
    requires
        distinct_usernames(s),
        0 <= i < s.len(),
        s[i].username == name,
    ensures
        has_username(s, name),
        username_index(s, name) == i,
{
    assert(has_username(s, name));
    let j = username_index(s, name);
    assert(0 <= j < s.len() && s[j].username == name);
    if j < i {
        assert(s[j].username != s[i].username);
    } else if i < j {
        assert(s[i].username != s[j].username);
    }
}

/// Replacing an entry by one with the same username keeps usernames
/// unique.
proof fn lemma_distinct_usernames_update(s: Seq<RegisteredUserModel>, i: int, u: RegisteredUserModel)
    requires
        distinct_usernames(s),
        0 <= i < s.len(),
        u.username == s[i].username,
    ensures
        distinct_usernames(s.update(i, u)),
{
    let t = s.update(i, u);
    assert forall|a: int, b: int| 0 <= a < b < t.len() implies t[a].username != t[b].username by {
        assert(s[a].username != s[b].username);
        assert(t[a].username == s[a].username);
        assert(t[b].username == s[b].username);
    }
}

/// Appending an entry with a fresh username keeps usernames unique.
proof fn lemma_distinct_usernames_push(s: Seq<RegisteredUserModel>, u: RegisteredUserModel)
    requires
        distinct_usernames(s),
        forall|k: int| 0 <= k < s.len() ==> #[trigger] s[k].username != u.username,
    ensures
        distinct_usernames(s.push(u)),
{
    let t = s.push(u);
    assert forall|a: int, b: int| 0 <= a < b < t.len() implies t[a].username != t[b].username by {
        if b < s.len() {
            assert(s[a].username != s[b].username);
        } else {
            assert(t[b] == u);
            assert(s[a].username != u.username);
        }
    }
}

/// Removing an entry keeps usernames unique, and its username is gone.
proof fn lemma_distinct_usernames_remove(s: Seq<RegisteredUserModel>, i: int)
    requires
        distinct_usernames(s),
        0 <= i < s.len(),
    ensures
        distinct_usernames(s.remove(i)),
        !has_username(s.remove(i), s[i].username),
{
    let t = s.remove(i);
    assert forall|a: int, b: int| 0 <= a < b < t.len() implies t[a].username != t[b].username by {
        let a0 = if a < i { a } else { a + 1 };
        let b0 = if b < i { b } else { b + 1 };
        assert(t[a] == s[a0]);
        assert(t[b] == s[b0]);
        assert(s[a0].username != s[b0].username);
    }
    assert forall|k: int| 0 <= k < t.len() implies #[trigger] t[k].username != s[i].username by {
        if k < i {
            assert(t[k] == s[k]);
            assert(s[k].username != s[i].username);
        } else {
            assert(t[k] == s[k + 1]);
            assert(s[i].username != s[k + 1].username);
        }
    }
}

/// Under unique user identifiers, any entry matching one sits at the
/// chosen index.
proof fn lemma_user_id_unique(s: Seq<RegisteredUserModel>, i: int, uid: Seq<char>)
    requires
        distinct_user_ids(s),
        0 <= i < s.len(),
        s[i].user_id == uid,
    ensures
        has_user_id(s, uid),
        user_id_index(s, uid) == i,
{
    assert(has_user_id(s, uid));
    let j = user_id_index(s, uid);
    assert(0 <= j < s.len() && s[j].user_id == uid);
    if j < i {
        assert(s[j].user_id != s[i].user_id);
    } else if i < j {
        assert(s[i].user_id != s[j].user_id);
    }
}

/// Replacing an entry by one with the same user identifier keeps them
/// unique.
proof fn lemma_distinct_user_ids_update(s: Seq<RegisteredUserModel>, i: int, u: RegisteredUserModel)
    requires
        distinct_user_ids(s),
        0 <= i < s.len(),
        u.user_id == s[i].user_id,
    ensures
        distinct_user_ids(s.update(i, u)),
{
    let t = s.update(i, u);
    assert forall|a: int, b: int| 0 <= a < b < t.len() implies t[a].user_id != t[b].user_id by {
        assert(s[a].user_id != s[b].user_id);
        assert(t[a].user_id == s[a].user_id);
        assert(t[b].user_id == s[b].user_id);
    }
}

/// Appending an entry with a fresh user identifier keeps them unique.
proof fn lemma_distinct_user_ids_push(s: Seq<RegisteredUserModel>, u: RegisteredUserModel)
    requires
        distinct_user_ids(s),
        forall|k: int| 0 <= k < s.len() ==> #[trigger] s[k].user_id != u.user_id,
    ensures
        distinct_user_ids(s.push(u)),
{
    let t = s.push(u);
    assert forall|a: int, b: int| 0 <= a < b < t.len() implies t[a].user_id != t[b].user_id by {
        if b < s.len() {
            assert(s[a].user_id != s[b].user_id);
        } else {
            assert(t[b] == u);
            assert(s[a].user_id != u.user_id);
        }
    }
}

/// Under unique channel names, any channel matching a name sits at the
/// chosen index.
proof fn lemma_channel_name_unique(s: Seq<ChannelModel>, i: int, name: Seq<char>)
    requires
        distinct_channel_names(s),
        0 <= i < s.len(),
        s[i].name == name,
    ensures
        has_channel(s, name),
        channel_index(s, name) == i,
{
    assert(has_channel(s, name));
    let j = channel_index(s, name);
    assert(0 <= j < s.len() && s[j].name == name);
    if j < i {
        assert(s[j].name != s[i].name);
    } else if i < j {
        assert(s[i].name != s[j].name);
    }
}

/// Replacing a channel by one with the same name keeps names unique.
proof fn lemma_distinct_channels_update(s: Seq<ChannelModel>, i: int, c: ChannelModel)
    requires
        distinct_channel_names(s),
        0 <= i < s.len(),
        c.name == s[i].name,
    ensures
        distinct_channel_names(s.update(i, c)),
{
    let t = s.update(i, c);
    assert forall|a: int, b: int| 0 <= a < b < t.len() implies t[a].name != t[b].name by {
        assert(s[a].name != s[b].name);
        assert(t[a].name == s[a].name);
        assert(t[b].name == s[b].name);
    }
}

/// Appending a channel with a fresh name keeps names unique.
proof fn lemma_distinct_channels_push(s: Seq<ChannelModel>, c: ChannelModel)
    requires
        distinct_channel_names(s),
        forall|k: int| 0 <= k < s.len() ==> #[trigger] s[k].name != c.name,
    ensures
        distinct_channel_names(s.push(c)),
{
    let t = s.push(c);
    assert forall|a: int, b: int| 0 <= a < b < t.len() implies t[a].name != t[b].name by {
        if b < s.len() {
            assert(s[a].name != s[b].name);
        } else {
            assert(t[b] == c);
            assert(s[a].name != c.name);
        }
    }
}

/// The registry of registered local users, keyed by username.  A user is
/// inserted when its session becomes fully identified and removed at
/// disconnect.
pub struct LocalUsers {
    users: Vec<UserUnwrapped>,
}

impl View for LocalUsers {
    type V = Seq<RegisteredUserModel>;

    closed spec fn view(&self) -> Seq<RegisteredUserModel> {
        Seq::new(self.users@.len(), |i: int| self.users@[i]@)
    }
}

impl LocalUsers {
    /// The registry invariant: usernames are unique.
    pub open spec fn wf(self) -> bool {
        distinct_usernames(self@)
    }

    /// An empty registry.
    pub fn new() -> (r: LocalUsers)
        ensures
            r@ =~= Seq::<RegisteredUserModel>::empty(),
            r.wf(),
    {
        LocalUsers { users: Vec::new() }
    }

    /// Whether a user with this username is registered.
    pub fn contains_username(&self, name: &String) -> (b: bool)
        ensures
            b == has_username(self@, name@),
    {
        let mut i: usize = 0;
        while i < self.users.len()
            invariant
                i <= self.users@.len(),
                self@.len() == self.users@.len(),
                forall|k: int| 0 <= k < i ==> #[trigger] self@[k].username != name@,
            decreases self.users@.len() - i,
        {
            if self.users[i].username.eq(name) {
                proof {
                    assert(self@[i as int].username == name@);
                }
                return true;
            }
            i += 1;
        }
        false
    }

    /// Inserts a snapshot: an entry with the same username is replaced,
    /// otherwise the snapshot is appended.
    pub fn insert(&mut self, u: UserUnwrapped)
        requires
            old(self).wf(),
        ensures
            final(self).wf(),
            has_username(old(self)@, u@.username) ==> final(self)@ =~= old(self)@.update(
                username_index(old(self)@, u@.username),
                u@,
            ),
            !has_username(old(self)@, u@.username) ==> final(self)@ =~= old(self)@.push(u@),
            has_username(final(self)@, u@.username),
    {
        let ghost key = u@.username;
        let mut i: usize = 0;
        while i < self.users.len()
            invariant
                i <= self.users@.len(),
                self@.len() == self.users@.len(),
                forall|k: int| 0 <= k < i ==> #[trigger] self@[k].username != key,
                u@.username == key,
                *self == *old(self),
                old(self).wf(),
            decreases self.users@.len() - i,
        {
            if self.users[i].username.eq(&u.username) {
                proof {
                    assert(old(self)@[i as int].username == key);
                    lemma_username_unique(old(self)@, i as int, key);
                }
                self.users.set(i, u);
                proof {
                    assert(self@ =~= old(self)@.update(i as int, u@));
                    lemma_distinct_usernames_update(old(self)@, i as int, u@);
                    assert(self@[i as int].username == key);
                }
                return ;
            }
            i += 1;
        }
        self.users.push(u);
        proof {
            assert(self@ =~= old(self)@.push(u@));
            lemma_distinct_usernames_push(old(self)@, u@);
            assert(self@[old(self)@.len() as int].username == key);
        }
    }

    /// Removes the entry with this username, if any; afterwards no entry
    /// carries it.
    pub fn remove(&mut self, name: &String)
        requires
            old(self).wf(),
        ensures
            final(self).wf(),
            has_username(old(self)@, name@) ==> final(self)@ =~= old(self)@.remove(
                username_index(old(self)@, name@),
            ),
            !has_username(old(self)@, name@) ==> final(self)@ == old(self)@,
            !has_username(final(self)@, name@),
    {
        let mut i: usize = 0;
        while i < self.users.len()
            invariant
                i <= self.users@.len(),
                self@.len() == self.users@.len(),
                forall|k: int| 0 <= k < i ==> #[trigger] self@[k].username != name@,
                *self == *old(self),
                old(self).wf(),
            decreases self.users@.len() - i,
        {
            if self.users[i].username.eq(name) {
                proof {
                    assert(old(self)@[i as int].username == name@);
                    lemma_username_unique(old(self)@, i as int, name@);
                }
                self.users.remove(i);
                proof {
                    assert(self@ =~= old(self)@.remove(i as int));
                    lemma_distinct_usernames_remove(old(self)@, i as int);
                }
                return ;
            }
            i += 1;
        }
    }

    /// A copy of every registered snapshot, in registry order.
    pub fn snapshot(&self) -> (v: Vec<UserUnwrapped>)
        ensures
            v@.len() == self@.len(),
            forall|k: int| 0 <= k < self@.len() ==> #[trigger] v@[k]@ == self@[k],
    {
        let mut v: Vec<UserUnwrapped> = Vec::new();
        let mut i: usize = 0;
        while i < self.users.len()
            invariant
                i <= self.users@.len(),
                self@.len() == self.users@.len(),
                v@.len() == i,
                forall|k: int| 0 <= k < i ==> #[trigger] v@[k]@ == self@[k],
            decreases self.users@.len() - i,
        {
            v.push(self.users[i].duplicate());
            i += 1;
        }
        v
    }
}

/// The registry of foreign users learned via a server link's user
/// introductions, keyed by user identifier; entries are never locally
/// removed.
pub struct ForeignUsers {
    users: Vec<UserUnwrapped>,
}

impl View for ForeignUsers {
    type V = Seq<RegisteredUserModel>;

    closed spec fn view(&self) -> Seq<RegisteredUserModel> {
        Seq::new(self.users@.len(), |i: int| self.users@[i]@)
    }
}

impl ForeignUsers {
    /// The registry invariant: user identifiers are unique.
    pub open spec fn wf(self) -> bool {
        distinct_user_ids(self@)
    }

    /// An empty registry.
    pub fn new() -> (r: ForeignUsers)
        ensures
            r@ =~= Seq::<RegisteredUserModel>::empty(),
            r.wf(),
    {
        ForeignUsers { users: Vec::new() }
    }

    /// Whether a user with this identifier is known.
    pub fn contains_user_id(&self, uid: &UserId) -> (b: bool)
        ensures
            b == has_user_id(self@, uid@),
    {
        let mut i: usize = 0;
        while i < self.users.len()
            invariant
                i <= self.users@.len(),
                self@.len() == self.users@.len(),
                forall|k: int| 0 <= k < i ==> #[trigger] self@[k].user_id != uid@,
            decreases self.users@.len() - i,
        {
            if self.users[i].user_id.same_as(uid) {
                proof {
                    assert(self@[i as int].user_id == uid@);
                }
                return true;
            }
            i += 1;
        }
        false
    }

    /// The snapshot introduced under this identifier, if any.
    pub fn get_by_user_id(&self, uid: &UserId) -> (r: Option<UserUnwrapped>)
        requires
            self.wf(),
        ensures
            has_user_id(self@, uid@) ==> r is Some && r->Some_0@ == self@[user_id_index(
                self@,
                uid@,
            )],
            !has_user_id(self@, uid@) ==> r is None,
    {
        let mut i: usize = 0;
        while i < self.users.len()
            invariant
                i <= self.users@.len(),
                self@.len() == self.users@.len(),
                self.wf(),
                forall|k: int| 0 <= k < i ==> #[trigger] self@[k].user_id != uid@,
            decreases self.users@.len() - i,
        {
            if self.users[i].user_id.same_as(uid) {
                proof {
                    assert(self@[i as int].user_id == uid@);
                    lemma_user_id_unique(self@, i as int, uid@);
                }
                return Option::Some(self.users[i].duplicate());
            }
            i += 1;
        }
        Option::None
    }

    /// Inserts a snapshot: an entry with the same identifier is replaced,
    /// otherwise the snapshot is appended.
    pub fn insert(&mut self, u: UserUnwrapped)
        requires
            old(self).wf(),
        ensures
            final(self).wf(),
            has_user_id(old(self)@, u@.user_id) ==> final(self)@ =~= old(self)@.update(
                user_id_index(old(self)@, u@.user_id),
                u@,
            ),
            !has_user_id(old(self)@, u@.user_id) ==> final(self)@ =~= old(self)@.push(u@),
            has_user_id(final(self)@, u@.user_id),
    {
        let ghost key = u@.user_id;
        let mut i: usize = 0;
        while i < self.users.len()
            invariant
                i <= self.users@.len(),
                self@.len() == self.users@.len(),
                forall|k: int| 0 <= k < i ==> #[trigger] self@[k].user_id != key,
                u@.user_id == key,
                *self == *old(self),
                old(self).wf(),
            decreases self.users@.len() - i,
        {
            if self.users[i].user_id.same_as(&u.user_id) {
                proof {
                    assert(old(self)@[i as int].user_id == key);
                    lemma_user_id_unique(old(self)@, i as int, key);
                }
                self.users.set(i, u);
                proof {
                    assert(self@ =~= old(self)@.update(i as int, u@));
                    lemma_distinct_user_ids_update(old(self)@, i as int, u@);
                    assert(self@[i as int].user_id == key);
                }
                return ;
            }
            i += 1;
        }
        self.users.push(u);
        proof {
            assert(self@ =~= old(self)@.push(u@));
            lemma_distinct_user_ids_push(old(self)@, u@);
            assert(self@[old(self)@.len() as int].user_id == key);
        }
    }

    /// A copy of every known snapshot, in registry order.
    pub fn snapshot(&self) -> (v: Vec<UserUnwrapped>)
        ensures
            v@.len() == self@.len(),
            forall|k: int| 0 <= k < self@.len() ==> #[trigger] v@[k]@ == self@[k],
    {
        let mut v: Vec<UserUnwrapped> = Vec::new();
        let mut i: usize = 0;
        while i < self.users.len()
            invariant
                i <= self.users@.len(),
                self@.len() == self.users@.len(),
                v@.len() == i,
                forall|k: int| 0 <= k < i ==> #[trigger] v@[k]@ == self@[k],
            decreases self.users@.len() - i,
        {
            v.push(self.users[i].duplicate());
            i += 1;
        }
        v
    }
}

/// The registry of channels, keyed by name.  A channel is created on the
/// first join to an unknown name and lives for the rest of the process.
pub struct Channels {
    channels: Vec<Channel>,
}

impl View for Channels {
    type V = Seq<ChannelModel>;

    closed spec fn view(&self) -> Seq<ChannelModel> {
        Seq::new(self.channels@.len(), |i: int| self.channels@[i]@)
    }
}

impl Channels {
    /// The registry invariant: channel names are unique and every
    /// membership set is duplicate-free.
    pub open spec fn wf(self) -> bool {
        &&& distinct_channel_names(self@)
        &&& forall|i: int| 0 <= i < self@.len() ==> distinct_members(#[trigger] self@[i].members)
    }

    /// An empty registry.
    pub fn new() -> (r: Channels)
        ensures
            r@ =~= Seq::<ChannelModel>::empty(),
            r.wf(),
    {
        Channels { channels: Vec::new() }
    }

    /// Whether a channel with this name exists.
    pub fn contains_channel(&self, name: &String) -> (b: bool)
        ensures
            b == has_channel(self@, name@),
    {
        let mut i: usize = 0;
        while i < self.channels.len()
            invariant
                i <= self.channels@.len(),
                self@.len() == self.channels@.len(),
                forall|k: int| 0 <= k < i ==> #[trigger] self@[k].name != name@,
            decreases self.channels@.len() - i,
        {
            if self.channels[i].name.eq(name) {
                proof {
                    assert(self@[i as int].name == name@);
                }
                return true;
            }
            i += 1;
        }
        false
    }

    /// Whether this user is a member of the channel with this name.
    pub fn is_member(&self, name: &String, user: &User) -> (b: bool)
        requires
            self.wf(),
        ensures
            b == (has_channel(self@, name@) && self@[channel_index(self@, name@)].members.contains(
                user@,
            )),
    {
        let mut i: usize = 0;
        while i < self.channels.len()
            invariant
                i <= self.channels@.len(),
                self@.len() == self.channels@.len(),
                self.wf(),
                forall|k: int| 0 <= k < i ==> #[trigger] self@[k].name != name@,
            decreases self.channels@.len() - i,
        {
            if self.channels[i].name.eq(name) {
                proof {
                    assert(self@[i as int].name == name@);
                    lemma_channel_name_unique(self@, i as int, name@);
                }
                return self.channels[i].contains_user(user);
            }
            i += 1;
        }
        false
    }

    /// A copy of the channel with this name, if any.
    pub fn get_channel(&self, name: &String) -> (r: Option<Channel>)
        requires
            self.wf(),
        ensures
            has_channel(self@, name@) ==> r is Some && r->Some_0@ == self@[channel_index(
                self@,
                name@,
            )],
            !has_channel(self@, name@) ==> r is None,
    {
        let mut i: usize = 0;
        while i < self.channels.len()
            invariant
                i <= self.channels@.len(),
                self@.len() == self.channels@.len(),
                self.wf(),
                forall|k: int| 0 <= k < i ==> #[trigger] self@[k].name != name@,
            decreases self.channels@.len() - i,
        {
            if self.channels[i].name.eq(name) {
                proof {
                    assert(self@[i as int].name == name@);
                    lemma_channel_name_unique(self@, i as int, name@);
                }
                return Option::Some(self.channels[i].duplicate());
            }
            i += 1;
        }
        Option::None
    }

    /// Looks the channel up by name, creating it if unknown, inserts the
    /// user with set semantics, and returns a snapshot of the affected
    /// channel.
    pub fn join_user(&mut self, name: &String, user: &User) -> (snap: Channel)
        requires
            old(self).wf(),
        ensures
            final(self).wf(),
            has_channel(old(self)@, name@) ==> final(self)@ =~= old(self)@.update(
                channel_index(old(self)@, name@),
                ChannelModel {
                    name: name@,
                    members: spec_add_member(
                        old(self)@[channel_index(old(self)@, name@)].members,
                        user@,
                    ),
                },
            ),
            !has_channel(old(self)@, name@) ==> final(self)@ =~= old(self)@.push(
                ChannelModel { name: name@, members: seq![user@] },
            ),
            snap@.name == name@,
            has_channel(old(self)@, name@) ==> snap@.members == spec_add_member(
                old(self)@[channel_index(old(self)@, name@)].members,
                user@,
            ),
            !has_channel(old(self)@, name@) ==> snap@.members =~= seq![user@],
            has_channel(final(self)@, name@),
    {
        let mut i: usize = 0;
        while i < self.channels.len()
            invariant
                i <= self.channels@.len(),
                self@.len() == self.channels@.len(),
                forall|k: int| 0 <= k < i ==> #[trigger] self@[k].name != name@,
                *self == *old(self),
                old(self).wf(),
            decreases self.channels@.len() - i,
        {
            if self.channels[i].name.eq(name) {
                proof {
                    assert(old(self)@[i as int].name == name@);
                    lemma_channel_name_unique(old(self)@, i as int, name@);
                    assert(distinct_members(old(self)@[i as int].members));
                }
                let mut ch = self.channels.remove(i);
                ch.add_user(user.duplicate());
                let snap = ch.duplicate();
                self.channels.insert(i, ch);
                proof {
                    let target = ChannelModel {
                        name: name@,
                        members: spec_add_member(old(self)@[i as int].members, user@),
                    };
                    assert(self@ =~= old(self)@.update(i as int, target));
                    lemma_distinct_channels_update(old(self)@, i as int, target);
                    assert forall|k: int| 0 <= k < self@.len() implies distinct_members(
                        #[trigger] self@[k].members,
                    ) by {
                        if k != i {
                            assert(self@[k] == old(self)@[k]);
                            assert(distinct_members(old(self)@[k].members));
                        }
                    }
                    assert(self@[i as int].name == name@);
                }
                return snap;
            }
            i += 1;
        }
        let ch = Channel::new_channel(name.clone(), user.duplicate());
        let snap = ch.duplicate();
        self.channels.push(ch);
        proof {
            let target = ChannelModel { name: name@, members: seq![user@] };
            assert(self@ =~= old(self)@.push(target));
            lemma_distinct_channels_push(old(self)@, target);
            assert forall|k: int| 0 <= k < self@.len() implies distinct_members(
                #[trigger] self@[k].members,
            ) by {
                if k < old(self)@.len() {
                    assert(self@[k] == old(self)@[k]);
                    assert(distinct_members(old(self)@[k].members));
                } else {
                    assert(self@[k].members =~= seq![user@]);
                }
            }
            assert(self@[old(self)@.len() as int].name == name@);
        }
        snap
    }
}

} // verus!
