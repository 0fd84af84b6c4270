//! Per-connection user records: the mutable in-progress form filled by
//! command handlers, and the immutable registered snapshot stored in the
//! registries and embedded in events.
//!
//! Timestamps are carried as whole seconds since the Unix epoch, and
//! addresses as plain text; the daemon around the library converts both at
//! its edge.

use vstd::prelude::*;
use vstd::string::StringExecFns;
use crate::ids::UserId;
use crate::usermodes::Usermode;
use crate::usermodes::Usermodes;

verus! {

/// The view of an optional string.
pub open spec fn opt_str_view(o: Option<String>) -> Option<Seq<char>> {
    match o {
        Option::None => Option::None,
        Option::Some(s) => Option::Some(s@),
    }
}

/// The view of an optional user identifier.
pub open spec fn opt_uid_view(o: Option<UserId>) -> Option<Seq<char>> {
    match o {
        Option::None => Option::None,
        Option::Some(u) => Option::Some(u@),
    }
}

/// The mathematical shape of an in-progress user record.
#[verifier::ext_equal]
pub ghost struct UserModel {
    pub nickname: Option<Seq<char>>,
    pub username: Option<Seq<char>>,
    pub realname: Option<Seq<char>>,
    pub identified: bool,
    pub hopcount: Option<u16>,
    pub user_id: Option<Seq<char>>,
    pub usermodes: Seq<Usermode>,
    pub timestamp: Option<u64>,
    pub ip: Option<Seq<char>>,
}

/// The mathematical shape of a registered-user snapshot.
#[verifier::ext_equal]
pub ghost struct RegisteredUserModel {
    pub nickname: Seq<char>,
    pub username: Seq<char>,
    pub realname: Seq<char>,
    pub identified: bool,
    pub hopcount: u16,
    pub user_id: Seq<char>,
    pub usermodes: Seq<Usermode>,
    pub timestamp: u64,
    pub ip: Seq<char>,
}

/// The mutable per-connection user record.  Created at connection accept,
/// mutated only by the handlers of that connection, destroyed at
/// disconnect.
#[derive(Clone, Debug, Hash, PartialEq, Eq)]
pub struct User {
    pub nickname: Option<String>,
    pub username: Option<String>,
    pub realname: Option<String>,
    pub identified: bool,
    pub hopcount: Option<u16>,
    pub user_id: Option<UserId>,
    pub usermodes: Usermodes,
    pub timestamp: Option<u64>,
    pub ip: Option<String>,
}

impl View for User {
    type V = UserModel;

    open spec fn view(&self) -> UserModel {
        UserModel {
            nickname: opt_str_view(self.nickname),
            username: opt_str_view(self.username),
            realname: opt_str_view(self.realname),
            identified: self.identified,
            hopcount: self.hopcount,
            user_id: opt_uid_view(self.user_id),
            usermodes: self.usermodes@,
            timestamp: self.timestamp,
            ip: opt_str_view(self.ip),
        }
    }
}

/// "Populated": nickname, username and realname are all present.
pub open spec fn spec_is_populated(u: UserModel) -> bool {
    &&& u.nickname is Some
    &&& u.username is Some
    &&& u.realname is Some
}

/// "Fully identified": populated, with an allocated user identifier, a
/// hop count and a registration timestamp.
pub open spec fn spec_is_fully_identified(u: UserModel) -> bool {
    &&& spec_is_populated(u)
    &&& u.user_id is Some
    &&& u.hopcount is Some
    &&& u.timestamp is Some
}

/// The snapshot a fully identified record freezes into; a missing address
/// defaults to the loopback text.
pub open spec fn spec_snapshot_of(u: UserModel) -> RegisteredUserModel {
    RegisteredUserModel {
        nickname: u.nickname->Some_0,
        username: u.username->Some_0,
        realname: u.realname->Some_0,
        identified: u.identified,
        hopcount: u.hopcount->Some_0,
        user_id: u.user_id->Some_0,
        usermodes: u.usermodes,
        timestamp: u.timestamp->Some_0,
        ip: match u.ip {
            Option::Some(ip) => ip,
            Option::None => "127.0.0.1"@,
        },
    }
}

/// The immutable registered snapshot of a user: the value stored in the
/// registries and embedded in events.
#[derive(Clone, Debug, Hash, PartialEq, Eq)]
pub struct UserUnwrapped {
    pub nickname: String,
    pub username: String,
    pub realname: String,
    pub identified: bool,
    pub hopcount: u16,
    pub user_id: UserId,
    pub usermodes: Usermodes,
    pub timestamp: u64,
    pub ip: String,
}

impl View for UserUnwrapped {
    type V = RegisteredUserModel;

    open spec fn view(&self) -> RegisteredUserModel {
        RegisteredUserModel {
            nickname: self.nickname@,
            username: self.username@,
            realname: self.realname@,
            identified: self.identified,
            hopcount: self.hopcount,
            user_id: self.user_id@,
            usermodes: self.usermodes@,
            timestamp: self.timestamp,
            ip: self.ip@,
        }
    }
}

/// A copy of an optional string.
pub fn opt_string_copy(o: &Option<String>) -> (r: Option<String>)
    ensures
        opt_str_view(r) == opt_str_view(*o),
{
    match o {
        Option::Some(s) => Option::Some(s.clone()),
        Option::None => Option::None,
    }
}

/// Whether two optional strings hold the same text.
pub fn opt_string_eq(a: &Option<String>, b: &Option<String>) -> (r: bool)
    ensures
        r == (opt_str_view(*a) == opt_str_view(*b)),
{
    match (a, b) {
        (Option::None, Option::None) => true,
        (Option::Some(x), Option::Some(y)) => x.eq(y),
        _ => false,
    }
}

impl User {
    /// A blank record for a fresh connection: nothing set, hop count zero,
    /// the default mode set.
    pub fn default() -> (r: User)
        ensures
            r@.nickname is None,
            r@.username is None,
            r@.realname is None,
            !r@.identified,
            r@.hopcount == Option::Some(0u16),
            r@.user_id is None,
            r@.usermodes =~= seq![Usermode::Invisible, Usermode::HostHiding],
            r@.timestamp is None,
            r@.ip is None,
    {
        User {
            nickname: Option::None,
            username: Option::None,
            realname: Option::None,
            identified: false,
            hopcount: Option::Some(0),
            user_id: Option::None,
            usermodes: Usermodes::default(),
            timestamp: Option::None,
            ip: Option::None,
        }
    }

    /// Whether nickname, username and realname are all present.
    pub fn is_populated(&self) -> (b: bool)
        ensures
            b == spec_is_populated(self@),
    {
        self.realname.is_some() && self.username.is_some() && self.nickname.is_some()
    }

    /// Whether nickname, username and realname are all present; the user
    /// identifier may still be missing.
    pub fn is_populated_without_uid(&self) -> (b: bool)
        ensures
            b == spec_is_populated(self@),
    {
        self.realname.is_some() && self.username.is_some() && self.nickname.is_some()
    }

    /// Freezes a fully identified record into its registered snapshot.
    pub fn unwrap_all(&self) -> (r: UserUnwrapped)
        requires
            spec_is_fully_identified(self@),
        ensures
            r@ == spec_snapshot_of(self@),
    {
        let nickname = match &self.nickname {
            Option::Some(s) => s.clone(),
            Option::None => unreached(),
        };
        let username = match &self.username {
            Option::Some(s) => s.clone(),
            Option::None => unreached(),
        };
        let realname = match &self.realname {
            Option::Some(s) => s.clone(),
            Option::None => unreached(),
        };
        let hopcount = match &self.hopcount {
            Option::Some(h) => *h,
            Option::None => unreached(),
        };
        let user_id = match &self.user_id {
            Option::Some(u) => u.clone_id(),
            Option::None => unreached(),
        };
        let timestamp = match &self.timestamp {
            Option::Some(t) => *t,
            Option::None => unreached(),
        };
        let ip = match &self.ip {
            Option::Some(s) => s.clone(),
            Option::None => String::from_str("127.0.0.1"),
        };
        UserUnwrapped {
            nickname,
            username,
            realname,
            identified: self.identified,
            hopcount,
            user_id,
            usermodes: self.usermodes.clone_modes(),
            timestamp,
            ip,
        }
    }

    /// A copy holding the same data.
    pub fn duplicate(&self) -> (r: User)
        ensures
            r@ == self@,
    {
        User {
            nickname: opt_string_copy(&self.nickname),
            username: opt_string_copy(&self.username),
            realname: opt_string_copy(&self.realname),
            identified: self.identified,
            hopcount: match &self.hopcount {
                Option::Some(h) => Option::Some(*h),
                Option::None => Option::None,
            },
            user_id: match &self.user_id {
                Option::Some(u) => Option::Some(u.clone_id()),
                Option::None => Option::None,
            },
            usermodes: self.usermodes.clone_modes(),
            timestamp: match &self.timestamp {
                Option::Some(t) => Option::Some(*t),
                Option::None => Option::None,
            },
            ip: opt_string_copy(&self.ip),
        }
    }

    /// Whether two records hold the same data.
    pub fn same_as(&self, other: &User) -> (r: bool)
        ensures
            r == (self@ == other@),
    {
        let r = opt_string_eq(&self.nickname, &other.nickname) && opt_string_eq(
            &self.username,
            &other.username,
        ) && opt_string_eq(&self.realname, &other.realname) && self.identified == other.identified
            && opt_u16_eq(&self.hopcount, &other.hopcount) && opt_uid_eq(
            &self.user_id,
            &other.user_id,
        ) && self.usermodes.same_as(&other.usermodes) && opt_u64_eq(
            &self.timestamp,
            &other.timestamp,
        ) && opt_string_eq(&self.ip, &other.ip);
        r
    }
}

/// Whether two optional hop counts are equal.
pub fn opt_u16_eq(a: &Option<u16>, b: &Option<u16>) -> (r: bool)
    ensures
        r == (*a == *b),
{
    match (a, b) {
        (Option::None, Option::None) => true,
        (Option::Some(x), Option::Some(y)) => *x == *y,
        _ => false,
    }
}

/// Whether two optional timestamps are equal.
pub fn opt_u64_eq(a: &Option<u64>, b: &Option<u64>) -> (r: bool)
    ensures
        r == (*a == *b),
{
    match (a, b) {
        (Option::None, Option::None) => true,
        (Option::Some(x), Option::Some(y)) => *x == *y,
        _ => false,
    }
}

/// Whether two optional user identifiers hold the same characters.
pub fn opt_uid_eq(a: &Option<UserId>, b: &Option<UserId>) -> (r: bool)
    ensures
        r == (opt_uid_view(*a) == opt_uid_view(*b)),
{
    match (a, b) {
        (Option::None, Option::None) => true,
        (Option::Some(x), Option::Some(y)) => x.same_as(y),
        _ => false,
    }
}

/// The hostmask text of a snapshot: `nick!~user@unimplement.ed`.
pub open spec fn spec_hostmask(u: RegisteredUserModel) -> Seq<char> {
    u.nickname + "!~"@ + u.username + "@unimplement.ed"@
}

impl UserUnwrapped {
    /// The snapshot's hostmask text: `nick!~user@unimplement.ed`.
    pub fn hostmask(&self) -> (s: String)
        ensures
            s@ == spec_hostmask(self@),
    {
        let mut s = self.nickname.clone();
        s.append("!~");
        s.append(self.username.as_str());
        s.append("@unimplement.ed");
        proof {
            assert(s@ =~= self@.nickname + "!~"@ + self@.username + "@unimplement.ed"@);
        }
        s
    }

    /// A copy holding the same data.
    pub fn duplicate(&self) -> (r: UserUnwrapped)
        ensures
            r@ == self@,
    {
        UserUnwrapped {
            nickname: self.nickname.clone(),
            username: self.username.clone(),
            realname: self.realname.clone(),
            identified: self.identified,
            hopcount: self.hopcount,
            user_id: self.user_id.clone_id(),
            usermodes: self.usermodes.clone_modes(),
            timestamp: self.timestamp,
            ip: self.ip.clone(),
        }
    }

    /// Whether two snapshots hold the same data.
    pub fn same_as(&self, other: &UserUnwrapped) -> (r: bool)
        ensures
            r == (self@ == other@),
    {
        let r = self.nickname.eq(&other.nickname) && self.username.eq(&other.username)
            && self.realname.eq(&other.realname) && self.identified == other.identified
            && self.hopcount == other.hopcount && self.user_id.same_as(&other.user_id)
            && self.usermodes.same_as(&other.usermodes) && self.timestamp == other.timestamp
            && self.ip.eq(&other.ip);
        r
    }
}

} // verus!
