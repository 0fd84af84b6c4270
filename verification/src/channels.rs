//! Channels: a `#`-prefixed name and a duplicate-free ordered set of
//! member users.  Membership only ever grows — no part removal exists —
//! and a user appears at most once per channel.

use vstd::prelude::*;
use vstd::string::StringExecFns;
use crate::sender::IrcResponse;
use crate::sender::IrcResponseCodes;
use crate::sender::spec_code;
use crate::sender::spec_code_string;
use crate::sender::strings_view;
use crate::text::insert_sorted_unique;
use crate::text::name_present;
use crate::text::names_view;
use crate::text::strictly_sorted;
use crate::user::User;
use crate::user::UserModel;

verus! {

/// The mathematical shape of a channel.
#[verifier::ext_equal]
pub ghost struct ChannelModel {
    pub name: Seq<char>,
    pub members: Seq<UserModel>,
}

/// No user appears twice.
pub open spec fn distinct_members(members: Seq<UserModel>) -> bool {
    forall|i: int, j: int| 0 <= i < j < members.len() ==> members[i] != members[j]
}

/// Membership insertion with set semantics: a user already present leaves
/// the membership unchanged; a new user is appended.
pub open spec fn spec_add_member(members: Seq<UserModel>, u: UserModel) -> Seq<UserModel> {
    if members.contains(u) {
        members
    } else {
        members.push(u)
    }
}

/// A channel: name and members.  Created on the first join to an unknown
/// name; never explicitly destroyed.
#[derive(Clone, Debug)]
pub struct Channel {
    pub name: String,
    pub joined_users: Vec<User>,
}

impl View for Channel {
    type V = ChannelModel;

    open spec fn view(&self) -> ChannelModel {
        ChannelModel {
            name: self.name@,
            members: self.joined_users@.map_values(|u: User| u@),
        }
    }
}

impl Channel {
    /// The channel invariant: no duplicate members.
    pub open spec fn wf(self) -> bool {
        distinct_members(self@.members)
    }

    /// A fresh channel holding its creator alone.
    pub fn new_channel(name: String, user: User) -> (r: Channel)
        ensures
            r@.name == name@,
            r@.members =~= seq![user@],
            r.wf(),
    {
        let mut joined_users: Vec<User> = Vec::new();
        joined_users.push(user);
        let r = Channel { name, joined_users };
        proof {
            assert(r@.members =~= seq![r.joined_users@[0]@]);
        }
        r
    }

    /// Whether the user is already a member.
    pub fn contains_user(&self, user: &User) -> (b: bool)
        ensures
            b == self@.members.contains(user@),
    {
        let mut i: usize = 0;
        while i < self.joined_users.len()
            invariant
                i <= self.joined_users@.len(),
                forall|k: int| 0 <= k < i ==> self@.members[k] != user@,
                self@.members.len() == self.joined_users@.len(),
        decreases self.joined_users@.len() - i,
        {
            if self.joined_users[i].same_as(user) {
                proof {
                    assert(self@.members[i as int] == user@);
                }
                return true;
            }
            i += 1;
        }
        proof {
            assert(forall|k: int| 0 <= k < self@.members.len() ==> self@.members[k] != user@);
        }
        false
    }

    /// Inserts a user with set semantics: joining twice changes nothing.
    pub fn add_user(&mut self, user: User)
        requires
            old(self).wf(),
        ensures
            final(self).wf(),
            final(self)@.name == old(self)@.name,
            final(self)@.members == spec_add_member(old(self)@.members, user@),
    {
        if !self.contains_user(&user) {
            self.joined_users.push(user);
            proof {
                assert(self@.members =~= spec_add_member(old(self)@.members, user@));
            }
        } else {
            proof {
                assert(self@.members =~= spec_add_member(old(self)@.members, user@));
            }
        }
    }

    /// A copy holding the same name and members.
    pub fn duplicate(&self) -> (r: Channel)
        ensures
            r@ == self@,
    {
        let mut joined_users: Vec<User> = Vec::new();
        let mut i: usize = 0;
        while i < self.joined_users.len()
            invariant
                i <= self.joined_users@.len(),
                joined_users@.len() == i,
                forall|k: int| 0 <= k < i ==> #[trigger] joined_users@[k]@ == self.joined_users@[k]@,
            decreases self.joined_users@.len() - i,
        {
            joined_users.push(self.joined_users[i].duplicate());
            i += 1;
        }
        let r = Channel { name: self.name.clone(), joined_users };
        proof {
            assert(r@.members =~= self@.members);
        }
        r
    }
}

/// One space-joined run of names, in order.
pub open spec fn spec_joined_names(ns: Seq<Seq<char>>) -> Seq<char>
    decreases ns.len(),
{
    if ns.len() == 0 {
        Seq::empty()
    } else if ns.len() == 1 {
        ns[0]
    } else {
        spec_joined_names(ns.drop_last()) + seq![' '] + ns.last()
    }
}

/// Joins names with single spaces.
pub fn join_names(names: &Vec<String>) -> (s: String)
    ensures
        s@ == spec_joined_names(strings_view(names@)),
{
    let ghost sv = strings_view(names@);
    let mut s = String::new();
    if names.len() == 0 {
        return s;
    }
    s.append(names[0].as_str());
    proof {
        assert(sv.subrange(0, 1)[0] == sv[0]);
        assert(s@ == spec_joined_names(sv.subrange(0, 1)));
    }
    let mut j: usize = 1;
    while j < names.len()
        invariant
            1 <= j <= names@.len(),
            sv == strings_view(names@),
            sv.len() == names@.len(),
            s@ == spec_joined_names(sv.subrange(0, j as int)),
        decreases names@.len() - j,
    {
        proof {
            reveal_strlit(" ");
        }
        s.append(" ");
        s.append(names[j].as_str());
        proof {
            let pre = sv.subrange(0, j as int);
            let ext = sv.subrange(0, j + 1 as int);
            assert(ext.drop_last() =~= pre);
            assert(ext.last() == sv[j as int]);
            assert(s@ =~= spec_joined_names(ext));
        }
        j += 1;
    }
    proof {
        assert(sv.subrange(0, sv.len() as int) =~= sv);
    }
    s
}

impl Channel {
    /// The nicknames of the members, sorted in code-point order with
    /// duplicates collapsed — the deterministic member list of the
    /// NAMES reply.  A member without a nickname (impossible for a
    /// registered member) is skipped.
    pub fn sorted_member_nicknames(&self) -> (names: Vec<String>)
        ensures
            strictly_sorted(names_view(names@)),
            // every present nickname appears
            forall|k: int|
                0 <= k < self@.members.len() && (#[trigger] self@.members[k].nickname) is Some
                    ==> name_present(names_view(names@), self@.members[k].nickname->Some_0),
            // and nothing but the members' nicknames appears
            forall|x: Seq<char>|
                #[trigger] name_present(names_view(names@), x) ==> exists|k: int|
                    0 <= k < self@.members.len() && #[trigger] self@.members[k].nickname
                        == Option::Some(x),
    {
        let ghost members = self@.members;
        let mut names: Vec<String> = Vec::new();
        proof {
            assert(names_view(names@).len() == 0);
        }
        let mut m: usize = 0;
        while m < self.joined_users.len()
            invariant
                m <= self.joined_users@.len(),
                members == self@.members,
                members.len() == self.joined_users@.len(),
                strictly_sorted(names_view(names@)),
                forall|k: int|
                    0 <= k < m && (#[trigger] members[k].nickname) is Some ==> name_present(
                        names_view(names@),
                        members[k].nickname->Some_0,
                    ),
                forall|x: Seq<char>|
                    #[trigger] name_present(names_view(names@), x) ==> exists|k: int|
                        0 <= k < m && #[trigger] members[k].nickname == Option::Some(x),
            decreases self.joined_users@.len() - m,
        {
            proof {
                assert(members[m as int] == self.joined_users@[m as int]@);
            }
            match &self.joined_users[m].nickname {
                Option::Some(nick) => {
                    let ghost pre_v = names_view(names@);
                    insert_sorted_unique(&mut names, nick.clone());
                    proof {
                        let nv = names_view(names@);
                        assert(members[m as int].nickname->Some_0 == nick@);
                        assert forall|k: int|
                            0 <= k < m + 1 && (#[trigger] members[k].nickname) is Some
                                implies name_present(nv, members[k].nickname->Some_0) by {
                            if k < m {
                                assert(name_present(pre_v, members[k].nickname->Some_0));
                            } else {
                                assert(name_present(nv, nick@));
                            }
                        }
                        assert forall|x: Seq<char>| #[trigger] name_present(nv, x)
                            implies exists|k: int|
                            0 <= k < m + 1 && #[trigger] members[k].nickname == Option::Some(
                                x,
                            ) by {
                            if x == nick@ {
                                assert(members[m as int].nickname == Option::Some(x));
                            } else {
                                assert(name_present(pre_v, x));
                                let k0 = choose|k0: int|
                                    0 <= k0 < m && #[trigger] members[k0].nickname
                                        == Option::Some(x);
                                assert(members[k0].nickname == Option::Some(x));
                            }
                        }
                    }
                },
                Option::None => {
                    proof {
                        assert forall|x: Seq<char>| #[trigger] name_present(names_view(names@), x)
                            implies exists|k: int|
                            0 <= k < m + 1 && #[trigger] members[k].nickname == Option::Some(
                                x,
                            ) by {
                            let k0 = choose|k0: int|
                                0 <= k0 < m && #[trigger] members[k0].nickname == Option::Some(x);
                            assert(members[k0].nickname == Option::Some(x));
                        }
                    }
                },
            }
            m += 1;
        }
        names
    }

    /// The no-topic reply for this channel, addressed to the viewer.
    pub fn topic_reply(&self, receiver: String) -> (r: IrcResponse)
        ensures
            r@.sender is None,
            r@.command == spec_code_string(spec_code(IrcResponseCodes::NoTopic)),
            r@.receiver == Option::Some(receiver@),
            r@.arguments =~= Seq::<Seq<char>>::empty(),
            r@.message == self@.name + " :No topic is set"@,
    {
        let mut text = self.name.clone();
        text.append(" :No topic is set");
        IrcResponseCodes::NoTopic.into_irc_response(receiver, text)
    }

    /// The member-list reply for this channel, addressed to the viewer
    /// and carrying the given names joined with single spaces.
    pub fn names_reply(&self, receiver: String, names: &Vec<String>) -> (r: IrcResponse)
        ensures
            r@.sender is None,
            r@.command == spec_code_string(spec_code(IrcResponseCodes::NameReply)),
            r@.receiver == Option::Some(receiver@),
            r@.arguments =~= Seq::<Seq<char>>::empty(),
            r@.message == "= "@ + self@.name + " :"@ + spec_joined_names(strings_view(names@)),
    {
        let mut text = String::from_str("= ");
        text.append(self.name.as_str());
        text.append(" :");
        let joined = join_names(names);
        text.append(joined.as_str());
        proof {
            assert(text@ =~= "= "@ + self@.name + " :"@ + spec_joined_names(
                strings_view(names@),
            ));
        }
        IrcResponseCodes::NameReply.into_irc_response(receiver, text)
    }

    /// The end-of-names reply for this channel, addressed to the viewer.
    pub fn end_of_names_reply(&self, receiver: String) -> (r: IrcResponse)
        ensures
            r@.sender is None,
            r@.command == spec_code_string(spec_code(IrcResponseCodes::EndOfNames)),
            r@.receiver == Option::Some(receiver@),
            r@.arguments =~= Seq::<Seq<char>>::empty(),
            r@.message == self@.name + " :End of /NAMES list"@,
    {
        let mut text = self.name.clone();
        text.append(" :End of /NAMES list");
        IrcResponseCodes::EndOfNames.into_irc_response(receiver, text)
    }
}

/// Law: joining the same channel twice with the same user leaves the
/// membership exactly as joining it once — insertion has set semantics.
pub proof fn lemma_join_idempotent(members: Seq<UserModel>, u: UserModel)
    ensures
        spec_add_member(spec_add_member(members, u), u) == spec_add_member(members, u),
        spec_add_member(spec_add_member(members, u), u).len() == spec_add_member(
            members,
            u,
        ).len(),
{
    if !members.contains(u) {
        assert(members.push(u)[members.len() as int] == u);
        assert(members.push(u).contains(u));
    }
}

} // verus!
