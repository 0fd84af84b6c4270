//! The JOIN command: argument 0 is a comma-separated list of channel
//! names.  Names not starting with `'#'` are silently skipped; an
//! unregistered session asking for a real channel is told to
//! authenticate first.  For each valid name the channel is looked up or
//! created, the caller inserted with set semantics, and the affected
//! snapshots returned; each join also emits a channel-join event so
//! other members' sessions render it.

use vstd::prelude::*;
use crate::channels::Channel;
use crate::channels::ChannelModel;
use crate::channels::spec_add_member;
use crate::commands::IrcAction;
use crate::commands::IrcActionModel;
use crate::commands::actions_view;
use crate::commands::channels_view;
use crate::commands::starts_hash;
use crate::commands::starts_hash_exec;
use crate::messages::ChanJoinMessage;
use crate::messages::ChanJoinMessageModel;
use crate::messages::Message;
use crate::messages::MessageModel;
use crate::registries::Channels;
use crate::registries::channel_index;
use crate::registries::has_channel;
use crate::sender::strings_view;
use crate::text::split_commas;
use crate::text::split_commas_str;
use crate::user::RegisteredUserModel;
use crate::user::User;
use crate::user::UserModel;
use crate::user::spec_is_fully_identified;
use crate::user::spec_snapshot_of;

verus! {

/// One join applied to the channel registry: the named channel gains the
/// user with set semantics, or is created around the user.
pub open spec fn apply_join(chs: Seq<ChannelModel>, name: Seq<char>, u: UserModel) -> Seq<
    ChannelModel,
> {
    if has_channel(chs, name) {
        chs.update(
            channel_index(chs, name),
            ChannelModel {
                name: name,
                members: spec_add_member(chs[channel_index(chs, name)].members, u),
            },
        )
    } else {
        chs.push(ChannelModel { name: name, members: seq![u] })
    }
}

/// The snapshot of the channel affected by one join.
pub open spec fn joined_snapshot(chs: Seq<ChannelModel>, name: Seq<char>, u: UserModel)
    -> ChannelModel {
    ChannelModel {
        name: name,
        members: if has_channel(chs, name) {
            spec_add_member(chs[channel_index(chs, name)].members, u)
        } else {
            seq![u]
        },
    }
}

/// The registry after joining every `'#'`-prefixed name, in order.
pub open spec fn join_channels_after(
    chs: Seq<ChannelModel>,
    names: Seq<Seq<char>>,
    u: UserModel,
) -> Seq<ChannelModel>
    decreases names.len(),
{
    if names.len() == 0 {
        chs
    } else {
        let chs1 = if starts_hash(names[0]) {
            apply_join(chs, names[0], u)
        } else {
            chs
        };
        join_channels_after(chs1, names.subrange(1, names.len() as int), u)
    }
}

/// The snapshots collected while joining every `'#'`-prefixed name, in
/// order.
pub open spec fn join_snapshots(chs: Seq<ChannelModel>, names: Seq<Seq<char>>, u: UserModel)
    -> Seq<ChannelModel>
    decreases names.len(),
{
    if names.len() == 0 {
        Seq::empty()
    } else if starts_hash(names[0]) {
        seq![joined_snapshot(chs, names[0], u)] + join_snapshots(
            apply_join(chs, names[0], u),
            names.subrange(1, names.len() as int),
            u,
        )
    } else {
        join_snapshots(chs, names.subrange(1, names.len() as int), u)
    }
}

/// Some name in the list is `'#'`-prefixed.
pub open spec fn any_valid_name(names: Seq<Seq<char>>) -> bool {
    exists|i: int| 0 <= i < names.len() && starts_hash(#[trigger] names[i])
}

/// One channel-join event per affected snapshot, in order.
pub open spec fn chan_join_events(snaps: Seq<ChannelModel>, sender: RegisteredUserModel) -> Seq<
    IrcActionModel,
> {
    Seq::new(
        snaps.len(),
        |i: int|
            IrcActionModel::SendMessage(
                MessageModel::ChanJoinMessage(
                    ChanJoinMessageModel { sender: sender, channel: snaps[i] },
                ),
            ),
    )
}

/// What JOIN leaves behind.
pub open spec fn join_post(
    args: Seq<Seq<char>>,
    authenticated: bool,
    u: UserModel,
    old_chs: Seq<ChannelModel>,
    new_chs: Seq<ChannelModel>,
    acts: Seq<IrcActionModel>,
) -> bool {
    if args.len() == 0 {
        new_chs == old_chs && acts == seq![IrcActionModel::DoNothing]
    } else {
        let names = split_commas(args[0]);
        if !authenticated {
            new_chs == old_chs && if any_valid_name(names) {
                acts == seq![IrcActionModel::ErrorAuthenticateFirst]
            } else {
                acts == seq![IrcActionModel::JoinChannels(Seq::empty())]
            }
        } else {
            let snaps = join_snapshots(old_chs, names, u);
            &&& new_chs == join_channels_after(old_chs, names, u)
            &&& acts == seq![IrcActionModel::JoinChannels(snaps)] + chan_join_events(
                snaps,
                spec_snapshot_of(u),
            )
        }
    }
}

/// The JOIN handler.
pub struct Join;

impl Join {
    /// Joins the caller to each named channel.
    pub fn handle(
        &self,
        arguments: &Vec<String>,
        authenticated: bool,
        user_state: &User,
        channels: &mut Channels,
    ) -> (actions: Vec<IrcAction>)
        requires
            old(channels).wf(),
            authenticated ==> spec_is_fully_identified(user_state@),
        ensures
            final(channels).wf(),
            join_post(
                strings_view(arguments@),
                authenticated,
                user_state@,
                old(channels)@,
                final(channels)@,
                actions_view(actions@),
            ),
    {
        let mut actions: Vec<IrcAction> = Vec::new();
        if arguments.len() == 0 {
            actions.push(IrcAction::DoNothing);
            proof {
                assert(actions_view(actions@) =~= seq![IrcActionModel::DoNothing]);
            }
            return actions;
        }
        let names = split_commas_str(arguments[0].as_str());
        let ghost names_model = split_commas(strings_view(arguments@)[0]);
        proof {
            assert(strings_view(arguments@)[0] == arguments@[0]@);
            assert(names@.len() == names_model.len());
            assert(forall|k: int|
                0 <= k < names@.len() ==> #[trigger] names@[k]@ == names_model[k]);
        }
        if !authenticated {
            let mut k: usize = 0;
            while k < names.len()
                invariant
                    k <= names@.len(),
                    names_model.len() == names@.len(),
                    forall|j: int| 0 <= j < names@.len() ==> #[trigger] names@[j]@ == names_model[j],
                    forall|j: int| 0 <= j < k ==> !starts_hash(#[trigger] names_model[j]),
                    actions@.len() == 0,
                    *channels == *old(channels),
                    old(channels).wf(),
                    !authenticated,
                    arguments@.len() > 0,
                    names_model == split_commas(strings_view(arguments@)[0]),
                decreases names@.len() - k,
            {
                if starts_hash_exec(&names[k]) {
                    proof {
                        assert(starts_hash(names_model[k as int]));
                    }
                    actions.push(IrcAction::ErrorAuthenticateFirst);
                    proof {
                        assert(actions_view(actions@) =~= seq![
                            IrcActionModel::ErrorAuthenticateFirst,
                        ]);
                    }
                    return actions;
                }
                k += 1;
            }
            let empty_channels: Vec<Channel> = Vec::new();
            actions.push(IrcAction::JoinChannels(empty_channels));
            proof {
                assert(!any_valid_name(names_model));
                assert(channels_view(Seq::<Channel>::empty()) =~= Seq::<ChannelModel>::empty());
                assert(actions_view(actions@) =~= seq![
                    IrcActionModel::JoinChannels(Seq::empty()),
                ]);
            }
            return actions;
        }
        let ghost u = user_state@;
        let ghost old_chs = channels@;
        let mut snaps: Vec<Channel> = Vec::new();
        proof {
            assert(names_model.subrange(0, names_model.len() as int) =~= names_model);
            assert(channels_view(snaps@) =~= Seq::<ChannelModel>::empty());
            assert(channels_view(snaps@) + join_snapshots(
                channels@,
                names_model.subrange(0, names_model.len() as int),
                u,
            ) =~= join_snapshots(old_chs, names_model, u));
        }
        let mut k: usize = 0;
        while k < names.len()
            invariant
                k <= names@.len(),
                actions@.len() == 0,
                arguments@.len() > 0,
                names_model == split_commas(strings_view(arguments@)[0]),
                names_model.len() == names@.len(),
                forall|j: int| 0 <= j < names@.len() ==> #[trigger] names@[j]@ == names_model[j],
                channels.wf(),
                u == user_state@,
                join_channels_after(old_chs, names_model, u) == join_channels_after(
                    channels@,
                    names_model.subrange(k as int, names_model.len() as int),
                    u,
                ),
                join_snapshots(old_chs, names_model, u) =~= channels_view(snaps@)
                    + join_snapshots(
                    channels@,
                    names_model.subrange(k as int, names_model.len() as int),
                    u,
                ),
            decreases names@.len() - k,
        {
            let ghost pre_chs = channels@;
            let ghost rest = names_model.subrange(k as int, names_model.len() as int);
            proof {
                assert(rest[0] == names_model[k as int]);
                assert(rest.subrange(1, rest.len() as int) =~= names_model.subrange(
                    k + 1 as int,
                    names_model.len() as int,
                ));
            }
            if starts_hash_exec(&names[k]) {
                let snap = channels.join_user(&names[k], user_state);
                snaps.push(snap);
                proof {
                    assert(channels@ =~= apply_join(pre_chs, names_model[k as int], u));
                    assert(snaps@.last()@ == joined_snapshot(pre_chs, names_model[k as int], u));
                    assert(channels_view(snaps@) =~= channels_view(snaps@.drop_last()).push(
                        joined_snapshot(pre_chs, names_model[k as int], u),
                    ));
                    assert(join_snapshots(pre_chs, rest, u) =~= seq![
                        joined_snapshot(pre_chs, names_model[k as int], u),
                    ] + join_snapshots(
                        channels@,
                        names_model.subrange(k + 1 as int, names_model.len() as int),
                        u,
                    ));
                    assert(join_snapshots(old_chs, names_model, u) =~= channels_view(snaps@)
                        + join_snapshots(
                        channels@,
                        names_model.subrange(k + 1 as int, names_model.len() as int),
                        u,
                    ));
                }
            } else {
                proof {
                    assert(!starts_hash(names_model[k as int]));
                    assert(join_channels_after(channels@, rest, u) == join_channels_after(
                        channels@,
                        names_model.subrange(k + 1 as int, names_model.len() as int),
                        u,
                    ));
                    assert(join_snapshots(channels@, rest, u) == join_snapshots(
                        channels@,
                        names_model.subrange(k + 1 as int, names_model.len() as int),
                        u,
                    ));
                }
            }
            k += 1;
        }
        proof {
            assert(names_model.subrange(names_model.len() as int, names_model.len() as int).len()
                == 0);
            assert(channels@ == join_channels_after(old_chs, names_model, u));
            assert(channels_view(snaps@) + Seq::<ChannelModel>::empty() =~= channels_view(snaps@));
            assert(channels_view(snaps@) =~= join_snapshots(old_chs, names_model, u));
        }
        let ghost snaps_model = join_snapshots(old_chs, names_model, u);
        let sender_snap = user_state.unwrap_all();
        // copy the snapshots into the JoinChannels action, then one
        // channel-join event per snapshot
        let mut snaps_copy: Vec<Channel> = Vec::new();
        let mut i: usize = 0;
        while i < snaps.len()
            invariant
                i <= snaps@.len(),
                snaps_copy@.len() == i,
                actions@.len() == 0,
                forall|j: int| 0 <= j < i ==> #[trigger] snaps_copy@[j]@ == snaps@[j]@,
            decreases snaps@.len() - i,
        {
            snaps_copy.push(snaps[i].duplicate());
            i += 1;
        }
        proof {
            assert(channels_view(snaps_copy@) =~= channels_view(snaps@));
        }
        actions.push(IrcAction::JoinChannels(snaps_copy));
        proof {
            assert(chan_join_events(snaps_model.subrange(0, 0), spec_snapshot_of(u)).len() == 0);
            assert(actions_view(actions@) =~= seq![IrcActionModel::JoinChannels(snaps_model)]
                + chan_join_events(snaps_model.subrange(0, 0), spec_snapshot_of(u)));
        }
        let mut i: usize = 0;
        while i < snaps.len()
            invariant
                i <= snaps@.len(),
                snaps_model =~= channels_view(snaps@),
                sender_snap@ == spec_snapshot_of(u),
                actions_view(actions@) =~= seq![IrcActionModel::JoinChannels(snaps_model)]
                    + chan_join_events(snaps_model.subrange(0, i as int), spec_snapshot_of(u)),
            decreases snaps@.len() - i,
        {
            let event = ChanJoinMessage { sender: sender_snap.duplicate(), channel: snaps[i].duplicate() };
            actions.push(IrcAction::SendMessage(Message::ChanJoinMessage(event)));
            proof {
                assert(snaps_model[i as int] == snaps@[i as int]@);
                assert(actions@.last()@ == IrcActionModel::SendMessage(
                    MessageModel::ChanJoinMessage(
                        ChanJoinMessageModel {
                            sender: spec_snapshot_of(u),
                            channel: snaps_model[i as int],
                        },
                    ),
                ));
                assert(chan_join_events(snaps_model.subrange(0, i + 1 as int), spec_snapshot_of(u))
                    =~= chan_join_events(snaps_model.subrange(0, i as int), spec_snapshot_of(u)).push(
                    IrcActionModel::SendMessage(
                        MessageModel::ChanJoinMessage(
                            ChanJoinMessageModel {
                                sender: spec_snapshot_of(u),
                                channel: snaps_model[i as int],
                            },
                        ),
                    ),
                ));
                let jc = IrcActionModel::JoinChannels(snaps_model);
                let ev_i = chan_join_events(snaps_model.subrange(0, i as int), spec_snapshot_of(u));
                let ev_i1 = chan_join_events(
                    snaps_model.subrange(0, i + 1 as int),
                    spec_snapshot_of(u),
                );
                let elem = IrcActionModel::SendMessage(
                    MessageModel::ChanJoinMessage(
                        ChanJoinMessageModel {
                            sender: spec_snapshot_of(u),
                            channel: snaps_model[i as int],
                        },
                    ),
                );
                assert(actions_view(actions@) =~= (seq![jc] + ev_i).push(elem));
                assert((seq![jc] + ev_i).push(elem) =~= seq![jc] + ev_i.push(elem));
                assert(actions_view(actions@) =~= seq![jc] + ev_i1);
            }
            i += 1;
        }
        proof {
            assert(snaps_model.subrange(0, snaps_model.len() as int) =~= snaps_model);
            assert(actions_view(actions@) =~= seq![IrcActionModel::JoinChannels(snaps_model)]
                + chan_join_events(snaps_model, spec_snapshot_of(u)));
        }
        actions
    }
}

} // verus!
