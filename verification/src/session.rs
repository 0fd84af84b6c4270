//! The per-connection session state machine: the one-way role
//! progression, the registration step that fires when a session first
//! becomes populated, the event-relevance filter each session applies to
//! what it pulls off the bus, and the cleanup at disconnect.
//!
//! The daemon around the library owns the sockets and the concurrent
//! read/react race; it hands each inbound line and each received event to
//! these functions and applies what they return.

use vstd::prelude::*;
use vstd::string::StringExecFns;
use crate::channels::ChannelModel;
use crate::commands::IrcAction;
use crate::commands::IrcActionModel;
use crate::commands::actions_view;
use crate::commands::channels_view;
use crate::ids::ServerId;
use crate::ids::UserId;
use crate::ids::is_valid_server_id;
use crate::messages::Message;
use crate::messages::MessageModel;
use crate::messages::NetJoinMessage;
use crate::messages::PrivMessageModel;
use crate::messages::Receiver;
use crate::messages::ReceiverModel;
use crate::registries::Channels;
use crate::registries::LocalUsers;
use crate::registries::channel_index;
use crate::registries::has_channel;
use crate::registries::has_username;
use crate::registries::username_index;
use crate::sender::IrcResponse;
use crate::sender::IrcResponseModel;
use crate::text::lower_of;
use crate::text::lowercase;
use crate::user::RegisteredUserModel;
use crate::user::User;
use crate::user::UserModel;
use crate::user::spec_hostmask;
use crate::user::spec_is_fully_identified;
use crate::user::spec_is_populated;
use crate::user::spec_snapshot_of;
use crate::userid_gen::UidIncreaseError;
use crate::userid_gen::UserIdGenerator;
use crate::userid_gen::spec_advance;

verus! {

/// The session's protocol role.  It only ever moves forward:
/// unregistered, then an active client, then — on a successful PASS
/// match, at most once — an active server link; closed is terminal.
#[derive(Clone, Copy, Debug, PartialEq, Eq, Structural)]
pub enum SessionState {
    Unregistered,
    ClientActive,
    ServerLinkActive,
    Closed,
}

/// How far along the one-way progression a state is.
pub open spec fn session_rank(s: SessionState) -> int {
    match s {
        SessionState::Unregistered => 0,
        SessionState::ClientActive => 1,
        SessionState::ServerLinkActive => 2,
        SessionState::Closed => 3,
    }
}

/// The transition fired by a successful PASS match: the session stops
/// running client dispatch for good.  A link or closed session stays
/// where it is.
pub fn upgrade_to_server_link(state: SessionState) -> (next: SessionState)
    ensures
        state == SessionState::Unregistered || state == SessionState::ClientActive ==> next
            == SessionState::ServerLinkActive,
        state == SessionState::ServerLinkActive || state == SessionState::Closed ==> next == state,
        session_rank(next) >= session_rank(state),
{
    match state {
        SessionState::Unregistered => SessionState::ServerLinkActive,
        SessionState::ClientActive => SessionState::ServerLinkActive,
        SessionState::ServerLinkActive => SessionState::ServerLinkActive,
        SessionState::Closed => SessionState::Closed,
    }
}

/// The transition fired by registration completing.
pub fn activate_client(state: SessionState) -> (next: SessionState)
    ensures
        state == SessionState::Unregistered ==> next == SessionState::ClientActive,
        state != SessionState::Unregistered ==> next == state,
        session_rank(next) >= session_rank(state),
{
    match state {
        SessionState::Unregistered => SessionState::ClientActive,
        other => other,
    }
}

/// Whether a private message is addressed directly to this snapshot: by
/// exact user-identifier match, or by case-insensitive username match.
pub open spec fn spec_direct_match(recv: ReceiverModel, snap: RegisteredUserModel) -> bool {
    match recv {
        ReceiverModel::UserId(uid) => uid == snap.user_id,
        ReceiverModel::Username(un) => lower_of(un) == lower_of(snap.username),
        ReceiverModel::ChannelName(_) => false,
    }
}

/// Whether the receiver is a channel this user has joined.
pub open spec fn spec_on_channel(
    chs: Seq<ChannelModel>,
    recv: ReceiverModel,
    u: UserModel,
) -> bool {
    match recv {
        ReceiverModel::ChannelName(cn) => has_channel(chs, cn) && chs[channel_index(
            chs,
            cn,
        )].members.contains(u),
        _ => false,
    }
}

/// The line rendering a direct message: from the sender's hostmask to
/// this session's own username.
pub open spec fn direct_line_model(m: PrivMessageModel, snap: RegisteredUserModel)
    -> IrcResponseModel {
    IrcResponseModel {
        sender: Option::Some(spec_hostmask(m.sender)),
        command: "PRIVMSG"@,
        receiver: Option::Some(snap.username),
        arguments: Seq::empty(),
        message: m.text,
    }
}

/// The line rendering a channel message: from the sender's hostmask to
/// the channel name.
pub open spec fn channel_line_model(m: PrivMessageModel, cn: Seq<char>) -> IrcResponseModel {
    IrcResponseModel {
        sender: Option::Some(spec_hostmask(m.sender)),
        command: "PRIVMSG"@,
        receiver: Option::Some(cn),
        arguments: Seq::empty(),
        message: m.text,
    }
}

/// The line announcing a join: from the joiner's hostmask, carrying the
/// channel name.
pub open spec fn join_line_model(sender: RegisteredUserModel, cn: Seq<char>) -> IrcResponseModel {
    IrcResponseModel {
        sender: Option::Some(spec_hostmask(sender)),
        command: "JOIN"@,
        receiver: Option::None,
        arguments: Seq::empty(),
        message: cn,
    }
}

/// What the event filter renders for this session.  A private message is
/// rendered as a direct message when it resolves to this session's user;
/// else as a channel message when it targets a channel this user joined
/// and the sender is not this user (no echo to self); else not at all.
/// A channel join is rendered — the JOIN line, then the channel snapshot
/// for the topic and member list — only for the joiner itself or for a
/// member of that channel.  Network joins mean nothing to a client
/// session.
pub open spec fn render_post(
    u: UserModel,
    chs: Seq<ChannelModel>,
    msg: MessageModel,
    acts: Seq<IrcActionModel>,
) -> bool {
    match msg {
        MessageModel::PrivMessage(m) => {
            let snap = spec_snapshot_of(u);
            if spec_direct_match(m.receiver, snap) {
                acts == seq![IrcActionModel::SendText(direct_line_model(m, snap))]
            } else if spec_on_channel(chs, m.receiver, u) && m.sender != snap {
                acts == seq![
                    IrcActionModel::SendText(channel_line_model(m, m.receiver->ChannelName_0)),
                ]
            } else {
                acts == Seq::<IrcActionModel>::empty()
            }
        },
        MessageModel::ChanJoinMessage(m) => {
            if m.channel.members.contains(u) || m.sender == spec_snapshot_of(u) {
                acts == seq![
                    IrcActionModel::SendText(join_line_model(m.sender, m.channel.name)),
                    IrcActionModel::JoinChannels(seq![m.channel]),
                ]
            } else {
                acts == Seq::<IrcActionModel>::empty()
            }
        },
        MessageModel::NetJoinMessage(_) => acts == Seq::<IrcActionModel>::empty(),
    }
}

/// Applies the event-relevance filter for one received event.
pub fn render_event(user: &User, channels: &Channels, message: &Message) -> (actions: Vec<
    IrcAction,
>)
    requires
        spec_is_fully_identified(user@),
        channels.wf(),
    ensures
        render_post(user@, channels@, message@, actions_view(actions@)),
{
    let snap = user.unwrap_all();
    let mut actions: Vec<IrcAction> = Vec::new();
    match message {
        Message::PrivMessage(m) => {
            let direct = match &m.receiver {
                Receiver::UserId(uid) => uid.same_as(&snap.user_id),
                Receiver::Username(un) => {
                    let a = lowercase(un.as_str());
                    let b = lowercase(snap.username.as_str());
                    a.eq(&b)
                },
                Receiver::ChannelName(_) => false,
            };
            if direct {
                actions.push(
                    IrcAction::SendText(
                        IrcResponse {
                            sender: Option::Some(m.sender.hostmask()),
                            command: String::from_str("PRIVMSG"),
                            receiver: Option::Some(snap.username.clone()),
                            arguments: Vec::new(),
                            message: m.text.clone(),
                        },
                    ),
                );
                proof {
                    assert(actions_view(actions@) =~~= seq![
                        IrcActionModel::SendText(direct_line_model(m@, spec_snapshot_of(user@))),
                    ]);
                }
            } else {
                let on_channel = match &m.receiver {
                    Receiver::ChannelName(cn) => channels.is_member(cn, user),
                    _ => false,
                };
                if on_channel && !m.sender.same_as(&snap) {
                    let cn = match &m.receiver {
                        Receiver::ChannelName(cn) => cn.clone(),
                        _ => unreached(),
                    };
                    actions.push(
                        IrcAction::SendText(
                            IrcResponse {
                                sender: Option::Some(m.sender.hostmask()),
                                command: String::from_str("PRIVMSG"),
                                receiver: Option::Some(cn),
                                arguments: Vec::new(),
                                message: m.text.clone(),
                            },
                        ),
                    );
                    proof {
                        assert(actions_view(actions@) =~~= seq![
                            IrcActionModel::SendText(
                                channel_line_model(m@, m@.receiver->ChannelName_0),
                            ),
                        ]);
                    }
                } else {
                    proof {
                        assert(actions_view(actions@) =~= Seq::<IrcActionModel>::empty());
                    }
                }
            }
        },
        Message::ChanJoinMessage(m) => {
            if m.channel.contains_user(user) || m.sender.same_as(&snap) {
                actions.push(
                    IrcAction::SendText(
                        IrcResponse {
                            sender: Option::Some(m.sender.hostmask()),
                            command: String::from_str("JOIN"),
                            receiver: Option::None,
                            arguments: Vec::new(),
                            message: m.channel.name.clone(),
                        },
                    ),
                );
                let mut rendered: Vec<crate::channels::Channel> = Vec::new();
                rendered.push(m.channel.duplicate());
                actions.push(IrcAction::JoinChannels(rendered));
                proof {
                    assert(actions_view(actions@) =~~= seq![
                        IrcActionModel::SendText(join_line_model(m@.sender, m@.channel.name)),
                        IrcActionModel::JoinChannels(seq![m@.channel]),
                    ]);
                }
            } else {
                proof {
                    assert(actions_view(actions@) =~= Seq::<IrcActionModel>::empty());
                }
            }
        },
        Message::NetJoinMessage(_) => {
            proof {
                assert(actions_view(actions@) =~= Seq::<IrcActionModel>::empty());
            }
        },
    }
    actions
}

/// Law: a private message published to a channel is rendered by every
/// member of that channel except the sender, and by the sender not at
/// all.  Together with the renderer's contract this is what each
/// subscribing session does with such an event.
pub proof fn lemma_channel_message_routing(
    u: UserModel,
    chs: Seq<ChannelModel>,
    m: PrivMessageModel,
    acts: Seq<IrcActionModel>,
)
    requires
        m.receiver is ChannelName,
        spec_on_channel(chs, m.receiver, u),
        render_post(u, chs, MessageModel::PrivMessage(m), acts),
    ensures
        m.sender != spec_snapshot_of(u) ==> acts == seq![
            IrcActionModel::SendText(channel_line_model(m, m.receiver->ChannelName_0)),
        ],
        m.sender == spec_snapshot_of(u) ==> acts == Seq::<IrcActionModel>::empty(),
{
    assert(!spec_direct_match(m.receiver, spec_snapshot_of(u)));
}

/// What registration does when a session first becomes populated:
/// allocate the next suffix, form the user identifier under this
/// server's identifier, mark the record identified and timestamped,
/// store the frozen snapshot under its username, and announce the
/// network join.  A session already identified, or not yet populated,
/// is left alone; an exhausted allocator fails registration and nothing
/// changes.
pub fn register_if_ready(
    user_state: &mut User,
    uidgen: &mut UserIdGenerator,
    local_users: &mut LocalUsers,
    my_sid: &ServerId,
    now: u64,
) -> (r: Result<Option<NetJoinMessage>, UidIncreaseError>)
    requires
        old(uidgen).wf(),
        old(local_users).wf(),
        is_valid_server_id(my_sid@),
        old(user_state)@.hopcount is Some,
    ensures
        final(uidgen).wf(),
        final(local_users).wf(),
        ({
            let eligible = !old(user_state)@.identified && spec_is_populated(old(user_state)@);
            &&& !eligible ==> r is Ok && r->Ok_0 is None && *final(user_state) == *old(user_state)
                && *final(uidgen) == *old(uidgen) && final(local_users)@ == old(local_users)@
            &&& eligible && old(uidgen).started() && old(uidgen).exhausted() ==> r is Err
                && r->Err_0 == UidIncreaseError::UserCapReached && *final(user_state) == *old(
                user_state,
            ) && final(uidgen).suffix() == old(uidgen).suffix() && final(local_users)@ == old(
                local_users,
            )@
            &&& eligible && !(old(uidgen).started() && old(uidgen).exhausted()) ==> {
                let new_u = final(user_state)@;
                let snap = spec_snapshot_of(new_u);
                &&& spec_advance(*old(uidgen), *final(uidgen))
                &&& new_u == UserModel {
                    identified: true,
                    user_id: Option::Some(my_sid@ + final(uidgen).suffix()),
                    timestamp: Option::Some(now),
                    ..old(user_state)@
                }
                &&& spec_is_fully_identified(new_u)
                &&& r is Ok && r->Ok_0 is Some
                &&& r->Ok_0->Some_0.user@ == snap
                &&& r->Ok_0->Some_0.server_id@ == my_sid@
                &&& has_username(old(local_users)@, snap.username) ==> final(local_users)@
                    =~= old(local_users)@.update(
                    username_index(old(local_users)@, snap.username),
                    snap,
                )
                &&& !has_username(old(local_users)@, snap.username) ==> final(local_users)@
                    =~= old(local_users)@.push(snap)
                &&& has_username(final(local_users)@, snap.username)
            }
        }),
{
    if user_state.identified || !user_state.is_populated_without_uid() {
        return Ok(Option::None);
    }
    let suffix = match uidgen.increase_user_id() {
        Ok(s) => s,
        Err(e) => {
            return Err(e);
        },
    };
    let uid = UserId::from_parts(my_sid, &suffix);
    user_state.user_id = Option::Some(uid);
    user_state.identified = true;
    user_state.timestamp = Option::Some(now);
    let snap = user_state.unwrap_all();
    local_users.insert(snap.duplicate());
    Ok(Option::Some(NetJoinMessage { user: snap, server_id: my_sid.clone_id() }))
}

/// What disconnection does — on clean end-of-file and on read error
/// alike: the session's username snapshot, if any, leaves the local-user
/// registry.  Afterwards no local user carries this session's username.
pub fn handle_disconnect(user_state: &User, local_users: &mut LocalUsers)
    requires
        old(local_users).wf(),
    ensures
        final(local_users).wf(),
        user_state@.username is None ==> final(local_users)@ == old(local_users)@,
        user_state@.username is Some ==> {
            let name = user_state@.username->Some_0;
            &&& has_username(old(local_users)@, name) ==> final(local_users)@ =~= old(
                local_users,
            )@.remove(username_index(old(local_users)@, name))
            &&& !has_username(old(local_users)@, name) ==> final(local_users)@ == old(
                local_users,
            )@
            &&& !has_username(final(local_users)@, name)
        },
{
    match &user_state.username {
        Option::Some(name) => {
            local_users.remove(name);
        },
        Option::None => {},
    }
}

} // verus!
