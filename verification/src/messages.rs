//! Domain events carried on the broadcast bus.  Events are immutable once
//! published; the bus fans them out to every active session, and each
//! session decides for itself which events to render.

use vstd::prelude::*;
use crate::channels::Channel;
use crate::channels::ChannelModel;
use crate::ids::ServerId;
use crate::ids::UserId;
use crate::user::UserUnwrapped;
use crate::user::RegisteredUserModel;

verus! {

/// Whom a private message is addressed to.
#[derive(Clone, Debug)]
pub enum Receiver {
    Username(String),
    UserId(UserId),
    ChannelName(String),
}

/// The mathematical shape of a receiver.
#[verifier::ext_equal]
pub ghost enum ReceiverModel {
    Username(Seq<char>),
    UserId(Seq<char>),
    ChannelName(Seq<char>),
}

impl View for Receiver {
    type V = ReceiverModel;

    open spec fn view(&self) -> ReceiverModel {
        match self {
            Receiver::Username(s) => ReceiverModel::Username(s@),
            Receiver::UserId(u) => ReceiverModel::UserId(u@),
            Receiver::ChannelName(s) => ReceiverModel::ChannelName(s@),
        }
    }
}

/// A private message event.
#[derive(Clone, Debug)]
pub struct PrivMessage {
    pub sender: UserUnwrapped,
    pub receiver: Receiver,
    pub text: String,
}

/// The mathematical shape of a private message event.
#[verifier::ext_equal]
pub ghost struct PrivMessageModel {
    pub sender: RegisteredUserModel,
    pub receiver: ReceiverModel,
    pub text: Seq<char>,
}

impl View for PrivMessage {
    type V = PrivMessageModel;

    open spec fn view(&self) -> PrivMessageModel {
        PrivMessageModel { sender: self.sender@, receiver: self.receiver@, text: self.text@ }
    }
}

/// A channel-join event, carrying the channel snapshot taken at join time.
#[derive(Clone, Debug)]
pub struct ChanJoinMessage {
    pub sender: UserUnwrapped,
    pub channel: Channel,
}

/// The mathematical shape of a channel-join event.
#[verifier::ext_equal]
pub ghost struct ChanJoinMessageModel {
    pub sender: RegisteredUserModel,
    pub channel: ChannelModel,
}

impl View for ChanJoinMessage {
    type V = ChanJoinMessageModel;

    open spec fn view(&self) -> ChanJoinMessageModel {
        ChanJoinMessageModel { sender: self.sender@, channel: self.channel@ }
    }
}

/// A network-join event: a user registered on the originating server.
#[derive(Clone, Debug)]
pub struct NetJoinMessage {
    pub user: UserUnwrapped,
    pub server_id: ServerId,
}

/// The mathematical shape of a network-join event.
#[verifier::ext_equal]
pub ghost struct NetJoinMessageModel {
    pub user: RegisteredUserModel,
    pub server_id: Seq<char>,
}

impl View for NetJoinMessage {
    type V = NetJoinMessageModel;

    open spec fn view(&self) -> NetJoinMessageModel {
        NetJoinMessageModel { user: self.user@, server_id: self.server_id@ }
    }
}

/// A domain event on the broadcast bus.
#[derive(Clone, Debug)]
pub enum Message {
    PrivMessage(PrivMessage),
    ChanJoinMessage(ChanJoinMessage),
    NetJoinMessage(NetJoinMessage),
}

/// The mathematical shape of a bus event.
#[verifier::ext_equal]
pub ghost enum MessageModel {
    PrivMessage(PrivMessageModel),
    ChanJoinMessage(ChanJoinMessageModel),
    NetJoinMessage(NetJoinMessageModel),
}

impl View for Message {
    type V = MessageModel;

    open spec fn view(&self) -> MessageModel {
        match self {
            Message::PrivMessage(m) => MessageModel::PrivMessage(m@),
            Message::ChanJoinMessage(m) => MessageModel::ChanJoinMessage(m@),
            Message::NetJoinMessage(m) => MessageModel::NetJoinMessage(m@),
        }
    }
}

impl Receiver {
    /// A copy holding the same receiver.
    pub fn duplicate(&self) -> (r: Receiver)
        ensures
            r@ == self@,
    {
        match self {
            Receiver::Username(s) => Receiver::Username(s.clone()),
            Receiver::UserId(u) => Receiver::UserId(u.clone_id()),
            Receiver::ChannelName(s) => Receiver::ChannelName(s.clone()),
        }
    }
}

impl Message {
    /// A copy holding the same event.
    pub fn duplicate(&self) -> (r: Message)
        ensures
            r@ == self@,
    {
        match self {
            Message::PrivMessage(m) => Message::PrivMessage(
                PrivMessage {
                    sender: m.sender.duplicate(),
                    receiver: m.receiver.duplicate(),
                    text: m.text.clone(),
                },
            ),
            Message::ChanJoinMessage(m) => Message::ChanJoinMessage(
                ChanJoinMessage { sender: m.sender.duplicate(), channel: m.channel.duplicate() },
            ),
            Message::NetJoinMessage(m) => Message::NetJoinMessage(
                NetJoinMessage { user: m.user.duplicate(), server_id: m.server_id.clone_id() },
            ),
        }
    }
}

} // verus!
