//! The PRIVMSG command: a registered sender emits a private-message
//! event; the receiver token is a channel name when it starts with `'#'`
//! and a user-identifying token otherwise.  Delivery and filtering are
//! entirely each subscriber's business, not the publisher's.

use vstd::prelude::*;
use crate::commands::IrcAction;
use crate::commands::IrcActionModel;
use crate::commands::actions_view;
use crate::commands::starts_hash;
use crate::messages::Message;
use crate::messages::MessageModel;
use crate::messages::PrivMessage;
use crate::messages::PrivMessageModel;
use crate::messages::Receiver;
use crate::messages::ReceiverModel;
use crate::sender::strings_view;
use crate::user::User;
use crate::user::UserModel;
use crate::user::spec_is_fully_identified;
use crate::user::spec_snapshot_of;

verus! {

/// What PRIVMSG leaves behind: unregistered sessions are told to
/// authenticate first; too few arguments do nothing; otherwise one
/// private-message event is emitted, addressed to a channel or a user.
pub open spec fn privmsg_post(
    args: Seq<Seq<char>>,
    authenticated: bool,
    u: UserModel,
    acts: Seq<IrcActionModel>,
) -> bool {
    if !authenticated {
        acts == seq![IrcActionModel::ErrorAuthenticateFirst]
    } else if args.len() < 2 {
        acts == seq![IrcActionModel::DoNothing]
    } else {
        acts == seq![
            IrcActionModel::SendMessage(
                MessageModel::PrivMessage(
                    PrivMessageModel {
                        sender: spec_snapshot_of(u),
                        receiver: if starts_hash(args[0]) {
                            ReceiverModel::ChannelName(args[0])
                        } else {
                            ReceiverModel::Username(args[0])
                        },
                        text: args[1],
                    },
                ),
            ),
        ]
    }
}

/// The PRIVMSG handler.
pub struct PrivMsg;

impl PrivMsg {
    /// Emits the private-message event.
    pub fn handle(&self, command: &Vec<String>, authenticated: bool, user_state: &User) -> (actions: Vec<IrcAction>)
        requires
            authenticated ==> spec_is_fully_identified(user_state@),
        ensures
            privmsg_post(
                strings_view(command@),
                authenticated,
                user_state@,
                actions_view(actions@),
            ),
    {
        let mut actions: Vec<IrcAction> = Vec::new();
        if !authenticated {
            actions.push(IrcAction::ErrorAuthenticateFirst);
            proof {
                assert(actions_view(actions@) =~= seq![IrcActionModel::ErrorAuthenticateFirst]);
            }
            return actions;
        }
        if command.len() < 2 {
            actions.push(IrcAction::DoNothing);
            proof {
                assert(actions_view(actions@) =~= seq![IrcActionModel::DoNothing]);
            }
            return actions;
        }
        let receiver = if crate::commands::starts_hash_exec(&command[0]) {
            Receiver::ChannelName(command[0].clone())
        } else {
            Receiver::Username(command[0].clone())
        };
        let message = PrivMessage {
            sender: user_state.unwrap_all(),
            receiver,
            text: command[1].clone(),
        };
        actions.push(IrcAction::SendMessage(Message::PrivMessage(message)));
        proof {
            assert(actions_view(actions@) =~~= seq![
                IrcActionModel::SendMessage(
                    MessageModel::PrivMessage(
                        PrivMessageModel {
                            sender: spec_snapshot_of(user_state@),
                            receiver: if starts_hash(strings_view(command@)[0]) {
                                ReceiverModel::ChannelName(strings_view(command@)[0])
                            } else {
                                ReceiverModel::Username(strings_view(command@)[0])
                            },
                            text: strings_view(command@)[1],
                        },
                    ),
                ),
            ]);
        }
        actions
    }
}

} // verus!
