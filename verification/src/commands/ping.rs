//! The PING command: a populated session gets a PONG echoing the
//! argument; anyone else gets nothing.

use vstd::prelude::*;
use vstd::string::StringExecFns;
use crate::commands::IrcAction;
use crate::commands::IrcActionModel;
use crate::commands::actions_view;
use crate::sender::IrcResponse;
use crate::sender::IrcResponseModel;
use crate::sender::strings_view;
use crate::user::User;
use crate::user::UserModel;
use crate::user::spec_is_populated;

verus! {

/// What PING leaves behind: the session untouched, and a PONG addressed
/// to the session's username, echoing `':'` and the argument, exactly
/// when the session is populated and an argument is present.
pub open spec fn ping_post(
    args: Seq<Seq<char>>,
    authenticated: bool,
    u: UserModel,
    acts: Seq<IrcActionModel>,
) -> bool {
    if authenticated && args.len() > 0 {
        acts == seq![
            IrcActionModel::SendText(
                IrcResponseModel {
                    sender: Option::None,
                    command: "PONG"@,
                    receiver: Option::Some(u.username->Some_0),
                    arguments: Seq::empty(),
                    message: seq![':'] + args[0],
                },
            ),
        ]
    } else {
        acts == seq![IrcActionModel::DoNothing]
    }
}

/// The PING handler.
pub struct Ping;

impl Ping {
    /// Replies PONG to a populated session.
    pub fn handle(&self, command: &Vec<String>, authenticated: bool, user_state: &User) -> (actions: Vec<IrcAction>)
        requires
            authenticated ==> spec_is_populated(user_state@),
        ensures
            ping_post(strings_view(command@), authenticated, user_state@, actions_view(actions@)),
    {
        let mut actions: Vec<IrcAction> = Vec::new();
        if authenticated && command.len() > 0 {
            let receiver = match &user_state.username {
                Option::Some(s) => s.clone(),
                Option::None => unreached(),
            };
            let mut message = String::from_str(":");
            proof {
                reveal_strlit(":");
            }
            message.append(command[0].as_str());
            proof {
                assert(message@ =~= seq![':'] + command@[0]@);
            }
            actions.push(
                IrcAction::SendText(
                    IrcResponse {
                        sender: Option::None,
                        command: String::from_str("PONG"),
                        receiver: Option::Some(receiver),
                        arguments: Vec::new(),
                        message,
                    },
                ),
            );
            proof {
                assert(actions_view(actions@) =~~= seq![
                    IrcActionModel::SendText(
                        IrcResponseModel {
                            sender: Option::None,
                            command: "PONG"@,
                            receiver: Option::Some(user_state@.username->Some_0),
                            arguments: Seq::empty(),
                            message: seq![':'] + strings_view(command@)[0],
                        },
                    ),
                ]);
            }
        } else {
            actions.push(IrcAction::DoNothing);
            proof {
                assert(actions_view(actions@) =~= seq![IrcActionModel::DoNothing]);
            }
        }
        actions
    }
}

} // verus!
