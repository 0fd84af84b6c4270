//! The PASS command: an argument matching one of the acceptable incoming
//! link passwords answers with this server's outgoing password and
//! promotes the connection to a server link; on a mismatch nothing
//! happens and the connection stays an ordinary client connection — a
//! deliberately permissive gap.

use vstd::prelude::*;
use vstd::string::StringExecFns;
use crate::commands::IrcAction;
use crate::commands::IrcActionModel;
use crate::commands::actions_view;
use crate::config::ServerInfo;
use crate::config::ServerInfoModel;
use crate::sender::IrcResponse;
use crate::sender::IrcResponseModel;
use crate::sender::strings_view;

verus! {

/// Whether the offered password is among the acceptable incoming ones.
pub open spec fn pass_accepts(passwords: Seq<Seq<char>>, given: Seq<char>) -> bool {
    exists|i: int| 0 <= i < passwords.len() && #[trigger] passwords[i] == given
}

/// What PASS leaves behind: on a match, a PASS reply carrying the
/// outgoing password and the upgrade action; otherwise nothing.
pub open spec fn pass_post(
    args: Seq<Seq<char>>,
    info: ServerInfoModel,
    acts: Seq<IrcActionModel>,
) -> bool {
    if args.len() > 0 && pass_accepts(info.server_incoming_passwords, args[0]) {
        acts == seq![
            IrcActionModel::SendText(
                IrcResponseModel {
                    sender: Option::None,
                    command: "PASS"@,
                    receiver: Option::None,
                    arguments: Seq::empty(),
                    message: info.server_outgoing_password,
                },
            ),
            IrcActionModel::UpgradeToServerLink,
        ]
    } else {
        acts == seq![IrcActionModel::DoNothing]
    }
}

/// The PASS handler.
pub struct Pass;

impl Pass {
    /// Checks the offered password against the acceptable incoming set.
    pub fn handle(&self, command: &Vec<String>, _authenticated: bool, info: &ServerInfo) -> (actions: Vec<IrcAction>)
        ensures
            pass_post(strings_view(command@), info@, actions_view(actions@)),
    {
        let mut matched = false;
        if command.len() > 0 {
            let mut i: usize = 0;
            while i < info.server_incoming_passwords.len()
                invariant
                    i <= info.server_incoming_passwords@.len(),
                    command@.len() > 0,
                    info@.server_incoming_passwords.len()
                        == info.server_incoming_passwords@.len(),
                    !matched ==> forall|k: int|
                        0 <= k < i ==> #[trigger] info@.server_incoming_passwords[k]
                            != command@[0]@,
                    matched ==> pass_accepts(info@.server_incoming_passwords, command@[0]@),
                decreases info.server_incoming_passwords@.len() - i,
            {
                if info.server_incoming_passwords[i].eq(&command[0]) {
                    proof {
                        assert(info@.server_incoming_passwords[i as int] == command@[0]@);
                    }
                    matched = true;
                }
                i += 1;
            }
        }
        let mut actions: Vec<IrcAction> = Vec::new();
        if matched {
            actions.push(
                IrcAction::SendText(
                    IrcResponse {
                        sender: Option::None,
                        command: String::from_str("PASS"),
                        receiver: Option::None,
                        arguments: Vec::new(),
                        message: info.server_outgoing_password.clone(),
                    },
                ),
            );
            actions.push(IrcAction::UpgradeToServerLink);
            proof {
                assert(actions_view(actions@) =~~= seq![
                    IrcActionModel::SendText(
                        IrcResponseModel {
                            sender: Option::None,
                            command: "PASS"@,
                            receiver: Option::None,
                            arguments: Seq::empty(),
                            message: info@.server_outgoing_password,
                        },
                    ),
                    IrcActionModel::UpgradeToServerLink,
                ]);
            }
        } else {
            actions.push(IrcAction::DoNothing);
            proof {
                assert(actions_view(actions@) =~= seq![IrcActionModel::DoNothing]);
            }
        }
        actions
    }
}

} // verus!
