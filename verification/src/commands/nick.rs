//! The NICK command: sets the nickname from argument 0, with no
//! validation beyond its presence.

use vstd::prelude::*;
use crate::commands::IrcAction;
use crate::commands::IrcActionModel;
use crate::commands::actions_view;
use crate::sender::strings_view;
use crate::user::User;
use crate::user::UserModel;

verus! {

/// What NICK leaves behind: with no argument, nothing changes; with one,
/// the nickname is set to it and everything else is kept.  Either way the
/// single action is to do nothing further.
pub open spec fn nick_post(
    args: Seq<Seq<char>>,
    old_u: UserModel,
    new_u: UserModel,
    acts: Seq<IrcActionModel>,
) -> bool {
    &&& acts == seq![IrcActionModel::DoNothing]
    &&& if args.len() == 0 {
        new_u == old_u
    } else {
        new_u == UserModel { nickname: Option::Some(args[0]), ..old_u }
    }
}

/// The NICK handler.
pub struct Nick;

impl Nick {
    /// Sets the nickname, if an argument is present.
    pub fn handle(&self, command: &Vec<String>, _authenticated: bool, user_state: &mut User) -> (actions: Vec<IrcAction>)
        ensures
            nick_post(
                strings_view(command@),
                old(user_state)@,
                final(user_state)@,
                actions_view(actions@),
            ),
    {
        if command.len() > 0 {
            user_state.nickname = Option::Some(command[0].clone());
        }
        let mut actions: Vec<IrcAction> = Vec::new();
        actions.push(IrcAction::DoNothing);
        proof {
            assert(actions_view(actions@) =~= seq![IrcActionModel::DoNothing]);
        }
        actions
    }
}

} // verus!
