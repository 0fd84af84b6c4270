//! The USER command: with at least 4 arguments, sets the username from
//! argument 0 and the realname from argument 3; with fewer it is a
//! silent no-op, an accepted gap rather than an error reply.

use vstd::prelude::*;
use crate::commands::IrcAction;
use crate::commands::IrcActionModel;
use crate::commands::actions_view;
use crate::sender::strings_view;
use crate::user::UserModel;

verus! {

/// What USER leaves behind.
pub open spec fn user_post(
    args: Seq<Seq<char>>,
    old_u: UserModel,
    new_u: UserModel,
    acts: Seq<IrcActionModel>,
) -> bool {
    &&& acts == seq![IrcActionModel::DoNothing]
    &&& if args.len() < 4 {
        new_u == old_u
    } else {
        new_u == UserModel {
            username: Option::Some(args[0]),
            realname: Option::Some(args[3]),
            ..old_u
        }
    }
}

/// The USER handler.
pub struct User;

impl User {
    /// Sets username and realname, given enough arguments.
    pub fn handle(
        &self,
        command: &Vec<String>,
        _authenticated: bool,
        user_state: &mut crate::user::User,
    ) -> (actions: Vec<IrcAction>)
        ensures
            user_post(
                strings_view(command@),
                old(user_state)@,
                final(user_state)@,
                actions_view(actions@),
            ),
    {
        if command.len() >= 4 {
            user_state.username = Option::Some(command[0].clone());
            user_state.realname = Option::Some(command[3].clone());
        }
        let mut actions: Vec<IrcAction> = Vec::new();
        actions.push(IrcAction::DoNothing);
        proof {
            assert(actions_view(actions@) =~= seq![IrcActionModel::DoNothing]);
        }
        actions
    }
}

} // verus!
