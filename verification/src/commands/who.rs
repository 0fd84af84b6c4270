//! The WHO command: a stub, accepted as a no-op.

use vstd::prelude::*;
use crate::commands::IrcAction;
use crate::commands::IrcActionModel;
use crate::commands::actions_view;

verus! {

/// The WHO handler.
pub struct Who;

impl Who {
    /// Accepts and ignores the command.
    pub fn handle(&self, _command: &Vec<String>, _authenticated: bool) -> (actions: Vec<IrcAction>)
        ensures
            actions_view(actions@) == seq![IrcActionModel::DoNothing],
    {
        let mut actions: Vec<IrcAction> = Vec::new();
        actions.push(IrcAction::DoNothing);
        proof {
            assert(actions_view(actions@) =~= seq![IrcActionModel::DoNothing]);
        }
        actions
    }
}

} // verus!
