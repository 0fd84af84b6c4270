//! Client command dispatch: a raw line parsed into a command and its
//! arguments, routed by uppercased name to one handler per command, which
//! returns declarative actions for the session to apply.  Handlers never
//! perform I/O themselves.
//!
//! Tokenization is on runs of whitespace; a token beginning with `':'`
//! starts a trailing argument that absorbs the rest of the line as one
//! final argument, re-joined with single spaces.  Only the marker's own
//! leading `':'` is stripped — the standard trailing-parameter
//! convention — so later tokens are kept exactly as they came.

use vstd::prelude::*;
use vstd::string::StrSliceExecFns;
use vstd::string::StringExecFns;
use crate::channels::Channel;
use crate::channels::ChannelModel;
use crate::error_structs::CommandExecError;
use crate::messages::Message;
use crate::messages::MessageModel;
use crate::config::ServerInfo;
use crate::registries::Channels;
use crate::sender::IrcResponse;
use crate::sender::IrcResponseModel;
use crate::sender::strings_view;
use crate::text::str_eq;
use crate::text::tokenize;
use crate::text::tokens_of;
use crate::text::upper_of;
use crate::text::uppercase;
use crate::user::spec_is_fully_identified;
use crate::user::spec_is_populated;

pub mod cap;
pub mod join;
pub mod nick;
pub mod pass;
pub mod ping;
pub mod privmsg;
pub mod user;
pub mod who;

verus! {

/// Whether a token begins the trailing argument.
pub open spec fn starts_colon(t: Seq<char>) -> bool {
    t.len() > 0 && t[0] == ':'
}

/// The token with a leading `':'` stripped, if it carries one.
pub open spec fn strip_colon(t: Seq<char>) -> Seq<char> {
    if starts_colon(t) {
        t.subrange(1, t.len() as int)
    } else {
        t
    }
}

/// The trailing argument built from these tokens: the first is the
/// marker and loses its leading `':'`; the rest are absorbed verbatim,
/// re-joined with single spaces.
pub open spec fn trailing_of(ts: Seq<Seq<char>>) -> Seq<char>
    decreases ts.len(),
{
    if ts.len() == 0 {
        Seq::empty()
    } else if ts.len() == 1 {
        strip_colon(ts[0])
    } else {
        trailing_of(ts.drop_last()) + seq![' '] + ts.last()
    }
}

/// The arguments built from the tokens after the command: one argument
/// per token until a token begins with `':'`, which starts the trailing
/// argument absorbing the rest.
pub open spec fn args_of(ts: Seq<Seq<char>>) -> Seq<Seq<char>>
    decreases ts.len(),
{
    if ts.len() == 0 {
        Seq::empty()
    } else if !starts_colon(ts[0]) {
        seq![ts[0]] + args_of(ts.subrange(1, ts.len() as int))
    } else {
        seq![trailing_of(ts)]
    }
}

/// Whether a token names a channel: it starts with `'#'`.
pub open spec fn starts_hash(t: Seq<char>) -> bool {
    t.len() > 0 && t[0] == '#'
}

/// The exec form of [`starts_hash`].
pub fn starts_hash_exec(t: &String) -> (b: bool)
    ensures
        b == starts_hash(t@),
{
    let n = t.as_str().unicode_len();
    n > 0 && t.as_str().get_char(0) == '#'
}

/// The views of a vector of channels.
pub open spec fn channels_view(v: Seq<Channel>) -> Seq<ChannelModel> {
    Seq::new(v.len(), |i: int| v[i]@)
}

/// The mathematical shape of an action.
#[verifier::ext_equal]
pub ghost enum IrcActionModel {
    SendText(IrcResponseModel),
    JoinChannels(Seq<ChannelModel>),
    SendMessage(MessageModel),
    ErrorAuthenticateFirst,
    UpgradeToServerLink,
    DoNothing,
}

/// A declarative action a handler asks the session to apply: send a
/// line, render joined channels, publish an event, complain that
/// registration is missing, promote the connection to a server link, or
/// nothing.
#[derive(Debug)]
pub enum IrcAction {
    SendText(IrcResponse),
    JoinChannels(Vec<Channel>),
    SendMessage(Message),
    ErrorAuthenticateFirst,
    UpgradeToServerLink,
    DoNothing,
}

impl View for IrcAction {
    type V = IrcActionModel;

    open spec fn view(&self) -> IrcActionModel {
        match self {
            IrcAction::SendText(r) => IrcActionModel::SendText(r@),
            IrcAction::JoinChannels(v) => IrcActionModel::JoinChannels(channels_view(v@)),
            IrcAction::SendMessage(m) => IrcActionModel::SendMessage(m@),
            IrcAction::ErrorAuthenticateFirst => IrcActionModel::ErrorAuthenticateFirst,
            IrcAction::UpgradeToServerLink => IrcActionModel::UpgradeToServerLink,
            IrcAction::DoNothing => IrcActionModel::DoNothing,
        }
    }
}

/// The views of a vector of actions.
pub open spec fn actions_view(v: Seq<IrcAction>) -> Seq<IrcActionModel> {
    Seq::new(v.len(), |i: int| v[i]@)
}

/// A parsed inbound line: the command token and its arguments.
#[derive(Debug)]
pub struct IrcCommand {
    pub command: String,
    pub arguments: Vec<String>,
}

/// A plain chat line attributed to a sender.
pub struct IrcMessage {
    pub sender: String,
    pub message: String,
}

/// An optional reply text a handler may carry.
pub struct SendMessage(pub Option<String>);

/// The exec form of [`starts_colon`].
pub(crate) fn starts_colon_exec(t: &String) -> (b: bool)
    ensures
        b == starts_colon(t@),
{
    let n = t.as_str().unicode_len();
    n > 0 && t.as_str().get_char(0) == ':'
}

/// The exec form of [`strip_colon`].
pub(crate) fn strip_colon_exec(t: &String) -> (r: String)
    ensures
        r@ == strip_colon(t@),
{
    let n = t.as_str().unicode_len();
    if n > 0 && t.as_str().get_char(0) == ':' {
        String::from_str(t.as_str().substring_char(1, n))
    } else {
        t.clone()
    }
}

/// Builds the trailing argument from the tokens at `k` onward.
pub(crate) fn build_trailing(tokens: &Vec<String>, k: usize) -> (r: String)
    requires
        k < tokens@.len(),
    ensures
        r@ == trailing_of(strings_view(tokens@).subrange(k as int, tokens@.len() as int)),
{
    let ghost sv = strings_view(tokens@);
    let n = tokens.len();
    let mut buf = strip_colon_exec(&tokens[k]);
    proof {
        let one = sv.subrange(k as int, k + 1 as int);
        assert(one.len() == 1);
        assert(one[0] == sv[k as int]);
        assert(buf@ == trailing_of(one));
    }
    let mut j: usize = k + 1;
    while j < n
        invariant
            n == tokens@.len(),
            k < j <= tokens@.len(),
            sv == strings_view(tokens@),
            sv.len() == tokens@.len(),
            buf@ == trailing_of(sv.subrange(k as int, j as int)),
        decreases tokens@.len() - j,
    {
        proof {
            reveal_strlit(" ");
        }
        buf.append(" ");
        buf.append(tokens[j].as_str());
        proof {
            let pre = sv.subrange(k as int, j as int);
            let ext = sv.subrange(k as int, j + 1 as int);
            assert(ext.drop_last() =~= pre);
            assert(ext.last() == sv[j as int]);
            assert(buf@ =~= trailing_of(ext));
        }
        j += 1;
    }
    buf
}

/// Builds the argument list from the tokens at `k` onward.
pub(crate) fn build_args(tokens: &Vec<String>, k: usize) -> (args: Vec<String>)
    requires
        k <= tokens@.len(),
    ensures
        strings_view(args@) =~= args_of(
            strings_view(tokens@).subrange(k as int, tokens@.len() as int),
        ),
    decreases tokens@.len() - k,
{
    let ghost sv = strings_view(tokens@);
    if k == tokens.len() {
        let args: Vec<String> = Vec::new();
        proof {
            assert(sv.subrange(k as int, tokens@.len() as int).len() == 0);
        }
        args
    } else if !starts_colon_exec(&tokens[k]) {
        let mut args = build_args(tokens, k + 1);
        args.insert(0, tokens[k].clone());
        proof {
            let ts = sv.subrange(k as int, tokens@.len() as int);
            assert(ts[0] == sv[k as int]);
            assert(!starts_colon(ts[0]));
            assert(ts.subrange(1, ts.len() as int) =~= sv.subrange(
                k + 1 as int,
                tokens@.len() as int,
            ));
            assert(strings_view(args@) =~= args_of(ts));
        }
        args
    } else {
        let t = build_trailing(tokens, k);
        let mut args: Vec<String> = Vec::new();
        args.push(t);
        proof {
            let ts = sv.subrange(k as int, tokens@.len() as int);
            assert(ts[0] == sv[k as int]);
            assert(starts_colon(ts[0]));
            assert(strings_view(args@) =~= seq![trailing_of(ts)]);
        }
        args
    }
}

impl IrcCommand {
    /// Routes the parsed command to its handler by uppercased name; an
    /// unknown name is an error the caller renders, never a crash.  Only
    /// JOIN touches the channel registry, only NICK and USER touch the
    /// session record, and every outcome is the routed handler's.
    ///
    /// The session machine registers a session as soon as it becomes
    /// populated, so a populated record here always carries its
    /// identifier already — the handlers that freeze a snapshot rely on
    /// that.
    pub fn dispatch(
        &self,
        user_state: &mut crate::user::User,
        channels: &mut Channels,
        info: &ServerInfo,
    ) -> (r: Result<Vec<IrcAction>, CommandExecError>)
        requires
            old(channels).wf(),
            spec_is_populated(old(user_state)@) ==> spec_is_fully_identified(old(user_state)@),
        ensures
            final(channels).wf(),
            ({
                let cmd = upper_of(self.command@);
                let args = strings_view(self.arguments@);
                let auth = spec_is_populated(old(user_state)@);
                &&& cmd == "CAP"@ ==> r is Ok && actions_view(r->Ok_0@) == seq![
                    IrcActionModel::DoNothing,
                ] && *final(user_state) == *old(user_state) && final(channels)@ == old(channels)@
                &&& cmd == "NICK"@ ==> r is Ok && crate::commands::nick::nick_post(
                    args,
                    old(user_state)@,
                    final(user_state)@,
                    actions_view(r->Ok_0@),
                ) && final(channels)@ == old(channels)@
                &&& cmd == "USER"@ ==> r is Ok && crate::commands::user::user_post(
                    args,
                    old(user_state)@,
                    final(user_state)@,
                    actions_view(r->Ok_0@),
                ) && final(channels)@ == old(channels)@
                &&& cmd == "PRIVMSG"@ ==> r is Ok && crate::commands::privmsg::privmsg_post(
                    args,
                    auth,
                    old(user_state)@,
                    actions_view(r->Ok_0@),
                ) && *final(user_state) == *old(user_state) && final(channels)@ == old(channels)@
                &&& cmd == "PING"@ ==> r is Ok && crate::commands::ping::ping_post(
                    args,
                    auth,
                    old(user_state)@,
                    actions_view(r->Ok_0@),
                ) && *final(user_state) == *old(user_state) && final(channels)@ == old(channels)@
                &&& cmd == "JOIN"@ ==> r is Ok && crate::commands::join::join_post(
                    args,
                    auth,
                    old(user_state)@,
                    old(channels)@,
                    final(channels)@,
                    actions_view(r->Ok_0@),
                ) && *final(user_state) == *old(user_state)
                &&& cmd == "PASS"@ ==> r is Ok && crate::commands::pass::pass_post(
                    args,
                    info@,
                    actions_view(r->Ok_0@),
                ) && *final(user_state) == *old(user_state) && final(channels)@ == old(channels)@
                &&& cmd == "WHO"@ ==> r is Ok && actions_view(r->Ok_0@) == seq![
                    IrcActionModel::DoNothing,
                ] && *final(user_state) == *old(user_state) && final(channels)@ == old(channels)@
                &&& (cmd != "CAP"@ && cmd != "NICK"@ && cmd != "USER"@ && cmd != "PRIVMSG"@ && cmd
                    != "PING"@ && cmd != "JOIN"@ && cmd != "PASS"@ && cmd != "WHO"@) ==> r is Err
                    && r->Err_0 == CommandExecError::NonexistantCommand && *final(user_state)
                    == *old(user_state) && final(channels)@ == old(channels)@
            }),
    {
        proof {
            reveal_strlit("CAP");
            reveal_strlit("NICK");
            reveal_strlit("USER");
            reveal_strlit("PRIVMSG");
            reveal_strlit("PING");
            reveal_strlit("JOIN");
            reveal_strlit("PASS");
            reveal_strlit("WHO");
            assert("CAP"@ =~= seq!['C', 'A', 'P']);
            assert("NICK"@ =~= seq!['N', 'I', 'C', 'K']);
            assert("USER"@ =~= seq!['U', 'S', 'E', 'R']);
            assert("PRIVMSG"@ =~= seq!['P', 'R', 'I', 'V', 'M', 'S', 'G']);
            assert("PING"@ =~= seq!['P', 'I', 'N', 'G']);
            assert("JOIN"@ =~= seq!['J', 'O', 'I', 'N']);
            assert("PASS"@ =~= seq!['P', 'A', 'S', 'S']);
            assert("WHO"@ =~= seq!['W', 'H', 'O']);
        }
        let upper = uppercase(self.command.as_str());
        let authenticated = user_state.is_populated();
        if str_eq(upper.as_str(), "CAP") {
            Ok((cap::Cap).handle(&self.arguments, authenticated))
        } else if str_eq(upper.as_str(), "NICK") {
            let acts = (nick::Nick).handle(&self.arguments, authenticated, user_state);
            proof {
                assert(crate::commands::nick::nick_post(
                    strings_view(self.arguments@),
                    old(user_state)@,
                    user_state@,
                    actions_view(acts@),
                ));
            }
            Ok(acts)
        } else if str_eq(upper.as_str(), "USER") {
            Ok((user::User).handle(&self.arguments, authenticated, user_state))
        } else if str_eq(upper.as_str(), "PRIVMSG") {
            Ok((privmsg::PrivMsg).handle(&self.arguments, authenticated, user_state))
        } else if str_eq(upper.as_str(), "PING") {
            Ok((ping::Ping).handle(&self.arguments, authenticated, user_state))
        } else if str_eq(upper.as_str(), "JOIN") {
            Ok((join::Join).handle(&self.arguments, authenticated, user_state, channels))
        } else if str_eq(upper.as_str(), "PASS") {
            Ok((pass::Pass).handle(&self.arguments, authenticated, info))
        } else if str_eq(upper.as_str(), "WHO") {
            Ok((who::Who).handle(&self.arguments, authenticated))
        } else {
            Err(CommandExecError::NonexistantCommand)
        }
    }

    /// Parses a raw line into its command token and arguments; a line
    /// with no token at all carries no command.
    pub fn new(command_with_arguments: &str) -> (r: Option<IrcCommand>)
        ensures
            r is Some <==> tokens_of(command_with_arguments@).len() > 0,
            r is Some ==> r->Some_0.command@ == tokens_of(command_with_arguments@)[0],
            r is Some ==> strings_view(r->Some_0.arguments@) =~= args_of(
                tokens_of(command_with_arguments@).subrange(
                    1,
                    tokens_of(command_with_arguments@).len() as int,
                ),
            ),
    {
        let tokens = tokenize(command_with_arguments);
        if tokens.len() == 0 {
            return Option::None;
        }
        proof {
            assert(strings_view(tokens@) =~= tokens_of(command_with_arguments@));
        }
        let command = tokens[0].clone();
        let arguments = build_args(&tokens, 1);
        Option::Some(IrcCommand { command, arguments })
    }
}

} // verus!
