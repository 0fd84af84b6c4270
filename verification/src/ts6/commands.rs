//! The server-link command set: parsing a peer line (with its optional
//! `:sender` prefix), one handler per command, and the dispatcher that
//! applies peer-state updates and hands the outward actions back.
//!
//! The handshake runs CAPAB (accepted and ignored), SERVER (peer
//! identity recorded, answered with our own SERVER line), SVINFO (both
//! versions must equal the protocol version, else the link must end);
//! steady state is PING/PONG, UID introducing a remote user, and
//! PRIVMSG relaying a message from a known remote user.

use vstd::prelude::*;
use vstd::string::StrSliceExecFns;
use vstd::string::StringExecFns;
use crate::commands::build_args;
use crate::commands::starts_colon;
use crate::commands::starts_colon_exec;
use crate::commands::args_of;
use crate::ids::ServerId;
use crate::ids::UserId;
use crate::ids::is_valid_server_id;
use crate::ids::is_valid_user_id;
use crate::messages::Message;
use crate::messages::MessageModel;
use crate::messages::PrivMessage;
use crate::messages::PrivMessageModel;
use crate::messages::Receiver;
use crate::messages::ReceiverModel;
use crate::registries::ForeignUsers;
use crate::registries::has_user_id;
use crate::registries::user_id_index;
use crate::sender::IrcResponse;
use crate::sender::IrcResponseModel;
use crate::sender::strings_view;
use crate::text::all_dec_digits;
use crate::text::dec_string;
use crate::text::digits_value;
use crate::text::parse_dec;
use crate::text::remove_colons;
use crate::text::spec_dec_string;
use crate::text::spec_remove_colons;
use crate::text::str_eq;
use crate::text::tokenize;
use crate::text::tokens_of;
use crate::text::upper_of;
use crate::text::uppercase;
use crate::ts6::Ts6;
use crate::ts6::Ts6Model;
use crate::user::RegisteredUserModel;
use crate::user::UserUnwrapped;
use crate::usermodes::Usermode;
use crate::usermodes::Usermodes;

verus! {

/// The protocol version this daemon speaks; both versions a peer sends
/// in SVINFO must equal it.
pub const TS_PROTOCOL_VERSION: u64 = 6;

/// A failure while handling a peer line.  A version mismatch and a
/// malformed command terminate the link; an unknown command is reported
/// and the link lives on.
#[derive(Clone, Copy, Debug, PartialEq, Eq, Structural)]
pub enum Ts6Error {
    NonexistentCommand,
    VersionMismatch,
    MalformedCommand,
}

/// The mathematical shape of a command's sender prefix.
pub ghost enum CommandSenderModel {
    User(Seq<char>),
    Server(Seq<char>),
}

/// Who a peer line says it is from: a user or a server.
#[derive(Clone, Debug)]
pub enum CommandSender {
    User(UserId),
    Server(ServerId),
}

impl View for CommandSender {
    type V = CommandSenderModel;

    open spec fn view(&self) -> CommandSenderModel {
        match self {
            CommandSender::User(u) => CommandSenderModel::User(u@),
            CommandSender::Server(s) => CommandSenderModel::Server(s@),
        }
    }
}

/// The view of an optional sender prefix.
pub open spec fn opt_sender_view(o: Option<CommandSender>) -> Option<CommandSenderModel> {
    match o {
        Option::Some(s) => Option::Some(s@),
        Option::None => Option::None,
    }
}

/// The mathematical shape of a peer-state update.
#[verifier::ext_equal]
pub ghost struct Ts6InfoModel {
    pub sid: Option<Seq<char>>,
    pub hopcount: Option<u16>,
    pub description: Option<Seq<char>>,
    pub name: Option<Seq<char>>,
    pub identified: Option<bool>,
}

/// A partial update of the recorded peer state: present fields
/// overwrite, absent fields keep what was there.
#[derive(Clone, Debug)]
pub struct Ts6Info {
    pub sid: Option<ServerId>,
    pub hopcount: Option<u16>,
    pub description: Option<String>,
    pub name: Option<String>,
    pub identified: Option<bool>,
}

impl View for Ts6Info {
    type V = Ts6InfoModel;

    open spec fn view(&self) -> Ts6InfoModel {
        Ts6InfoModel {
            sid: match self.sid {
                Option::Some(ref s) => Option::Some(s@),
                Option::None => Option::None,
            },
            hopcount: self.hopcount,
            description: crate::user::opt_str_view(self.description),
            name: crate::user::opt_str_view(self.name),
            identified: self.identified,
        }
    }
}

/// The peer state after one update is applied.
pub open spec fn spec_apply_info(t: Ts6Model, i: Ts6InfoModel) -> Ts6Model {
    Ts6Model {
        server_id: if i.sid is Some {
            i.sid
        } else {
            t.server_id
        },
        hopcount: if i.hopcount is Some {
            i.hopcount->Some_0
        } else {
            t.hopcount
        },
        description: if i.description is Some {
            i.description->Some_0
        } else {
            t.description
        },
        hostname: if i.name is Some {
            i.name->Some_0
        } else {
            t.hostname
        },
        identified: if i.identified is Some {
            i.identified->Some_0
        } else {
            t.identified
        },
    }
}

/// Applies one update to the recorded peer state.
pub fn apply_info(ts6: &mut Ts6, info: Ts6Info)
    ensures
        final(ts6)@ == spec_apply_info(old(ts6)@, info@),
{
    match info.sid {
        Option::Some(s) => {
            ts6.server_id = Option::Some(s);
        },
        Option::None => {},
    }
    match info.hopcount {
        Option::Some(h) => {
            ts6.hopcount = h;
        },
        Option::None => {},
    }
    match info.description {
        Option::Some(d) => {
            ts6.description = d;
        },
        Option::None => {},
    }
    match info.name {
        Option::Some(n) => {
            ts6.hostname = n;
        },
        Option::None => {},
    }
    match info.identified {
        Option::Some(b) => {
            ts6.identified = b;
        },
        Option::None => {},
    }
    proof {
        assert(ts6@ =~= spec_apply_info(old(ts6)@, info@));
    }
}

/// The mathematical shape of a link action.
#[verifier::ext_equal]
pub ghost enum Ts6ActionModel {
    SetInfo(Ts6InfoModel),
    SendText(IrcResponseModel),
    SendMessage(MessageModel),
    DoNothing,
}

/// A declarative action a link handler asks for: update the recorded
/// peer state, send a line, publish an event, or nothing.
#[derive(Debug)]
pub enum Ts6Action {
    SetInfo(Ts6Info),
    SendText(IrcResponse),
    SendMessage(Message),
    DoNothing,
}

impl View for Ts6Action {
    type V = Ts6ActionModel;

    open spec fn view(&self) -> Ts6ActionModel {
        match self {
            Ts6Action::SetInfo(i) => Ts6ActionModel::SetInfo(i@),
            Ts6Action::SendText(r) => Ts6ActionModel::SendText(r@),
            Ts6Action::SendMessage(m) => Ts6ActionModel::SendMessage(m@),
            Ts6Action::DoNothing => Ts6ActionModel::DoNothing,
        }
    }
}

/// The views of a vector of link actions.
pub open spec fn ts6_actions_view(v: Seq<Ts6Action>) -> Seq<Ts6ActionModel> {
    Seq::new(v.len(), |i: int| v[i]@)
}

/// The view of a handler result.
pub open spec fn result_view(r: Result<Vec<Ts6Action>, Ts6Error>) -> Result<
    Seq<Ts6ActionModel>,
    Ts6Error,
> {
    match r {
        Result::Ok(v) => Result::Ok(ts6_actions_view(v@)),
        Result::Err(e) => Result::Err(e),
    }
}

/// A digit run whose value fits a hop count.
pub open spec fn spec_parses_u16(s: Seq<char>) -> bool {
    s.len() > 0 && all_dec_digits(s) && digits_value(s) <= u16::MAX
}

/// A digit run whose value fits a timestamp.
pub open spec fn spec_parses_u64(s: Seq<char>) -> bool {
    s.len() > 0 && all_dec_digits(s) && digits_value(s) <= u64::MAX
}

/// A digit run naming exactly the protocol version.
pub open spec fn spec_parses_to_version(s: Seq<char>) -> bool {
    s.len() > 0 && all_dec_digits(s) && digits_value(s) == TS_PROTOCOL_VERSION
}

/// The keepalive reply: PONG signed by this server's identifier,
/// echoing the argument.
pub open spec fn pong_line_model(sid: Seq<char>, arg: Seq<char>) -> IrcResponseModel {
    IrcResponseModel {
        sender: Option::None,
        command: "PONG"@,
        receiver: Option::None,
        arguments: Seq::empty(),
        message: sid + seq![' '] + arg,
    }
}

/// What PING leaves behind.
pub open spec fn ts6_ping_post(
    args: Seq<Seq<char>>,
    sid: Seq<char>,
    r: Result<Seq<Ts6ActionModel>, Ts6Error>,
) -> bool {
    if args.len() == 0 {
        r == Result::<Seq<Ts6ActionModel>, Ts6Error>::Err(Ts6Error::MalformedCommand)
    } else {
        r == Result::<Seq<Ts6ActionModel>, Ts6Error>::Ok(
            seq![Ts6ActionModel::SendText(pong_line_model(sid, args[0]))],
        )
    }
}

/// The update SERVER records: the announced name, hop count and
/// description, the peer identifier when it validates, and the link
/// marked identified.
pub open spec fn server_info_model(args: Seq<Seq<char>>) -> Ts6InfoModel {
    Ts6InfoModel {
        sid: if is_valid_server_id(args[2]) {
            Option::Some(args[2])
        } else {
            Option::None
        },
        hopcount: Option::Some(digits_value(args[1]) as u16),
        description: Option::Some(args[4]),
        name: Option::Some(args[0]),
        identified: Option::Some(true),
    }
}

/// Our own SERVER line answered back to the peer.
pub open spec fn server_reply_model(hostname: Seq<char>, sid: Seq<char>) -> IrcResponseModel {
    IrcResponseModel {
        sender: Option::Some(hostname),
        command: "SERVER"@,
        receiver: Option::None,
        arguments: seq![hostname, "1"@, sid, "+"@],
        message: ":TODO"@,
    }
}

/// What SERVER leaves behind.
pub open spec fn ts6_server_post(
    args: Seq<Seq<char>>,
    hostname: Seq<char>,
    sid: Seq<char>,
    r: Result<Seq<Ts6ActionModel>, Ts6Error>,
) -> bool {
    if args.len() < 5 || !spec_parses_u16(args[1]) {
        r == Result::<Seq<Ts6ActionModel>, Ts6Error>::Err(Ts6Error::MalformedCommand)
    } else {
        r == Result::<Seq<Ts6ActionModel>, Ts6Error>::Ok(
            seq![
                Ts6ActionModel::SetInfo(server_info_model(args)),
                Ts6ActionModel::SendText(server_reply_model(hostname, sid)),
            ],
        )
    }
}

/// Our SVINFO reply: the protocol version pair and the current time.
pub open spec fn svinfo_reply_model(now: u64) -> IrcResponseModel {
    IrcResponseModel {
        sender: Option::None,
        command: "SVINFO"@,
        receiver: Option::None,
        arguments: seq!["6"@, "6"@, "0"@],
        message: seq![':'] + spec_dec_string(now as int),
    }
}

/// What SVINFO leaves behind: a version pair other than exactly the
/// protocol version is a protocol violation that must end the link.
pub open spec fn ts6_svinfo_post(
    args: Seq<Seq<char>>,
    now: u64,
    r: Result<Seq<Ts6ActionModel>, Ts6Error>,
) -> bool {
    if args.len() < 2 {
        r == Result::<Seq<Ts6ActionModel>, Ts6Error>::Err(Ts6Error::MalformedCommand)
    } else if !(spec_parses_to_version(args[0]) && spec_parses_to_version(args[1])) {
        r == Result::<Seq<Ts6ActionModel>, Ts6Error>::Err(Ts6Error::VersionMismatch)
    } else {
        r == Result::<Seq<Ts6ActionModel>, Ts6Error>::Ok(
            seq![Ts6ActionModel::SendText(svinfo_reply_model(now))],
        )
    }
}

/// A user introduction that parses: enough arguments, a hop count and a
/// timestamp that fit, and a valid user identifier.
pub open spec fn uid_ok(args: Seq<Seq<char>>) -> bool {
    &&& args.len() >= 9
    &&& spec_parses_u16(args[1])
    &&& spec_parses_u64(args[2])
    &&& is_valid_user_id(args[8])
}

/// The snapshot a user introduction stores: the announced name serves as
/// nickname, username and realname alike, with the default mode set.
/// The address field is carried verbatim, as opaque text: this library
/// never parses addresses, so an unusual address is stored as the peer
/// sent it rather than replaced by a default — a deliberate choice,
/// since address parsing belongs to the platform and stays outside the
/// verified core.
pub open spec fn uid_snapshot_model(args: Seq<Seq<char>>) -> RegisteredUserModel {
    RegisteredUserModel {
        nickname: args[0],
        username: args[0],
        realname: args[0],
        identified: true,
        hopcount: digits_value(args[1]) as u16,
        user_id: args[8],
        usermodes: seq![Usermode::Invisible, Usermode::HostHiding],
        timestamp: digits_value(args[2]) as u64,
        ip: args[7],
    }
}

/// What PRIVMSG from a peer leaves behind.
pub open spec fn ts6_privmsg_post(
    args: Seq<Seq<char>>,
    sender: Option<CommandSenderModel>,
    foreign: Seq<RegisteredUserModel>,
    r: Result<Seq<Ts6ActionModel>, Ts6Error>,
) -> bool {
    if args.len() == 0 {
        r == Result::<Seq<Ts6ActionModel>, Ts6Error>::Err(Ts6Error::MalformedCommand)
    } else if !is_valid_user_id(args[0]) {
        r == Result::<Seq<Ts6ActionModel>, Ts6Error>::Ok(Seq::empty())
    } else if !(sender is Some && sender->Some_0 is User) {
        r == Result::<Seq<Ts6ActionModel>, Ts6Error>::Ok(Seq::empty())
    } else if !has_user_id(foreign, sender->Some_0->User_0) || args.len() < 2 {
        r == Result::<Seq<Ts6ActionModel>, Ts6Error>::Err(Ts6Error::MalformedCommand)
    } else {
        r == Result::<Seq<Ts6ActionModel>, Ts6Error>::Ok(
            seq![
                Ts6ActionModel::SendMessage(
                    MessageModel::PrivMessage(
                        PrivMessageModel {
                            sender: foreign[user_id_index(foreign, sender->Some_0->User_0)],
                            receiver: ReceiverModel::UserId(args[0]),
                            text: args[1],
                        },
                    ),
                ),
            ],
        )
    }
}

/// The CAPAB handler: capabilities are accepted and ignored, a stub
/// extension point.
pub struct Capab;

impl Capab {
    /// Accepts and ignores the capability list.
    pub fn handle(&self, _command: &Vec<String>) -> (r: Vec<Ts6Action>)
        ensures
            ts6_actions_view(r@) == seq![Ts6ActionModel::DoNothing],
    {
        let mut actions: Vec<Ts6Action> = Vec::new();
        actions.push(Ts6Action::DoNothing);
        proof {
            assert(ts6_actions_view(actions@) =~= seq![Ts6ActionModel::DoNothing]);
        }
        actions
    }
}

/// The keepalive handler.
pub struct Ping;

impl Ping {
    /// Echoes the argument back, signed by this server's identifier.
    pub fn handle(&self, command: &Vec<String>, my_sid: &ServerId) -> (r: Result<
        Vec<Ts6Action>,
        Ts6Error,
    >)
        ensures
            ts6_ping_post(strings_view(command@), my_sid@, result_view(r)),
    {
        if command.len() == 0 {
            return Err(Ts6Error::MalformedCommand);
        }
        let mut message = my_sid.into_string();
        proof {
            reveal_strlit(" ");
        }
        message.append(" ");
        message.append(command[0].as_str());
        proof {
            assert(message@ =~= my_sid@ + seq![' '] + strings_view(command@)[0]);
        }
        let mut actions: Vec<Ts6Action> = Vec::new();
        actions.push(
            Ts6Action::SendText(
                IrcResponse {
                    sender: Option::None,
                    command: String::from_str("PONG"),
                    receiver: Option::None,
                    arguments: Vec::new(),
                    message,
                },
            ),
        );
        proof {
            assert(ts6_actions_view(actions@) =~~= seq![
                Ts6ActionModel::SendText(
                    pong_line_model(my_sid@, strings_view(command@)[0]),
                ),
            ]);
        }
        Ok(actions)
    }
}

/// The peer-announcement handler.
pub struct Server;

impl Server {
    /// The update and the reply a peer announcement produces.
    fn compute(command: &Vec<String>, hostname: &str, my_sid: &ServerId) -> (r: Result<
        (Ts6Info, IrcResponse),
        Ts6Error,
    >)
        ensures
            ({
                let args = strings_view(command@);
                &&& (args.len() < 5 || !spec_parses_u16(args[1])) <==> r is Err
                &&& r is Err ==> r->Err_0 == Ts6Error::MalformedCommand
                &&& r is Ok ==> r->Ok_0.0@ == server_info_model(args) && r->Ok_0.1@
                    == server_reply_model(hostname@, my_sid@)
            }),
    {
        if command.len() < 5 {
            return Err(Ts6Error::MalformedCommand);
        }
        let hopcount = match parse_dec(command[1].as_str()) {
            Option::Some(h) => {
                if h > 65535 {
                    return Err(Ts6Error::MalformedCommand);
                }
                h as u16
            },
            Option::None => {
                return Err(Ts6Error::MalformedCommand);
            },
        };
        let sid = match ServerId::parse(command[2].as_str()) {
            Ok(s) => Option::Some(s),
            Err(_) => Option::None,
        };
        let info = Ts6Info {
            sid,
            hopcount: Option::Some(hopcount),
            description: Option::Some(command[4].clone()),
            name: Option::Some(command[0].clone()),
            identified: Option::Some(true),
        };
        let mut arguments: Vec<String> = Vec::new();
        arguments.push(String::from_str(hostname));
        arguments.push(String::from_str("1"));
        arguments.push(my_sid.into_string());
        arguments.push(String::from_str("+"));
        let reply = IrcResponse {
            sender: Option::Some(String::from_str(hostname)),
            command: String::from_str("SERVER"),
            receiver: Option::None,
            arguments,
            message: String::from_str(":TODO"),
        };
        proof {
            assert(info@ =~~= server_info_model(strings_view(command@)));
            assert(reply@ =~~= server_reply_model(hostname@, my_sid@));
        }
        Ok((info, reply))
    }

    /// Records the peer's name, hop count, identifier and description,
    /// marks the link identified, and answers with our own SERVER line.
    pub fn handle(&self, command: &Vec<String>, hostname: &str, my_sid: &ServerId) -> (r: Result<
        Vec<Ts6Action>,
        Ts6Error,
    >)
        ensures
            ts6_server_post(strings_view(command@), hostname@, my_sid@, result_view(r)),
    {
        match Self::compute(command, hostname, my_sid) {
            Ok((info, reply)) => {
                let mut actions: Vec<Ts6Action> = Vec::new();
                actions.push(Ts6Action::SetInfo(info));
                actions.push(Ts6Action::SendText(reply));
                proof {
                    assert(ts6_actions_view(actions@) =~~= seq![
                        Ts6ActionModel::SetInfo(server_info_model(strings_view(command@))),
                        Ts6ActionModel::SendText(server_reply_model(hostname@, my_sid@)),
                    ]);
                }
                Ok(actions)
            },
            Err(e) => Err(e),
        }
    }
}

/// The version-exchange handler.
pub struct Svinfo;

impl Svinfo {
    /// Checks the version pair against the protocol version; a mismatch
    /// must terminate the link, deterministically, not crash.  On
    /// agreement, answers with our own SVINFO carrying the current time.
    pub fn handle(&self, command: &Vec<String>, now: u64) -> (r: Result<Vec<Ts6Action>, Ts6Error>)
        ensures
            ts6_svinfo_post(strings_view(command@), now, result_view(r)),
    {
        if command.len() < 2 {
            return Err(Ts6Error::MalformedCommand);
        }
        let current_ok = match parse_dec(command[0].as_str()) {
            Option::Some(v) => v == TS_PROTOCOL_VERSION,
            Option::None => false,
        };
        let minimum_ok = match parse_dec(command[1].as_str()) {
            Option::Some(v) => v == TS_PROTOCOL_VERSION,
            Option::None => false,
        };
        if !(current_ok && minimum_ok) {
            return Err(Ts6Error::VersionMismatch);
        }
        let mut arguments: Vec<String> = Vec::new();
        arguments.push(String::from_str("6"));
        arguments.push(String::from_str("6"));
        arguments.push(String::from_str("0"));
        let mut message = String::from_str(":");
        proof {
            reveal_strlit(":");
        }
        let rendered = dec_string(now);
        message.append(rendered.as_str());
        proof {
            assert(message@ =~= seq![':'] + spec_dec_string(now as int));
        }
        let mut actions: Vec<Ts6Action> = Vec::new();
        actions.push(
            Ts6Action::SendText(
                IrcResponse {
                    sender: Option::None,
                    command: String::from_str("SVINFO"),
                    receiver: Option::None,
                    arguments,
                    message,
                },
            ),
        );
        proof {
            assert(ts6_actions_view(actions@) =~~= seq![
                Ts6ActionModel::SendText(svinfo_reply_model(now)),
            ]);
        }
        Ok(actions)
    }
}

/// The user-introduction handler.
pub struct Uid;

impl Uid {
    /// Stores the introduced remote user in the foreign registry; the
    /// introduction must carry a hop count, a timestamp and a user
    /// identifier that parse.  The address text is taken as it came
    /// (see [`uid_snapshot_model`]).
    pub fn handle(&self, command: &Vec<String>, foreign: &mut ForeignUsers) -> (r: Result<
        Vec<Ts6Action>,
        Ts6Error,
    >)
        requires
            old(foreign).wf(),
        ensures
            final(foreign).wf(),
            ({
                let args = strings_view(command@);
                &&& !uid_ok(args) ==> r is Err && r->Err_0 == Ts6Error::MalformedCommand && final(foreign)@ == old(foreign)@
                &&& uid_ok(args) ==> {
                    let snap = uid_snapshot_model(args);
                    &&& r is Ok && ts6_actions_view(r->Ok_0@) == Seq::<Ts6ActionModel>::empty()
                    &&& has_user_id(old(foreign)@, snap.user_id) ==> final(foreign)@ =~= old(foreign)@.update(user_id_index(old(foreign)@, snap.user_id), snap)
                    &&& !has_user_id(old(foreign)@, snap.user_id) ==> final(foreign)@ =~= old(foreign)@.push(snap)
                    &&& has_user_id(final(foreign)@, snap.user_id)
                }
            }),
    {
        if command.len() < 9 {
            return Err(Ts6Error::MalformedCommand);
        }
        let hopcount = match parse_dec(command[1].as_str()) {
            Option::Some(h) => {
                if h > 65535 {
                    return Err(Ts6Error::MalformedCommand);
                }
                h as u16
            },
            Option::None => {
                return Err(Ts6Error::MalformedCommand);
            },
        };
        let timestamp = match parse_dec(command[2].as_str()) {
            Option::Some(t) => t,
            Option::None => {
                return Err(Ts6Error::MalformedCommand);
            },
        };
        let user_id = match UserId::parse(command[8].as_str()) {
            Ok(u) => u,
            Err(_) => {
                return Err(Ts6Error::MalformedCommand);
            },
        };
        let username = command[0].clone();
        let user = UserUnwrapped {
            nickname: username.clone(),
            username: username.clone(),
            realname: username,
            identified: true,
            hopcount,
            user_id,
            usermodes: Usermodes::default(),
            timestamp,
            ip: command[7].clone(),
        };
        proof {
            assert(user@ =~= uid_snapshot_model(strings_view(command@)));
        }
        foreign.insert(user);
        Ok(Vec::new())
    }
}

/// The peer-relay handler.
pub struct Privmsg;

impl Privmsg {
    /// Relays a message from a known remote user to a local user
    /// identifier, as a locally published event.
    pub fn handle(
        &self,
        command: &Vec<String>,
        sender: &Option<CommandSender>,
        foreign: &ForeignUsers,
    ) -> (r: Result<Vec<Ts6Action>, Ts6Error>)
        requires
            foreign.wf(),
        ensures
            ts6_privmsg_post(
                strings_view(command@),
                opt_sender_view(*sender),
                foreign@,
                result_view(r),
            ),
    {
        if command.len() == 0 {
            return Err(Ts6Error::MalformedCommand);
        }
        let receiver_id = match UserId::parse(command[0].as_str()) {
            Ok(u) => u,
            Err(_) => {
                let empty: Vec<Ts6Action> = Vec::new();
                proof {
                    assert(ts6_actions_view(empty@) =~= Seq::<Ts6ActionModel>::empty());
                }
                return Ok(empty);
            },
        };
        let sender_id = match sender {
            Option::Some(CommandSender::User(uid)) => uid,
            _ => {
                let empty: Vec<Ts6Action> = Vec::new();
                proof {
                    assert(ts6_actions_view(empty@) =~= Seq::<Ts6ActionModel>::empty());
                }
                return Ok(empty);
            },
        };
        let sending_user = match foreign.get_by_user_id(sender_id) {
            Option::Some(u) => u,
            Option::None => {
                return Err(Ts6Error::MalformedCommand);
            },
        };
        if command.len() < 2 {
            return Err(Ts6Error::MalformedCommand);
        }
        let mut actions: Vec<Ts6Action> = Vec::new();
        actions.push(
            Ts6Action::SendMessage(
                Message::PrivMessage(
                    PrivMessage {
                        sender: sending_user,
                        receiver: Receiver::UserId(receiver_id),
                        text: command[1].clone(),
                    },
                ),
            ),
        );
        proof {
            let args = strings_view(command@);
            let suid = opt_sender_view(*sender)->Some_0->User_0;
            assert(ts6_actions_view(actions@) =~~= seq![
                Ts6ActionModel::SendMessage(
                    MessageModel::PrivMessage(
                        PrivMessageModel {
                            sender: foreign@[user_id_index(foreign@, suid)],
                            receiver: ReceiverModel::UserId(args[0]),
                            text: args[1],
                        },
                    ),
                ),
            ]);
        }
        Ok(actions)
    }
}

/// Where the sender prefix resolves: a colon-stripped token of server
/// or user identifier shape names a server or user; anything else is no
/// sender.
pub open spec fn spec_sender_of(tok: Seq<char>) -> Option<CommandSenderModel> {
    let stripped = spec_remove_colons(tok);
    if stripped.len() == 3 && is_valid_server_id(stripped) {
        Option::Some(CommandSenderModel::Server(stripped))
    } else if stripped.len() == 9 && is_valid_user_id(stripped) {
        Option::Some(CommandSenderModel::User(stripped))
    } else {
        Option::None
    }
}

/// A parsed peer line: the optional sender prefix, the command token
/// and its arguments.
#[derive(Debug)]
pub struct Ts6Command {
    pub command: String,
    pub arguments: Vec<String>,
    pub sender: Option<CommandSender>,
}

impl Ts6Command {
    /// Parses a raw peer line.  A token starting with `':'` names the
    /// sender; a line with no command token carries no command.
    pub fn new(command_with_arguments: &str) -> (r: Option<Ts6Command>)
        ensures
            ({
                let ts = tokens_of(command_with_arguments@);
                &&& r is Some <==> (ts.len() > 0 && (!starts_colon(ts[0]) || ts.len() > 1))
                &&& (r is Some && !starts_colon(ts[0])) ==> opt_sender_view(r->Some_0.sender)
                    is None && r->Some_0.command@ == ts[0] && strings_view(r->Some_0.arguments@)
                    =~= args_of(ts.subrange(1, ts.len() as int))
                &&& (r is Some && starts_colon(ts[0])) ==> opt_sender_view(r->Some_0.sender)
                    == spec_sender_of(ts[0]) && r->Some_0.command@ == ts[1] && strings_view(
                    r->Some_0.arguments@,
                ) =~= args_of(ts.subrange(2, ts.len() as int))
            }),
    {
        let tokens = tokenize(command_with_arguments);
        if tokens.len() == 0 {
            return Option::None;
        }
        proof {
            assert(strings_view(tokens@) =~= tokens_of(command_with_arguments@));
        }
        if starts_colon_exec(&tokens[0]) {
            if tokens.len() == 1 {
                return Option::None;
            }
            let stripped = remove_colons(tokens[0].as_str());
            let sender = if stripped.as_str().unicode_len() == 3 {
                match ServerId::parse(stripped.as_str()) {
                    Ok(sid) => Option::Some(CommandSender::Server(sid)),
                    Err(_) => Option::None,
                }
            } else if stripped.as_str().unicode_len() == 9 {
                match UserId::parse(stripped.as_str()) {
                    Ok(uid) => Option::Some(CommandSender::User(uid)),
                    Err(_) => Option::None,
                }
            } else {
                Option::None
            };
            let command = tokens[1].clone();
            let arguments = build_args(&tokens, 2);
            Option::Some(Ts6Command { command, arguments, sender })
        } else {
            let command = tokens[0].clone();
            let arguments = build_args(&tokens, 1);
            Option::Some(Ts6Command { command, arguments, sender: Option::None })
        }
    }

    /// Routes the parsed peer command by uppercased name, applies any
    /// peer-state update to the link, and hands back the outward
    /// actions; an unknown name is reported, not crashed on.
    pub fn execute(
        &self,
        ts6: &mut Ts6,
        hostname: &str,
        my_sid: &ServerId,
        foreign: &mut ForeignUsers,
        now: u64,
    ) -> (r: Result<Vec<Ts6Action>, Ts6Error>)
        requires
            old(foreign).wf(),
        ensures
            final(foreign).wf(),
            ({
                let cmd = upper_of(self.command@);
                let args = strings_view(self.arguments@);
                &&& cmd == "CAPAB"@ ==> r is Ok && ts6_actions_view(r->Ok_0@) == seq![
                    Ts6ActionModel::DoNothing,
                ] && *final(ts6) == *old(ts6) && final(foreign)@ == old(foreign)@
                &&& cmd == "PING"@ ==> ts6_ping_post(args, my_sid@, result_view(r)) && *final(ts6)
                    == *old(ts6) && final(foreign)@ == old(foreign)@
                &&& cmd == "SVINFO"@ ==> ts6_svinfo_post(args, now, result_view(r)) && *final(ts6)
                    == *old(ts6) && final(foreign)@ == old(foreign)@
                &&& cmd == "SERVER"@ ==> final(foreign)@ == old(foreign)@ && (if args.len() < 5
                    || !spec_parses_u16(args[1]) {
                    r is Err && r->Err_0 == Ts6Error::MalformedCommand && *final(ts6) == *old(ts6)
                } else {
                    r is Ok && ts6_actions_view(r->Ok_0@) == seq![
                        Ts6ActionModel::SendText(server_reply_model(hostname@, my_sid@)),
                    ] && final(ts6)@ == spec_apply_info(old(ts6)@, server_info_model(args))
                })
                &&& cmd == "UID"@ ==> *final(ts6) == *old(ts6) && (if !uid_ok(args) {
                    r is Err && r->Err_0 == Ts6Error::MalformedCommand && final(foreign)@ == old(foreign)@
                } else {
                    let snap = uid_snapshot_model(args);
                    &&& r is Ok && ts6_actions_view(r->Ok_0@) == Seq::<Ts6ActionModel>::empty()
                    &&& has_user_id(old(foreign)@, snap.user_id) ==> final(foreign)@ =~= old(foreign)@.update(user_id_index(old(foreign)@, snap.user_id), snap)
                    &&& !has_user_id(old(foreign)@, snap.user_id) ==> final(foreign)@ =~= old(foreign)@.push(snap)
                    &&& has_user_id(final(foreign)@, snap.user_id)
                })
                &&& cmd == "PRIVMSG"@ ==> ts6_privmsg_post(
                    args,
                    opt_sender_view(self.sender),
                    old(foreign)@,
                    result_view(r),
                ) && *final(ts6) == *old(ts6) && final(foreign)@ == old(foreign)@
                &&& (cmd != "CAPAB"@ && cmd != "PING"@ && cmd != "SVINFO"@ && cmd != "SERVER"@
                    && cmd != "UID"@ && cmd != "PRIVMSG"@) ==> r is Err && r->Err_0
                    == Ts6Error::NonexistentCommand && *final(ts6) == *old(ts6) && final(foreign)@
                    == old(foreign)@
            }),
    {
        proof {
            reveal_strlit("CAPAB");
            reveal_strlit("PING");
            reveal_strlit("SVINFO");
            reveal_strlit("SERVER");
            reveal_strlit("UID");
            reveal_strlit("PRIVMSG");
            assert("CAPAB"@ =~= seq!['C', 'A', 'P', 'A', 'B']);
            assert("PING"@ =~= seq!['P', 'I', 'N', 'G']);
            assert("SVINFO"@ =~= seq!['S', 'V', 'I', 'N', 'F', 'O']);
            assert("SERVER"@ =~= seq!['S', 'E', 'R', 'V', 'E', 'R']);
            assert("UID"@ =~= seq!['U', 'I', 'D']);
            assert("PRIVMSG"@ =~= seq!['P', 'R', 'I', 'V', 'M', 'S', 'G']);
        }
        let upper = uppercase(self.command.as_str());
        if str_eq(upper.as_str(), "CAPAB") {
            Ok((Capab).handle(&self.arguments))
        } else if str_eq(upper.as_str(), "PING") {
            (Ping).handle(&self.arguments, my_sid)
        } else if str_eq(upper.as_str(), "SVINFO") {
            (Svinfo).handle(&self.arguments, now)
        } else if str_eq(upper.as_str(), "SERVER") {
            match Server::compute(&self.arguments, hostname, my_sid) {
                Ok((info, reply)) => {
                    apply_info(ts6, info);
                    let mut acts: Vec<Ts6Action> = Vec::new();
                    acts.push(Ts6Action::SendText(reply));
                    proof {
                        assert(ts6_actions_view(acts@) =~= seq![
                            Ts6ActionModel::SendText(server_reply_model(hostname@, my_sid@)),
                        ]);
                    }
                    Ok(acts)
                },
                Err(e) => Err(e),
            }
        } else if str_eq(upper.as_str(), "UID") {
            (Uid).handle(&self.arguments, foreign)
        } else if str_eq(upper.as_str(), "PRIVMSG") {
            (Privmsg).handle(&self.arguments, &self.sender, foreign)
        } else {
            Err(Ts6Error::NonexistentCommand)
        }
    }
}

} // verus!
