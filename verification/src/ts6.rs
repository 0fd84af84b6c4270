//! The server-to-server link: the peer's recorded state, and the
//! outbound side of steady state — a network join observed on the bus
//! while the link is identified becomes a user-introduction line, with
//! the hop count incremented by one to reflect propagation distance.

use vstd::prelude::*;
use vstd::string::StringExecFns;
use crate::ids::ServerId;
use crate::messages::Message;
use crate::messages::MessageModel;
use crate::sender::IrcResponse;
use crate::sender::IrcResponseModel;
use crate::text::spec_dec_string;
use crate::text::dec_string;
use crate::user::RegisteredUserModel;
use crate::user::UserUnwrapped;
use crate::usermodes::spec_mode_string;

pub mod commands;

verus! {

/// The mathematical shape of a link's recorded peer state.
#[verifier::ext_equal]
pub ghost struct Ts6Model {
    pub server_id: Option<Seq<char>>,
    pub hopcount: u16,
    pub description: Seq<char>,
    pub hostname: Seq<char>,
    pub identified: bool,
}

/// One server link's view of its peer: identifier, hop count,
/// description and display name, set incrementally as the handshake
/// commands arrive; `identified` once the peer announced itself.
#[derive(Clone, Debug)]
pub struct Ts6 {
    pub server_id: Option<ServerId>,
    pub hopcount: u16,
    pub description: String,
    pub hostname: String,
    pub identified: bool,
}

impl View for Ts6 {
    type V = Ts6Model;

    open spec fn view(&self) -> Ts6Model {
        Ts6Model {
            server_id: match self.server_id {
                Option::Some(ref s) => Option::Some(s@),
                Option::None => Option::None,
            },
            hopcount: self.hopcount,
            description: self.description@,
            hostname: self.hostname@,
            identified: self.identified,
        }
    }
}

impl Ts6 {
    /// A link that has not completed any handshake step yet.
    pub fn default() -> (r: Ts6)
        ensures
            r@.server_id is None,
            r@.hopcount == 0,
            r@.description =~= Seq::<char>::empty(),
            r@.hostname =~= Seq::<char>::empty(),
            !r@.identified,
    {
        Ts6 {
            server_id: Option::None,
            hopcount: 0,
            description: String::new(),
            hostname: String::new(),
            identified: false,
        }
    }
}

/// The user-introduction line announcing a newly registered local user
/// to the peer, signed by this server's identifier, with the hop count
/// one higher than the user's own.
pub open spec fn uid_line_model(u: RegisteredUserModel, sid: Seq<char>) -> IrcResponseModel {
    IrcResponseModel {
        sender: Option::Some(sid),
        command: "UID"@,
        receiver: Option::None,
        arguments: seq![
            u.nickname,
            spec_dec_string(u.hopcount + 1),
            spec_dec_string(u.timestamp as int),
            spec_mode_string(u.usermodes),
            seq!['~'] + u.username,
            u.ip,
            u.ip,
            u.ip,
            u.user_id,
            "*"@,
            seq![':'] + u.username,
        ],
        message: Seq::<char>::empty(),
    }
}

/// Builds the outbound user-introduction line for one snapshot.
pub fn net_join_uid_line(user: &UserUnwrapped, my_sid: &ServerId) -> (r: IrcResponse)
    requires
        user@.hopcount < u16::MAX,
    ensures
        r@ == uid_line_model(user@, my_sid@),
{
    let mut arguments: Vec<String> = Vec::new();
    arguments.push(user.nickname.clone());
    arguments.push(dec_string((user.hopcount + 1) as u64));
    arguments.push(dec_string(user.timestamp));
    arguments.push(user.usermodes.mode_string());
    let mut ident = String::from_str("~");
    proof {
        reveal_strlit("~");
    }
    ident.append(user.username.as_str());
    proof {
        assert(ident@ =~= seq!['~'] + user@.username);
    }
    arguments.push(ident);
    arguments.push(user.ip.clone());
    arguments.push(user.ip.clone());
    arguments.push(user.ip.clone());
    arguments.push(user.user_id.into_string());
    arguments.push(String::from_str("*"));
    let mut last = String::from_str(":");
    proof {
        reveal_strlit(":");
    }
    last.append(user.username.as_str());
    proof {
        assert(last@ =~= seq![':'] + user@.username);
    }
    arguments.push(last);
    let r = IrcResponse {
        sender: Option::Some(my_sid.into_string()),
        command: String::from_str("UID"),
        receiver: Option::None,
        arguments,
        message: String::new(),
    };
    proof {
        assert(r@ =~~= uid_line_model(user@, my_sid@));
    }
    r
}

/// The outbound event filter of an active link: an identified link
/// translates a network join into a user-introduction line; everything
/// else — an unidentified link, another event kind, or a hop count that
/// cannot grow — produces nothing.
pub fn ts6_render_event(ts6: &Ts6, message: &Message, my_sid: &ServerId) -> (r: Option<
    IrcResponse,
>)
    ensures
        ({
            let relevant = ts6@.identified && message@ is NetJoinMessage
                && message@->NetJoinMessage_0.user.hopcount < u16::MAX;
            &&& relevant ==> r is Some && r->Some_0@ == uid_line_model(
                message@->NetJoinMessage_0.user,
                my_sid@,
            )
            &&& !relevant ==> r is None
        }),
{
    if !ts6.identified {
        return Option::None;
    }
    match message {
        Message::NetJoinMessage(m) => {
            if m.user.hopcount < 65535 {
                Option::Some(net_join_uid_line(&m.user, my_sid))
            } else {
                Option::None
            }
        },
        _ => Option::None,
    }
}

} // verus!
