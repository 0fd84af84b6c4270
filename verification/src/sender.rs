//! Outbound wire lines: a structured response record and its rendering
//! into one protocol line, `:<sender-or-hostname> <command> <args...>
//! [<receiver>] [:]<message>` terminated by CR LF.

use vstd::prelude::*;
use vstd::string::StrSliceExecFns;
use vstd::string::StringExecFns;
use crate::text::dec_string;
use crate::text::spec_dec_string;
use crate::text::spec_trim_end;
use crate::text::trim_end_str;
use crate::user::opt_str_view;

verus! {

/// The views of a sequence of strings.
pub open spec fn strings_view(v: Seq<String>) -> Seq<Seq<char>> {
    crate::text::names_view(v)
}

/// The mathematical shape of a response record.
#[verifier::ext_equal]
pub ghost struct IrcResponseModel {
    pub sender: Option<Seq<char>>,
    pub command: Seq<char>,
    pub receiver: Option<Seq<char>>,
    pub arguments: Seq<Seq<char>>,
    pub message: Seq<char>,
}

/// A structured outbound response, rendered onto the wire by
/// [`IrcResponse::render_line`].
#[derive(Clone, Debug)]
pub struct IrcResponse {
    pub sender: Option<String>,
    pub command: String,
    pub receiver: Option<String>,
    pub arguments: Vec<String>,
    pub message: String,
}

impl View for IrcResponse {
    type V = IrcResponseModel;

    open spec fn view(&self) -> IrcResponseModel {
        IrcResponseModel {
            sender: opt_str_view(self.sender),
            command: self.command@,
            receiver: opt_str_view(self.receiver),
            arguments: strings_view(self.arguments@),
            message: self.message@,
        }
    }
}

/// One space then the argument, for each argument in order.
pub open spec fn spec_join_args(args: Seq<Seq<char>>) -> Seq<char>
    decreases args.len(),
{
    if args.len() == 0 {
        Seq::empty()
    } else {
        spec_join_args(args.drop_last()) + seq![' '] + args.last()
    }
}

/// The full rendered line: the sender (or the hostname in its place)
/// prefixed by `':'`, the command, the arguments, the receiver if any,
/// then the message with trailing whitespace dropped — prefixed by `':'`
/// when asked — and CR LF.
pub open spec fn spec_response_line(
    r: IrcResponseModel,
    hostname: Seq<char>,
    prepend_colon: bool,
) -> Seq<char> {
    seq![':'] + (match r.sender {
        Option::Some(s) => s,
        Option::None => hostname,
    }) + seq![' '] + r.command + spec_join_args(r.arguments) + (match r.receiver {
        Option::Some(rc) => seq![' '] + rc,
        Option::None => Seq::empty(),
    }) + seq![' '] + (if prepend_colon {
        seq![':']
    } else {
        Seq::empty()
    }) + spec_trim_end(r.message) + seq!['\r', '\n']
}

impl IrcResponse {
    /// Renders the record as one wire line.
    pub fn render_line(&self, hostname: &str, prepend_colon: bool) -> (line: String)
        ensures
            line@ == spec_response_line(self@, hostname@, prepend_colon),
    {
        let mut line = String::from_str(":");
        proof {
            reveal_strlit(":");
            reveal_strlit(" ");
            reveal_strlit("\r\n");
        }
        match &self.sender {
            Option::Some(s) => line.append(s.as_str()),
            Option::None => line.append(hostname),
        }
        line.append(" ");
        line.append(self.command.as_str());
        let ghost head = line@;
        proof {
            assert(head =~= seq![':'] + (match self@.sender {
                Option::Some(s) => s,
                Option::None => hostname@,
            }) + seq![' '] + self@.command);
            assert(spec_join_args(self@.arguments.subrange(0, 0)) =~= Seq::<char>::empty());
            assert(line@ =~= head + spec_join_args(self@.arguments.subrange(0, 0)));
        }
        let mut i: usize = 0;
        while i < self.arguments.len()
            invariant
                i <= self.arguments@.len(),
                self@.arguments.len() == self.arguments@.len(),
                forall|k: int|
                    0 <= k < self.arguments@.len() ==> #[trigger] self@.arguments[k]
                        == self.arguments@[k]@,
                line@ == head + spec_join_args(self@.arguments.subrange(0, i as int)),
            decreases self.arguments@.len() - i,
        {
            proof {
                reveal_strlit(" ");
            }
            line.append(" ");
            line.append(self.arguments[i].as_str());
            proof {
                let pre = self@.arguments.subrange(0, i as int);
                let ext = self@.arguments.subrange(0, i + 1 as int);
                assert(ext.drop_last() =~= pre);
                assert(ext.last() == self@.arguments[i as int]);
                assert(line@ =~= head + spec_join_args(ext));
            }
            i += 1;
        }
        proof {
            assert(self@.arguments.subrange(0, self@.arguments.len() as int) =~= self@.arguments);
        }
        match &self.receiver {
            Option::Some(rc) => {
                line.append(" ");
                line.append(rc.as_str());
            },
            Option::None => {},
        }
        line.append(" ");
        if prepend_colon {
            line.append(":");
        }
        line.append(trim_end_str(self.message.as_str()));
        line.append("\r\n");
        proof {
            assert(line@ =~= spec_response_line(self@, hostname@, prepend_colon));
        }
        line
    }
}

/// The numeric reply kinds the daemon sends.
#[derive(Clone, Copy, Debug, PartialEq, Eq, Structural)]
pub enum IrcResponseCodes {
    UnknownCommand,
    Welcome,
    YourHost,
    MyInfo,
    ISupport,
    NoMotd,
    NoTopic,
    NameReply,
    EndOfNames,
}

/// A numeric code rendered as the reply form's three-digit text:
/// zero-padded on the left up to three digits.
pub open spec fn spec_code_string(n: int) -> Seq<char> {
    if n < 10 {
        seq!['0', '0'] + spec_dec_string(n)
    } else if n < 100 {
        seq!['0'] + spec_dec_string(n)
    } else {
        spec_dec_string(n)
    }
}

/// The numeric value of a reply kind.
pub open spec fn spec_code(c: IrcResponseCodes) -> int {
    match c {
        IrcResponseCodes::UnknownCommand => 421,
        IrcResponseCodes::Welcome => 1,
        IrcResponseCodes::YourHost => 2,
        IrcResponseCodes::MyInfo => 4,
        IrcResponseCodes::ISupport => 5,
        IrcResponseCodes::NoMotd => 422,
        IrcResponseCodes::NoTopic => 331,
        IrcResponseCodes::NameReply => 353,
        IrcResponseCodes::EndOfNames => 366,
    }
}

impl IrcResponseCodes {
    /// The numeric value of this reply kind.
    pub fn code(&self) -> (n: u16)
        ensures
            n as int == spec_code(*self),
    {
        match self {
            IrcResponseCodes::UnknownCommand => 421,
            IrcResponseCodes::Welcome => 1,
            IrcResponseCodes::YourHost => 2,
            IrcResponseCodes::MyInfo => 4,
            IrcResponseCodes::ISupport => 5,
            IrcResponseCodes::NoMotd => 422,
            IrcResponseCodes::NoTopic => 331,
            IrcResponseCodes::NameReply => 353,
            IrcResponseCodes::EndOfNames => 366,
        }
    }

    /// Wraps a receiver and a message under this reply kind's
    /// three-digit code.
    pub fn into_irc_response(&self, receiver: String, message: String) -> (r: IrcResponse)
        ensures
            r@.sender is None,
            r@.command == spec_code_string(spec_code(*self)),
            r@.receiver == Option::Some(receiver@),
            r@.arguments =~= Seq::<Seq<char>>::empty(),
            r@.message == message@,
    {
        let code = self.code();
        let digits = dec_string(code as u64);
        let mut command = String::new();
        if code < 10 {
            proof {
                reveal_strlit("00");
            }
            command.append("00");
        } else if code < 100 {
            proof {
                reveal_strlit("0");
            }
            command.append("0");
        }
        command.append(digits.as_str());
        proof {
            assert(command@ =~= spec_code_string(spec_code(*self)));
        }
        IrcResponse {
            sender: Option::None,
            command,
            receiver: Option::Some(receiver),
            arguments: Vec::new(),
            message,
        }
    }
}

} // verus!
