use irs::sender::IrcResponse;
use irs::sender::IrcResponseCodes;
use irs::text::dec_string;
use irs::text::parse_dec;
use irs::user::User;
use irs::usermodes::Usermodes;

#[test]
fn render_line_with_all_parts() {
    let resp = IrcResponse {
        sender: Some("alice!~alice@unimplement.ed".to_string()),
        command: "PRIVMSG".to_string(),
        receiver: Some("#chan".to_string()),
        arguments: vec!["a".to_string(), "b".to_string()],
        message: "hello  \r\n".to_string(),
    };
    let line = resp.render_line("irc.example.net", true);
    assert_eq!(line, ":alice!~alice@unimplement.ed PRIVMSG a b #chan :hello\r\n");
}

#[test]
fn render_line_falls_back_to_hostname() {
    let resp = IrcResponse {
        sender: None,
        command: "PONG".to_string(),
        receiver: None,
        arguments: Vec::new(),
        message: "token".to_string(),
    };
    let line = resp.render_line("irc.example.net", false);
    assert_eq!(line, ":irc.example.net PONG token\r\n");
}

#[test]
fn numeric_reply_codes_render_as_three_digits() {
    let resp = IrcResponseCodes::UnknownCommand
        .into_irc_response("*".to_string(), "no such command".to_string());
    assert_eq!(resp.command, "421");
    assert_eq!(resp.receiver, Some("*".to_string()));
    assert_eq!(resp.message, "no such command");

    // small codes are zero-padded to the reply form's three digits
    let resp = IrcResponseCodes::Welcome.into_irc_response("alice".to_string(), "hi".to_string());
    assert_eq!(resp.command, "001");
    assert_eq!(IrcResponseCodes::YourHost.into_irc_response(String::new(), String::new()).command, "002");
    assert_eq!(IrcResponseCodes::MyInfo.into_irc_response(String::new(), String::new()).command, "004");
    assert_eq!(IrcResponseCodes::ISupport.into_irc_response(String::new(), String::new()).command, "005");
    assert_eq!(IrcResponseCodes::NoTopic.into_irc_response(String::new(), String::new()).command, "331");
    assert_eq!(IrcResponseCodes::NameReply.into_irc_response(String::new(), String::new()).command, "353");
    assert_eq!(IrcResponseCodes::EndOfNames.into_irc_response(String::new(), String::new()).command, "366");
    assert_eq!(IrcResponseCodes::NoMotd.into_irc_response(String::new(), String::new()).command, "422");
}

#[test]
fn decimal_rendering_and_parsing() {
    assert_eq!(dec_string(0), "0");
    assert_eq!(dec_string(421), "421");
    assert_eq!(dec_string(1_700_000_000), "1700000000");
    assert_eq!(dec_string(u64::MAX), "18446744073709551615");

    assert_eq!(parse_dec("0"), Some(0));
    assert_eq!(parse_dec("0065"), Some(65));
    assert_eq!(parse_dec("18446744073709551615"), Some(u64::MAX));
    assert_eq!(parse_dec("18446744073709551616"), None);
    assert_eq!(parse_dec(""), None);
    assert_eq!(parse_dec("12x"), None);
    assert_eq!(parse_dec("-1"), None);
}

#[test]
fn default_modes_render_as_plus_ix() {
    let modes = Usermodes::default();
    assert_eq!(modes.mode_string(), "+ix");
    let empty = Usermodes(Vec::new());
    assert_eq!(empty.mode_string(), "+");
}

#[test]
fn hostmask_shape() {
    let mut u = User::default();
    u.nickname = Some("alice".to_string());
    u.username = Some("al".to_string());
    u.realname = Some("Alice".to_string());
    u.identified = true;
    u.user_id = Some(irs::ids::UserId::parse("000AAAAAA").unwrap());
    u.timestamp = Some(7);
    let snap = u.unwrap_all();
    assert_eq!(snap.hostmask(), "alice!~al@unimplement.ed");
    // a missing address defaults to the loopback text
    assert_eq!(snap.ip, "127.0.0.1");
}
