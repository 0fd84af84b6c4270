use irs::channels::Channel;
use irs::commands::IrcAction;
use irs::commands::IrcCommand;
use irs::config::ServerInfo;
use irs::error_structs::CommandExecError;
use irs::messages::Message;
use irs::messages::Receiver;
use irs::registries::Channels;
use irs::user::User;

fn test_info() -> ServerInfo {
    ServerInfo {
        ip: "127.0.0.1".to_string(),
        port: 6667,
        server_hostname: "irc.example.net".to_string(),
        network_name: "ExampleNet".to_string(),
        operators: Vec::new(),
        server_incoming_passwords: vec!["SECRET-REDACTED".to_string()],
        server_outgoing_password: "SECRET-OUTGOING".to_string(),
    }
}

fn registered_user(nick: &str, username: &str) -> User {
    let mut u = User::default();
    u.nickname = Some(nick.to_string());
    u.username = Some(username.to_string());
    u.realname = Some(format!("{nick} realname"));
    u.identified = true;
    u.user_id = Some(irs::ids::UserId::parse("000AAAAAA").unwrap());
    u.timestamp = Some(1_000_000);
    u
}

#[test]
fn parse_line_with_trailing_argument() {
    let c = IrcCommand::new("PRIVMSG #chan :hello there friend").unwrap();
    assert_eq!(c.command, "PRIVMSG");
    assert_eq!(c.arguments, vec!["#chan".to_string(), "hello there friend".to_string()]);
}

#[test]
fn parse_line_without_trailing_marker() {
    let c = IrcCommand::new("USER guest 0 * realname").unwrap();
    assert_eq!(c.command, "USER");
    assert_eq!(
        c.arguments,
        vec!["guest".to_string(), "0".to_string(), "*".to_string(), "realname".to_string()]
    );
}

#[test]
fn parse_line_keeps_colons_inside_trailing() {
    // only the marker's leading ':' goes; absorbed tokens stay verbatim
    let c = IrcCommand::new("PRIVMSG bob :a :b c").unwrap();
    assert_eq!(c.arguments, vec!["bob".to_string(), "a :b c".to_string()]);
}

#[test]
fn parse_line_collapses_whitespace_runs() {
    let c = IrcCommand::new("  NICK\t alice \r\n").unwrap();
    assert_eq!(c.command, "NICK");
    assert_eq!(c.arguments, vec!["alice".to_string()]);
}

#[test]
fn parse_empty_line_has_no_command() {
    assert!(IrcCommand::new("").is_none());
    assert!(IrcCommand::new("   \r\n").is_none());
}

#[test]
fn unknown_command_is_an_error_not_a_crash() {
    let c = IrcCommand::new("BOGUS something").unwrap();
    let mut user = User::default();
    let mut channels = Channels::new();
    let r = c.dispatch(&mut user, &mut channels, &test_info());
    assert_eq!(r.unwrap_err(), CommandExecError::NonexistantCommand);
}

#[test]
fn dispatch_uppercases_the_command_name() {
    let c = IrcCommand::new("nick alice").unwrap();
    let mut user = User::default();
    let mut channels = Channels::new();
    let r = c.dispatch(&mut user, &mut channels, &test_info());
    assert!(r.is_ok());
    assert_eq!(user.nickname, Some("alice".to_string()));
}

#[test]
fn user_command_needs_four_arguments() {
    let c = IrcCommand::new("USER guest 0 *").unwrap();
    let mut user = User::default();
    let mut channels = Channels::new();
    c.dispatch(&mut user, &mut channels, &test_info()).unwrap();
    assert_eq!(user.username, None);
    assert_eq!(user.realname, None);

    let c = IrcCommand::new("USER guest 0 * :real name").unwrap();
    c.dispatch(&mut user, &mut channels, &test_info()).unwrap();
    assert_eq!(user.username, Some("guest".to_string()));
    assert_eq!(user.realname, Some("real name".to_string()));
}

#[test]
fn ping_replies_pong_only_when_populated() {
    let mut channels = Channels::new();
    let info = test_info();

    let c = IrcCommand::new("PING token").unwrap();
    let mut unregistered = User::default();
    let acts = c.dispatch(&mut unregistered, &mut channels, &info).unwrap();
    assert!(matches!(acts.as_slice(), [IrcAction::DoNothing]));

    let mut user = registered_user("alice", "alice");
    let acts = c.dispatch(&mut user, &mut channels, &info).unwrap();
    match acts.as_slice() {
        [IrcAction::SendText(resp)] => {
            assert_eq!(resp.command, "PONG");
            assert_eq!(resp.receiver, Some("alice".to_string()));
            assert_eq!(resp.message, ":token");
        }
        other => panic!("unexpected actions: {}", other.len()),
    }
}

#[test]
fn pass_match_upgrades_to_server_link() {
    let c = IrcCommand::new("PASS SECRET-REDACTED").unwrap();
    let mut user = User::default();
    let mut channels = Channels::new();
    let acts = c.dispatch(&mut user, &mut channels, &test_info()).unwrap();
    match acts.as_slice() {
        [IrcAction::SendText(resp), IrcAction::UpgradeToServerLink] => {
            assert_eq!(resp.command, "PASS");
            assert_eq!(resp.message, "SECRET-OUTGOING");
        }
        _ => panic!("expected the reply and the upgrade"),
    }
}

#[test]
fn pass_mismatch_is_silently_ignored() {
    let c = IrcCommand::new("PASS wrong").unwrap();
    let mut user = User::default();
    let mut channels = Channels::new();
    let acts = c.dispatch(&mut user, &mut channels, &test_info()).unwrap();
    assert!(matches!(acts.as_slice(), [IrcAction::DoNothing]));
}

#[test]
fn join_requires_authentication() {
    let c = IrcCommand::new("JOIN #chan").unwrap();
    let mut user = User::default();
    let mut channels = Channels::new();
    let acts = c.dispatch(&mut user, &mut channels, &test_info()).unwrap();
    assert!(matches!(acts.as_slice(), [IrcAction::ErrorAuthenticateFirst]));
    assert!(!channels.contains_channel(&"#chan".to_string()));
}

#[test]
fn join_skips_names_without_hash_prefix() {
    let c = IrcCommand::new("JOIN #one,two,#three").unwrap();
    let mut user = registered_user("alice", "alice");
    let mut channels = Channels::new();
    let acts = c.dispatch(&mut user, &mut channels, &test_info()).unwrap();
    assert!(channels.contains_channel(&"#one".to_string()));
    assert!(!channels.contains_channel(&"two".to_string()));
    assert!(channels.contains_channel(&"#three".to_string()));
    match &acts[0] {
        IrcAction::JoinChannels(snaps) => {
            assert_eq!(snaps.len(), 2);
            assert_eq!(snaps[0].name, "#one");
            assert_eq!(snaps[1].name, "#three");
        }
        _ => panic!("expected the channel snapshots first"),
    }
    // one channel-join event per joined channel
    let events = &acts[1..];
    assert_eq!(events.len(), 2);
    assert!(events.iter().all(|a| matches!(a, IrcAction::SendMessage(Message::ChanJoinMessage(_)))));
}

#[test]
fn join_same_channel_twice_keeps_membership_size() {
    let c = IrcCommand::new("JOIN #chan").unwrap();
    let mut user = registered_user("alice", "alice");
    let mut channels = Channels::new();
    c.dispatch(&mut user, &mut channels, &test_info()).unwrap();
    let first = channels.get_channel(&"#chan".to_string()).unwrap();
    assert_eq!(first.joined_users.len(), 1);
    c.dispatch(&mut user, &mut channels, &test_info()).unwrap();
    let second = channels.get_channel(&"#chan".to_string()).unwrap();
    assert_eq!(second.joined_users.len(), 1);
}

#[test]
fn privmsg_emits_the_event() {
    let c = IrcCommand::new("PRIVMSG #chan :hello there").unwrap();
    let mut user = registered_user("alice", "alice");
    let mut channels = Channels::new();
    let acts = c.dispatch(&mut user, &mut channels, &test_info()).unwrap();
    match acts.as_slice() {
        [IrcAction::SendMessage(Message::PrivMessage(m))] => {
            assert!(matches!(&m.receiver, Receiver::ChannelName(n) if n == "#chan"));
            assert_eq!(m.text, "hello there");
            assert_eq!(m.sender.nickname, "alice");
        }
        _ => panic!("expected one private-message event"),
    }

    let c = IrcCommand::new("PRIVMSG bob :hi").unwrap();
    let acts = c.dispatch(&mut user, &mut channels, &test_info()).unwrap();
    match acts.as_slice() {
        [IrcAction::SendMessage(Message::PrivMessage(m))] => {
            assert!(matches!(&m.receiver, Receiver::Username(n) if n == "bob"));
        }
        _ => panic!("expected one private-message event"),
    }
}

#[test]
fn member_list_is_sorted_and_deduplicated() {
    let mut channel = Channel::new_channel("#chan".to_string(), registered_user("zoe", "zoe"));
    channel.add_user(registered_user("alice", "alice"));
    channel.add_user(registered_user("bob", "bob"));
    // a second member under the same nickname collapses in the list
    channel.add_user(registered_user("bob", "bob2"));
    assert_eq!(channel.joined_users.len(), 4);
    let names = channel.sorted_member_nicknames();
    assert_eq!(
        names,
        vec!["alice".to_string(), "bob".to_string(), "zoe".to_string()]
    );
}

#[test]
fn join_reply_texts_carry_the_member_list() {
    let mut channel = Channel::new_channel("#chan".to_string(), registered_user("zoe", "zoe"));
    channel.add_user(registered_user("alice", "alice"));
    let names = channel.sorted_member_nicknames();

    let topic = channel.topic_reply("alice".to_string());
    assert_eq!(topic.command, "331");
    assert_eq!(topic.receiver, Some("alice".to_string()));
    assert_eq!(topic.message, "#chan :No topic is set");

    let names_line = channel.names_reply("alice".to_string(), &names);
    assert_eq!(names_line.command, "353");
    assert_eq!(names_line.message, "= #chan :alice zoe");

    let end = channel.end_of_names_reply("alice".to_string());
    assert_eq!(end.command, "366");
    assert_eq!(end.message, "#chan :End of /NAMES list");
}

#[test]
fn channel_membership_has_set_semantics() {
    let user = registered_user("alice", "alice");
    let mut channel = Channel::new_channel("#chan".to_string(), user.clone());
    assert_eq!(channel.joined_users.len(), 1);
    channel.add_user(user.clone());
    assert_eq!(channel.joined_users.len(), 1);
    let other = registered_user("bob", "bob");
    channel.add_user(other);
    assert_eq!(channel.joined_users.len(), 2);
}
