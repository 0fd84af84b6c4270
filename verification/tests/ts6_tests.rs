use irs::ids::ServerId;
use irs::messages::Message;
use irs::messages::NetJoinMessage;
use irs::messages::Receiver;
use irs::registries::ForeignUsers;
use irs::ts6::Ts6;
use irs::ts6::net_join_uid_line;
use irs::ts6::ts6_render_event;
use irs::ts6::commands::CommandSender;
use irs::ts6::commands::Ts6Action;
use irs::ts6::commands::Ts6Command;
use irs::ts6::commands::Ts6Error;
use irs::user::User;
use irs::user::UserUnwrapped;

fn my_sid() -> ServerId {
    ServerId::parse("000").unwrap()
}

fn local_snapshot(nick: &str, uid: &str) -> UserUnwrapped {
    let mut u = User::default();
    u.nickname = Some(nick.to_string());
    u.username = Some(nick.to_string());
    u.realname = Some(nick.to_string());
    u.identified = true;
    u.user_id = Some(irs::ids::UserId::parse(uid).unwrap());
    u.timestamp = Some(1_700_000_000);
    u.unwrap_all()
}

fn run(
    line: &str,
    ts6: &mut Ts6,
    foreign: &mut ForeignUsers,
) -> Result<Vec<Ts6Action>, Ts6Error> {
    let cmd = Ts6Command::new(line).expect("a command token");
    cmd.execute(ts6, "irc.example.net", &my_sid(), foreign, 1_700_000_123)
}

#[test]
fn sender_prefix_is_parsed() {
    let c = Ts6Command::new(":1AB PING x").unwrap();
    assert!(matches!(c.sender, Some(CommandSender::Server(_))));
    assert_eq!(c.command, "PING");

    let c = Ts6Command::new(":1ABAAAAAA PRIVMSG 000AAAAAA :hi").unwrap();
    assert!(matches!(c.sender, Some(CommandSender::User(_))));

    let c = Ts6Command::new("CAPAB :QS ENCAP").unwrap();
    assert!(c.sender.is_none());
    assert_eq!(c.arguments, vec!["QS ENCAP".to_string()]);

    assert!(Ts6Command::new(":1AB").is_none());
    assert!(Ts6Command::new("").is_none());
}

#[test]
fn capab_is_accepted_and_ignored() {
    let mut ts6 = Ts6::default();
    let mut foreign = ForeignUsers::new();
    let acts = run("CAPAB :QS ENCAP", &mut ts6, &mut foreign).unwrap();
    assert!(matches!(acts.as_slice(), [Ts6Action::DoNothing]));
    assert!(!ts6.identified);
}

#[test]
fn server_records_peer_and_answers() {
    let mut ts6 = Ts6::default();
    let mut foreign = ForeignUsers::new();
    let acts = run(
        "SERVER peer.example.org 1 1AB + :a peer server",
        &mut ts6,
        &mut foreign,
    )
    .unwrap();
    assert!(ts6.identified);
    assert_eq!(ts6.hostname, "peer.example.org");
    assert_eq!(ts6.hopcount, 1);
    assert_eq!(ts6.server_id.as_ref().unwrap().into_string(), "1AB");
    assert_eq!(ts6.description, "a peer server");
    match acts.as_slice() {
        [Ts6Action::SendText(resp)] => {
            assert_eq!(resp.command, "SERVER");
            assert_eq!(resp.sender, Some("irc.example.net".to_string()));
            assert_eq!(
                resp.arguments,
                vec![
                    "irc.example.net".to_string(),
                    "1".to_string(),
                    "000".to_string(),
                    "+".to_string()
                ]
            );
        }
        _ => panic!("expected our own SERVER line back"),
    }
}

#[test]
fn server_with_bad_hopcount_is_malformed() {
    let mut ts6 = Ts6::default();
    let mut foreign = ForeignUsers::new();
    let r = run("SERVER peer.example.org x 1AB + :desc", &mut ts6, &mut foreign);
    assert_eq!(r.unwrap_err(), Ts6Error::MalformedCommand);
    assert!(!ts6.identified);
}

#[test]
fn svinfo_version_mismatch_terminates_the_link() {
    let mut ts6 = Ts6::default();
    let mut foreign = ForeignUsers::new();
    let r = run("SVINFO 5 5 0 :1700000000", &mut ts6, &mut foreign);
    assert_eq!(r.unwrap_err(), Ts6Error::VersionMismatch);
    let r = run("SVINFO x 6 0 :1700000000", &mut ts6, &mut foreign);
    assert_eq!(r.unwrap_err(), Ts6Error::VersionMismatch);
}

#[test]
fn svinfo_agreement_answers_with_our_versions() {
    let mut ts6 = Ts6::default();
    let mut foreign = ForeignUsers::new();
    let acts = run("SVINFO 6 6 0 :1700000000", &mut ts6, &mut foreign).unwrap();
    match acts.as_slice() {
        [Ts6Action::SendText(resp)] => {
            assert_eq!(resp.command, "SVINFO");
            assert_eq!(
                resp.arguments,
                vec!["6".to_string(), "6".to_string(), "0".to_string()]
            );
            assert_eq!(resp.message, ":1700000123");
        }
        _ => panic!("expected our SVINFO"),
    }
}

#[test]
fn ping_answers_pong_signed_by_our_id() {
    let mut ts6 = Ts6::default();
    let mut foreign = ForeignUsers::new();
    let acts = run("PING :peer.example.org", &mut ts6, &mut foreign).unwrap();
    match acts.as_slice() {
        [Ts6Action::SendText(resp)] => {
            assert_eq!(resp.command, "PONG");
            assert_eq!(resp.message, "000 peer.example.org");
        }
        _ => panic!("expected a PONG"),
    }
}

#[test]
fn uid_introduces_a_foreign_user() {
    let mut ts6 = Ts6::default();
    let mut foreign = ForeignUsers::new();
    let acts = run(
        "UID remote 2 1700000000 +i ~remote 10.0.0.1 10.0.0.1 10.0.0.1 1ABAAAAAA *",
        &mut ts6,
        &mut foreign,
    )
    .unwrap();
    assert!(acts.is_empty());
    let uid = irs::ids::UserId::parse("1ABAAAAAA").unwrap();
    assert!(foreign.contains_user_id(&uid));
    assert_eq!(foreign.snapshot().len(), 1);
    let stored = foreign.get_by_user_id(&uid).expect("the user is known now");
    assert_eq!(stored.nickname, "remote");
    assert_eq!(stored.hopcount, 2);
    assert_eq!(stored.timestamp, 1_700_000_000);
    assert_eq!(stored.ip, "10.0.0.1");
}

#[test]
fn uid_with_invalid_identifier_is_malformed() {
    let mut ts6 = Ts6::default();
    let mut foreign = ForeignUsers::new();
    let r = run(
        "UID remote 2 1700000000 +i ~remote 10.0.0.1 10.0.0.1 10.0.0.1 short *",
        &mut ts6,
        &mut foreign,
    );
    assert_eq!(r.unwrap_err(), Ts6Error::MalformedCommand);
}

#[test]
fn peer_privmsg_relays_from_a_known_user() {
    let mut ts6 = Ts6::default();
    let mut foreign = ForeignUsers::new();
    run(
        "UID remote 2 1700000000 +i ~remote 10.0.0.1 10.0.0.1 10.0.0.1 1ABAAAAAA *",
        &mut ts6,
        &mut foreign,
    )
    .unwrap();

    let cmd = Ts6Command::new(":1ABAAAAAA PRIVMSG 000AAAAAA :hello over there").unwrap();
    let acts = cmd
        .execute(&mut ts6, "irc.example.net", &my_sid(), &mut foreign, 0)
        .unwrap();
    match acts.as_slice() {
        [Ts6Action::SendMessage(Message::PrivMessage(m))] => {
            assert_eq!(m.sender.nickname, "remote");
            assert!(matches!(&m.receiver, Receiver::UserId(u) if u.into_string() == "000AAAAAA"));
            assert_eq!(m.text, "hello over there");
        }
        _ => panic!("expected the relayed event"),
    }
}

#[test]
fn peer_privmsg_from_unknown_user_fails() {
    let mut ts6 = Ts6::default();
    let mut foreign = ForeignUsers::new();
    let cmd = Ts6Command::new(":1ABAAAAAA PRIVMSG 000AAAAAA :hello").unwrap();
    let r = cmd.execute(&mut ts6, "irc.example.net", &my_sid(), &mut foreign, 0);
    assert_eq!(r.unwrap_err(), Ts6Error::MalformedCommand);
}

#[test]
fn unknown_link_command_is_reported() {
    let mut ts6 = Ts6::default();
    let mut foreign = ForeignUsers::new();
    let r = run("BOGUS a b", &mut ts6, &mut foreign);
    assert_eq!(r.unwrap_err(), Ts6Error::NonexistentCommand);
}

#[test]
fn net_join_becomes_an_outbound_uid_line() {
    let user = local_snapshot("alice", "000AAAAAA");
    let line = net_join_uid_line(&user, &my_sid());
    assert_eq!(line.sender, Some("000".to_string()));
    assert_eq!(line.command, "UID");
    assert_eq!(
        line.arguments,
        vec![
            "alice".to_string(),
            "1".to_string(),
            "1700000000".to_string(),
            "+ix".to_string(),
            "~alice".to_string(),
            "127.0.0.1".to_string(),
            "127.0.0.1".to_string(),
            "127.0.0.1".to_string(),
            "000AAAAAA".to_string(),
            "*".to_string(),
            ":alice".to_string(),
        ]
    );
    assert_eq!(line.message, "");
}

#[test]
fn outbound_uid_line_renders_exactly() {
    let user = local_snapshot("alice", "000AAAAAA");
    let line = net_join_uid_line(&user, &my_sid()).render_line("irc.example.net", false);
    assert_eq!(
        line,
        ":000 UID alice 1 1700000000 +ix ~alice 127.0.0.1 127.0.0.1 127.0.0.1 000AAAAAA * :alice \r\n"
    );
}

#[test]
fn only_an_identified_link_announces_net_joins() {
    let user = local_snapshot("alice", "000AAAAAA");
    let event = Message::NetJoinMessage(NetJoinMessage {
        user: user.clone(),
        server_id: my_sid(),
    });

    let unidentified = Ts6::default();
    assert!(ts6_render_event(&unidentified, &event, &my_sid()).is_none());

    let mut identified = Ts6::default();
    identified.identified = true;
    let line = ts6_render_event(&identified, &event, &my_sid()).expect("announced");
    assert_eq!(line.command, "UID");

    let other = Message::PrivMessage(irs::messages::PrivMessage {
        sender: user,
        receiver: Receiver::Username("x".to_string()),
        text: "t".to_string(),
    });
    assert!(ts6_render_event(&identified, &other, &my_sid()).is_none());
}
