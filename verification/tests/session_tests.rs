use irs::bus::Bus;
use irs::bus::RecvOutcome;
use irs::commands::IrcAction;
use irs::ids::ServerId;
use irs::messages::ChanJoinMessage;
use irs::messages::Message;
use irs::messages::PrivMessage;
use irs::messages::Receiver;
use irs::registries::Channels;
use irs::registries::LocalUsers;
use irs::session::SessionState;
use irs::session::handle_disconnect;
use irs::session::register_if_ready;
use irs::session::render_event;
use irs::session::upgrade_to_server_link;
use irs::session::activate_client;
use irs::error_structs::ListenerError;
use irs::error_structs::SenderError;
use irs::usermodes::Usermode;
use irs::commands::IrcCommand;
use irs::config::ServerInfo;
use irs::user::User;
use irs::userid_gen::UserIdGenerator;

fn populated_user(nick: &str, username: &str) -> User {
    let mut u = User::default();
    u.nickname = Some(nick.to_string());
    u.username = Some(username.to_string());
    u.realname = Some(format!("{nick} realname"));
    u
}

fn registered(nick: &str, username: &str, uid: &str) -> User {
    let mut u = populated_user(nick, username);
    u.identified = true;
    u.user_id = Some(irs::ids::UserId::parse(uid).unwrap());
    u.timestamp = Some(1_700_000_000);
    u
}

#[test]
fn registration_assigns_identifier_and_stores_snapshot() {
    let sid = ServerId::parse("000").unwrap();
    let mut gen = UserIdGenerator::new();
    let mut locals = LocalUsers::new();
    let mut user = populated_user("alice", "alice");

    let netjoin = register_if_ready(&mut user, &mut gen, &mut locals, &sid, 1_700_000_000)
        .unwrap()
        .expect("a populated, unidentified session registers");
    assert!(user.identified);
    assert_eq!(user.user_id.as_ref().unwrap().into_string(), "000AAAAAA");
    assert_eq!(user.timestamp, Some(1_700_000_000));
    assert!(locals.contains_username(&"alice".to_string()));
    assert_eq!(netjoin.user.nickname, "alice");
    assert_eq!(netjoin.server_id.into_string(), "000");

    // a second call does nothing: the session is already identified
    let again = register_if_ready(&mut user, &mut gen, &mut locals, &sid, 1_700_000_001).unwrap();
    assert!(again.is_none());
}

#[test]
fn unpopulated_session_does_not_register() {
    let sid = ServerId::parse("000").unwrap();
    let mut gen = UserIdGenerator::new();
    let mut locals = LocalUsers::new();
    let mut user = User::default();
    user.nickname = Some("alice".to_string());
    let r = register_if_ready(&mut user, &mut gen, &mut locals, &sid, 0).unwrap();
    assert!(r.is_none());
    assert!(!user.identified);
}

#[test]
fn disconnect_removes_user_from_local_users() {
    let sid = ServerId::parse("000").unwrap();
    let mut gen = UserIdGenerator::new();
    let mut locals = LocalUsers::new();
    let mut user = populated_user("alice", "alice");
    register_if_ready(&mut user, &mut gen, &mut locals, &sid, 42).unwrap();
    assert!(locals.contains_username(&"alice".to_string()));

    handle_disconnect(&user, &mut locals);
    assert!(!locals.contains_username(&"alice".to_string()));
    assert_eq!(locals.snapshot().len(), 0);
}

#[test]
fn channel_message_reaches_other_members_but_not_sender() {
    let alice = registered("alice", "alice", "000AAAAAA");
    let bob = registered("bob", "bob", "000AAAAAB");
    let carol = registered("carol", "carol", "000AAAAAC");

    let mut channels = Channels::new();
    for u in [&alice, &bob, &carol] {
        channels.join_user(&"#chan".to_string(), u);
    }

    let event = Message::PrivMessage(PrivMessage {
        sender: alice.unwrap_all(),
        receiver: Receiver::ChannelName("#chan".to_string()),
        text: "hello".to_string(),
    });

    for member in [&bob, &carol] {
        let acts = render_event(member, &channels, &event);
        match acts.as_slice() {
            [IrcAction::SendText(resp)] => {
                assert_eq!(resp.command, "PRIVMSG");
                assert_eq!(resp.receiver, Some("#chan".to_string()));
                assert_eq!(resp.message, "hello");
                assert_eq!(resp.sender, Some("alice!~alice@unimplement.ed".to_string()));
            }
            _ => panic!("a member other than the sender renders the message"),
        }
    }

    let echo = render_event(&alice, &channels, &event);
    assert!(echo.is_empty(), "no echo to the sender");
}

#[test]
fn channel_message_not_rendered_for_non_members() {
    let alice = registered("alice", "alice", "000AAAAAA");
    let dave = registered("dave", "dave", "000AAAAAD");
    let mut channels = Channels::new();
    channels.join_user(&"#chan".to_string(), &alice);

    let event = Message::PrivMessage(PrivMessage {
        sender: alice.unwrap_all(),
        receiver: Receiver::ChannelName("#chan".to_string()),
        text: "hello".to_string(),
    });
    assert!(render_event(&dave, &channels, &event).is_empty());
}

#[test]
fn direct_message_matches_username_case_insensitively() {
    let bob = registered("BoB", "BoB", "000AAAAAB");
    let alice = registered("alice", "alice", "000AAAAAA");
    let channels = Channels::new();

    let event = Message::PrivMessage(PrivMessage {
        sender: alice.unwrap_all(),
        receiver: Receiver::Username("bob".to_string()),
        text: "psst".to_string(),
    });
    let acts = render_event(&bob, &channels, &event);
    match acts.as_slice() {
        [IrcAction::SendText(resp)] => {
            assert_eq!(resp.receiver, Some("BoB".to_string()));
            assert_eq!(resp.message, "psst");
        }
        _ => panic!("a case-insensitive username match is a direct message"),
    }
}

#[test]
fn direct_message_matches_user_id_exactly() {
    let bob = registered("bob", "bob", "000AAAAAB");
    let channels = Channels::new();
    let alice = registered("alice", "alice", "000AAAAAA");

    let hit = Message::PrivMessage(PrivMessage {
        sender: alice.unwrap_all(),
        receiver: Receiver::UserId(irs::ids::UserId::parse("000AAAAAB").unwrap()),
        text: "hi".to_string(),
    });
    assert_eq!(render_event(&bob, &channels, &hit).len(), 1);

    let miss = Message::PrivMessage(PrivMessage {
        sender: alice.unwrap_all(),
        receiver: Receiver::UserId(irs::ids::UserId::parse("000AAAAAZ").unwrap()),
        text: "hi".to_string(),
    });
    assert!(render_event(&bob, &channels, &miss).is_empty());
}

#[test]
fn channel_join_rendered_for_members_and_joiner() {
    let alice = registered("alice", "alice", "000AAAAAA");
    let bob = registered("bob", "bob", "000AAAAAB");
    let dave = registered("dave", "dave", "000AAAAAD");
    let mut channels = Channels::new();
    channels.join_user(&"#chan".to_string(), &alice);
    let snap = channels.join_user(&"#chan".to_string(), &bob);

    let event = Message::ChanJoinMessage(ChanJoinMessage {
        sender: bob.unwrap_all(),
        channel: snap,
    });

    // an existing member of the channel sees the join
    let acts = render_event(&alice, &channels, &event);
    match acts.as_slice() {
        [IrcAction::SendText(line), IrcAction::JoinChannels(snaps)] => {
            assert_eq!(line.command, "JOIN");
            assert_eq!(line.message, "#chan");
            assert_eq!(snaps.len(), 1);
        }
        _ => panic!("a member renders the join line and the channel"),
    }
    // the joiner sees its own join; a stranger does not
    assert_eq!(render_event(&bob, &channels, &event).len(), 2);
    assert!(render_event(&dave, &channels, &event).is_empty());
}

#[test]
fn session_role_moves_one_way() {
    assert_eq!(activate_client(SessionState::Unregistered), SessionState::ClientActive);
    assert_eq!(upgrade_to_server_link(SessionState::ClientActive), SessionState::ServerLinkActive);
    assert_eq!(
        upgrade_to_server_link(SessionState::ServerLinkActive),
        SessionState::ServerLinkActive
    );
    assert_eq!(activate_client(SessionState::ServerLinkActive), SessionState::ServerLinkActive);
    assert_eq!(upgrade_to_server_link(SessionState::Closed), SessionState::Closed);
}

#[test]
fn bus_delivers_in_order_and_drops_oldest_when_lagging() {
    let mut bus = Bus::new(2);
    let mut sub = bus.subscribe();

    bus.publish(Message::PrivMessage(PrivMessage {
        sender: registered("a", "a", "000AAAAAA").unwrap_all(),
        receiver: Receiver::Username("x".to_string()),
        text: "one".to_string(),
    }));
    bus.publish(Message::PrivMessage(PrivMessage {
        sender: registered("a", "a", "000AAAAAA").unwrap_all(),
        receiver: Receiver::Username("x".to_string()),
        text: "two".to_string(),
    }));
    bus.publish(Message::PrivMessage(PrivMessage {
        sender: registered("a", "a", "000AAAAAA").unwrap_all(),
        receiver: Receiver::Username("x".to_string()),
        text: "three".to_string(),
    }));

    // capacity 2: the first undelivered event is gone, and the gap is reported
    match bus.recv(&mut sub) {
        RecvOutcome::Lagged(n) => assert_eq!(n, 1),
        _ => panic!("the subscriber fell out of the window"),
    }
    match bus.recv(&mut sub) {
        RecvOutcome::Received(Message::PrivMessage(m)) => assert_eq!(m.text, "two"),
        _ => panic!("expected the oldest kept event"),
    }
    match bus.recv(&mut sub) {
        RecvOutcome::Received(Message::PrivMessage(m)) => assert_eq!(m.text, "three"),
        _ => panic!("expected the next event"),
    }
    assert!(matches!(bus.recv(&mut sub), RecvOutcome::Empty));
}

#[test]
fn full_registration_and_channel_flow() {
    let info = ServerInfo {
        ip: "127.0.0.1".to_string(),
        port: 6667,
        server_hostname: "irc.example.net".to_string(),
        network_name: "ExampleNet".to_string(),
        operators: Vec::new(),
        server_incoming_passwords: Vec::new(),
        server_outgoing_password: String::new(),
    };
    let sid = ServerId::parse("000").unwrap();
    let mut gen = UserIdGenerator::new();
    let mut locals = LocalUsers::new();
    let mut channels = Channels::new();

    // one session types NICK then USER; registration fires after USER
    let mut alice = User::default();
    for line in ["NICK alice", "USER alice 0 * :Alice A."] {
        let cmd = IrcCommand::new(line).unwrap();
        cmd.dispatch(&mut alice, &mut channels, &info).unwrap();
        register_if_ready(&mut alice, &mut gen, &mut locals, &sid, 100).unwrap();
    }
    assert!(alice.identified);
    assert!(locals.contains_username(&"alice".to_string()));

    // a second session registers and gets the next identifier
    let mut bob = User::default();
    for line in ["NICK bob", "USER bob 0 * :Bob B."] {
        let cmd = IrcCommand::new(line).unwrap();
        cmd.dispatch(&mut bob, &mut channels, &info).unwrap();
        register_if_ready(&mut bob, &mut gen, &mut locals, &sid, 101).unwrap();
    }
    assert_eq!(alice.user_id.as_ref().unwrap().into_string(), "000AAAAAA");
    assert_eq!(bob.user_id.as_ref().unwrap().into_string(), "000AAAAAB");

    // both join; alice messages the channel; bob renders it, alice not
    for user in [&mut alice, &mut bob] {
        let cmd = IrcCommand::new("JOIN #chan").unwrap();
        cmd.dispatch(user, &mut channels, &info).unwrap();
    }
    let cmd = IrcCommand::new("PRIVMSG #chan :hi all").unwrap();
    let acts = cmd.dispatch(&mut alice, &mut channels, &info).unwrap();
    let event = match acts.into_iter().next() {
        Some(IrcAction::SendMessage(event)) => event,
        _ => panic!("the message event comes first"),
    };
    assert_eq!(render_event(&bob, &channels, &event).len(), 1);
    assert!(render_event(&alice, &channels, &event).is_empty());
}

#[test]
fn bus_default_capacity_is_documented() {
    let mut bus = Bus::new(irs::bus::BUS_CAPACITY);
    let mut sub = bus.subscribe();
    bus.publish(Message::PrivMessage(PrivMessage {
        sender: registered("a", "a", "000AAAAAA").unwrap_all(),
        receiver: Receiver::Username("x".to_string()),
        text: "only".to_string(),
    }));
    assert!(matches!(bus.recv(&mut sub), RecvOutcome::Received(_)));
}

#[test]
fn send_failures_map_to_connection_errors() {
    assert_eq!(
        ListenerError::from(SenderError::StdIoError),
        ListenerError::ConnectionError
    );
}

#[test]
fn mode_flags_render_as_characters() {
    assert_eq!(Usermode::Invisible.to_char(), 'i');
    assert_eq!(Usermode::HostHiding.to_char(), 'x');
}

#[test]
fn late_subscriber_never_sees_earlier_events() {
    let mut bus = Bus::new(8);
    bus.publish(Message::PrivMessage(PrivMessage {
        sender: registered("a", "a", "000AAAAAA").unwrap_all(),
        receiver: Receiver::Username("x".to_string()),
        text: "before".to_string(),
    }));
    let mut sub = bus.subscribe();
    assert!(matches!(bus.recv(&mut sub), RecvOutcome::Empty));
}
