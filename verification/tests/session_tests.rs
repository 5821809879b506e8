use session_engine::command::Command;
use session_engine::digest::hash_secret;
use session_engine::error::{AssembleError, DecodeError, EncodeError, SessionError, TransportError};
use session_engine::model::{Field, Model};
use session_engine::session::{Phase, Request, ServerConnection, Session};

const LOGIN_REPLY: &[u8] = b"timestamp:1700000010&sessionid:tok-1&character:12|340|5600|7&tavern:3600|0|0|0";

fn fresh(username: &str, secret: &str, server: &str) -> Session {
    Session::new(username.as_bytes(), secret.as_bytes(), ServerConnection::new(server.as_bytes()).unwrap())
}

fn logged_in() -> Session {
    let mut session = fresh("alice", "secret", "serverA");
    session.begin_login().unwrap();
    session.complete_login(Ok(LOGIN_REPLY.to_vec()), 1_700_000_000).unwrap();
    session
}

fn snapshot(session: &Session) -> Vec<Option<Vec<i64>>> {
    let all = [
        Model::Character,
        Model::Items,
        Model::Tavern,
        Model::Dungeons,
        Model::Guild,
        Model::Social,
        Model::Fortress,
        Model::Underworld,
        Model::Unlockables,
    ];
    let mut out: Vec<Option<Vec<i64>>> = all.iter().map(|m| session.state().record(*m)).collect();
    out.push(Some(vec![session.state().drift()]));
    out
}

#[test]
fn only_the_empty_text_names_no_server() {
    assert!(ServerConnection::new(b"").is_none());
    let names: [&[u8]; 6] = [
        b"serverA",
        b"s1.example.com",
        b"https://s1.example.com",
        b"https://s1.example.com:8443/play/",
        b"server A",
        b"[::1]:80",
    ];
    for name in names {
        assert_eq!(ServerConnection::new(name).unwrap().server(), &name.to_vec());
    }
}

#[test]
fn a_request_goes_to_the_server_as_the_caller_named_it() {
    let mut session = fresh("alice", "secret", "https://s1.example.com/play");
    let request = session.begin_login().unwrap();
    assert_eq!(request.server, b"https://s1.example.com/play".to_vec());
    assert_eq!(request.command.args[0], b"alice".to_vec());
    session.complete_login(Ok(LOGIN_REPLY.to_vec()), 0).unwrap();
    let request = session.begin_send(&Command::Update).unwrap();
    assert_eq!(request.server, b"https://s1.example.com/play".to_vec());
}

#[test]
fn a_new_session_is_unauthenticated() {
    let session = fresh("alice", "secret", "serverA");
    assert_eq!(session.phase(), Phase::Unauthenticated);
    assert!(!session.is_busy());
    assert_eq!(session.token(), None);
    assert!(!session.state().has(Model::Character));
}

#[test]
fn the_secret_is_hashed_with_the_salt() {
    assert_eq!(hash_secret(b"secret"), b"30931d3bad05758f6d4967370cd0409d74549048".to_vec());
    assert_eq!(hash_secret(b""), b"2e0646b4399a3ef1dc426a699eca4e5033398bf4".to_vec());
    assert_eq!(hash_secret(b"abc"), b"2e7d279b551aee9b7ec1a0b4afcca960f96272e3".to_vec());
    assert_ne!(hash_secret(b"secret"), hash_secret(b"Secret"));
}

#[test]
fn the_login_request_holds_the_name_and_the_hashed_secret() {
    let mut session = fresh("alice", "secret", "serverA");
    let request: Request = session.begin_login().unwrap();
    assert_eq!(request.server, b"serverA".to_vec());
    assert_eq!(request.token, None);
    assert_eq!(request.command.name, b"AccountLogin".to_vec());
    assert_eq!(
        request.command.args,
        vec![b"alice".to_vec(), b"30931d3bad05758f6d4967370cd0409d74549048".to_vec()]
    );
    assert_eq!(session.phase(), Phase::Authenticating);
    assert!(session.is_busy());
    let mut other = Session::with_secret_hash(b"bob", b"00ff".to_vec(), ServerConnection::new(b"s2").unwrap());
    let request = other.begin_login().unwrap();
    assert_eq!(request.command.args, vec![b"bob".to_vec(), b"00ff".to_vec()]);
}

#[test]
fn login_then_work_end_to_end() {
    let mut session = fresh("alice", "secret", "serverA");
    session.begin_login().unwrap();
    let changes = session.complete_login(Ok(LOGIN_REPLY.to_vec()), 1_700_000_000).unwrap();
    assert_eq!(changes.models(), vec![Model::Character, Model::Tavern]);
    assert_eq!(session.phase(), Phase::Active);
    assert_eq!(session.token(), Some(&b"tok-1".to_vec()));
    assert_eq!(session.state().get(Field::CharacterLevel), Some(12));
    assert_eq!(session.state().character().unwrap().level, 12);
    assert_eq!(session.state().drift(), 10);

    let request = session.begin_send(&Command::StartWork { hours: 4 }).unwrap();
    assert_eq!(request.server, b"serverA".to_vec());
    assert_eq!(request.token, Some(b"tok-1".to_vec()));
    assert_eq!(request.command.to_wire(), b"PlayerWorkStart:4".to_vec());
    assert!(session.is_busy());

    // The answer arrives at local time 1700000100, when the server's clock
    // shows 1700000110. The server sets the end of the work four hours
    // after its own now.
    let reply = b"timestamp:1700000110&tavern.activity:2&tavern.busy_until:1700014510".to_vec();
    let changes = session.complete_send(Ok(reply), 1_700_000_100).unwrap();
    assert!(changes.contains(Model::Tavern));
    assert!(!changes.contains(Model::Character));
    assert_eq!(changes.models(), vec![Model::Tavern]);
    assert!(!session.is_busy());
    let tavern = session.state().tavern().unwrap();
    assert_eq!(tavern.activity, 2);
    assert_eq!(tavern.busy_until, 1_700_014_510);
    assert_eq!(tavern.thirst, 3600);
    assert_eq!(session.state().drift(), 10);
    let four_hours = 4 * 60 * 60;
    assert_eq!(session.state().local_time_of(tavern.busy_until), 1_700_000_100 + four_hours);
    assert_eq!(session.state().time_remaining(tavern.busy_until, 1_700_000_100), four_hours);
    assert_eq!(session.state().time_remaining(tavern.busy_until, 1_700_000_100 + 60), four_hours - 60);
}

#[test]
fn an_expired_session_refuses_without_a_request() {
    let mut session = logged_in();
    let before = snapshot(&session);
    session.begin_send(&Command::Update).unwrap();
    let outcome = session.complete_send(Ok(b"error:sessionid invalid".to_vec()), 1_700_000_050);
    assert_eq!(outcome.err(), Some(SessionError::Expired));
    assert_eq!(session.phase(), Phase::Expired);
    assert_eq!(session.token(), None);
    assert!(!session.is_busy());
    assert_eq!(snapshot(&session), before);
    for _ in 0..3 {
        assert_eq!(session.begin_send(&Command::Update).err(), Some(SessionError::Expired));
        assert_eq!(session.begin_send(&Command::StartWork { hours: 4 }).err(), Some(SessionError::Expired));
        assert!(!session.is_busy());
        assert_eq!(session.phase(), Phase::Expired);
    }
    assert_eq!(session.complete_send(Ok(LOGIN_REPLY.to_vec()), 1).err(), Some(SessionError::Idle));
    assert_eq!(snapshot(&session), before);
}

#[test]
fn an_expired_session_can_log_in_again() {
    let mut session = logged_in();
    session.begin_send(&Command::Update).unwrap();
    let _ = session.complete_send(Ok(b"error:sessionid invalid".to_vec()), 1_700_000_050);
    let request = session.begin_login().unwrap();
    assert_eq!(request.token, None);
    let reply = b"timestamp:5&sessionid:tok-2&character:13|0|1|2".to_vec();
    let changes = session.complete_login(Ok(reply), 5).unwrap();
    assert_eq!(changes.models(), vec![Model::Character]);
    assert_eq!(session.phase(), Phase::Active);
    assert_eq!(session.token(), Some(&b"tok-2".to_vec()));
    assert_eq!(session.state().record(Model::Character), Some(vec![13, 0, 1, 2]));
    assert_eq!(session.state().record(Model::Tavern), None);
    assert_eq!(session.state().drift(), 0);
}

#[test]
fn a_closed_session_stays_closed() {
    let mut session = logged_in();
    session.logout();
    assert_eq!(session.phase(), Phase::Closed);
    assert_eq!(session.token(), None);
    assert_eq!(session.begin_send(&Command::Update).err(), Some(SessionError::Closed));
    assert_eq!(session.begin_login().err(), Some(SessionError::Closed));
    assert_eq!(session.complete_send(Ok(Vec::new()), 0).err(), Some(SessionError::Idle));
    assert_eq!(session.complete_login(Ok(LOGIN_REPLY.to_vec()), 0).err(), Some(SessionError::Idle));
    session.logout();
    assert_eq!(session.phase(), Phase::Closed);
    let mut never = fresh("alice", "secret", "serverA");
    never.logout();
    assert_eq!(never.begin_send(&Command::Update).err(), Some(SessionError::Closed));
}

#[test]
fn a_logout_while_a_request_is_under_way_drops_the_answer() {
    let mut session = logged_in();
    let before = snapshot(&session);
    session.begin_send(&Command::Update).unwrap();
    session.logout();
    assert_eq!(session.complete_send(Ok(b"character.level:99".to_vec()), 0).err(), Some(SessionError::Idle));
    assert_eq!(snapshot(&session), before);
}

#[test]
fn commands_need_an_active_session() {
    let mut session = fresh("alice", "secret", "serverA");
    assert_eq!(session.begin_send(&Command::Update).err(), Some(SessionError::NotAuthenticated));
    assert_eq!(session.complete_send(Ok(Vec::new()), 0).err(), Some(SessionError::Idle));
    assert_eq!(session.complete_login(Ok(LOGIN_REPLY.to_vec()), 0).err(), Some(SessionError::Idle));
    session.begin_login().unwrap();
    assert_eq!(session.begin_send(&Command::Update).err(), Some(SessionError::Busy));
    assert_eq!(session.begin_login().err(), Some(SessionError::Busy));
    assert_eq!(session.phase(), Phase::Authenticating);
}

#[test]
fn one_request_at_a_time() {
    let mut session = logged_in();
    session.begin_send(&Command::Update).unwrap();
    assert_eq!(session.begin_send(&Command::BuyBeer).err(), Some(SessionError::Busy));
    assert_eq!(session.begin_login().err(), Some(SessionError::Busy));
    assert!(session.is_busy());
    session.complete_send(Ok(Vec::new()), 0).unwrap();
    assert!(session.begin_send(&Command::BuyBeer).is_ok());
}

#[test]
fn a_command_that_cannot_be_encoded_is_not_sent() {
    let mut session = logged_in();
    let outcome = session.begin_send(&Command::ViewPlayer { ident: b"a/b".to_vec() });
    assert_eq!(outcome.err(), Some(SessionError::Encode(EncodeError::InvalidArgument)));
    assert!(!session.is_busy());
    let nameless = session.begin_send(&Command::GuildFound { name: Vec::new() });
    assert_eq!(nameless.err(), Some(SessionError::Encode(EncodeError::InvalidArgument)));
    assert!(!session.is_busy());
    assert!(session.begin_send(&Command::ViewPlayer { ident: b"a b".to_vec() }).is_ok());
}

#[test]
fn transport_failures_are_passed_on_and_change_nothing() {
    for failure in [TransportError::Timeout, TransportError::Unreachable] {
        let mut session = logged_in();
        let before = snapshot(&session);
        session.begin_send(&Command::Update).unwrap();
        let outcome = session.complete_send(Err(failure), 9);
        assert_eq!(outcome.err(), Some(SessionError::Transport(failure)));
        assert!(SessionError::Transport(failure).is_retryable());
        assert_eq!(session.phase(), Phase::Active);
        assert!(!session.is_busy());
        assert_eq!(session.token(), Some(&b"tok-1".to_vec()));
        assert_eq!(snapshot(&session), before);
        assert!(session.begin_send(&Command::Update).is_ok());
    }
}

#[test]
fn only_transport_failures_are_worth_a_retry() {
    for e in [
        SessionError::Expired,
        SessionError::Closed,
        SessionError::NotAuthenticated,
        SessionError::Busy,
        SessionError::Idle,
        SessionError::Rejected,
        SessionError::Encode(EncodeError::InvalidArgument),
        SessionError::Decode(DecodeError::Malformed),
        SessionError::Assemble(AssembleError::Inconsistent),
        SessionError::Assemble(AssembleError::InvalidValue),
    ] {
        assert!(!e.is_retryable(), "{:?}", e);
    }
}

#[test]
fn answers_that_fail_change_nothing() {
    let cases: [(&[u8], SessionError); 5] = [
        (b"garbage", SessionError::Decode(DecodeError::Malformed)),
        (b"character.level:13&broken", SessionError::Decode(DecodeError::Malformed)),
        (b"error:not enough mushrooms", SessionError::Rejected),
        (b"character.level:13&guild.honor:5", SessionError::Assemble(AssembleError::Inconsistent)),
        (b"character.level:13&tavern.beers:many", SessionError::Assemble(AssembleError::InvalidValue)),
    ];
    for (reply, expected) in cases {
        let mut session = logged_in();
        let before = snapshot(&session);
        session.begin_send(&Command::Update).unwrap();
        assert_eq!(session.complete_send(Ok(reply.to_vec()), 77).err(), Some(expected));
        assert_eq!(session.phase(), Phase::Active);
        assert!(!session.is_busy());
        assert_eq!(snapshot(&session), before);
    }
}

#[test]
fn a_login_that_fails_leaves_the_session_unauthenticated() {
    let cases: [(Result<Vec<u8>, TransportError>, SessionError); 9] = [
        (Err(TransportError::Timeout), SessionError::Transport(TransportError::Timeout)),
        (Err(TransportError::Unreachable), SessionError::Transport(TransportError::Unreachable)),
        (Ok(b"no pairs here".to_vec()), SessionError::Decode(DecodeError::Malformed)),
        (Ok(b"error:wrong password".to_vec()), SessionError::Rejected),
        (Ok(b"error:x&sessionid:t&character:1|2|3|4".to_vec()), SessionError::Rejected),
        (Ok(b"character:1|2|3|4".to_vec()), SessionError::Rejected),
        (Ok(b"sessionid:&character:1|2|3|4".to_vec()), SessionError::Rejected),
        (Ok(b"sessionid:tok&timestamp:5".to_vec()), SessionError::Rejected),
        (Ok(b"sessionid:tok&guild:1|2|3&tavern.beers:1".to_vec()), SessionError::Assemble(AssembleError::Inconsistent)),
    ];
    for (reply, expected) in cases {
        let mut session = fresh("alice", "secret", "serverA");
        session.begin_login().unwrap();
        assert_eq!(session.complete_login(reply, 3).err(), Some(expected));
        assert_eq!(session.phase(), Phase::Unauthenticated);
        assert_eq!(session.token(), None);
        assert!(!session.state().has(Model::Character));
        assert!(session.begin_login().is_ok());
    }
    let mut session = fresh("alice", "secret", "serverA");
    session.begin_login().unwrap();
    let bad_value = session.complete_login(Ok(b"sessionid:tok&character:1|2|3".to_vec()), 3);
    assert_eq!(bad_value.err(), Some(SessionError::Assemble(AssembleError::InvalidValue)));
}

#[test]
fn a_second_login_keeps_the_old_state_until_it_succeeds() {
    let mut session = logged_in();
    let before = snapshot(&session);
    session.begin_login().unwrap();
    assert_eq!(session.token(), None);
    assert_eq!(snapshot(&session), before);
    assert_eq!(session.complete_login(Err(TransportError::Timeout), 0).err(), Some(SessionError::Transport(TransportError::Timeout)));
    assert_eq!(snapshot(&session), before);
    assert_eq!(session.begin_send(&Command::Update).err(), Some(SessionError::NotAuthenticated));
}

#[test]
fn a_player_of_any_name_can_log_in() {
    let names: [&[u8]; 6] = [
        b"alice",
        b"Alice of the North",
        "J\u{fc}rgen".as_bytes(),
        "\u{5f20}\u{4f1f}".as_bytes(),
        b"a:b&c|d~e%f",
        &[0xff, 0x20, 0x00],
    ];
    for name in names {
        let mut session = Session::new(name, b"secret", ServerConnection::new(b"serverA").unwrap());
        let request = session.begin_login().unwrap();
        assert_eq!(request.command.name, b"AccountLogin".to_vec());
        assert_eq!(
            request.command.args,
            vec![name.to_vec(), b"30931d3bad05758f6d4967370cd0409d74549048".to_vec()]
        );
        assert!(!request.command.args.contains(&b"secret".to_vec()));
        assert_eq!(request.server, b"serverA".to_vec());
        assert_eq!(session.phase(), Phase::Authenticating);
        let changes = session.complete_login(Ok(LOGIN_REPLY.to_vec()), 1_700_000_000).unwrap();
        assert_eq!(changes.models(), vec![Model::Character, Model::Tavern]);
        assert_eq!(session.phase(), Phase::Active);
        let sent = session.begin_send(&Command::Fight { name: name.to_vec(), use_mushroom: true }).unwrap();
        assert_eq!(sent.command.args, vec![name.to_vec(), b"1".to_vec()]);
        assert_eq!(sent.token, Some(b"tok-1".to_vec()));
    }
}

#[test]
fn a_login_can_bring_any_part_first() {
    let mut session = fresh("alice", "secret", "serverA");
    session.begin_login().unwrap();
    let changes = session.complete_login(Ok(b"sessionid:tok&tavern:1|2|3|4".to_vec()), 3).unwrap();
    assert_eq!(changes.models(), vec![Model::Tavern]);
    assert_eq!(session.phase(), Phase::Active);
    assert_eq!(session.state().record(Model::Tavern), Some(vec![1, 2, 3, 4]));
    assert!(!session.state().has(Model::Character));
}

#[test]
fn a_name_that_is_empty_or_holds_a_slash_cannot_log_in() {
    for name in ["", "al/ice", "/"] {
        let mut session = fresh(name, "secret", "serverA");
        assert_eq!(session.begin_login().err(), Some(SessionError::Encode(EncodeError::InvalidArgument)));
        assert_eq!(session.phase(), Phase::Unauthenticated);
        assert!(!session.is_busy());
    }
}

#[test]
fn an_answer_without_a_known_key_changes_nothing() {
    for reply in [&b""[..], b"news:1&Character:9|9|9|9&character.shoe_size:44", b"sessionid:other"] {
        let mut session = logged_in();
        let before = snapshot(&session);
        session.begin_send(&Command::Update).unwrap();
        let changes = session.complete_send(Ok(reply.to_vec()), 1_700_000_500).unwrap();
        assert!(changes.is_empty());
        assert_eq!(changes.models(), vec![]);
        assert_eq!(snapshot(&session), before);
        assert_eq!(session.phase(), Phase::Active);
        assert!(!session.is_busy());
        assert_eq!(session.token(), Some(&b"tok-1".to_vec()));
    }
}

#[test]
fn the_salt_follows_the_secret() {
    let salted = session_engine::digest::salted(b"secret");
    assert_eq!(salted, b"secretkZ8vQ2mT7rXw4LpB1nYd6sHc9GfJ3aUe".to_vec());
    assert_eq!(session_engine::digest::salted(b""), b"kZ8vQ2mT7rXw4LpB1nYd6sHc9GfJ3aUe".to_vec());
    assert_eq!(hash_secret(b"secret").len(), 40);
}
