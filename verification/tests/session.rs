use marain_tui::app::App;
use marain_tui::shared_secret::{create_key_pair, handle_login_success, login_msg};
use marain_tui::time::Timestamp;
use marain_tui::update::{apply_message, handle_server_msg, receive, Inbound};
use marain_tui::user_config::UserConfig;
use marain_tui::wire::{
    ChatMsg, ClientMsg, ClientMsgBody, Credentials, ServerMsg, ServerMsgBody, Status,
};

const NOW: Timestamp = Timestamp { secs: 1_700_000_000, nanos: 0 };
const THEN: Timestamp = Timestamp { secs: 1_431_648_000, nanos: 0 };

fn fresh() -> App {
    App::new(UserConfig::new(Some("ada".to_string())))
}

fn success(body: ServerMsgBody) -> ServerMsg {
    ServerMsg { status: Status::Yes, timestamp: Some(THEN), body }
}

fn line(sender: &str, content: &str, timestamp: Option<Timestamp>) -> ChatMsg {
    ChatMsg { sender: sender.to_string(), timestamp, content: content.to_string() }
}

fn logs(app: &App) -> Vec<(Timestamp, String, String, bool)> {
    app.logs()
        .entries()
        .iter()
        .map(|log| (log.ts, log.from.clone(), log.msg.clone(), log.debug))
        .collect()
}

fn entry(ts: Timestamp, from: &str, msg: &str) -> (Timestamp, String, String, bool) {
    (ts, from.to_string(), msg.to_string(), false)
}

#[test]
fn the_login_message_carries_name_and_key() {
    let app = fresh();
    assert_eq!(
        login_msg(&app, [3u8; 32], NOW),
        ClientMsg {
            token: None,
            body: ClientMsgBody::Login("ada".to_string(), [3u8; 32]),
            timestamp: NOW,
        }
    );
}

#[test]
fn key_pairs_are_fresh() {
    let (_, first) = create_key_pair();
    let (_, second) = create_key_pair();
    assert_ne!(first, second);
    assert_ne!(first, [0u8; 32]);
}

#[test]
fn both_sides_agree_on_the_secret() {
    let (client_secret, client_public) = create_key_pair();
    let (server_secret, server_public) = create_key_pair();
    let mut client = fresh();
    let mut server = fresh();
    let reply = |key: [u8; 32], token: &str| {
        success(ServerMsgBody::LoginSuccess { token: token.to_string(), public_key: key })
    };
    assert!(handle_login_success(&mut client, client_secret, reply(server_public, "tok")));
    assert!(handle_login_success(&mut server, server_secret, reply(client_public, "kot")));
    assert_eq!(client.token(), &Some("tok".to_string()));
    assert_eq!(server.token(), &Some("kot".to_string()));
    assert!(client.shared_secret().is_some());
    assert_eq!(client.shared_secret(), server.shared_secret());
    assert_ne!(client.shared_secret(), Some(server_public));
    assert_ne!(client.shared_secret(), Some(client_public));
}

#[test]
fn a_refused_login_changes_nothing() {
    let replies = vec![
        ServerMsg {
            status: Status::JustNo,
            timestamp: None,
            body: ServerMsgBody::LoginSuccess { token: "tok".to_string(), public_key: [1u8; 32] },
        },
        ServerMsg {
            status: Status::No("taken".to_string()),
            timestamp: None,
            body: ServerMsgBody::LoginSuccess { token: "tok".to_string(), public_key: [1u8; 32] },
        },
        success(ServerMsgBody::Empty),
        success(ServerMsgBody::Notification { body: "hi".to_string() }),
    ];
    for reply in replies {
        let (secret, _) = create_key_pair();
        let mut app = fresh();
        assert!(!handle_login_success(&mut app, secret, reply));
        assert_eq!(app.token(), &None);
        assert_eq!(app.shared_secret(), None);
    }
}

#[test]
fn reading_the_reply_to_a_login() {
    let reply = success(ServerMsgBody::LoginSuccess {
        token: "tok".to_string(),
        public_key: [9u8; 32],
    });
    assert_eq!(
        reply.into_login(),
        Some(Credentials { token: "tok".to_string(), public_key: [9u8; 32] })
    );
    assert_eq!(success(ServerMsgBody::Empty).into_login(), None);
    let refused = ServerMsg {
        status: Status::JustNo,
        timestamp: None,
        body: ServerMsgBody::LoginSuccess { token: "tok".to_string(), public_key: [9u8; 32] },
    };
    assert_eq!(refused.into_login(), None);
}

#[test]
fn chat_is_logged_under_the_envelopes_time() {
    let mut app = fresh();
    let msg = success(ServerMsgBody::ChatRecv { chat_msg: line("bob", "hi", Some(NOW)) });
    handle_server_msg(&mut app, msg, NOW);
    assert_eq!(logs(&app), vec![entry(THEN, "bob", "hi")]);
    let msg = ServerMsg {
        status: Status::Yes,
        timestamp: None,
        body: ServerMsgBody::ChatRecv { chat_msg: line("bob", "ho", Some(THEN)) },
    };
    handle_server_msg(&mut app, msg, NOW);
    assert_eq!(logs(&app)[0], entry(NOW, "bob", "ho"));
}

#[test]
fn a_notice_is_logged_for_the_server() {
    let mut app = fresh();
    handle_server_msg(&mut app, success(ServerMsgBody::Notification { body: "up".to_string() }), NOW);
    assert_eq!(logs(&app), vec![entry(THEN, "SERVER", "up")]);
}

#[test]
fn an_empty_body_reports_the_servers_time() {
    let mut app = fresh();
    handle_server_msg(&mut app, success(ServerMsgBody::Empty), NOW);
    assert_eq!(logs(&app), vec![entry(NOW, "SERVER", "The time is: 2015-05-05/15/15 00:00:00")]);
}

#[test]
fn a_second_login_is_noted() {
    let mut app = fresh();
    let msg = success(ServerMsgBody::LoginSuccess {
        token: "tok".to_string(),
        public_key: [1u8; 32],
    });
    handle_server_msg(&mut app, msg, NOW);
    assert_eq!(
        logs(&app),
        vec![entry(NOW, "CLIENT", "Received a second LoginSuccess message from the server.")]
    );
    assert_eq!(app.token(), &None);
}

#[test]
fn the_state_of_a_room_replaces_the_log() {
    let mut app = fresh();
    handle_server_msg(&mut app, success(ServerMsgBody::Notification { body: "old".to_string() }), NOW);
    let msg = success(ServerMsgBody::RoomData {
        logs: vec![line("bob", "one", Some(THEN)), line("eve", "two", None)],
        notifications: vec![line("SERVER", "bob joined", None)],
        occupants: vec!["bob".to_string(), "eve".to_string()],
        room_name: "hall".to_string(),
    });
    handle_server_msg(&mut app, msg, NOW);
    assert_eq!(
        logs(&app),
        vec![
            entry(NOW, "SERVER", "bob joined"),
            entry(NOW, "eve", "two"),
            entry(THEN, "bob", "one"),
        ]
    );
    assert_eq!(app.room_state().room_name, "hall");
    assert_eq!(app.room_state().occupants, vec!["bob".to_string(), "eve".to_string()]);
}

#[test]
fn a_message_is_noted_in_the_debug_log_first() {
    let mut app = fresh();
    let msg = success(ServerMsgBody::Notification { body: "up".to_string() });
    receive(&mut app, Inbound::Message { msg, shown: "Notification(up)".to_string() }, NOW);
    assert_eq!(
        logs(&app),
        vec![
            entry(THEN, "SERVER", "up"),
            (NOW, "DEBUG".to_string(), "Notification(up)".to_string(), true),
        ]
    );
    assert_eq!(app.logs().log_count(), 1);
}

#[test]
fn a_refusal_with_a_reason_is_logged_for_the_server() {
    let mut app = fresh();
    let msg = ServerMsg {
        status: Status::No("no such room".to_string()),
        timestamp: Some(THEN),
        body: ServerMsgBody::Notification { body: "ignored".to_string() },
    };
    apply_message(&mut app, msg, "shown".to_string(), NOW);
    assert_eq!(logs(&app)[0], entry(NOW, "SERVER", "no such room"));
    assert_eq!(logs(&app).len(), 2);
}

#[test]
fn a_refusal_without_a_reason_is_logged_for_the_client() {
    let mut app = fresh();
    let msg = ServerMsg { status: Status::JustNo, timestamp: None, body: ServerMsgBody::Empty };
    apply_message(&mut app, msg, "shown".to_string(), NOW);
    assert_eq!(logs(&app)[0], entry(NOW, "CLIENT", "Failed to login"));
    assert_eq!(logs(&app).len(), 2);
}

#[test]
fn bytes_that_hold_no_message_are_logged() {
    let mut app = fresh();
    receive(&mut app, Inbound::Malformed("unexpected end".to_string()), NOW);
    assert_eq!(
        logs(&app),
        vec![entry(NOW, "CLIENT", "Could not deserialize inbound message: unexpected end")]
    );
    receive(&mut app, Inbound::Undecryptable("bad padding".to_string()), NOW);
    assert_eq!(
        logs(&app)[0],
        entry(NOW, "CLIENT", "Failed to decrypt incoming message with error: bad padding")
    );
    assert_eq!(logs(&app).len(), 2);
}
