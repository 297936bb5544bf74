//! How events change the client's state, and what they ask of the caller.

use crate::app::{App, AppState, Outcome, OutcomeView, RoomView};
use crate::chat_log::{debug_entry, Log, LogView};
use crate::command::Mode;
use crate::event::{Event, EventView};
use crate::log_ring::logs_view;
use crate::views::lines_view;
use crate::time::Timestamp;
use crate::wire::{
    ChatMsg, ClientMsg, ClientMsgBody, ClientMsgBodyView, ClientMsgView, ServerMsg, ServerMsgBody,
    Status,
};
use vstd::prelude::*;
use vstd::string::*;

verus! {

/// The pattern under which the server's time is shown.
pub const SERVER_TIME_FORMAT: &'static str = "%Y-%m-%D %H:%M:%S";

/// What the caller of the dispatcher is to do next.
#[derive(Debug, PartialEq, Eq)]
pub enum Action {
    /// Nothing.
    Idle,
    /// Draw the screen.
    Draw,
    /// Lay `msg` out in bytes, encrypt them under `key` and send them.
    Transmit { msg: ClientMsg, key: [u8; 32] },
    /// Decrypt `data` under `key`, read the message in it and hand back
    /// what came of that.
    Decode { data: Vec<u8>, key: [u8; 32] },
}

/// An action as a mathematical value.
pub enum ActionView {
    Idle,
    Draw,
    Transmit { msg: ClientMsgView, key: [u8; 32] },
    Decode { data: Seq<u8>, key: [u8; 32] },
}

impl View for Action {
    type V = ActionView;

    open spec fn view(&self) -> ActionView {
        match *self {
            Action::Idle => ActionView::Idle,
            Action::Draw => ActionView::Draw,
            Action::Transmit { msg, key } => ActionView::Transmit { msg: msg@, key },
            Action::Decode { data, key } => ActionView::Decode { data: data@, key },
        }
    }
}

/// What came of the bytes that the server sent.
#[derive(Debug, PartialEq, Eq)]
pub enum Inbound {
    /// They held the message `msg`, which reads as `shown` in the debug
    /// log.
    Message { msg: ServerMsg, shown: String },
    /// They could not be decrypted, for this reason.
    Undecryptable(String),
    /// They were decrypted but held no message, for this reason.
    Malformed(String),
}

/// An entry that the client itself writes into the log.
pub open spec fn client_entry(msg: Seq<char>, now: Timestamp) -> LogView {
    LogView { ts: now, from: "CLIENT"@, msg, debug: false }
}

/// An entry that speaks for the server.
pub open spec fn server_entry(msg: Seq<char>, ts: Timestamp) -> LogView {
    LogView { ts, from: "SERVER"@, msg, debug: false }
}

/// The log entries for the lines that the server reports.
pub open spec fn entries(lines: Seq<ChatMsg>, now: Timestamp) -> Seq<LogView> {
    Seq::new(lines.len(), |i: int| lines[i].entry(now))
}

/// The time of a message: its own, or `now` where it has none.
pub open spec fn stamp(ts: Option<Timestamp>, now: Timestamp) -> Timestamp {
    match ts {
        Some(ts) => ts,
        None => now,
    }
}

/// The state after a message that reports success.
///
/// A line of chat and a notice become entries under the envelope's time. An
/// empty body reports the server's time. The state of a room replaces the
/// log and the room. A second report of a login is noted and otherwise
/// ignored.
pub open spec fn after_server_msg(state: AppState, msg: ServerMsg, now: Timestamp) -> AppState {
    let dt = stamp(msg.timestamp, now);
    match msg.body {
        ServerMsgBody::LoginSuccess { .. } => state.logged(
            client_entry("Received a second LoginSuccess message from the server."@, now),
        ),
        ServerMsgBody::ChatRecv { chat_msg } => state.logged(
            LogView { ts: dt, from: chat_msg.sender@, msg: chat_msg.content@, debug: false },
        ),
        ServerMsgBody::Empty => state.logged(
            server_entry("The time is: "@ + dt.text_or_empty(SERVER_TIME_FORMAT@), now),
        ),
        ServerMsgBody::RoomData { logs, notifications, occupants, room_name } => AppState {
            ring: state.ring.replace(entries(logs@, now)).push_all(entries(notifications@, now)),
            room: RoomView { room_name: room_name@, occupants: lines_view(occupants@) },
            ..state
        },
        ServerMsgBody::Notification { body } => state.logged(server_entry(body@, dt)),
    }
}

/// The state after a message of the server, `shown` being how the message
/// reads in the debug log.
pub open spec fn after_message(
    state: AppState,
    msg: ServerMsg,
    shown: Seq<char>,
    now: Timestamp,
) -> AppState {
    let noted = state.logged(debug_entry(shown, now));
    match msg.status {
        Status::Yes => after_server_msg(noted, msg, now),
        Status::No(reason) => noted.logged(server_entry(reason@, now)),
        Status::JustNo => noted.logged(client_entry("Failed to login"@, now)),
    }
}

/// The state after what came of the bytes that the server sent has been
/// taken in: a message is applied; bytes that held none leave an entry in
/// the log that says why.
pub open spec fn received(state: AppState, inbound: Inbound, now: Timestamp) -> AppState {
    match inbound {
        Inbound::Message { msg, shown } => after_message(state, msg, shown@, now),
        Inbound::Undecryptable(reason) => state.logged(
            client_entry("Failed to decrypt incoming message with error: "@ + reason@, now),
        ),
        Inbound::Malformed(reason) => state.logged(
            client_entry("Could not deserialize inbound message: "@ + reason@, now),
        ),
    }
}

/// The message that an event asks to send, where it is one that does.
pub open spec fn envelope(event: EventView) -> Option<ClientMsgView> {
    match event {
        EventView::Send { token, timestamp, contents, .. } => Some(
            ClientMsgView {
                token: Some(token),
                body: ClientMsgBodyView::SendToRoom { contents },
                timestamp,
            },
        ),
        EventView::ServerCommand { token, timestamp, message_body, .. } => Some(
            ClientMsgView { token: Some(token), body: message_body, timestamp },
        ),
        _ => None,
    }
}

/// The state after asking to send `msg`: unchanged where there is a key to
/// encrypt under, with an entry that says so where there is none.
pub open spec fn after_transmit(state: AppState, now: Timestamp) -> AppState {
    if state.secret is Some {
        state
    } else {
        state.logged(client_entry("No key for encryption of outgoing message."@, now))
    }
}

/// What asking to send `msg` asks of the caller.
pub open spec fn transmit_action(state: AppState, msg: ClientMsgView) -> ActionView {
    match state.secret {
        Some(key) => ActionView::Transmit { msg, key },
        None => ActionView::Idle,
    }
}

/// The state after what handling a command asked for has been seen to.
pub open spec fn after_outcome(state: AppState, outcome: OutcomeView, now: Timestamp) -> AppState {
    match outcome {
        OutcomeView::Unauthenticated => state.logged(
            client_entry("Not logged in: nothing was sent."@, now),
        ),
        _ => state,
    }
}

/// What the outcome of a command asks of the caller.
pub open spec fn outcome_action(state: AppState, outcome: OutcomeView) -> ActionView {
    match outcome {
        OutcomeView::Emit(event) => match envelope(event) {
            Some(msg) => transmit_action(state, msg),
            None => ActionView::Idle,
        },
        _ => ActionView::Idle,
    }
}

/// The state after `event` at the time `now`.
///
/// A key is looked up in the keymap of the mode and its command, if it has
/// one, is handled. When the server closes the connection the log says so
/// and the client is disconnected. Bytes of the server without a key to
/// decrypt them, and an error of a source, leave an entry in the log. Every
/// other event leaves the state as it is.
pub open spec fn updated(state: AppState, event: EventView, now: Timestamp) -> AppState {
    match event {
        EventView::Key(key) => match state.command(key.code) {
            Some(cmd) => after_outcome(state.next(cmd), state.outcome(cmd, now), now),
            None => state,
        },
        EventView::ServerClose => state.closed(server_entry("Connection closed by server"@, now)),
        EventView::Recv(_) => if state.secret is Some {
            state
        } else {
            state.logged(client_entry("No key for decryption of incoming message."@, now))
        },
        EventView::Error => state.logged(client_entry("A source reported an error."@, now)),
        _ => state,
    }
}

/// What `event` at the time `now` asks of the caller.
pub open spec fn update_action(state: AppState, event: EventView, now: Timestamp) -> ActionView {
    match event {
        EventView::Key(key) => match state.command(key.code) {
            Some(cmd) => outcome_action(state.next(cmd), state.outcome(cmd, now)),
            None => ActionView::Idle,
        },
        EventView::Recv(data) => match state.secret {
            Some(key) => ActionView::Decode { data, key },
            None => ActionView::Idle,
        },
        _ => ActionView::Idle,
    }
}

/// An entry of the client, stamped `now`.
fn client_log(msg: String, now: Timestamp) -> (out: Log)
    ensures
        out@ == client_entry(msg@, now),
{
    Log { ts: now, from: String::from_str("CLIENT"), msg, debug: false }
}

/// An entry that speaks for the server, stamped `ts`.
fn server_log(msg: String, ts: Timestamp) -> (out: Log)
    ensures
        out@ == server_entry(msg@, ts),
{
    Log { ts, from: String::from_str("SERVER"), msg, debug: false }
}

/// Turns the lines that the server reports into log entries.
fn logs_of(lines: Vec<ChatMsg>, now: Timestamp) -> (out: Vec<Log>)
    ensures
        logs_view(out@) == entries(lines@, now),
{
    let mut out: Vec<Log> = Vec::new();
    let mut i: usize = 0;
    while i < lines.len()
        invariant
            i <= lines@.len(),
            out@.len() == i,
            forall|j: int| 0 <= j < i ==> (#[trigger] out@[j])@ == lines@[j].entry(now),
        decreases lines@.len() - i,
    {
        let line = &lines[i];
        let ts = match line.timestamp {
            Some(ts) => ts,
            None => now,
        };
        out.push(Log { ts, from: line.sender.clone(), msg: line.content.clone(), debug: false });
        i = i + 1;
    }
    out
}

/// Asks for `msg` to be sent: it goes out under the session's key; where
/// there is none the log says so and nothing goes out.
pub(crate) fn transmit(app: &mut App, msg: ClientMsg, now: Timestamp) -> (out: Action)
    ensures
        final(app)@ == after_transmit(old(app)@, now),
        out@ == transmit_action(old(app)@, msg@),
{
    match app.shared_secret() {
        Some(key) => Action::Transmit { msg, key },
        None => {
            app.push_log(
                client_log(String::from_str("No key for encryption of outgoing message."), now),
            );
            Action::Idle
        },
    }
}

/// Applies a message of the server that reports success.
pub fn handle_server_msg(app: &mut App, msg: ServerMsg, now: Timestamp)
    ensures
        final(app)@ == after_server_msg(old(app)@, msg, now),
{
    let dt = match msg.timestamp {
        Some(ts) => ts,
        None => now,
    };
    match msg.body {
        ServerMsgBody::LoginSuccess { .. } => {
            app.push_log(
                client_log(
                    String::from_str("Received a second LoginSuccess message from the server."),
                    now,
                ),
            );
        },
        ServerMsgBody::ChatRecv { chat_msg } => {
            app.push_log(
                Log { ts: dt, from: chat_msg.sender, msg: chat_msg.content, debug: false },
            );
        },
        ServerMsgBody::Empty => {
            let mut text = String::from_str("The time is: ");
            text.append(dt.format_or_empty(SERVER_TIME_FORMAT).as_str());
            app.push_log(server_log(text, now));
        },
        ServerMsgBody::RoomData { logs, notifications, occupants, room_name } => {
            let chat_logs = logs_of(logs, now);
            let notes = logs_of(notifications, now);
            app.update_room(chat_logs, notes, occupants, room_name);
        },
        ServerMsgBody::Notification { body } => {
            app.push_log(server_log(body, dt));
        },
    }
}

/// Applies a message of the server, `shown` being how the message reads in
/// the debug log: the message is noted there; then a success is applied, and
/// a refusal becomes an entry of the log.
pub fn apply_message(app: &mut App, msg: ServerMsg, shown: String, now: Timestamp)
    ensures
        final(app)@ == after_message(old(app)@, msg, shown@, now),
{
    app.push_log(Log { ts: now, from: String::from_str("DEBUG"), msg: shown, debug: true });
    match msg.status {
        Status::Yes => {
            handle_server_msg(
                app,
                ServerMsg { status: Status::Yes, timestamp: msg.timestamp, body: msg.body },
                now,
            );
        },
        Status::No(reason) => {
            app.push_log(server_log(reason, now));
        },
        Status::JustNo => {
            app.push_log(client_log(String::from_str("Failed to login"), now));
        },
    }
}

/// Takes in what came of the bytes that the server sent. A message is
/// applied; bytes that held none leave an entry in the log.
pub fn receive(app: &mut App, inbound: Inbound, now: Timestamp)
    ensures
        final(app)@ == received(old(app)@, inbound, now),
{
    match inbound {
        Inbound::Message { msg, shown } => {
            apply_message(app, msg, shown, now);
        },
        Inbound::Undecryptable(reason) => {
            let mut text = String::from_str("Failed to decrypt incoming message with error: ");
            text.append(reason.as_str());
            app.push_log(client_log(text, now));
        },
        Inbound::Malformed(reason) => {
            let mut text = String::from_str("Could not deserialize inbound message: ");
            text.append(reason.as_str());
            app.push_log(client_log(text, now));
        },
    }
}

/// Sees to what handling a command asked for.
fn settle(app: &mut App, outcome: Outcome, now: Timestamp) -> (out: Action)
    ensures
        final(app)@ == after_outcome(old(app)@, outcome@, now),
        out@ == outcome_action(old(app)@, outcome@),
{
    match outcome {
        Outcome::Idle => Action::Idle,
        Outcome::Unauthenticated => {
            app.push_log(client_log(String::from_str("Not logged in: nothing was sent."), now));
            Action::Idle
        },
        Outcome::Emit(event) => match event {
            Event::Send { token, username, timestamp, contents } => {
                let msg = ClientMsg {
                    token: Some(token),
                    body: ClientMsgBody::SendToRoom { contents },
                    timestamp,
                };
                match app.shared_secret() {
                    Some(key) => Action::Transmit { msg, key },
                    None => Action::Idle,
                }
            },
            Event::ServerCommand { token, username, timestamp, message_body } => {
                let msg = ClientMsg { token: Some(token), body: message_body, timestamp };
                match app.shared_secret() {
                    Some(key) => Action::Transmit { msg, key },
                    None => Action::Idle,
                }
            },
            _ => Action::Idle,
        },
    }
}

/// Applies `event` at the time `now` and says what the caller is to do.
pub fn update(app: &mut App, event: Event, now: Timestamp) -> (out: Action)
    ensures
        final(app)@ == updated(old(app)@, event@, now),
        out@ == update_action(old(app)@, event@, now),
{
    match event {
        Event::Key(key) => match app.map_key(key.code) {
            Some(cmd) => {
                let outcome = app.handle_at(cmd, now);
                settle(app, outcome, now)
            },
            None => Action::Idle,
        },
        Event::ServerClose => {
            app.push_log(server_log(String::from_str("Connection closed by server"), now));
            app.switch_mode(Mode::Disconnected);
            Action::Idle
        },
        Event::Recv(data) => match app.shared_secret() {
            Some(key) => Action::Decode { data, key },
            None => {
                app.push_log(
                    client_log(
                        String::from_str("No key for decryption of incoming message."),
                        now,
                    ),
                );
                Action::Idle
            },
        },
        Event::Error => {
            app.push_log(client_log(String::from_str("A source reported an error."), now));
            Action::Idle
        },
        _ => Action::Idle,
    }
}

/// Whatever the server sends, and whatever comes of it, the state meets the
/// invariants after it has been taken in.
pub proof fn law_receiving_keeps_invariants(state: AppState, inbound: Inbound, now: Timestamp)
    requires
        state.wf(),
    ensures
        received(state, inbound, now).wf(),
{
    match inbound {
        Inbound::Message { msg, shown } => {
            let noted = state.logged(debug_entry(shown@, now));
            lemma_logged_keeps_invariants(state, debug_entry(shown@, now));
            match msg.status {
                Status::Yes => {
                    lemma_server_msg_keeps_invariants(noted, msg, now);
                },
                Status::No(reason) => {
                    lemma_logged_keeps_invariants(noted, server_entry(reason@, now));
                },
                Status::JustNo => {
                    lemma_logged_keeps_invariants(noted, client_entry("Failed to login"@, now));
                },
            }
        },
        Inbound::Undecryptable(reason) => {
            lemma_logged_keeps_invariants(
                state,
                client_entry("Failed to decrypt incoming message with error: "@ + reason@, now),
            );
        },
        Inbound::Malformed(reason) => {
            lemma_logged_keeps_invariants(
                state,
                client_entry("Could not deserialize inbound message: "@ + reason@, now),
            );
        },
    }
}

/// Pushing an entry keeps the invariants.
pub proof fn lemma_logged_keeps_invariants(state: AppState, log: LogView)
    requires
        state.wf(),
    ensures
        state.logged(log).wf(),
{
    crate::log_ring::law_push_keeps_capacity(state.ring, log);
}

/// Applying a message that reports success keeps the invariants.
pub proof fn lemma_server_msg_keeps_invariants(state: AppState, msg: ServerMsg, now: Timestamp)
    requires
        state.wf(),
    ensures
        after_server_msg(state, msg, now).wf(),
{
    let dt = stamp(msg.timestamp, now);
    match msg.body {
        ServerMsgBody::LoginSuccess { .. } => {
            lemma_logged_keeps_invariants(
                state,
                client_entry("Received a second LoginSuccess message from the server."@, now),
            );
        },
        ServerMsgBody::ChatRecv { chat_msg } => {
            lemma_logged_keeps_invariants(
                state,
                LogView { ts: dt, from: chat_msg.sender@, msg: chat_msg.content@, debug: false },
            );
        },
        ServerMsgBody::Empty => {
            lemma_logged_keeps_invariants(
                state,
                server_entry("The time is: "@ + dt.text_or_empty(SERVER_TIME_FORMAT@), now),
            );
        },
        ServerMsgBody::RoomData { logs, notifications, occupants, room_name } => {
            let emptied = crate::log_ring::RingModel {
                entries: Seq::empty(),
                show_debug: state.ring.show_debug,
            };
            crate::log_ring::law_push_all_keeps_capacity(emptied, entries(logs@, now));
            crate::log_ring::law_push_all_keeps_capacity(
                state.ring.replace(entries(logs@, now)),
                entries(notifications@, now),
            );
        },
        ServerMsgBody::Notification { body } => {
            lemma_logged_keeps_invariants(state, server_entry(body@, dt));
        },
    }
}

/// Whatever the event, the state meets the invariants after it.
pub proof fn law_update_keeps_invariants(state: AppState, event: EventView, now: Timestamp)
    requires
        state.wf(),
    ensures
        updated(state, event, now).wf(),
{
    match event {
        EventView::Key(key) => match state.command(key.code) {
            Some(cmd) => {
                crate::app::law_next_keeps_invariants(state, cmd);
                lemma_logged_keeps_invariants(
                    state.next(cmd),
                    client_entry("Not logged in: nothing was sent."@, now),
                );
            },
            None => {},
        },
        EventView::ServerClose => {
            lemma_logged_keeps_invariants(
                state,
                server_entry("Connection closed by server"@, now),
            );
        },
        EventView::Recv(_) => {
            lemma_logged_keeps_invariants(
                state,
                client_entry("No key for decryption of incoming message."@, now),
            );
        },
        EventView::Error => {
            lemma_logged_keeps_invariants(
                state,
                client_entry("A source reported an error."@, now),
            );
        },
        _ => {},
    }
}

} // verus!
