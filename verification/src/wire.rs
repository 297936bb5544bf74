//! The messages that client and server exchange, as plain values. How they
//! are laid out in bytes is the codec's business.

use crate::chat_log::LogView;
use crate::views::opt_view;
use crate::time::Timestamp;
use vstd::prelude::*;

verus! {

/// What the client asks of the server.
#[derive(Debug, PartialEq, Eq)]
pub enum ClientMsgBody {
    /// Log in under this name, with this public key of the client.
    Login(String, [u8; 32]),
    /// Say this in the room the client is in.
    SendToRoom { contents: String },
    /// Ask for the server's time.
    GetTime,
    /// Move to the room of this name.
    Move { target: String },
}

/// A request body as a mathematical value.
pub enum ClientMsgBodyView {
    Login(Seq<char>, [u8; 32]),
    SendToRoom { contents: Seq<char> },
    GetTime,
    Move { target: Seq<char> },
}

impl View for ClientMsgBody {
    type V = ClientMsgBodyView;

    open spec fn view(&self) -> ClientMsgBodyView {
        match *self {
            ClientMsgBody::Login(name, key) => ClientMsgBodyView::Login(name@, key),
            ClientMsgBody::SendToRoom { contents } => ClientMsgBodyView::SendToRoom {
                contents: contents@,
            },
            ClientMsgBody::GetTime => ClientMsgBodyView::GetTime,
            ClientMsgBody::Move { target } => ClientMsgBodyView::Move { target: target@ },
        }
    }
}

impl Clone for ClientMsgBody {
    fn clone(&self) -> (out: Self)
        ensures
            out == *self,
    {
        match self {
            ClientMsgBody::Login(name, key) => ClientMsgBody::Login(name.clone(), *key),
            ClientMsgBody::SendToRoom { contents } => ClientMsgBody::SendToRoom {
                contents: contents.clone(),
            },
            ClientMsgBody::GetTime => ClientMsgBody::GetTime,
            ClientMsgBody::Move { target } => ClientMsgBody::Move { target: target.clone() },
        }
    }
}

/// The envelope of a request: the session token, once there is one, the
/// body and the time of sending.
#[derive(Debug, PartialEq, Eq)]
pub struct ClientMsg {
    pub token: Option<String>,
    pub body: ClientMsgBody,
    pub timestamp: Timestamp,
}

/// A request as a mathematical value.
pub struct ClientMsgView {
    pub token: Option<Seq<char>>,
    pub body: ClientMsgBodyView,
    pub timestamp: Timestamp,
}

impl View for ClientMsg {
    type V = ClientMsgView;

    open spec fn view(&self) -> ClientMsgView {
        ClientMsgView {
            token: opt_view(self.token),
            body: self.body@,
            timestamp: self.timestamp,
        }
    }
}

/// Whether the server did what it was asked.
#[derive(Debug, PartialEq, Eq)]
pub enum Status {
    /// It did.
    Yes,
    /// It did not, for this reason.
    No(String),
    /// It did not, and gives no reason.
    JustNo,
}

/// A line of chat, or a notification, as the server reports it.
#[derive(Debug, PartialEq, Eq)]
pub struct ChatMsg {
    pub sender: String,
    pub timestamp: Option<Timestamp>,
    pub content: String,
}

impl ChatMsg {
    /// The log entry for this line. A line without a time of its own gets
    /// the time `now`.
    pub open spec fn entry(self, now: Timestamp) -> LogView {
        LogView {
            ts: match self.timestamp {
                Some(ts) => ts,
                None => now,
            },
            from: self.sender@,
            msg: self.content@,
            debug: false,
        }
    }
}

/// What the server tells the client.
#[derive(Debug, PartialEq, Eq)]
pub enum ServerMsgBody {
    /// The login succeeded: the session token and the server's public key.
    LoginSuccess { token: String, public_key: [u8; 32] },
    /// Somebody said something.
    ChatRecv { chat_msg: ChatMsg },
    /// The state of the room the client is in.
    RoomData {
        logs: Vec<ChatMsg>,
        notifications: Vec<ChatMsg>,
        occupants: Vec<String>,
        room_name: String,
    },
    /// A notice of the server.
    Notification { body: String },
    /// Nothing but the envelope.
    Empty,
}

/// The envelope of what the server sends: the status, the server's time
/// where it gives one, and the body.
#[derive(Debug, PartialEq, Eq)]
pub struct ServerMsg {
    pub status: Status,
    pub timestamp: Option<Timestamp>,
    pub body: ServerMsgBody,
}

/// What a successful login yields: the session token and the server's
/// public key.
#[derive(Debug, PartialEq, Eq)]
pub struct Credentials {
    pub token: String,
    pub public_key: [u8; 32],
}

impl ServerMsg {
    /// The token and the server's public key, where this message reports a
    /// successful login.
    pub open spec fn login(self) -> Option<Credentials> {
        match (self.status, self.body) {
            (Status::Yes, ServerMsgBody::LoginSuccess { token, public_key }) => Some(
                Credentials { token, public_key },
            ),
            _ => None,
        }
    }

    /// Reads the reply to a login: the session token and the server's public
    /// key where the status is a success and the body reports the login,
    /// `None` for every other reply.
    pub fn into_login(self) -> (out: Option<Credentials>)
        ensures
            out == self.login(),
    {
        match self.status {
            Status::Yes => match self.body {
                ServerMsgBody::LoginSuccess { token, public_key } => Some(
                    Credentials { token, public_key },
                ),
                _ => None,
            },
            _ => None,
        }
    }
}

} // verus!
