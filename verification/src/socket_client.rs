//! Where the server is found, and which of the frames that the socket
//! delivers are passed on.

use crate::views::lines_view;
use vstd::prelude::*;
use vstd::string::*;

verus! {

/// The port that is used where none is given.
pub const DEFAULT_PORT: &'static str = "1337";

/// A frame of the socket.
#[derive(Debug, PartialEq, Eq)]
pub enum Message {
    /// A frame of text; the protocol has none.
    Text(String),
    /// A frame of bytes: an encrypted envelope.
    Binary(Vec<u8>),
    /// The peer closes the connection.
    Close,
    /// Any other frame: a ping, a pong, a raw frame.
    Other,
}

impl Message {
    /// Whether the frame is passed on to the client: frames of bytes and the
    /// closing frame are, nothing else is.
    pub open spec fn wanted(self) -> bool {
        self is Binary || self is Close
    }

    /// Decides whether a frame that the socket delivered is passed on.
    pub fn forward(self) -> (out: Option<Message>)
        ensures
            out == if self.wanted() {
                Some(self)
            } else {
                None
            },
    {
        match self {
            Message::Binary(data) => Some(Message::Binary(data)),
            Message::Close => Some(Message::Close),
            _ => None,
        }
    }

    /// The bytes of a frame of bytes; `None` for every other frame.
    pub fn into_binary(self) -> (out: Option<Vec<u8>>)
        ensures
            out == match self {
                Message::Binary(data) => Some(data),
                _ => None,
            },
    {
        match self {
            Message::Binary(data) => Some(data),
            _ => None,
        }
    }
}

/// The text of the URL that `url::Url::parse` makes of `text`: the URL in
/// its normal form. `None` where `text` is no absolute URL.
pub uninterp spec fn normalized_url(text: Seq<char>) -> Option<Seq<char>>;

/// Calls `url::Url::parse` and hands out the serialization of the URL it
/// returns. The contract names the text: it depends on the argument alone.
#[verifier::external_body]
fn parse_url(text: &str) -> (out: Option<String>)
    ensures
        match out {
            Some(s) => normalized_url(text@) == Some(s@),
            None => normalized_url(text@) is None,
        },
{
    match url::Url::parse(text) {
        Ok(parsed) => Some(String::from(parsed)),
        Err(_) => None,
    }
}

/// The host and the port of the server.
#[derive(Debug, PartialEq, Eq)]
pub struct SocketConf {
    host: String,
    port: String,
}

/// What a socket configuration holds.
pub struct SocketConfView {
    pub host: Seq<char>,
    pub port: Seq<char>,
}

impl View for SocketConf {
    type V = SocketConfView;

    closed spec fn view(&self) -> SocketConfView {
        SocketConfView { host: self.host@, port: self.port@ }
    }
}

impl Clone for SocketConf {
    fn clone(&self) -> (out: Self)
        ensures
            out@ == self@,
    {
        SocketConf { host: self.host.clone(), port: self.port.clone() }
    }
}

impl SocketConfView {
    /// The address of the server's socket, where the host is a bare host
    /// name: one without a slash.
    pub open spec fn address(self) -> Option<Seq<char>> {
        if self.host.contains('/') {
            None
        } else {
            Some("ws://"@ + self.host + ":"@ + self.port)
        }
    }

    /// The URL of the server's socket in its normal form.
    pub open spec fn url(self) -> Option<Seq<char>> {
        match self.address() {
            Some(address) => normalized_url(address),
            None => None,
        }
    }
}

/// The configuration that the arguments of the program ask for: the first
/// argument after the program's name is the host, the second the port.
pub open spec fn conf_of_args(args: Seq<Seq<char>>) -> Option<SocketConfView> {
    if args.len() < 2 {
        None
    } else {
        Some(
            SocketConfView {
                host: args[1],
                port: if args.len() >= 3 {
                    args[2]
                } else {
                    DEFAULT_PORT@
                },
            },
        )
    }
}

impl SocketConf {
    /// The server at `host`, port `port`.
    pub fn new(host: String, port: String) -> (out: SocketConf)
        ensures
            out@ == (SocketConfView { host: host@, port: port@ }),
    {
        SocketConf { host, port }
    }

    /// Reads the configuration from the arguments of the program, the
    /// program's name first. `None` where no host is given; the port is
    /// `DEFAULT_PORT` where none is given.
    pub fn from_args(args: &Vec<String>) -> (out: Option<SocketConf>)
        ensures
            match out {
                Some(conf) => conf_of_args(lines_view(args@)) == Some(conf@),
                None => conf_of_args(lines_view(args@)) is None,
            },
    {
        if args.len() < 2 {
            return None;
        }
        let port = if args.len() >= 3 {
            args[2].clone()
        } else {
            String::from_str(DEFAULT_PORT)
        };
        Some(SocketConf { host: args[1].clone(), port })
    }

    /// The address of the server's socket; `None` where the host holds a
    /// slash, which a bare host name does not.
    pub fn address(&self) -> (out: Option<String>)
        ensures
            match out {
                Some(s) => self@.address() == Some(s@),
                None => self@.address() is None,
            },
    {
        let host = self.host.as_str();
        let n = host.unicode_len();
        let mut i: usize = 0;
        while i < n
            invariant
                i <= n,
                n == host@.len(),
                host@ == self@.host,
                forall|j: int| 0 <= j < i ==> host@[j] != '/',
            decreases n - i,
        {
            if host.get_char(i) == '/' {
                return None;
            }
            i = i + 1;
        }
        let mut out = String::from_str("ws://");
        out.append(host);
        out.append(":");
        out.append(self.port.as_str());
        Some(out)
    }

    /// The URL of the server's socket in its normal form; `None` where the
    /// host holds a slash or the address is no URL.
    pub fn url(&self) -> (out: Option<String>)
        ensures
            match out {
                Some(s) => self@.url() == Some(s@),
                None => self@.url() is None,
            },
    {
        match self.address() {
            Some(address) => parse_url(address.as_str()),
            None => None,
        }
    }
}

} // verus!
