//! Log entries: chat lines, server notices and debug output.

use crate::style::{spans_view, Role, Span, SpanView};
use crate::time::{utc_now, Timestamp};
use vstd::prelude::*;
use vstd::string::*;

verus! {

/// The pattern under which an entry's time is shown where none is given.
pub const CLOCK_FORMAT: &'static str = "%H:%M:%S";

/// One entry of the log.
#[derive(Debug, PartialEq, Eq)]
pub struct Log {
    pub ts: Timestamp,
    pub from: String,
    pub msg: String,
    pub debug: bool,
}

/// A log entry as a mathematical value.
pub struct LogView {
    pub ts: Timestamp,
    pub from: Seq<char>,
    pub msg: Seq<char>,
    pub debug: bool,
}

impl LogView {
    /// Whether the entry is shown: debug entries only while debug output is
    /// switched on.
    pub open spec fn shown(self, show_debug: bool) -> bool {
        !self.debug || show_debug
    }

    /// The entry as six pieces: delimiters round the time and the sender,
    /// then the message.
    pub open spec fn rendered(self, time_fmt: Seq<char>) -> Seq<SpanView> {
        seq![
            SpanView { text: "[ "@, role: Role::Delimiter },
            SpanView { text: self.ts.text_or_empty(time_fmt), role: Role::Time },
            SpanView { text: " : "@, role: Role::Delimiter },
            SpanView { text: self.from, role: Role::Username },
            SpanView { text: " ]: "@, role: Role::Delimiter },
            SpanView { text: self.msg, role: Role::Message },
        ]
    }

    /// The entry as one line of plain text.
    pub open spec fn line(self) -> Seq<char> {
        "[ "@ + self.ts.text_or_empty(CLOCK_FORMAT@) + " | "@ + self.from + " ]: "@ + self.msg
    }
}

impl View for Log {
    type V = LogView;

    open spec fn view(&self) -> LogView {
        LogView { ts: self.ts, from: self.from@, msg: self.msg@, debug: self.debug }
    }
}

impl Clone for Log {
    fn clone(&self) -> (out: Self)
        ensures
            out == *self,
    {
        Log { ts: self.ts, from: self.from.clone(), msg: self.msg.clone(), debug: self.debug }
    }
}

/// The debug entry that shows `shown`, stamped `ts`.
pub open spec fn debug_entry(shown: Seq<char>, ts: Timestamp) -> LogView {
    LogView { ts, from: "DEBUG"@, msg: shown, debug: true }
}

impl Log {
    /// An entry from `uname` that says `message`, stamped with the current
    /// time.
    pub fn new(uname: String, message: String) -> (out: Log)
        ensures
            out.from == uname,
            out.msg == message,
            !out.debug,
    {
        Log { ts: utc_now(), from: uname, msg: message, debug: false }
    }

    /// A debug entry that shows `shown`, the rendering of whatever is to be
    /// looked at, stamped with the current time.
    pub fn new_debug(shown: String) -> (out: Log)
        ensures
            out@ == debug_entry(shown@, out.ts),
    {
        Log::new(String::from_str("DEBUG"), shown).as_debug()
    }

    /// The same entry, marked as debug output.
    pub fn as_debug(self) -> (out: Log)
        ensures
            out == (Log { debug: true, ..self }),
    {
        let mut out = self;
        out.debug = true;
        out
    }

    /// The same entry, stamped with `ts`.
    pub fn at(self, ts: Timestamp) -> (out: Log)
        ensures
            out == (Log { ts, ..self }),
    {
        let mut out = self;
        out.ts = ts;
        out
    }

    /// The time of the entry.
    pub fn get_ts(&self) -> (out: Timestamp)
        ensures
            out == self.ts,
    {
        self.ts
    }

    /// The text of the entry.
    pub fn get_msg_body(&self) -> (out: String)
        ensures
            out == self.msg,
    {
        self.msg.clone()
    }

    /// The sender of the entry.
    pub fn get_username(&self) -> (out: String)
        ensures
            out == self.from,
    {
        self.from.clone()
    }

    /// Whether the entry is shown under the given debug setting.
    pub fn should_render(&self, show_debug: bool) -> (out: bool)
        ensures
            out == self@.shown(show_debug),
    {
        (!self.debug) || show_debug
    }

    /// The entry cut into the pieces that are drawn, its time under
    /// `time_fmt`. A time that cannot be rendered is left empty.
    pub fn render(&self, time_fmt: &str) -> (out: Vec<Span>)
        ensures
            spans_view(out@) == self@.rendered(time_fmt@),
    {
        let mut out: Vec<Span> = Vec::new();
        out.push(Span::new(String::from_str("[ "), Role::Delimiter));
        out.push(Span::new(self.ts.format_or_empty(time_fmt), Role::Time));
        out.push(Span::new(String::from_str(" : "), Role::Delimiter));
        out.push(Span::new(self.get_username(), Role::Username));
        out.push(Span::new(String::from_str(" ]: "), Role::Delimiter));
        out.push(Span::new(self.msg.clone(), Role::Message));
        out
    }

    /// The entry as one line of plain text, its time as hours, minutes and
    /// seconds.
    pub fn to_string(&self) -> (out: String)
        ensures
            out@ == self@.line(),
    {
        let mut out = String::from_str("[ ");
        out.append(self.ts.format_or_empty(CLOCK_FORMAT).as_str());
        out.append(" | ");
        out.append(self.from.as_str());
        out.append(" ]: ");
        out.append(self.msg.as_str());
        out
    }
}

} // verus!
