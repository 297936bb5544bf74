//! The events that the client consumes, and the multiplexer's rule for
//! turning what its sources deliver into events.

use crate::keymap::KeyCode;
use crate::socket_client::Message;
use crate::time::Timestamp;
use crate::wire::{ClientMsgBody, ClientMsgBodyView};
use vstd::prelude::*;
use vstd::std_specs::convert::FromSpecImpl;

verus! {

/// What happened to a key.
#[derive(Clone, Copy, Debug, PartialEq, Eq, Hash, Structural)]
pub enum KeyEventKind {
    Press,
    Repeat,
    Release,
}

/// A key and what happened to it.
#[derive(Clone, Copy, Debug, PartialEq, Eq, Hash, Structural)]
pub struct KeyEvent {
    pub code: KeyCode,
    pub kind: KeyEventKind,
}

impl KeyEvent {
    /// The press of the key `code`.
    pub fn new(code: KeyCode) -> (out: KeyEvent)
        ensures
            out == (KeyEvent { code, kind: KeyEventKind::Press }),
    {
        KeyEvent { code, kind: KeyEventKind::Press }
    }
}

/// Where on the screen the mouse did something.
#[derive(Clone, Copy, Debug, PartialEq, Eq, Hash, Structural)]
pub struct MouseEvent {
    pub column: u16,
    pub row: u16,
}

/// An event of the client.
#[derive(Debug, PartialEq, Eq)]
pub enum Event {
    /// The client starts.
    Init,
    /// The client is to quit.
    Quit,
    /// The terminal was closed.
    Closed,
    /// The screen is to be drawn.
    Render,
    /// The window got the focus.
    FocusGained,
    /// The window lost the focus.
    FocusLost,
    /// A source reported an error from which the client recovers.
    Error,
    /// The state is to be updated.
    Tick,
    /// A key was pressed.
    Key(KeyEvent),
    /// The mouse did something.
    Mouse(MouseEvent),
    /// The terminal has this many columns and rows now.
    Resize(u16, u16),
    /// The server sent these bytes.
    Recv(Vec<u8>),
    /// A line of chat is to be sent.
    Send { token: String, username: String, timestamp: Timestamp, contents: String },
    /// A command is to be sent to the server.
    ServerCommand {
        token: String,
        username: String,
        timestamp: Timestamp,
        message_body: ClientMsgBody,
    },
    /// The server closed the connection.
    ServerClose,
}

/// An event as a mathematical value.
pub enum EventView {
    Init,
    Quit,
    Closed,
    Render,
    FocusGained,
    FocusLost,
    Error,
    Tick,
    Key(KeyEvent),
    Mouse(MouseEvent),
    Resize(u16, u16),
    Recv(Seq<u8>),
    Send { token: Seq<char>, username: Seq<char>, timestamp: Timestamp, contents: Seq<char> },
    ServerCommand {
        token: Seq<char>,
        username: Seq<char>,
        timestamp: Timestamp,
        message_body: ClientMsgBodyView,
    },
    ServerClose,
}

impl View for Event {
    type V = EventView;

    open spec fn view(&self) -> EventView {
        match *self {
            Event::Init => EventView::Init,
            Event::Quit => EventView::Quit,
            Event::Closed => EventView::Closed,
            Event::Render => EventView::Render,
            Event::FocusGained => EventView::FocusGained,
            Event::FocusLost => EventView::FocusLost,
            Event::Error => EventView::Error,
            Event::Tick => EventView::Tick,
            Event::Key(key) => EventView::Key(key),
            Event::Mouse(mouse) => EventView::Mouse(mouse),
            Event::Resize(columns, rows) => EventView::Resize(columns, rows),
            Event::Recv(data) => EventView::Recv(data@),
            Event::Send { token, username, timestamp, contents } => EventView::Send {
                token: token@,
                username: username@,
                timestamp,
                contents: contents@,
            },
            Event::ServerCommand { token, username, timestamp, message_body } => {
                EventView::ServerCommand {
                    token: token@,
                    username: username@,
                    timestamp,
                    message_body: message_body@,
                }
            },
            Event::ServerClose => EventView::ServerClose,
        }
    }
}

impl From<char> for Event {
    fn from(value: char) -> (out: Event) {
        Event::Key(KeyEvent::new(KeyCode::Char(value)))
    }
}

impl FromSpecImpl<char> for Event {
    open spec fn obeys_from_spec() -> bool {
        true
    }

    open spec fn from_spec(value: char) -> Event {
        Event::Key(KeyEvent { code: KeyCode::Char(value), kind: KeyEventKind::Press })
    }
}

impl From<KeyCode> for Event {
    fn from(value: KeyCode) -> (out: Event) {
        Event::Key(KeyEvent::new(value))
    }
}

impl FromSpecImpl<KeyCode> for Event {
    open spec fn obeys_from_spec() -> bool {
        true
    }

    open spec fn from_spec(value: KeyCode) -> Event {
        Event::Key(KeyEvent { code: value, kind: KeyEventKind::Press })
    }
}

/// What the terminal delivers.
#[derive(Debug, PartialEq, Eq)]
pub enum TerminalInput {
    /// Something happened to a key.
    Key(KeyEvent),
    /// The mouse did something.
    Mouse(MouseEvent),
    /// The terminal has this many columns and rows now.
    Resize(u16, u16),
    /// Anything else: a change of focus, pasted text.
    Other,
}

/// What one of the multiplexer's sources has ready: the transport, the
/// terminal, one of the two timers, or whoever tells it to stop.
#[derive(Debug, PartialEq, Eq)]
pub enum Ready {
    /// The transport delivered a frame.
    Frame(Message),
    /// The transport failed or ended.
    TransportFailed,
    /// The terminal delivered an event.
    Input(TerminalInput),
    /// The terminal's stream reported an error.
    InputFailed,
    /// The terminal's stream ended.
    InputEnded,
    /// The update timer ticked.
    UpdateTick,
    /// The render timer ticked.
    RenderTick,
    /// The multiplexer is told to stop.
    Shutdown,
}

impl Ready {
    /// The event that is forwarded for what a source has ready, if any.
    ///
    /// Frames of bytes are received, the closing frame and a failure of the
    /// transport close the session, any other frame is an error from which
    /// the client recovers. Of the keys only presses count. An error of the
    /// terminal's stream is an error event; its end is none. Each tick of a
    /// timer is exactly one event. The signal to stop is no event.
    pub open spec fn forwarded(self) -> Option<Event> {
        match self {
            Ready::Frame(Message::Binary(data)) => Some(Event::Recv(data)),
            Ready::Frame(Message::Close) => Some(Event::ServerClose),
            Ready::Frame(_) => Some(Event::Error),
            Ready::TransportFailed => Some(Event::ServerClose),
            Ready::Input(TerminalInput::Key(key)) => if key.kind == KeyEventKind::Press {
                Some(Event::Key(key))
            } else {
                None
            },
            Ready::Input(TerminalInput::Mouse(mouse)) => Some(Event::Mouse(mouse)),
            Ready::Input(TerminalInput::Resize(columns, rows)) => Some(
                Event::Resize(columns, rows),
            ),
            Ready::Input(TerminalInput::Other) => None,
            Ready::InputFailed => Some(Event::Error),
            Ready::InputEnded => None,
            Ready::UpdateTick => Some(Event::Tick),
            Ready::RenderTick => Some(Event::Render),
            Ready::Shutdown => None,
        }
    }

    /// Whether this comes from the transport.
    pub open spec fn from_transport(self) -> bool {
        self is Frame || self is TransportFailed
    }

    /// Whether the transport is closed after this: after its closing frame
    /// and after its failure.
    pub open spec fn closes(self) -> bool {
        self is TransportFailed || self == Ready::Frame(Message::Close)
    }
}

/// Turns what a source has ready into the event that is forwarded for it.
/// The caller hands in what became ready in the order in which it became
/// ready and forwards the events in that order.
pub fn multiplex(ready: Ready) -> (out: Option<Event>)
    ensures
        out == ready.forwarded(),
{
    match ready {
        Ready::Frame(message) => match message {
            Message::Binary(data) => Some(Event::Recv(data)),
            Message::Close => Some(Event::ServerClose),
            _ => Some(Event::Error),
        },
        Ready::TransportFailed => Some(Event::ServerClose),
        Ready::Input(input) => match input {
            TerminalInput::Key(key) => {
                if key.kind == KeyEventKind::Press {
                    Some(Event::Key(key))
                } else {
                    None
                }
            },
            TerminalInput::Mouse(mouse) => Some(Event::Mouse(mouse)),
            TerminalInput::Resize(columns, rows) => Some(Event::Resize(columns, rows)),
            TerminalInput::Other => None,
        },
        Ready::InputFailed => Some(Event::Error),
        Ready::InputEnded => None,
        Ready::UpdateTick => Some(Event::Tick),
        Ready::RenderTick => Some(Event::Render),
        Ready::Shutdown => None,
    }
}

/// The multiplexer as a mathematical value: whether it has been told to
/// stop, and whether the transport is closed.
pub struct MuxModel {
    pub stopped: bool,
    pub closed: bool,
}

/// An event, if there is one, as a sequence.
pub open spec fn one(event: Option<Event>) -> Seq<Event> {
    match event {
        Some(event) => seq![event],
        None => Seq::empty(),
    }
}

impl MuxModel {
    /// A multiplexer that runs, the transport open.
    pub open spec fn fresh() -> MuxModel {
        MuxModel { stopped: false, closed: false }
    }

    /// Whether the multiplexer heeds what a source has ready: once stopped
    /// it heeds nothing, and once the transport is closed it heeds nothing
    /// that still comes from there.
    pub open spec fn heeds(self, ready: Ready) -> bool {
        !self.stopped && !(self.closed && ready.from_transport())
    }

    /// The event that is forwarded for what a source has ready, if any.
    pub open spec fn forward(self, ready: Ready) -> Option<Event> {
        if self.heeds(ready) {
            ready.forwarded()
        } else {
            None
        }
    }

    /// The multiplexer after what a source had ready: the signal to stop
    /// stops it, and the closing frame and the failure of the transport
    /// close the transport. The other sources go on being served after
    /// that, so that the client can still be quit.
    pub open spec fn next(self, ready: Ready) -> MuxModel {
        if self.stopped {
            self
        } else {
            MuxModel { stopped: ready is Shutdown, closed: self.closed || ready.closes() }
        }
    }

    /// The multiplexer after all of `ready`, taken in order.
    pub open spec fn after(self, ready: Seq<Ready>) -> MuxModel
        decreases ready.len(),
    {
        if ready.len() == 0 {
            self
        } else {
            self.after(ready.drop_last()).next(ready.last())
        }
    }

    /// The events that are forwarded for all of `ready`, in the order in
    /// which it became ready.
    pub open spec fn forward_all(self, ready: Seq<Ready>) -> Seq<Event>
        decreases ready.len(),
    {
        if ready.len() == 0 {
            Seq::empty()
        } else {
            self.forward_all(ready.drop_last()) + one(
                self.after(ready.drop_last()).forward(ready.last()),
            )
        }
    }
}

/// What is forwarded for one run of readiness after another is what is
/// forwarded for the first, followed by what the multiplexer forwards for
/// the second in the state the first left it in: the events keep the order
/// of their causes.
pub proof fn law_forwarding_keeps_order(state: MuxModel, first: Seq<Ready>, second: Seq<Ready>)
    ensures
        state.after(first + second) == state.after(first).after(second),
        state.forward_all(first + second) == state.forward_all(first) + state.after(
            first,
        ).forward_all(second),
    decreases second.len(),
{
    if second.len() == 0 {
        assert(first + second =~= first);
    } else {
        law_forwarding_keeps_order(state, first, second.drop_last());
        assert((first + second).drop_last() =~= first + second.drop_last());
    }
}

/// After the signal to stop nothing is forwarded and nothing changes,
/// whatever becomes ready.
pub proof fn law_nothing_after_shutdown(state: MuxModel, ready: Seq<Ready>)
    requires
        state.stopped,
    ensures
        state.after(ready) == state,
        state.forward_all(ready) == Seq::<Event>::empty(),
    decreases ready.len(),
{
    if ready.len() > 0 {
        law_nothing_after_shutdown(state, ready.drop_last());
    }
}

/// Once the transport is closed it stays closed, and nothing is forwarded
/// for it any more: no bytes are received and the session is not closed a
/// second time.
pub proof fn law_closed_transport_is_silent(state: MuxModel, ready: Seq<Ready>, at: int)
    requires
        state.closed,
        0 <= at < state.forward_all(ready).len(),
    ensures
        state.after(ready).closed,
        !(state.forward_all(ready)[at] is Recv),
        !(state.forward_all(ready)[at] is ServerClose),
    decreases ready.len(),
{
    lemma_closed_stays(state, ready);
    if ready.len() > 0 {
        let before = ready.drop_last();
        lemma_closed_stays(state, before);
        if at < state.forward_all(before).len() {
            law_closed_transport_is_silent(state, before, at);
        }
    }
}

/// Once the transport is closed it stays closed.
pub proof fn lemma_closed_stays(state: MuxModel, ready: Seq<Ready>)
    requires
        state.closed,
    ensures
        state.after(ready).closed,
    decreases ready.len(),
{
    if ready.len() > 0 {
        lemma_closed_stays(state, ready.drop_last());
    }
}

/// While the multiplexer runs, each tick of a timer is exactly one event,
/// and leaves the multiplexer as it is.
pub proof fn law_each_tick_is_one_event(state: MuxModel)
    requires
        !state.stopped,
    ensures
        state.forward(Ready::UpdateTick) == Some(Event::Tick),
        state.forward(Ready::RenderTick) == Some(Event::Render),
        state.next(Ready::UpdateTick) == state,
        state.next(Ready::RenderTick) == state,
{
}

/// The multiplexer: it forwards events until it is told to stop, and
/// forwards nothing for the transport once that is closed.
#[derive(Debug, PartialEq, Eq)]
pub struct Multiplexer {
    stopped: bool,
    closed: bool,
}

impl View for Multiplexer {
    type V = MuxModel;

    closed spec fn view(&self) -> MuxModel {
        MuxModel { stopped: self.stopped, closed: self.closed }
    }
}

impl Multiplexer {
    /// A multiplexer that runs, the transport open.
    pub fn new() -> (out: Multiplexer)
        ensures
            out@ == MuxModel::fresh(),
    {
        Multiplexer { stopped: false, closed: false }
    }

    /// Whether the multiplexer has stopped.
    pub fn is_stopped(&self) -> (out: bool)
        ensures
            out == self@.stopped,
    {
        self.stopped
    }

    /// Whether the transport is closed, so that it need not be asked any
    /// more.
    pub fn transport_closed(&self) -> (out: bool)
        ensures
            out == self@.closed,
    {
        self.closed
    }

    /// Forwards the event for what a source has ready. The signal to stop
    /// stops the multiplexer; the closing frame and the failure of the
    /// transport close the transport.
    pub fn feed(&mut self, ready: Ready) -> (out: Option<Event>)
        ensures
            final(self)@ == old(self)@.next(ready),
            out == old(self)@.forward(ready),
    {
        if self.stopped {
            return None;
        }
        match &ready {
            Ready::Shutdown => {
                self.stopped = true;
            },
            Ready::TransportFailed => {
                if self.closed {
                    return None;
                }
                self.closed = true;
            },
            Ready::Frame(message) => {
                if self.closed {
                    return None;
                }
                if let Message::Close = message {
                    self.closed = true;
                }
            },
            _ => {},
        }
        multiplex(ready)
    }

    /// Forwards the events for all of `ready`, in order.
    pub fn drain(&mut self, ready: Vec<Ready>) -> (out: Vec<Event>)
        ensures
            final(self)@ == old(self)@.after(ready@),
            out@ == old(self)@.forward_all(ready@),
    {
        let mut out: Vec<Event> = Vec::new();
        let mut rest = ready;
        let ghost mut done: Seq<Ready> = Seq::empty();
        while rest.len() > 0
            invariant
                done + rest@ == ready@,
                self@ == old(self)@.after(done),
                out@ == old(self)@.forward_all(done),
            decreases rest@.len(),
        {
            let item = rest.remove(0);
            proof {
                assert(done.push(item).drop_last() =~= done);
                done = done.push(item);
            }
            match self.feed(item) {
                Some(event) => {
                    out.push(event);
                },
                None => {},
            }
        }
        assert(done =~= ready@);
        out
    }
}

} // verus!
