//! The client state machine: it turns commands into changes of state and
//! into the messages that are to go out.

use crate::chat_log::Log;
use crate::command::{Command, Mode};
use crate::event::{Event, EventView};
use crate::keymap::{KeyCode, KeyMapsModel, ModalKeyMaps};
use crate::log_ring::{logs_view, LogRing, RingModel};
use crate::style::{lines_of_spans, spans_view, Span};
use crate::text::{TextBuffer, TextModel};
use crate::time::{utc_now, Timestamp};
use crate::user_config::{name_of, UserConfig};
use crate::views::{lines_view, opt_view};
use crate::wire::{ClientMsgBody, ClientMsgBodyView};
use vstd::prelude::*;
use vstd::string::*;

verus! {

/// What the client knows of the room it is in.
#[derive(Debug, PartialEq, Eq)]
pub struct RoomState {
    pub room_name: String,
    pub occupants: Vec<String>,
}

/// The room as a mathematical value.
pub struct RoomView {
    pub room_name: Seq<char>,
    pub occupants: Seq<Seq<char>>,
}

impl View for RoomState {
    type V = RoomView;

    open spec fn view(&self) -> RoomView {
        RoomView { room_name: self.room_name@, occupants: lines_view(self.occupants@) }
    }
}

/// What handling a command asks of the caller.
#[derive(Debug, PartialEq, Eq)]
pub enum Outcome {
    /// Nothing.
    Idle,
    /// The message that this event describes is to go out.
    Emit(Event),
    /// A message was to go out, but the session has no token or no shared
    /// secret yet: nothing goes out.
    Unauthenticated,
}

/// An outcome as a mathematical value.
pub enum OutcomeView {
    Idle,
    Emit(EventView),
    Unauthenticated,
}

impl View for Outcome {
    type V = OutcomeView;

    open spec fn view(&self) -> OutcomeView {
        match *self {
            Outcome::Idle => OutcomeView::Idle,
            Outcome::Emit(event) => OutcomeView::Emit(event@),
            Outcome::Unauthenticated => OutcomeView::Unauthenticated,
        }
    }
}

/// The client's state as a mathematical value.
pub struct AppState {
    pub should_quit: bool,
    pub text: TextModel,
    pub ring: RingModel,
    pub mode: Mode,
    pub staged: Option<Command>,
    pub keymaps: KeyMapsModel,
    pub username: Seq<char>,
    pub token: Option<Seq<char>>,
    pub secret: Option<[u8; 32]>,
    pub room: RoomView,
}

impl AppState {
    /// The invariants of the state: the buffer has a line and the caret is
    /// in bounds; no more entries are on display than the ring allows; a
    /// command is staged exactly while its parameter is typed.
    pub open spec fn wf(self) -> bool {
        &&& self.text.wf()
        &&& self.ring.wf()
        &&& (self.staged is Some <==> self.mode == Mode::InsertCommand)
    }

    /// The state in which the client of the user `username` starts.
    pub open spec fn initial(username: Seq<char>) -> AppState {
        AppState {
            should_quit: false,
            text: TextModel::blank(),
            ring: RingModel::empty(),
            mode: Mode::Navigate,
            staged: None,
            keymaps: KeyMapsModel::standard(),
            username,
            token: None,
            secret: None,
            room: RoomView { room_name: Seq::empty(), occupants: Seq::empty() },
        }
    }

    /// Whether the session may send: it has a token and a shared secret.
    pub open spec fn authenticated(self) -> bool {
        self.token is Some && self.secret is Some
    }

    /// The command that the key `code` gives in the mode the client is in.
    pub open spec fn command(self, code: KeyCode) -> Option<Command> {
        self.keymaps.command(self.mode, code)
    }

    /// The state after a switch to `mode`. What was staged is dropped. The
    /// mode in which a parameter is typed is entered by staging a command
    /// only: a switch to it changes nothing.
    pub open spec fn switched(self, mode: Mode) -> AppState {
        if mode == Mode::InsertCommand {
            self
        } else {
            AppState { mode, staged: None, ..self }
        }
    }

    /// The state with the buffer emptied.
    pub open spec fn cleared(self) -> AppState {
        AppState { text: TextModel::blank(), ..self }
    }

    /// The state with `log` pushed onto the ring.
    pub open spec fn logged(self, log: crate::chat_log::LogView) -> AppState {
        AppState { ring: self.ring.push(log), ..self }
    }

    /// What comes of asking to send `event`: it goes out where the session
    /// is authenticated, and nothing goes out where it is not.
    pub open spec fn send(self, event: EventView) -> OutcomeView {
        if self.authenticated() {
            OutcomeView::Emit(event)
        } else {
            OutcomeView::Unauthenticated
        }
    }

    /// The event that asks for the line `contents` to be sent.
    pub open spec fn chat_event(self, contents: Seq<char>, now: Timestamp) -> EventView {
        EventView::Send {
            token: self.token->0,
            username: self.username,
            timestamp: now,
            contents,
        }
    }

    /// The event that asks for the request `body` to be sent.
    pub open spec fn command_event(self, body: ClientMsgBodyView, now: Timestamp) -> EventView {
        EventView::ServerCommand {
            token: self.token->0,
            username: self.username,
            timestamp: now,
            message_body: body,
        }
    }

    /// The state after `cmd`.
    ///
    /// Once the server has closed the connection only quitting is left.
    /// Editing works in every other mode. Sending the buffer, and sending or
    /// abandoning a staged command, empty the buffer and lead back to
    /// navigation; without a staged command the latter two change nothing.
    /// A command enters the navigation and the insert mode only.
    pub open spec fn next(self, cmd: Command) -> AppState {
        if self.mode == Mode::Disconnected && cmd != Command::Quit {
            self
        } else {
            match cmd {
                Command::Quit => AppState { should_quit: true, ..self },
                Command::Reset => self.cleared(),
                Command::Capture(c) => AppState { text: self.text.typed(c), ..self },
                Command::Del(offset) => AppState { text: self.text.delete(offset as int), ..self },
                Command::MoveCaret(motion, amount) => AppState {
                    text: self.text.move_caret(motion, amount as int),
                    ..self
                },
                Command::Enter(Mode::Navigate) => self.switched(Mode::Navigate),
                Command::Enter(Mode::Insert) => self.switched(Mode::Insert),
                Command::Enter(_) => self,
                Command::SendBuffer => self.switched(Mode::Navigate).cleared(),
                Command::GetServerTime => self,
                Command::ToggleDebug => AppState { ring: self.ring.toggle_debug(), ..self },
                Command::MoveRooms(None) => AppState {
                    mode: Mode::InsertCommand,
                    staged: Some(Command::MoveRooms(None)),
                    ..self
                },
                Command::MoveRooms(Some(_)) => self,
                Command::SendStagedCommand | Command::AbortStagedCommand => if self.staged is Some {
                    self.switched(Mode::Navigate).cleared()
                } else {
                    self
                },
            }
        }
    }

    /// What handling `cmd` at the time `now` asks of the caller.
    ///
    /// Sending the buffer asks for its text to go out as a line of chat;
    /// asking for the server's time and sending a staged move ask for a
    /// request to go out. Nothing else asks for anything.
    pub open spec fn outcome(self, cmd: Command, now: Timestamp) -> OutcomeView {
        if self.mode == Mode::Disconnected {
            OutcomeView::Idle
        } else {
            match cmd {
                Command::SendBuffer => self.send(self.chat_event(self.text.text(), now)),
                Command::GetServerTime => self.send(
                    self.command_event(ClientMsgBodyView::GetTime, now),
                ),
                Command::SendStagedCommand => match self.staged {
                    Some(Command::MoveRooms(None)) => self.send(
                        self.command_event(
                            ClientMsgBodyView::Move { target: self.text.text() },
                            now,
                        ),
                    ),
                    _ => OutcomeView::Idle,
                },
                _ => OutcomeView::Idle,
            }
        }
    }

    /// The state after the server has closed the connection, `log` being
    /// the entry that says so.
    pub open spec fn closed(self, log: crate::chat_log::LogView) -> AppState {
        self.logged(log).switched(Mode::Disconnected)
    }
}

/// The states that a sequence of commands leads through end in this one.
pub open spec fn run(start: AppState, cmds: Seq<Command>) -> AppState
    decreases cmds.len(),
{
    if cmds.len() == 0 {
        start
    } else {
        run(start, cmds.drop_last()).next(cmds.last())
    }
}

/// Whatever the command, the state after it meets the invariants: the
/// buffer has a line, the caret is in bounds, the ring is within its
/// capacity, and a command is staged exactly while its parameter is typed.
pub proof fn law_next_keeps_invariants(state: AppState, cmd: Command)
    requires
        state.wf(),
    ensures
        state.next(cmd).wf(),
{
    crate::log_ring::law_toggle_keeps_capacity(state.ring);
}

/// After every step of every sequence of commands the state meets the
/// invariants: of captures, deletions and caret moves as of all others.
pub proof fn law_run_keeps_invariants(start: AppState, cmds: Seq<Command>, steps: int)
    requires
        start.wf(),
        0 <= steps <= cmds.len(),
    ensures
        run(start, cmds.take(steps)).wf(),
    decreases steps,
{
    if steps > 0 {
        law_run_keeps_invariants(start, cmds, steps - 1);
        assert(cmds.take(steps).drop_last() =~= cmds.take(steps - 1));
        law_next_keeps_invariants(run(start, cmds.take(steps - 1)), cmds[steps - 1]);
    }
}

/// Sending a staged move leads back to navigation with nothing staged and
/// an empty buffer, and asks for the move to the room that the buffer named
/// to go out: it does go out where the client has a session, under its
/// token and the user's name.
pub proof fn law_sending_a_staged_move(state: AppState, now: Timestamp)
    requires
        state.wf(),
        state.staged == Some(Command::MoveRooms(None)),
    ensures
        state.next(Command::SendStagedCommand).mode == Mode::Navigate,
        state.next(Command::SendStagedCommand).staged is None,
        state.next(Command::SendStagedCommand).text == TextModel::blank(),
        state.outcome(Command::SendStagedCommand, now) == if state.authenticated() {
            OutcomeView::Emit(
                EventView::ServerCommand {
                    token: state.token->0,
                    username: state.username,
                    timestamp: now,
                    message_body: ClientMsgBodyView::Move { target: state.text.text() },
                },
            )
        } else {
            OutcomeView::Unauthenticated
        },
{
}

/// Abandoning a staged command where none is staged changes nothing and
/// asks for nothing; so it does in the navigation mode.
pub proof fn law_abort_without_staging_is_noop(state: AppState, now: Timestamp)
    requires
        state.wf(),
        state.mode != Mode::InsertCommand,
    ensures
        state.next(Command::AbortStagedCommand) == state,
        state.outcome(Command::AbortStagedCommand, now) == OutcomeView::Idle,
{
}

/// Abandoning twice is abandoning once.
pub proof fn law_abort_is_idempotent(state: AppState)
    requires
        state.wf(),
    ensures
        state.next(Command::AbortStagedCommand).next(Command::AbortStagedCommand) == state.next(
            Command::AbortStagedCommand,
        ),
{
}

/// No command disconnects the client: only the server closing the
/// connection does.
pub proof fn law_commands_never_disconnect(state: AppState, cmd: Command)
    requires
        state.mode != Mode::Disconnected,
    ensures
        state.next(cmd).mode != Mode::Disconnected,
{
}

/// Once the server has closed the connection, only quitting is left: every
/// other command leaves the state as it is and asks for nothing, and
/// quitting does nothing but mark the client as done.
pub proof fn law_only_quitting_is_left(state: AppState, cmd: Command, now: Timestamp)
    requires
        state.mode == Mode::Disconnected,
    ensures
        cmd != Command::Quit ==> state.next(cmd) == state,
        state.next(Command::Quit) == (AppState { should_quit: true, ..state }),
        state.outcome(cmd, now) == OutcomeView::Idle,
{
}

/// Nothing goes out without a session: where handling a command asks for a
/// message to go out, the client has a token and a shared secret, and the
/// message carries that token and the user's name.
pub proof fn law_sending_needs_a_session(state: AppState, cmd: Command, now: Timestamp)
    requires
        state.outcome(cmd, now) is Emit,
    ensures
        state.authenticated(),
        match state.outcome(cmd, now)->Emit_0 {
            EventView::Send { token, username, timestamp, .. } => Some(token) == state.token
                && username == state.username && timestamp == now,
            EventView::ServerCommand { token, username, timestamp, .. } => Some(token)
                == state.token && username == state.username && timestamp == now,
            _ => false,
        },
{
}

/// The client is marked as done by quitting and by nothing else.
pub proof fn law_only_quit_ends_the_client(state: AppState, cmd: Command)
    requires
        !state.should_quit,
    ensures
        state.next(cmd).should_quit <==> cmd == Command::Quit,
{
}

/// With the keymaps that the client starts with, a character key in the
/// insert mode gives the capture of that character, and handling the
/// capture leaves the mode as it is.
pub proof fn law_insert_mode_types_characters(state: AppState, c: char)
    requires
        state.keymaps == KeyMapsModel::standard(),
        state.mode == Mode::Insert,
    ensures
        state.command(KeyCode::Char(c)) == Some(Command::Capture(c)),
        state.next(Command::Capture(c)).mode == Mode::Insert,
        state.next(Command::Capture(c)).text == state.text.typed(c),
{
    crate::default_keybinds::law_typing_modes_capture_characters(Mode::Insert, c);
}

/// Where the client is and what it waits for.
#[derive(Debug)]
enum Phase {
    Navigate,
    Insert,
    InsertCommand(Command),
    Disconnected,
}

impl Phase {
    spec fn mode(self) -> Mode {
        match self {
            Phase::Navigate => Mode::Navigate,
            Phase::Insert => Mode::Insert,
            Phase::InsertCommand(_) => Mode::InsertCommand,
            Phase::Disconnected => Mode::Disconnected,
        }
    }

    spec fn staged(self) -> Option<Command> {
        match self {
            Phase::InsertCommand(command) => Some(command),
            _ => None,
        }
    }
}

/// The client: buffer, log ring, mode, keymaps and session.
#[derive(Debug)]
pub struct App {
    should_quit: bool,
    text: TextBuffer,
    ring: LogRing,
    phase: Phase,
    keymaps: ModalKeyMaps,
    username: String,
    token: Option<String>,
    shared_secret: Option<[u8; 32]>,
    room_state: RoomState,
}

impl View for App {
    type V = AppState;

    closed spec fn view(&self) -> AppState {
        AppState {
            should_quit: self.should_quit,
            text: self.text@,
            ring: self.ring@,
            mode: self.phase.mode(),
            staged: self.phase.staged(),
            keymaps: self.keymaps@,
            username: self.username@,
            token: opt_view(self.token),
            secret: self.shared_secret,
            room: self.room_state@,
        }
    }
}

impl App {
    /// A client for the user that `config` names: an empty buffer, an empty
    /// ring, the navigation mode, the standard keymaps, no session yet.
    pub fn new(config: UserConfig) -> (out: App)
        ensures
            out@ == AppState::initial(name_of(config@)),
            out@.wf(),
    {
        let out = App {
            should_quit: false,
            text: TextBuffer::new(),
            ring: LogRing::new(),
            phase: Phase::Navigate,
            keymaps: ModalKeyMaps::default(),
            username: config.get_username(),
            token: None,
            shared_secret: None,
            room_state: RoomState { room_name: String::new(), occupants: Vec::new() },
        };
        assert(out@.room.occupants =~= Seq::<Seq<char>>::empty());
        out
    }

    /// The invariants of the state follow from those of its parts. There is
    /// nothing to run here: the body is the proof, which has to stand in
    /// executable code to be told what holds of the buffer and the ring.
    #[inline]
    fn invariants(&self)
        ensures
            self@.wf(),
    {
        proof {
            use_type_invariant(&self.text);
            use_type_invariant(&self.ring);
            self.text.lemma_inv();
            self.ring.lemma_inv();
        }
    }

    /// Whether the client is to quit.
    pub fn should_quit(&self) -> (out: bool)
        ensures
            out == self@.should_quit,
    {
        self.should_quit
    }

    /// The mode the client is in.
    pub fn mode(&self) -> (out: Mode)
        ensures
            out == self@.mode,
    {
        match self.phase {
            Phase::Navigate => Mode::Navigate,
            Phase::Insert => Mode::Insert,
            Phase::InsertCommand(_) => Mode::InsertCommand,
            Phase::Disconnected => Mode::Disconnected,
        }
    }

    /// The command that waits for its parameter, if one does.
    pub fn staged_command(&self) -> (out: Option<Command>)
        ensures
            out == self@.staged,
            out is Some <==> self@.mode == Mode::InsertCommand,
    {
        match &self.phase {
            Phase::InsertCommand(command) => Some(command.clone()),
            _ => None,
        }
    }

    /// Whether debug entries are on display.
    pub fn show_debug(&self) -> (out: bool)
        ensures
            out == self@.ring.show_debug,
    {
        self.ring.show_debug()
    }

    /// The name of the user.
    pub fn username(&self) -> (out: &String)
        ensures
            out@ == self@.username,
    {
        &self.username
    }

    /// The session token, once the login has succeeded.
    pub fn token(&self) -> (out: &Option<String>)
        ensures
            opt_view(*out) == self@.token,
    {
        &self.token
    }

    /// The shared secret, once the keys are agreed.
    pub fn shared_secret(&self) -> (out: Option<[u8; 32]>)
        ensures
            out == self@.secret,
    {
        self.shared_secret
    }

    /// The lines of the buffer.
    pub fn buffer(&self) -> (out: &Vec<String>)
        ensures
            lines_view(out@) == self@.text.lines,
    {
        self.text.lines()
    }

    /// The log ring.
    pub fn logs(&self) -> (out: &LogRing)
        ensures
            out@ == self@.ring,
    {
        &self.ring
    }

    /// What the client knows of the room it is in.
    pub fn room_state(&self) -> (out: &RoomState)
        ensures
            out@ == self@.room,
    {
        &self.room_state
    }

    /// Stores the shared secret of the session.
    pub fn set_shared_secret(&mut self, shared_secret: [u8; 32])
        ensures
            final(self)@ == (AppState { secret: Some(shared_secret), ..old(self)@ }),
            final(self)@.wf(),
    {
        self.shared_secret = Some(shared_secret);
        self.invariants();
    }

    /// Stores the token of the session.
    pub fn store_token(&mut self, token: String)
        ensures
            final(self)@ == (AppState { token: Some(token@), ..old(self)@ }),
            final(self)@.wf(),
    {
        self.token = Some(token);
        self.invariants();
    }

    /// Replaces the buffer by the given lines, the caret at (1, 1). Without
    /// a line, or with a line too long to hold a caret past its end, the
    /// buffer stays as it is and the answer is `false`.
    pub fn set_buffer(&mut self, lines: Vec<String>) -> (out: bool)
        ensures
            out <==> lines@.len() >= 1 && forall|i: int|
                0 <= i < lines@.len() ==> (#[trigger] lines@[i])@.len() < usize::MAX,
            final(self)@ == if out {
                AppState {
                    text: TextModel { lines: lines_view(lines@), row: 1, col: 1 },
                    ..old(self)@
                }
            } else {
                old(self)@
            },
            final(self)@.wf(),
    {
        let out = match TextBuffer::from_lines(lines) {
            Some(text) => {
                self.text = text;
                true
            },
            None => false,
        };
        self.invariants();
        out
    }

    /// The command that the key `code` gives in the mode the client is in.
    pub fn map_key(&self, code: KeyCode) -> (out: Option<Command>)
        ensures
            out == self@.command(code),
    {
        let mode = self.mode();
        self.keymaps.get_cmd(&mode, code)
    }

    /// The newest `max_messages` entries on display, the oldest of them
    /// first, each cut into the pieces that are drawn.
    pub fn render_logs(&self, max_messages: usize, time_fmt: &str) -> (out: Vec<Vec<Span>>)
        ensures
            lines_of_spans(out@) == crate::log_ring::rendered_all(
                self@.ring.shown_tail(max_messages as int),
                time_fmt@,
            ),
    {
        self.ring.render_logs(max_messages, time_fmt)
    }

    /// The name of the mode the client is in.
    pub fn show_current_mode(&self) -> (out: String)
        ensures
            out@ == self@.mode.name(),
    {
        self.mode().to_string()
    }

    /// The legend of the mode the client is in.
    pub fn render_keymap(&self) -> (out: Vec<Vec<Span>>)
        ensures
            lines_of_spans(out@) == crate::keymap::legend_lines(
                self@.keymaps.bindings(self@.mode),
                0,
            ),
    {
        let mode = self.mode();
        self.keymaps.render(&mode)
    }

    /// The caret as (row, column), both counted from 1.
    pub fn get_caret_2d(&self) -> (out: (usize, usize))
        ensures
            out.0 == self@.text.row,
            out.1 == self@.text.col,
            self@.text.wf(),
    {
        self.text.get_caret_2d()
    }

    /// Puts the caret at `row`, `col`, clamped into the buffer.
    pub fn set_caret_2d(&mut self, row: usize, col: usize)
        ensures
            final(self)@ == (AppState {
                text: old(self)@.text.place(row as int, col as int),
                ..old(self)@
            }),
            final(self)@.wf(),
    {
        self.text.set_caret_2d(row, col);
        self.invariants();
    }

    /// All lines of the buffer joined into one string.
    pub fn render_buf(&self) -> (out: String)
        ensures
            out@ == self@.text.text(),
    {
        self.text.render_buf()
    }

    /// The caret's line cut in two at the caret.
    pub fn split_current_at_caret(&self) -> (out: (String, String))
        ensures
            out.0@ == self@.text.before_caret(),
            out.1@ == self@.text.after_caret(),
    {
        self.text.split_current_at_caret()
    }

    /// The buffer cut into the pieces that are drawn, the character under
    /// the caret in a span of its own.
    pub fn render_buf_styled(&self) -> (out: Vec<Span>)
        ensures
            spans_view(out@) == self@.text.styled(),
    {
        self.text.render_buf_styled()
    }

    /// Flips whether debug entries are on display.
    pub fn handle_toggle_debug(&mut self)
        ensures
            final(self)@ == (AppState { ring: old(self)@.ring.toggle_debug(), ..old(self)@ }),
            final(self)@.wf(),
    {
        self.ring.toggle_debug();
        self.invariants();
    }

    /// The title of the input area: the staged command while its parameter
    /// is typed, and a plain title else.
    pub open spec fn input_title(state: AppState) -> Seq<char> {
        match state.staged {
            Some(command) => "CMD: "@ + command.label(),
            None => "MSG"@,
        }
    }

    /// The title of the input area.
    pub fn input_area_name(&self) -> (out: String)
        ensures
            out@ == Self::input_title(self@),
    {
        match &self.phase {
            Phase::InsertCommand(command) => {
                let mut out = String::from_str("CMD: ");
                out.append(command.to_string().as_str());
                out
            },
            _ => String::from_str("MSG"),
        }
    }

    /// Switches to `mode` and drops what was staged. A switch to the mode
    /// in which a parameter is typed changes nothing: staging a command is
    /// what enters it.
    pub fn switch_mode(&mut self, mode: Mode)
        ensures
            final(self)@ == old(self)@.switched(mode),
            final(self)@.wf(),
    {
        match mode {
            Mode::Navigate => {
                self.phase = Phase::Navigate;
            },
            Mode::Insert => {
                self.phase = Phase::Insert;
            },
            Mode::InsertCommand => {},
            Mode::Disconnected => {
                self.phase = Phase::Disconnected;
            },
        }
        self.invariants();
    }

    /// Asks for the line `contents` to go out, where the session may send.
    fn send_chat(&self, contents: String, now: Timestamp) -> (out: Outcome)
        ensures
            out@ == self@.send(self@.chat_event(contents@, now)),
    {
        match &self.token {
            Some(token) => {
                if self.shared_secret.is_some() {
                    Outcome::Emit(
                        Event::Send {
                            token: token.clone(),
                            username: self.username.clone(),
                            timestamp: now,
                            contents,
                        },
                    )
                } else {
                    Outcome::Unauthenticated
                }
            },
            None => Outcome::Unauthenticated,
        }
    }

    /// Asks for the request `body` to go out, where the session may send.
    fn send_server_command(&self, body: ClientMsgBody, now: Timestamp) -> (out: Outcome)
        ensures
            out@ == self@.send(self@.command_event(body@, now)),
    {
        match &self.token {
            Some(token) => {
                if self.shared_secret.is_some() {
                    Outcome::Emit(
                        Event::ServerCommand {
                            token: token.clone(),
                            username: self.username.clone(),
                            timestamp: now,
                            message_body: body,
                        },
                    )
                } else {
                    Outcome::Unauthenticated
                }
            },
            None => Outcome::Unauthenticated,
        }
    }

    /// Sends the buffer as a line of chat, stamped `now`: the line goes out
    /// where the session may send; the buffer is emptied and the client is
    /// back in navigation either way. Once the server has closed the
    /// connection nothing happens.
    pub fn handle_send(&mut self, now: Timestamp) -> (out: Outcome)
        ensures
            final(self)@ == old(self)@.next(Command::SendBuffer),
            out@ == old(self)@.outcome(Command::SendBuffer, now),
            final(self)@.wf(),
    {
        self.invariants();
        if let Phase::Disconnected = self.phase {
            return Outcome::Idle;
        }
        let out = self.send_chat(self.text.render_buf(), now);
        self.text.reset();
        self.phase = Phase::Navigate;
        self.invariants();
        out
    }

    /// Handles `cmd` at the time `now`.
    pub fn handle_at(&mut self, cmd: Command, now: Timestamp) -> (out: Outcome)
        ensures
            final(self)@ == old(self)@.next(cmd),
            out@ == old(self)@.outcome(cmd, now),
            final(self)@.wf(),
    {
        self.invariants();
        if let Phase::Disconnected = self.phase {
            if let Command::Quit = cmd {
                self.should_quit = true;
            }
            return Outcome::Idle;
        }
        match cmd {
            Command::Quit => {
                self.should_quit = true;
                Outcome::Idle
            },
            Command::Reset => {
                self.text.reset();
                Outcome::Idle
            },
            Command::Capture(c) => {
                self.text.capture(c);
                Outcome::Idle
            },
            Command::Del(offset) => {
                self.text.delete(offset);
                Outcome::Idle
            },
            Command::MoveCaret(motion, amount) => {
                self.text.move_caret(motion, amount);
                Outcome::Idle
            },
            Command::Enter(Mode::Navigate) => {
                self.switch_mode(Mode::Navigate);
                Outcome::Idle
            },
            Command::Enter(Mode::Insert) => {
                self.switch_mode(Mode::Insert);
                Outcome::Idle
            },
            Command::Enter(_) => Outcome::Idle,
            Command::SendBuffer => self.handle_send(now),
            Command::GetServerTime => self.send_server_command(ClientMsgBody::GetTime, now),
            Command::ToggleDebug => {
                self.ring.toggle_debug();
                Outcome::Idle
            },
            Command::MoveRooms(None) => {
                self.phase = Phase::InsertCommand(Command::MoveRooms(None));
                Outcome::Idle
            },
            Command::MoveRooms(Some(_)) => Outcome::Idle,
            Command::SendStagedCommand => self.handle_send_staged_command(now),
            Command::AbortStagedCommand => {
                self.handle_abort_staged_command();
                Outcome::Idle
            },
        }
    }

    /// Sends the staged command with the buffer's text as its parameter:
    /// the request goes out where the session may send; the buffer is
    /// emptied, nothing is staged any more and the client is back in
    /// navigation either way. Without a staged command nothing happens.
    pub fn handle_send_staged_command(&mut self, now: Timestamp) -> (out: Outcome)
        ensures
            final(self)@ == old(self)@.next(Command::SendStagedCommand),
            out@ == old(self)@.outcome(Command::SendStagedCommand, now),
            final(self)@.wf(),
    {
        self.invariants();
        let mut phase = Phase::Navigate;
        std::mem::swap(&mut self.phase, &mut phase);
        match phase {
            Phase::InsertCommand(staged) => {
                let params = self.text.render_buf();
                let out = match staged.parse_params(params) {
                    Some(Command::MoveRooms(Some(target))) => self.send_server_command(
                        ClientMsgBody::Move { target },
                        now,
                    ),
                    _ => Outcome::Idle,
                };
                self.text.reset();
                out
            },
            other => {
                self.phase = other;
                Outcome::Idle
            },
        }
    }

    /// Abandons the staged command: the buffer is emptied, nothing is
    /// staged any more and the client is back in navigation. Without a
    /// staged command nothing happens.
    pub fn handle_abort_staged_command(&mut self)
        ensures
            final(self)@ == old(self)@.next(Command::AbortStagedCommand),
            final(self)@.wf(),
    {
        self.invariants();
        if let Phase::InsertCommand(_) = self.phase {
            self.phase = Phase::Navigate;
            self.text.reset();
        }
    }

    /// Handles `cmd` at the current time. The state after it is the same
    /// at whatever time; what is to go out carries the time.
    pub fn handle(&mut self, cmd: Command) -> (out: Outcome)
        ensures
            final(self)@ == old(self)@.next(cmd),
            exists|now: Timestamp| out@ == old(self)@.outcome(cmd, now),
            final(self)@.wf(),
    {
        let now = utc_now();
        self.handle_at(cmd, now)
    }

    /// Puts `log` in front of the ring; the ring evicts what is over its
    /// capacity.
    pub fn push_log(&mut self, log: Log)
        ensures
            final(self)@ == old(self)@.logged(log@),
            final(self)@.wf(),
    {
        self.ring.push_log(log);
        self.invariants();
    }

    /// Puts a debug entry that shows `shown` in front of the ring, stamped
    /// with the current time.
    pub fn push_debug_log(&mut self, shown: String)
        ensures
            exists|now: Timestamp|
                final(self)@ == #[trigger] old(self)@.logged(
                    crate::chat_log::debug_entry(shown@, now),
                ),
            final(self)@.wf(),
    {
        let log = Log::new_debug(shown);
        let ghost now = log.ts;
        self.ring.push_log(log);
        assert(self@ == old(self)@.logged(crate::chat_log::debug_entry(shown@, now)));
        self.invariants();
    }

    /// Empties the ring and fills it from `chat_logs`, the first one first.
    pub fn replace_logs(&mut self, chat_logs: Vec<Log>)
        ensures
            final(self)@ == (AppState {
                ring: old(self)@.ring.replace(logs_view(chat_logs@)),
                ..old(self)@
            }),
            final(self)@.wf(),
    {
        self.ring.replace_logs(chat_logs);
        self.invariants();
    }

    /// Takes over the state of the room: the ring is filled from the
    /// room's chat, the notifications are pushed after it, and the room's
    /// name and occupants are remembered.
    pub fn update_room(
        &mut self,
        chat_logs: Vec<Log>,
        notifications: Vec<Log>,
        occupants: Vec<String>,
        room_name: String,
    )
        ensures
            final(self)@ == (AppState {
                ring: old(self)@.ring.replace(logs_view(chat_logs@)).push_all(
                    logs_view(notifications@),
                ),
                room: RoomView { room_name: room_name@, occupants: lines_view(occupants@) },
                ..old(self)@
            }),
            final(self)@.wf(),
    {
        self.ring.replace_logs(chat_logs);
        self.ring.push_logs(notifications);
        self.room_state = RoomState { room_name, occupants };
        self.invariants();
    }
}

} // verus!
