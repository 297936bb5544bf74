//! Modes of the client and the commands that drive its state machine.

use vstd::prelude::*;
use vstd::string::StringExecFns;

verus! {

/// The mode the client is in; it selects the active keymap.
#[derive(Clone, Copy, Debug, PartialEq, Eq, Hash, Structural)]
pub enum Mode {
    Navigate,
    Insert,
    InsertCommand,
    Disconnected,
}

impl Mode {
    /// The name of the mode as it is shown to the user.
    pub open spec fn name(self) -> Seq<char> {
        match self {
            Mode::Navigate => "Navigate"@,
            Mode::Insert => "Insert"@,
            Mode::InsertCommand => "InsertCommand"@,
            Mode::Disconnected => "Disconnected"@,
        }
    }

    /// Renders the mode's name.
    pub fn to_string(&self) -> (out: String)
        ensures
            out@ == self.name(),
    {
        match self {
            Mode::Navigate => String::from_str("Navigate"),
            Mode::Insert => String::from_str("Insert"),
            Mode::InsertCommand => String::from_str("InsertCommand"),
            Mode::Disconnected => String::from_str("Disconnected"),
        }
    }
}

/// The axis along which the caret moves.
#[derive(Clone, Copy, Debug, PartialEq, Eq, Hash, Structural)]
pub enum CaretMotion {
    Character,
    Line,
}

/// A request to the client state machine.
#[derive(Debug, PartialEq, Eq, Hash)]
pub enum Command {
    Reset,
    Quit,
    Capture(char),
    Del(isize),
    MoveCaret(CaretMotion, isize),
    Enter(Mode),
    SendBuffer,
    GetServerTime,
    MoveRooms(Option<String>),
    SendStagedCommand,
    AbortStagedCommand,
    ToggleDebug,
}

impl Clone for Command {
    fn clone(&self) -> (out: Self)
        ensures
            out == *self,
    {
        match self {
            Command::Reset => Command::Reset,
            Command::Quit => Command::Quit,
            Command::Capture(c) => Command::Capture(*c),
            Command::Del(offset) => Command::Del(*offset),
            Command::MoveCaret(motion, amount) => Command::MoveCaret(*motion, *amount),
            Command::Enter(mode) => Command::Enter(*mode),
            Command::SendBuffer => Command::SendBuffer,
            Command::GetServerTime => Command::GetServerTime,
            Command::MoveRooms(None) => Command::MoveRooms(None),
            Command::MoveRooms(Some(target)) => Command::MoveRooms(Some(target.clone())),
            Command::SendStagedCommand => Command::SendStagedCommand,
            Command::AbortStagedCommand => Command::AbortStagedCommand,
            Command::ToggleDebug => Command::ToggleDebug,
        }
    }
}

impl Command {
    /// The human-readable label of the command; empty for text capture.
    pub open spec fn label(self) -> Seq<char> {
        match self {
            Command::Reset => "Reset"@,
            Command::Quit => "Quit"@,
            Command::Capture(_) => ""@,
            Command::MoveCaret(_, _) => "Move Cursor"@,
            Command::Del(_) => "Delete"@,
            Command::Enter(Mode::Navigate) => "Enter Navigation Mode"@,
            Command::Enter(Mode::Insert) => "Enter Insert Mode"@,
            Command::Enter(Mode::InsertCommand) => "Enter command params mode"@,
            Command::Enter(Mode::Disconnected) => "Disconnect from server"@,
            Command::SendBuffer => "Send Message"@,
            Command::GetServerTime => "Get Server Time"@,
            Command::MoveRooms(_) => "Move rooms"@,
            Command::SendStagedCommand => "Send Staged Command"@,
            Command::AbortStagedCommand => "Abort Command Staging"@,
            Command::ToggleDebug => "Toggle debug output"@,
        }
    }

    /// Renders the command's label.
    pub fn to_string(&self) -> (out: String)
        ensures
            out@ == self.label(),
    {
        let s = match self {
            Command::Reset => "Reset",
            Command::Quit => "Quit",
            Command::Capture(_) => "",
            Command::MoveCaret(_, _) => "Move Cursor",
            Command::Del(_) => "Delete",
            Command::Enter(Mode::Navigate) => "Enter Navigation Mode",
            Command::Enter(Mode::Insert) => "Enter Insert Mode",
            Command::Enter(Mode::InsertCommand) => "Enter command params mode",
            Command::Enter(Mode::Disconnected) => "Disconnect from server",
            Command::SendBuffer => "Send Message",
            Command::GetServerTime => "Get Server Time",
            Command::MoveRooms(_) => "Move rooms",
            Command::SendStagedCommand => "Send Staged Command",
            Command::AbortStagedCommand => "Abort Command Staging",
            Command::ToggleDebug => "Toggle debug output",
        };
        String::from_str(s)
    }

    /// The command that results from giving `params` to a command that
    /// waits for a free-text parameter; `None` for every other command.
    pub open spec fn with_params(self, params: String) -> Option<Command> {
        match self {
            Command::MoveRooms(None) => Some(Command::MoveRooms(Some(params))),
            _ => None,
        }
    }

    /// Completes a staged command with its free-text parameter.
    pub fn parse_params(&self, params: String) -> (out: Option<Command>)
        ensures
            out == self.with_params(params),
    {
        match self {
            Command::MoveRooms(None) => Some(Command::MoveRooms(Some(params))),
            _ => None,
        }
    }
}

} // verus!
