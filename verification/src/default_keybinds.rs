//! The bindings that the client starts with, mode by mode.

use crate::command::{CaretMotion, Command, Mode};
use crate::keymap::{
    explicit_first, first_match, law_explicit_binding_is_reached, KeyBinds, KeyCode, KeyMapsModel,
};
use vstd::prelude::*;

verus! {

/// The bindings of the disconnected mode: quitting is all that is left.
pub open spec fn disconnected_bindings() -> Seq<KeyBinds> {
    seq![KeyBinds::Explicit(KeyCode::Char('q'), Command::Quit)]
}

/// The bindings of the navigation mode.
pub open spec fn navigate_bindings() -> Seq<KeyBinds> {
    seq![
        KeyBinds::Explicit(KeyCode::Char('i'), Command::Enter(Mode::Insert)),
        KeyBinds::Explicit(KeyCode::Char('q'), Command::Quit),
        KeyBinds::Explicit(KeyCode::Char('r'), Command::Reset),
        KeyBinds::Explicit(KeyCode::Char('t'), Command::GetServerTime),
        KeyBinds::Explicit(KeyCode::Char('m'), Command::MoveRooms(None)),
        KeyBinds::Explicit(KeyCode::Char('d'), Command::ToggleDebug),
    ]
}

/// The bindings that move the caret and edit the text, shared by the two
/// modes in which text is typed. The capture of characters comes last,
/// after every explicit binding.
pub open spec fn editing_bindings() -> Seq<KeyBinds> {
    seq![
        KeyBinds::Explicit(KeyCode::Left, Command::MoveCaret(CaretMotion::Character, -1isize)),
        KeyBinds::Explicit(KeyCode::Right, Command::MoveCaret(CaretMotion::Character, 1isize)),
        KeyBinds::Explicit(KeyCode::Up, Command::MoveCaret(CaretMotion::Line, -1isize)),
        KeyBinds::Explicit(KeyCode::Down, Command::MoveCaret(CaretMotion::Line, 1isize)),
        KeyBinds::Explicit(KeyCode::Backspace, Command::Del(-1isize)),
        KeyBinds::Explicit(KeyCode::Delete, Command::Del(0isize)),
        KeyBinds::CaptureChar,
    ]
}

/// The bindings of the insert mode.
pub open spec fn insert_bindings() -> Seq<KeyBinds> {
    seq![
        KeyBinds::Explicit(KeyCode::Esc, Command::Enter(Mode::Navigate)),
        KeyBinds::Explicit(KeyCode::Enter, Command::SendBuffer),
    ] + editing_bindings()
}

/// The bindings of the mode in which a command's parameter is typed.
pub open spec fn insert_cmd_bindings() -> Seq<KeyBinds> {
    seq![
        KeyBinds::Explicit(KeyCode::Esc, Command::AbortStagedCommand),
        KeyBinds::Explicit(KeyCode::Enter, Command::SendStagedCommand),
    ] + editing_bindings()
}

/// Appends the caret and editing bindings to `binds`.
fn push_editing(binds: &mut Vec<KeyBinds>)
    ensures
        final(binds)@ == old(binds)@ + editing_bindings(),
{
    binds.push(KeyBinds::Explicit(KeyCode::Left, Command::MoveCaret(CaretMotion::Character, -1)));
    binds.push(KeyBinds::Explicit(KeyCode::Right, Command::MoveCaret(CaretMotion::Character, 1)));
    binds.push(KeyBinds::Explicit(KeyCode::Up, Command::MoveCaret(CaretMotion::Line, -1)));
    binds.push(KeyBinds::Explicit(KeyCode::Down, Command::MoveCaret(CaretMotion::Line, 1)));
    binds.push(KeyBinds::Explicit(KeyCode::Backspace, Command::Del(-1)));
    binds.push(KeyBinds::Explicit(KeyCode::Delete, Command::Del(0)));
    binds.push(KeyBinds::capture());
}

/// The disconnected mode and its bindings.
pub fn disconnected() -> (out: (Mode, Vec<KeyBinds>))
    ensures
        out.0 == Mode::Disconnected,
        out.1@ == disconnected_bindings(),
{
    let mut binds: Vec<KeyBinds> = Vec::new();
    binds.push(KeyBinds::Explicit(KeyCode::Char('q'), Command::Quit));
    (Mode::Disconnected, binds)
}

/// The navigation mode and its bindings.
pub fn navigate() -> (out: (Mode, Vec<KeyBinds>))
    ensures
        out.0 == Mode::Navigate,
        out.1@ == navigate_bindings(),
{
    let mut binds: Vec<KeyBinds> = Vec::new();
    binds.push(KeyBinds::Explicit(KeyCode::Char('i'), Command::Enter(Mode::Insert)));
    binds.push(KeyBinds::Explicit(KeyCode::Char('q'), Command::Quit));
    binds.push(KeyBinds::Explicit(KeyCode::Char('r'), Command::Reset));
    binds.push(KeyBinds::Explicit(KeyCode::Char('t'), Command::GetServerTime));
    binds.push(KeyBinds::Explicit(KeyCode::Char('m'), Command::MoveRooms(None)));
    binds.push(KeyBinds::Explicit(KeyCode::Char('d'), Command::ToggleDebug));
    (Mode::Navigate, binds)
}

/// The insert mode and its bindings.
pub fn insert() -> (out: (Mode, Vec<KeyBinds>))
    ensures
        out.0 == Mode::Insert,
        out.1@ == insert_bindings(),
{
    let mut binds: Vec<KeyBinds> = Vec::new();
    binds.push(KeyBinds::Explicit(KeyCode::Esc, Command::Enter(Mode::Navigate)));
    binds.push(KeyBinds::Explicit(KeyCode::Enter, Command::SendBuffer));
    push_editing(&mut binds);
    (Mode::Insert, binds)
}

/// The command-parameter mode and its bindings.
pub fn insert_cmd() -> (out: (Mode, Vec<KeyBinds>))
    ensures
        out.0 == Mode::InsertCommand,
        out.1@ == insert_cmd_bindings(),
{
    let mut binds: Vec<KeyBinds> = Vec::new();
    binds.push(KeyBinds::Explicit(KeyCode::Esc, Command::AbortStagedCommand));
    binds.push(KeyBinds::Explicit(KeyCode::Enter, Command::SendStagedCommand));
    push_editing(&mut binds);
    (Mode::InsertCommand, binds)
}

/// The whole table: each mode with its bindings. Every mode has one table,
/// and every table keeps the rule of order.
pub fn keys() -> (out: Vec<(Mode, Vec<KeyBinds>)>)
    ensures
        out@.len() == 4,
        out@[0].0 == Mode::Disconnected && out@[0].1@ == disconnected_bindings(),
        out@[1].0 == Mode::Navigate && out@[1].1@ == navigate_bindings(),
        out@[2].0 == Mode::Insert && out@[2].1@ == insert_bindings(),
        out@[3].0 == Mode::InsertCommand && out@[3].1@ == insert_cmd_bindings(),
        forall|i: int| 0 <= i < 4 ==> explicit_first((#[trigger] out@[i]).1@),
        forall|i: int, j: int| 0 <= i < j < 4 ==> out@[i].0 != out@[j].0,
{
    let mut out: Vec<(Mode, Vec<KeyBinds>)> = Vec::new();
    out.push(disconnected());
    out.push(navigate());
    out.push(insert());
    out.push(insert_cmd());
    proof {
        law_standard_tables_are_ordered();
    }
    out
}

/// The tables that the client starts with keep the rule of order: in no
/// mode does an explicit binding follow the capture of all characters.
pub proof fn law_standard_tables_are_ordered()
    ensures
        KeyMapsModel::standard().wf(),
{
    let insert = insert_bindings();
    let command = insert_cmd_bindings();
    assert forall|i: int| 0 <= i < 8 implies !(#[trigger] insert[i] is CaptureChar) by {}
    assert forall|i: int| 0 <= i < 8 implies !(#[trigger] command[i] is CaptureChar) by {}
}

/// In the tables that the client starts with every explicit binding is
/// reached: its key gives its command, in every mode.
pub proof fn law_standard_bindings_are_reached(mode: Mode, at: int)
    requires
        0 <= at < KeyMapsModel::standard().bindings(mode).len(),
        KeyMapsModel::standard().bindings(mode)[at] is Explicit,
    ensures
        KeyMapsModel::standard().command(
            mode,
            KeyMapsModel::standard().bindings(mode)[at]->Explicit_0,
        ) == Some(KeyMapsModel::standard().bindings(mode)[at]->Explicit_1),
{
    let binds = KeyMapsModel::standard().bindings(mode);
    law_standard_tables_are_ordered();
    assert forall|i: int| 0 <= i < at implies !(#[trigger] binds[i] is Explicit
        && binds[i]->Explicit_0 == binds[at]->Explicit_0) by {
        match mode {
            Mode::Navigate => {
                assert(binds.len() == 6);
            },
            Mode::Insert => {
                assert(binds.len() == 9);
            },
            Mode::InsertCommand => {
                assert(binds.len() == 9);
            },
            Mode::Disconnected => {
                assert(binds.len() == 1);
            },
        }
    }
    law_explicit_binding_is_reached(binds, at);
}

/// Where text is typed, a character key gives the capture of its
/// character and nothing else, whichever character it is, also one that is
/// bound to a command in the navigation mode.
pub proof fn law_typing_modes_capture_characters(mode: Mode, c: char)
    requires
        mode == Mode::Insert || mode == Mode::InsertCommand,
    ensures
        KeyMapsModel::standard().command(mode, KeyCode::Char(c)) == Some(Command::Capture(c)),
{
    reveal_with_fuel(first_match, 10);
}

} // verus!
