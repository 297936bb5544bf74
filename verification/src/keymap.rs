//! The keymap dispatcher: from a mode and a key to at most one command.

use crate::command::{Command, Mode};
use crate::default_keybinds;
use crate::style::{lines_of_spans, pad, padded, spans_view, Role, Span, SpanView};
use vstd::prelude::*;
use vstd::string::*;

verus! {

/// A key of the keyboard.
#[derive(Clone, Copy, Debug, PartialEq, Eq, Hash, Structural)]
pub enum KeyCode {
    Backspace,
    Enter,
    Left,
    Right,
    Up,
    Down,
    Home,
    End,
    PageUp,
    PageDown,
    Tab,
    BackTab,
    Delete,
    Insert,
    F(u8),
    Char(char),
    Null,
    Esc,
    CapsLock,
    ScrollLock,
    NumLock,
    PrintScreen,
    Pause,
    Menu,
    KeypadBegin,
    Media,
    Modifier,
}

/// The width to which each column of a legend line is filled.
pub const COLUMN_WIDTH: usize = 5;

/// One binding of a keymap.
#[derive(Debug, PartialEq, Eq)]
pub enum KeyBinds {
    /// This key gives this command.
    Explicit(KeyCode, Command),
    /// Every character key gives the capture of its character.
    CaptureChar,
    /// A placeholder that matches no key.
    NoMap,
}

impl Clone for KeyBinds {
    fn clone(&self) -> (out: Self)
        ensures
            out == *self,
    {
        match self {
            KeyBinds::Explicit(code, command) => KeyBinds::Explicit(*code, command.clone()),
            KeyBinds::CaptureChar => KeyBinds::CaptureChar,
            KeyBinds::NoMap => KeyBinds::NoMap,
        }
    }
}

/// How a key is named in the legend; `None` for the keys that the legend
/// leaves out.
pub open spec fn key_text(code: KeyCode) -> Option<Seq<char>> {
    match code {
        KeyCode::Char(c) => Some(seq![c]),
        KeyCode::Enter => Some("󰌑"@),
        KeyCode::Esc => Some("Esc"@),
        KeyCode::Delete => Some("Del"@),
        KeyCode::Left => Some("←/→"@),
        _ => None,
    }
}

/// Names a key for the legend.
fn key_name(code: KeyCode) -> (out: Option<String>)
    ensures
        match out {
            Some(s) => key_text(code) == Some(s@),
            None => key_text(code) is None,
        },
{
    match code {
        KeyCode::Char(c) => {
            let mut s = String::new();
            s.push(c);
            Some(s)
        },
        KeyCode::Enter => Some(String::from_str("󰌑")),
        KeyCode::Esc => Some(String::from_str("Esc")),
        KeyCode::Delete => Some(String::from_str("Del")),
        KeyCode::Left => Some(String::from_str("←/→")),
        _ => None,
    }
}

impl KeyBinds {
    /// The command this binding gives for the key `code`, if any.
    pub open spec fn matched(self, code: KeyCode) -> Option<Command> {
        match self {
            KeyBinds::Explicit(key, command) => if key == code {
                Some(command)
            } else {
                None
            },
            KeyBinds::CaptureChar => match code {
                KeyCode::Char(c) => Some(Command::Capture(c)),
                _ => None,
            },
            KeyBinds::NoMap => None,
        }
    }

    /// Tests the binding against the key `c`.
    pub fn check(&self, c: KeyCode) -> (out: Option<Command>)
        ensures
            out == self.matched(c),
    {
        match self {
            KeyBinds::Explicit(code, command) => {
                if *code == c {
                    Some(command.clone())
                } else {
                    None
                }
            },
            KeyBinds::CaptureChar => match c {
                KeyCode::Char(ch) => Some(Command::Capture(ch)),
                _ => None,
            },
            KeyBinds::NoMap => None,
        }
    }

    /// The binding that captures every character key.
    pub fn capture() -> (out: KeyBinds)
        ensures
            out == KeyBinds::CaptureChar,
    {
        KeyBinds::CaptureChar
    }

    /// The legend text of the binding: the key's name, an arrow and the
    /// command's label. Empty for a binding that the legend leaves out.
    pub open spec fn label(self) -> Seq<char> {
        match self {
            KeyBinds::Explicit(code, command) => match key_text(code) {
                Some(key) => key + "\t -> "@ + command.label(),
                None => Seq::empty(),
            },
            _ => Seq::empty(),
        }
    }

    /// Renders the legend text of the binding.
    pub fn to_string(&self) -> (out: String)
        ensures
            out@ == self.label(),
    {
        match self {
            KeyBinds::Explicit(code, command) => match key_name(*code) {
                Some(key) => {
                    let mut out = key;
                    out.append("\t -> ");
                    out.append(command.to_string().as_str());
                    out
                },
                None => String::new(),
            },
            _ => String::new(),
        }
    }

    /// The legend line of the binding in three columns, each filled to
    /// `COLUMN_WIDTH`: the key, an arrow, the command's label. `None` for a
    /// binding that the legend leaves out.
    pub open spec fn legend(self) -> Option<Seq<SpanView>> {
        match self {
            KeyBinds::Explicit(code, command) => match key_text(code) {
                Some(key) => Some(
                    seq![
                        SpanView { text: padded(key + "\t"@, COLUMN_WIDTH as nat), role: Role::Time },
                        SpanView { text: padded("->"@, COLUMN_WIDTH as nat), role: Role::Username },
                        SpanView {
                            text: padded(command.label(), COLUMN_WIDTH as nat),
                            role: Role::Message,
                        },
                    ],
                ),
                None => None,
            },
            _ => None,
        }
    }

    /// The legend line of the binding, cut into its columns.
    pub fn render(&self) -> (out: Option<Vec<Span>>)
        ensures
            match out {
                Some(spans) => self.legend() == Some(spans_view(spans@)),
                None => self.legend() is None,
            },
    {
        match self {
            KeyBinds::Explicit(code, command) => match key_name(*code) {
                Some(key) => {
                    let mut first = key;
                    first.append("\t");
                    let mut out: Vec<Span> = Vec::new();
                    out.push(Span::new(pad(first, COLUMN_WIDTH), Role::Time));
                    out.push(Span::new(pad(String::from_str("->"), COLUMN_WIDTH), Role::Username));
                    out.push(Span::new(pad(command.to_string(), COLUMN_WIDTH), Role::Message));
                    Some(out)
                },
                None => None,
            },
            _ => None,
        }
    }
}

/// The command of the first binding from index `from` on that matches
/// `code`; `None` where none does.
pub open spec fn first_match(binds: Seq<KeyBinds>, code: KeyCode, from: int) -> Option<Command>
    decreases binds.len() - from,
{
    if from < 0 || from >= binds.len() {
        None
    } else {
        match binds[from].matched(code) {
            Some(command) => Some(command),
            None => first_match(binds, code, from + 1),
        }
    }
}

/// The rule of order within a mode: explicit bindings come first. No
/// explicit binding stands after a binding that captures every character
/// key.
pub open spec fn explicit_first(binds: Seq<KeyBinds>) -> bool {
    forall|i: int, j: int|
        #![trigger binds[i], binds[j]]
        0 <= i < j < binds.len() && binds[i] is CaptureChar ==> !(binds[j] is Explicit)
}

/// Tests the rule of order on a list of bindings.
pub fn ordered(binds: &Vec<KeyBinds>) -> (out: bool)
    ensures
        out == explicit_first(binds@),
{
    let mut captured = false;
    let ghost mut capture_at: int = 0;
    let mut j: usize = 0;
    while j < binds.len()
        invariant
            j <= binds@.len(),
            captured ==> 0 <= capture_at < j && binds@[capture_at] is CaptureChar,
            !captured ==> forall|i: int| 0 <= i < j ==> !(#[trigger] binds@[i] is CaptureChar),
            forall|i: int, k: int|
                #![trigger binds@[i], binds@[k]]
                0 <= i < k < j && binds@[i] is CaptureChar ==> !(binds@[k] is Explicit),
        decreases binds@.len() - j,
    {
        match &binds[j] {
            KeyBinds::Explicit(_, _) => {
                if captured {
                    assert(binds@[capture_at] is CaptureChar && binds@[j as int] is Explicit);
                    return false;
                }
            },
            KeyBinds::CaptureChar => {
                captured = true;
                proof {
                    capture_at = j as int;
                }
            },
            KeyBinds::NoMap => {},
        }
        j = j + 1;
    }
    true
}

/// The first match wins: where the binding at `at` matches the key and none
/// before it does, the key gives the command of that binding, whatever
/// follows it.
pub proof fn law_first_match_wins(binds: Seq<KeyBinds>, code: KeyCode, at: int)
    requires
        0 <= at < binds.len(),
        binds[at].matched(code) is Some,
        forall|i: int| 0 <= i < at ==> (#[trigger] binds[i]).matched(code) is None,
    ensures
        first_match(binds, code, 0) == binds[at].matched(code),
{
    lemma_first_match_from(binds, code, at, 0);
}

/// A key that no binding matches gives no command.
pub proof fn law_no_match_no_command(binds: Seq<KeyBinds>, code: KeyCode)
    requires
        forall|i: int| 0 <= i < binds.len() ==> (#[trigger] binds[i]).matched(code) is None,
    ensures
        first_match(binds, code, 0) is None,
{
    lemma_no_match_from(binds, code, 0);
}

/// The search from `from` finds the binding at `at`, where none between
/// the two matches.
proof fn lemma_first_match_from(binds: Seq<KeyBinds>, code: KeyCode, at: int, from: int)
    requires
        0 <= from <= at < binds.len(),
        binds[at].matched(code) is Some,
        forall|i: int| 0 <= i < at ==> (#[trigger] binds[i]).matched(code) is None,
    ensures
        first_match(binds, code, from) == binds[at].matched(code),
    decreases at - from,
{
    if from < at {
        lemma_first_match_from(binds, code, at, from + 1);
    }
}

/// The search from `from` finds nothing, where no binding matches.
proof fn lemma_no_match_from(binds: Seq<KeyBinds>, code: KeyCode, from: int)
    requires
        0 <= from,
        forall|i: int| 0 <= i < binds.len() ==> (#[trigger] binds[i]).matched(code) is None,
    ensures
        first_match(binds, code, from) is None,
    decreases binds.len() - from,
{
    if from < binds.len() {
        lemma_no_match_from(binds, code, from + 1);
    }
}

/// Under the rule of order an explicit binding is reached by its key, unless
/// an earlier explicit binding of the same key takes it: the catch-all
/// never stands before it.
pub proof fn law_explicit_binding_is_reached(binds: Seq<KeyBinds>, at: int)
    requires
        explicit_first(binds),
        0 <= at < binds.len(),
        binds[at] is Explicit,
        forall|i: int|
            0 <= i < at ==> !(#[trigger] binds[i] is Explicit && binds[i]->Explicit_0
                == binds[at]->Explicit_0),
    ensures
        first_match(binds, binds[at]->Explicit_0, 0) == Some(binds[at]->Explicit_1),
{
    let key = binds[at]->Explicit_0;
    assert forall|i: int| 0 <= i < at implies (#[trigger] binds[i]).matched(key) is None by {
        if binds[i] is CaptureChar {
            assert(!(binds[at] is Explicit));
        }
    }
    law_first_match_wins(binds, key, at);
}

/// The legend lines of the bindings from index `from` on, those that the
/// legend leaves out skipped.
pub open spec fn legend_lines(binds: Seq<KeyBinds>, from: int) -> Seq<Seq<SpanView>>
    decreases binds.len() - from,
{
    if from < 0 || from >= binds.len() {
        Seq::empty()
    } else {
        match binds[from].legend() {
            Some(line) => seq![line] + legend_lines(binds, from + 1),
            None => legend_lines(binds, from + 1),
        }
    }
}

/// The keymaps of all modes, as a mathematical value.
pub struct KeyMapsModel {
    pub navigate: Seq<KeyBinds>,
    pub insert: Seq<KeyBinds>,
    pub insert_command: Seq<KeyBinds>,
    pub disconnected: Seq<KeyBinds>,
}

impl KeyMapsModel {
    /// The rule of order holds in every mode.
    pub open spec fn wf(self) -> bool {
        &&& explicit_first(self.navigate)
        &&& explicit_first(self.insert)
        &&& explicit_first(self.insert_command)
        &&& explicit_first(self.disconnected)
    }

    /// The bindings of `mode`, in the order in which they are tried.
    pub open spec fn bindings(self, mode: Mode) -> Seq<KeyBinds> {
        match mode {
            Mode::Navigate => self.navigate,
            Mode::Insert => self.insert,
            Mode::InsertCommand => self.insert_command,
            Mode::Disconnected => self.disconnected,
        }
    }

    /// The command for `code` in `mode`: that of the first binding of the
    /// mode that matches.
    pub open spec fn command(self, mode: Mode, code: KeyCode) -> Option<Command> {
        first_match(self.bindings(mode), code, 0)
    }

    /// The keymaps that the client starts with.
    pub open spec fn standard() -> KeyMapsModel {
        KeyMapsModel {
            navigate: default_keybinds::navigate_bindings(),
            insert: default_keybinds::insert_bindings(),
            insert_command: default_keybinds::insert_cmd_bindings(),
            disconnected: default_keybinds::disconnected_bindings(),
        }
    }
}

/// One ordered list of bindings for each mode.
#[derive(Debug)]
pub struct ModalKeyMaps {
    navigate: Vec<KeyBinds>,
    insert: Vec<KeyBinds>,
    insert_command: Vec<KeyBinds>,
    disconnected: Vec<KeyBinds>,
}

impl View for ModalKeyMaps {
    type V = KeyMapsModel;

    closed spec fn view(&self) -> KeyMapsModel {
        KeyMapsModel {
            navigate: self.navigate@,
            insert: self.insert@,
            insert_command: self.insert_command@,
            disconnected: self.disconnected@,
        }
    }
}

impl ModalKeyMaps {
    /// The invariant of the type: the rule of order holds in every mode.
    #[verifier::type_invariant]
    closed spec fn inv(self) -> bool {
        self@.wf()
    }

    /// Keymaps with the given bindings for each mode; `None` where a mode
    /// breaks the rule of order.
    pub fn new(
        navigate: Vec<KeyBinds>,
        insert: Vec<KeyBinds>,
        insert_command: Vec<KeyBinds>,
        disconnected: Vec<KeyBinds>,
    ) -> (out: Option<ModalKeyMaps>)
        ensures
            out is Some <==> (KeyMapsModel {
                navigate: navigate@,
                insert: insert@,
                insert_command: insert_command@,
                disconnected: disconnected@,
            }).wf(),
            out matches Some(maps) ==> maps@ == (KeyMapsModel {
                navigate: navigate@,
                insert: insert@,
                insert_command: insert_command@,
                disconnected: disconnected@,
            }),
    {
        if ordered(&navigate) && ordered(&insert) && ordered(&insert_command) && ordered(
            &disconnected,
        ) {
            Some(ModalKeyMaps { navigate, insert, insert_command, disconnected })
        } else {
            None
        }
    }

    /// The bindings of `mode`, in the order in which they are tried; they
    /// keep the rule of order.
    pub fn bindings(&self, mode: &Mode) -> (out: &Vec<KeyBinds>)
        ensures
            out@ == self@.bindings(*mode),
            explicit_first(out@),
            self@.wf(),
    {
        proof {
            use_type_invariant(self);
        }
        match mode {
            Mode::Navigate => &self.navigate,
            Mode::Insert => &self.insert,
            Mode::InsertCommand => &self.insert_command,
            Mode::Disconnected => &self.disconnected,
        }
    }

    /// The command for the key `code` in `mode`: the first binding that
    /// matches wins.
    pub fn get_cmd(&self, mode: &Mode, code: KeyCode) -> (out: Option<Command>)
        ensures
            out == self@.command(*mode, code),
    {
        let binds = self.bindings(mode);
        let mut i: usize = 0;
        while i < binds.len()
            invariant
                i <= binds@.len(),
                binds@ == self@.bindings(*mode),
                first_match(binds@, code, i as int) == first_match(binds@, code, 0),
            decreases binds@.len() - i,
        {
            match binds[i].check(code) {
                Some(command) => {
                    return Some(command);
                },
                None => {},
            }
            i = i + 1;
        }
        None
    }

    /// The legend of `mode`: one line for each binding that the legend
    /// shows, in the order of the bindings.
    pub fn render(&self, mode: &Mode) -> (out: Vec<Vec<Span>>)
        ensures
            lines_of_spans(out@) == legend_lines(self@.bindings(*mode), 0),
    {
        let binds = self.bindings(mode);
        let mut out: Vec<Vec<Span>> = Vec::new();
        let mut i: usize = binds.len();
        while i > 0
            invariant
                i <= binds@.len(),
                lines_of_spans(out@) == legend_lines(binds@, i as int),
            decreases i,
        {
            i = i - 1;
            match binds[i].render() {
                Some(line) => {
                    out.insert(0, line);
                },
                None => {},
            }
        }
        out
    }
}

impl Default for ModalKeyMaps {
    fn default() -> (out: ModalKeyMaps)
        ensures
            out@ == KeyMapsModel::standard(),
    {
        proof {
            default_keybinds::law_standard_tables_are_ordered();
        }
        ModalKeyMaps {
            navigate: default_keybinds::navigate().1,
            insert: default_keybinds::insert().1,
            insert_command: default_keybinds::insert_cmd().1,
            disconnected: default_keybinds::disconnected().1,
        }
    }
}

} // verus!
