use marain_tui::command::{CaretMotion, Command, Mode};
use marain_tui::default_keybinds::{disconnected, insert, insert_cmd, keys, navigate};
use marain_tui::keymap::{ordered, KeyBinds, KeyCode, ModalKeyMaps};
use marain_tui::style::{pad, Role, Span};

fn span(text: &str, role: Role) -> Span {
    Span::new(text.to_string(), role)
}

fn texts(line: &[Span]) -> Vec<&str> {
    line.iter().map(|span| span.text.as_str()).collect()
}

#[test]
fn navigation_keys() {
    let maps = ModalKeyMaps::default();
    let mode = Mode::Navigate;
    assert_eq!(maps.get_cmd(&mode, KeyCode::Char('i')), Some(Command::Enter(Mode::Insert)));
    assert_eq!(maps.get_cmd(&mode, KeyCode::Char('q')), Some(Command::Quit));
    assert_eq!(maps.get_cmd(&mode, KeyCode::Char('r')), Some(Command::Reset));
    assert_eq!(maps.get_cmd(&mode, KeyCode::Char('t')), Some(Command::GetServerTime));
    assert_eq!(maps.get_cmd(&mode, KeyCode::Char('m')), Some(Command::MoveRooms(None)));
    assert_eq!(maps.get_cmd(&mode, KeyCode::Char('d')), Some(Command::ToggleDebug));
}

#[test]
fn navigation_has_no_command_for_other_keys() {
    let maps = ModalKeyMaps::default();
    let mode = Mode::Navigate;
    assert_eq!(maps.get_cmd(&mode, KeyCode::Char('x')), None);
    assert_eq!(maps.get_cmd(&mode, KeyCode::Char('I')), None);
    assert_eq!(maps.get_cmd(&mode, KeyCode::Enter), None);
    assert_eq!(maps.get_cmd(&mode, KeyCode::Esc), None);
    assert_eq!(maps.get_cmd(&mode, KeyCode::Left), None);
    assert_eq!(maps.get_cmd(&mode, KeyCode::F(1)), None);
}

#[test]
fn insert_keys() {
    let maps = ModalKeyMaps::default();
    let mode = Mode::Insert;
    assert_eq!(maps.get_cmd(&mode, KeyCode::Esc), Some(Command::Enter(Mode::Navigate)));
    assert_eq!(maps.get_cmd(&mode, KeyCode::Enter), Some(Command::SendBuffer));
    assert_eq!(
        maps.get_cmd(&mode, KeyCode::Left),
        Some(Command::MoveCaret(CaretMotion::Character, -1))
    );
    assert_eq!(
        maps.get_cmd(&mode, KeyCode::Right),
        Some(Command::MoveCaret(CaretMotion::Character, 1))
    );
    assert_eq!(maps.get_cmd(&mode, KeyCode::Up), Some(Command::MoveCaret(CaretMotion::Line, -1)));
    assert_eq!(maps.get_cmd(&mode, KeyCode::Down), Some(Command::MoveCaret(CaretMotion::Line, 1)));
    assert_eq!(maps.get_cmd(&mode, KeyCode::Backspace), Some(Command::Del(-1)));
    assert_eq!(maps.get_cmd(&mode, KeyCode::Delete), Some(Command::Del(0)));
    assert_eq!(maps.get_cmd(&mode, KeyCode::Tab), None);
    assert_eq!(maps.get_cmd(&mode, KeyCode::Home), None);
}

#[test]
fn insert_mode_captures_every_character() {
    let maps = ModalKeyMaps::default();
    for c in ['a', 'i', 'q', 'r', 't', 'm', 'd', ' ', '/', 'ß', '→', '\t'] {
        assert_eq!(maps.get_cmd(&Mode::Insert, KeyCode::Char(c)), Some(Command::Capture(c)));
        assert_eq!(
            maps.get_cmd(&Mode::InsertCommand, KeyCode::Char(c)),
            Some(Command::Capture(c))
        );
    }
}

#[test]
fn command_parameter_keys() {
    let maps = ModalKeyMaps::default();
    let mode = Mode::InsertCommand;
    assert_eq!(maps.get_cmd(&mode, KeyCode::Esc), Some(Command::AbortStagedCommand));
    assert_eq!(maps.get_cmd(&mode, KeyCode::Enter), Some(Command::SendStagedCommand));
    assert_eq!(maps.get_cmd(&mode, KeyCode::Backspace), Some(Command::Del(-1)));
    assert_eq!(maps.get_cmd(&mode, KeyCode::Delete), Some(Command::Del(0)));
    assert_eq!(
        maps.get_cmd(&mode, KeyCode::Left),
        Some(Command::MoveCaret(CaretMotion::Character, -1))
    );
    assert_eq!(maps.get_cmd(&mode, KeyCode::Down), Some(Command::MoveCaret(CaretMotion::Line, 1)));
}

#[test]
fn disconnected_keys() {
    let maps = ModalKeyMaps::default();
    let mode = Mode::Disconnected;
    assert_eq!(maps.get_cmd(&mode, KeyCode::Char('q')), Some(Command::Quit));
    assert_eq!(maps.get_cmd(&mode, KeyCode::Char('i')), None);
    assert_eq!(maps.get_cmd(&mode, KeyCode::Enter), None);
    assert_eq!(maps.get_cmd(&mode, KeyCode::Esc), None);
}

#[test]
fn the_table_lists_every_mode() {
    let table = keys();
    let modes: Vec<Mode> = table.iter().map(|entry| entry.0).collect();
    assert_eq!(modes, vec![Mode::Disconnected, Mode::Navigate, Mode::Insert, Mode::InsertCommand]);
    assert_eq!(table[0].1, disconnected().1);
    assert_eq!(table[1].1, navigate().1);
    assert_eq!(table[2].1, insert().1);
    assert_eq!(table[3].1, insert_cmd().1);
    assert_eq!(table[0].1.len(), 1);
    assert_eq!(table[1].1.len(), 6);
    assert_eq!(table[2].1.len(), 9);
    assert_eq!(table[3].1.len(), 9);
    assert_eq!(table[2].1[8], KeyBinds::CaptureChar);
    assert_eq!(table[3].1[8], KeyBinds::CaptureChar);
}

#[test]
fn the_first_binding_that_matches_wins() {
    let maps = ModalKeyMaps::new(
        vec![
            KeyBinds::NoMap,
            KeyBinds::Explicit(KeyCode::Char('a'), Command::Quit),
            KeyBinds::Explicit(KeyCode::Char('a'), Command::Reset),
            KeyBinds::Explicit(KeyCode::Enter, Command::Reset),
            KeyBinds::capture(),
            KeyBinds::NoMap,
        ],
        Vec::new(),
        Vec::new(),
        Vec::new(),
    )
    .unwrap();
    assert_eq!(maps.get_cmd(&Mode::Navigate, KeyCode::Char('a')), Some(Command::Quit));
    assert_eq!(maps.get_cmd(&Mode::Navigate, KeyCode::Char('b')), Some(Command::Capture('b')));
    assert_eq!(maps.get_cmd(&Mode::Navigate, KeyCode::Enter), Some(Command::Reset));
    assert_eq!(maps.get_cmd(&Mode::Navigate, KeyCode::Esc), None);
    assert_eq!(maps.get_cmd(&Mode::Insert, KeyCode::Char('a')), None);
    assert_eq!(maps.bindings(&Mode::Navigate).len(), 6);
    assert_eq!(maps.bindings(&Mode::Disconnected).len(), 0);
}

#[test]
fn an_explicit_binding_after_the_capture_is_refused() {
    let shadowed = || {
        vec![
            KeyBinds::Explicit(KeyCode::Esc, Command::Quit),
            KeyBinds::capture(),
            KeyBinds::Explicit(KeyCode::Delete, Command::Del(0)),
        ]
    };
    assert!(!ordered(&shadowed()));
    assert!(ModalKeyMaps::new(shadowed(), Vec::new(), Vec::new(), Vec::new()).is_none());
    assert!(ModalKeyMaps::new(Vec::new(), shadowed(), Vec::new(), Vec::new()).is_none());
    assert!(ModalKeyMaps::new(Vec::new(), Vec::new(), shadowed(), Vec::new()).is_none());
    assert!(ModalKeyMaps::new(Vec::new(), Vec::new(), Vec::new(), shadowed()).is_none());
    assert!(ModalKeyMaps::new(Vec::new(), Vec::new(), Vec::new(), Vec::new()).is_some());
}

#[test]
fn the_rule_of_order() {
    assert!(ordered(&Vec::new()));
    assert!(ordered(&vec![KeyBinds::capture(), KeyBinds::capture()]));
    assert!(ordered(&vec![KeyBinds::capture(), KeyBinds::NoMap]));
    assert!(ordered(&vec![
        KeyBinds::Explicit(KeyCode::Char('a'), Command::Quit),
        KeyBinds::NoMap,
        KeyBinds::Explicit(KeyCode::Delete, Command::Del(0)),
        KeyBinds::capture(),
    ]));
    assert!(!ordered(&vec![
        KeyBinds::Explicit(KeyCode::Char('a'), Command::Quit),
        KeyBinds::capture(),
        KeyBinds::NoMap,
        KeyBinds::Explicit(KeyCode::Delete, Command::Del(0)),
    ]));
    assert!(!ordered(&vec![
        KeyBinds::capture(),
        KeyBinds::Explicit(KeyCode::Char('a'), Command::Quit),
    ]));
    for (_, binds) in keys() {
        assert!(ordered(&binds));
    }
}

#[test]
fn every_explicit_binding_of_the_table_is_reached() {
    let maps = ModalKeyMaps::default();
    let mut seen = 0;
    for (mode, binds) in keys() {
        let capture = binds.iter().position(|bind| *bind == KeyBinds::CaptureChar);
        for (at, bind) in binds.iter().enumerate() {
            if let KeyBinds::Explicit(code, command) = bind {
                assert_eq!(maps.get_cmd(&mode, *code), Some(command.clone()));
                assert!(capture.map_or(true, |capture| at < capture));
                seen += 1;
            }
        }
    }
    assert_eq!(seen, 1 + 6 + 8 + 8);
}

#[test]
fn bindings_match_their_own_key_only() {
    let bind = KeyBinds::Explicit(KeyCode::F(2), Command::ToggleDebug);
    assert_eq!(bind.check(KeyCode::F(2)), Some(Command::ToggleDebug));
    assert_eq!(bind.check(KeyCode::F(3)), None);
    assert_eq!(bind.check(KeyCode::Char('2')), None);
    assert_eq!(KeyBinds::NoMap.check(KeyCode::Char('a')), None);
    assert_eq!(KeyBinds::capture(), KeyBinds::CaptureChar);
    assert_eq!(KeyBinds::capture().check(KeyCode::Char('a')), Some(Command::Capture('a')));
    assert_eq!(KeyBinds::capture().check(KeyCode::Enter), None);
    assert_eq!(bind.clone(), bind);
}

#[test]
fn command_labels() {
    assert_eq!(Command::Reset.to_string(), "Reset");
    assert_eq!(Command::Quit.to_string(), "Quit");
    assert_eq!(Command::Capture('a').to_string(), "");
    assert_eq!(Command::MoveCaret(CaretMotion::Line, 2).to_string(), "Move Cursor");
    assert_eq!(Command::Del(0).to_string(), "Delete");
    assert_eq!(Command::Enter(Mode::Navigate).to_string(), "Enter Navigation Mode");
    assert_eq!(Command::Enter(Mode::Insert).to_string(), "Enter Insert Mode");
    assert_eq!(Command::Enter(Mode::InsertCommand).to_string(), "Enter command params mode");
    assert_eq!(Command::Enter(Mode::Disconnected).to_string(), "Disconnect from server");
    assert_eq!(Command::SendBuffer.to_string(), "Send Message");
    assert_eq!(Command::GetServerTime.to_string(), "Get Server Time");
    assert_eq!(Command::MoveRooms(None).to_string(), "Move rooms");
    assert_eq!(Command::MoveRooms(Some("x".to_string())).to_string(), "Move rooms");
    assert_eq!(Command::SendStagedCommand.to_string(), "Send Staged Command");
    assert_eq!(Command::AbortStagedCommand.to_string(), "Abort Command Staging");
    assert_eq!(Command::ToggleDebug.to_string(), "Toggle debug output");
}

#[test]
fn mode_names() {
    assert_eq!(Mode::Navigate.to_string(), "Navigate");
    assert_eq!(Mode::Insert.to_string(), "Insert");
    assert_eq!(Mode::InsertCommand.to_string(), "InsertCommand");
    assert_eq!(Mode::Disconnected.to_string(), "Disconnected");
}

#[test]
fn parameters_complete_a_move_only() {
    assert_eq!(
        Command::MoveRooms(None).parse_params("lobby".to_string()),
        Some(Command::MoveRooms(Some("lobby".to_string())))
    );
    assert_eq!(Command::MoveRooms(Some("a".to_string())).parse_params("b".to_string()), None);
    assert_eq!(Command::GetServerTime.parse_params("b".to_string()), None);
    assert_eq!(Command::SendBuffer.parse_params(String::new()), None);
}

#[test]
fn commands_clone_to_equal_commands() {
    let all = vec![
        Command::Reset,
        Command::Quit,
        Command::Capture('x'),
        Command::Del(-1),
        Command::MoveCaret(CaretMotion::Character, 3),
        Command::Enter(Mode::Insert),
        Command::SendBuffer,
        Command::GetServerTime,
        Command::MoveRooms(None),
        Command::MoveRooms(Some("hall".to_string())),
        Command::SendStagedCommand,
        Command::AbortStagedCommand,
        Command::ToggleDebug,
    ];
    for command in &all {
        assert_eq!(&command.clone(), command);
    }
}

#[test]
fn legend_text_of_a_binding() {
    let bind = KeyBinds::Explicit(KeyCode::Char('i'), Command::Enter(Mode::Insert));
    assert_eq!(bind.to_string(), "i\t -> Enter Insert Mode");
    let bind = KeyBinds::Explicit(KeyCode::Enter, Command::SendBuffer);
    assert_eq!(bind.to_string(), "\u{f0311}\t -> Send Message");
    let bind = KeyBinds::Explicit(KeyCode::Esc, Command::AbortStagedCommand);
    assert_eq!(bind.to_string(), "Esc\t -> Abort Command Staging");
    let bind = KeyBinds::Explicit(KeyCode::Delete, Command::Del(0));
    assert_eq!(bind.to_string(), "Del\t -> Delete");
    let bind = KeyBinds::Explicit(KeyCode::Left, Command::MoveCaret(CaretMotion::Character, -1));
    assert_eq!(bind.to_string(), "←/→\t -> Move Cursor");
}

#[test]
fn bindings_that_the_legend_leaves_out() {
    let hidden = vec![
        KeyBinds::Explicit(KeyCode::Right, Command::MoveCaret(CaretMotion::Character, 1)),
        KeyBinds::Explicit(KeyCode::Up, Command::MoveCaret(CaretMotion::Line, -1)),
        KeyBinds::Explicit(KeyCode::Backspace, Command::Del(-1)),
        KeyBinds::capture(),
        KeyBinds::NoMap,
    ];
    for bind in &hidden {
        assert_eq!(bind.to_string(), "");
        assert_eq!(bind.render(), None);
    }
}

#[test]
fn legend_line_is_filled_into_columns() {
    let bind = KeyBinds::Explicit(KeyCode::Char('q'), Command::Quit);
    assert_eq!(
        bind.render(),
        Some(vec![
            span("q\t   ", Role::Time),
            span("->   ", Role::Username),
            span("Quit ", Role::Message),
        ])
    );
    let bind = KeyBinds::Explicit(KeyCode::Left, Command::MoveCaret(CaretMotion::Character, -1));
    assert_eq!(
        bind.render(),
        Some(vec![
            span("←/→\t ", Role::Time),
            span("->   ", Role::Username),
            span("Move Cursor", Role::Message),
        ])
    );
    let bind = KeyBinds::Explicit(KeyCode::Char('x'), Command::Capture('x'));
    assert_eq!(
        bind.render(),
        Some(vec![
            span("x\t   ", Role::Time),
            span("->   ", Role::Username),
            span("     ", Role::Message),
        ])
    );
}

#[test]
fn pad_fills_up_to_the_width() {
    assert_eq!(pad(String::new(), 5), "     ");
    assert_eq!(pad("ab".to_string(), 5), "ab   ");
    assert_eq!(pad("abcde".to_string(), 5), "abcde");
    assert_eq!(pad("abcdef".to_string(), 5), "abcdef");
    assert_eq!(pad("äö".to_string(), 3), "äö ");
    assert_eq!(pad("ab".to_string(), 0), "ab");
}

#[test]
fn legend_of_each_mode() {
    let maps = ModalKeyMaps::default();
    let navigate = maps.render(&Mode::Navigate);
    let labels: Vec<Vec<&str>> = navigate.iter().map(|line| texts(line)).collect();
    assert_eq!(
        labels,
        vec![
            vec!["i\t   ", "->   ", "Enter Insert Mode"],
            vec!["q\t   ", "->   ", "Quit "],
            vec!["r\t   ", "->   ", "Reset"],
            vec!["t\t   ", "->   ", "Get Server Time"],
            vec!["m\t   ", "->   ", "Move rooms"],
            vec!["d\t   ", "->   ", "Toggle debug output"],
        ]
    );
    let insert = maps.render(&Mode::Insert);
    let labels: Vec<Vec<&str>> = insert.iter().map(|line| texts(line)).collect();
    assert_eq!(
        labels,
        vec![
            vec!["Esc\t ", "->   ", "Enter Navigation Mode"],
            vec!["\u{f0311}\t   ", "->   ", "Send Message"],
            vec!["←/→\t ", "->   ", "Move Cursor"],
            vec!["Del\t ", "->   ", "Delete"],
        ]
    );
    assert_eq!(maps.render(&Mode::InsertCommand).len(), 4);
    assert_eq!(maps.render(&Mode::Disconnected).len(), 1);
}
