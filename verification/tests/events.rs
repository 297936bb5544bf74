use marain_tui::event::{
    multiplex, Event, KeyEvent, KeyEventKind, MouseEvent, Multiplexer, Ready, TerminalInput,
};
use marain_tui::keymap::KeyCode;
use marain_tui::socket_client::Message;

fn key(code: KeyCode, kind: KeyEventKind) -> Ready {
    Ready::Input(TerminalInput::Key(KeyEvent { code, kind }))
}

#[test]
fn events_from_keys() {
    assert_eq!(
        Event::from('a'),
        Event::Key(KeyEvent { code: KeyCode::Char('a'), kind: KeyEventKind::Press })
    );
    assert_eq!(
        Event::from(KeyCode::Esc),
        Event::Key(KeyEvent { code: KeyCode::Esc, kind: KeyEventKind::Press })
    );
    assert_eq!(KeyEvent::new(KeyCode::Up), KeyEvent { code: KeyCode::Up, kind: KeyEventKind::Press });
}

#[test]
fn frames_become_events() {
    assert_eq!(multiplex(Ready::Frame(Message::Binary(vec![1, 2, 3]))), Some(Event::Recv(vec![1, 2, 3])));
    assert_eq!(multiplex(Ready::Frame(Message::Close)), Some(Event::ServerClose));
    assert_eq!(multiplex(Ready::Frame(Message::Text("x".to_string()))), Some(Event::Error));
    assert_eq!(multiplex(Ready::Frame(Message::Other)), Some(Event::Error));
}

#[test]
fn a_failing_transport_closes_the_session() {
    assert_eq!(multiplex(Ready::TransportFailed), Some(Event::ServerClose));
}

#[test]
fn only_key_presses_are_forwarded() {
    assert_eq!(
        multiplex(key(KeyCode::Char('a'), KeyEventKind::Press)),
        Some(Event::from('a'))
    );
    assert_eq!(multiplex(key(KeyCode::Char('a'), KeyEventKind::Release)), None);
    assert_eq!(multiplex(key(KeyCode::Char('a'), KeyEventKind::Repeat)), None);
}

#[test]
fn terminal_input_becomes_events() {
    let mouse = MouseEvent { column: 3, row: 4 };
    assert_eq!(multiplex(Ready::Input(TerminalInput::Mouse(mouse))), Some(Event::Mouse(mouse)));
    assert_eq!(multiplex(Ready::Input(TerminalInput::Resize(80, 24))), Some(Event::Resize(80, 24)));
    assert_eq!(multiplex(Ready::Input(TerminalInput::Other)), None);
    assert_eq!(multiplex(Ready::InputFailed), Some(Event::Error));
    assert_eq!(multiplex(Ready::InputEnded), None);
}

#[test]
fn each_tick_is_one_event() {
    assert_eq!(multiplex(Ready::UpdateTick), Some(Event::Tick));
    assert_eq!(multiplex(Ready::RenderTick), Some(Event::Render));
    assert_eq!(multiplex(Ready::Shutdown), None);
}

#[test]
fn events_keep_the_order_of_their_causes() {
    let mut mux = Multiplexer::new();
    let events = mux.drain(vec![
        Ready::UpdateTick,
        key(KeyCode::Char('a'), KeyEventKind::Press),
        Ready::InputEnded,
        Ready::Frame(Message::Binary(vec![9])),
        Ready::RenderTick,
        key(KeyCode::Char('b'), KeyEventKind::Release),
        Ready::RenderTick,
        Ready::UpdateTick,
        Ready::Frame(Message::Other),
    ]);
    assert_eq!(
        events,
        vec![
            Event::Tick,
            Event::from('a'),
            Event::Recv(vec![9]),
            Event::Render,
            Event::Render,
            Event::Tick,
            Event::Error,
        ]
    );
    assert!(!mux.is_stopped());
    assert!(!mux.transport_closed());
}

#[test]
fn nothing_is_forwarded_after_the_signal_to_stop() {
    let mut mux = Multiplexer::new();
    let events = mux.drain(vec![
        Ready::UpdateTick,
        Ready::Shutdown,
        Ready::RenderTick,
        key(KeyCode::Char('a'), KeyEventKind::Press),
        Ready::TransportFailed,
    ]);
    assert_eq!(events, vec![Event::Tick]);
    assert!(mux.is_stopped());
    assert!(!mux.transport_closed());
    assert_eq!(mux.feed(Ready::UpdateTick), None);
    assert_eq!(mux.drain(vec![Ready::RenderTick, Ready::UpdateTick]), Vec::new());
    assert!(mux.is_stopped());
}

#[test]
fn feeding_one_piece_at_a_time() {
    let mut mux = Multiplexer::new();
    assert_eq!(mux.feed(Ready::UpdateTick), Some(Event::Tick));
    assert_eq!(mux.feed(Ready::InputEnded), None);
    assert!(!mux.is_stopped());
    assert_eq!(mux.feed(Ready::Shutdown), None);
    assert!(mux.is_stopped());
    assert_eq!(mux.feed(Ready::RenderTick), None);
    assert_eq!(mux.feed(Ready::Shutdown), None);
    assert!(mux.is_stopped());
}

#[test]
fn a_failed_transport_is_closed_and_the_rest_goes_on() {
    let mut mux = Multiplexer::new();
    assert_eq!(mux.feed(Ready::Frame(Message::Binary(vec![1]))), Some(Event::Recv(vec![1])));
    assert!(!mux.transport_closed());
    assert_eq!(mux.feed(Ready::TransportFailed), Some(Event::ServerClose));
    assert!(mux.transport_closed());
    assert!(!mux.is_stopped());
    assert_eq!(mux.feed(Ready::TransportFailed), None);
    assert_eq!(mux.feed(Ready::Frame(Message::Binary(vec![2]))), None);
    assert_eq!(mux.feed(Ready::Frame(Message::Close)), None);
    assert_eq!(mux.feed(key(KeyCode::Char('q'), KeyEventKind::Press)), Some(Event::from('q')));
    assert_eq!(mux.feed(Ready::RenderTick), Some(Event::Render));
    assert_eq!(mux.feed(Ready::UpdateTick), Some(Event::Tick));
    assert_eq!(mux.feed(Ready::InputFailed), Some(Event::Error));
    assert!(mux.transport_closed());
    assert!(!mux.is_stopped());
}

#[test]
fn the_closing_frame_closes_the_transport_once() {
    let mut mux = Multiplexer::new();
    let events = mux.drain(vec![
        Ready::Frame(Message::Close),
        Ready::TransportFailed,
        Ready::UpdateTick,
        Ready::Frame(Message::Close),
        key(KeyCode::Char('q'), KeyEventKind::Press),
    ]);
    assert_eq!(events, vec![Event::ServerClose, Event::Tick, Event::from('q')]);
    assert!(mux.transport_closed());
    assert!(!mux.is_stopped());
}

#[test]
fn other_frames_leave_the_transport_open() {
    let mut mux = Multiplexer::new();
    assert_eq!(mux.feed(Ready::Frame(Message::Text("x".to_string()))), Some(Event::Error));
    assert_eq!(mux.feed(Ready::Frame(Message::Other)), Some(Event::Error));
    assert!(!mux.transport_closed());
    assert_eq!(mux.feed(Ready::Frame(Message::Binary(vec![3]))), Some(Event::Recv(vec![3])));
}

#[test]
fn draining_nothing() {
    let mut mux = Multiplexer::new();
    assert_eq!(mux.drain(Vec::new()), Vec::new());
    assert!(!mux.is_stopped());
    assert!(!mux.transport_closed());
}

#[test]
fn draining_in_two_runs_is_draining_in_one() {
    let first = || vec![Ready::UpdateTick, Ready::Frame(Message::Close), Ready::RenderTick];
    let second = || vec![Ready::TransportFailed, Ready::RenderTick, Ready::Shutdown, Ready::UpdateTick];
    let mut whole = Multiplexer::new();
    let mut all = first();
    all.extend(second());
    let at_once = whole.drain(all);
    let mut parts = Multiplexer::new();
    let mut in_two = parts.drain(first());
    in_two.extend(parts.drain(second()));
    assert_eq!(at_once, in_two);
    assert_eq!(whole, parts);
    assert_eq!(at_once, vec![Event::Tick, Event::ServerClose, Event::Render, Event::Render]);
}
