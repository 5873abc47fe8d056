use log_book::editor::{Editor, Event, KeyCode, KeyEvent, KeyEventKind, KeyModifiers, Location, CONTROL};
use log_book::terminal::{Command, Position, Size, Terminal};
use log_book::view::View;

fn press(code: KeyCode) -> Event {
    Event::Key(KeyEvent { code, modifiers: KeyModifiers { bits: 0 }, kind: KeyEventKind::Press })
}

fn editor(width: usize, height: usize) -> Editor {
    Editor::new(Terminal::new(), View::new(Size { width, height }))
}

#[test]
fn right_sticks_at_last_column() {
    let mut e = editor(5, 5);
    assert_eq!(e.location(), Location { x: 0, y: 0 });
    for step in 1..=4 {
        e.evaluate_event(press(KeyCode::Right));
        assert_eq!(e.location().x, step);
    }
    for _ in 0..10 {
        e.evaluate_event(press(KeyCode::Right));
        assert_eq!(e.location().x, 4);
    }
}

#[test]
fn moves_saturate_at_edges() {
    let mut e = editor(3, 2);
    e.evaluate_event(press(KeyCode::Up));
    e.evaluate_event(press(KeyCode::Left));
    assert_eq!(e.location(), Location { x: 0, y: 0 });
    e.evaluate_event(press(KeyCode::Down));
    e.evaluate_event(press(KeyCode::Down));
    e.evaluate_event(press(KeyCode::Down));
    assert_eq!(e.location().y, 1);
    e.evaluate_event(press(KeyCode::End));
    assert_eq!(e.location().x, 2);
    e.evaluate_event(press(KeyCode::Home));
    assert_eq!(e.location().x, 0);
    e.evaluate_event(press(KeyCode::PageDown));
    e.evaluate_event(press(KeyCode::PageUp));
    assert_eq!(e.location(), Location { x: 0, y: 1 });
}

#[test]
fn caret_stays_in_viewport_over_key_sequence() {
    let keys = [
        KeyCode::Right, KeyCode::Right, KeyCode::Right, KeyCode::Down, KeyCode::End,
        KeyCode::Down, KeyCode::Down, KeyCode::Left, KeyCode::Up, KeyCode::Home,
        KeyCode::Right, KeyCode::Down, KeyCode::Down, KeyCode::PageDown, KeyCode::End,
    ];
    let mut e = editor(2, 3);
    for k in keys.iter() {
        e.evaluate_event(press(*k));
        assert!(e.location().x < 2);
        assert!(e.location().y < 3);
    }
}

#[test]
fn zero_sized_viewport_keeps_caret_at_origin() {
    let mut e = editor(0, 0);
    e.evaluate_event(press(KeyCode::Right));
    e.evaluate_event(press(KeyCode::Down));
    e.evaluate_event(press(KeyCode::End));
    assert_eq!(e.location(), Location { x: 0, y: 0 });
}

#[test]
fn ctrl_q_requests_quit() {
    let mut e = editor(5, 5);
    e.evaluate_event(Event::Key(KeyEvent {
        code: KeyCode::Char('q'),
        modifiers: KeyModifiers { bits: 0 },
        kind: KeyEventKind::Press,
    }));
    assert!(!e.should_quit());
    e.evaluate_event(Event::Key(KeyEvent {
        code: KeyCode::Char('q'),
        modifiers: KeyModifiers { bits: CONTROL },
        kind: KeyEventKind::Release,
    }));
    assert!(!e.should_quit());
    e.evaluate_event(Event::Key(KeyEvent {
        code: KeyCode::Char('q'),
        modifiers: KeyModifiers { bits: CONTROL | 1 },
        kind: KeyEventKind::Press,
    }));
    assert!(!e.should_quit());
    e.evaluate_event(Event::Key(KeyEvent {
        code: KeyCode::Char('q'),
        modifiers: KeyModifiers { bits: CONTROL },
        kind: KeyEventKind::Press,
    }));
    assert!(e.should_quit());
}

#[test]
fn released_and_other_keys_change_nothing() {
    let mut e = editor(5, 5);
    e.evaluate_event(Event::Key(KeyEvent {
        code: KeyCode::Right,
        modifiers: KeyModifiers { bits: 0 },
        kind: KeyEventKind::Release,
    }));
    e.evaluate_event(press(KeyCode::Char('x')));
    e.evaluate_event(press(KeyCode::Other));
    e.evaluate_event(Event::Other);
    assert_eq!(e.location(), Location { x: 0, y: 0 });
    assert!(!e.should_quit());
}

#[test]
fn resize_event_resizes_view() {
    let mut e = editor(5, 5);
    let _ = e.refresh_screen();
    assert!(!e.view().needs_redraw());
    e.evaluate_event(Event::Resize(80, 24));
    assert_eq!(e.view().size(), Size { width: 80, height: 24 });
    assert!(e.view().needs_redraw());
    e.evaluate_event(press(KeyCode::End));
    assert_eq!(e.location().x, 79);
}

#[test]
fn refresh_screen_batch_order() {
    let mut e = editor(10, 2);
    e.evaluate_event(press(KeyCode::Right));
    let batch = e.refresh_screen();
    assert_eq!(batch.len(), 1 + 6 + 2);
    assert_eq!(batch[0], Command::HideCaret);
    assert_eq!(batch[1], Command::MoveCaret(Position { col: 0, row: 0 }));
    assert_eq!(batch[7], Command::MoveCaret(Position { col: 1, row: 0 }));
    assert_eq!(batch[8], Command::ShowCaret);
    let again = e.refresh_screen();
    assert_eq!(
        again,
        vec![Command::HideCaret, Command::MoveCaret(Position { col: 1, row: 0 }), Command::ShowCaret]
    );
}

#[test]
fn shutdown_prints_farewell_only_after_quit() {
    let mut e = editor(5, 5);
    let plain = e.shutdown();
    assert_eq!(
        plain,
        vec![Command::LeaveAlternateScreen, Command::ShowCaret, Command::DisableRawMode]
    );
    e.evaluate_event(Event::Key(KeyEvent {
        code: KeyCode::Char('q'),
        modifiers: KeyModifiers { bits: CONTROL },
        kind: KeyEventKind::Press,
    }));
    let quit = e.shutdown();
    assert_eq!(
        quit,
        vec![
            Command::LeaveAlternateScreen,
            Command::ShowCaret,
            Command::Print(String::from("Goodbye!\r\n")),
            Command::DisableRawMode,
        ]
    );
}

#[test]
fn terminal_lifecycle_batches() {
    let mut t = Terminal::new();
    t.hide_caret();
    let init = t.initialize();
    assert_eq!(
        init,
        vec![Command::HideCaret, Command::EnableRawMode, Command::EnterAlternateScreen, Command::ClearScreen]
    );
    assert!(t.execute().is_empty());
    let done = t.terminate();
    assert_eq!(
        done,
        vec![Command::LeaveAlternateScreen, Command::ShowCaret, Command::DisableRawMode]
    );
    t.print_line(2, "hi");
    assert_eq!(
        t.execute(),
        vec![
            Command::MoveCaret(Position { col: 0, row: 2 }),
            Command::ClearLine,
            Command::Print(String::from("hi")),
        ]
    );
}

#[test]
fn move_after_shrinking_resize_clamps_both_axes() {
    let mut e = editor(20, 20);
    for _ in 0..8 {
        e.evaluate_event(press(KeyCode::Down));
        e.evaluate_event(press(KeyCode::Right));
    }
    assert_eq!(e.location(), Location { x: 8, y: 8 });
    e.evaluate_event(Event::Resize(5, 5));
    assert_eq!(e.location(), Location { x: 8, y: 8 });
    e.evaluate_event(press(KeyCode::Up));
    assert_eq!(e.location(), Location { x: 4, y: 4 });
}

#[test]
fn any_motion_key_brings_caret_inside() {
    for key in [KeyCode::Up, KeyCode::Left, KeyCode::PageUp, KeyCode::PageDown, KeyCode::Home] {
        let mut e = editor(30, 30);
        for _ in 0..20 {
            e.evaluate_event(press(KeyCode::Down));
            e.evaluate_event(press(KeyCode::Right));
        }
        e.evaluate_event(Event::Resize(6, 3));
        e.move_point(key);
        assert!(e.location().x < 6);
        assert!(e.location().y < 3);
    }
}
