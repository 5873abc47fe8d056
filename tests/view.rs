use log_book::buffer::{Buffer, LoadError, Row};
use log_book::terminal::{Command, Position, Size, Terminal};
use log_book::view::View;

fn print_of(cmd: &Command) -> String {
    match cmd {
        Command::Print(s) => s.clone(),
        other => panic!("expected a print, got {:?}", other),
    }
}

#[test]
fn render_twice_writes_once() {
    let mut terminal = Terminal::new();
    let mut view = View::new(Size { width: 10, height: 3 });
    view.render(&mut terminal);
    let first = terminal.execute();
    assert_eq!(first.len(), 9);
    assert!(!view.needs_redraw());
    view.render(&mut terminal);
    assert!(terminal.execute().is_empty());
}

#[test]
fn resize_after_render_repaints() {
    let mut terminal = Terminal::new();
    let mut view = View::new(Size { width: 10, height: 3 });
    view.render(&mut terminal);
    terminal.execute();
    view.resize(Size { width: 20, height: 4 });
    assert!(view.needs_redraw());
    assert_eq!(view.size(), Size { width: 20, height: 4 });
    view.render(&mut terminal);
    let batch = terminal.execute();
    assert_eq!(batch.len(), 12);
    assert_eq!(batch[9], Command::MoveCaret(Position { col: 0, row: 3 }));
}

#[test]
fn degenerate_viewport_draws_nothing_and_stays_dirty() {
    let mut terminal = Terminal::new();
    let mut view = View::new(Size { width: 0, height: 5 });
    view.render(&mut terminal);
    assert!(terminal.execute().is_empty());
    assert!(view.needs_redraw());
    view.resize(Size { width: 7, height: 0 });
    view.render(&mut terminal);
    assert!(terminal.execute().is_empty());
    assert!(view.needs_redraw());
}

#[test]
fn empty_buffer_shows_banner_a_third_down() {
    let mut terminal = Terminal::new();
    let mut view = View::new(Size { width: 40, height: 9 });
    view.render(&mut terminal);
    let batch = terminal.execute();
    assert_eq!(batch.len(), 27);
    for row in 0..9 {
        assert_eq!(batch[3 * row], Command::MoveCaret(Position { col: 0, row }));
        assert_eq!(batch[3 * row + 1], Command::ClearLine);
        let text = print_of(&batch[3 * row + 2]);
        if row == 3 {
            assert_eq!(text, View::build_welcome_message(40));
            assert_eq!(text.chars().count(), 40);
        } else {
            assert_eq!(text, "~");
        }
    }
}

#[test]
fn buffer_lines_are_cut_to_width() {
    let mut terminal = Terminal::new();
    let mut view = View::new(Size { width: 4, height: 3 });
    view.load(Ok(String::from("abcdefg\nhi")));
    view.render(&mut terminal);
    let batch = terminal.execute();
    assert_eq!(print_of(&batch[2]), "abcd");
    assert_eq!(print_of(&batch[5]), "hi");
    assert_eq!(print_of(&batch[8]), "~");
}

#[test]
fn welcome_message_formatting() {
    let banner = "log-book Editor -- Version 0.1.0";
    let len = banner.len();
    assert_eq!(View::build_welcome_message(0), " ");
    assert_eq!(View::build_welcome_message(1), "~");
    assert_eq!(View::build_welcome_message(10), "~");
    assert_eq!(View::build_welcome_message(len), "~");
    let just = View::build_welcome_message(len + 1);
    assert_eq!(just, format!("~{}", banner));
    let wide = View::build_welcome_message(40);
    assert_eq!(wide.len(), 40);
    assert!(wide.starts_with('~'));
    let pad = (40 - len) / 2;
    assert_eq!(&wide[1 + pad..1 + pad + len], banner);
    assert_eq!(wide, format!("~{}{}{}", " ".repeat(pad), banner, " ".repeat(40 - 1 - pad - len)));
}

#[test]
fn load_failure_keeps_state() {
    let mut terminal = Terminal::new();
    let mut view = View::new(Size { width: 10, height: 3 });
    view.load(Ok(String::from("one\ntwo")));
    assert_eq!(view.buffer().len(), 2);
    view.render(&mut terminal);
    assert!(!view.needs_redraw());
    view.load(Err(LoadError::NotFound));
    assert_eq!(view.buffer().len(), 2);
    assert!(!view.needs_redraw());
    view.load(Err(LoadError::Io));
    assert_eq!(view.buffer().len(), 2);
    assert!(!view.needs_redraw());
}

#[test]
fn load_success_marks_dirty() {
    let mut terminal = Terminal::new();
    let mut view = View::new(Size { width: 10, height: 3 });
    view.render(&mut terminal);
    view.load(Ok(String::from("x")));
    assert!(view.needs_redraw());
    assert_eq!(view.buffer().len(), 1);
    assert_eq!(view.buffer().row(0).unwrap().render(0, 10), "x");
}

#[test]
fn row_render_clamps() {
    let row = Row::new("hello");
    assert_eq!(row.len(), 5);
    assert_eq!(row.render(0, 5), "hello");
    assert_eq!(row.render(1, 3), "el");
    assert_eq!(row.render(2, 100), "llo");
    assert_eq!(row.render(10, 20), "");
    assert_eq!(row.render(4, 2), "");
    assert_eq!(row.render(usize::MAX, usize::MAX), "");
}

#[test]
fn row_render_counts_characters() {
    let row = Row::new("héllo wörld");
    assert_eq!(row.len(), 11);
    assert_eq!(row.render(0, 2), "hé");
    assert_eq!(row.render(7, 9), "ör");
}

#[test]
fn buffer_splits_lines() {
    let b = Buffer::from_text("a\nb\r\nc\n");
    assert_eq!(b.len(), 3);
    assert_eq!(b.row(0).unwrap().render(0, 9), "a");
    assert_eq!(b.row(1).unwrap().render(0, 9), "b");
    assert_eq!(b.row(2).unwrap().render(0, 9), "c");
    assert!(b.row(3).is_none());
    assert!(Buffer::from_text("").is_empty());
    let blank = Buffer::from_text("\n");
    assert_eq!(blank.len(), 1);
    assert_eq!(blank.row(0).unwrap().render(0, 9), "");
    let no_end = Buffer::from_text("x\n\ny");
    assert_eq!(no_end.len(), 3);
    assert_eq!(no_end.row(1).unwrap().len(), 0);
    assert!(Buffer::new().is_empty());
}

#[test]
fn buffer_load_passes_errors_on() {
    assert_eq!(Buffer::load(Err(LoadError::NotFound)).err(), Some(LoadError::NotFound));
    let b = Buffer::load(Ok(String::from("p\nq"))).ok().unwrap();
    assert_eq!(b.len(), 2);
}
