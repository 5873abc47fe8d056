use vstd::prelude::*;
use vstd::view::View as _;

use crate::terminal::{Command, CommandView, Position, Size, Terminal};
use crate::view::View;

verus! {

/// The message printed on the way out after a normal quit.
pub const FAREWELL: &'static str = "Goodbye!\r\n";

/// Bit of `KeyModifiers::bits` for the Control key.
pub const CONTROL: u8 = 2;

/// Logical caret position in the text's coordinates.
#[derive(Clone, Copy, Debug, Default, PartialEq, Eq, Structural)]
pub struct Location {
    pub x: usize,
    pub y: usize,
}

/// The key of a key event.
#[derive(Clone, Copy, Debug, PartialEq, Eq, Structural)]
pub enum KeyCode {
    Up,
    Down,
    Left,
    Right,
    PageUp,
    PageDown,
    Home,
    End,
    Char(char),
    Other,
}

/// The modifier keys held during a key event, one bit each: Shift 1,
/// Control 2, Alt 4, Super 8, Hyper 16, Meta 32.
#[derive(Clone, Copy, Debug, PartialEq, Eq, Structural)]
pub struct KeyModifiers {
    pub bits: u8,
}

/// Whether a key went down, repeated, or went up.
#[derive(Clone, Copy, Debug, PartialEq, Eq, Structural)]
pub enum KeyEventKind {
    Press,
    Repeat,
    Release,
}

/// One key event.
#[derive(Clone, Copy, Debug, PartialEq, Eq, Structural)]
pub struct KeyEvent {
    pub code: KeyCode,
    pub modifiers: KeyModifiers,
    pub kind: KeyEventKind,
}

/// An input event of the device.
#[derive(Clone, Copy, Debug, PartialEq, Eq, Structural)]
pub enum Event {
    Key(KeyEvent),
    /// The device's new size: columns, then rows.
    Resize(u16, u16),
    Other,
}

/// The characters of the farewell message.
pub open spec fn farewell() -> Seq<char> {
    FAREWELL@
}

/// `v - 1`, but not below zero.
pub open spec fn dec_sat(v: usize) -> usize {
    if v == 0 {
        0
    } else {
        (v - 1) as usize
    }
}

/// `v + 1`, but not past `usize::MAX`.
pub open spec fn inc_sat(v: usize) -> usize {
    if v == usize::MAX {
        v
    } else {
        (v + 1) as usize
    }
}

/// The smaller of `a` and `b`.
pub open spec fn min_usize(a: usize, b: usize) -> usize {
    if a <= b {
        a
    } else {
        b
    }
}

/// The step `key` makes from `loc` in a viewport of `size`: Up and Left step
/// back but not below zero; Down and Right step on but not past the last row
/// or column; Home goes to the first column, End to the last; any other key
/// stays in place.
pub open spec fn stepped(loc: Location, size: Size, key: KeyCode) -> Location {
    match key {
        KeyCode::Up => Location { y: dec_sat(loc.y), ..loc },
        KeyCode::Down => Location { y: min_usize(inc_sat(loc.y), dec_sat(size.height)), ..loc },
        KeyCode::Left => Location { x: dec_sat(loc.x), ..loc },
        KeyCode::Right => Location { x: min_usize(inc_sat(loc.x), dec_sat(size.width)), ..loc },
        KeyCode::Home => Location { x: 0, ..loc },
        KeyCode::End => Location { x: dec_sat(size.width), ..loc },
        _ => loc,
    }
}

/// `loc` pulled back onto the last row and column of a viewport of `size`
/// where it lies past them.
pub open spec fn clamped(loc: Location, size: Size) -> Location {
    Location { x: min_usize(loc.x, dec_sat(size.width)), y: min_usize(loc.y, dec_sat(size.height)) }
}

/// Where `key` takes the caret from `loc` in a viewport of `size`: the step
/// of the key, then both coordinates clamped to the viewport, so that a caret
/// left outside by a shrinking resize comes back inside.
pub open spec fn moved(loc: Location, size: Size, key: KeyCode) -> Location {
    clamped(stepped(loc, size, key), size)
}

/// Where a sequence of keys, pressed in order, takes the caret from `loc`.
pub open spec fn moved_along(loc: Location, size: Size, keys: Seq<KeyCode>) -> Location
    decreases keys.len(),
{
    if keys.len() == 0 {
        loc
    } else {
        moved_along(moved(loc, size, keys[0]), size, keys.drop_first())
    }
}

/// Whether `key` is one that moves the caret.
pub open spec fn is_motion(key: KeyCode) -> bool {
    match key {
        KeyCode::Up | KeyCode::Down | KeyCode::Left | KeyCode::Right | KeyCode::PageUp
        | KeyCode::PageDown | KeyCode::Home | KeyCode::End => true,
        _ => false,
    }
}

/// Whether `k` is Ctrl+Q, with no other modifier.
pub open spec fn is_quit(k: KeyEvent) -> bool {
    k.code == KeyCode::Char('q') && k.modifiers.bits == CONTROL
}

/// The caret is on a cell of a viewport of `size`.
pub open spec fn within(loc: Location, size: Size) -> bool {
    loc.x < size.width && loc.y < size.height
}

/// Owns the caret location and the view, and decides what each input event
/// does to them.
pub struct Editor {
    should_quit: bool,
    location: Location,
    view: View,
    terminal: Terminal,
}

impl Editor {
    /// Whether a quit was requested.
    pub closed spec fn quit_requested(&self) -> bool {
        self.should_quit
    }

    /// The caret location.
    pub closed spec fn caret(&self) -> Location {
        self.location
    }

    /// The view.
    pub closed spec fn shown(&self) -> View {
        self.view
    }

    /// The commands queued on the terminal and not yet flushed.
    pub closed spec fn pending(&self) -> Seq<CommandView> {
        self.terminal@
    }

    /// A running editor over `terminal` and `view`, caret at the origin.
    pub fn new(terminal: Terminal, view: View) -> (e: Editor)
        ensures
            !e.quit_requested(),
            e.caret() == (Location { x: 0, y: 0 }),
            e.shown() == view,
            e.pending() == terminal@,
    {
        Editor { should_quit: false, location: Location { x: 0, y: 0 }, view, terminal }
    }

    /// Moves the caret for `key`, then clamps it to the current viewport.
    pub fn move_point(&mut self, key: KeyCode)
        ensures
            final(self).caret() == moved(old(self).caret(), old(self).shown().viewport(), key),
            old(self).shown().viewport().width > 0 && old(self).shown().viewport().height > 0
                ==> within(final(self).caret(), old(self).shown().viewport()),
            final(self).quit_requested() == old(self).quit_requested(),
            final(self).shown() == old(self).shown(),
            final(self).pending() == old(self).pending(),
    {
        let Location { mut x, mut y } = self.location;
        let Size { width, height } = self.view.size();
        match key {
            KeyCode::Up => y = y.saturating_sub(1),
            KeyCode::Down => {
                let down = y.saturating_add(1);
                let last = height.saturating_sub(1);
                y = if down < last {
                    down
                } else {
                    last
                };
            },
            KeyCode::Left => x = x.saturating_sub(1),
            KeyCode::Right => {
                let right = x.saturating_add(1);
                let last = width.saturating_sub(1);
                x = if right < last {
                    right
                } else {
                    last
                };
            },
            KeyCode::Home => x = 0,
            KeyCode::End => x = width.saturating_sub(1),
            _ => {},
        }
        let last_col = width.saturating_sub(1);
        let last_row = height.saturating_sub(1);
        if x > last_col {
            x = last_col;
        }
        if y > last_row {
            y = last_row;
        }
        self.location = Location { x, y };
        proof {
            if width > 0 && height > 0 {
                lemma_move_stays_within(old(self).caret(), old(self).shown().viewport(), key);
            }
        }
    }

    /// Applies one input event: a pressed Ctrl+Q requests the quit, a pressed
    /// motion key moves the caret, a resize resizes the view; releases, other
    /// keys and other events change nothing.
    pub fn evaluate_event(&mut self, event: Event)
        ensures
            match event {
                Event::Key(k) => {
                    &&& final(self).shown() == old(self).shown()
                    &&& final(self).pending() == old(self).pending()
                    &&& if k.kind == KeyEventKind::Press && is_quit(k) {
                        &&& final(self).quit_requested()
                        &&& final(self).caret() == old(self).caret()
                    } else if k.kind == KeyEventKind::Press && is_motion(k.code) {
                        &&& final(self).quit_requested() == old(self).quit_requested()
                        &&& final(self).caret() == moved(
                            old(self).caret(),
                            old(self).shown().viewport(),
                            k.code,
                        )
                        &&& (old(self).shown().viewport().width > 0
                            && old(self).shown().viewport().height > 0 ==> within(
                            final(self).caret(),
                            old(self).shown().viewport(),
                        ))
                    } else {
                        &&& final(self).quit_requested() == old(self).quit_requested()
                        &&& final(self).caret() == old(self).caret()
                    }
                },
                Event::Resize(w, h) => {
                    &&& View::resize_step(
                        old(self).shown(),
                        Size { width: w as usize, height: h as usize },
                        final(self).shown(),
                    )
                    &&& final(self).quit_requested() == old(self).quit_requested()
                    &&& final(self).caret() == old(self).caret()
                    &&& final(self).pending() == old(self).pending()
                },
                Event::Other => *final(self) == *old(self),
            },
    {
        match event {
            Event::Key(k) => {
                if k.kind == KeyEventKind::Press {
                    if k.code == KeyCode::Char('q') && k.modifiers.bits == CONTROL {
                        self.should_quit = true;
                    } else {
                        match k.code {
                            KeyCode::Up | KeyCode::Down | KeyCode::Left | KeyCode::Right
                            | KeyCode::PageDown | KeyCode::PageUp | KeyCode::End
                            | KeyCode::Home => self.move_point(k.code),
                            _ => {},
                        }
                    }
                }
            },
            Event::Resize(width_u16, height_u16) => {
                let width = width_u16 as usize;
                let height = height_u16 as usize;
                self.view.resize(Size { width, height });
            },
            Event::Other => {},
        }
    }

    /// Redraws: hides the caret, renders the view, puts the caret at its
    /// location, shows it, and hands over everything queued as one batch.
    pub fn refresh_screen(&mut self) -> (batch: Vec<Command>)
        ensures
            batch@.map_values(|c: Command| c@) == old(self).pending() + seq![
                CommandView::HideCaret,
            ] + old(self).shown().render_output() + seq![
                CommandView::MoveCaret(
                    Position { col: old(self).caret().x, row: old(self).caret().y },
                ),
                CommandView::ShowCaret,
            ],
            View::render_step(old(self).shown(), final(self).shown()),
            final(self).pending() == Seq::<CommandView>::empty(),
            final(self).caret() == old(self).caret(),
            final(self).quit_requested() == old(self).quit_requested(),
    {
        self.terminal.hide_caret();
        self.view.render(&mut self.terminal);
        self.terminal.move_caret(Position { row: self.location.y, col: self.location.x });
        self.terminal.show_caret();
        let ghost queued = self.terminal@;
        assert(queued =~= old(self).pending() + seq![CommandView::HideCaret,]
            + old(self).shown().render_output() + seq![
            CommandView::MoveCaret(
                Position { col: old(self).caret().x, row: old(self).caret().y },
            ),
            CommandView::ShowCaret,
        ]);
        self.terminal.execute()
    }

    /// Restores the device on the way out: leaves the alternate screen, shows
    /// the caret, prints the farewell if the quit was requested, leaves raw
    /// mode, and hands over everything queued as one batch.
    pub fn shutdown(&mut self) -> (batch: Vec<Command>)
        ensures
            batch@.map_values(|c: Command| c@) == old(self).pending() + seq![
                CommandView::LeaveAlternateScreen,
                CommandView::ShowCaret,
            ] + (if old(self).quit_requested() {
                seq![CommandView::Print(farewell())]
            } else {
                Seq::empty()
            }) + seq![CommandView::DisableRawMode],
            final(self).pending() == Seq::<CommandView>::empty(),
            final(self).caret() == old(self).caret(),
            final(self).quit_requested() == old(self).quit_requested(),
            final(self).shown() == old(self).shown(),
    {
        self.terminal.leave_alternate_screen();
        self.terminal.show_caret();
        if self.should_quit {
            self.terminal.print(FAREWELL);
        }
        self.terminal.disable_raw_mode();
        let ghost queued = self.terminal@;
        assert(queued =~= old(self).pending() + seq![
            CommandView::LeaveAlternateScreen,
            CommandView::ShowCaret,
        ] + (if old(self).quit_requested() {
            seq![CommandView::Print(farewell())]
        } else {
            Seq::empty()
        }) + seq![CommandView::DisableRawMode]);
        self.terminal.execute()
    }

    /// Whether a quit was requested.
    pub fn should_quit(&self) -> (b: bool)
        ensures
            b == self.quit_requested(),
    {
        self.should_quit
    }

    /// The caret location.
    pub fn location(&self) -> (l: Location)
        ensures
            l == self.caret(),
    {
        self.location
    }

    /// The view.
    pub fn view(&self) -> (v: &View)
        ensures
            *v == self.shown(),
    {
        &self.view
    }
}

/// In a viewport with rows and columns, one caret move from anywhere ends on
/// a cell of it.
pub proof fn lemma_move_stays_within(loc: Location, size: Size, key: KeyCode)
    requires
        size.width > 0,
        size.height > 0,
    ensures
        within(moved(loc, size, key), size),
{
}

/// Caret clamping: in a viewport with rows and columns, after any non-empty
/// sequence of caret moves from any location, the caret is on a cell of it.
pub proof fn lemma_moves_stay_within(loc: Location, size: Size, keys: Seq<KeyCode>)
    requires
        size.width > 0,
        size.height > 0,
        keys.len() > 0,
    ensures
        within(moved_along(loc, size, keys), size),
    decreases keys.len(),
{
    lemma_move_stays_within(loc, size, keys[0]);
    let rest = keys.drop_first();
    if rest.len() == 0 {
        assert(moved_along(moved(loc, size, keys[0]), size, rest) == moved(loc, size, keys[0]));
    } else {
        lemma_moves_stay_within(moved(loc, size, keys[0]), size, keys.drop_first());
    }
}

} // verus!
