use vstd::prelude::*;
use vstd::view::View as _;

use crate::buffer::{clamped_slice, lines_of, Buffer, LoadError};
use crate::terminal::{line_commands, CommandView, Size, Terminal};

verus! {

/// The banner shown on an empty buffer: the editor's name and version.
pub const WELCOME: &'static str = "log-book Editor -- Version 0.1.0";

/// The characters of the banner.
pub open spec fn banner() -> Seq<char> {
    WELCOME@
}

/// `n` spaces.
pub open spec fn spaces(n: int) -> Seq<char> {
    Seq::new(n as nat, |i: int| ' ')
}

/// The padding before the banner on a row `width` columns wide.
pub open spec fn banner_padding(width: int) -> int {
    (width - banner().len()) / 2
}

/// The welcome row for a viewport `width` columns wide: a single space when
/// there are no columns, the filler marker alone when the banner cannot follow
/// the marker within `width`, else the marker, the banner after
/// `banner_padding(width)` spaces, and spaces up to exactly `width` columns.
pub open spec fn welcome_line(width: int) -> Seq<char> {
    if width == 0 {
        seq![' ']
    } else if width <= banner().len() {
        seq!['~']
    } else {
        let pad = banner_padding(width);
        seq!['~'] + spaces(pad) + banner() + spaces(width - 1 - pad - banner().len())
    }
}

/// What screen row `row` shows: the buffer's line there cut to the viewport's
/// width; past the end of an empty buffer, the welcome row on the row a third
/// of the way down; else the filler marker.
pub open spec fn visible_text(lines: Seq<Seq<char>>, size: Size, row: int) -> Seq<char> {
    if row < lines.len() {
        clamped_slice(lines[row], 0, size.width as int)
    } else if row == size.height / 3 && lines.len() == 0 {
        welcome_line(size.width as int)
    } else {
        seq!['~']
    }
}

/// The commands that paint the first `n` screen rows, top to bottom.
pub open spec fn frame_rows(lines: Seq<Seq<char>>, size: Size, n: nat) -> Seq<CommandView>
    decreases n,
{
    if n == 0 {
        Seq::empty()
    } else {
        frame_rows(lines, size, (n - 1) as nat) + line_commands(
            (n - 1) as usize,
            visible_text(lines, size, n - 1),
        )
    }
}

/// The commands of a full repaint of a viewport of `size` showing `lines`.
pub open spec fn frame(lines: Seq<Seq<char>>, size: Size) -> Seq<CommandView> {
    frame_rows(lines, size, size.height as nat)
}

/// Maps a buffer and a viewport size onto terminal rows, repainting only
/// after a change.
pub struct View {
    buffer: Buffer,
    needs_redraw: bool,
    size: Size,
}

impl View {
    /// The lines of the buffer shown.
    pub closed spec fn lines(&self) -> Seq<Seq<char>> {
        self.buffer@
    }

    /// The current viewport size.
    pub closed spec fn viewport(&self) -> Size {
        self.size
    }

    /// Whether the next `render` has to repaint.
    pub closed spec fn dirty(&self) -> bool {
        self.needs_redraw
    }

    /// Whether `render` paints in this state: something changed since the
    /// last paint, and the viewport has rows and columns.
    pub open spec fn paints(&self) -> bool {
        self.dirty() && self.viewport().width > 0 && self.viewport().height > 0
    }

    /// What `render` queues in this state.
    pub open spec fn render_output(&self) -> Seq<CommandView> {
        if self.paints() {
            frame(self.lines(), self.viewport())
        } else {
            Seq::empty()
        }
    }

    /// `after` is the state `render` leaves `before` in: content and size
    /// kept, the dirty flag cleared exactly when a repaint happened.
    pub open spec fn render_step(before: View, after: View) -> bool {
        &&& after.lines() == before.lines()
        &&& after.viewport() == before.viewport()
        &&& after.dirty() == (before.dirty() && !before.paints())
    }

    /// `after` is the state `resize(new_size)` leaves `before` in.
    pub open spec fn resize_step(before: View, new_size: Size, after: View) -> bool {
        &&& after.lines() == before.lines()
        &&& after.viewport() == new_size
        &&& after.dirty()
    }

    /// An empty view of the given size, due for its first paint.
    pub fn new(size: Size) -> (v: View)
        ensures
            v.lines() == Seq::<Seq<char>>::empty(),
            v.viewport() == size,
            v.dirty(),
    {
        View { buffer: Buffer::new(), needs_redraw: true, size }
    }

    /// Takes `new_size` as the viewport size; the next render repaints.
    pub fn resize(&mut self, new_size: Size)
        ensures
            View::resize_step(*old(self), new_size, *final(self)),
    {
        self.size = new_size;
        self.needs_redraw = true;
    }

    fn render_line(terminal: &mut Terminal, row: usize, line: &str)
        ensures
            final(terminal)@ == old(terminal)@ + line_commands(row, line@),
    {
        terminal.print_line(row, line);
    }

    /// The welcome row for a viewport `width` columns wide.
    pub fn build_welcome_message(width: usize) -> (message: String)
        ensures
            message@ == welcome_line(width as int),
            width == 0 ==> message@ == seq![' '],
            0 < width <= banner().len() ==> message@ == seq!['~'],
            width > banner().len() ==> {
                let pad = banner_padding(width as int);
                &&& message@.len() == width
                &&& message@[0] == '~'
                &&& message@.subrange(1 + pad, 1 + pad + banner().len()) == banner()
            },
    {
        proof {
            reveal_strlit("log-book Editor -- Version 0.1.0");
            reveal_strlit(" ");
            reveal_strlit("~");
        }
        if width == 0 {
            return String::from_str(" ");
        }
        let len = WELCOME.unicode_len();
        if width <= len {
            return String::from_str("~");
        }
        let padding = (width - len) / 2;
        let mut message = String::from_str("~");
        let mut i: usize = 0;
        while i < padding
            invariant
                i <= padding,
                message@ == seq!['~'] + spaces(i as int),
            decreases padding - i,
        {
            proof {
                reveal_strlit(" ");
            }
            message.append(" ");
            i = i + 1;
            assert(message@ =~= seq!['~'] + spaces(i as int));
        }
        message.append(WELCOME);
        let fill = width - 1 - padding - len;
        let ghost head = message@;
        let mut j: usize = 0;
        while j < fill
            invariant
                j <= fill,
                message@ == head + spaces(j as int),
            decreases fill - j,
        {
            proof {
                reveal_strlit(" ");
            }
            message.append(" ");
            j = j + 1;
            assert(message@ =~= head + spaces(j as int));
        }
        proof {
            reveal_strlit("log-book Editor -- Version 0.1.0");
        }
        assert(message@ =~= welcome_line(width as int));
        assert(message@.subrange(1 + padding, 1 + padding + len) =~= banner());
        message
    }

    /// Paints every viewport row if something changed since the last paint
    /// and the viewport has rows and columns; otherwise queues nothing. On a
    /// viewport without rows or columns the dirty flag stays set, so that the
    /// first resize to a real size paints.
    pub fn render(&mut self, terminal: &mut Terminal)
        ensures
            View::render_step(*old(self), *final(self)),
            final(terminal)@ == old(terminal)@ + old(self).render_output(),
    {
        if !self.needs_redraw {
            assert(terminal@ =~= terminal@ + Seq::<CommandView>::empty());
            return;
        }
        let height = self.size.height;
        let width = self.size.width;
        if height == 0 || width == 0 {
            assert(terminal@ =~= terminal@ + Seq::<CommandView>::empty());
            return;
        }
        proof {
            reveal_strlit("~");
        }
        let vert_center = height / 3;
        let mut cur_row: usize = 0;
        while cur_row < height
            invariant
                cur_row <= height,
                height == self.size.height,
                width == self.size.width,
                vert_center == height / 3,
                terminal@ == old(terminal)@ + frame_rows(self.buffer@, self.size, cur_row as nat),
            decreases height - cur_row,
        {
            proof {
                reveal_strlit("~");
            }
            let ghost before = terminal@;
            let ghost shown = visible_text(self.buffer@, self.size, cur_row as int);
            match self.buffer.row(cur_row) {
                Some(line) => {
                    let text = line.render(0, width);
                    assert(text@ == shown);
                    View::render_line(terminal, cur_row, text.as_str());
                },
                None => {
                    if cur_row == vert_center && self.buffer.is_empty() {
                        let message = View::build_welcome_message(width);
                        assert(message@ == shown);
                        View::render_line(terminal, cur_row, message.as_str());
                    } else {
                        assert("~"@ == shown);
                        View::render_line(terminal, cur_row, "~");
                    }
                },
            }
            assert(terminal@ == before + line_commands(cur_row, shown));
            assert(terminal@ =~= old(terminal)@ + frame_rows(
                self.buffer@,
                self.size,
                (cur_row + 1) as nat,
            ));
            cur_row = cur_row + 1;
        }
        self.needs_redraw = false;
    }

    /// Shows the text that was read, or keeps everything as it was when it
    /// could not be read.
    pub fn load(&mut self, read: Result<String, LoadError>)
        ensures
            match read {
                Ok(text) => {
                    &&& final(self).lines() == lines_of(text@)
                    &&& final(self).viewport() == old(self).viewport()
                    &&& final(self).dirty()
                },
                Err(_) => *final(self) == *old(self),
            },
    {
        if let Ok(buffer) = Buffer::load(read) {
            self.buffer = buffer;
            self.needs_redraw = true;
        }
    }

    /// The buffer shown.
    pub fn buffer(&self) -> (b: &Buffer)
        ensures
            b@ == self.lines(),
    {
        &self.buffer
    }

    /// The current viewport size.
    pub fn size(&self) -> (s: Size)
        ensures
            s == self.viewport(),
    {
        self.size
    }

    /// Whether the next `render` repaints, size permitting.
    pub fn needs_redraw(&self) -> (b: bool)
        ensures
            b == self.dirty(),
    {
        self.needs_redraw
    }
}

/// A full repaint writes three commands for each viewport row.
pub proof fn lemma_frame_rows_len(lines: Seq<Seq<char>>, size: Size, n: nat)
    ensures
        frame_rows(lines, size, n).len() == 3 * n,
    decreases n,
{
    if n > 0 {
        lemma_frame_rows_len(lines, size, (n - 1) as nat);
    }
}

/// Rendering twice in succession writes once: in whatever state `render`
/// leaves a view, rendering it again queues nothing.
pub proof fn lemma_render_idempotent(before: View, after: View)
    requires
        View::render_step(before, after),
    ensures
        after.render_output() == Seq::<CommandView>::empty(),
{
}

/// A resize after a paint makes the next render repaint the whole viewport:
/// from a clean view, `resize` to a different size that has rows and columns
/// leaves a view whose render queues the full frame, three commands a row.
pub proof fn lemma_resize_repaints(before: View, new_size: Size, after: View)
    requires
        !before.dirty(),
        new_size != before.viewport(),
        new_size.width > 0,
        new_size.height > 0,
        View::resize_step(before, new_size, after),
    ensures
        after.render_output() == frame(before.lines(), new_size),
        after.render_output().len() == 3 * new_size.height,
{
    lemma_frame_rows_len(before.lines(), new_size, new_size.height as nat);
}

} // verus!
