use vstd::prelude::*;

verus! {

/// `a` or `b`, whichever is smaller.
pub open spec fn min_int(a: int, b: int) -> int {
    if a <= b {
        a
    } else {
        b
    }
}

/// The part of `line` that lies between character offsets `start` and `end`,
/// each clamped to the line: `end` to the line's length, `start` to `end`.
pub open spec fn clamped_slice(line: Seq<char>, start: int, end: int) -> Seq<char> {
    let e = min_int(end, line.len() as int);
    let s = min_int(start, e);
    line.subrange(s, e)
}

/// The pieces of `s` between its newline characters, in order: one more piece
/// than `s` has newlines, possibly empty ones.
pub open spec fn newline_pieces(s: Seq<char>) -> Seq<Seq<char>>
    decreases s.len(),
{
    if s.len() == 0 {
        seq![Seq::<char>::empty()]
    } else {
        let rest = newline_pieces(s.drop_first());
        if s[0] == '\n' {
            seq![Seq::<char>::empty()] + rest
        } else {
            rest.update(0, seq![s[0]] + rest[0])
        }
    }
}

/// A piece that ended at a newline, without the carriage return that made the
/// ending a `\r\n`.
pub open spec fn strip_cr(piece: Seq<char>) -> Seq<char> {
    if piece.len() > 0 && piece.last() == '\r' {
        piece.drop_last()
    } else {
        piece
    }
}

/// The lines of a text: split at `\n` or `\r\n`, without the line endings,
/// with no line after a final line ending, and none at all for an empty text.
pub open spec fn lines_of(s: Seq<char>) -> Seq<Seq<char>> {
    let pieces = newline_pieces(s);
    let n = pieces.len() - 1;
    Seq::new(
        if pieces.last().len() == 0 {
            n as nat
        } else {
            pieces.len()
        },
        |i: int|
            if i < n {
                strip_cr(pieces[i])
            } else {
                pieces[i]
            },
    )
}

/// Relies on `str::lines`: the lines of `text`, split at `\n` or `\r\n`, line
/// endings dropped, a final line ending optional.
#[verifier::external_body]
fn split_lines(text: &str) -> (lines: Vec<String>)
    ensures
        lines@.map_values(|l: String| l@) == lines_of(text@),
{
    text.lines().map(String::from).collect()
}

/// One line of text. It never spans several screen rows.
///
/// Offsets into a row count characters, so that slicing a row never splits
/// a character.
pub struct Row {
    string: String,
}

impl View for Row {
    type V = Seq<char>;

    closed spec fn view(&self) -> Seq<char> {
        self.string@
    }
}

impl Row {
    /// The row holding the characters of `s`.
    pub fn new(s: &str) -> (r: Row)
        ensures
            r@ == s@,
    {
        Row { string: s.to_owned() }
    }

    /// The number of characters in the row.
    pub fn len(&self) -> (n: usize)
        ensures
            n == self@.len(),
    {
        self.string.as_str().unicode_len()
    }

    /// The text visible between character offsets `start` and `end`. Offsets
    /// out of range are clamped to the row, and `start` past `end` gives the
    /// empty string.
    pub fn render(&self, start: usize, end: usize) -> (text: String)
        ensures
            text@ == clamped_slice(self@, start as int, end as int),
            text@.len() == min_int(end as int, self@.len() as int) - min_int(
                start as int,
                min_int(end as int, self@.len() as int),
            ),
    {
        let len = self.len();
        let end = if end < len {
            end
        } else {
            len
        };
        let start = if start < end {
            start
        } else {
            end
        };
        self.string.as_str().substring_char(start, end).to_owned()
    }
}

/// Why a text could not be read into a `Buffer`.
#[derive(Clone, Copy, Debug, PartialEq, Eq, Structural)]
pub enum LoadError {
    /// Nothing exists under the given name.
    NotFound,
    /// The text exists but could not be read.
    Io,
}

/// The lines of a loaded text, in order. Its view is the sequence of the
/// rows' characters.
pub struct Buffer {
    rows: Vec<Row>,
}

impl View for Buffer {
    type V = Seq<Seq<char>>;

    closed spec fn view(&self) -> Seq<Seq<char>> {
        self.rows@.map_values(|r: Row| r@)
    }
}

impl Buffer {
    /// A buffer with no rows.
    pub fn new() -> (b: Buffer)
        ensures
            b@ == Seq::<Seq<char>>::empty(),
    {
        let b = Buffer { rows: Vec::new() };
        assert(b@ =~= Seq::<Seq<char>>::empty());
        b
    }

    /// The buffer holding the lines of `text`.
    pub fn from_text(text: &str) -> (b: Buffer)
        ensures
            b@ == lines_of(text@),
    {
        let lines = split_lines(text);
        let mut rows: Vec<Row> = Vec::new();
        let mut i: usize = 0;
        while i < lines.len()
            invariant
                i <= lines@.len(),
                rows@.len() == i,
                forall|j: int| 0 <= j < i ==> #[trigger] rows@[j]@ == lines@[j]@,
            decreases lines@.len() - i,
        {
            rows.push(Row::new(lines[i].as_str()));
            i = i + 1;
        }
        let b = Buffer { rows };
        assert(b@ =~= lines@.map_values(|l: String| l@));
        b
    }

    /// The buffer for a text that was read, or the reason it could not be.
    pub fn load(read: Result<String, LoadError>) -> (r: Result<Buffer, LoadError>)
        ensures
            match read {
                Ok(text) => r is Ok && r->Ok_0@ == lines_of(text@),
                Err(e) => r == Err::<Buffer, LoadError>(e),
            },
    {
        match read {
            Ok(text) => Ok(Buffer::from_text(text.as_str())),
            Err(e) => Err(e),
        }
    }

    /// The row at `index`, or `None` past the last row.
    pub fn row(&self, index: usize) -> (r: Option<&Row>)
        ensures
            index < self@.len() ==> r is Some && r->Some_0@ == self@[index as int],
            index >= self@.len() ==> r is None,
    {
        self.rows.get(index)
    }

    /// The number of rows.
    pub fn len(&self) -> (n: usize)
        ensures
            n == self@.len(),
    {
        self.rows.len()
    }

    /// Whether the buffer has no rows.
    pub fn is_empty(&self) -> (b: bool)
        ensures
            b == (self@.len() == 0),
    {
        self.rows.len() == 0
    }
}

} // verus!
