use vstd::prelude::*;

verus! {

/// Absolute screen coordinates of a character cell, 0-based.
#[derive(Clone, Copy, Debug, Default, PartialEq, Eq, Structural)]
pub struct Position {
    pub col: usize,
    pub row: usize,
}

/// Viewport dimensions in character cells.
#[derive(Clone, Copy, Debug, Default, PartialEq, Eq, Structural)]
pub struct Size {
    pub height: usize,
    pub width: usize,
}

/// One primitive operation on the character-cell device.
///
/// Operations are queued on a `Terminal` and reach the device only when the
/// queue is flushed by `Terminal::execute`, as one batch, in order.
#[derive(Debug, PartialEq, Eq)]
pub enum Command {
    EnableRawMode,
    DisableRawMode,
    EnterAlternateScreen,
    LeaveAlternateScreen,
    ClearScreen,
    ClearLine,
    MoveCaret(Position),
    HideCaret,
    ShowCaret,
    Print(String),
}

/// The mathematical value of a `Command`: printed text becomes its characters.
pub enum CommandView {
    EnableRawMode,
    DisableRawMode,
    EnterAlternateScreen,
    LeaveAlternateScreen,
    ClearScreen,
    ClearLine,
    MoveCaret(Position),
    HideCaret,
    ShowCaret,
    Print(Seq<char>),
}

impl View for Command {
    type V = CommandView;

    open spec fn view(&self) -> CommandView {
        match self {
            Command::EnableRawMode => CommandView::EnableRawMode,
            Command::DisableRawMode => CommandView::DisableRawMode,
            Command::EnterAlternateScreen => CommandView::EnterAlternateScreen,
            Command::LeaveAlternateScreen => CommandView::LeaveAlternateScreen,
            Command::ClearScreen => CommandView::ClearScreen,
            Command::ClearLine => CommandView::ClearLine,
            Command::MoveCaret(p) => CommandView::MoveCaret(*p),
            Command::HideCaret => CommandView::HideCaret,
            Command::ShowCaret => CommandView::ShowCaret,
            Command::Print(s) => CommandView::Print(s@),
        }
    }
}

/// The commands that write `text` on screen row `row`: move the caret to the
/// start of the row, erase the row, print the text.
pub open spec fn line_commands(row: usize, text: Seq<char>) -> Seq<CommandView> {
    seq![
        CommandView::MoveCaret(Position { col: 0, row }),
        CommandView::ClearLine,
        CommandView::Print(text),
    ]
}

/// Single owner of the output side of the character-cell device.
///
/// Every operation but `execute` only queues a command; `execute` hands the
/// whole queue over, in order, to be written to the device in one batch, which
/// avoids visible tearing during multi-line redraws. Its view is the sequence
/// of commands queued since the last flush.
pub struct Terminal {
    queue: Vec<Command>,
}

impl View for Terminal {
    type V = Seq<CommandView>;

    closed spec fn view(&self) -> Seq<CommandView> {
        self.queue@.map_values(|c: Command| c@)
    }
}

impl Terminal {
    /// A handle with nothing queued.
    pub fn new() -> (t: Terminal)
        ensures
            t@ == Seq::<CommandView>::empty(),
    {
        let t = Terminal { queue: Vec::new() };
        assert(t@ =~= Seq::<CommandView>::empty());
        t
    }

    fn queue_command(&mut self, command: Command)
        ensures
            final(self)@ == old(self)@.push(command@),
    {
        self.queue.push(command);
        assert(final(self)@ =~= old(self)@.push(command@));
    }

    /// Hands over every queued command, in the order queued, and empties the queue.
    pub fn execute(&mut self) -> (batch: Vec<Command>)
        ensures
            batch@.map_values(|c: Command| c@) == old(self)@,
            final(self)@ == Seq::<CommandView>::empty(),
    {
        let mut batch: Vec<Command> = Vec::new();
        core::mem::swap(&mut batch, &mut self.queue);
        assert(final(self)@ =~= Seq::<CommandView>::empty());
        batch
    }

    /// Puts the device into raw mode on the alternate screen, clears it, and
    /// flushes: the batch is what was queued before, then those three commands.
    pub fn initialize(&mut self) -> (batch: Vec<Command>)
        ensures
            batch@.map_values(|c: Command| c@) == old(self)@ + seq![
                CommandView::EnableRawMode,
                CommandView::EnterAlternateScreen,
                CommandView::ClearScreen,
            ],
            final(self)@ == Seq::<CommandView>::empty(),
    {
        self.queue_command(Command::EnableRawMode);
        self.enter_alternate_screen();
        self.clear_screen();
        assert(self@ =~= old(self)@ + seq![
            CommandView::EnableRawMode,
            CommandView::EnterAlternateScreen,
            CommandView::ClearScreen,
        ]);
        self.execute()
    }

    /// Restores the device: leaves the alternate screen, shows the caret,
    /// flushes, and leaves raw mode.
    pub fn terminate(&mut self) -> (batch: Vec<Command>)
        ensures
            batch@.map_values(|c: Command| c@) == old(self)@ + seq![
                CommandView::LeaveAlternateScreen,
                CommandView::ShowCaret,
                CommandView::DisableRawMode,
            ],
            final(self)@ == Seq::<CommandView>::empty(),
    {
        self.leave_alternate_screen();
        self.show_caret();
        self.disable_raw_mode();
        assert(self@ =~= old(self)@ + seq![
            CommandView::LeaveAlternateScreen,
            CommandView::ShowCaret,
            CommandView::DisableRawMode,
        ]);
        self.execute()
    }

    /// Queues the return of the device to cooked mode.
    pub fn disable_raw_mode(&mut self)
        ensures
            final(self)@ == old(self)@.push(CommandView::DisableRawMode),
    {
        self.queue_command(Command::DisableRawMode);
    }

    /// Queues a full-screen erase.
    pub fn clear_screen(&mut self)
        ensures
            final(self)@ == old(self)@.push(CommandView::ClearScreen),
    {
        self.queue_command(Command::ClearScreen);
    }

    /// Queues an erase of the row the caret is on.
    pub fn clear_line(&mut self)
        ensures
            final(self)@ == old(self)@.push(CommandView::ClearLine),
    {
        self.queue_command(Command::ClearLine);
    }

    /// Queues a caret move to `position`; bounds are the caller's concern.
    pub fn move_caret(&mut self, position: Position)
        ensures
            final(self)@ == old(self)@.push(CommandView::MoveCaret(position)),
    {
        self.queue_command(Command::MoveCaret(position));
    }

    /// Queues a switch to the alternate screen.
    pub fn enter_alternate_screen(&mut self)
        ensures
            final(self)@ == old(self)@.push(CommandView::EnterAlternateScreen),
    {
        self.queue_command(Command::EnterAlternateScreen);
    }

    /// Queues a switch back from the alternate screen.
    pub fn leave_alternate_screen(&mut self)
        ensures
            final(self)@ == old(self)@.push(CommandView::LeaveAlternateScreen),
    {
        self.queue_command(Command::LeaveAlternateScreen);
    }

    /// Queues hiding the caret.
    pub fn hide_caret(&mut self)
        ensures
            final(self)@ == old(self)@.push(CommandView::HideCaret),
    {
        self.queue_command(Command::HideCaret);
    }

    /// Queues showing the caret.
    pub fn show_caret(&mut self)
        ensures
            final(self)@ == old(self)@.push(CommandView::ShowCaret),
    {
        self.queue_command(Command::ShowCaret);
    }

    /// Queues `message`, literally, at the caret.
    pub fn print(&mut self, message: &str)
        ensures
            final(self)@ == old(self)@.push(CommandView::Print(message@)),
    {
        self.queue_command(Command::Print(message.to_owned()));
    }

    /// Queues the writing of `message` over screen row `row`.
    pub fn print_line(&mut self, row: usize, message: &str)
        ensures
            final(self)@ == old(self)@ + line_commands(row, message@),
    {
        self.move_caret(Position { col: 0, row });
        self.clear_line();
        self.print(message);
        assert(self@ =~= old(self)@ + line_commands(row, message@));
    }
}

} // verus!
