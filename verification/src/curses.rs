//! The terminal surface, as a queue of drawing commands.
//!
//! Nothing here touches a terminal. Each method queues the primitive commands
//! that it stands for; the caller takes them out with [`Curses::drain`] and
//! carries them out in order.

use vstd::prelude::*;

verus! {

/// One primitive request to the terminal.
#[derive(Clone, Debug, PartialEq, Eq)]
pub enum Command {
    /// Put the cursor at `row`, `column`, both counted from zero at the top left.
    MoveCursor { row: i32, column: i32 },
    /// Switch bold text on.
    Bold,
    /// Switch bold text off.
    Unbold,
    /// Draw with the ordinary background from here on.
    NormalBackground,
    /// Draw with the background of the selected row from here on.
    SelectedBackground,
    /// Erase from the cursor to the end of its line.
    ClearToEndOfLine,
    /// Write the text at the cursor.
    Print(String),
    /// Give the terminal back in its normal mode.
    EndWindow,
}

/// What a [`Command`] says, with its text as a sequence of characters.
pub ghost enum CommandView {
    MoveCursor { row: int, column: int },
    Bold,
    Unbold,
    NormalBackground,
    SelectedBackground,
    ClearToEndOfLine,
    Print(Seq<char>),
    EndWindow,
}

impl View for Command {
    type V = CommandView;

    open spec fn view(&self) -> CommandView {
        match *self {
            Command::MoveCursor { row, column } => CommandView::MoveCursor {
                row: row as int,
                column: column as int,
            },
            Command::Bold => CommandView::Bold,
            Command::Unbold => CommandView::Unbold,
            Command::NormalBackground => CommandView::NormalBackground,
            Command::SelectedBackground => CommandView::SelectedBackground,
            Command::ClearToEndOfLine => CommandView::ClearToEndOfLine,
            Command::Print(text) => CommandView::Print(text@),
            Command::EndWindow => CommandView::EndWindow,
        }
    }
}

/// The commands of a sequence, each by its view.
pub open spec fn command_views(commands: Seq<Command>) -> Seq<CommandView> {
    Seq::new(commands.len(), |i: int| commands[i]@)
}

/// Appending a command appends its view.
pub proof fn lemma_command_views_push(commands: Seq<Command>, command: Command)
    ensures
        command_views(commands.push(command)) == command_views(commands).push(command@),
{
    assert(command_views(commands.push(command)) =~= command_views(commands).push(command@));
}

/// Erasing a row: the cursor goes to its start, then the line is cleared.
pub open spec fn clear_row_commands(row: int) -> Seq<CommandView> {
    seq![CommandView::MoveCursor { row, column: 0 }, CommandView::ClearToEndOfLine]
}

/// Writing a line: what is left of the line is cleared, then the text is written.
pub open spec fn println_commands(message: Seq<char>) -> Seq<CommandView> {
    seq![CommandView::ClearToEndOfLine, CommandView::Print(message)]
}

/// Ordinary text: bold off, ordinary background.
pub open spec fn normal_commands() -> Seq<CommandView> {
    seq![CommandView::Unbold, CommandView::NormalBackground]
}

/// A terminal of a fixed size, and the commands queued for it.
pub struct Curses {
    width: i32,
    height: i32,
    queue: Vec<Command>,
}

impl Curses {
    /// Neither dimension is negative.
    pub closed spec fn wf(&self) -> bool {
        0 <= self.width && 0 <= self.height
    }

    /// The number of columns.
    pub closed spec fn spec_width(&self) -> int {
        self.width as int
    }

    /// The number of rows.
    pub closed spec fn spec_height(&self) -> int {
        self.height as int
    }

    /// The commands queued and not yet taken out, oldest first.
    pub closed spec fn queued(&self) -> Seq<CommandView> {
        command_views(self.queue@)
    }

    /// The dimensions of a well-formed terminal are not negative.
    pub proof fn lemma_sized(&self)
        requires
            self.wf(),
        ensures
            0 <= self.spec_width() <= i32::MAX,
            0 <= self.spec_height() <= i32::MAX,
    {
    }

    /// A terminal of the given size with nothing queued. A negative size, which
    /// a terminal that could not tell its size reports, counts as zero.
    pub fn new(width: i32, height: i32) -> (curses: Self)
        ensures
            curses.wf(),
            curses.spec_width() == if width < 0 { 0 } else { width as int },
            curses.spec_height() == if height < 0 { 0 } else { height as int },
            curses.queued() == Seq::<CommandView>::empty(),
    {
        let curses = Curses {
            width: if width < 0 { 0 } else { width },
            height: if height < 0 { 0 } else { height },
            queue: Vec::new(),
        };
        assert(curses.queued() =~= Seq::<CommandView>::empty());
        curses
    }

    /// The number of columns.
    pub fn width(&self) -> (width: i32)
        ensures
            width == self.spec_width(),
    {
        self.width
    }

    /// The number of rows.
    pub fn height(&self) -> (height: i32)
        ensures
            height == self.spec_height(),
    {
        self.height
    }

    fn push(&mut self, command: Command)
        requires
            old(self).wf(),
        ensures
            final(self).wf(),
            final(self).queued() == old(self).queued().push(command@),
            final(self).spec_width() == old(self).spec_width(),
            final(self).spec_height() == old(self).spec_height(),
    {
        proof {
            lemma_command_views_push(self.queue@, command);
        }
        self.queue.push(command);
    }

    /// Queues a move of the cursor to `row`, `column`.
    pub fn move_cursor(&mut self, row: i32, column: i32)
        requires
            old(self).wf(),
        ensures
            final(self).wf(),
            final(self).queued() == old(self).queued().push(
                CommandView::MoveCursor { row: row as int, column: column as int },
            ),
            final(self).spec_width() == old(self).spec_width(),
            final(self).spec_height() == old(self).spec_height(),
    {
        self.push(Command::MoveCursor { row, column });
    }

    /// Queues the switch to bold text.
    pub fn bold(&mut self)
        requires
            old(self).wf(),
        ensures
            final(self).wf(),
            final(self).queued() == old(self).queued().push(CommandView::Bold),
            final(self).spec_width() == old(self).spec_width(),
            final(self).spec_height() == old(self).spec_height(),
    {
        self.push(Command::Bold);
    }

    /// Queues the switch back to ordinary text: bold off, ordinary background.
    pub fn normal(&mut self)
        requires
            old(self).wf(),
        ensures
            final(self).wf(),
            final(self).queued() == old(self).queued() + normal_commands(),
            final(self).spec_width() == old(self).spec_width(),
            final(self).spec_height() == old(self).spec_height(),
    {
        self.push(Command::Unbold);
        self.normal_background();
        assert(self.queued() =~= old(self).queued() + normal_commands());
    }

    /// Queues the switch to the ordinary background.
    pub fn normal_background(&mut self)
        requires
            old(self).wf(),
        ensures
            final(self).wf(),
            final(self).queued() == old(self).queued().push(CommandView::NormalBackground),
            final(self).spec_width() == old(self).spec_width(),
            final(self).spec_height() == old(self).spec_height(),
    {
        self.push(Command::NormalBackground);
    }

    /// Queues the switch to the background of the selected row.
    pub fn selected_background(&mut self)
        requires
            old(self).wf(),
        ensures
            final(self).wf(),
            final(self).queued() == old(self).queued().push(CommandView::SelectedBackground),
            final(self).spec_width() == old(self).spec_width(),
            final(self).spec_height() == old(self).spec_height(),
    {
        self.push(Command::SelectedBackground);
    }

    /// Queues the writing of `message` at the cursor.
    pub fn print(&mut self, message: &str)
        requires
            old(self).wf(),
        ensures
            final(self).wf(),
            final(self).queued() == old(self).queued().push(CommandView::Print(message@)),
            final(self).spec_width() == old(self).spec_width(),
            final(self).spec_height() == old(self).spec_height(),
    {
        self.push(Command::Print(message.to_owned()));
    }

    /// Queues the writing of `message` over what is left of the cursor's line.
    pub fn println(&mut self, message: &str)
        requires
            old(self).wf(),
        ensures
            final(self).wf(),
            final(self).queued() == old(self).queued() + println_commands(message@),
            final(self).spec_width() == old(self).spec_width(),
            final(self).spec_height() == old(self).spec_height(),
    {
        self.push(Command::ClearToEndOfLine);
        self.print(message);
        assert(self.queued() =~= old(self).queued() + println_commands(message@));
    }

    /// Queues the erasing of `row`.
    pub fn clear_row(&mut self, row: i32)
        requires
            old(self).wf(),
        ensures
            final(self).wf(),
            final(self).queued() == old(self).queued() + clear_row_commands(row as int),
            final(self).spec_width() == old(self).spec_width(),
            final(self).spec_height() == old(self).spec_height(),
    {
        self.move_cursor(row, 0);
        self.push(Command::ClearToEndOfLine);
        assert(self.queued() =~= old(self).queued() + clear_row_commands(row as int));
    }

    /// Queues the return of the terminal to its normal mode.
    pub fn close(&mut self)
        requires
            old(self).wf(),
        ensures
            final(self).wf(),
            final(self).queued() == old(self).queued().push(CommandView::EndWindow),
            final(self).spec_width() == old(self).spec_width(),
            final(self).spec_height() == old(self).spec_height(),
    {
        self.push(Command::EndWindow);
    }

    /// Takes out the queued commands, oldest first, and leaves the queue empty.
    pub fn drain(&mut self) -> (commands: Vec<Command>)
        requires
            old(self).wf(),
        ensures
            final(self).wf(),
            command_views(commands@) == old(self).queued(),
            final(self).queued() == Seq::<CommandView>::empty(),
            final(self).spec_width() == old(self).spec_width(),
            final(self).spec_height() == old(self).spec_height(),
    {
        let mut commands: Vec<Command> = Vec::new();
        std::mem::swap(&mut self.queue, &mut commands);
        assert(self.queued() =~= Seq::<CommandView>::empty());
        commands
    }
}

} // verus!
