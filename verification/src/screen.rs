//! What the drawing commands do to a screen, and the proof that the result
//! rows always show what the view holds.
//!
//! The screen here is a model: for each row, whether it is blank, holds one
//! text written from its first column on one background, or anything else.
//! A row is taken to be as wide as its text needs: a text never runs over
//! into the next row. That is enough to say that no row shows stale text or
//! a stale highlight.

use vstd::prelude::*;
use crate::app::{AppModel, EventView};
use crate::curses::{clear_row_commands, normal_commands, println_commands, CommandView};
use crate::input::Action;
use crate::view::{
    clear_commands,
    highlight_row_commands,
    prompt_commands,
    prompt_cursor_commands,
    render_commands,
    render_row_commands,
    stats_commands,
    visible_prefix,
    ViewModel,
};

verus! {

/// How one row of the screen looks.
pub ghost enum Line {
    /// Nothing is written in the row.
    Blank,
    /// The row holds `text` from its first column on, on the selected
    /// background or on the ordinary one.
    Text { text: Seq<char>, selected: bool },
    /// The row holds something else.
    Other,
}

/// The screen: the cursor, the background in force, and the rows.
pub ghost struct Screen {
    pub row: int,
    pub column: int,
    pub selected: bool,
    pub lines: spec_fn(int) -> Line,
}

impl Screen {
    /// The screen with `line` in the cursor's row.
    pub open spec fn with_line(self, line: Line) -> Screen {
        Screen {
            lines: |row: int|
                if row == self.row {
                    line
                } else {
                    (self.lines)(row)
                },
            ..self
        }
    }

    /// The screen after one command. Erasing from the first column blanks the
    /// row; writing at the first column of a blank row leaves the text there
    /// on the background in force. Erasing or writing elsewhere leaves a row
    /// of which no more is said.
    pub open spec fn apply(self, command: CommandView) -> Screen {
        match command {
            CommandView::MoveCursor { row, column } => Screen { row, column, ..self },
            CommandView::NormalBackground => Screen { selected: false, ..self },
            CommandView::SelectedBackground => Screen { selected: true, ..self },
            CommandView::ClearToEndOfLine => self.with_line(
                if self.column == 0 || (self.lines)(self.row) is Blank {
                    Line::Blank
                } else {
                    Line::Other
                },
            ),
            CommandView::Print(text) => Screen {
                column: self.column + text.len(),
                ..self.with_line(
                    if self.column == 0 && (self.lines)(self.row) is Blank {
                        Line::Text { text, selected: self.selected }
                    } else {
                        Line::Other
                    },
                )
            },
            CommandView::Bold | CommandView::Unbold | CommandView::EndWindow => self,
        }
    }

    /// The screen after the commands, taken in order.
    pub open spec fn run(self, commands: Seq<CommandView>) -> Screen
        decreases commands.len(),
    {
        if commands.len() == 0 {
            self
        } else {
            self.run(commands.drop_last()).apply(commands.last())
        }
    }

    /// Whether the two screens hold the same in every row but `row`.
    pub open spec fn same_but(self, other: Screen, row: int) -> bool {
        forall|r: int| r != row ==> #[trigger] (self.lines)(r) == (other.lines)(r)
    }

    /// Whether the result rows show the view: the drawn items from the row
    /// nearest the prompt upward, the selected one on the selected
    /// background and no other, and the rows above them blank.
    pub open spec fn shows(self, view: ViewModel) -> bool {
        forall|r: int| 0 <= r < view.rows() ==> #[trigger] (self.lines)(r) == expected_line(view, r)
    }
}

/// How the result row `row` looks when it shows the view.
pub open spec fn expected_line(view: ViewModel, row: int) -> Line {
    let offset = view.rows() - 1 - row;
    if 0 <= offset < view.displayed.len() {
        Line::Text { text: view.displayed[offset], selected: offset == view.selection }
    } else {
        Line::Blank
    }
}

/// Running one sequence after another is running both in a row.
pub proof fn lemma_run_concat(screen: Screen, first: Seq<CommandView>, second: Seq<CommandView>)
    ensures
        screen.run(first + second) == screen.run(first).run(second),
    decreases second.len(),
{
    if second.len() == 0 {
        assert(first + second =~= first);
    } else {
        lemma_run_concat(screen, first, second.drop_last());
        assert((first + second).drop_last() =~= first + second.drop_last());
        assert((first + second).last() == second.last());
    }
}

/// Running a single command is applying it.
pub proof fn lemma_run_one(screen: Screen, command: CommandView)
    ensures
        screen.run(seq![command]) == screen.apply(command),
{
    assert(seq![command].drop_last() =~= Seq::<CommandView>::empty());
    assert(screen.run(seq![command].drop_last()) == screen);
}

/// Running two commands is applying one after the other.
pub proof fn lemma_run_two(screen: Screen, a: CommandView, b: CommandView)
    ensures
        screen.run(seq![a, b]) == screen.apply(a).apply(b),
{
    assert(seq![a, b].drop_last() =~= seq![a]);
    lemma_run_one(screen, a);
}

/// Erasing a row blanks it, leaves the others, and leaves the cursor in it.
pub proof fn lemma_clear_row(screen: Screen, row: int)
    ensures
        (screen.run(clear_row_commands(row)).lines)(row) == Line::Blank,
        screen.run(clear_row_commands(row)).same_but(screen, row),
        screen.run(clear_row_commands(row)).row == row,
{
    lemma_run_two(
        screen,
        CommandView::MoveCursor { row, column: 0 },
        CommandView::ClearToEndOfLine,
    );
}

/// Writing a line at the start of a row leaves the text there, on the
/// background in force, and leaves the other rows.
pub proof fn lemma_println(screen: Screen, text: Seq<char>)
    requires
        screen.column == 0,
    ensures
        (screen.run(println_commands(text)).lines)(screen.row) == (Line::Text {
            text,
            selected: screen.selected,
        }),
        screen.run(println_commands(text)).same_but(screen, screen.row),
{
    lemma_run_two(screen, CommandView::ClearToEndOfLine, CommandView::Print(text));
}

/// Drawing a row as ordinary text leaves the text there on the ordinary
/// background, and leaves the other rows.
pub proof fn lemma_render_row(screen: Screen, row: int, text: Seq<char>)
    ensures
        (screen.run(render_row_commands(row, text)).lines)(row) == (Line::Text {
            text,
            selected: false,
        }),
        screen.run(render_row_commands(row, text)).same_but(screen, row),
{
    let moved = screen.apply(CommandView::MoveCursor { row, column: 0 });
    let plain = moved.apply(CommandView::Unbold).apply(CommandView::NormalBackground);
    lemma_run_one(screen, CommandView::MoveCursor { row, column: 0 });
    lemma_run_two(moved, CommandView::Unbold, CommandView::NormalBackground);
    lemma_run_concat(
        screen,
        seq![CommandView::MoveCursor { row, column: 0 }],
        normal_commands(),
    );
    lemma_run_concat(
        screen,
        seq![CommandView::MoveCursor { row, column: 0 }] + normal_commands(),
        println_commands(text),
    );
    lemma_println(plain, text);
}

/// Drawing a row on a background leaves the text there on that background,
/// and leaves the other rows.
pub proof fn lemma_highlight_row(screen: Screen, row: int, selected: bool, text: Seq<char>)
    ensures
        (screen.run(
            highlight_row_commands(
                row,
                if selected {
                    CommandView::SelectedBackground
                } else {
                    CommandView::NormalBackground
                },
                text,
            ),
        ).lines)(row) == (Line::Text { text, selected }),
        screen.run(
            highlight_row_commands(
                row,
                if selected {
                    CommandView::SelectedBackground
                } else {
                    CommandView::NormalBackground
                },
                text,
            ),
        ).same_but(screen, row),
{
    let background = if selected {
        CommandView::SelectedBackground
    } else {
        CommandView::NormalBackground
    };
    let moved = CommandView::MoveCursor { row, column: 0 };
    lemma_run_two(screen, moved, background);
    lemma_run_concat(screen, seq![moved, background], println_commands(text));
    lemma_println(screen.apply(moved).apply(background), text);
}

/// Erasing the rows `0 .. rows` blanks them and leaves the others.
pub proof fn lemma_clear(screen: Screen, rows: int)
    ensures
        forall|r: int| 0 <= r < rows ==> #[trigger] (screen.run(clear_commands(rows)).lines)(r)
            == Line::Blank,
        forall|r: int|
            !(0 <= r < rows) ==> #[trigger] (screen.run(clear_commands(rows)).lines)(r) == (
            screen.lines)(r),
    decreases rows,
{
    if rows > 0 {
        lemma_clear(screen, rows - 1);
        lemma_run_concat(screen, clear_commands(rows - 1), clear_row_commands(rows - 1));
        lemma_clear_row(screen.run(clear_commands(rows - 1)), rows - 1);
    }
}

/// Drawing the first `count` items leaves each in its row on the ordinary
/// background, and leaves the other rows.
pub proof fn lemma_render(screen: Screen, items: Seq<Seq<char>>, rows: int, count: int)
    requires
        0 <= count <= items.len(),
    ensures
        forall|r: int|
            rows - count <= r < rows ==> #[trigger] (screen.run(
                render_commands(items, rows, count),
            ).lines)(r) == (Line::Text { text: items[rows - 1 - r], selected: false }),
        forall|r: int|
            !(rows - count <= r < rows) ==> #[trigger] (screen.run(
                render_commands(items, rows, count),
            ).lines)(r) == (screen.lines)(r),
    decreases count,
{
    if count > 0 {
        lemma_render(screen, items, rows, count - 1);
        lemma_run_concat(
            screen,
            render_commands(items, rows, count - 1),
            render_row_commands(rows - count, items[count - 1]),
        );
        lemma_render_row(
            screen.run(render_commands(items, rows, count - 1)),
            rows - count,
            items[count - 1],
        );
    }
}

/// Redrawing the selected row on a background leaves every other row, and
/// leaves that row with its item on that background.
pub proof fn lemma_highlight(screen: Screen, view: ViewModel, selected: bool)
    requires
        view.wf(),
    ensures
        view.has_selected_item() ==> (screen.run(
            view.highlight_commands(
                if selected {
                    CommandView::SelectedBackground
                } else {
                    CommandView::NormalBackground
                },
            ),
        ).lines)(view.row_of(view.selection)) == (Line::Text {
            text: view.displayed[view.selection],
            selected,
        }),
        screen.run(
            view.highlight_commands(
                if selected {
                    CommandView::SelectedBackground
                } else {
                    CommandView::NormalBackground
                },
            ),
        ).same_but(screen, view.row_of(view.selection)),
{
    if view.has_selected_item() {
        lemma_highlight_row(
            screen,
            view.row_of(view.selection),
            selected,
            view.displayed[view.selection],
        );
    }
}

/// Moving the selection keeps the screen showing the view: the old row goes
/// back to the ordinary background and the new one takes the selected one.
pub proof fn lemma_reselect_shows(screen: Screen, view: ViewModel, selection: int)
    requires
        view.wf(),
        screen.shows(view),
        view.with_selection(selection).wf(),
    ensures
        screen.run(view.reselect_commands(selection)).shows(view.with_selection(selection)),
{
    let target = view.with_selection(selection);
    if selection != view.selection {
        let unselect = view.highlight_commands(CommandView::NormalBackground);
        let select = target.highlight_commands(CommandView::SelectedBackground);
        let between = screen.run(unselect);
        let after = between.run(select);
        lemma_run_concat(screen, unselect, select);
        lemma_highlight(screen, view, false);
        lemma_highlight(between, target, true);
        assert forall|r: int| 0 <= r < target.rows() implies #[trigger] (after.lines)(r)
            == expected_line(target, r) by {
            assert((screen.lines)(r) == expected_line(view, r));
            if r != target.row_of(selection) {
                assert((after.lines)(r) == (between.lines)(r));
                if r != view.row_of(view.selection) {
                    assert((between.lines)(r) == (screen.lines)(r));
                }
            }
        }
    }
}

/// The statistics line and the prompt cursor leave the result rows alone.
pub proof fn lemma_stats_and_cursor_keep_rows(
    screen: Screen,
    view: ViewModel,
    matching: nat,
    total: nat,
    len: nat,
)
    requires
        view.wf(),
        screen.shows(view),
    ensures
        screen.run(
            stats_commands(view.height, matching, total) + prompt_cursor_commands(view.height, len),
        ).shows(view),
{
    let row = view.height - 2;
    let cleared = screen.run(clear_row_commands(row));
    let plain = cleared.run(normal_commands());
    let text = CommandView::Print(crate::text::stats_text(matching, total));
    let written = plain.run(seq![text]);
    let cursor = prompt_cursor_commands(view.height, len);
    lemma_clear_row(screen, row);
    lemma_run_two(cleared, CommandView::Unbold, CommandView::NormalBackground);
    lemma_run_one(plain, text);
    lemma_run_one(written, cursor[0]);
    assert(cursor =~= seq![cursor[0]]);
    lemma_run_concat(screen, clear_row_commands(row), normal_commands());
    lemma_run_concat(screen, clear_row_commands(row) + normal_commands(), seq![text]);
    lemma_run_concat(screen, stats_commands(view.height, matching, total), cursor);
    let after = written.run(cursor);
    assert(cleared.row == row);
    assert(plain.row == row);
    assert forall|r: int| 0 <= r < view.rows() implies #[trigger] (after.lines)(r)
        == expected_line(view, r) by {
        assert((screen.lines)(r) == expected_line(view, r));
        assert(r != row);
        assert((cleared.lines)(r) == (screen.lines)(r));
    }
}

/// Writing the filter string into the prompt row leaves the result rows
/// alone.
pub proof fn lemma_prompt_keeps_rows(screen: Screen, view: ViewModel, filter: Seq<char>)
    requires
        view.wf(),
        screen.shows(view),
    ensures
        screen.run(prompt_commands(view.height, filter)).shows(view),
{
    let row = view.height - 1;
    let moved = CommandView::MoveCursor { row, column: 0 };
    lemma_run_two(screen, moved, CommandView::Bold);
    lemma_run_concat(screen, seq![moved, CommandView::Bold], println_commands(filter));
    let ready = screen.apply(moved).apply(CommandView::Bold);
    lemma_println(ready, filter);
    let after = ready.run(println_commands(filter));
    assert forall|r: int| 0 <= r < view.rows() implies #[trigger] (after.lines)(r)
        == expected_line(view, r) by {
        assert((screen.lines)(r) == expected_line(view, r));
        assert(r != row);
        assert((after.lines)(r) == (ready.lines)(r));
    }
}

/// After a snapshot the screen shows the view. Where the visible items
/// changed, that holds whatever the screen held before; where they did not,
/// the screen is left as it showed the view before.
pub proof fn lemma_snapshot_shows(
    screen: Screen,
    view: ViewModel,
    items: Seq<Seq<char>>,
    total: nat,
    filter: Seq<char>,
)
    requires
        view.wf(),
        visible_prefix(items, view.rows()) == view.displayed ==> screen.shows(view),
    ensures
        screen.run(view.snapshot_commands(items, total, filter)).shows(view.after_snapshot(items)),
{
    let after_view = view.after_snapshot(items);
    let visible = visible_prefix(items, view.rows());
    let rows = view.rows();
    let drawn = screen.run(view.result_row_commands(items));
    lemma_run_concat(
        screen,
        view.result_row_commands(items),
        stats_commands(view.height, items.len(), total),
    );
    lemma_run_concat(
        screen,
        view.result_row_commands(items) + stats_commands(view.height, items.len(), total),
        prompt_cursor_commands(view.height, filter.len()),
    );
    lemma_run_concat(
        drawn,
        stats_commands(view.height, items.len(), total),
        prompt_cursor_commands(view.height, filter.len()),
    );
    if visible == view.displayed {
        assert forall|r: int| 0 <= r < rows implies #[trigger] (drawn.lines)(r) == expected_line(
            after_view,
            r,
        ) by {
            assert((screen.lines)(r) == expected_line(view, r));
        }
    } else {
        let count = visible.len() as int;
        let cleared = screen.run(clear_commands(rows));
        let rendered = cleared.run(render_commands(visible, rows, count));
        let select = after_view.highlight_commands(CommandView::SelectedBackground);
        lemma_clear(screen, rows);
        lemma_render(cleared, visible, rows, count);
        lemma_highlight(rendered, after_view, true);
        lemma_run_concat(screen, clear_commands(rows), render_commands(visible, rows, count));
        lemma_run_concat(
            screen,
            clear_commands(rows) + render_commands(visible, rows, count),
            select,
        );
        assert forall|r: int| 0 <= r < rows implies #[trigger] (drawn.lines)(r) == expected_line(
            after_view,
            r,
        ) by {
            assert((cleared.lines)(r) == Line::Blank);
            if r != after_view.row_of(after_view.selection) {
                assert((drawn.lines)(r) == (rendered.lines)(r));
            }
        }
    }
    assert(drawn.shows(after_view));
    lemma_stats_and_cursor_keep_rows(drawn, after_view, items.len(), total, filter.len());
}

/// Whatever happens in a session, the result rows go on showing the view:
/// every drawn item in its row, the highlight on the selected row and on no
/// other, and no text left in a row that holds no item.
pub proof fn lemma_step_shows(screen: Screen, session: AppModel, event: EventView)
    requires
        session.wf(),
        screen.shows(session.view),
    ensures
        screen.run(session.step_commands(event)).shows(session.step(event).view),
{
    if session.accepts(event) {
        match event {
            EventView::Key { character, key } => {
                let action = crate::input::action_for(character, key);
                match action {
                    Action::InsertChar(_) | Action::RemoveLastChar => {
                        if crate::app::changes_filter(session.filter, action) {
                            lemma_prompt_keeps_rows(
                                screen,
                                session.view,
                                crate::app::filter_after(session.filter, action),
                            );
                        }
                    },
                    Action::SelectNext => {
                        lemma_reselect_shows(
                            screen,
                            session.view,
                            session.view.moved_down().selection,
                        );
                    },
                    Action::SelectPrevious => {
                        lemma_reselect_shows(
                            screen,
                            session.view,
                            session.view.moved_up().selection,
                        );
                    },
                    _ => {},
                }
            },
            EventView::Snapshot { items, total } => {
                lemma_snapshot_shows(screen, session.view, items, total, session.filter);
            },
            _ => {},
        }
    }
}

/// Starting and closing a session leave the result rows showing the view.
pub proof fn lemma_start_and_close_show(screen: Screen, session: AppModel)
    requires
        session.wf(),
        screen.shows(session.view),
    ensures
        screen.run(session.start_commands()).shows(session.started().view),
        screen.run(session.close_commands()).shows(session.closed().view),
{
    if session.state is Running {
        let moved = session.view.reselect_commands(0);
        let cursor = prompt_cursor_commands(session.view.height, session.filter.len());
        lemma_reselect_shows(screen, session.view, 0);
        lemma_run_concat(screen, moved, cursor);
        assert(cursor =~= seq![cursor[0]]);
        lemma_run_one(screen.run(moved), cursor[0]);
    }
    if session.state is Terminating {
        lemma_run_one(screen, CommandView::EndWindow);
    }
}

} // verus!
