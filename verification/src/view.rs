//! The result view: the visible window of matches, the selection, and the
//! rows last drawn.
//!
//! The bottom row of the terminal holds the filter prompt and the row above it
//! the statistics line. The rows above those show the matches, the best match
//! in the row nearest the prompt. The selection is an offset from that row.

use vstd::prelude::*;
use vstd::view::View as _;
use crate::curses::{
    clear_row_commands,
    normal_commands,
    println_commands,
    CommandView,
    Curses,
};
use crate::text::{lemma_texts_push, stats_string, stats_text, texts};

verus! {

/// One complete result from the filtering engine: the matches, best first, and
/// the number of candidates they were found among.
#[derive(Clone, Debug)]
pub struct MatchSnapshot {
    pub ordered_items: Vec<String>,
    pub total_candidates: usize,
}

/// The rows left for results on a terminal of `height` rows.
pub open spec fn viewport_rows(height: int) -> int {
    if height >= 2 {
        height - 2
    } else {
        0
    }
}

/// The items that fit into `rows` rows: the first `rows` of them, or all.
pub open spec fn visible_prefix(items: Seq<Seq<char>>, rows: int) -> Seq<Seq<char>>
    recommends
        0 <= rows,
{
    if items.len() <= rows {
        items
    } else {
        items.subrange(0, rows)
    }
}

/// The column behind a filter string of `len` characters, as far as a column
/// number can count.
pub open spec fn cursor_column(len: nat) -> int {
    if len <= i32::MAX {
        len as int
    } else {
        i32::MAX as int
    }
}

/// Drawing `text` into `row` on the given background.
pub open spec fn highlight_row_commands(row: int, background: CommandView, text: Seq<char>) -> Seq<
    CommandView,
> {
    seq![CommandView::MoveCursor { row, column: 0 }, background] + println_commands(text)
}

/// Drawing `text` into `row` as ordinary text.
pub open spec fn render_row_commands(row: int, text: Seq<char>) -> Seq<CommandView> {
    seq![CommandView::MoveCursor { row, column: 0 }] + normal_commands() + println_commands(text)
}

/// Erasing the rows `0 .. rows`, from the top down.
pub open spec fn clear_commands(rows: int) -> Seq<CommandView>
    decreases rows,
{
    if rows <= 0 {
        Seq::empty()
    } else {
        clear_commands(rows - 1) + clear_row_commands(rows - 1)
    }
}

/// Drawing the first `count` of `items`, the first into the last of `rows` rows
/// and each next one into the row above.
pub open spec fn render_commands(items: Seq<Seq<char>>, rows: int, count: int) -> Seq<CommandView>
    recommends
        count <= items.len(),
    decreases count,
{
    if count <= 0 {
        Seq::empty()
    } else {
        render_commands(items, rows, count - 1) + render_row_commands(
            rows - count,
            items[count - 1],
        )
    }
}

/// Redrawing the statistics line of a terminal of `height` rows.
pub open spec fn stats_commands(height: int, matching: nat, total: nat) -> Seq<CommandView> {
    clear_row_commands(height - 2) + normal_commands() + seq![
        CommandView::Print(stats_text(matching, total)),
    ]
}

/// Putting the cursor behind a filter string of `len` characters.
pub open spec fn prompt_cursor_commands(height: int, len: nat) -> Seq<CommandView> {
    seq![CommandView::MoveCursor { row: height - 1, column: cursor_column(len) }]
}

/// Writing the filter string into the prompt row, in bold.
pub open spec fn prompt_commands(height: int, filter: Seq<char>) -> Seq<CommandView> {
    seq![CommandView::MoveCursor { row: height - 1, column: 0 }, CommandView::Bold]
        + println_commands(filter)
}

/// The selection that a snapshot of `count` visible items leaves: the old
/// offset where an item still stands there, else the row nearest the prompt.
pub open spec fn selection_after_snapshot(selection: int, count: int) -> int {
    if 0 <= selection < count {
        selection
    } else {
        0
    }
}

/// The state of a result view.
pub ghost struct ViewModel {
    /// The rows of the terminal.
    pub height: int,
    /// The offset of the selected row from the row nearest the prompt; `-1`
    /// while nothing has been selected.
    pub selection: int,
    /// The texts last drawn into the result rows, best match first.
    pub displayed: Seq<Seq<char>>,
}

impl ViewModel {
    /// The rows left for results.
    pub open spec fn rows(self) -> int {
        viewport_rows(self.height)
    }

    /// The drawn rows fit the viewport; the selection is unset only while
    /// nothing is drawn, and otherwise it is the row nearest the prompt or a
    /// row that holds an item.
    pub open spec fn wf(self) -> bool {
        &&& 0 <= self.height <= i32::MAX
        &&& self.displayed.len() <= self.rows()
        &&& -1 <= self.selection
        &&& self.selection == -1 ==> self.displayed.len() == 0
        &&& self.selection > 0 ==> self.selection < self.displayed.len()
    }

    /// Whether the selected offset holds an item.
    pub open spec fn has_selected_item(self) -> bool {
        0 <= self.selection < self.displayed.len()
    }

    /// The item at the selected offset.
    pub open spec fn selected_item(self) -> Option<Seq<char>> {
        if self.has_selected_item() {
            Some(self.displayed[self.selection])
        } else {
            None
        }
    }

    /// The terminal row of the item at `offset`.
    pub open spec fn row_of(self, offset: int) -> int {
        self.rows() - 1 - offset
    }

    /// Redrawing the selected row on `background`; nothing where the selected
    /// offset holds no item.
    pub open spec fn highlight_commands(self, background: CommandView) -> Seq<CommandView> {
        if self.has_selected_item() {
            highlight_row_commands(
                self.row_of(self.selection),
                background,
                self.displayed[self.selection],
            )
        } else {
            Seq::empty()
        }
    }

    /// The same view with the selection at `selection`.
    pub open spec fn with_selection(self, selection: int) -> ViewModel {
        ViewModel { selection, ..self }
    }

    /// The view after a step away from the prompt: one offset further where
    /// that stays within the viewport and on an item, else unchanged.
    pub open spec fn moved_down(self) -> ViewModel {
        if self.selection + 1 <= self.rows() && self.selection + 1 <= self.displayed.len() - 1 {
            self.with_selection(self.selection + 1)
        } else {
            self
        }
    }

    /// The view after a step towards the prompt: one offset nearer where that
    /// stays at or above zero, else unchanged.
    pub open spec fn moved_up(self) -> ViewModel {
        if self.selection - 1 >= 0 {
            self.with_selection(self.selection - 1)
        } else {
            self
        }
    }

    /// What moving the selection to `selection` draws: nothing where it stays,
    /// else the old row on the ordinary background and the new row on the
    /// selected one.
    pub open spec fn reselect_commands(self, selection: int) -> Seq<CommandView> {
        if selection == self.selection {
            Seq::empty()
        } else {
            self.highlight_commands(CommandView::NormalBackground) + self.with_selection(
                selection,
            ).highlight_commands(CommandView::SelectedBackground)
        }
    }

    /// The view after a snapshot with the given items.
    pub open spec fn after_snapshot(self, items: Seq<Seq<char>>) -> ViewModel {
        let visible = visible_prefix(items, self.rows());
        ViewModel {
            height: self.height,
            selection: selection_after_snapshot(self.selection, visible.len() as int),
            displayed: visible,
        }
    }

    /// What a snapshot draws into the result rows: nothing where its visible
    /// items are the ones already drawn, else every result row erased, the
    /// visible items drawn, and the selected row highlighted.
    pub open spec fn result_row_commands(self, items: Seq<Seq<char>>) -> Seq<CommandView> {
        let visible = visible_prefix(items, self.rows());
        if visible == self.displayed {
            Seq::empty()
        } else {
            clear_commands(self.rows()) + render_commands(
                visible,
                self.rows(),
                visible.len() as int,
            ) + self.after_snapshot(items).highlight_commands(CommandView::SelectedBackground)
        }
    }

    /// Everything that a snapshot draws: the result rows where they changed,
    /// the statistics line, and the cursor back behind the filter string.
    pub open spec fn snapshot_commands(
        self,
        items: Seq<Seq<char>>,
        total: nat,
        filter: Seq<char>,
    ) -> Seq<CommandView> {
        self.result_row_commands(items) + stats_commands(self.height, items.len(), total)
            + prompt_cursor_commands(self.height, filter.len())
    }
}

/// The visible window of matches, the selection, and the rows last drawn.
pub struct View {
    selected_result: Option<usize>,
    displayed_results: Vec<String>,
    curses: Curses,
}

impl View {
    /// The state of the view.
    pub closed spec fn model(&self) -> ViewModel {
        ViewModel {
            height: self.curses.spec_height(),
            selection: match self.selected_result {
                Some(offset) => offset as int,
                None => -1,
            },
            displayed: texts(self.displayed_results@),
        }
    }

    /// The drawing commands queued and not yet taken out, oldest first.
    pub closed spec fn queued(&self) -> Seq<CommandView> {
        self.curses.queued()
    }

    /// The view's state is well formed, and so is its terminal.
    pub closed spec fn wf(&self) -> bool {
        self.model().wf() && self.curses.wf()
    }

    /// A well-formed view has a well-formed state.
    pub proof fn lemma_wf_model(&self)
        requires
            self.wf(),
        ensures
            self.model().wf(),
    {
    }

    /// An empty view on the given terminal, with nothing selected. What the
    /// terminal has queued stays queued.
    pub fn new(curses: Curses) -> (view: Self)
        requires
            curses.wf(),
        ensures
            view.wf(),
            view.model() == (ViewModel {
                height: curses.spec_height(),
                selection: -1,
                displayed: Seq::empty(),
            }),
            view.queued() == curses.queued(),
    {
        proof {
            curses.lemma_sized();
        }
        let view = View { selected_result: None, displayed_results: Vec::new(), curses };
        assert(view.model().displayed =~= Seq::<Seq<char>>::empty());
        view
    }

    /// Takes a snapshot in. Its visible items replace the drawn rows, and the
    /// selection stays where an item still stands at its offset and goes back
    /// to the row nearest the prompt where none does. The result rows are
    /// redrawn only where the visible items differ from the drawn ones; the
    /// statistics line is redrawn and the cursor put behind `filter_string`
    /// in either case.
    pub fn update_results(&mut self, results: MatchSnapshot, filter_string: &String)
        requires
            old(self).wf(),
        ensures
            final(self).wf(),
            final(self).model() == old(self).model().after_snapshot(texts(results.ordered_items@)),
            final(self).queued() == old(self).queued() + old(self).model().snapshot_commands(
                texts(results.ordered_items@),
                results.total_candidates as nat,
                filter_string@,
            ),
    {
        let ghost before = self.model();
        let ghost items = texts(results.ordered_items@);
        let ghost visible = visible_prefix(items, before.rows());
        let rows = self.max_result_rows();
        let count = if results.ordered_items.len() <= rows {
            results.ordered_items.len()
        } else {
            rows
        };
        if self.visible_results_need_updating(&results) {
            self.clear_results();
            let mut index: usize = 0;
            while index < count
                invariant
                    index <= count <= rows <= i32::MAX,
                    count <= results.ordered_items.len(),
                    count == visible.len(),
                    items == texts(results.ordered_items@),
                    visible == visible_prefix(items, rows as int),
                    rows == viewport_rows(self.curses.spec_height()),
                    self.curses.wf(),
                    self.curses.spec_height() == before.height,
                    self.selected_result == old(self).selected_result,
                    texts(self.displayed_results@) == visible.subrange(0, index as int),
                    self.curses.queued() == old(self).queued() + clear_commands(rows as int)
                        + render_commands(visible, rows as int, index as int),
                decreases count - index,
            {
                let row_to_update = rows - index - 1;
                self.update_result(&results.ordered_items[index], row_to_update);
                proof {
                    assert(visible[index as int] == results.ordered_items@[index as int]@);
                    assert(texts(self.displayed_results@) =~= visible.subrange(
                        0,
                        index as int + 1,
                    ));
                    assert(self.curses.queued() =~= old(self).queued() + clear_commands(rows as int)
                        + render_commands(visible, rows as int, index as int + 1));
                }
                index += 1;
            }
            assert(texts(self.displayed_results@) =~= visible);
            self.select_row();
            assert(self.curses.queued() =~= old(self).queued() + before.result_row_commands(items));
        } else {
            self.selected_result =
            match self.selected_result {
                Some(offset) if offset < count => Some(offset),
                _ => Some(0),
            };
            assert(self.curses.queued() =~= old(self).queued() + before.result_row_commands(items));
        }
        self.update_stats(results.total_candidates, results.ordered_items.len());
        self.set_cursor_to_filter_input(filter_string);
        assert(self.curses.queued() =~= old(self).queued() + before.snapshot_commands(
            items,
            results.total_candidates as nat,
            filter_string@,
        ));
    }

    /// Selects the row nearest the prompt, and moves the highlight there where
    /// it stood elsewhere.
    pub fn select_first_result(&mut self)
        requires
            old(self).wf(),
        ensures
            final(self).wf(),
            final(self).model() == old(self).model().with_selection(0),
            final(self).queued() == old(self).queued() + old(self).model().reselect_commands(0),
    {
        self.move_selection_to(0);
    }

    /// Moves the selection one row away from the prompt, where an item stands
    /// there; draws nothing where the selection stays.
    pub fn move_selected_down(&mut self)
        requires
            old(self).wf(),
        ensures
            final(self).wf(),
            final(self).model() == old(self).model().moved_down(),
            final(self).queued() == old(self).queued() + old(self).model().reselect_commands(
                old(self).model().moved_down().selection,
            ),
    {
        let rows = self.max_result_rows();
        let shown = self.displayed_results.len();
        match self.selected_result {
            Some(offset) => {
                if offset < rows && offset + 1 < shown {
                    self.move_selection_to(offset + 1);
                }
            },
            None => {
                if 0 < shown {
                    self.move_selection_to(0);
                }
            },
        }
        assert(self.curses.queued() =~= old(self).queued() + old(self).model().reselect_commands(
            old(self).model().moved_down().selection,
        ));
    }

    /// Moves the selection one row towards the prompt, where it is not there
    /// yet; draws nothing where the selection stays.
    pub fn move_selected_up(&mut self)
        requires
            old(self).wf(),
        ensures
            final(self).wf(),
            final(self).model() == old(self).model().moved_up(),
            final(self).queued() == old(self).queued() + old(self).model().reselect_commands(
                old(self).model().moved_up().selection,
            ),
    {
        match self.selected_result {
            Some(offset) => {
                if offset > 0 {
                    self.move_selection_to(offset - 1);
                }
            },
            None => {},
        }
        assert(self.curses.queued() =~= old(self).queued() + old(self).model().reselect_commands(
            old(self).model().moved_up().selection,
        ));
    }

    /// The item at the selected offset; `None` where nothing is selected or
    /// the offset holds no item.
    pub fn get_selected_result(&self) -> (selected: Option<String>)
        ensures
            match selected {
                Some(text) => self.model().selected_item() == Some(text@),
                None => self.model().selected_item().is_none(),
            },
    {
        match self.selected_result {
            Some(offset) => {
                if offset < self.displayed_results.len() {
                    Some(self.displayed_results[offset].clone())
                } else {
                    None
                }
            },
            None => None,
        }
    }

    /// Queues the writing of `filter_string` into the prompt row, in bold.
    pub fn update_filter_string(&mut self, filter_string: &String)
        requires
            old(self).wf(),
        ensures
            final(self).wf(),
            final(self).model() == old(self).model(),
            final(self).queued() == old(self).queued() + prompt_commands(
                old(self).model().height,
                filter_string@,
            ),
    {
        self.set_cursor_to_filter_input_beginning();
        self.curses.bold();
        self.curses.println(filter_string.as_str());
        assert(self.curses.queued() =~= old(self).queued() + prompt_commands(
            old(self).model().height,
            filter_string@,
        ));
    }

    /// Queues the move of the cursor behind `filter_string` in the prompt row.
    pub fn set_cursor_to_filter_input(&mut self, filter_string: &String)
        requires
            old(self).wf(),
        ensures
            final(self).wf(),
            final(self).model() == old(self).model(),
            final(self).queued() == old(self).queued() + prompt_cursor_commands(
                old(self).model().height,
                filter_string@.len(),
            ),
    {
        let len = filter_string.as_str().unicode_len();
        let column: i32 = if len <= 0x7fff_ffff {
            len as i32
        } else {
            i32::MAX
        };
        proof {
            self.curses.lemma_sized();
        }
        let row = self.curses.height() - 1;
        self.curses.move_cursor(row, column);
        assert(self.curses.queued() =~= old(self).queued() + prompt_cursor_commands(
            old(self).model().height,
            filter_string@.len(),
        ));
    }

    /// Takes out the queued drawing commands, oldest first.
    pub fn drain(&mut self) -> (commands: Vec<crate::curses::Command>)
        requires
            old(self).wf(),
        ensures
            final(self).wf(),
            final(self).model() == old(self).model(),
            crate::curses::command_views(commands@) == old(self).queued(),
            final(self).queued() == Seq::<CommandView>::empty(),
    {
        self.curses.drain()
    }

    /// Queues the return of the terminal to its normal mode.
    pub fn close(&mut self)
        requires
            old(self).wf(),
        ensures
            final(self).wf(),
            final(self).model() == old(self).model(),
            final(self).queued() == old(self).queued().push(CommandView::EndWindow),
    {
        self.curses.close();
    }

    fn visible_results_need_updating(&self, results: &MatchSnapshot) -> (changed: bool)
        requires
            self.wf(),
        ensures
            changed == (visible_prefix(texts(results.ordered_items@), self.model().rows())
                != self.model().displayed),
    {
        let ghost items = texts(results.ordered_items@);
        let ghost visible = visible_prefix(items, self.model().rows());
        let rows = self.max_result_rows();
        let count = if results.ordered_items.len() <= rows {
            results.ordered_items.len()
        } else {
            rows
        };
        if count != self.displayed_results.len() {
            assert(visible.len() != self.model().displayed.len());
            return true;
        }
        let mut index: usize = 0;
        while index < count
            invariant
                index <= count,
                count == visible.len(),
                count == self.displayed_results.len(),
                count <= results.ordered_items.len(),
                visible == visible_prefix(texts(results.ordered_items@), self.model().rows()),
                forall|i: int| 0 <= i < count ==> visible[i] == #[trigger] results.ordered_items@[i]@,
                forall|i: int|
                    0 <= i < index ==> visible[i] == #[trigger] texts(self.displayed_results@)[i],
            decreases count - index,
        {
            if results.ordered_items[index] != self.displayed_results[index] {
                assert(visible[index as int] != self.model().displayed[index as int]);
                return true;
            }
            index += 1;
        }
        assert(visible =~= texts(self.displayed_results@));
        false
    }

    fn set_cursor_to_filter_input_beginning(&mut self)
        requires
            old(self).curses.wf(),
        ensures
            final(self).curses.wf(),
            final(self).selected_result == old(self).selected_result,
            final(self).displayed_results == old(self).displayed_results,
            final(self).curses.spec_height() == old(self).curses.spec_height(),
            final(self).curses.queued() == old(self).curses.queued().push(
                CommandView::MoveCursor { row: old(self).curses.spec_height() - 1, column: 0 },
            ),
    {
        proof {
            self.curses.lemma_sized();
        }
        let row = self.curses.height() - 1;
        self.curses.move_cursor(row, 0);
    }

    /// Moves the highlight from the selected row to the row at `offset`, which
    /// becomes the selection.
    fn move_selection_to(&mut self, offset: usize)
        requires
            old(self).wf(),
            offset == 0 || offset < old(self).displayed_results.len(),
        ensures
            final(self).wf(),
            final(self).model() == old(self).model().with_selection(offset as int),
            final(self).queued() == old(self).queued() + old(self).model().reselect_commands(
                offset as int,
            ),
    {
        if self.selected_result != Some(offset) {
            self.unselect_current();
            self.selected_result = Some(offset);
            self.select_row();
        }
        assert(self.curses.queued() =~= old(self).queued() + old(self).model().reselect_commands(
            offset as int,
        ));
    }

    /// Redraws the selected row on the ordinary background.
    fn unselect_current(&mut self)
        requires
            old(self).wf(),
        ensures
            final(self).wf(),
            final(self).model() == old(self).model(),
            final(self).selected_result == old(self).selected_result,
            final(self).displayed_results == old(self).displayed_results,
            final(self).queued() == old(self).queued() + old(self).model().highlight_commands(
                CommandView::NormalBackground,
            ),
    {
        let rows = self.max_result_rows();
        match self.selected_result {
            Some(offset) => {
                if offset < self.displayed_results.len() {
                    let row = (rows - offset - 1) as i32;
                    self.curses.move_cursor(row, 0);
                    self.curses.normal_background();
                    self.curses.println(self.displayed_results[offset].as_str());
                }
            },
            None => {},
        }
        assert(self.curses.queued() =~= old(self).queued() + old(self).model().highlight_commands(
            CommandView::NormalBackground,
        ));
    }

    /// Forgets the drawn rows and erases every result row.
    fn clear_results(&mut self)
        requires
            old(self).curses.wf(),
        ensures
            final(self).curses.wf(),
            final(self).selected_result == old(self).selected_result,
            final(self).displayed_results@ == Seq::<String>::empty(),
            final(self).curses.spec_height() == old(self).curses.spec_height(),
            final(self).curses.queued() == old(self).curses.queued() + clear_commands(
                viewport_rows(old(self).curses.spec_height()),
            ),
    {
        self.displayed_results.clear();
        let rows = self.max_result_rows();
        let mut row: usize = 0;
        while row < rows
            invariant
                row <= rows <= i32::MAX,
                rows == viewport_rows(self.curses.spec_height()),
                self.curses.wf(),
                self.selected_result == old(self).selected_result,
                self.displayed_results@ == Seq::<String>::empty(),
                self.curses.spec_height() == old(self).curses.spec_height(),
                self.curses.queued() == old(self).curses.queued() + clear_commands(row as int),
            decreases rows - row,
        {
            self.curses.clear_row(row as i32);
            assert(self.curses.queued() =~= old(self).curses.queued() + clear_commands(
                row as int + 1,
            ));
            row += 1;
        }
    }

    /// Takes `result` in as the next drawn row and draws it into `row_number`.
    fn update_result(&mut self, result: &String, row_number: usize)
        requires
            old(self).curses.wf(),
            row_number <= i32::MAX,
        ensures
            final(self).curses.wf(),
            final(self).selected_result == old(self).selected_result,
            texts(final(self).displayed_results@) == texts(old(self).displayed_results@).push(
                result@,
            ),
            final(self).curses.spec_height() == old(self).curses.spec_height(),
            final(self).curses.queued() == old(self).curses.queued() + render_row_commands(
                row_number as int,
                result@,
            ),
    {
        proof {
            lemma_texts_push(self.displayed_results@, *result);
        }
        self.displayed_results.push(result.clone());
        self.curses.move_cursor(row_number as i32, 0);
        self.curses.normal();
        self.curses.println(result.as_str());
        assert(self.curses.queued() =~= old(self).curses.queued() + render_row_commands(
            row_number as int,
            result@,
        ));
    }

    /// The rows left for results.
    fn max_result_rows(&self) -> (rows: usize)
        requires
            self.curses.wf(),
        ensures
            rows == viewport_rows(self.curses.spec_height()),
            rows <= i32::MAX,
    {
        proof {
            self.curses.lemma_sized();
        }
        let height = self.curses.height();
        if height >= 2 {
            (height - 2) as usize
        } else {
            0
        }
    }

    /// Highlights the selected row. Where the selected offset holds no item,
    /// the selection first goes back to the row nearest the prompt.
    fn select_row(&mut self)
        requires
            old(self).curses.wf(),
            old(self).displayed_results.len() <= viewport_rows(old(self).curses.spec_height()),
        ensures
            final(self).wf(),
            final(self).model() == old(self).model().with_selection(
                selection_after_snapshot(
                    old(self).model().selection,
                    old(self).displayed_results.len() as int,
                ),
            ),
            final(self).queued() == old(self).queued() + final(self).model().highlight_commands(
                CommandView::SelectedBackground,
            ),
    {
        proof {
            self.curses.lemma_sized();
        }
        let rows = self.max_result_rows();
        let shown = self.displayed_results.len();
        let offset = match self.selected_result {
            Some(offset) if offset < shown => offset,
            _ => 0,
        };
        self.selected_result = Some(offset);
        if offset < shown {
            let row = (rows - offset - 1) as i32;
            self.curses.move_cursor(row, 0);
            self.curses.selected_background();
            self.curses.println(self.displayed_results[offset].as_str());
        }
        assert(self.curses.queued() =~= old(self).queued() + self.model().highlight_commands(
            CommandView::SelectedBackground,
        ));
    }

    /// Redraws the statistics line.
    fn update_stats(&mut self, total: usize, matching: usize)
        requires
            old(self).curses.wf(),
        ensures
            final(self).curses.wf(),
            final(self).selected_result == old(self).selected_result,
            final(self).displayed_results == old(self).displayed_results,
            final(self).curses.spec_height() == old(self).curses.spec_height(),
            final(self).curses.queued() == old(self).curses.queued() + stats_commands(
                old(self).curses.spec_height(),
                matching as nat,
                total as nat,
            ),
    {
        proof {
            self.curses.lemma_sized();
        }
        let row = self.curses.height() - 2;
        self.curses.clear_row(row);
        self.curses.normal();
        let stats = stats_string(total, matching);
        self.curses.print(stats.as_str());
        assert(self.curses.queued() =~= old(self).curses.queued() + stats_commands(
            old(self).curses.spec_height(),
            matching as nat,
            total as nat,
        ));
    }
}

} // verus!
