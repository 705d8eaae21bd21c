//! What holds of every session and every view, proved from the models that
//! the contracts of the session and the view speak of.

use vstd::prelude::*;
use crate::app::{AppModel, SignalView};
use crate::curses::CommandView;
use crate::input::Action;
use crate::view::{prompt_cursor_commands, stats_commands, visible_prefix, ViewModel};

verus! {

/// Whether every action inserts a character.
pub open spec fn all_insertions(actions: Seq<Action>) -> bool {
    forall|i: int| 0 <= i < actions.len() ==> #[trigger] actions[i] is InsertChar
}

/// The character that an action inserts.
pub open spec fn inserted(action: Action) -> char {
    match action {
        Action::InsertChar(ch) => ch,
        _ => ' ',
    }
}

/// The characters that the actions insert, in order.
pub open spec fn typed(actions: Seq<Action>) -> Seq<char> {
    Seq::new(actions.len(), |i: int| inserted(actions[i]))
}

/// The session after the actions, taken in order.
pub open spec fn dispatch_all(session: AppModel, actions: Seq<Action>) -> AppModel
    decreases actions.len(),
{
    if actions.len() == 0 {
        session
    } else {
        dispatch_all(session, actions.drop_last()).dispatch(actions.last())
    }
}

/// The signals that the actions send, taken in order.
pub open spec fn signals_of_all(session: AppModel, actions: Seq<Action>) -> Seq<SignalView>
    decreases actions.len(),
{
    if actions.len() == 0 {
        Seq::empty()
    } else {
        signals_of_all(session, actions.drop_last()) + dispatch_all(
            session,
            actions.drop_last(),
        ).dispatch_signals(actions.last())
    }
}

/// The notifications for typing `keys` into `filter`: after each key, the
/// filter string with all keys so far.
pub open spec fn cumulative_notifications(filter: Seq<char>, keys: Seq<char>) -> Seq<SignalView> {
    Seq::new(keys.len(), |i: int| SignalView::FilterChanged(filter + keys.take(i + 1)))
}

/// Typing characters and nothing else appends them to the filter string in
/// order, touches nothing else, and notifies the engine once for each key,
/// each time with the filter string as it stands after that key.
pub proof fn lemma_typing_accumulates(session: AppModel, actions: Seq<Action>)
    requires
        all_insertions(actions),
    ensures
        dispatch_all(session, actions) == (AppModel {
            filter: session.filter + typed(actions),
            ..session
        }),
        signals_of_all(session, actions) == cumulative_notifications(
            session.filter,
            typed(actions),
        ),
        signals_of_all(session, actions).len() == actions.len(),
    decreases actions.len(),
{
    let keys = typed(actions);
    if actions.len() == 0 {
        assert(session.filter + keys =~= session.filter);
        assert(signals_of_all(session, actions) =~= cumulative_notifications(session.filter, keys));
    } else {
        let front = actions.drop_last();
        lemma_typing_accumulates(session, front);
        assert(typed(front) =~= keys.drop_last());
        assert(actions.last() == Action::InsertChar(keys.last()));
        assert((session.filter + typed(front)).push(keys.last()) =~= session.filter + keys);
        assert(keys.take(keys.len() as int) =~= keys);
        assert forall|i: int| 0 <= i < front.len() implies #[trigger] typed(front).take(i + 1)
            == keys.take(i + 1) by {
            assert(typed(front).take(i + 1) =~= keys.take(i + 1));
        }
        assert(signals_of_all(session, actions) =~= cumulative_notifications(session.filter, keys));
    }
}

/// Removing the last character of an empty filter string changes nothing,
/// draws nothing and notifies nobody.
pub proof fn lemma_backspace_on_empty_filter(session: AppModel)
    requires
        session.filter.len() == 0,
    ensures
        session.dispatch(Action::RemoveLastChar) == session,
        session.dispatch_signals(Action::RemoveLastChar) == Seq::<SignalView>::empty(),
        session.dispatch_commands(Action::RemoveLastChar) == Seq::<CommandView>::empty(),
{
}

/// The view after `times` steps away from the prompt.
pub open spec fn moved_down_times(view: ViewModel, times: nat) -> ViewModel
    decreases times,
{
    if times == 0 {
        view
    } else {
        moved_down_times(view, (times - 1) as nat).moved_down()
    }
}

/// The view after `times` steps towards the prompt.
pub open spec fn moved_up_times(view: ViewModel, times: nat) -> ViewModel
    decreases times,
{
    if times == 0 {
        view
    } else {
        moved_up_times(view, (times - 1) as nat).moved_up()
    }
}

/// Stepping away from the prompt moves the selection by one each time for as
/// long as a further item stands there.
pub proof fn lemma_moved_down_times(view: ViewModel, times: nat)
    requires
        view.wf(),
        view.selection + times <= view.displayed.len() - 1,
    ensures
        moved_down_times(view, times) == view.with_selection(view.selection + times),
    decreases times,
{
    if times > 0 {
        lemma_moved_down_times(view, (times - 1) as nat);
    }
}

/// Stepping towards the prompt moves the selection by one each time for as
/// long as it stays at or above zero.
pub proof fn lemma_moved_up_times(view: ViewModel, times: nat)
    requires
        view.wf(),
        times == 0 || times <= view.selection,
    ensures
        moved_up_times(view, times) == view.with_selection(view.selection - times),
    decreases times,
{
    if times > 0 {
        lemma_moved_up_times(view, (times - 1) as nat);
    }
}

/// Stepping away from the prompt until the view stops changing ends on the
/// last drawn row: every step before the last one changes the view, and the
/// view reached then has its selection at the number of drawn rows less one
/// and no longer changes. The one view left out is the one that a snapshot
/// without items leaves, where the selection stands at zero above no row.
pub proof fn lemma_select_next_ends_on_last_row(view: ViewModel, steps: nat)
    requires
        view.wf(),
        !(view.selection == 0 && view.displayed.len() == 0),
        steps == view.displayed.len() - 1 - view.selection,
    ensures
        moved_down_times(view, steps).selection == view.displayed.len() - 1,
        moved_down_times(view, steps).moved_down() == moved_down_times(view, steps),
        forall|earlier: nat|
            earlier < steps ==> (#[trigger] moved_down_times(view, earlier)).moved_down()
                != moved_down_times(view, earlier),
{
    lemma_moved_down_times(view, steps);
    assert forall|earlier: nat| earlier < steps implies (#[trigger] moved_down_times(
        view,
        earlier,
    )).moved_down() != moved_down_times(view, earlier) by {
        lemma_moved_down_times(view, earlier);
    }
}

/// Stepping towards the prompt until the view stops changing ends on the row
/// nearest the prompt, or on no selection where there was none: every step
/// before the last one changes the view, and the view reached then no longer
/// changes.
pub proof fn lemma_select_previous_ends_at_prompt(view: ViewModel, steps: nat)
    requires
        view.wf(),
        steps == if view.selection < 0 {
            0
        } else {
            view.selection
        },
    ensures
        moved_up_times(view, steps).selection == if view.selection < 0 {
            -1
        } else {
            0
        },
        moved_up_times(view, steps).moved_up() == moved_up_times(view, steps),
        forall|earlier: nat|
            earlier < steps ==> (#[trigger] moved_up_times(view, earlier)).moved_up()
                != moved_up_times(view, earlier),
{
    lemma_moved_up_times(view, steps);
    assert forall|earlier: nat| earlier < steps implies (#[trigger] moved_up_times(
        view,
        earlier,
    )).moved_up() != moved_up_times(view, earlier) by {
        lemma_moved_up_times(view, earlier);
    }
}

/// The commands begin by placing the cursor, and never place it in one of
/// the result rows `0 .. rows`: whatever they erase or write lies elsewhere.
pub open spec fn spares_result_rows(commands: Seq<CommandView>, rows: int) -> bool {
    &&& commands.len() > 0 ==> commands[0] is MoveCursor
    &&& forall|i: int|
        0 <= i < commands.len() ==> match #[trigger] commands[i] {
            CommandView::MoveCursor { row, .. } => !(0 <= row < rows),
            _ => true,
        }
}

/// A snapshot whose visible items are those of the snapshot before it leaves
/// the view as it is and draws the statistics line and the cursor only:
/// no result row is erased or written.
pub proof fn lemma_same_prefix_redraws_nothing(
    view: ViewModel,
    first: Seq<Seq<char>>,
    second: Seq<Seq<char>>,
    total: nat,
    filter: Seq<char>,
)
    requires
        view.wf(),
        visible_prefix(first, view.rows()) == visible_prefix(second, view.rows()),
    ensures
        view.after_snapshot(first).after_snapshot(second) == view.after_snapshot(first),
        view.after_snapshot(first).result_row_commands(second) == Seq::<CommandView>::empty(),
        view.after_snapshot(first).snapshot_commands(second, total, filter) == stats_commands(
            view.height,
            second.len(),
            total,
        ) + prompt_cursor_commands(view.height, filter.len()),
        spares_result_rows(
            view.after_snapshot(first).snapshot_commands(second, total, filter),
            view.rows(),
        ),
{
    let after = view.after_snapshot(first);
    assert(after.rows() == view.rows());
    assert(after.displayed == visible_prefix(second, after.rows()));
    assert(after.snapshot_commands(second, total, filter) =~= stats_commands(
        view.height,
        second.len(),
        total,
    ) + prompt_cursor_commands(view.height, filter.len()));
}

/// The selection of a well-formed view is unset, which `-1` stands for, or
/// an offset within the viewport; it is unset only while nothing is drawn,
/// and no more rows are drawn than the viewport has.
pub proof fn lemma_selection_in_range(view: ViewModel)
    requires
        view.wf(),
    ensures
        -1 <= view.selection <= view.rows(),
        view.selection == -1 ==> view.displayed.len() == 0,
        view.displayed.len() <= view.rows(),
        view.displayed.len() > 0 ==> view.has_selected_item(),
{
}

/// A snapshot leaves a well-formed view well formed, with the selection on
/// an item wherever an item is visible.
pub proof fn lemma_snapshot_keeps_selection_valid(view: ViewModel, items: Seq<Seq<char>>)
    requires
        view.wf(),
    ensures
        view.after_snapshot(items).wf(),
        visible_prefix(items, view.rows()).len() > 0 ==> view.after_snapshot(
            items,
        ).has_selected_item(),
        view.after_snapshot(items).selection >= 0,
{
}

/// Confirming with an item selected tells the engine once that the session
/// has finished and copies the selected item once; cancelling copies nothing.
/// Either way the item is printed after that where the session was asked to
/// print its result, and closing a second time does nothing.
pub proof fn lemma_exit_signals(session: AppModel, item: Seq<char>)
    requires
        session.view.selected_item() == Some(item),
    ensures
        session.dispatch(Action::ConfirmAndExit).close_signals() == seq![
            SignalView::Finished,
            SignalView::Copy(item),
        ] + (if session.print_result {
            seq![SignalView::Print(item)]
        } else {
            Seq::empty()
        }),
        session.dispatch(Action::CopyAndExit).close_signals() == session.dispatch(
            Action::ConfirmAndExit,
        ).close_signals(),
        session.dispatch(Action::Cancel).close_signals() == seq![SignalView::Finished] + (
        if session.print_result {
            seq![SignalView::Print(item)]
        } else {
            Seq::empty()
        }),
        session.dispatch(Action::ConfirmAndExit).closed().close_signals() == Seq::<
            SignalView,
        >::empty(),
        session.dispatch(Action::Cancel).closed().close_signals() == Seq::<SignalView>::empty(),
{
    let confirmed = session.dispatch(Action::ConfirmAndExit);
    assert(confirmed.close_signals() =~= seq![SignalView::Finished, SignalView::Copy(item)] + (
    if session.print_result {
        seq![SignalView::Print(item)]
    } else {
        Seq::empty()
    }));
    let copied = session.dispatch(Action::CopyAndExit);
    assert(copied.close_signals() =~= confirmed.close_signals());
    let cancelled = session.dispatch(Action::Cancel);
    assert(cancelled.close_signals() =~= seq![SignalView::Finished] + (if session.print_result {
        seq![SignalView::Print(item)]
    } else {
        Seq::empty()
    }));
}

/// A session only moves forward. A well-formed session stays well formed
/// through every event and through closing. While it runs, an event leaves
/// it running or sends it on its way out; on its way out it keeps its reason
/// and its filter string and sends no signal, until closing closes it; and
/// once closed, nothing changes it, draws anything or sends any signal.
pub proof fn lemma_session_moves_forward(session: AppModel, event: crate::app::EventView)
    requires
        session.wf(),
    ensures
        session.step(event).wf(),
        session.closed().wf(),
        session.started().wf(),
        session.state is Running ==> !(session.step(event).state is Closed),
        !(session.state is Running) ==> session.step(event).state == session.state,
        !(session.state is Running) ==> session.step(event).filter == session.filter,
        !(session.state is Running) ==> session.step_signals(event) == Seq::<SignalView>::empty(),
        session.state is Closed ==> session.step(event) == session,
        session.state is Closed ==> session.step_commands(event) == Seq::<CommandView>::empty(),
        session.state is Terminating ==> session.closed().state is Closed,
        !(session.state is Terminating) ==> session.closed() == session,
        session.closed().closed() == session.closed(),
        session.step(event).state is Terminating ==> session.step(event).awaiting is Stop
            || (session.step(event).awaiting is PollSnapshot && (session.awaiting is ReadKey
            || session.state is Terminating)),
{
}

} // verus!
