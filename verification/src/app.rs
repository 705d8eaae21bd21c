//! The session controller: the filter string, the result view and the way
//! the session ends.
//!
//! The controller never waits and never draws. Each call takes what happened
//! outside (a key, a snapshot, the engine's word on whether it is busy) and
//! returns a [`Step`]: the drawing commands to carry out, the signals to send,
//! and what to look for next. The caller carries out the commands first, then
//! the signals, each list in order, and comes back with the event asked for.

use vstd::prelude::*;
use crate::curses::{command_views, Command, CommandView, Curses};
use crate::input::{action_for, classify, Action};
use crate::text::texts;
use crate::view::{prompt_commands, prompt_cursor_commands, MatchSnapshot, ViewModel};

verus! {

/// Why a session ends.
#[derive(Clone, Copy, Debug, PartialEq, Eq)]
pub enum ExitReason {
    /// The user gave up, or the terminal could not be read.
    UserCancel,
    /// The user confirmed the selected row.
    UserConfirm,
    /// The user asked for the selected row to be copied.
    CopyAndExit,
}

/// Where a session stands. It only ever moves forward.
#[derive(Clone, Copy, Debug, PartialEq, Eq)]
pub enum SessionState {
    Running,
    Terminating(ExitReason),
    Closed,
}

/// What the caller is to do next.
#[derive(Clone, Copy, Debug, PartialEq, Eq)]
pub enum Request {
    /// Ask the engine whether it is busy.
    EngineStatus,
    /// Look for a key without waiting.
    PollKey,
    /// Wait for a key.
    ReadKey,
    /// Look for a snapshot without waiting.
    PollSnapshot,
    /// Leave the loop.
    Stop,
}

/// What happened outside.
#[derive(Clone, Debug)]
pub enum Event {
    /// The engine is busy: it is still scanning or still filtering.
    EngineStatus { busy: bool },
    /// A key was pressed.
    Key { character: i32, key: String },
    /// No key was waiting.
    NoKey,
    /// The terminal could not be read.
    InputFailed,
    /// The engine delivered a snapshot.
    Snapshot(MatchSnapshot),
    /// No snapshot was waiting, or the engine has hung up.
    NoSnapshot,
}

/// An [`Event`], with its texts as sequences of characters.
pub ghost enum EventView {
    EngineStatus { busy: bool },
    Key { character: int, key: Seq<char> },
    NoKey,
    InputFailed,
    Snapshot { items: Seq<Seq<char>>, total: nat },
    NoSnapshot,
}

impl View for Event {
    type V = EventView;

    open spec fn view(&self) -> EventView {
        match *self {
            Event::EngineStatus { busy } => EventView::EngineStatus { busy },
            Event::Key { character, key } => EventView::Key {
                character: character as int,
                key: key@,
            },
            Event::NoKey => EventView::NoKey,
            Event::InputFailed => EventView::InputFailed,
            Event::Snapshot(snapshot) => EventView::Snapshot {
                items: texts(snapshot.ordered_items@),
                total: snapshot.total_candidates as nat,
            },
            Event::NoSnapshot => EventView::NoSnapshot,
        }
    }
}

/// What the terminal answers in place of a key code where it has no key.
pub const NO_KEY: i32 = -1;

impl Event {
    /// The event of a look for a key that did not wait: no key where the
    /// terminal answered [`NO_KEY`], else the key with that code and name.
    pub fn from_poll(character: i32, key: String) -> (event: Event)
        ensures
            event@ == (if character == NO_KEY {
                EventView::NoKey
            } else {
                EventView::Key { character: character as int, key: key@ }
            }),
    {
        if character == NO_KEY {
            Event::NoKey
        } else {
            Event::Key { character, key }
        }
    }

    /// The event of a wait for a key: a failure where the terminal answered
    /// [`NO_KEY`] all the same, else the key with that code and name.
    pub fn from_read(character: i32, key: String) -> (event: Event)
        ensures
            event@ == (if character == NO_KEY {
                EventView::InputFailed
            } else {
                EventView::Key { character: character as int, key: key@ }
            }),
    {
        if character == NO_KEY {
            Event::InputFailed
        } else {
            Event::Key { character, key }
        }
    }
}

/// Something to tell the world beyond the terminal.
#[derive(Clone, Debug, PartialEq, Eq)]
pub enum Signal {
    /// Tell the engine the filter string, in full.
    FilterChanged(String),
    /// Tell the engine that no further work is needed.
    Finished,
    /// Put the text on the clipboard; a failure there is ignored.
    Copy(String),
    /// Write the text to the output.
    Print(String),
}

/// A [`Signal`], with its text as a sequence of characters.
pub ghost enum SignalView {
    FilterChanged(Seq<char>),
    Finished,
    Copy(Seq<char>),
    Print(Seq<char>),
}

impl View for Signal {
    type V = SignalView;

    open spec fn view(&self) -> SignalView {
        match *self {
            Signal::FilterChanged(text) => SignalView::FilterChanged(text@),
            Signal::Finished => SignalView::Finished,
            Signal::Copy(text) => SignalView::Copy(text@),
            Signal::Print(text) => SignalView::Print(text@),
        }
    }
}

/// The signals of a sequence, each by its view.
pub open spec fn signal_views(signals: Seq<Signal>) -> Seq<SignalView> {
    Seq::new(signals.len(), |i: int| signals[i]@)
}

/// Appending a signal appends its view.
pub proof fn lemma_signal_views_push(signals: Seq<Signal>, signal: Signal)
    ensures
        signal_views(signals.push(signal)) == signal_views(signals).push(signal@),
{
    assert(signal_views(signals.push(signal)) =~= signal_views(signals).push(signal@));
}

/// What one call asks of the caller.
#[derive(Debug)]
pub struct Step {
    /// The drawing commands, to carry out first and in order.
    pub commands: Vec<Command>,
    /// The signals, to send after the commands and in order.
    pub signals: Vec<Signal>,
    /// What to look for next.
    pub next: Request,
}

/// The filter string after an action.
pub open spec fn filter_after(filter: Seq<char>, action: Action) -> Seq<char> {
    match action {
        Action::InsertChar(ch) => filter.push(ch),
        Action::RemoveLastChar => if filter.len() > 0 {
            filter.drop_last()
        } else {
            filter
        },
        _ => filter,
    }
}

/// Whether an action changes the filter string.
pub open spec fn changes_filter(filter: Seq<char>, action: Action) -> bool {
    match action {
        Action::InsertChar(_) => true,
        Action::RemoveLastChar => filter.len() > 0,
        _ => false,
    }
}

/// The state of a session.
pub ghost struct AppModel {
    /// Where the session stands.
    pub state: SessionState,
    /// What the caller was last asked to look for.
    pub awaiting: Request,
    /// The filter string.
    pub filter: Seq<char>,
    /// The result view.
    pub view: ViewModel,
    /// Whether the selected row is written to the output at the end.
    pub print_result: bool,
}

impl AppModel {
    /// The view is well formed; a running session asks for something, a
    /// closed one asks the caller to stop, and one on its way out asks the
    /// caller to stop or, before that, for the snapshot that may be waiting.
    pub open spec fn wf(self) -> bool {
        &&& self.view.wf()
        &&& match self.state {
            SessionState::Running => !(self.awaiting is Stop),
            SessionState::Terminating(_) => self.awaiting is Stop || self.awaiting is PollSnapshot,
            SessionState::Closed => self.awaiting is Stop,
        }
    }

    /// The session on its way out for `reason`.
    pub open spec fn terminating(self, reason: ExitReason) -> AppModel {
        AppModel { state: SessionState::Terminating(reason), ..self }
    }

    /// The session asking for `request`.
    pub open spec fn asking(self, request: Request) -> AppModel {
        AppModel { awaiting: request, ..self }
    }

    /// The session at the end of a round of the loop: it asks for the
    /// engine's word if it still runs, and tells the caller to stop if not.
    pub open spec fn next_round(self) -> AppModel {
        self.asking(
            if self.state is Running {
                Request::EngineStatus
            } else {
                Request::Stop
            },
        )
    }

    /// The session after an action.
    pub open spec fn dispatch(self, action: Action) -> AppModel {
        match action {
            Action::InsertChar(_) | Action::RemoveLastChar => AppModel {
                filter: filter_after(self.filter, action),
                ..self
            },
            Action::SelectNext => AppModel { view: self.view.moved_down(), ..self },
            Action::SelectPrevious => AppModel { view: self.view.moved_up(), ..self },
            Action::Cancel => self.terminating(ExitReason::UserCancel),
            Action::ConfirmAndExit => self.terminating(ExitReason::UserConfirm),
            Action::CopyAndExit => self.terminating(ExitReason::CopyAndExit),
            Action::Noop => self,
        }
    }

    /// What an action draws: the prompt row where the filter string changes,
    /// the two rows that a moved selection touches, else nothing.
    pub open spec fn dispatch_commands(self, action: Action) -> Seq<CommandView> {
        match action {
            Action::InsertChar(_) | Action::RemoveLastChar => if changes_filter(
                self.filter,
                action,
            ) {
                prompt_commands(self.view.height, filter_after(self.filter, action))
            } else {
                Seq::empty()
            },
            Action::SelectNext => self.view.reselect_commands(self.view.moved_down().selection),
            Action::SelectPrevious => self.view.reselect_commands(self.view.moved_up().selection),
            _ => Seq::empty(),
        }
    }

    /// The signals that an action sends: one notification for each change of
    /// the filter string.
    pub open spec fn dispatch_signals(self, action: Action) -> Seq<SignalView> {
        if changes_filter(self.filter, action) {
            seq![SignalView::FilterChanged(filter_after(self.filter, action))]
        } else {
            Seq::empty()
        }
    }

    /// Whether the session takes the event: the event answers what was asked
    /// for. A running session takes a failure of the terminal at any time.
    pub open spec fn accepts(self, event: EventView) -> bool {
        match event {
            EventView::EngineStatus { .. } => self.state is Running && self.awaiting is EngineStatus,
            EventView::Key { .. } => self.state is Running && (self.awaiting is PollKey
                || self.awaiting is ReadKey),
            EventView::NoKey => self.state is Running && self.awaiting is PollKey,
            EventView::InputFailed => self.state is Running,
            EventView::Snapshot { .. } | EventView::NoSnapshot => !(self.state is Closed)
                && self.awaiting is PollSnapshot,
        }
    }

    /// The session after an event. While the engine is busy, a key is looked
    /// for without waiting; a key that is there is acted on and ends the
    /// round, and only when none is there a snapshot is looked for. Once the
    /// engine is idle, a key is waited for and acted on, and then a snapshot
    /// is looked for before the round ends. A session that an action has
    /// sent on its way out stops at the end of that round; one whose
    /// terminal failed stops at once. An event that was not asked for
    /// changes nothing.
    pub open spec fn step(self, event: EventView) -> AppModel {
        if !self.accepts(event) {
            self
        } else {
            match event {
                EventView::EngineStatus { busy } => self.asking(
                    if busy {
                        Request::PollKey
                    } else {
                        Request::ReadKey
                    },
                ),
                EventView::Key { character, key } => if self.awaiting is PollKey {
                    self.dispatch(action_for(character, key)).next_round()
                } else {
                    self.dispatch(action_for(character, key)).asking(Request::PollSnapshot)
                },
                EventView::NoKey => self.asking(Request::PollSnapshot),
                EventView::InputFailed => self.terminating(ExitReason::UserCancel).next_round(),
                EventView::Snapshot { items, total } => (AppModel {
                    view: self.view.after_snapshot(items),
                    ..self
                }).next_round(),
                EventView::NoSnapshot => self.next_round(),
            }
        }
    }

    /// What an event draws.
    pub open spec fn step_commands(self, event: EventView) -> Seq<CommandView> {
        if !self.accepts(event) {
            Seq::empty()
        } else {
            match event {
                EventView::Key { character, key } => self.dispatch_commands(
                    action_for(character, key),
                ),
                EventView::Snapshot { items, total } => self.view.snapshot_commands(
                    items,
                    total,
                    self.filter,
                ),
                _ => Seq::empty(),
            }
        }
    }

    /// The signals that an event sends.
    pub open spec fn step_signals(self, event: EventView) -> Seq<SignalView> {
        if !self.accepts(event) {
            Seq::empty()
        } else {
            match event {
                EventView::Key { character, key } => self.dispatch_signals(
                    action_for(character, key),
                ),
                _ => Seq::empty(),
            }
        }
    }

    /// The session at its start: the row nearest the prompt selected.
    pub open spec fn started(self) -> AppModel {
        if self.state is Running {
            AppModel { view: self.view.with_selection(0), ..self }
        } else {
            self
        }
    }

    /// What the start draws: the highlight where it moves, and the cursor
    /// behind the filter string.
    pub open spec fn start_commands(self) -> Seq<CommandView> {
        if self.state is Running {
            self.view.reselect_commands(0) + prompt_cursor_commands(
                self.view.height,
                self.filter.len(),
            )
        } else {
            Seq::empty()
        }
    }

    /// The session after closing: closed if it was on its way out.
    pub open spec fn closed(self) -> AppModel {
        if self.state is Terminating {
            AppModel { state: SessionState::Closed, awaiting: Request::Stop, ..self }
        } else {
            self
        }
    }

    /// What closing draws: the terminal goes back to its normal mode.
    pub open spec fn close_commands(self) -> Seq<CommandView> {
        if self.state is Terminating {
            seq![CommandView::EndWindow]
        } else {
            Seq::empty()
        }
    }

    /// The text that closing copies: the selected item, unless the session
    /// was cancelled.
    pub open spec fn copied(self) -> Option<Seq<char>> {
        match self.state {
            SessionState::Terminating(ExitReason::UserConfirm)
            | SessionState::Terminating(ExitReason::CopyAndExit) => self.view.selected_item(),
            _ => None,
        }
    }

    /// The text that closing prints: the selected item, where the session was
    /// asked to print its result.
    pub open spec fn printed(self) -> Option<Seq<char>> {
        if self.state is Terminating && self.print_result {
            self.view.selected_item()
        } else {
            None
        }
    }

    /// The signals that closing sends: the engine is told once that the
    /// session has finished, then the selected item is copied, then printed.
    pub open spec fn close_signals(self) -> Seq<SignalView> {
        if self.state is Terminating {
            seq![SignalView::Finished] + (match self.copied() {
                Some(text) => seq![SignalView::Copy(text)],
                None => Seq::empty(),
            }) + (match self.printed() {
                Some(text) => seq![SignalView::Print(text)],
                None => Seq::empty(),
            })
        } else {
            Seq::empty()
        }
    }
}

/// A session: the filter string, the result view, and how far it has come.
pub struct App {
    state: SessionState,
    awaiting: Request,
    filter_string: String,
    view: crate::view::View,
    print_result: bool,
}

impl App {
    /// The state of the session.
    pub closed spec fn model(&self) -> AppModel {
        AppModel {
            state: self.state,
            awaiting: self.awaiting,
            filter: self.filter_string@,
            view: self.view.model(),
            print_result: self.print_result,
        }
    }

    /// The session's state is well formed, and nothing is left to draw.
    pub closed spec fn wf(&self) -> bool {
        &&& self.model().wf()
        &&& self.view.wf()
        &&& self.view.queued() == Seq::<CommandView>::empty()
    }

    /// A running session on a terminal of the given size, with an empty
    /// filter string, nothing drawn and nothing selected. A negative size
    /// counts as zero. With `print_result` the selected row is written to the
    /// output when the session closes.
    pub fn new(width: i32, height: i32, print_result: bool) -> (app: Self)
        ensures
            app.wf(),
            app.model() == (AppModel {
                state: SessionState::Running,
                awaiting: Request::EngineStatus,
                filter: Seq::empty(),
                view: ViewModel {
                    height: if height < 0 {
                        0
                    } else {
                        height as int
                    },
                    selection: -1,
                    displayed: Seq::empty(),
                },
                print_result,
            }),
    {
        let curses = Curses::new(width, height);
        let view = crate::view::View::new(curses);
        proof {
            view.lemma_wf_model();
        }
        App {
            state: SessionState::Running,
            awaiting: Request::EngineStatus,
            filter_string: String::new(),
            view,
            print_result,
        }
    }

    /// Where the session stands.
    pub fn state(&self) -> (state: SessionState)
        ensures
            state == self.model().state,
    {
        self.state
    }

    /// The filter string.
    pub fn filter_string(&self) -> (filter: String)
        ensures
            filter@ == self.model().filter,
    {
        self.filter_string.clone()
    }

    /// The item at the selected offset, if one stands there.
    pub fn selected_result(&self) -> (selected: Option<String>)
        ensures
            match selected {
                Some(text) => self.model().view.selected_item() == Some(text@),
                None => self.model().view.selected_item().is_none(),
            },
    {
        self.view.get_selected_result()
    }

    /// Starts the session: selects the row nearest the prompt and puts the
    /// cursor behind the filter string. A session that no longer runs is left
    /// as it is.
    pub fn start(&mut self) -> (step: Step)
        requires
            old(self).wf(),
        ensures
            final(self).wf(),
            final(self).model() == old(self).model().started(),
            command_views(step.commands@) == old(self).model().start_commands(),
            step.signals@ == Seq::<Signal>::empty(),
            step.next == final(self).model().awaiting,
    {
        match self.state {
            SessionState::Running => {
                self.view.select_first_result();
                self.set_cursor_to_filter_input();
                proof {
                    self.view.lemma_wf_model();
                }
            },
            _ => {},
        }
        let commands = self.view.drain();
        assert(command_views(commands@) =~= old(self).model().start_commands());
        Step { commands, signals: Vec::new(), next: self.awaiting }
    }

    /// Takes an event in. An event that answers what was asked for moves the
    /// session on; any other is dropped. A key is classified and acted on: it
    /// changes the filter string and notifies the engine of the new one,
    /// moves the selection, or sends the session on its way out. A snapshot
    /// goes to the result view. A terminal that cannot be read ends the
    /// session as a cancel does.
    pub fn step(&mut self, event: Event) -> (step: Step)
        requires
            old(self).wf(),
        ensures
            final(self).wf(),
            final(self).model() == old(self).model().step(event@),
            command_views(step.commands@) == old(self).model().step_commands(event@),
            signal_views(step.signals@) == old(self).model().step_signals(event@),
            step.next == final(self).model().awaiting,
    {
        let ghost before = self.model();
        let mut signals: Vec<Signal> = Vec::new();
        assert(signal_views(signals@) =~= Seq::<SignalView>::empty());
        proof {
            self.view.lemma_wf_model();
        }
        let running = self.is_running();
        match event {
            Event::EngineStatus { busy } => {
                match self.awaiting {
                    Request::EngineStatus => {
                        if running {
                            self.awaiting =
                            if busy {
                                Request::PollKey
                            } else {
                                Request::ReadKey
                            };
                        }
                    },
                    _ => {},
                }
            },
            Event::Key { character, key } => {
                match self.awaiting {
                    Request::PollKey => {
                        if running {
                            signals = self.handle_user_input(character, &key);
                            self.next_round();
                        }
                    },
                    Request::ReadKey => {
                        if running {
                            signals = self.handle_user_input(character, &key);
                            self.awaiting = Request::PollSnapshot;
                        }
                    },
                    _ => {},
                }
            },
            Event::NoKey => {
                match self.awaiting {
                    Request::PollKey => {
                        if running {
                            self.awaiting = Request::PollSnapshot;
                        }
                    },
                    _ => {},
                }
            },
            Event::InputFailed => {
                if running {
                    self.terminate(ExitReason::UserCancel);
                    self.next_round();
                }
            },
            Event::Snapshot(snapshot) => {
                match self.awaiting {
                    Request::PollSnapshot => {
                        self.update_results(snapshot);
                        self.next_round();
                    },
                    _ => {},
                }
            },
            Event::NoSnapshot => {
                match self.awaiting {
                    Request::PollSnapshot => {
                        self.next_round();
                    },
                    _ => {},
                }
            },
        }
        proof {
            self.view.lemma_wf_model();
        }
        let commands = self.view.drain();
        assert(command_views(commands@) =~= before.step_commands(event@));
        Step { commands, signals, next: self.awaiting }
    }

    /// Closes a session that is on its way out: the terminal goes back to
    /// its normal mode, the engine is told that the session has finished,
    /// the selected item is copied unless the session was cancelled, and
    /// printed where the session was asked to print its result. A session
    /// that still runs, or is closed already, is left as it is and asks for
    /// nothing.
    pub fn close(&mut self) -> (step: Step)
        requires
            old(self).wf(),
        ensures
            final(self).wf(),
            final(self).model() == old(self).model().closed(),
            command_views(step.commands@) == old(self).model().close_commands(),
            signal_views(step.signals@) == old(self).model().close_signals(),
            step.next == final(self).model().awaiting,
    {
        let ghost before = self.model();
        let mut signals: Vec<Signal> = Vec::new();
        assert(signal_views(signals@) =~= Seq::<SignalView>::empty());
        proof {
            self.view.lemma_wf_model();
        }
        match self.state {
            SessionState::Terminating(reason) => {
                self.view.close();
                proof {
                    lemma_signal_views_push(signals@, Signal::Finished);
                }
                signals.push(Signal::Finished);
                match self.copy_selected_to_clipboard(reason) {
                    Some(text) => {
                        proof {
                            lemma_signal_views_push(signals@, Signal::Copy(text));
                        }
                        signals.push(Signal::Copy(text));
                    },
                    None => {},
                }
                match self.print_result() {
                    Some(text) => {
                        proof {
                            lemma_signal_views_push(signals@, Signal::Print(text));
                        }
                        signals.push(Signal::Print(text));
                    },
                    None => {},
                }
                self.state = SessionState::Closed;
                self.awaiting = Request::Stop;
                assert(signal_views(signals@) =~= before.close_signals());
            },
            _ => {},
        }
        proof {
            self.view.lemma_wf_model();
        }
        let commands = self.view.drain();
        assert(command_views(commands@) =~= before.close_commands());
        Step { commands, signals, next: self.awaiting }
    }

    /// The text to print at the end: the selected item, where the session
    /// was asked to print its result.
    fn print_result(&self) -> (text: Option<String>)
        requires
            self.state is Terminating,
        ensures
            match text {
                Some(text) => self.model().printed() == Some(text@),
                None => self.model().printed().is_none(),
            },
    {
        if self.print_result {
            self.view.get_selected_result()
        } else {
            None
        }
    }

    /// The text to copy at the end: the selected item, unless the session
    /// was cancelled.
    fn copy_selected_to_clipboard(&self, reason: ExitReason) -> (text: Option<String>)
        requires
            self.state == SessionState::Terminating(reason),
        ensures
            match text {
                Some(text) => self.model().copied() == Some(text@),
                None => self.model().copied().is_none(),
            },
    {
        match reason {
            ExitReason::UserCancel => None,
            _ => self.view.get_selected_result(),
        }
    }

    /// Acts on the key with code `character` and name `key`, and returns the
    /// signals that this sends.
    fn handle_user_input(&mut self, character: i32, key: &String) -> (signals: Vec<Signal>)
        requires
            old(self).view.wf(),
            old(self).state is Running,
        ensures
            final(self).view.wf(),
            final(self).model() == old(self).model().dispatch(
                action_for(character as int, key@),
            ),
            final(self).view.queued() == old(self).view.queued() + old(
                self,
            ).model().dispatch_commands(action_for(character as int, key@)),
            signal_views(signals@) == old(self).model().dispatch_signals(
                action_for(character as int, key@),
            ),
    {
        let ghost before = self.model();
        let action = classify(character, key.as_str());
        let mut signals: Vec<Signal> = Vec::new();
        assert(signal_views(signals@) =~= Seq::<SignalView>::empty());
        match action {
            Action::InsertChar(ch) => {
                let notice = self.amend_filter_string(ch);
                proof {
                    lemma_signal_views_push(signals@, Signal::FilterChanged(notice));
                }
                signals.push(Signal::FilterChanged(notice));
                assert(signal_views(signals@) =~= before.dispatch_signals(action));
            },
            Action::RemoveLastChar => {
                match self.filter_string.pop() {
                    Some(_) => {
                        let notice = self.filter_string.clone();
                        proof {
                            lemma_signal_views_push(signals@, Signal::FilterChanged(notice));
                        }
                        signals.push(Signal::FilterChanged(notice));
                        self.update_ui();
                        assert(signal_views(signals@) =~= before.dispatch_signals(action));
                    },
                    None => {},
                }
            },
            Action::SelectNext => {
                self.move_selected_down();
            },
            Action::SelectPrevious => {
                self.move_selected_up();
            },
            Action::Cancel => {
                self.terminate(ExitReason::UserCancel);
            },
            Action::ConfirmAndExit => {
                self.terminate(ExitReason::UserConfirm);
            },
            Action::CopyAndExit => {
                self.terminate(ExitReason::CopyAndExit);
            },
            Action::Noop => {},
        }
        assert(self.view.queued() =~= old(self).view.queued() + before.dispatch_commands(action));
        signals
    }

    /// Hands a snapshot to the result view.
    fn update_results(&mut self, results: MatchSnapshot)
        requires
            old(self).view.wf(),
        ensures
            final(self).view.wf(),
            final(self).state == old(self).state,
            final(self).awaiting == old(self).awaiting,
            final(self).filter_string == old(self).filter_string,
            final(self).print_result == old(self).print_result,
            final(self).view.model() == old(self).view.model().after_snapshot(
                texts(results.ordered_items@),
            ),
            final(self).view.queued() == old(self).view.queued() + old(
                self,
            ).view.model().snapshot_commands(
                texts(results.ordered_items@),
                results.total_candidates as nat,
                old(self).filter_string@,
            ),
    {
        self.view.update_results(results, &self.filter_string);
    }

    /// Appends `ch` to the filter string, redraws the prompt, and returns the
    /// new filter string for the engine.
    fn amend_filter_string(&mut self, ch: char) -> (notice: String)
        requires
            old(self).view.wf(),
        ensures
            final(self).view.wf(),
            final(self).model() == (AppModel {
                filter: old(self).model().filter.push(ch),
                ..old(self).model()
            }),
            notice@ == old(self).model().filter.push(ch),
            final(self).view.queued() == old(self).view.queued() + prompt_commands(
                old(self).model().view.height,
                old(self).model().filter.push(ch),
            ),
    {
        self.filter_string.push(ch);
        let notice = self.filter_string.clone();
        self.update_ui();
        notice
    }

    /// Redraws the prompt row with the filter string.
    fn update_ui(&mut self)
        requires
            old(self).view.wf(),
        ensures
            final(self).view.wf(),
            final(self).model() == old(self).model(),
            final(self).filter_string == old(self).filter_string,
            final(self).view.queued() == old(self).view.queued() + prompt_commands(
                old(self).model().view.height,
                old(self).model().filter,
            ),
    {
        self.view.update_filter_string(&self.filter_string);
    }

    /// Puts the cursor behind the filter string.
    fn set_cursor_to_filter_input(&mut self)
        requires
            old(self).view.wf(),
        ensures
            final(self).view.wf(),
            final(self).model() == old(self).model(),
            final(self).view.queued() == old(self).view.queued() + prompt_cursor_commands(
                old(self).model().view.height,
                old(self).model().filter.len(),
            ),
    {
        self.view.set_cursor_to_filter_input(&self.filter_string);
    }

    /// Moves the selection one row away from the prompt.
    fn move_selected_down(&mut self)
        requires
            old(self).view.wf(),
        ensures
            final(self).view.wf(),
            final(self).model() == (AppModel {
                view: old(self).model().view.moved_down(),
                ..old(self).model()
            }),
            final(self).view.queued() == old(self).view.queued() + old(
                self,
            ).model().view.reselect_commands(old(self).model().view.moved_down().selection),
    {
        self.view.move_selected_down();
    }

    /// Moves the selection one row towards the prompt.
    fn move_selected_up(&mut self)
        requires
            old(self).view.wf(),
        ensures
            final(self).view.wf(),
            final(self).model() == (AppModel {
                view: old(self).model().view.moved_up(),
                ..old(self).model()
            }),
            final(self).view.queued() == old(self).view.queued() + old(
                self,
            ).model().view.reselect_commands(old(self).model().view.moved_up().selection),
    {
        self.view.move_selected_up();
    }

    /// Whether the session still runs.
    fn is_running(&self) -> (running: bool)
        ensures
            running == (self.state is Running),
    {
        match self.state {
            SessionState::Running => true,
            _ => false,
        }
    }

    /// Sends the session on its way out.
    fn terminate(&mut self, reason: ExitReason)
        ensures
            final(self).model() == old(self).model().terminating(reason),
            final(self).view == old(self).view,
    {
        self.state = SessionState::Terminating(reason);
    }

    /// Ends a round of the loop: asks for the engine's word if the session
    /// still runs, and tells the caller to stop if not.
    fn next_round(&mut self)
        ensures
            final(self).model() == old(self).model().next_round(),
            final(self).view == old(self).view,
    {
        self.awaiting =
        if self.is_running() {
            Request::EngineStatus
        } else {
            Request::Stop
        };
    }
}

} // verus!
