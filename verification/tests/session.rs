use fuzz::app::{App, Event, ExitReason, Request, SessionState, Signal, Step};
use fuzz::curses::Command;
use fuzz::view::MatchSnapshot;

fn key(character: i32, name: &str) -> Event {
    Event::Key { character, key: String::from(name) }
}

fn snapshot(items: &[&str], total: usize) -> Event {
    Event::Snapshot(MatchSnapshot {
        ordered_items: items.iter().map(|item| String::from(*item)).collect(),
        total_candidates: total,
    })
}

fn changed(text: &str) -> Signal {
    Signal::FilterChanged(String::from(text))
}

fn prompt(row: i32, text: &str) -> Vec<Command> {
    vec![
        Command::MoveCursor { row, column: 0 },
        Command::Bold,
        Command::ClearToEndOfLine,
        Command::Print(String::from(text)),
    ]
}

/// A session on an idle engine that waits for a key.
fn idle_session(height: i32, print_result: bool) -> App {
    let mut app = App::new(80, height, print_result);
    app.start();
    let step = app.step(Event::EngineStatus { busy: false });
    assert_eq!(step.next, Request::ReadKey);
    app
}

/// Presses a key on an idle engine, finds no snapshot waiting, and comes back
/// to waiting for the next key if the session still runs.
fn press(app: &mut App, character: i32, name: &str) -> Step {
    let step = app.step(key(character, name));
    if step.next == Request::PollSnapshot {
        if app.state() == SessionState::Running {
            assert_eq!(app.step(Event::NoSnapshot).next, Request::EngineStatus);
            assert_eq!(app.step(Event::EngineStatus { busy: false }).next, Request::ReadKey);
        } else {
            assert_eq!(app.step(Event::NoSnapshot).next, Request::Stop);
        }
    }
    step
}

/// Delivers a snapshot on an idle engine and comes back to waiting for a key.
fn deliver(app: &mut App, items: &[&str], total: usize) -> Step {
    assert_eq!(app.step(key(0, "")).next, Request::PollSnapshot);
    let step = app.step(snapshot(items, total));
    assert_eq!(step.next, Request::EngineStatus);
    assert_eq!(app.step(Event::EngineStatus { busy: false }).next, Request::ReadKey);
    step
}

#[test]
fn a_new_session_runs_with_an_empty_filter() {
    let app = App::new(80, 24, true);
    assert_eq!(app.state(), SessionState::Running);
    assert_eq!(app.filter_string(), "");
    assert_eq!(app.selected_result(), None);
}

#[test]
fn start_puts_the_cursor_into_the_prompt_and_asks_for_the_engine() {
    let mut app = App::new(80, 24, true);
    let step = app.start();
    assert_eq!(step.commands, vec![Command::MoveCursor { row: 23, column: 0 }]);
    assert_eq!(step.signals, vec![]);
    assert_eq!(step.next, Request::EngineStatus);
    assert_eq!(app.state(), SessionState::Running);
}

#[test]
fn typing_sends_the_cumulative_filter_after_each_key() {
    let mut app = idle_session(24, true);
    let first = press(&mut app, 97, "a");
    assert_eq!(first.signals, vec![changed("a")]);
    assert_eq!(first.commands, prompt(23, "a"));
    let second = press(&mut app, 98, "b");
    assert_eq!(second.signals, vec![changed("ab")]);
    assert_eq!(second.commands, prompt(23, "ab"));
    let third = press(&mut app, 99, "c");
    assert_eq!(third.signals, vec![changed("abc")]);
    assert_eq!(third.commands, prompt(23, "abc"));
    assert_eq!(app.filter_string(), "abc");
    assert_eq!(app.state(), SessionState::Running);
}

#[test]
fn backspace_removes_the_last_character_and_notifies() {
    let mut app = idle_session(24, true);
    press(&mut app, 97, "a");
    press(&mut app, 98, "b");
    assert_eq!(app.filter_string(), "ab");
    let step = press(&mut app, 263, "KEY_BACKSPACE");
    assert_eq!(app.filter_string(), "a");
    assert_eq!(step.signals, vec![changed("a")]);
    assert_eq!(step.commands, prompt(23, "a"));
}

#[test]
fn backspace_on_an_empty_filter_does_nothing() {
    let mut app = idle_session(24, true);
    let step = press(&mut app, 263, "KEY_BACKSPACE");
    assert_eq!(step.signals, vec![]);
    assert_eq!(step.commands, vec![]);
    assert_eq!(app.filter_string(), "");
    assert_eq!(app.state(), SessionState::Running);
    press(&mut app, 97, "a");
    let step = press(&mut app, 127, "^?");
    assert_eq!(step.signals, vec![changed("")]);
    let step = press(&mut app, 127, "^?");
    assert_eq!(step.signals, vec![]);
    assert_eq!(step.commands, vec![]);
}

#[test]
fn a_busy_engine_is_polled_for_keys_then_for_snapshots() {
    let mut app = App::new(80, 24, true);
    app.start();
    let step = app.step(Event::EngineStatus { busy: true });
    assert_eq!(step.next, Request::PollKey);
    let step = app.step(Event::NoKey);
    assert_eq!(step.next, Request::PollSnapshot);
    let step = app.step(Event::NoSnapshot);
    assert_eq!(step.next, Request::EngineStatus);
    let step = app.step(Event::EngineStatus { busy: true });
    assert_eq!(step.next, Request::PollKey);
    let step = app.step(key(97, "a"));
    assert_eq!(step.signals, vec![changed("a")]);
    assert_eq!(step.next, Request::EngineStatus);
}

#[test]
fn an_idle_engine_waits_for_a_key_then_drains_a_snapshot() {
    let mut app = App::new(80, 24, true);
    app.start();
    let step = app.step(Event::EngineStatus { busy: false });
    assert_eq!(step.next, Request::ReadKey);
    let step = app.step(key(97, "a"));
    assert_eq!(step.next, Request::PollSnapshot);
    let step = app.step(snapshot(&["a.txt"], 1));
    assert_eq!(step.next, Request::EngineStatus);
    assert_eq!(app.selected_result(), Some(String::from("a.txt")));
}

#[test]
fn an_event_that_was_not_asked_for_is_dropped() {
    let mut app = App::new(80, 24, true);
    app.start();
    let step = app.step(key(97, "a"));
    assert_eq!(step.next, Request::EngineStatus);
    assert_eq!(step.signals, vec![]);
    assert_eq!(step.commands, vec![]);
    assert_eq!(app.filter_string(), "");
    let step = app.step(snapshot(&["a.txt"], 1));
    assert_eq!(step.next, Request::EngineStatus);
    assert_eq!(step.commands, vec![]);
    assert_eq!(app.selected_result(), None);
    let step = app.step(Event::NoKey);
    assert_eq!(step.next, Request::EngineStatus);
    app.step(Event::EngineStatus { busy: false });
    let step = app.step(Event::NoKey);
    assert_eq!(step.next, Request::ReadKey);
    let step = app.step(Event::EngineStatus { busy: true });
    assert_eq!(step.next, Request::ReadKey);
    let step = app.step(Event::NoSnapshot);
    assert_eq!(step.next, Request::ReadKey);
}

#[test]
fn snapshot_scenario_shows_three_rows_and_counts_four_of_forty() {
    let mut app = idle_session(5, true);
    let step = deliver(&mut app, &["a.txt", "b.txt", "c.txt", "d.txt"], 40);
    let printed: Vec<String> = step
        .commands
        .iter()
        .filter_map(|command| match command {
            Command::Print(text) => Some(text.clone()),
            _ => None,
        })
        .collect();
    assert_eq!(printed, vec!["a.txt", "b.txt", "c.txt", "a.txt", "4/40"]);
    assert!(!printed.contains(&String::from("d.txt")));
    assert_eq!(app.selected_result(), Some(String::from("a.txt")));
    let selected_at = step
        .commands
        .iter()
        .position(|command| *command == Command::SelectedBackground)
        .unwrap();
    assert_eq!(step.commands[selected_at - 1], Command::MoveCursor { row: 2, column: 0 });
    assert_eq!(step.commands[selected_at + 2], Command::Print(String::from("a.txt")));
}

#[test]
fn select_next_twice_then_confirm_copies_the_third_item() {
    let mut app = idle_session(10, false);
    deliver(&mut app, &["r0", "r1", "r2", "r3", "r4"], 5);
    press(&mut app, 258, "KEY_DOWN");
    press(&mut app, 258, "KEY_DOWN");
    let step = press(&mut app, 13, "^M");
    assert_eq!(step.next, Request::PollSnapshot);
    assert_eq!(step.signals, vec![]);
    assert_eq!(app.state(), SessionState::Terminating(ExitReason::UserConfirm));
    let step = app.close();
    assert_eq!(step.commands, vec![Command::EndWindow]);
    assert_eq!(step.signals, vec![Signal::Finished, Signal::Copy(String::from("r2"))]);
    assert_eq!(step.next, Request::Stop);
    assert_eq!(app.state(), SessionState::Closed);
}

#[test]
fn confirm_copies_once_and_finishes_once() {
    let mut app = idle_session(10, true);
    deliver(&mut app, &["a.txt", "b.txt"], 2);
    press(&mut app, 10, "KEY_ENTER");
    let step = app.close();
    assert_eq!(
        step.signals,
        vec![
            Signal::Finished,
            Signal::Copy(String::from("a.txt")),
            Signal::Print(String::from("a.txt")),
        ]
    );
    let again = app.close();
    assert_eq!(again.commands, vec![]);
    assert_eq!(again.signals, vec![]);
    assert_eq!(again.next, Request::Stop);
    assert_eq!(app.state(), SessionState::Closed);
}

#[test]
fn copy_and_exit_copies_the_selected_item() {
    let mut app = idle_session(10, false);
    deliver(&mut app, &["a.txt", "b.txt"], 2);
    press(&mut app, 259, "^J");
    let step = press(&mut app, 25, "^Y");
    assert_eq!(step.next, Request::PollSnapshot);
    assert_eq!(app.state(), SessionState::Terminating(ExitReason::CopyAndExit));
    let step = app.close();
    assert_eq!(step.signals, vec![Signal::Finished, Signal::Copy(String::from("b.txt"))]);
}

#[test]
fn cancel_never_copies() {
    let mut app = idle_session(10, false);
    deliver(&mut app, &["a.txt", "b.txt"], 2);
    let step = press(&mut app, 3, "^C");
    assert_eq!(step.next, Request::PollSnapshot);
    assert_eq!(app.state(), SessionState::Terminating(ExitReason::UserCancel));
    let step = app.close();
    assert_eq!(step.commands, vec![Command::EndWindow]);
    assert_eq!(step.signals, vec![Signal::Finished]);

    let mut app = idle_session(10, true);
    deliver(&mut app, &["a.txt", "b.txt"], 2);
    press(&mut app, 27, "^[");
    let step = app.close();
    assert_eq!(step.signals, vec![Signal::Finished, Signal::Print(String::from("a.txt"))]);
}

#[test]
fn confirm_without_a_selected_item_only_finishes() {
    let mut app = idle_session(10, true);
    press(&mut app, 13, "^M");
    let step = app.close();
    assert_eq!(step.commands, vec![Command::EndWindow]);
    assert_eq!(step.signals, vec![Signal::Finished]);
}

#[test]
fn a_terminal_that_cannot_be_read_cancels_the_session() {
    let mut app = idle_session(10, true);
    deliver(&mut app, &["a.txt"], 1);
    let step = app.step(Event::InputFailed);
    assert_eq!(step.next, Request::Stop);
    assert_eq!(step.signals, vec![]);
    assert_eq!(app.state(), SessionState::Terminating(ExitReason::UserCancel));
    let mut app = idle_session(10, false);
    deliver(&mut app, &["a.txt"], 1);
    app.step(Event::InputFailed);
    let step = app.close();
    assert_eq!(step.signals, vec![Signal::Finished]);
}

#[test]
fn a_session_on_its_way_out_takes_no_more_events() {
    let mut app = idle_session(10, true);
    deliver(&mut app, &["a.txt", "b.txt"], 2);
    press(&mut app, 13, "^M");
    let step = app.step(key(97, "a"));
    assert_eq!(step.next, Request::Stop);
    assert_eq!(step.signals, vec![]);
    assert_eq!(step.commands, vec![]);
    let step = app.step(snapshot(&["z.txt"], 1));
    assert_eq!(step.next, Request::Stop);
    assert_eq!(step.commands, vec![]);
    let step = app.step(Event::InputFailed);
    assert_eq!(step.next, Request::Stop);
    assert_eq!(app.state(), SessionState::Terminating(ExitReason::UserConfirm));
    assert_eq!(app.filter_string(), "");
    assert_eq!(app.selected_result(), Some(String::from("a.txt")));
    app.close();
    let step = app.step(key(97, "a"));
    assert_eq!(step.next, Request::Stop);
    assert_eq!(app.state(), SessionState::Closed);
    let step = app.start();
    assert_eq!(step.commands, vec![]);
    assert_eq!(step.next, Request::Stop);
}

#[test]
fn closing_a_running_session_does_nothing() {
    let mut app = idle_session(10, true);
    let step = app.close();
    assert_eq!(step.commands, vec![]);
    assert_eq!(step.signals, vec![]);
    assert_eq!(step.next, Request::ReadKey);
    assert_eq!(app.state(), SessionState::Running);
}

#[test]
fn a_key_that_means_nothing_changes_nothing() {
    let mut app = idle_session(10, true);
    deliver(&mut app, &["a.txt"], 1);
    let step = press(&mut app, 1, "^A");
    assert_eq!(step.signals, vec![]);
    assert_eq!(step.commands, vec![]);
    assert_eq!(step.next, Request::PollSnapshot);
    assert_eq!(app.state(), SessionState::Running);
}

#[test]
fn select_next_stops_on_the_last_row_and_previous_on_the_first() {
    let mut app = idle_session(10, true);
    deliver(&mut app, &["r0", "r1", "r2"], 3);
    let mut moves = 0;
    while !press(&mut app, 258, "KEY_DOWN").commands.is_empty() {
        moves += 1;
    }
    assert_eq!(moves, 2);
    assert_eq!(app.selected_result(), Some(String::from("r2")));
    let mut moves = 0;
    while !press(&mut app, 259, "KEY_UP").commands.is_empty() {
        moves += 1;
    }
    assert_eq!(moves, 2);
    assert_eq!(app.selected_result(), Some(String::from("r0")));
}

#[test]
fn a_snapshot_with_the_same_rows_redraws_only_the_stats_line() {
    let mut app = idle_session(5, true);
    press(&mut app, 97, "a");
    deliver(&mut app, &["a.txt", "ab.txt", "abc.txt", "abcd.txt"], 40);
    let step = deliver(&mut app, &["a.txt", "ab.txt", "abc.txt"], 41);
    assert_eq!(
        step.commands,
        vec![
            Command::MoveCursor { row: 3, column: 0 },
            Command::ClearToEndOfLine,
            Command::Unbold,
            Command::NormalBackground,
            Command::Print(String::from("3/41")),
            Command::MoveCursor { row: 4, column: 1 },
        ]
    );
    assert_eq!(step.signals, vec![]);
}

#[test]
fn a_poll_without_a_key_is_no_key() {
    assert!(matches!(Event::from_poll(-1, String::new()), Event::NoKey));
    match Event::from_poll(97, String::from("a")) {
        Event::Key { character, key } => {
            assert_eq!(character, 97);
            assert_eq!(key, "a");
        }
        other => panic!("{:?}", other),
    }
}

#[test]
fn a_read_without_a_key_is_a_failure() {
    assert!(matches!(Event::from_read(-1, String::new()), Event::InputFailed));
    match Event::from_read(263, String::from("KEY_BACKSPACE")) {
        Event::Key { character, key } => {
            assert_eq!(character, 263);
            assert_eq!(key, "KEY_BACKSPACE");
        }
        other => panic!("{:?}", other),
    }
}

/// Runs a session to its end on scripted answers, as a program around the
/// library would, and returns every signal sent and every text printed to
/// the terminal.
fn run_scripted(
    app: &mut App,
    mut busy: Vec<bool>,
    mut keys: Vec<(i32, &str)>,
    mut snapshots: Vec<Option<Event>>,
) -> (Vec<Signal>, Vec<Request>) {
    busy.reverse();
    keys.reverse();
    snapshots.reverse();
    let mut signals = Vec::new();
    let mut asked = Vec::new();
    let mut step = app.start();
    loop {
        signals.extend(step.signals);
        asked.push(step.next);
        let event = match step.next {
            Request::EngineStatus => Event::EngineStatus { busy: busy.pop().unwrap_or(false) },
            Request::PollKey => match keys.pop() {
                Some((character, name)) => Event::from_poll(character, String::from(name)),
                None => Event::from_poll(-1, String::new()),
            },
            Request::ReadKey => match keys.pop() {
                Some((character, name)) => Event::from_read(character, String::from(name)),
                None => Event::from_read(-1, String::new()),
            },
            Request::PollSnapshot => match snapshots.pop() {
                Some(Some(event)) => event,
                _ => Event::NoSnapshot,
            },
            Request::Stop => break,
        };
        step = app.step(event);
    }
    let last = app.close();
    signals.extend(last.signals);
    (signals, asked)
}

#[test]
fn a_scripted_session_runs_to_its_end() {
    let mut app = App::new(80, 6, true);
    let (signals, asked) = run_scripted(
        &mut app,
        vec![true, true, false, false],
        vec![(97, "a"), (-1, ""), (258, "KEY_DOWN"), (13, "^M")],
        vec![Some(snapshot(&["a.rs", "ab.rs", "abc.rs"], 12))],
    );
    assert_eq!(
        asked,
        vec![
            Request::EngineStatus,
            Request::PollKey,
            Request::EngineStatus,
            Request::PollKey,
            Request::PollSnapshot,
            Request::EngineStatus,
            Request::ReadKey,
            Request::PollSnapshot,
            Request::EngineStatus,
            Request::ReadKey,
            Request::PollSnapshot,
            Request::Stop,
        ]
    );
    assert_eq!(
        signals,
        vec![
            changed("a"),
            Signal::Finished,
            Signal::Copy(String::from("ab.rs")),
            Signal::Print(String::from("ab.rs")),
        ]
    );
    assert_eq!(app.state(), SessionState::Closed);
}

#[test]
fn a_session_whose_terminal_fails_ends_without_a_copy() {
    let mut app = App::new(80, 6, false);
    let (signals, asked) = run_scripted(&mut app, vec![false], vec![], vec![]);
    assert_eq!(asked, vec![Request::EngineStatus, Request::ReadKey, Request::Stop]);
    assert_eq!(signals, vec![Signal::Finished]);
    assert_eq!(app.state(), SessionState::Closed);
}

#[test]
fn on_a_busy_engine_a_key_that_ends_the_session_stops_the_loop_at_once() {
    let mut app = App::new(80, 10, false);
    app.start();
    assert_eq!(app.step(Event::EngineStatus { busy: true }).next, Request::PollKey);
    let step = app.step(key(3, "^C"));
    assert_eq!(step.next, Request::Stop);
    assert_eq!(app.state(), SessionState::Terminating(ExitReason::UserCancel));
    let step = app.step(snapshot(&["a.txt"], 1));
    assert_eq!(step.next, Request::Stop);
    assert_eq!(step.commands, vec![]);
    assert_eq!(app.selected_result(), None);
}

#[test]
fn on_an_idle_engine_the_waiting_snapshot_is_taken_before_the_loop_stops() {
    let mut app = idle_session(10, false);
    deliver(&mut app, &["a.txt", "b.txt"], 2);
    let step = app.step(key(13, "^M"));
    assert_eq!(step.next, Request::PollSnapshot);
    let step = app.step(snapshot(&["z.txt"], 9));
    assert_eq!(step.next, Request::Stop);
    assert!(step.commands.contains(&Command::Print(String::from("1/9"))));
    assert_eq!(app.state(), SessionState::Terminating(ExitReason::UserConfirm));
    let step = app.close();
    assert_eq!(step.signals, vec![Signal::Finished, Signal::Copy(String::from("z.txt"))]);
}

#[test]
fn a_session_on_its_way_out_can_be_closed_before_it_looked_for_a_snapshot() {
    let mut app = idle_session(10, false);
    deliver(&mut app, &["a.txt"], 1);
    let step = app.step(key(13, "^M"));
    assert_eq!(step.next, Request::PollSnapshot);
    let step = app.close();
    assert_eq!(step.next, Request::Stop);
    assert_eq!(step.signals, vec![Signal::Finished, Signal::Copy(String::from("a.txt"))]);
    assert_eq!(app.state(), SessionState::Closed);
    let step = app.step(snapshot(&["z.txt"], 9));
    assert_eq!(step.next, Request::Stop);
    assert_eq!(step.commands, vec![]);
}
