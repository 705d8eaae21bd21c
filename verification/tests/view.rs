use fuzz::curses::{Command, Curses};
use fuzz::view::{MatchSnapshot, View};

fn snapshot(items: &[&str], total: usize) -> MatchSnapshot {
    MatchSnapshot {
        ordered_items: items.iter().map(|item| String::from(*item)).collect(),
        total_candidates: total,
    }
}

fn view_of_height(height: i32) -> View {
    View::new(Curses::new(80, height))
}

fn mv(row: i32, column: i32) -> Command {
    Command::MoveCursor { row, column }
}

fn print(text: &str) -> Command {
    Command::Print(String::from(text))
}

fn cleared(rows: i32) -> Vec<Command> {
    let mut commands = Vec::new();
    for row in 0..rows {
        commands.push(mv(row, 0));
        commands.push(Command::ClearToEndOfLine);
    }
    commands
}

fn rendered(row: i32, text: &str) -> Vec<Command> {
    vec![
        mv(row, 0),
        Command::Unbold,
        Command::NormalBackground,
        Command::ClearToEndOfLine,
        print(text),
    ]
}

fn highlighted(row: i32, background: Command, text: &str) -> Vec<Command> {
    vec![mv(row, 0), background, Command::ClearToEndOfLine, print(text)]
}

fn stats(row: i32, text: &str) -> Vec<Command> {
    vec![
        mv(row, 0),
        Command::ClearToEndOfLine,
        Command::Unbold,
        Command::NormalBackground,
        print(text),
    ]
}

#[test]
fn a_new_view_has_nothing_selected_and_nothing_queued() {
    let mut view = view_of_height(5);
    assert_eq!(view.get_selected_result(), None);
    assert_eq!(view.drain(), vec![]);
}

#[test]
fn a_new_view_keeps_what_its_terminal_had_queued() {
    let mut curses = Curses::new(80, 5);
    curses.bold();
    let mut view = View::new(curses);
    assert_eq!(view.drain(), vec![Command::Bold]);
}

#[test]
fn first_snapshot_fills_the_rows_from_the_prompt_upward() {
    let mut view = view_of_height(5);
    view.update_results(snapshot(&["a.txt", "b.txt", "c.txt", "d.txt"], 40), &String::new());
    let mut expected = cleared(3);
    expected.extend(rendered(2, "a.txt"));
    expected.extend(rendered(1, "b.txt"));
    expected.extend(rendered(0, "c.txt"));
    expected.extend(highlighted(2, Command::SelectedBackground, "a.txt"));
    expected.extend(stats(3, "4/40"));
    expected.push(mv(4, 0));
    assert_eq!(view.drain(), expected);
    assert_eq!(view.get_selected_result(), Some(String::from("a.txt")));
}

#[test]
fn the_cursor_goes_behind_the_filter_string() {
    let mut view = view_of_height(5);
    view.update_results(snapshot(&[], 7), &String::from("abc"));
    let mut expected = stats(3, "0/7");
    expected.push(mv(4, 3));
    assert_eq!(view.drain(), expected);
    view.set_cursor_to_filter_input(&String::from("héllo"));
    assert_eq!(view.drain(), vec![mv(4, 5)]);
}

#[test]
fn same_visible_prefix_redraws_only_the_stats_line() {
    let mut view = view_of_height(5);
    view.update_results(snapshot(&["a.txt", "b.txt", "c.txt", "d.txt"], 40), &String::new());
    view.drain();
    view.update_results(snapshot(&["a.txt", "b.txt", "c.txt", "e.txt", "f.txt"], 50), &String::from("x"));
    let mut expected = stats(3, "5/50");
    expected.push(mv(4, 1));
    assert_eq!(view.drain(), expected);
    assert_eq!(view.get_selected_result(), Some(String::from("a.txt")));
}

#[test]
fn a_changed_prefix_redraws_the_rows() {
    let mut view = view_of_height(5);
    view.update_results(snapshot(&["a.txt", "b.txt", "c.txt"], 40), &String::new());
    view.drain();
    view.update_results(snapshot(&["a.txt", "x.txt"], 40), &String::new());
    let mut expected = cleared(3);
    expected.extend(rendered(2, "a.txt"));
    expected.extend(rendered(1, "x.txt"));
    expected.extend(highlighted(2, Command::SelectedBackground, "a.txt"));
    expected.extend(stats(3, "2/40"));
    expected.push(mv(4, 0));
    assert_eq!(view.drain(), expected);
}

#[test]
fn a_shorter_prefix_of_the_same_items_counts_as_changed() {
    let mut view = view_of_height(5);
    view.update_results(snapshot(&["a.txt", "b.txt"], 9), &String::new());
    view.drain();
    view.update_results(snapshot(&["a.txt"], 9), &String::new());
    let mut expected = cleared(3);
    expected.extend(rendered(2, "a.txt"));
    expected.extend(highlighted(2, Command::SelectedBackground, "a.txt"));
    expected.extend(stats(3, "1/9"));
    expected.push(mv(4, 0));
    assert_eq!(view.drain(), expected);
}

#[test]
fn moving_down_steps_away_from_the_prompt() {
    let mut view = view_of_height(5);
    view.update_results(snapshot(&["a.txt", "b.txt", "c.txt"], 3), &String::new());
    view.drain();
    view.move_selected_down();
    let mut expected = highlighted(2, Command::NormalBackground, "a.txt");
    expected.extend(highlighted(1, Command::SelectedBackground, "b.txt"));
    assert_eq!(view.drain(), expected);
    assert_eq!(view.get_selected_result(), Some(String::from("b.txt")));
}

#[test]
fn moving_up_steps_towards_the_prompt() {
    let mut view = view_of_height(5);
    view.update_results(snapshot(&["a.txt", "b.txt", "c.txt"], 3), &String::new());
    view.move_selected_down();
    view.move_selected_down();
    view.drain();
    view.move_selected_up();
    let mut expected = highlighted(0, Command::NormalBackground, "c.txt");
    expected.extend(highlighted(1, Command::SelectedBackground, "b.txt"));
    assert_eq!(view.drain(), expected);
    assert_eq!(view.get_selected_result(), Some(String::from("b.txt")));
}

#[test]
fn moving_down_stops_on_the_last_drawn_row() {
    let mut view = view_of_height(7);
    view.update_results(snapshot(&["a", "b", "c"], 3), &String::new());
    view.move_selected_down();
    view.move_selected_down();
    assert_eq!(view.get_selected_result(), Some(String::from("c")));
    view.drain();
    view.move_selected_down();
    assert_eq!(view.drain(), vec![]);
    assert_eq!(view.get_selected_result(), Some(String::from("c")));
}

#[test]
fn moving_down_stops_at_the_end_of_the_viewport() {
    let mut view = view_of_height(4);
    view.update_results(snapshot(&["a", "b", "c"], 3), &String::new());
    view.move_selected_down();
    assert_eq!(view.get_selected_result(), Some(String::from("b")));
    view.move_selected_down();
    assert_eq!(view.get_selected_result(), Some(String::from("b")));
}

#[test]
fn moving_up_stops_on_the_row_nearest_the_prompt() {
    let mut view = view_of_height(5);
    view.update_results(snapshot(&["a", "b", "c"], 3), &String::new());
    view.move_selected_down();
    view.move_selected_up();
    assert_eq!(view.get_selected_result(), Some(String::from("a")));
    view.drain();
    view.move_selected_up();
    assert_eq!(view.drain(), vec![]);
    assert_eq!(view.get_selected_result(), Some(String::from("a")));
}

#[test]
fn moves_on_an_empty_view_do_nothing() {
    let mut view = view_of_height(5);
    view.move_selected_down();
    view.move_selected_up();
    assert_eq!(view.drain(), vec![]);
    assert_eq!(view.get_selected_result(), None);
    view.update_results(snapshot(&[], 0), &String::new());
    view.drain();
    view.move_selected_down();
    view.move_selected_up();
    assert_eq!(view.drain(), vec![]);
    assert_eq!(view.get_selected_result(), None);
}

#[test]
fn a_selection_that_still_has_an_item_stays() {
    let mut view = view_of_height(6);
    view.update_results(snapshot(&["a", "b", "c", "d"], 4), &String::new());
    view.move_selected_down();
    view.drain();
    view.update_results(snapshot(&["x", "y"], 4), &String::new());
    assert_eq!(view.get_selected_result(), Some(String::from("y")));
    let mut expected = cleared(4);
    expected.extend(rendered(3, "x"));
    expected.extend(rendered(2, "y"));
    expected.extend(highlighted(2, Command::SelectedBackground, "y"));
    expected.extend(stats(4, "2/4"));
    expected.push(mv(5, 0));
    assert_eq!(view.drain(), expected);
}

#[test]
fn a_selection_without_an_item_goes_back_to_the_prompt() {
    let mut view = view_of_height(6);
    view.update_results(snapshot(&["a", "b", "c", "d"], 4), &String::new());
    view.move_selected_down();
    view.move_selected_down();
    view.move_selected_down();
    assert_eq!(view.get_selected_result(), Some(String::from("d")));
    view.drain();
    view.update_results(snapshot(&["x", "y"], 4), &String::new());
    assert_eq!(view.get_selected_result(), Some(String::from("x")));
    let mut expected = cleared(4);
    expected.extend(rendered(3, "x"));
    expected.extend(rendered(2, "y"));
    expected.extend(highlighted(3, Command::SelectedBackground, "x"));
    expected.extend(stats(4, "2/4"));
    expected.push(mv(5, 0));
    assert_eq!(view.drain(), expected);
}

#[test]
fn an_empty_snapshot_clears_the_rows_and_selects_nothing() {
    let mut view = view_of_height(5);
    view.update_results(snapshot(&["a", "b"], 2), &String::new());
    view.drain();
    view.update_results(snapshot(&[], 2), &String::new());
    let mut expected = cleared(3);
    expected.extend(stats(3, "0/2"));
    expected.push(mv(4, 0));
    assert_eq!(view.drain(), expected);
    assert_eq!(view.get_selected_result(), None);
}

#[test]
fn select_first_result_moves_the_highlight_back() {
    let mut view = view_of_height(5);
    view.update_results(snapshot(&["a", "b", "c"], 3), &String::new());
    view.move_selected_down();
    view.move_selected_down();
    view.drain();
    view.select_first_result();
    let mut expected = highlighted(0, Command::NormalBackground, "c");
    expected.extend(highlighted(2, Command::SelectedBackground, "a"));
    assert_eq!(view.drain(), expected);
    assert_eq!(view.get_selected_result(), Some(String::from("a")));
    view.select_first_result();
    assert_eq!(view.drain(), vec![]);
}

#[test]
fn select_first_result_on_an_empty_view_draws_nothing() {
    let mut view = view_of_height(5);
    view.select_first_result();
    assert_eq!(view.drain(), vec![]);
    assert_eq!(view.get_selected_result(), None);
}

#[test]
fn the_filter_string_is_written_in_bold_into_the_prompt_row() {
    let mut view = view_of_height(5);
    view.update_filter_string(&String::from("ab"));
    assert_eq!(
        view.drain(),
        vec![mv(4, 0), Command::Bold, Command::ClearToEndOfLine, print("ab")]
    );
}

#[test]
fn a_terminal_too_small_for_results_shows_none() {
    let mut view = view_of_height(2);
    view.update_results(snapshot(&["a", "b"], 2), &String::new());
    let mut expected = stats(0, "2/2");
    expected.push(mv(1, 0));
    assert_eq!(view.drain(), expected);
    assert_eq!(view.get_selected_result(), None);
    let mut view = view_of_height(0);
    view.update_results(snapshot(&["a"], 1), &String::new());
    let mut expected = stats(-2, "1/1");
    expected.push(mv(-1, 0));
    assert_eq!(view.drain(), expected);
    assert_eq!(view.get_selected_result(), None);
}

#[test]
fn close_queues_the_end_of_the_window() {
    let mut view = view_of_height(5);
    view.close();
    assert_eq!(view.drain(), vec![Command::EndWindow]);
}
