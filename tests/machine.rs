use doko_score::machine::{Action, Key};
use doko_score::session::{App, InputMode};

fn enter_name(app: &mut App, name: &str) {
    for c in name.chars() {
        assert_eq!(app.handle_key(Key::Char(c)), Action::Continue);
    }
    assert_eq!(app.handle_key(Key::Enter), Action::Continue);
}

fn full_table() -> App {
    let mut app = App::new();
    for n in ["Ada", "Bo", "Cy", "Di"] {
        enter_name(&mut app, n);
    }
    app
}

#[test]
fn typing_edits_the_text() {
    let mut app = App::new();
    app.handle_key(Key::Char('A'));
    app.handle_key(Key::Char('q'));
    app.handle_key(Key::Char('x'));
    assert_eq!(app.input, "Aqx");
    app.handle_key(Key::Backspace);
    assert_eq!(app.input, "Aq");
    app.handle_key(Key::Backspace);
    app.handle_key(Key::Backspace);
    app.handle_key(Key::Backspace);
    assert_eq!(app.input, "");
    assert_eq!(app.input_mode, InputMode::AddPlayer);
}

#[test]
fn enter_adds_the_typed_player() {
    let mut app = App::new();
    enter_name(&mut app, "Ada");
    assert_eq!(app.players.len(), 1);
    assert_eq!(app.players[0].name, "Ada");
    assert_eq!(app.input, "");
    assert_eq!(app.input_mode, InputMode::AddPlayer);
    assert_eq!(app.player_list.items, vec![String::from("Ada")]);
}

#[test]
fn enter_with_a_duplicate_keeps_the_text() {
    let mut app = App::new();
    enter_name(&mut app, "Ada");
    enter_name(&mut app, "Ada");
    assert_eq!(app.players.len(), 1);
    assert_eq!(app.input, "Ada");
    assert_eq!(app.input_mode, InputMode::AddPlayer);
}

#[test]
fn full_roster_forces_browse() {
    let mut app = full_table();
    assert_eq!(app.input_mode, InputMode::AddPlayer);
    enter_name(&mut app, "Ed");
    assert_eq!(app.players.len(), 4);
    assert_eq!(app.input_mode, InputMode::Browse);
    let names: Vec<&str> = app.players.iter().map(|p| p.name.as_str()).collect();
    assert_eq!(names, vec!["Ada", "Bo", "Cy", "Di"]);
}

#[test]
fn esc_leaves_player_entry() {
    let mut app = App::new();
    assert_eq!(app.handle_key(Key::Esc), Action::Continue);
    assert_eq!(app.input_mode, InputMode::Browse);
    app.handle_key(Key::Char('a'));
    assert_eq!(app.input_mode, InputMode::AddPlayer);
}

#[test]
fn q_quits_outside_player_entry() {
    let mut app = App::new();
    app.handle_key(Key::Esc);
    assert_eq!(app.handle_key(Key::Char('q')), Action::Quit);
}

#[test]
fn menu_exit_quits() {
    let mut app = App::new();
    app.handle_key(Key::Esc);
    assert_eq!(app.handle_key(Key::Enter), Action::Continue);
    app.handle_key(Key::Up);
    assert_eq!(app.main_menu_list.selected, Some(3));
    assert_eq!(app.handle_key(Key::Enter), Action::Quit);
}

#[test]
fn unknown_keys_change_nothing() {
    let mut app = App::new();
    app.handle_key(Key::Esc);
    app.handle_key(Key::Other);
    app.handle_key(Key::Backspace);
    assert_eq!(app.input_mode, InputMode::Browse);
    assert_eq!(app.main_menu_list.selected, None);
}

#[test]
fn a_round_is_entered_and_scored_through_keys() {
    let mut app = full_table();
    app.handle_key(Key::Esc);
    app.handle_key(Key::Down);
    assert_eq!(app.handle_key(Key::Enter), Action::Continue);
    assert_eq!(app.input_mode, InputMode::SelectPlayer);
    // no player picked yet: Enter stays
    app.handle_key(Key::Enter);
    assert_eq!(app.input_mode, InputMode::SelectPlayer);
    app.handle_key(Key::Down);
    app.handle_key(Key::Down);
    app.handle_key(Key::Enter);
    assert_eq!(app.input_mode, InputMode::SelectGameEvent);
    assert_eq!(app.active_player, Some(1));
    // no event picked yet: Enter stays
    app.handle_key(Key::Enter);
    assert_eq!(app.input_mode, InputMode::SelectGameEvent);
    app.handle_key(Key::Up);
    app.handle_key(Key::Enter);
    assert_eq!(app.input_mode, InputMode::SelectPlayer);
    assert!(app.round.player_round_info[1].won);
    app.handle_key(Key::Enter);
    app.handle_key(Key::Down);
    app.handle_key(Key::Enter);
    assert_eq!(app.round.player_round_info[1].bids, 1);
    app.handle_key(Key::Esc);
    assert_eq!(app.input_mode, InputMode::Browse);
    app.handle_key(Key::Down);
    assert_eq!(app.main_menu_list.selected, Some(1));
    app.handle_key(Key::Enter);
    assert_eq!(app.round.counter, 1);
    let totals: Vec<i64> = app.players.iter().map(|p| p.total_score).collect();
    assert_eq!(totals, vec![-1, 2, -1, -1]);
}

#[test]
fn score_round_needs_a_full_table() {
    let mut app = App::new();
    enter_name(&mut app, "Ada");
    app.handle_key(Key::Esc);
    app.handle_key(Key::Down);
    app.handle_key(Key::Down);
    app.handle_key(Key::Enter);
    assert_eq!(app.round.counter, 0);
    assert!(app.players[0].past_scores.is_empty());
}

#[test]
fn commit_fits_guards_the_totals() {
    let mut app = full_table();
    assert!(app.commit_fits());
    app.players[2].total_score = i64::MAX;
    assert!(!app.commit_fits());
    app.players[2].total_score = 0;
    app.round.counter = u64::MAX;
    assert!(!app.commit_fits());
}
