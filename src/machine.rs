use vstd::prelude::*;
use crate::error::DpkError;
use crate::list::{next_cursor, previous_cursor};
use crate::round::recorded;
use crate::session::{
    App, InputMode, MAX_PLAYERS, MenuItem, SCORE_MARGIN, committed, has_name, names_of,
    main_menu, event_menu, totals_in_range,
};

verus! {

/// A keystroke, as far as the session tells keys apart.
#[derive(Clone, Copy, Debug, PartialEq, Eq)]
pub enum Key {
    Char(char),
    Enter,
    Esc,
    Backspace,
    Up,
    Down,
    Other,
}

/// What the driving loop does after a keystroke.
#[derive(Clone, Copy, Debug, PartialEq, Eq)]
pub enum Action {
    Continue,
    Quit,
}

/// Relies on `String::push`: appends the character.
#[verifier::external_body]
fn push_char(s: &mut String, c: char)
    ensures
        final(s)@ == old(s)@.push(c),
{
    s.push(c)
}

/// Relies on `String::pop`: removes and returns the last character, or
/// returns `None` and leaves an empty string alone.
#[verifier::external_body]
fn pop_char(s: &mut String) -> (r: Option<char>)
    ensures
        old(s)@.len() == 0 ==> r is None && final(s)@ == old(s)@,
        old(s)@.len() > 0 ==> r == Some(old(s)@.last()) && final(s)@ == old(s)@.drop_last(),
{
    s.pop()
}

/// The main-menu entry under the cursor.
pub open spec fn menu_choice(a: App) -> Option<MenuItem> {
    match a.main_menu_list.selected {
        Some(i) => if i < main_menu().len() { Some(main_menu()[i as int]) } else { None },
        None => None,
    }
}

/// Whether a round can be closed without leaving `i64` or the counter's range.
pub open spec fn commit_fits(a: App) -> bool {
    totals_in_range(a.players@) && a.round.counter < u64::MAX
}

/// Whether the keystroke ends the session.
pub open spec fn quits(a: App, key: Key) -> bool {
    ||| a.input_mode != InputMode::AddPlayer && key == Key::Char('q')
    ||| a.input_mode == InputMode::Browse && key == Key::Enter && menu_choice(a) == Some(MenuItem::Exit)
}

/// `b` is `a` with only the mode changed to `m`.
pub open spec fn switched(a: App, m: InputMode, b: App) -> bool {
    b == App { input_mode: m, ..a }
}

/// Player entry: typing edits the text, Esc leaves for browsing, Enter adds
/// the player; a full roster sends the session to browsing.
pub open spec fn add_player_step(a: App, key: Key, b: App) -> bool {
    match key {
        Key::Char(c) => b == App { input: b.input, ..a } && b.input@ == a.input@.push(c),
        Key::Backspace => b == App { input: b.input, ..a }
            && b.input@ == (if a.input@.len() > 0 { a.input@.drop_last() } else { a.input@ }),
        Key::Esc => switched(a, InputMode::Browse, b),
        Key::Enter => if a.players@.len() >= MAX_PLAYERS {
            switched(a, InputMode::Browse, b)
        } else if a.input@.len() == 0 || has_name(a.players@, a.input@) {
            b == a
        } else {
            &&& b.input_mode == InputMode::AddPlayer
            &&& b.players@.len() == a.players@.len() + 1
            &&& b.players@.take(a.players@.len() as int) == a.players@
            &&& b.players@.last().name@ == a.input@
            &&& b.players@.last().total_score == 0
            &&& b.players@.last().past_scores@.len() == 0
            &&& b.input@.len() == 0
            &&& b.player_list.selected is None
            &&& b.round == a.round
            &&& b.active_player == a.active_player
        },
        _ => b == a,
    }
}

/// Browsing: arrows move the menu cursor, `a` opens player entry, Enter
/// runs the menu entry under the cursor.
pub open spec fn browse_step(a: App, key: Key, b: App) -> bool {
    match key {
        Key::Up => b == App { main_menu_list: b.main_menu_list, ..a }
            && b.main_menu_list.items == a.main_menu_list.items
            && b.main_menu_list.selected == previous_cursor(a.main_menu_list.selected, main_menu().len()),
        Key::Down => b == App { main_menu_list: b.main_menu_list, ..a }
            && b.main_menu_list.items == a.main_menu_list.items
            && b.main_menu_list.selected == next_cursor(a.main_menu_list.selected, main_menu().len()),
        Key::Char('a') => switched(a, InputMode::AddPlayer, b),
        Key::Enter => match menu_choice(a) {
            Some(MenuItem::NewRound) => switched(a, InputMode::SelectPlayer, b),
            Some(MenuItem::ScoreRound) => if a.players@.len() == MAX_PLAYERS && commit_fits(a) {
                committed(a, b)
            } else {
                b == a
            },
            _ => b == a,
        },
        _ => b == a,
    }
}

/// Picking a player: arrows move the player cursor, Enter makes the player
/// under it the one whose events are entered next, Esc goes back.
pub open spec fn select_player_step(a: App, key: Key, b: App) -> bool {
    match key {
        Key::Up => b == App { player_list: b.player_list, ..a }
            && b.player_list.items == a.player_list.items
            && b.player_list.selected == previous_cursor(a.player_list.selected, a.players@.len()),
        Key::Down => b == App { player_list: b.player_list, ..a }
            && b.player_list.items == a.player_list.items
            && b.player_list.selected == next_cursor(a.player_list.selected, a.players@.len()),
        Key::Char('a') => switched(a, InputMode::AddPlayer, b),
        Key::Esc => switched(a, InputMode::Browse, b),
        Key::Enter => match a.player_list.selected {
            Some(i) => b == App { input_mode: InputMode::SelectGameEvent, active_player: Some(i), ..a },
            None => b == a,
        },
        _ => b == a,
    }
}

/// Picking an event: arrows move the event cursor, Enter records the event
/// under it for the active player and goes back to picking a player, Esc
/// goes back without recording.
pub open spec fn select_event_step(a: App, key: Key, b: App) -> bool {
    match key {
        Key::Up => b == App { game_event_list: b.game_event_list, ..a }
            && b.game_event_list.items == a.game_event_list.items
            && b.game_event_list.selected == previous_cursor(a.game_event_list.selected, event_menu().len()),
        Key::Down => b == App { game_event_list: b.game_event_list, ..a }
            && b.game_event_list.items == a.game_event_list.items
            && b.game_event_list.selected == next_cursor(a.game_event_list.selected, event_menu().len()),
        Key::Esc => switched(a, InputMode::SelectPlayer, b),
        Key::Enter => match (a.game_event_list.selected, a.active_player) {
            (Some(e), Some(k)) => {
                &&& b == App { round: b.round, input_mode: InputMode::SelectPlayer, ..a }
                &&& b.round.counter == a.round.counter
                &&& forall|j: int| 0 <= j < 4 && j != k
                    ==> #[trigger] b.round.player_round_info@[j] == a.round.player_round_info@[j]
                &&& recorded(a.round.player_round_info@[k as int], event_menu()[e as int],
                    b.round.player_round_info@[k as int])
                &&& b.round.player_round_info@[k as int].round_score
                    == a.round.player_round_info@[k as int].round_score
                &&& b.round.player_round_info@[k as int].teammate
                    == a.round.player_round_info@[k as int].teammate
            },
            _ => b == a,
        },
        _ => b == a,
    }
}

/// Committing a name while four players are in is refused: the roster stays
/// as it was and the session is sent to browsing.
pub proof fn lemma_full_roster_forces_browse(a: App, b: App)
    requires
        a.input_mode == InputMode::AddPlayer,
        a.players@.len() >= MAX_PLAYERS,
        add_player_step(a, Key::Enter, b),
    ensures
        b.players == a.players,
        b.round == a.round,
        b.input_mode == InputMode::Browse,
{
}

impl App {
    /// Whether a round can be closed without leaving `i64` or the counter's
    /// range.
    pub fn commit_fits(&self) -> (r: bool)
        ensures
            r == commit_fits(*self),
    {
        if self.round.counter == u64::MAX {
            return false;
        }
        let mut i: usize = 0;
        while i < self.players.len()
            invariant
                i <= self.players@.len(),
                forall|j: int| 0 <= j < i ==> i64::MIN + SCORE_MARGIN <= (#[trigger] self.players@[j]).total_score
                    <= i64::MAX - SCORE_MARGIN,
            decreases self.players@.len() - i,
        {
            let t = self.players[i].total_score;
            if t < i64::MIN + SCORE_MARGIN || t > i64::MAX - SCORE_MARGIN {
                return false;
            }
            i = i + 1;
        }
        true
    }

    /// Applies one keystroke to the session and says whether it goes on.
    pub fn handle_key(&mut self, key: Key) -> (r: Action)
        requires
            old(self).wf(),
        ensures
            final(self).wf(),
            r == Action::Quit <==> quits(*old(self), key),
            old(self).input_mode == InputMode::AddPlayer ==> add_player_step(*old(self), key, *final(self)),
            old(self).input_mode == InputMode::Browse ==> browse_step(*old(self), key, *final(self)),
            old(self).input_mode == InputMode::SelectPlayer
                ==> select_player_step(*old(self), key, *final(self)),
            old(self).input_mode == InputMode::SelectGameEvent
                ==> select_event_step(*old(self), key, *final(self)),
    {
        match self.input_mode {
            InputMode::AddPlayer => self.add_player_key(key),
            InputMode::Browse => self.browse_key(key),
            InputMode::SelectPlayer => self.select_player_key(key),
            InputMode::SelectGameEvent => self.select_event_key(key),
        }
    }

    fn add_player_key(&mut self, key: Key) -> (r: Action)
        requires
            old(self).wf(),
            old(self).input_mode == InputMode::AddPlayer,
        ensures
            final(self).wf(),
            r == Action::Continue,
            add_player_step(*old(self), key, *final(self)),
    {
        match key {
            Key::Char(c) => push_char(&mut self.input, c),
            Key::Backspace => {
                let _ = pop_char(&mut self.input);
            },
            Key::Esc => self.input_mode = InputMode::Browse,
            Key::Enter => {
                match self.add_player() {
                    Err(DpkError::RosterFull) => self.input_mode = InputMode::Browse,
                    _ => {},
                }
            },
            _ => {},
        }
        Action::Continue
    }

    fn browse_key(&mut self, key: Key) -> (r: Action)
        requires
            old(self).wf(),
            old(self).input_mode == InputMode::Browse,
        ensures
            final(self).wf(),
            r == Action::Quit <==> quits(*old(self), key),
            browse_step(*old(self), key, *final(self)),
    {
        match key {
            Key::Up => self.main_menu_list.previous(),
            Key::Down => self.main_menu_list.next(),
            Key::Char('q') => return Action::Quit,
            Key::Char('a') => self.input_mode = InputMode::AddPlayer,
            Key::Enter => {
                match self.main_menu_list.current_item() {
                    Ok(MenuItem::NewRound) => self.input_mode = InputMode::SelectPlayer,
                    Ok(MenuItem::ScoreRound) => {
                        if self.players.len() == MAX_PLAYERS && self.commit_fits() {
                            let _ = self.commit_round();
                        }
                    },
                    Ok(MenuItem::Exit) => return Action::Quit,
                    _ => {},
                }
            },
            _ => {},
        }
        Action::Continue
    }

    fn select_player_key(&mut self, key: Key) -> (r: Action)
        requires
            old(self).wf(),
            old(self).input_mode == InputMode::SelectPlayer,
        ensures
            final(self).wf(),
            r == Action::Quit <==> quits(*old(self), key),
            select_player_step(*old(self), key, *final(self)),
    {
        proof {
            assert(self.player_list.items@.map_values(|s: String| s@).len() == self.player_list.items@.len());
            assert(names_of(self.players@).len() == self.players@.len());
        }
        match key {
            Key::Up => self.player_list.previous(),
            Key::Down => self.player_list.next(),
            Key::Char('q') => return Action::Quit,
            Key::Char('a') => self.input_mode = InputMode::AddPlayer,
            Key::Esc => self.input_mode = InputMode::Browse,
            Key::Enter => {
                if let Some(i) = self.player_list.selected {
                    self.active_player = Some(i);
                    self.input_mode = InputMode::SelectGameEvent;
                }
            },
            _ => {},
        }
        Action::Continue
    }

    fn select_event_key(&mut self, key: Key) -> (r: Action)
        requires
            old(self).wf(),
            old(self).input_mode == InputMode::SelectGameEvent,
        ensures
            final(self).wf(),
            r == Action::Quit <==> quits(*old(self), key),
            select_event_step(*old(self), key, *final(self)),
    {
        match key {
            Key::Up => self.game_event_list.previous(),
            Key::Down => self.game_event_list.next(),
            Key::Char('q') => return Action::Quit,
            Key::Esc => self.input_mode = InputMode::SelectPlayer,
            Key::Enter => {
                match (self.game_event_list.current_item(), self.active_player) {
                    (Ok(e), Some(k)) => {
                        let event = *e;
                        self.round.player_round_info[k].record_event(event);
                        self.input_mode = InputMode::SelectPlayer;
                    },
                    _ => {},
                }
            },
            _ => {},
        }
        Action::Continue
    }
}

} // verus!
