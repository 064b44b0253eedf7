use vstd::prelude::*;
use crate::error::DpkError;
use crate::list::{StatefulList, cursor_valid};
use crate::round::{Event, PlayerRoundInfo, Round, is_fresh, score_of};

verus! {

/// Most players a roster holds.
pub const MAX_PLAYERS: usize = 4;

/// Room kept free around each total so that one more round fits in `i64`.
pub const SCORE_MARGIN: i64 = 1024;

/// Entries of the main menu.
#[derive(Clone, Copy, Debug, PartialEq, Eq)]
pub enum MenuItem {
    NewRound,
    ScoreRound,
    ExportData,
    Exit,
}

/// The text under which a menu entry is shown.
pub open spec fn menu_label(m: MenuItem) -> Seq<char> {
    match m {
        MenuItem::NewRound => "New round"@,
        MenuItem::ScoreRound => "Score round"@,
        MenuItem::ExportData => "Export data (NYI)"@,
        MenuItem::Exit => "Exit"@,
    }
}

impl MenuItem {
    /// The text under which the entry is shown.
    pub fn label(&self) -> (r: &'static str)
        ensures
            r@ == menu_label(*self),
    {
        match self {
            MenuItem::NewRound => "New round",
            MenuItem::ScoreRound => "Score round",
            MenuItem::ExportData => "Export data (NYI)",
            MenuItem::Exit => "Exit",
        }
    }
}

/// Which interaction is active.
#[derive(Clone, Copy, Debug, PartialEq, Eq)]
pub enum InputMode {
    AddPlayer,
    Browse,
    SelectPlayer,
    SelectGameEvent,
}

/// A player of the session with the score of every finished round.
pub struct Player {
    pub name: String,
    pub total_score: i64,
    pub past_scores: Vec<i64>,
}

/// The sum of a sequence of scores.
pub open spec fn sum_of(s: Seq<i64>) -> int
    decreases s.len(),
{
    if s.len() == 0 {
        0
    } else {
        sum_of(s.drop_last()) + s.last()
    }
}

/// Appending a score adds it to the sum.
pub proof fn lemma_sum_push(s: Seq<i64>, x: i64)
    ensures
        sum_of(s.push(x)) == sum_of(s) + x,
{
    assert(s.push(x).drop_last() =~= s);
}

/// The names of a roster, in order.
pub open spec fn names_of(players: Seq<Player>) -> Seq<Seq<char>> {
    players.map_values(|p: Player| p.name@)
}

/// Whether some player of the roster is called `name`.
pub open spec fn has_name(players: Seq<Player>, name: Seq<char>) -> bool {
    exists|i: int| 0 <= i < players.len() && (#[trigger] players[i]).name@ == name
}

/// The whole session: roster, open round, pickers and interaction state.
pub struct App {
    pub input_mode: InputMode,
    /// Text typed while adding a player.
    pub input: String,
    pub players: Vec<Player>,
    pub round: Round,
    /// The names of the roster, in roster order.
    pub player_list: StatefulList<String>,
    pub game_event_list: StatefulList<Event>,
    pub main_menu_list: StatefulList<MenuItem>,
    /// The roster index of the player whose events are being entered.
    pub active_player: Option<usize>,
}

/// The events offered for selection, in order.
pub open spec fn event_menu() -> Seq<Event> {
    seq![Event::Bid, Event::Doppelkopf, Event::Fox, Event::Karlchen, Event::KarlchenCaught,
        Event::Re, Event::Contra, Event::Won]
}

/// The main menu, in order.
pub open spec fn main_menu() -> Seq<MenuItem> {
    seq![MenuItem::NewRound, MenuItem::ScoreRound, MenuItem::ExportData, MenuItem::Exit]
}

impl App {
    /// The roster: at most four players with distinct names, each total the
    /// sum of that player's past scores, and the pickers derived from it.
    pub open spec fn wf(&self) -> bool {
        &&& self.players@.len() <= MAX_PLAYERS
        &&& forall|i: int| 0 <= i < self.players@.len()
            ==> (#[trigger] self.players@[i]).total_score == sum_of(self.players@[i].past_scores@)
        &&& forall|i: int, j: int| 0 <= i < j < self.players@.len()
            ==> (#[trigger] self.players@[i]).name@ != (#[trigger] self.players@[j]).name@
        &&& forall|i: int| 0 <= i < self.players@.len()
            ==> (#[trigger] self.players@[i]).name@.len() > 0
        &&& self.player_list.items@.map_values(|s: String| s@) == names_of(self.players@)
        &&& cursor_valid(self.player_list.selected, self.player_list.items@.len())
        &&& self.game_event_list.items@ == event_menu()
        &&& cursor_valid(self.game_event_list.selected, self.game_event_list.items@.len())
        &&& self.main_menu_list.items@ == main_menu()
        &&& cursor_valid(self.main_menu_list.selected, self.main_menu_list.items@.len())
        &&& self.active_player matches Some(k) ==> k < self.players@.len()
    }

    /// A session with no players, round zero, and the player entry open.
    pub fn new() -> (r: App)
        ensures
            r.wf(),
            r.input_mode == InputMode::AddPlayer,
            r.input@.len() == 0,
            r.players@.len() == 0,
            r.round.counter == 0,
            forall|i: int| 0 <= i < 4 ==> is_fresh(#[trigger] r.round.player_round_info@[i]),
            r.player_list.selected is None,
            r.game_event_list.selected is None,
            r.main_menu_list.selected is None,
            r.active_player is None,
    {
        let r = App {
            input_mode: InputMode::AddPlayer,
            input: String::new(),
            players: Vec::new(),
            round: Round::default(),
            player_list: StatefulList::with_items(Vec::new()),
            game_event_list: StatefulList::with_items(vec![Event::Bid, Event::Doppelkopf,
                Event::Fox, Event::Karlchen, Event::KarlchenCaught, Event::Re, Event::Contra,
                Event::Won]),
            main_menu_list: StatefulList::with_items(vec![MenuItem::NewRound,
                MenuItem::ScoreRound, MenuItem::ExportData, MenuItem::Exit]),
            active_player: None,
        };
        assert(r.player_list.items@.map_values(|s: String| s@) =~= names_of(r.players@));
        assert(r.game_event_list.items@ =~= event_menu());
        assert(r.main_menu_list.items@ =~= main_menu());
        r
    }
    /// Whether a player of the roster is called `name`.
    pub fn has_player(&self, name: &String) -> (r: bool)
        ensures
            r == has_name(self.players@, name@),
    {
        let mut i: usize = 0;
        while i < self.players.len()
            invariant
                i <= self.players@.len(),
                forall|j: int| 0 <= j < i ==> (#[trigger] self.players@[j]).name@ != name@,
            decreases self.players@.len() - i,
        {
            if self.players[i].name == *name {
                return true;
            }
            i = i + 1;
        }
        false
    }

    /// Rebuilds the player picker from the roster, with no cursor.
    pub fn update_player_list(&mut self)
        ensures
            final(self).player_list.items@.map_values(|s: String| s@) == names_of(old(self).players@),
            final(self).player_list.selected is None,
            final(self).players == old(self).players,
            final(self).input == old(self).input,
            final(self).input_mode == old(self).input_mode,
            final(self).round == old(self).round,
            final(self).game_event_list == old(self).game_event_list,
            final(self).main_menu_list == old(self).main_menu_list,
            final(self).active_player == old(self).active_player,
    {
        let mut names: Vec<String> = Vec::new();
        let mut i: usize = 0;
        while i < self.players.len()
            invariant
                i <= self.players@.len(),
                names@.len() == i,
                forall|j: int| 0 <= j < i ==> (#[trigger] names@[j])@ == self.players@[j].name@,
            decreases self.players@.len() - i,
        {
            names.push(self.players[i].name.clone());
            i = i + 1;
        }
        assert(names@.map_values(|s: String| s@) =~= names_of(self.players@));
        self.player_list = StatefulList::with_items(names);
    }

    /// Adds a player named by the typed text, clears the text and rebuilds
    /// the player picker. Refused with `RosterFull` when four players are
    /// in, and with `DuplicateName` when the text is empty or already a name
    /// of the roster; a refusal changes nothing.
    pub fn add_player(&mut self) -> (r: Result<(), DpkError>)
        requires
            old(self).wf(),
        ensures
            final(self).wf(),
            old(self).players@.len() >= MAX_PLAYERS ==> r == Err::<(), DpkError>(DpkError::RosterFull),
            old(self).players@.len() < MAX_PLAYERS && (old(self).input@.len() == 0
                || has_name(old(self).players@, old(self).input@))
                ==> r == Err::<(), DpkError>(DpkError::DuplicateName),
            r is Err ==> *final(self) == *old(self),
            r is Ok ==> {
                &&& final(self).players@.len() == old(self).players@.len() + 1
                &&& final(self).players@.take(old(self).players@.len() as int) == old(self).players@
                &&& final(self).players@.last().name@ == old(self).input@
                &&& final(self).players@.last().total_score == 0
                &&& final(self).players@.last().past_scores@.len() == 0
                &&& final(self).input@.len() == 0
                &&& final(self).player_list.selected is None
                &&& final(self).input_mode == old(self).input_mode
                &&& final(self).round == old(self).round
                &&& final(self).game_event_list == old(self).game_event_list
                &&& final(self).main_menu_list == old(self).main_menu_list
                &&& final(self).active_player == old(self).active_player
            },
            r is Ok <==> old(self).players@.len() < MAX_PLAYERS && old(self).input@.len() > 0
                && !has_name(old(self).players@, old(self).input@),
    {
        if self.players.len() >= MAX_PLAYERS {
            return Err(DpkError::RosterFull);
        }
        if self.input.as_str().is_empty() || self.has_player(&self.input) {
            return Err(DpkError::DuplicateName);
        }
        let ghost pre = self.players@;
        let name = self.input.clone();
        self.players.push(Player { name, total_score: 0, past_scores: Vec::new() });
        self.input = String::new();
        proof {
            assert(self.players@.take(pre.len() as int) =~= pre);
            assert(sum_of(Seq::<i64>::empty()) == 0);
            assert forall|i: int, j: int| 0 <= i < j < self.players@.len()
                implies (#[trigger] self.players@[i]).name@ != (#[trigger] self.players@[j]).name@ by {
                if j == pre.len() {
                    assert(pre[i] == self.players@[i]);
                }
            }
        }
        self.update_player_list();
        Ok(())
    }
}

/// Every total of the roster lies far enough inside `i64` for one more
/// round to be added.
pub open spec fn totals_in_range(players: Seq<Player>) -> bool {
    forall|i: int| 0 <= i < players.len()
        ==> i64::MIN + SCORE_MARGIN <= (#[trigger] players[i]).total_score <= i64::MAX - SCORE_MARGIN
}

/// `q` is player `p` after a round in which `p` scored `delta`.
pub open spec fn scored(p: Player, delta: int, q: Player) -> bool {
    &&& q.name == p.name
    &&& q.past_scores@ == p.past_scores@.push(delta as i64)
    &&& q.total_score == p.total_score + delta
}

/// `b` is session `a` after its round was closed: each player scored what
/// the scoring rule gives for that player's record, the counter moved on by
/// one, the new round's records are fresh, and nothing else changed.
pub open spec fn committed(a: App, b: App) -> bool {
    &&& b.players@.len() == MAX_PLAYERS
    &&& a.players@.len() == MAX_PLAYERS
    &&& forall|i: int| 0 <= i < MAX_PLAYERS ==> scored(a.players@[i],
        score_of(a.round.player_round_info@[i]), #[trigger] b.players@[i])
    &&& b.round.counter == a.round.counter + 1
    &&& forall|i: int| 0 <= i < 4 ==> is_fresh(#[trigger] b.round.player_round_info@[i])
    &&& b.input == a.input
    &&& b.input_mode == a.input_mode
    &&& b.player_list == a.player_list
    &&& b.game_event_list == a.game_event_list
    &&& b.main_menu_list == a.main_menu_list
    &&& b.active_player == a.active_player
}

impl App {
    /// Closes the open round: scores each of the four records, appends each
    /// score to its player's history and total, and opens the next round
    /// with fresh records. Refused with `IncompleteRoster`, changing nothing,
    /// unless four players are in.
    pub fn commit_round(&mut self) -> (r: Result<(), DpkError>)
        requires
            old(self).wf(),
            totals_in_range(old(self).players@),
            old(self).round.counter < u64::MAX,
        ensures
            final(self).wf(),
            r is Ok <==> old(self).players@.len() == MAX_PLAYERS,
            r is Err ==> r == Err::<(), DpkError>(DpkError::IncompleteRoster) && *final(self) == *old(self),
            r is Ok ==> committed(*old(self), *final(self)),
            r is Ok ==> forall|i: int| 0 <= i < MAX_PLAYERS
                ==> (#[trigger] final(self).players@[i]).total_score == sum_of(final(self).players@[i].past_scores@),
    {
        if self.players.len() != MAX_PLAYERS {
            return Err(DpkError::IncompleteRoster);
        }
        let ghost pre = *self;
        let mut i: usize = 0;
        while i < MAX_PLAYERS
            invariant
                i <= MAX_PLAYERS,
                self.players@.len() == MAX_PLAYERS,
                pre.players@.len() == MAX_PLAYERS,
                totals_in_range(pre.players@),
                forall|j: int| 0 <= j < i ==> scored(pre.players@[j],
                    score_of(pre.round.player_round_info@[j]), #[trigger] self.players@[j]),
                forall|j: int| i <= j < MAX_PLAYERS ==> #[trigger] self.players@[j] == pre.players@[j],
                forall|j: int| i <= j < 4 ==> #[trigger] self.round.player_round_info@[j]
                    == pre.round.player_round_info@[j],
                self.round.counter == pre.round.counter,
                self.input == pre.input,
                self.input_mode == pre.input_mode,
                self.player_list == pre.player_list,
                self.game_event_list == pre.game_event_list,
                self.main_menu_list == pre.main_menu_list,
                self.active_player == pre.active_player,
            decreases MAX_PLAYERS - i,
        {
            self.round.player_round_info[i].score_player();
            let delta = self.round.player_round_info[i].round_score;
            self.players[i].past_scores.push(delta);
            self.players[i].total_score = self.players[i].total_score + delta;
            i = i + 1;
        }
        let counter = self.round.counter + 1;
        self.round = Round::default();
        self.round.counter = counter;
        proof {
            assert forall|j: int| 0 <= j < self.players@.len()
                implies (#[trigger] self.players@[j]).total_score == sum_of(self.players@[j].past_scores@) by {
                lemma_sum_push(pre.players@[j].past_scores@, score_of(pre.round.player_round_info@[j]) as i64);
            }
            assert(names_of(self.players@) =~= names_of(pre.players@));
        }
        Ok(())
    }
}

} // verus!
