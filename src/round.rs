use vstd::prelude::*;
use rand::distributions::Alphanumeric;
use rand::Rng;

verus! {

/// Length of the random tokens that stand for "no fox caught yet".
pub const TOKEN_LEN: usize = 30;

/// An ASCII letter or digit.
pub open spec fn is_alphanumeric(c: char) -> bool {
    ('a' <= c <= 'z') || ('A' <= c <= 'Z') || ('0' <= c <= '9')
}

/// A fresh fox token: `TOKEN_LEN` ASCII letters and digits. Such a token can
/// never equal the empty teammate of a fresh record.
pub open spec fn is_token(s: Seq<char>) -> bool {
    &&& s.len() == TOKEN_LEN
    &&& forall|i: int| 0 <= i < s.len() ==> is_alphanumeric(#[trigger] s[i])
}

/// Relies on rand's `thread_rng` sampled with `Alphanumeric`: each drawn
/// byte is one of `A-Z`, `a-z`, `0-9`, and `take(len)` keeps `len` of them.
#[verifier::external_body]
fn rand_string(len: usize) -> (r: String)
    ensures
        r@.len() == len,
        forall|i: int| 0 <= i < r@.len() ==> is_alphanumeric(#[trigger] r@[i]),
{
    rand::thread_rng().sample_iter(&Alphanumeric).take(len).map(char::from).collect()
}

/// A declared event of a round, as entered for one player.
#[derive(Clone, Copy, Debug, PartialEq, Eq)]
pub enum Event {
    Bid,
    Fox,
    Doppelkopf,
    Re,
    Contra,
    Won,
    Karlchen,
    KarlchenCaught,
}

/// The label under which an event is offered for selection.
pub open spec fn event_label(e: Event) -> Seq<char> {
    match e {
        Event::Bid => "Bid"@,
        Event::Fox => "Fox"@,
        Event::Doppelkopf => "Doppelkopf"@,
        Event::Re => "Re"@,
        Event::Contra => "Contra"@,
        Event::Won => "Won"@,
        Event::Karlchen => "Karlchen"@,
        Event::KarlchenCaught => "Karlchen caught"@,
    }
}

impl Event {
    /// The label under which the event is offered for selection.
    pub fn label(&self) -> (r: &'static str)
        ensures
            r@ == event_label(*self),
    {
        match self {
            Event::Bid => "Bid",
            Event::Fox => "Fox",
            Event::Doppelkopf => "Doppelkopf",
            Event::Re => "Re",
            Event::Contra => "Contra",
            Event::Won => "Won",
            Event::Karlchen => "Karlchen",
            Event::KarlchenCaught => "Karlchen caught",
        }
    }
}

/// What one player declared during one round.
pub struct PlayerRoundInfo {
    pub won: bool,
    pub contra: bool,
    pub bids: u8,
    pub ex_ante: u8,
    /// Identities of the fox catchers; a fresh record holds random tokens.
    pub fox: [String; 2],
    pub doppelkopf: u8,
    pub karlchen: bool,
    pub karlchen_caught: bool,
    pub round_score: i64,
    /// The teammate's name; empty while unknown.
    pub teammate: String,
}

/// One point for each condition that holds.
pub open spec fn point(b: bool) -> int {
    if b { 1 } else { 0 }
}

/// The scoring rule: the signed score of one player for one round.
pub open spec fn score_of(p: PlayerRoundInfo) -> int {
    let outcome = if p.won {
        1 + p.bids + p.ex_ante + point(p.contra)
    } else {
        -1 - p.bids - p.ex_ante
    };
    outcome + p.doppelkopf + 2 * point(p.karlchen) + point(p.karlchen_caught)
        + point(p.fox@[0]@ == p.teammate@) + point(p.fox@[1]@ == p.teammate@)
}

/// `p` and `q` agree on every declared fact; only the score may differ.
pub open spec fn same_facts(p: PlayerRoundInfo, q: PlayerRoundInfo) -> bool {
    &&& p.won == q.won
    &&& p.contra == q.contra
    &&& p.bids == q.bids
    &&& p.ex_ante == q.ex_ante
    &&& p.fox@[0] == q.fox@[0]
    &&& p.fox@[1] == q.fox@[1]
    &&& p.doppelkopf == q.doppelkopf
    &&& p.karlchen == q.karlchen
    &&& p.karlchen_caught == q.karlchen_caught
    &&& p.teammate == q.teammate
}

/// A record with nothing declared yet.
pub open spec fn is_fresh(p: PlayerRoundInfo) -> bool {
    &&& !p.won
    &&& !p.contra
    &&& p.bids == 0
    &&& p.ex_ante == 0
    &&& is_token(p.fox@[0]@)
    &&& is_token(p.fox@[1]@)
    &&& p.doppelkopf == 0
    &&& !p.karlchen
    &&& !p.karlchen_caught
    &&& p.round_score == 0
    &&& p.teammate@.len() == 0
}

impl PlayerRoundInfo {
    /// A record with nothing declared, a zero score, no teammate, and two
    /// random fox tokens.
    pub fn default() -> (r: PlayerRoundInfo)
        ensures
            is_fresh(r),
    {
        PlayerRoundInfo {
            won: false,
            contra: false,
            bids: 0,
            ex_ante: 0,
            fox: [rand_string(TOKEN_LEN), rand_string(TOKEN_LEN)],
            doppelkopf: 0,
            karlchen: false,
            karlchen_caught: false,
            round_score: 0,
            teammate: String::new(),
        }
    }

    /// Adds one point to the round score.
    pub fn increment_score(&mut self)
        requires
            old(self).round_score < i64::MAX,
        ensures
            same_facts(*final(self), *old(self)),
            final(self).round_score == old(self).round_score + 1,
    {
        self.round_score = self.round_score + 1;
    }

    /// Takes one point off the round score.
    pub fn decrement_score(&mut self)
        requires
            old(self).round_score > i64::MIN,
        ensures
            same_facts(*final(self), *old(self)),
            final(self).round_score == old(self).round_score - 1,
    {
        self.round_score = self.round_score - 1;
    }

    /// Sets the round score to what the scoring rule gives for the declared
    /// facts.
    pub fn score_player(&mut self)
        ensures
            same_facts(*final(self), *old(self)),
            final(self).round_score == score_of(*old(self)),
    {
        self.round_score = 0;
        if self.won {
            self.increment_score();
            self.round_score = self.round_score + self.bids as i64;
            self.round_score = self.round_score + self.ex_ante as i64;
            if self.contra {
                self.increment_score();
            }
        } else {
            self.decrement_score();
            self.round_score = self.round_score - self.bids as i64;
            self.round_score = self.round_score - self.ex_ante as i64;
        }
        self.round_score = self.round_score + self.doppelkopf as i64;
        if self.karlchen {
            self.round_score = self.round_score + 2;
        }
        if self.karlchen_caught {
            self.increment_score();
        }
        if self.fox[0] == self.teammate {
            self.increment_score();
        }
        if self.fox[1] == self.teammate {
            self.increment_score();
        }
    }
    /// Records one declared event. `Bid` and `Doppelkopf` count up (and stay
    /// at the largest count), `Fox` credits a catch against the teammate and
    /// keeps the latest two catches, `Re` and `Contra` choose the side, and
    /// the remaining events set their flag.
    pub fn record_event(&mut self, event: Event)
        ensures
            final(self).round_score == old(self).round_score,
            final(self).teammate == old(self).teammate,
            recorded(*old(self), event, *final(self)),
    {
        match event {
            Event::Bid => {
                if self.bids < u8::MAX {
                    self.bids = self.bids + 1;
                }
            },
            Event::Fox => {
                let earlier = self.fox[0].clone();
                self.fox = [self.teammate.clone(), earlier];
            },
            Event::Doppelkopf => {
                if self.doppelkopf < u8::MAX {
                    self.doppelkopf = self.doppelkopf + 1;
                }
            },
            Event::Re => {
                self.contra = false;
            },
            Event::Contra => {
                self.contra = true;
            },
            Event::Won => {
                self.won = true;
            },
            Event::Karlchen => {
                self.karlchen = true;
            },
            Event::KarlchenCaught => {
                self.karlchen_caught = true;
            },
        }
    }
}

/// One more, unless already at the largest `u8`.
pub open spec fn count_up(x: u8) -> u8 {
    if x < u8::MAX { (x + 1) as u8 } else { x }
}

/// `q` is `p` with `event` recorded.
pub open spec fn recorded(p: PlayerRoundInfo, event: Event, q: PlayerRoundInfo) -> bool {
    &&& q.won == (p.won || event == Event::Won)
    &&& q.contra == (if event == Event::Contra { true } else if event == Event::Re { false } else { p.contra })
    &&& q.bids == (if event == Event::Bid { count_up(p.bids) } else { p.bids })
    &&& q.ex_ante == p.ex_ante
    &&& q.fox@[0] == (if event == Event::Fox { p.teammate } else { p.fox@[0] })
    &&& q.fox@[1] == (if event == Event::Fox { p.fox@[0] } else { p.fox@[1] })
    &&& q.doppelkopf == (if event == Event::Doppelkopf { count_up(p.doppelkopf) } else { p.doppelkopf })
    &&& q.karlchen == (p.karlchen || event == Event::Karlchen)
    &&& q.karlchen_caught == (p.karlchen_caught || event == Event::KarlchenCaught)
}

/// The open round: a counter and one record per seat.
pub struct Round {
    pub counter: u64,
    pub player_round_info: [PlayerRoundInfo; 4],
}

impl Round {
    /// Round zero with four fresh records.
    pub fn default() -> (r: Round)
        ensures
            r.counter == 0,
            forall|i: int| 0 <= i < 4 ==> is_fresh(#[trigger] r.player_round_info@[i]),
    {
        Round {
            counter: 0,
            player_round_info: [
                PlayerRoundInfo::default(),
                PlayerRoundInfo::default(),
                PlayerRoundInfo::default(),
                PlayerRoundInfo::default(),
            ],
        }
    }
}

} // verus!
