use doko_score::round::{Event, PlayerRoundInfo, Round, TOKEN_LEN};

fn is_token(s: &str) -> bool {
    s.chars().count() == TOKEN_LEN && s.chars().all(|c| c.is_ascii_alphanumeric())
}

#[test]
fn fresh_record_is_empty_with_random_tokens() {
    let p = PlayerRoundInfo::default();
    assert!(!p.won && !p.contra && !p.karlchen && !p.karlchen_caught);
    assert_eq!((p.bids, p.ex_ante, p.doppelkopf, p.round_score), (0, 0, 0, 0));
    assert_eq!(p.teammate, "");
    assert!(is_token(&p.fox[0]));
    assert!(is_token(&p.fox[1]));
    assert_ne!(p.fox[0], p.fox[1]);
}

#[test]
fn fresh_round_is_round_zero() {
    let r = Round::default();
    assert_eq!(r.counter, 0);
    for p in r.player_round_info.iter() {
        assert_eq!(p.round_score, 0);
        assert!(is_token(&p.fox[0]));
    }
}

#[test]
fn increment_and_decrement_score() {
    let mut p = PlayerRoundInfo::default();
    p.increment_score();
    p.increment_score();
    assert_eq!(p.round_score, 2);
    p.decrement_score();
    p.decrement_score();
    p.decrement_score();
    assert_eq!(p.round_score, -1);
}

#[test]
fn winner_with_stakes_contra_and_doppelkopf_scores_six() {
    let mut p = PlayerRoundInfo::default();
    p.won = true;
    p.bids = 2;
    p.ex_ante = 1;
    p.contra = true;
    p.doppelkopf = 1;
    p.score_player();
    assert_eq!(p.round_score, 6);
}

#[test]
fn loser_with_one_bid_scores_minus_two() {
    let mut p = PlayerRoundInfo::default();
    p.bids = 1;
    p.score_player();
    assert_eq!(p.round_score, -2);
}

#[test]
fn fresh_record_scores_minus_one() {
    let mut p = PlayerRoundInfo::default();
    p.score_player();
    assert_eq!(p.round_score, -1);
}

#[test]
fn scoring_resets_an_earlier_score() {
    let mut p = PlayerRoundInfo::default();
    p.won = true;
    p.round_score = 40;
    p.score_player();
    assert_eq!(p.round_score, 1);
    p.score_player();
    assert_eq!(p.round_score, 1);
}

#[test]
fn contra_counts_only_on_a_win() {
    let mut p = PlayerRoundInfo::default();
    p.contra = true;
    p.ex_ante = 2;
    p.score_player();
    assert_eq!(p.round_score, -3);
}

#[test]
fn karlchen_is_worth_two_and_catching_it_one() {
    let mut p = PlayerRoundInfo::default();
    p.won = true;
    p.karlchen = true;
    p.score_player();
    assert_eq!(p.round_score, 3);
    p.karlchen_caught = true;
    p.score_player();
    assert_eq!(p.round_score, 4);
}

#[test]
fn each_fox_token_naming_the_teammate_counts() {
    let mut p = PlayerRoundInfo::default();
    p.won = true;
    p.teammate = String::from("Bea");
    p.score_player();
    assert_eq!(p.round_score, 1);
    p.fox[0] = String::from("Bea");
    p.score_player();
    assert_eq!(p.round_score, 2);
    p.fox[1] = String::from("Bea");
    p.score_player();
    assert_eq!(p.round_score, 3);
}

#[test]
fn largest_counts_do_not_overflow() {
    let mut p = PlayerRoundInfo::default();
    p.won = true;
    p.bids = 255;
    p.ex_ante = 255;
    p.doppelkopf = 255;
    p.contra = true;
    p.karlchen = true;
    p.karlchen_caught = true;
    p.score_player();
    assert_eq!(p.round_score, 1 + 255 + 255 + 1 + 255 + 2 + 1);
    p.won = false;
    p.doppelkopf = 0;
    p.karlchen = false;
    p.karlchen_caught = false;
    p.score_player();
    assert_eq!(p.round_score, -1 - 255 - 255);
}

#[test]
fn recording_events_sets_the_facts() {
    let mut p = PlayerRoundInfo::default();
    p.record_event(Event::Bid);
    p.record_event(Event::Bid);
    p.record_event(Event::Doppelkopf);
    p.record_event(Event::Won);
    p.record_event(Event::Contra);
    p.record_event(Event::Karlchen);
    p.record_event(Event::KarlchenCaught);
    assert_eq!(p.bids, 2);
    assert_eq!(p.doppelkopf, 1);
    assert!(p.won && p.contra && p.karlchen && p.karlchen_caught);
    p.record_event(Event::Re);
    assert!(!p.contra);
    p.score_player();
    assert_eq!(p.round_score, 1 + 2 + 1 + 2 + 1);
}

#[test]
fn recording_a_fox_credits_the_teammate() {
    let mut p = PlayerRoundInfo::default();
    let first = p.fox[0].clone();
    p.teammate = String::from("Kai");
    p.record_event(Event::Fox);
    assert_eq!(p.fox[0], "Kai");
    assert_eq!(p.fox[1], first);
    p.record_event(Event::Fox);
    assert_eq!(p.fox[1], "Kai");
    p.won = true;
    p.score_player();
    assert_eq!(p.round_score, 3);
}

#[test]
fn counts_stop_at_the_largest_value() {
    let mut p = PlayerRoundInfo::default();
    p.bids = 255;
    p.doppelkopf = 255;
    p.record_event(Event::Bid);
    p.record_event(Event::Doppelkopf);
    assert_eq!((p.bids, p.doppelkopf), (255, 255));
}

#[test]
fn event_labels() {
    assert_eq!(Event::Bid.label(), "Bid");
    assert_eq!(Event::KarlchenCaught.label(), "Karlchen caught");
}

#[test]
fn menu_labels() {
    assert_eq!(doko_score::session::MenuItem::NewRound.label(), "New round");
    assert_eq!(doko_score::session::MenuItem::Exit.label(), "Exit");
}
