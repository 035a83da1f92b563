//! Tests of the statistics: winrate tallies, the per-domain bucketers, the
//! favorite/best selection, and the recent-record listing.

use slp_stats::character::Character;
use slp_stats::gamedata::{GameData, GameResult, GameResults, MatchEndType, MatchResult};
use slp_stats::player::Player;
use slp_stats::playerdata::{PlayerData, WinLossData, WinLossVec};
use slp_stats::stage::Stage;

fn game(
    player_char: Character,
    opponent_char: Character,
    stage: Stage,
    win: bool,
    ts: &str,
) -> GameData {
    GameData {
        player_char,
        opponent_char,
        stage,
        match_result: if win {
            MatchResult::Victory(MatchEndType::Stocks)
        } else {
            MatchResult::Loss(MatchEndType::Stocks)
        },
        timestamp: ts.to_string(),
    }
}

fn sample_corpus() -> PlayerData {
    let mut data = PlayerData::new();
    data.add_game(game(Character::Fox, Character::Marth, Stage::Battlefield, true, "t1"));
    data.add_game(game(Character::Fox, Character::Falco, Stage::FinalDestination, false, "t2"));
    data.add_game(game(Character::Marth, Character::Falco, Stage::Battlefield, true, "t3"));
    data.add_game(game(Character::Fox, Character::Marth, Stage::YoshisStory, true, "t4"));
    data
}

#[test]
fn overall_winrate_counts_every_record() {
    let data = sample_corpus();
    let tally = data.winrate(Player::Player);
    assert_eq!(tally.games, 4);
    assert_eq!(tally.wins, 3);
}

#[test]
fn winrate_filtered_by_character() {
    let data = sample_corpus();
    let tally = data.winrate(Character::Fox);
    assert_eq!(tally.games, 3);
    assert_eq!(tally.wins, 2);
    let none = data.winrate(Character::Peach);
    assert_eq!(none.games, 0);
}

#[test]
fn winrate_filtered_by_stage() {
    let data = sample_corpus();
    let tally = data.winrate(Stage::Battlefield);
    assert_eq!(tally.games, 2);
    assert_eq!(tally.wins, 2);
}

#[test]
fn winrate_value_is_exact() {
    let bucket = WinLossData { games: 3, wins: 1 };
    // 1/3 as hundredths of a percent, truncated: 33.33%.
    assert_eq!(bucket.winrate(), Some(3333));
    let empty = WinLossData { games: 0, wins: 0 };
    assert_eq!(empty.winrate(), None);
    let all = WinLossData { games: 4, wins: 4 };
    assert_eq!(all.winrate(), Some(10000));
}

#[test]
fn matchups_bucket_by_opponent() {
    let data = sample_corpus();
    let matchups = data.matchups(Player::Player);
    let marth = matchups.bucket(Character::Marth.id());
    assert_eq!(marth.games, 2);
    assert_eq!(marth.wins, 2);
    let falco = matchups.bucket(Character::Falco.id());
    assert_eq!(falco.games, 2);
    assert_eq!(falco.wins, 1);
}

#[test]
fn stages_bucket_by_stage() {
    let data = sample_corpus();
    let stages = data.stages(Character::Fox);
    let bf = stages.bucket(Stage::Battlefield.id());
    assert_eq!(bf.games, 1);
    assert_eq!(bf.wins, 1);
    let fd = stages.bucket(Stage::FinalDestination.id());
    assert_eq!(fd.games, 1);
    assert_eq!(fd.wins, 0);
}

#[test]
fn characters_bucket_by_played_character() {
    let data = sample_corpus();
    let characters = data.characters(Player::Player);
    assert_eq!(characters.bucket(Character::Fox.id()).games, 3);
    assert_eq!(characters.bucket(Character::Marth.id()).games, 1);
}

#[test]
fn matchup_breaks_down_by_stage() {
    let data = sample_corpus();
    let head_to_head = data.matchup(Character::Fox, Character::Marth);
    assert_eq!(head_to_head.bucket(Stage::Battlefield.id()).games, 1);
    assert_eq!(head_to_head.bucket(Stage::YoshisStory.id()).games, 1);
    assert_eq!(head_to_head.bucket(Stage::FinalDestination.id()).games, 0);
}

#[test]
fn last_returns_most_recent_in_order() {
    let data = sample_corpus();
    let recent = data.last(2).unwrap();
    assert_eq!(recent.len(), 2);
    assert_eq!(recent[0].timestamp, "t3");
    assert_eq!(recent[1].timestamp, "t4");
    assert_eq!(data.last(4).unwrap().len(), 4);
}

#[test]
fn last_beyond_total_is_no_data() {
    let data = sample_corpus();
    assert!(data.last(5).is_none());
}

#[test]
fn favorite_is_strictly_most_games() {
    let mut v = WinLossVec::<Character>::new();
    // Bucket 0: 10 games, all wins. Bucket 1: 15 games, few wins.
    for _ in 0..10 {
        v.add_game(true, 0);
    }
    for i in 0..15 {
        v.add_game(i < 3, 1);
    }
    let fb = v.fav_best();
    // The 15-game bucket is the favorite even with the worse winrate.
    assert_eq!(fb.favorite, 1);
}

#[test]
fn favorite_keeps_first_on_ties() {
    let mut v = WinLossVec::<Character>::new();
    v.add_game(true, 3);
    v.add_game(false, 5);
    let fb = v.fav_best();
    assert_eq!(fb.favorite, 3);
}

#[test]
fn best_excludes_small_samples() {
    let mut v = WinLossVec::<Character>::new();
    // Bucket 0: a perfect record, but only 20 games: at the threshold,
    // not over it.
    for _ in 0..20 {
        v.add_game(true, 0);
    }
    let fb = v.fav_best();
    assert_eq!(fb.best, None);
    // One more game pushes it over the threshold.
    v.add_game(true, 0);
    let fb = v.fav_best();
    assert_eq!(fb.best, Some(0));
}

#[test]
fn best_picks_highest_winrate_over_threshold() {
    let mut v = WinLossVec::<Stage>::new();
    for i in 0..30 {
        v.add_game(i < 15, 2);
    }
    for i in 0..25 {
        v.add_game(i < 20, 8);
    }
    for i in 0..100 {
        v.add_game(i < 10, 31);
    }
    let fb = v.fav_best();
    // 20/25 beats 15/30 and 10/100.
    assert_eq!(fb.best, Some(8));
    assert_eq!(fb.favorite, 31);
}

#[test]
fn winless_buckets_never_best() {
    let mut v = WinLossVec::<Character>::new();
    for _ in 0..30 {
        v.add_game(false, 0);
    }
    assert_eq!(v.fav_best().best, None);
}

#[test]
fn empty_aggregation_reports_no_data() {
    let v = WinLossVec::<Stage>::new();
    assert!(v.is_empty());
    let mut v = WinLossVec::<Stage>::new();
    v.add_game(false, 2);
    assert!(!v.is_empty());
}

#[test]
fn overview_aggregates_all_three_dimensions() {
    let data = sample_corpus();
    let o = data.overview();
    assert_eq!(o.char_data.bucket(Character::Fox.id()).games, 3);
    assert_eq!(o.opponent_data.bucket(Character::Marth.id()).games, 2);
    assert_eq!(o.stage_data.bucket(Stage::Battlefield.id()).games, 2);
    let fb = o.char_data.fav_best();
    assert_eq!(fb.favorite, Character::Fox.id());
}

#[test]
fn raw_id_results_mirror_records() {
    let rec = game(Character::Fox, Character::Marth, Stage::Battlefield, true, "t1");
    let raw = GameResult::of_record(&rec);
    assert_eq!(raw.player_char, 2);
    assert_eq!(raw.opponent_char, 9);
    assert_eq!(raw.stage, 31);
    assert_eq!(raw.match_result, MatchResult::Victory(MatchEndType::Stocks));
    let collected = GameResults::new();
    assert_eq!(collected.results.len(), 0);
}
