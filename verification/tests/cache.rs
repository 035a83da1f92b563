//! Tests of the persisted cache: the exact text format, the parse/render
//! round trip, version-mismatch rebuilds, and the timestamp dedup test.

use slp_stats::cache::{load_cache, parse_cache, render_cache, should_skip};
use slp_stats::character::Character;
use slp_stats::gamedata::{Game, GameData, MatchEndType, MatchResult, PlayerMeta, PortState};
use slp_stats::playerdata::{PlayerData, CACHE_VER};
use slp_stats::stage::Stage;

fn record(ts: &str, result: MatchResult) -> GameData {
    GameData {
        player_char: Character::Fox,
        opponent_char: Character::Falco,
        stage: Stage::Battlefield,
        match_result: result,
        timestamp: ts.to_string(),
    }
}

#[test]
fn render_format_is_exact() {
    let mut data = PlayerData::new();
    data.add_game(record(
        "2022-06-12T22:46:42Z",
        MatchResult::Victory(MatchEndType::Stocks),
    ));
    let text = render_cache(&data);
    assert_eq!(text, "8\n2022-06-12T22:46:42Z;2;20;31;VS");
}

#[test]
fn render_covers_every_outcome() {
    let mut data = PlayerData::new();
    data.add_game(record("t1", MatchResult::Victory(MatchEndType::Timeout)));
    data.add_game(record("t2", MatchResult::Loss(MatchEndType::Stocks)));
    data.add_game(record("t3", MatchResult::Loss(MatchEndType::Timeout)));
    data.add_game(record("t4", MatchResult::Tie));
    data.add_game(record("t5", MatchResult::EarlyEnd(4)));
    let text = render_cache(&data);
    assert_eq!(
        text,
        "8\nt1;2;20;31;VT\nt2;2;20;31;LS\nt3;2;20;31;LT\nt4;2;20;31;T\nt5;2;20;31;E4"
    );
}

#[test]
fn parse_render_round_trip() {
    let mut data = PlayerData::new();
    data.add_game(record(
        "2022-06-12T22:46:42Z",
        MatchResult::Victory(MatchEndType::Stocks),
    ));
    data.add_game(record("2022-06-13T10:00:00Z", MatchResult::EarlyEnd(2)));
    let text = render_cache(&data);
    let reparsed = parse_cache(&text).unwrap();
    assert_eq!(reparsed.cache_version(), CACHE_VER);
    assert_eq!(reparsed.num_results(), 2);
    let r0 = reparsed.record_at(0);
    assert_eq!(r0.player_char, Character::Fox);
    assert_eq!(r0.opponent_char, Character::Falco);
    assert_eq!(r0.stage, Stage::Battlefield);
    assert_eq!(r0.match_result, MatchResult::Victory(MatchEndType::Stocks));
    assert_eq!(r0.timestamp, "2022-06-12T22:46:42Z");
    let r1 = reparsed.record_at(1);
    assert_eq!(r1.match_result, MatchResult::EarlyEnd(2));
    assert_eq!(r1.timestamp, "2022-06-13T10:00:00Z");
    // Rendering again reproduces the text letter for letter.
    assert_eq!(render_cache(&reparsed), text);
}

#[test]
fn rescan_of_same_corpus_adds_nothing() {
    // First pass: classify two replays and persist.
    let mut data = PlayerData::new();
    let game1 = Game {
        players: vec![
            PlayerMeta { netplay_code: Some("FLOS#497".to_string()) },
            PlayerMeta { netplay_code: Some("OPPO#001".to_string()) },
        ],
        starts: vec![2, 20],
        stage: 31,
        timestamp: "2022-06-12T22:46:42Z".to_string(),
        last_frame: vec![
            PortState { stocks: 2, damage: 0 },
            PortState { stocks: 0, damage: 5000 },
        ],
        lras_initiator: None,
    };
    let game2 = Game {
        timestamp: "2022-06-13T09:00:00Z".to_string(),
        players: vec![
            PlayerMeta { netplay_code: Some("FLOS#497".to_string()) },
            PlayerMeta { netplay_code: Some("OPPO#001".to_string()) },
        ],
        starts: vec![2, 20],
        stage: 31,
        last_frame: vec![
            PortState { stocks: 0, damage: 0 },
            PortState { stocks: 1, damage: 0 },
        ],
        lras_initiator: None,
    };
    data.ingest(game1, "FLOS#497").unwrap();
    data.ingest(game2, "FLOS#497").unwrap();
    let persisted = render_cache(&data);

    // Second pass over the same files: the loaded corpus equals the
    // persisted one, every candidate's timestamp is found, nothing is
    // re-classified, and the persisted text comes out identical.
    let (reloaded, kept) = load_cache(&persisted);
    assert!(kept);
    assert_eq!(reloaded.num_results(), 2);
    assert!(should_skip(&persisted, "2022-06-12T22:46:42Z"));
    assert!(should_skip(&persisted, "2022-06-13T09:00:00Z"));
    assert_eq!(render_cache(&reloaded), persisted);
}

#[test]
fn version_bump_discards_all_records() {
    // A persisted cache from an older schema version: its records must
    // vanish entirely on load, not be merged.
    let stale = "7\n2022-06-12T22:46:42Z;2;20;31;VS\n2022-06-13T09:00:00Z;2;20;31;LS";
    let parsed = parse_cache(stale).unwrap();
    assert_eq!(parsed.cache_version(), 7);
    assert_eq!(parsed.num_results(), 2);
    let (loaded, kept) = load_cache(stale);
    assert!(!kept);
    assert_eq!(loaded.cache_version(), CACHE_VER);
    assert_eq!(loaded.num_results(), 0);
}

#[test]
fn unreadable_cache_text_rebuilds_empty() {
    assert!(parse_cache("not a cache at all").is_none());
    assert!(parse_cache("").is_none());
    assert!(parse_cache("8\ngarbage line").is_none());
    assert!(parse_cache("8\nts;2;20;31;XX").is_none());
    assert!(parse_cache("8\nts;26;20;31;VS").is_none());
    assert!(parse_cache("8\nts;2;20;21;VS").is_none());
    let (loaded, kept) = load_cache("not a cache at all");
    assert!(!kept);
    assert_eq!(loaded.num_results(), 0);
    assert_eq!(loaded.cache_version(), CACHE_VER);
}

#[test]
fn parse_accepts_multi_digit_early_end_slot() {
    let text = "8\nts;2;20;31;E12";
    let parsed = parse_cache(text).unwrap();
    assert_eq!(
        parsed.record_at(0).match_result,
        MatchResult::EarlyEnd(12)
    );
}

#[test]
fn parse_rejects_overflowing_version() {
    assert!(parse_cache("99999999999999999999999").is_none());
    assert!(parse_cache("99999999999999999999999\nts;2;20;31;VS").is_none());
}

#[test]
fn dedup_is_raw_text_containment() {
    let mut data = PlayerData::new();
    data.add_game(record(
        "2022-06-12T22:46:42.120Z",
        MatchResult::Victory(MatchEndType::Stocks),
    ));
    let text = render_cache(&data);
    // The membership test is substring containment against the raw
    // persisted text, so a timestamp that is a textual prefix of a
    // persisted one is also reported present. This fragility is part of
    // the observable behavior.
    assert!(should_skip(&text, "2022-06-12T22:46:42.120Z"));
    assert!(should_skip(&text, "2022-06-12T22:46:42"));
    assert!(!should_skip(&text, "2023-01-01T00:00:00Z"));
}

#[test]
fn failed_classification_leaves_corpus_unchanged() {
    let mut data = PlayerData::new();
    let bad = Game {
        players: vec![
            PlayerMeta { netplay_code: Some("FLOS#497".to_string()) },
            PlayerMeta { netplay_code: Some("OPPO#001".to_string()) },
        ],
        starts: vec![2, 20],
        stage: 21,
        timestamp: "2022-06-12T22:46:42Z".to_string(),
        last_frame: vec![
            PortState { stocks: 2, damage: 0 },
            PortState { stocks: 0, damage: 0 },
        ],
        lras_initiator: None,
    };
    let err = data.ingest(bad, "FLOS#497").unwrap_err();
    assert_eq!(
        err,
        slp_stats::gamedata::GameParseError::CorruptedStageData(21)
    );
    assert_eq!(data.num_results(), 0);
}
