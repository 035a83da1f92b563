//! Tests of the match-outcome classification: the stock comparison, the
//! damage tie-break, the early-termination pre-emption, identity
//! resolution, and rejection of corrupt domain ids.

use slp_stats::gamedata::{
    Game, GameData, GameParseError, MatchEndType, MatchResult, PlayerMeta, PortState,
};

const MY_CODE: &str = "FLOS#497";
const OPP_CODE: &str = "OPPO#001";

fn two_player_game(
    my_stocks: u8,
    my_damage: u32,
    opp_stocks: u8,
    opp_damage: u32,
    lras: Option<usize>,
) -> Game {
    Game {
        players: vec![
            PlayerMeta { netplay_code: Some(MY_CODE.to_string()) },
            PlayerMeta { netplay_code: Some(OPP_CODE.to_string()) },
        ],
        starts: vec![2, 20],
        stage: 31,
        timestamp: "2022-06-12T22:46:42Z".to_string(),
        last_frame: vec![
            PortState { stocks: my_stocks, damage: my_damage },
            PortState { stocks: opp_stocks, damage: opp_damage },
        ],
        lras_initiator: lras,
    }
}

fn classify(game: Game) -> Result<GameData, GameParseError> {
    GameData::parse_game(game, MY_CODE.to_string())
}

#[test]
fn stock_lead_wins_by_stocks() {
    let d = classify(two_player_game(2, 8000, 0, 1200, None)).unwrap();
    assert_eq!(d.match_result, MatchResult::Victory(MatchEndType::Stocks));
    assert!(d.is_victory());
}

#[test]
fn stock_deficit_loses_by_stocks() {
    let d = classify(two_player_game(1, 0, 3, 9999, None)).unwrap();
    assert_eq!(d.match_result, MatchResult::Loss(MatchEndType::Stocks));
    assert!(!d.is_victory());
}

#[test]
fn equal_stocks_lower_damage_wins_by_timeout() {
    let d = classify(two_player_game(1, 4500, 1, 6000, None)).unwrap();
    assert_eq!(d.match_result, MatchResult::Victory(MatchEndType::Timeout));
}

#[test]
fn equal_stocks_higher_damage_loses_by_timeout() {
    let d = classify(two_player_game(2, 7500, 2, 7499, None)).unwrap();
    assert_eq!(d.match_result, MatchResult::Loss(MatchEndType::Timeout));
}

#[test]
fn equal_stocks_equal_damage_ties() {
    let d = classify(two_player_game(1, 3000, 1, 3000, None)).unwrap();
    assert_eq!(d.match_result, MatchResult::Tie);
}

#[test]
fn early_end_signal_preempts_stock_state() {
    // Equal stocks and unequal damage would resolve by timeout, but the
    // signal from slot 2 always wins.
    let d = classify(two_player_game(1, 4500, 1, 6000, Some(2))).unwrap();
    assert_eq!(d.match_result, MatchResult::EarlyEnd(2));
    // A decisive stock lead is pre-empted just the same.
    let d = classify(two_player_game(4, 0, 0, 9000, Some(1))).unwrap();
    assert_eq!(d.match_result, MatchResult::EarlyEnd(1));
}

#[test]
fn classified_fields_carry_selections() {
    let d = classify(two_player_game(2, 0, 0, 0, None)).unwrap();
    assert_eq!(d.player_char, slp_stats::character::Character::Fox);
    assert_eq!(d.opponent_char, slp_stats::character::Character::Falco);
    assert_eq!(d.stage, slp_stats::stage::Stage::Battlefield);
    assert_eq!(d.timestamp, "2022-06-12T22:46:42Z");
}

#[test]
fn tracked_code_in_second_slot_flips_perspective() {
    let mut game = two_player_game(2, 0, 0, 0, None);
    game.players.swap(0, 1);
    game.starts = vec![20, 2];
    // The tracked participant now sits in slot 1 with zero stocks left.
    let game = Game { last_frame: vec![
        PortState { stocks: 2, damage: 0 },
        PortState { stocks: 0, damage: 0 },
    ], ..game };
    let d = classify(game).unwrap();
    assert_eq!(d.match_result, MatchResult::Loss(MatchEndType::Stocks));
    assert_eq!(d.player_char, slp_stats::character::Character::Fox);
    assert_eq!(d.opponent_char, slp_stats::character::Character::Falco);
}

#[test]
fn reserved_stage_id_fails_exactly() {
    let game = Game { stage: 21, ..two_player_game(2, 0, 0, 0, None) };
    assert_eq!(
        classify(game).unwrap_err(),
        GameParseError::CorruptedStageData(21)
    );
    let game = Game { stage: 26, ..two_player_game(2, 0, 0, 0, None) };
    assert_eq!(
        classify(game).unwrap_err(),
        GameParseError::CorruptedStageData(26)
    );
    let game = Game { stage: 0, ..two_player_game(2, 0, 0, 0, None) };
    assert_eq!(
        classify(game).unwrap_err(),
        GameParseError::CorruptedStageData(0)
    );
    let game = Game { stage: 33, ..two_player_game(2, 0, 0, 0, None) };
    assert_eq!(
        classify(game).unwrap_err(),
        GameParseError::CorruptedStageData(33)
    );
}

#[test]
fn character_id_out_of_domain_fails() {
    let game = Game { starts: vec![26, 20], ..two_player_game(2, 0, 0, 0, None) };
    assert_eq!(
        classify(game).unwrap_err(),
        GameParseError::CorruptedCharData(26)
    );
}

#[test]
fn missing_character_selection_fails() {
    let game = Game { starts: vec![2], ..two_player_game(2, 0, 0, 0, None) };
    assert_eq!(classify(game).unwrap_err(), GameParseError::EmptyCharData);
}

#[test]
fn wrong_participant_count_fails() {
    let mut game = two_player_game(2, 0, 0, 0, None);
    game.players.push(PlayerMeta { netplay_code: Some("THRD#003".to_string()) });
    assert_eq!(
        classify(game).unwrap_err(),
        GameParseError::IncorrectPlayerCount
    );
}

#[test]
fn missing_identity_code_fails() {
    let mut game = two_player_game(2, 0, 0, 0, None);
    game.players[1].netplay_code = None;
    assert_eq!(
        classify(game).unwrap_err(),
        GameParseError::CorruptedPlayerData
    );
}

#[test]
fn absent_tracked_code_fails() {
    let game = two_player_game(2, 0, 0, 0, None);
    assert_eq!(
        GameData::parse_game(game, "ELSE#999".to_string()).unwrap_err(),
        GameParseError::GameDoesNotContainPlayer
    );
}

#[test]
fn frame_data_without_two_ports_fails() {
    let game = Game {
        last_frame: vec![PortState { stocks: 1, damage: 0 }],
        ..two_player_game(2, 0, 0, 0, None)
    };
    assert_eq!(
        classify(game).unwrap_err(),
        GameParseError::IncorrectPlayerCount
    );
}
