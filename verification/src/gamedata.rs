//! The classified record of one match and the decision procedure that
//! produces it from a decoded replay.
//!
//! Replay decoding itself is an external concern: callers decode a file and
//! hand over a [`Game`], which holds as plain values exactly what the
//! classification reads — participant identity codes, character and stage
//! selections, the final per-port state, the match timestamp, and the
//! optional early-termination signal.

use vstd::prelude::*;

use crate::character::Character;
use crate::stage::Stage;
use crate::strutil::str_eq;

verus! {

/// How a naturally concluded match ended.
#[derive(Clone, Copy, Debug, PartialEq, Eq, Structural)]
pub enum MatchEndType {
    Stocks,
    Timeout,
}

/// The typed outcome of one match, seen from the tracked participant.
/// `EarlyEnd` carries the 1-based slot of the participant who ended the
/// match early.
#[derive(Clone, Copy, Debug, PartialEq, Eq, Structural)]
pub enum MatchResult {
    Victory(MatchEndType),
    Loss(MatchEndType),
    EarlyEnd(usize),
    Tie,
}

/// Why a replay could not be classified into a record.
#[derive(Clone, Copy, Debug, PartialEq, Eq, Structural)]
pub enum GameParseError {
    CorruptedCharData(usize),
    CorruptedStageData(usize),
    CorruptedPlayerData,
    EmptyCharData,
    IncorrectPlayerCount,
    GameDoesNotContainPlayer,
}

/// Identity metadata of one participant: its identity code, when present.
pub struct PlayerMeta {
    pub netplay_code: Option<String>,
}

/// Final recorded state of one port: remaining stocks and accumulated
/// damage, the damage in hundredths of a percent.
#[derive(Clone, Copy, Debug, PartialEq, Eq, Structural)]
pub struct PortState {
    pub stocks: u8,
    pub damage: u32,
}

/// What the classification reads from one decoded replay.
pub struct Game {
    /// Participant metadata entries.
    pub players: Vec<PlayerMeta>,
    /// Character id selected by each participant, by slot.
    pub starts: Vec<usize>,
    /// Raw stage id of the match.
    pub stage: usize,
    /// Match start time, as serialized text; the cache dedup key.
    pub timestamp: String,
    /// Per-port state on the last recorded frame.
    pub last_frame: Vec<PortState>,
    /// 1-based slot of the early-termination initiator, if any.
    pub lras_initiator: Option<usize>,
}

/// One classified match.
#[derive(Debug)]
pub struct GameData {
    pub player_char: Character,
    pub opponent_char: Character,
    pub stage: Stage,
    pub match_result: MatchResult,
    pub timestamp: String,
}

/// Mathematical model of a classified match.
pub struct GameDataV {
    pub player_char: Character,
    pub opponent_char: Character,
    pub stage: Stage,
    pub match_result: MatchResult,
    pub timestamp: Seq<char>,
}

impl View for GameData {
    type V = GameDataV;

    open spec fn view(&self) -> GameDataV {
        GameDataV {
            player_char: self.player_char,
            opponent_char: self.opponent_char,
            stage: self.stage,
            match_result: self.match_result,
            timestamp: self.timestamp@,
        }
    }
}

/// The models of a sequence of records.
pub open spec fn views_of(s: Seq<GameData>) -> Seq<GameDataV> {
    s.map_values(|g: GameData| g@)
}

/// Whether a record counts as a win for the tracked participant.
pub open spec fn spec_is_victory(g: GameDataV) -> bool {
    g.match_result matches MatchResult::Victory(_)
}

/// A timestamp that fits one line of the cache format: free of the line and
/// field separators.
pub open spec fn ts_wf(s: Seq<char>) -> bool {
    forall|i: int| 0 <= i < s.len() ==> #[trigger] s[i] != '\n' && s[i] != ';'
}

/// Executable twin of [`ts_wf`].
pub fn timestamp_ok(s: &str) -> (r: bool)
    ensures
        r == ts_wf(s@),
{
    let len = s.unicode_len();
    let mut i: usize = 0;
    while i < len
        invariant
            len == s@.len(),
            i <= len,
            forall|k: int| 0 <= k < i ==> #[trigger] s@[k] != '\n' && s@[k] != ';',
        decreases len - i,
    {
        let c = s.get_char(i);
        if c == '\n' || c == ';' {
            return false;
        }
        i = i + 1;
    }
    true
}

/// The identity code of the participant in slot `i`, if it carries one.
pub open spec fn player_code(g: Game, i: int) -> Option<Seq<char>> {
    match g.players@[i].netplay_code {
        Some(c) => Some(c@),
        None => None,
    }
}

/// A raw stage id outside the closed stage domain: zero, one of the
/// reserved values, or past the largest defined id.
pub open spec fn invalid_stage_id(id: usize) -> bool {
    id == 0 || id == 1 || id == 21 || id == 26 || id > 32
}

/// The outcome decision procedure: an early-termination signal pre-empts
/// everything; otherwise more final stocks win, and equal stocks fall back
/// to the damage tie-break, lower damage winning.
pub open spec fn spec_match_result(g: Game, p: int) -> Result<MatchResult, GameParseError> {
    if g.last_frame@.len() != 2 {
        Err(GameParseError::IncorrectPlayerCount)
    } else {
        match g.lras_initiator {
            Some(n) => Ok(MatchResult::EarlyEnd(n)),
            None => {
                let ps = g.last_frame@[p];
                let os = g.last_frame@[1 - p];
                if ps.stocks > os.stocks {
                    Ok(MatchResult::Victory(MatchEndType::Stocks))
                } else if ps.stocks < os.stocks {
                    Ok(MatchResult::Loss(MatchEndType::Stocks))
                } else if ps.damage < os.damage {
                    Ok(MatchResult::Victory(MatchEndType::Timeout))
                } else if ps.damage > os.damage {
                    Ok(MatchResult::Loss(MatchEndType::Timeout))
                } else {
                    Ok(MatchResult::Tie)
                }
            },
        }
    }
}

/// The character selected by slot `p`: absent selections and ids outside
/// the character domain are rejected.
pub open spec fn spec_get_char(g: Game, p: int) -> Result<Character, GameParseError> {
    if p >= g.starts@.len() {
        Err(GameParseError::EmptyCharData)
    } else if g.starts@[p] >= 26 {
        Err(GameParseError::CorruptedCharData(g.starts@[p]))
    } else {
        Ok(Character::spec_of_id(g.starts@[p] as int))
    }
}

/// The slot of the tracked participant: slot 1 when its code matches,
/// slot 0 otherwise.
pub open spec fn spec_player_num(g: Game, code: Seq<char>) -> int {
    if player_code(g, 1) == Some(code) {
        1
    } else {
        0
    }
}

/// The whole classification of one decoded replay for the tracked identity
/// code, checks in their observable order: participant count, identity
/// codes, membership, outcome, both characters, stage.
pub open spec fn spec_parse_game(g: Game, code: Seq<char>) -> Result<GameDataV, GameParseError> {
    if g.players@.len() != 2 {
        Err(GameParseError::IncorrectPlayerCount)
    } else if player_code(g, 0) is None || player_code(g, 1) is None {
        Err(GameParseError::CorruptedPlayerData)
    } else if player_code(g, 0) != Some(code) && player_code(g, 1) != Some(code) {
        Err(GameParseError::GameDoesNotContainPlayer)
    } else {
        let p: int = spec_player_num(g, code);
        match spec_match_result(g, p) {
            Err(e) => Err(e),
            Ok(mr) => match spec_get_char(g, p) {
                Err(e) => Err(e),
                Ok(pc) => match spec_get_char(g, 1 - p) {
                    Err(e) => Err(e),
                    Ok(oc) => if invalid_stage_id(g.stage) {
                        Err(GameParseError::CorruptedStageData(g.stage))
                    } else {
                        Ok(GameDataV {
                            player_char: pc,
                            opponent_char: oc,
                            stage: Stage::spec_of_id(g.stage as int),
                            match_result: mr,
                            timestamp: g.timestamp@,
                        })
                    },
                },
            },
        }
    }
}

impl GameData {
    /// Classifies one decoded replay for the tracked identity code.
    pub fn parse_game(game: Game, np_code: String) -> (r: Result<GameData, GameParseError>)
        ensures
            match r {
                Ok(d) => spec_parse_game(game, np_code@) == Ok::<GameDataV, GameParseError>(d@),
                Err(e) => spec_parse_game(game, np_code@) == Err::<GameDataV, GameParseError>(e),
            },
    {
        if game.players.len() != 2 {
            return Err(GameParseError::IncorrectPlayerCount);
        }
        let found = match has_player(&game, np_code.as_str()) {
            Ok(b) => b,
            Err(e) => {
                return Err(e);
            },
        };
        if !found {
            return Err(GameParseError::GameDoesNotContainPlayer);
        }
        let player_num = match get_player_num(&game, np_code.as_str()) {
            Some(num) => num,
            None => {
                return Err(GameParseError::CorruptedPlayerData);
            },
        };
        let match_result = match get_match_result(&game, player_num) {
            Ok(game_res) => game_res,
            Err(e) => {
                return Err(e);
            },
        };
        let player_char = match get_char(&game, player_num) {
            Ok(c) => c,
            Err(e) => {
                return Err(e);
            },
        };
        let opponent_char = match get_char(&game, 1 - player_num) {
            Ok(c) => c,
            Err(e) => {
                return Err(e);
            },
        };
        let stage_num = game.stage;
        if stage_num == 0 || stage_num == 1 || stage_num == 21 || stage_num == 26 || stage_num
            > 32 {
            return Err(GameParseError::CorruptedStageData(stage_num));
        }
        let stage = Stage::of_id(stage_num);
        Ok(GameData {
            player_char,
            opponent_char,
            stage,
            match_result,
            timestamp: game.timestamp,
        })
    }

    /// A copy of this record.
    pub fn duplicate(&self) -> (r: GameData)
        ensures
            r@ == self@,
    {
        GameData {
            player_char: self.player_char,
            opponent_char: self.opponent_char,
            stage: self.stage,
            match_result: self.match_result,
            timestamp: self.timestamp.clone(),
        }
    }

    /// Whether this record counts as a win for the tracked participant.
    pub fn is_victory(&self) -> (r: bool)
        ensures
            r == self.match_result matches MatchResult::Victory(_),
    {
        matches!(self.match_result, MatchResult::Victory(_))
    }
}

// ---------------------------------------------------------------------------
// Laws of the outcome decision procedure
// ---------------------------------------------------------------------------

/// With no early-termination signal, a strict stock lead decides the match
/// by stocks: more final stocks win, fewer lose, whatever the damage.
pub proof fn lemma_stock_lead_decides(g: Game, p: int)
    requires
        g.last_frame@.len() == 2,
        0 <= p < 2,
        g.lras_initiator is None,
    ensures
        g.last_frame@[p].stocks > g.last_frame@[1 - p].stocks ==> spec_match_result(g, p)
            == Ok::<MatchResult, GameParseError>(MatchResult::Victory(MatchEndType::Stocks)),
        g.last_frame@[p].stocks < g.last_frame@[1 - p].stocks ==> spec_match_result(g, p)
            == Ok::<MatchResult, GameParseError>(MatchResult::Loss(MatchEndType::Stocks)),
{
}

/// With equal final stocks and no early-termination signal, accumulated
/// damage breaks the tie: strictly less damage wins by timeout, strictly
/// more loses, and exact equality is a tie.
pub proof fn lemma_timeout_tiebreak(g: Game, p: int)
    requires
        g.last_frame@.len() == 2,
        0 <= p < 2,
        g.lras_initiator is None,
        g.last_frame@[p].stocks == g.last_frame@[1 - p].stocks,
    ensures
        g.last_frame@[p].damage < g.last_frame@[1 - p].damage ==> spec_match_result(g, p)
            == Ok::<MatchResult, GameParseError>(MatchResult::Victory(MatchEndType::Timeout)),
        g.last_frame@[p].damage > g.last_frame@[1 - p].damage ==> spec_match_result(g, p)
            == Ok::<MatchResult, GameParseError>(MatchResult::Loss(MatchEndType::Timeout)),
        g.last_frame@[p].damage == g.last_frame@[1 - p].damage ==> spec_match_result(g, p)
            == Ok::<MatchResult, GameParseError>(MatchResult::Tie),
{
}

/// An early-termination signal always pre-empts the stock and damage
/// state: the outcome names its initiator, whatever the final frame holds.
pub proof fn lemma_early_end_preempts(g: Game, p: int, n: usize)
    requires
        g.last_frame@.len() == 2,
        g.lras_initiator == Some(n),
    ensures
        spec_match_result(g, p) == Ok::<MatchResult, GameParseError>(MatchResult::EarlyEnd(n)),
{
}

/// Whether the classification of `g` gets as far as the stage check.
pub open spec fn reaches_stage_check(g: Game, code: Seq<char>) -> bool {
    &&& g.players@.len() == 2
    &&& player_code(g, 0) is Some
    &&& player_code(g, 1) is Some
    &&& (player_code(g, 0) == Some(code) || player_code(g, 1) == Some(code))
    &&& spec_match_result(g, spec_player_num(g, code)) is Ok
    &&& spec_get_char(g, spec_player_num(g, code)) is Ok
    &&& spec_get_char(g, 1 - spec_player_num(g, code)) is Ok
}

/// A raw stage id outside the closed stage domain never classifies into a
/// record; once every earlier check has passed, it fails with exactly
/// `CorruptedStageData` carrying that id.
pub proof fn lemma_reserved_stage_rejected(g: Game, code: Seq<char>)
    requires
        invalid_stage_id(g.stage),
    ensures
        !(spec_parse_game(g, code) is Ok),
        reaches_stage_check(g, code) ==> spec_parse_game(g, code) == Err::<
            GameDataV,
            GameParseError,
        >(GameParseError::CorruptedStageData(g.stage)),
{
}

// ---------------------------------------------------------------------------
// A compact, raw-id form of classified results
// ---------------------------------------------------------------------------

/// One classified match reduced to the raw numeric ids of its domain
/// values.
pub struct GameResult {
    pub player_char: usize,
    pub opponent_char: usize,
    pub stage: usize,
    pub match_result: MatchResult,
}

impl GameResult {
    /// The raw-id form of one record.
    pub fn of_record(g: &GameData) -> (r: GameResult)
        ensures
            r.player_char as int == g.player_char.spec_id(),
            r.opponent_char as int == g.opponent_char.spec_id(),
            r.stage as int == g.stage.spec_id(),
            r.match_result == g.match_result,
    {
        GameResult {
            player_char: g.player_char.id(),
            opponent_char: g.opponent_char.id(),
            stage: g.stage.id(),
            match_result: g.match_result,
        }
    }
}

/// An ordered collection of raw-id results.
pub struct GameResults {
    pub results: Vec<GameResult>,
}

impl GameResults {
    /// An empty collection.
    pub fn new() -> (r: GameResults)
        ensures
            r.results@.len() == 0,
    {
        GameResults { results: Vec::new() }
    }
}

/// The identity code of slot `p_number`, or `CorruptedPlayerData` when the
/// entry carries none.
fn get_np_code<'a>(players: &'a Vec<PlayerMeta>, p_number: usize) -> (r: Result<
    &'a str,
    GameParseError,
>)
    requires
        p_number < players@.len(),
    ensures
        match r {
            Ok(c) => players@[p_number as int].netplay_code matches Some(s) && c@ == s@,
            Err(e) => players@[p_number as int].netplay_code is None && e
                == GameParseError::CorruptedPlayerData,
        },
{
    let p_md = &players[p_number];
    match &p_md.netplay_code {
        Some(c) => Ok(c.as_str()),
        None => Err(GameParseError::CorruptedPlayerData),
    }
}

/// Does either of the two slots carry the tracked identity code?
fn has_player(game: &Game, np_code: &str) -> (r: Result<bool, GameParseError>)
    requires
        game.players@.len() == 2,
    ensures
        match r {
            Ok(b) => player_code(*game, 0) is Some && player_code(*game, 1) is Some && b == (
            player_code(*game, 0) == Some(np_code@) || player_code(*game, 1) == Some(np_code@)),
            Err(e) => (player_code(*game, 0) is None || player_code(*game, 1) is None) && e
                == GameParseError::CorruptedPlayerData,
        },
{
    let p1_np_code = match get_np_code(&game.players, 0) {
        Ok(c) => c,
        Err(e) => {
            return Err(e);
        },
    };
    let p2_np_code = match get_np_code(&game.players, 1) {
        Ok(c) => c,
        Err(e) => {
            return Err(e);
        },
    };
    Ok(str_eq(p1_np_code, np_code) || str_eq(p2_np_code, np_code))
}

/// The slot of the tracked participant: slot 1 when its code matches, slot
/// 0 otherwise; `None` when slot 1 carries no code.
fn get_player_num(game: &Game, np_code: &str) -> (r: Option<usize>)
    requires
        game.players@.len() == 2,
    ensures
        match r {
            Some(n) => player_code(*game, 1) is Some && (n == 1usize <==> player_code(*game, 1)
                == Some(np_code@)) && (n == 1 || n == 0),
            None => player_code(*game, 1) is None,
        },
{
    let p2_md = &game.players[1];
    let p2_np_code = match &p2_md.netplay_code {
        Some(c) => c,
        None => {
            return None;
        },
    };
    if str_eq(p2_np_code.as_str(), np_code) {
        Some(1)
    } else {
        Some(0)
    }
}

/// Applies the outcome decision procedure to the final recorded state.
fn get_match_result(game: &Game, player_num: usize) -> (r: Result<MatchResult, GameParseError>)
    requires
        player_num < 2,
    ensures
        r == spec_match_result(*game, player_num as int),
{
    if game.last_frame.len() != 2 {
        return Err(GameParseError::IncorrectPlayerCount);
    }
    match game.lras_initiator {
        Some(n) => Ok(MatchResult::EarlyEnd(n)),
        None => {
            let pp_lf = &game.last_frame[player_num];
            let op_lf = &game.last_frame[1 - player_num];
            let p_end_stocks = pp_lf.stocks;
            let o_end_stocks = op_lf.stocks;
            if p_end_stocks > o_end_stocks {
                Ok(MatchResult::Victory(MatchEndType::Stocks))
            } else if p_end_stocks < o_end_stocks {
                Ok(MatchResult::Loss(MatchEndType::Stocks))
            } else if pp_lf.damage < op_lf.damage {
                Ok(MatchResult::Victory(MatchEndType::Timeout))
            } else if pp_lf.damage > op_lf.damage {
                Ok(MatchResult::Loss(MatchEndType::Timeout))
            } else {
                Ok(MatchResult::Tie)
            }
        },
    }
}

/// The character selected by the given slot.
fn get_char(game: &Game, player: usize) -> (r: Result<Character, GameParseError>)
    ensures
        r == spec_get_char(*game, player as int),
{
    if player >= game.starts.len() {
        return Err(GameParseError::EmptyCharData);
    }
    let char_num = game.starts[player];
    if char_num >= 26 {
        return Err(GameParseError::CorruptedCharData(char_num));
    }
    Ok(Character::of_id(char_num))
}

} // verus!
