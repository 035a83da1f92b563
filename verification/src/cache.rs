//! The persisted cache of classified records: a line-oriented text format
//! with an exact rendering function, a total parser, and the round-trip and
//! dedup laws the incremental scan relies on.
//!
//! The format is one version line followed by one line per record:
//! `timestamp;player;opponent;stage;outcome`, the ids in decimal and the
//! outcome one of `VS`, `VT`, `LS`, `LT`, `T` or `E` followed by a slot
//! number. A record's timestamp is also the dedup key: a file whose
//! serialized timestamp already occurs in the previously persisted text is
//! skipped without a full decode.

use vstd::prelude::*;

use crate::character::Character;
use crate::gamedata::{ts_wf, GameData, GameDataV, MatchEndType, MatchResult};
use crate::parsable_enum::Parsable;
use crate::playerdata::{records_wf, PlayerData, PlayerDataV, CACHE_VER};
use crate::stage::Stage;
use crate::strutil::{
    append_usize, contains_sub, digits_of, digits_val, lemma_digits_of, lemma_scan_to,
    lemma_scan_to_is, nat_parses, parse_usize, scan_to, scan_to_exec, spec_contains,
};

verus! {

// ---------------------------------------------------------------------------
// Rendering
// ---------------------------------------------------------------------------

/// Text of one outcome.
pub open spec fn render_outcome(m: MatchResult) -> Seq<char> {
    match m {
        MatchResult::Victory(MatchEndType::Stocks) => seq!['V', 'S'],
        MatchResult::Victory(MatchEndType::Timeout) => seq!['V', 'T'],
        MatchResult::Loss(MatchEndType::Stocks) => seq!['L', 'S'],
        MatchResult::Loss(MatchEndType::Timeout) => seq!['L', 'T'],
        MatchResult::EarlyEnd(n) => seq!['E'] + digits_of(n as int),
        MatchResult::Tie => seq!['T'],
    }
}

/// Text of one record's line, without the leading line separator.
pub open spec fn record_line(r: GameDataV) -> Seq<char> {
    r.timestamp + seq![';'] + digits_of(r.player_char.spec_id()) + seq![';'] + digits_of(
        r.opponent_char.spec_id(),
    ) + seq![';'] + digits_of(r.stage.spec_id()) + seq![';'] + render_outcome(r.match_result)
}

/// Text of one record: its own line, led by the line separator.
pub open spec fn render_record(r: GameDataV) -> Seq<char> {
    seq!['\n'] + record_line(r)
}

/// Text of a sequence of records, in order.
pub open spec fn render_records(rs: Seq<GameDataV>) -> Seq<char>
    decreases rs.len(),
{
    if rs.len() == 0 {
        Seq::empty()
    } else {
        render_record(rs.first()) + render_records(rs.drop_first())
    }
}

/// The whole persisted text of a corpus.
pub open spec fn spec_render(d: PlayerDataV) -> Seq<char> {
    digits_of(d.cache_ver as int) + render_records(d.results)
}

/// Appending one record extends the rendered text by that record's line.
pub proof fn lemma_render_snoc(rs: Seq<GameDataV>, r: GameDataV)
    ensures
        render_records(rs.push(r)) == render_records(rs) + render_record(r),
    decreases rs.len(),
{
    if rs.len() == 0 {
        assert(rs.push(r).first() == r);
        assert(rs.push(r).drop_first() =~= Seq::<GameDataV>::empty());
        assert(render_records(Seq::<GameDataV>::empty()) == Seq::<char>::empty());
        assert(render_records(rs.push(r)) == render_record(r) + render_records(
            rs.push(r).drop_first(),
        ));
        assert(render_records(rs.push(r)) =~= render_records(rs) + render_record(r));
    } else {
        assert(rs.push(r).first() == rs.first());
        assert(rs.push(r).drop_first() =~= rs.drop_first().push(r));
        lemma_render_snoc(rs.drop_first(), r);
        assert(render_records(rs.push(r)) =~= render_records(rs) + render_record(r));
    }
}

/// Appends the line of one record.
#[verifier::rlimit(60)]
fn append_record(out: &mut String, rec: &GameData)
    ensures
        final(out)@ == old(out)@ + render_record(rec@),
{
    out.append("\n");
    out.append(rec.timestamp.as_str());
    out.append(";");
    append_usize(out, rec.player_char.id());
    out.append(";");
    append_usize(out, rec.opponent_char.id());
    out.append(";");
    append_usize(out, rec.stage.id());
    out.append(";");
    match rec.match_result {
        MatchResult::Victory(MatchEndType::Stocks) => out.append("VS"),
        MatchResult::Victory(MatchEndType::Timeout) => out.append("VT"),
        MatchResult::Loss(MatchEndType::Stocks) => out.append("LS"),
        MatchResult::Loss(MatchEndType::Timeout) => out.append("LT"),
        MatchResult::EarlyEnd(n) => {
            out.append("E");
            append_usize(out, n);
        },
        MatchResult::Tie => out.append("T"),
    }
    proof {
        reveal_strlit("\n");
        reveal_strlit(";");
        reveal_strlit("VS");
        reveal_strlit("VT");
        reveal_strlit("LS");
        reveal_strlit("LT");
        reveal_strlit("E");
        reveal_strlit("T");
        assert(final(out)@ =~= old(out)@ + render_record(rec@));
    }
}

/// Renders the whole corpus to its persisted text.
pub fn render_cache(data: &PlayerData) -> (r: String)
    ensures
        r@ == spec_render(data@),
{
    let ghost rs = data@.results;
    let mut out = String::new();
    append_usize(&mut out, data.cache_version());
    let n = data.num_results();
    let mut i: usize = 0;
    while i < n
        invariant
            n == rs.len(),
            rs == data@.results,
            i <= n,
            out@ == digits_of(data@.cache_ver as int) + render_records(rs.take(i as int)),
        decreases n - i,
    {
        let rec = data.record_at(i);
        proof {
            assert(rs.take(i + 1) =~= rs.take(i as int).push(rs[i as int]));
            lemma_render_snoc(rs.take(i as int), rs[i as int]);
        }
        append_record(&mut out, rec);
        i = i + 1;
    }
    proof {
        assert(rs.take(n as int) =~= rs);
    }
    out
}

// ---------------------------------------------------------------------------
// Parsing: specification
// ---------------------------------------------------------------------------


/// The outcome a field denotes, if any.
pub open spec fn parse_outcome(s: Seq<char>) -> Option<MatchResult> {
    if s == seq!['V', 'S'] {
        Some(MatchResult::Victory(MatchEndType::Stocks))
    } else if s == seq!['V', 'T'] {
        Some(MatchResult::Victory(MatchEndType::Timeout))
    } else if s == seq!['L', 'S'] {
        Some(MatchResult::Loss(MatchEndType::Stocks))
    } else if s == seq!['L', 'T'] {
        Some(MatchResult::Loss(MatchEndType::Timeout))
    } else if s == seq!['T'] {
        Some(MatchResult::Tie)
    } else if s.len() >= 2 && s[0] == 'E' && nat_parses(s.subrange(1, s.len() as int)) {
        Some(MatchResult::EarlyEnd(digits_val(s.subrange(1, s.len() as int)) as usize))
    } else {
        None
    }
}

/// The record one line denotes, if any: four `;`-separated fields before
/// the outcome, the ids in their closed domains.
pub open spec fn parse_record_line(line: Seq<char>) -> Option<GameDataV> {
    let a1 = scan_to(line, 0, ';');
    let a2 = scan_to(line, a1 + 1, ';');
    let a3 = scan_to(line, a2 + 1, ';');
    let a4 = scan_to(line, a3 + 1, ';');
    if a1 == line.len() || a2 == line.len() || a3 == line.len() || a4 == line.len() {
        None
    } else {
        let ts = line.subrange(0, a1);
        let f1 = line.subrange(a1 + 1, a2);
        let f2 = line.subrange(a2 + 1, a3);
        let f3 = line.subrange(a3 + 1, a4);
        let rest = line.subrange(a4 + 1, line.len() as int);
        if nat_parses(f1) && crate::character::valid_char_id(digits_val(f1)) && nat_parses(f2)
            && crate::character::valid_char_id(digits_val(f2)) && nat_parses(f3)
            && crate::stage::valid_stage_id(digits_val(f3)) {
            match parse_outcome(rest) {
                Some(m) => Some(
                    GameDataV {
                        player_char: Character::spec_of_id(digits_val(f1)),
                        opponent_char: Character::spec_of_id(digits_val(f2)),
                        stage: Stage::spec_of_id(digits_val(f3)),
                        match_result: m,
                        timestamp: ts,
                    },
                ),
                None => None,
            }
        } else {
            None
        }
    }
}

/// The records the text from position `i` on denotes: a sequence of
/// `\n`-led lines, each a record.
pub open spec fn parse_records(s: Seq<char>, i: int) -> Option<Seq<GameDataV>>
    decreases s.len() - i via parse_records_decreases
{
    if i < 0 || i > s.len() {
        None
    } else if i == s.len() {
        Some(Seq::empty())
    } else if s[i] != '\n' {
        None
    } else {
        let j = scan_to(s, i + 1, '\n');
        match parse_record_line(s.subrange(i + 1, j)) {
            None => None,
            Some(r) => match parse_records(s, j) {
                None => None,
                Some(rest) => Some(seq![r] + rest),
            },
        }
    }
}

#[via_fn]
proof fn parse_records_decreases(s: Seq<char>, i: int) {
    if 0 <= i && i < s.len() && s[i] == '\n' {
        lemma_scan_to(s, i + 1, '\n');
    }
}

/// The corpus a whole text denotes, if any: a version line, then records.
pub open spec fn spec_parse(s: Seq<char>) -> Option<PlayerDataV> {
    let ver_end = scan_to(s, 0, '\n');
    let ver_txt = s.subrange(0, ver_end);
    if nat_parses(ver_txt) {
        match parse_records(s, ver_end) {
            Some(rs) => Some(
                PlayerDataV { cache_ver: digits_val(ver_txt) as usize, results: rs },
            ),
            None => None,
        }
    } else {
        None
    }
}

/// What loading persisted text yields: the parsed corpus when it is at the
/// current schema version, an empty current-version corpus otherwise.
pub open spec fn spec_load(s: Seq<char>) -> PlayerDataV {
    match spec_parse(s) {
        Some(d) => if d.cache_ver == CACHE_VER {
            d
        } else {
            PlayerDataV { cache_ver: CACHE_VER as usize, results: Seq::empty() }
        },
        None => PlayerDataV { cache_ver: CACHE_VER as usize, results: Seq::empty() },
    }
}

// ---------------------------------------------------------------------------
// Parsing: execution
// ---------------------------------------------------------------------------


/// Executable twin of [`parse_outcome`].
fn parse_outcome_exec(s: &str) -> (r: Option<MatchResult>)
    ensures
        r == parse_outcome(s@),
{
    let len = s.unicode_len();
    if len == 0 {
        return None;
    }
    let c0 = s.get_char(0);
    if len == 2 {
        let c1 = s.get_char(1);
        if c0 == 'V' && c1 == 'S' {
            proof {
                assert(s@ =~= seq!['V', 'S']);
            }
            return Some(MatchResult::Victory(MatchEndType::Stocks));
        }
        if c0 == 'V' && c1 == 'T' {
            proof {
                assert(s@ =~= seq!['V', 'T']);
            }
            return Some(MatchResult::Victory(MatchEndType::Timeout));
        }
        if c0 == 'L' && c1 == 'S' {
            proof {
                assert(s@ =~= seq!['L', 'S']);
            }
            return Some(MatchResult::Loss(MatchEndType::Stocks));
        }
        if c0 == 'L' && c1 == 'T' {
            proof {
                assert(s@ =~= seq!['L', 'T']);
            }
            return Some(MatchResult::Loss(MatchEndType::Timeout));
        }
    }
    if len == 1 {
        if c0 == 'T' {
            proof {
                assert(s@ =~= seq!['T']);
            }
            return Some(MatchResult::Tie);
        }
        return None;
    }
    if c0 == 'E' {
        let rest = s.substring_char(1, len);
        match parse_usize(rest) {
            Some(v) => {
                return Some(MatchResult::EarlyEnd(v));
            },
            None => {
                return None;
            },
        }
    }
    None
}

/// Executable twin of [`parse_record_line`].
fn parse_record_line_exec(line: &str) -> (r: Option<GameData>)
    ensures
        match r {
            Some(g) => parse_record_line(line@) == Some(g@),
            None => parse_record_line(line@) is None,
        },
{
    let len = line.unicode_len();
    let a1 = scan_to_exec(line, 0, ';');
    if a1 == len {
        return None;
    }
    let a2 = scan_to_exec(line, a1 + 1, ';');
    if a2 == len {
        return None;
    }
    let a3 = scan_to_exec(line, a2 + 1, ';');
    if a3 == len {
        return None;
    }
    let a4 = scan_to_exec(line, a3 + 1, ';');
    if a4 == len {
        return None;
    }
    let ts = line.substring_char(0, a1);
    let f1s = line.substring_char(a1 + 1, a2);
    let f2s = line.substring_char(a2 + 1, a3);
    let f3s = line.substring_char(a3 + 1, a4);
    let rest = line.substring_char(a4 + 1, len);
    let f1 = match parse_usize(f1s) {
        Some(v) => v,
        None => {
            return None;
        },
    };
    if f1 >= 26 {
        return None;
    }
    let f2 = match parse_usize(f2s) {
        Some(v) => v,
        None => {
            return None;
        },
    };
    if f2 >= 26 {
        return None;
    }
    let f3 = match parse_usize(f3s) {
        Some(v) => v,
        None => {
            return None;
        },
    };
    if f3 < 2 || f3 > 32 || f3 == 21 || f3 == 26 {
        return None;
    }
    let m = match parse_outcome_exec(rest) {
        Some(m) => m,
        None => {
            return None;
        },
    };
    Some(
        GameData {
            player_char: Character::of_id(f1),
            opponent_char: Character::of_id(f2),
            stage: Stage::of_id(f3),
            match_result: m,
            timestamp: ts.to_owned(),
        },
    )
}

/// Every record a line with no line separator denotes has a timestamp that
/// fits the line format.
proof fn lemma_parsed_line_ts_wf(line: Seq<char>, r: GameDataV)
    requires
        parse_record_line(line) == Some(r),
        forall|k: int| 0 <= k < line.len() ==> line[k] != '\n',
    ensures
        ts_wf(r.timestamp),
{
    let a1 = scan_to(line, 0, ';');
    lemma_scan_to(line, 0, ';');
    assert(r.timestamp == line.subrange(0, a1));
    assert forall|k: int| 0 <= k < r.timestamp.len() implies #[trigger] r.timestamp[k] != '\n'
        && r.timestamp[k] != ';' by {
        assert(r.timestamp[k] == line[k]);
    }
}

/// Parses persisted text into a corpus; total, rejecting any text that is
/// not the rendering of one.
pub fn parse_cache(s: &str) -> (r: Option<PlayerData>)
    ensures
        match r {
            Some(d) => spec_parse(s@) == Some(d@) && records_wf(d@.results),
            None => spec_parse(s@) is None,
        },
{
    let ghost full = s@;
    let len = s.unicode_len();
    let ver_end = scan_to_exec(s, 0, '\n');
    proof {
        lemma_scan_to(full, 0, '\n');
    }
    let ver_txt = s.substring_char(0, ver_end);
    let ver = match parse_usize(ver_txt) {
        Some(v) => v,
        None => {
            return None;
        },
    };
    let mut data = PlayerData::with_version(ver);
    let mut i = ver_end;
    while i < len
        invariant
            len == full.len(),
            full == s@,
            ver_end <= i <= len,
            ver_end == scan_to(full, 0, '\n'),
            nat_parses(full.subrange(0, ver_end as int)),
            ver == digits_val(full.subrange(0, ver_end as int)),
            data@.cache_ver == ver,
            records_wf(data@.results),
            match parse_records(full, i as int) {
                Some(rest) => parse_records(full, ver_end as int) == Some(
                    data@.results + rest,
                ),
                None => parse_records(full, ver_end as int) is None,
            },
        decreases len - i,
    {
        if s.get_char(i) != '\n' {
            return None;
        }
        let j = scan_to_exec(s, i + 1, '\n');
        proof {
            lemma_scan_to(full, i + 1, '\n');
        }
        let line = s.substring_char(i + 1, j);
        let g = match parse_record_line_exec(line) {
            Some(g) => g,
            None => {
                return None;
            },
        };
        proof {
            lemma_parsed_line_ts_wf(line@, g@);
            let rest_opt = parse_records(full, j as int);
            if rest_opt is Some {
                assert(parse_records(full, i as int) == Some(
                    seq![g@] + rest_opt.unwrap(),
                ));
                assert(data@.results + (seq![g@] + rest_opt.unwrap()) =~= data@.results.push(g@)
                    + rest_opt.unwrap());
            }
        }
        data.add_game(g);
        i = j;
    }
    proof {
        assert(parse_records(full, len as int) == Some(Seq::<GameDataV>::empty()));
        assert(data@.results + Seq::<GameDataV>::empty() =~= data@.results);
    }
    Some(data)
}

/// Whether a persisted schema version is the current one.
pub fn is_current(version: usize) -> (r: bool)
    ensures
        r == (version == CACHE_VER),
{
    version == CACHE_VER
}

/// Loads persisted text: the parsed corpus when current, an empty rebuilt
/// corpus otherwise. The second component says whether the text was kept:
/// when it is false the caller must treat the prior text as empty, so that
/// stale records are neither deduplicated against nor retained.
pub fn load_cache(s: &str) -> (r: (PlayerData, bool))
    ensures
        r.0@ == spec_load(s@),
        crate::playerdata::corpus_wf(r.0@),
        r.1 == (spec_parse(s@) matches Some(d) && d.cache_ver == CACHE_VER),
{
    match parse_cache(s) {
        Some(d) => {
            if is_current(d.cache_version()) {
                (d, true)
            } else {
                (PlayerData::new(), false)
            }
        },
        None => (PlayerData::new(), false),
    }
}

/// The dedup decision of the incremental scan: a candidate whose
/// serialized timestamp already occurs in the previously persisted text is
/// skipped.
pub fn should_skip(cache_text: &str, timestamp: &str) -> (r: bool)
    ensures
        r == spec_contains(cache_text@, timestamp@),
{
    contains_sub(cache_text, timestamp)
}

// ---------------------------------------------------------------------------
// Round trip: what was rendered parses back unchanged
// ---------------------------------------------------------------------------

/// The rendered outcome never holds a line or field separator.
proof fn lemma_outcome_chars(m: MatchResult)
    ensures
        forall|k: int|
            0 <= k < render_outcome(m).len() ==> #[trigger] render_outcome(m)[k] != '\n'
                && render_outcome(m)[k] != ';',
{
    match m {
        MatchResult::EarlyEnd(n) => {
            lemma_digits_of(n as int);
            assert forall|k: int| 0 <= k < render_outcome(m).len() implies #[trigger]
                render_outcome(m)[k] != '\n' && render_outcome(m)[k] != ';' by {
                if k > 0 {
                    assert(render_outcome(m)[k] == digits_of(n as int)[k - 1]);
                }
            }
        },
        _ => {},
    }
}

/// The rendered outcome parses back to the outcome.
proof fn lemma_outcome_roundtrip(m: MatchResult)
    ensures
        parse_outcome(render_outcome(m)) == Some(m),
{
    let s = render_outcome(m);
    match m {
        MatchResult::EarlyEnd(n) => {
            lemma_digits_of(n as int);
            assert(s[0] == 'E');
            assert(s != seq!['V', 'S'] && s != seq!['V', 'T'] && s != seq!['L', 'S'] && s
                != seq!['L', 'T'] && s != seq!['T']);
            assert(s.subrange(1, s.len() as int) =~= digits_of(n as int));
            assert(nat_parses(s.subrange(1, s.len() as int)));
        },
        MatchResult::Tie => {
            assert(s == seq!['T']);
            assert(s != seq!['V', 'S'] && s != seq!['V', 'T'] && s != seq!['L', 'S'] && s
                != seq!['L', 'T']);
        },
        _ => {},
    }
}

/// The rendered line of a well-formed record never holds a line separator.
proof fn lemma_record_line_chars(r: GameDataV)
    requires
        ts_wf(r.timestamp),
    ensures
        forall|k: int|
            0 <= k < record_line(r).len() ==> #[trigger] record_line(r)[k] != '\n',
{
    let line = record_line(r);
    let ts = r.timestamp;
    let d1 = digits_of(r.player_char.spec_id());
    let d2 = digits_of(r.opponent_char.spec_id());
    let d3 = digits_of(r.stage.spec_id());
    let out = render_outcome(r.match_result);
    crate::character::lemma_char_id_roundtrip(r.player_char);
    crate::character::lemma_char_id_roundtrip(r.opponent_char);
    crate::stage::lemma_stage_id_roundtrip(r.stage);
    lemma_digits_of(r.player_char.spec_id());
    lemma_digits_of(r.opponent_char.spec_id());
    lemma_digits_of(r.stage.spec_id());
    lemma_outcome_chars(r.match_result);
    let a1 = ts.len() as int;
    let a2 = a1 + 1 + d1.len();
    let a3 = a2 + 1 + d2.len();
    let a4 = a3 + 1 + d3.len();
    assert forall|k: int| 0 <= k < line.len() implies #[trigger] line[k] != '\n' by {
        if k < a1 {
            assert(line[k] == ts[k]);
        } else if k == a1 {
            assert(line[k] == ';');
        } else if k < a2 {
            assert(line[k] == d1[k - a1 - 1]);
        } else if k == a2 {
            assert(line[k] == ';');
        } else if k < a3 {
            assert(line[k] == d2[k - a2 - 1]);
        } else if k == a3 {
            assert(line[k] == ';');
        } else if k < a4 {
            assert(line[k] == d3[k - a3 - 1]);
        } else if k == a4 {
            assert(line[k] == ';');
        } else {
            assert(line[k] == out[k - a4 - 1]);
        }
    }
}

/// The rendered line of a well-formed record parses back to the record.
#[verifier::rlimit(100)]
proof fn lemma_line_roundtrip(r: GameDataV)
    requires
        ts_wf(r.timestamp),
    ensures
        parse_record_line(record_line(r)) == Some(r),
{
    let line = record_line(r);
    let ts = r.timestamp;
    let d1 = digits_of(r.player_char.spec_id());
    let d2 = digits_of(r.opponent_char.spec_id());
    let d3 = digits_of(r.stage.spec_id());
    let out = render_outcome(r.match_result);
    crate::character::lemma_char_id_roundtrip(r.player_char);
    crate::character::lemma_char_id_roundtrip(r.opponent_char);
    crate::stage::lemma_stage_id_roundtrip(r.stage);
    lemma_digits_of(r.player_char.spec_id());
    lemma_digits_of(r.opponent_char.spec_id());
    lemma_digits_of(r.stage.spec_id());
    lemma_outcome_chars(r.match_result);
    lemma_outcome_roundtrip(r.match_result);
    let a1 = ts.len() as int;
    let a2 = a1 + 1 + d1.len();
    let a3 = a2 + 1 + d2.len();
    let a4 = a3 + 1 + d3.len();
    assert(line.len() == a4 + 1 + out.len());
    assert forall|k: int| 0 <= k < a1 implies line[k] == ts[k] && #[trigger] line[k] != ';' by {
        assert(line[k] == ts[k]);
    }
    assert(line[a1] == ';');
    assert forall|k: int| a1 < k < a2 implies #[trigger] line[k] == d1[k - a1 - 1] && line[k]
        != ';' by {
        assert(line[k] == d1[k - a1 - 1]);
    }
    assert(line[a2] == ';');
    assert forall|k: int| a2 < k < a3 implies #[trigger] line[k] == d2[k - a2 - 1] && line[k]
        != ';' by {
        assert(line[k] == d2[k - a2 - 1]);
    }
    assert(line[a3] == ';');
    assert forall|k: int| a3 < k < a4 implies #[trigger] line[k] == d3[k - a3 - 1] && line[k]
        != ';' by {
        assert(line[k] == d3[k - a3 - 1]);
    }
    assert(line[a4] == ';');
    assert forall|k: int| a4 < k < line.len() implies #[trigger] line[k] == out[k - a4 - 1] by {
        assert(line[k] == out[k - a4 - 1]);
    }
    lemma_scan_to_is(line, 0, a1, ';');
    lemma_scan_to_is(line, a1 + 1, a2, ';');
    lemma_scan_to_is(line, a2 + 1, a3, ';');
    lemma_scan_to_is(line, a3 + 1, a4, ';');
    assert(line.subrange(0, a1) =~= ts);
    assert(line.subrange(a1 + 1, a2) =~= d1);
    assert(line.subrange(a2 + 1, a3) =~= d2);
    assert(line.subrange(a3 + 1, a4) =~= d3);
    assert(line.subrange(a4 + 1, line.len() as int) =~= out);
    assert(parse_record_line(line) == Some(r));
}

/// Rendered records parse back unchanged from any position they occupy.
#[verifier::rlimit(100)]
#[verifier::spinoff_prover]
proof fn lemma_records_roundtrip(s: Seq<char>, i: int, rs: Seq<GameDataV>)
    requires
        0 <= i <= s.len(),
        records_wf(rs),
        s.subrange(i, s.len() as int) == render_records(rs),
    ensures
        parse_records(s, i) == Some(rs),
    decreases rs.len(),
{
    if rs.len() == 0 {
        assert(s.subrange(i, s.len() as int).len() == 0);
        assert(i == s.len());
    } else {
        let first = rs.first();
        let rest = rs.drop_first();
        assert(ts_wf(first.timestamp));
        assert(records_wf(rest)) by {
            assert(forall|k: int|
                0 <= k < rest.len() ==> #[trigger] rest[k].timestamp == rs[k + 1].timestamp);
        }
        let line = record_line(first);
        let rr = render_record(first);
        let tail = render_records(rest);
        assert(render_records(rs) == rr + tail);
        let j = i + 1 + line.len();
        assert(s.len() == i + 1 + line.len() + tail.len());
        assert forall|k: int| i <= k < s.len() implies #[trigger] s[k] == render_records(rs)[k
            - i] by {
            assert(s[k] == s.subrange(i, s.len() as int)[k - i]);
        }
        assert(s[i] == '\n');
        lemma_record_line_chars(first);
        assert forall|k: int| i + 1 <= k < j implies #[trigger] s[k] != '\n' by {
            assert(s[k] == render_records(rs)[k - i]);
            assert(render_records(rs)[k - i] == rr[k - i]);
            assert(rr[k - i] == line[k - i - 1]);
        }
        if tail.len() > 0 {
            assert(render_records(rest) == render_record(rest.first()) + render_records(
                rest.drop_first(),
            ));
            assert(s[j] == render_records(rs)[j - i]);
            assert(render_records(rs)[j - i] == tail[j - i - 1 - line.len()]);
            assert(s[j] == '\n');
            lemma_scan_to_is(s, i + 1, j, '\n');
        } else {
            assert(j == s.len());
            lemma_scan_to_is(s, i + 1, j, '\n');
        }
        assert(s.subrange(i + 1, j) =~= line) by {
            assert forall|k: int| 0 <= k < line.len() implies s.subrange(i + 1, j)[k] == line[k]
                by {
                assert(s[i + 1 + k] == render_records(rs)[k + 1]);
                assert(render_records(rs)[k + 1] == rr[k + 1]);
            }
        }
        lemma_line_roundtrip(first);
        assert(s.subrange(j, s.len() as int) =~= tail) by {
            assert forall|k: int| 0 <= k < tail.len() implies s.subrange(j, s.len() as int)[k]
                == tail[k] by {
                assert(s[j + k] == render_records(rs)[j + k - i]);
            }
        }
        lemma_records_roundtrip(s, j, rest);
        assert(seq![first] + rest =~= rs);
    }
}

/// Rendered text parses back to the corpus it was rendered from.
pub proof fn lemma_cache_roundtrip(d: PlayerDataV)
    requires
        records_wf(d.results),
    ensures
        spec_parse(spec_render(d)) == Some(d),
{
    let s = spec_render(d);
    let digits = digits_of(d.cache_ver as int);
    let body = render_records(d.results);
    lemma_digits_of(d.cache_ver as int);
    assert(s.len() == digits.len() + body.len());
    assert forall|k: int| 0 <= k < digits.len() implies #[trigger] s[k] == digits[k] && s[k]
        != '\n' by {
        assert(s[k] == digits[k]);
    }
    let ver_end = digits.len() as int;
    if d.results.len() > 0 {
        assert(body == render_record(d.results.first()) + render_records(
            d.results.drop_first(),
        ));
        assert(s[ver_end] == body[0]);
        assert(s[ver_end] == '\n');
        lemma_scan_to_is(s, 0, ver_end, '\n');
    } else {
        assert(body.len() == 0);
        lemma_scan_to_is(s, 0, ver_end, '\n');
    }
    assert(s.subrange(0, ver_end) =~= digits);
    assert(nat_parses(s.subrange(0, ver_end)));
    assert(digits_val(s.subrange(0, ver_end)) == d.cache_ver as int);
    assert(s.subrange(ver_end, s.len() as int) =~= body);
    lemma_records_roundtrip(s, ver_end, d.results);
    assert(spec_parse(s) == Some(
        PlayerDataV { cache_ver: d.cache_ver, results: d.results },
    ));
    assert(PlayerDataV { cache_ver: d.cache_ver, results: d.results } == d);
}

/// Re-loading a persisted current-version corpus yields that corpus
/// unchanged: the round-trip half of cache idempotence.
pub proof fn lemma_load_roundtrip(d: PlayerDataV)
    requires
        crate::playerdata::corpus_wf(d),
    ensures
        spec_load(spec_render(d)) == d,
{
    lemma_cache_roundtrip(d);
}

/// A persisted corpus of any other schema version is discarded wholesale:
/// none of its records survive a load.
pub proof fn lemma_stale_version_discarded(d: PlayerDataV)
    requires
        records_wf(d.results),
        d.cache_ver != CACHE_VER,
    ensures
        spec_load(spec_render(d)) == (PlayerDataV {
            cache_ver: CACHE_VER as usize,
            results: Seq::<GameDataV>::empty(),
        }),
{
    lemma_cache_roundtrip(d);
}

// ---------------------------------------------------------------------------
// Dedup: every persisted record's timestamp is found again
// ---------------------------------------------------------------------------

/// A substring of the right part is a substring of the whole.
proof fn lemma_contains_shift(a: Seq<char>, b: Seq<char>, t: Seq<char>)
    requires
        spec_contains(b, t),
    ensures
        spec_contains(a + b, t),
{
    let i = choose|i: int| crate::strutil::matches_at(b, t, i);
    assert((a + b).subrange(a.len() + i, a.len() + i + t.len()) =~= t) by {
        assert(b.subrange(i, i + t.len()) == t);
        assert forall|k: int| 0 <= k < t.len() implies (a + b).subrange(
            a.len() + i,
            a.len() + i + t.len(),
        )[k] == t[k] by {
            assert((a + b)[a.len() + i + k] == b[i + k]);
            assert(b[i + k] == b.subrange(i, i + t.len())[k]);
        }
    }
    assert(crate::strutil::matches_at(a + b, t, a.len() + i));
}

/// A slice of the left part is a substring of the whole.
proof fn lemma_contains_left(a: Seq<char>, b: Seq<char>, t: Seq<char>, i: int)
    requires
        0 <= i,
        i + t.len() <= a.len(),
        a.subrange(i, i + t.len()) == t,
    ensures
        spec_contains(a + b, t),
{
    assert((a + b).subrange(i, i + t.len()) =~= t) by {
        assert forall|k: int| 0 <= k < t.len() implies (a + b).subrange(i, i + t.len())[k]
            == t[k] by {
            assert((a + b)[i + k] == a[i + k]);
            assert(a[i + k] == a.subrange(i, i + t.len())[k]);
        }
    }
    assert(crate::strutil::matches_at(a + b, t, i));
}

/// Each record's timestamp occurs in the rendered record text.
proof fn lemma_records_contain_ts(rs: Seq<GameDataV>, i: int)
    requires
        0 <= i < rs.len(),
    ensures
        spec_contains(render_records(rs), rs[i].timestamp),
    decreases i,
{
    let first = rs.first();
    let rest = rs.drop_first();
    assert(render_records(rs) == render_record(first) + render_records(rest));
    if i == 0 {
        let ts = first.timestamp;
        let rr = render_record(first);
        assert(rr.subrange(1, 1 + ts.len() as int) =~= ts) by {
            assert forall|k: int| 0 <= k < ts.len() implies rr.subrange(1, 1 + ts.len() as int)[k]
                == ts[k] by {
                assert(rr[1 + k] == record_line(first)[k]);
                assert(record_line(first)[k] == ts[k]);
            }
        }
        lemma_contains_left(rr, render_records(rest), ts, 1);
    } else {
        assert(rest[i - 1] == rs[i]);
        lemma_records_contain_ts(rest, i - 1);
        lemma_contains_shift(render_record(first), render_records(rest), rs[i].timestamp);
    }
}

/// The dedup key of every persisted record is found in the persisted text:
/// with the round trip, a rescan over the same files classifies nothing
/// anew and persists identical text.
pub proof fn lemma_cache_contains_timestamp(d: PlayerDataV, i: int)
    requires
        0 <= i < d.results.len(),
    ensures
        spec_contains(spec_render(d), d.results[i].timestamp),
{
    lemma_records_contain_ts(d.results, i);
    lemma_contains_shift(
        digits_of(d.cache_ver as int),
        render_records(d.results),
        d.results[i].timestamp,
    );
}

} // verus!
