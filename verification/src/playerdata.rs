//! The corpus of classified records and the win/loss statistics over it:
//! a generic bucketer over any closed enumerable domain, the favorite/best
//! selection, and the query operations.

use vstd::prelude::*;

use crate::character::Character;
use crate::gamedata::{
    spec_is_victory, spec_parse_game, ts_wf, views_of, Game, GameData, GameDataV, GameParseError,
};
use crate::parsable_enum::{GameDataCondition, Numbered, Parsable};
use crate::stage::Stage;

verus! {

/// Version of the cache schema; a persisted cache of any other version is
/// discarded wholesale and rebuilt.
pub const CACHE_VER: usize = 8;

// ---------------------------------------------------------------------------
// Counting records
// ---------------------------------------------------------------------------

/// How many records of `s` satisfy `p`.
pub open spec fn count_where(s: Seq<GameDataV>, p: spec_fn(GameDataV) -> bool) -> int
    decreases s.len(),
{
    if s.len() == 0 {
        0
    } else {
        count_where(s.drop_last(), p) + if p(s.last()) {
            1int
        } else {
            0int
        }
    }
}

/// A count is between zero and the length of the sequence.
pub proof fn lemma_count_bounds(s: Seq<GameDataV>, p: spec_fn(GameDataV) -> bool)
    ensures
        0 <= count_where(s, p) <= s.len(),
    decreases s.len(),
{
    if s.len() > 0 {
        lemma_count_bounds(s.drop_last(), p);
    }
}

/// Extending a prefix by one record extends its count by that record.
pub proof fn lemma_count_step(s: Seq<GameDataV>, i: int, p: spec_fn(GameDataV) -> bool)
    requires
        0 <= i < s.len(),
    ensures
        count_where(s.take(i + 1), p) == count_where(s.take(i), p) + if p(s[i]) {
            1int
        } else {
            0int
        },
{
    assert(s.take(i + 1).drop_last() =~= s.take(i));
    assert(s.take(i + 1).last() == s[i]);
}

// ---------------------------------------------------------------------------
// One bucket
// ---------------------------------------------------------------------------

/// Win/loss tally of one bucket: `games` played, of which `wins` were won.
#[derive(Clone, Copy, Debug, PartialEq, Eq, Structural)]
pub struct WinLossData {
    pub games: usize,
    pub wins: usize,
}

/// A bucket never counts more wins than games.
pub open spec fn bucket_wf(d: WinLossData) -> bool {
    d.wins <= d.games
}

/// Winrate of a bucket, in hundredths of a percent.
pub open spec fn spec_winrate(d: WinLossData) -> int {
    (d.wins * 10000) as int / d.games as int
}

impl WinLossData {
    /// A bucket starts with no games recorded.
    pub fn new() -> (r: WinLossData)
        ensures
            r.games == 0,
            r.wins == 0,
    {
        WinLossData { games: 0, wins: 0 }
    }

    /// Records one game, won when `is_win`.
    pub fn add_game(&mut self, is_win: bool)
        requires
            bucket_wf(*old(self)),
            old(self).games < usize::MAX,
        ensures
            bucket_wf(*final(self)),
            final(self).games == old(self).games + 1,
            final(self).wins == old(self).wins + if is_win {
                1int
            } else {
                0int
            },
    {
        self.games = self.games + 1;
        if is_win {
            proof {
                assert(self.wins < usize::MAX);
            }
            self.wins = self.wins + 1;
        }
    }

    /// Winrate in hundredths of a percent; `None` when no game was played.
    pub fn winrate(&self) -> (r: Option<u64>)
        requires
            bucket_wf(*self),
        ensures
            self.games == 0 ==> r is None,
            self.games > 0 ==> r == Some(spec_winrate(*self) as u64),
    {
        if self.games == 0 {
            None
        } else {
            let bp = (self.wins as u128) * 10000 / (self.games as u128);
            proof {
                assert((self.wins * 10000) as int / self.games as int <= 10000) by (
                nonlinear_arith)
                    requires
                        0 < self.games,
                        self.wins <= self.games,
                ;
            }
            Some(bp as u64)
        }
    }
}

// ---------------------------------------------------------------------------
// The generic bucketer
// ---------------------------------------------------------------------------

/// The favorite (most played) and best (highest winrate over the sample
/// threshold) bucket indices of one aggregation; `best` is `None` when no
/// bucket clears the threshold with at least one win.
#[derive(Clone, Copy, Debug, PartialEq, Eq, Structural)]
pub struct FavBestData {
    pub favorite: usize,
    pub best: Option<usize>,
}

/// One bucket per id slot of a closed enumerable domain `T`.
pub struct WinLossVec<T: Parsable + Numbered> {
    data: Vec<WinLossData>,
    domain: core::marker::PhantomData<T>,
}

impl<T: Parsable + Numbered> View for WinLossVec<T> {
    type V = Seq<WinLossData>;

    closed spec fn view(&self) -> Seq<WinLossData> {
        self.data@
    }
}

/// A bucket with enough games to be considered for `best`.
pub open spec fn qualifies(d: WinLossData) -> bool {
    d.games > 20
}

/// `a` has a strictly higher winrate than `b` (cross-multiplied, so exact).
pub open spec fn rate_gt(a: WinLossData, b: WinLossData) -> bool {
    a.wins * b.games > b.wins * a.games
}

/// What `fav_best` returns: `favorite` is the first index with the greatest
/// game count; `best` is the first index attaining the greatest winrate
/// among buckets over the sample threshold, provided that winrate is
/// positive, and `None` when no bucket with more than 20 games has a win.
pub open spec fn fav_best_post(s: Seq<WinLossData>, r: FavBestData) -> bool {
    &&& 0 <= r.favorite < s.len()
    &&& forall|i: int| 0 <= i < s.len() ==> #[trigger] s[i].games <= s[r.favorite as int].games
    &&& forall|i: int| 0 <= i < r.favorite ==> #[trigger] s[i].games < s[r.favorite as int].games
    &&& match r.best {
        Some(b) => {
            &&& 0 <= b < s.len()
            &&& qualifies(s[b as int])
            &&& s[b as int].wins > 0
            &&& forall|i: int|
                0 <= i < s.len() && qualifies(#[trigger] s[i]) ==> !rate_gt(s[i], s[b as int])
            &&& forall|i: int|
                0 <= i < b && qualifies(#[trigger] s[i]) ==> rate_gt(s[b as int], s[i])
        },
        None => forall|i: int|
            0 <= i < s.len() ==> !(qualifies(#[trigger] s[i]) && s[i].wins > 0),
    }
}

/// Executable twin of [`rate_gt`], cross-multiplying in 128 bits.
fn rate_gt_exec(a: &WinLossData, b: &WinLossData) -> (r: bool)
    ensures
        r == rate_gt(*a, *b),
{
    proof {
        assert(a.wins * b.games <= u128::MAX && b.wins * a.games <= u128::MAX) by (
        nonlinear_arith)
            requires
                0 <= a.wins <= u64::MAX,
                0 <= b.games <= u64::MAX,
                0 <= b.wins <= u64::MAX,
                0 <= a.games <= u64::MAX,
        ;
    }
    (a.wins as u128) * (b.games as u128) > (b.wins as u128) * (a.games as u128)
}

/// Winrate comparison is transitive across a common middle bucket.
proof fn lemma_rate_trans(a: WinLossData, b: WinLossData, c: WinLossData)
    requires
        !rate_gt(a, b),
        rate_gt(c, b),
        a.games > 0,
        b.games > 0,
        c.games > 0,
    ensures
        rate_gt(c, a),
{
    assert(c.wins * a.games > a.wins * c.games) by (nonlinear_arith)
        requires
            a.wins * b.games <= b.wins * a.games,
            c.wins * b.games > b.wins * c.games,
            a.games > 0,
            b.games > 0,
            c.games > 0,
            a.wins >= 0,
            b.wins >= 0,
            c.wins >= 0,
    ;
}

impl<T: Parsable + Numbered> WinLossVec<T> {
    /// One empty bucket per id slot of the domain.
    pub fn new() -> (r: WinLossVec<T>)
        ensures
            r@.len() == T::spec_num_values(),
            forall|i: int| 0 <= i < r@.len() ==> #[trigger] r@[i] == (WinLossData {
                games: 0usize,
                wins: 0usize,
            }),
    {
        let n = T::num_values();
        let mut data: Vec<WinLossData> = Vec::new();
        let mut i: usize = 0;
        while i < n
            invariant
                i <= n,
                data@.len() == i,
                forall|k: int| 0 <= k < i ==> #[trigger] data@[k] == (WinLossData {
                    games: 0usize,
                    wins: 0usize,
                }),
            decreases n - i,
        {
            data.push(WinLossData::new());
            i = i + 1;
        }
        WinLossVec { data, domain: core::marker::PhantomData }
    }

    /// Number of id slots.
    pub fn len(&self) -> (r: usize)
        ensures
            r == self@.len(),
    {
        self.data.len()
    }

    /// The bucket of one id slot.
    pub fn bucket(&self, i: usize) -> (r: WinLossData)
        requires
            i < self@.len(),
        ensures
            r == self@[i as int],
    {
        self.data[i]
    }

    /// Records one game in the bucket of slot `elt_num`.
    pub fn add_game(&mut self, is_win: bool, elt_num: usize)
        requires
            elt_num < old(self)@.len(),
            bucket_wf(old(self)@[elt_num as int]),
            old(self)@[elt_num as int].games < usize::MAX,
        ensures
            final(self)@ == old(self)@.update(
                elt_num as int,
                WinLossData {
                    games: (old(self)@[elt_num as int].games + 1) as usize,
                    wins: (old(self)@[elt_num as int].wins + if is_win {
                        1int
                    } else {
                        0int
                    }) as usize,
                },
            ),
    {
        let mut b = self.data[elt_num];
        b.add_game(is_win);
        self.data.set(elt_num, b);
    }

    /// Whether no bucket has recorded a game.
    pub fn is_empty(&self) -> (r: bool)
        ensures
            r == (forall|i: int| 0 <= i < self@.len() ==> #[trigger] self@[i].games == 0),
    {
        let mut tot_games: u128 = 0;
        let mut i: usize = 0;
        let n = self.data.len();
        while i < n
            invariant
                n == self@.len(),
                i <= n,
                (tot_games == 0) == (forall|k: int| 0 <= k < i ==> #[trigger] self@[k].games == 0),
            decreases n - i,
        {
            let g = self.data[i].games;
            if g > 0 {
                tot_games = 1;
            }
            i = i + 1;
        }
        tot_games == 0
    }

    /// The favorite and best bucket indices of this aggregation.
    pub fn fav_best(&self) -> (r: FavBestData)
        requires
            self@.len() > 0,
            forall|i: int| 0 <= i < self@.len() ==> bucket_wf(#[trigger] self@[i]),
        ensures
            fav_best_post(self@, r),
    {
        let ghost s = self@;
        let mut favorite: usize = 0;
        let mut best: Option<usize> = None;
        let n = self.data.len();
        let mut i: usize = 0;
        while i < n
            invariant
                n == s.len(),
                s == self@,
                i <= n,
                favorite < n,
                forall|k: int| 0 <= k < i ==> #[trigger] s[k].games <= s[favorite as int].games,
                forall|k: int| 0 <= k < favorite ==> #[trigger] s[k].games < s[favorite as int].games,
                favorite <= i || favorite == 0,
                forall|k: int| 0 <= k < s.len() ==> bucket_wf(#[trigger] s[k]),
                match best {
                    Some(b) => {
                        &&& 0 <= b < i
                        &&& qualifies(s[b as int])
                        &&& s[b as int].wins > 0
                        &&& forall|k: int|
                            0 <= k < i && qualifies(#[trigger] s[k]) ==> !rate_gt(s[k], s[b as int])
                        &&& forall|k: int|
                            0 <= k < b && qualifies(#[trigger] s[k]) ==> rate_gt(s[b as int], s[k])
                    },
                    None => forall|k: int|
                        0 <= k < i ==> !(qualifies(#[trigger] s[k]) && s[k].wins > 0),
                },
            decreases n - i,
        {
            if self.data[i].games > self.data[favorite].games {
                favorite = i;
            }
            if self.data[i].games > 20 {
                let cur = self.data[i];
                match best {
                    None => {
                        if cur.wins > 0 {
                            proof {
                                assert forall|k: int| 0 <= k < i && qualifies(s[k])
                                    implies rate_gt(s[i as int], s[k]) by {
                                    assert(s[k].wins == 0);
                                    assert(s[i as int].wins * s[k].games > 0) by (nonlinear_arith)
                                        requires
                                            s[i as int].wins > 0,
                                            s[k].games > 20,
                                    ;
                                }
                            }
                            best = Some(i);
                        }
                    },
                    Some(b) => {
                        let bb = self.data[b];
                        if rate_gt_exec(&cur, &bb) {
                            proof {
                                assert(rate_gt(s[i as int], s[b as int]));
                                assert(s[i as int].wins > 0) by (nonlinear_arith)
                                    requires
                                        s[i as int].wins * s[b as int].games > s[b as int].wins
                                            * s[i as int].games,
                                        s[b as int].wins > 0,
                                        s[i as int].games > 20,
                                        s[i as int].wins >= 0,
                                ;
                                assert forall|k: int| 0 <= k < i + 1 && qualifies(s[k])
                                    implies !rate_gt(s[k], s[i as int]) by {
                                    if k < i {
                                        lemma_rate_trans(s[k], s[b as int], s[i as int]);
                                    } else {
                                        assert(!rate_gt(s[k], s[k]));
                                    }
                                }
                                assert forall|k: int| 0 <= k < i && qualifies(s[k])
                                    implies rate_gt(s[i as int], s[k]) by {
                                    lemma_rate_trans(s[k], s[b as int], s[i as int]);
                                }
                            }
                            best = Some(i);
                        }
                    },
                }
            }
            i = i + 1;
        }
        FavBestData { favorite, best }
    }
}

/// A bucket with strictly more games than every other is the favorite.
pub proof fn lemma_favorite_strict_max(s: Seq<WinLossData>, r: FavBestData, i: int)
    requires
        fav_best_post(s, r),
        0 <= i < s.len(),
        forall|j: int| 0 <= j < s.len() && j != i ==> #[trigger] s[j].games < s[i].games,
    ensures
        r.favorite == i,
{
    if r.favorite != i {
        assert(s[i].games <= s[r.favorite as int].games);
    }
}

/// A bucket at or under the sample threshold is never `best`, whatever its
/// winrate.
pub proof fn lemma_best_needs_samples(s: Seq<WinLossData>, r: FavBestData, i: usize)
    requires
        fav_best_post(s, r),
        i < s.len(),
        s[i as int].games <= 20,
    ensures
        r.best != Some(i),
{
}

// ---------------------------------------------------------------------------
// The corpus
// ---------------------------------------------------------------------------

/// Mathematical model of the corpus: its schema version and the ordered
/// sequence of classified records, in scan order.
pub struct PlayerDataV {
    pub cache_ver: usize,
    pub results: Seq<GameDataV>,
}

/// Every record's timestamp fits the cache line format.
pub open spec fn records_wf(rs: Seq<GameDataV>) -> bool {
    forall|i: int| 0 <= i < rs.len() ==> ts_wf(#[trigger] rs[i].timestamp)
}

/// A well-formed corpus: current schema version, well-formed records.
pub open spec fn corpus_wf(d: PlayerDataV) -> bool {
    &&& d.cache_ver == CACHE_VER
    &&& records_wf(d.results)
}

/// The corpus of classified records for one tracked identity.
pub struct PlayerData {
    cache_ver: usize,
    results: Vec<GameData>,
}

impl View for PlayerData {
    type V = PlayerDataV;

    closed spec fn view(&self) -> PlayerDataV {
        PlayerDataV { cache_ver: self.cache_ver, results: views_of(self.results@) }
    }
}

/// Pushing a record commutes with taking record models.
pub proof fn lemma_views_push(s: Seq<GameData>, g: GameData)
    ensures
        views_of(s.push(g)) == views_of(s).push(g@),
{
    assert(views_of(s.push(g)) =~= views_of(s).push(g@));
}

impl PlayerData {
    /// An empty corpus at the current schema version.
    pub fn new() -> (r: PlayerData)
        ensures
            r@.cache_ver == CACHE_VER,
            r@.results == Seq::<GameDataV>::empty(),
            corpus_wf(r@),
    {
        let r = PlayerData { cache_ver: CACHE_VER, results: Vec::new() };
        proof {
            assert(r@.results =~= Seq::<GameDataV>::empty());
        }
        r
    }

    /// A corpus with the given version, as loaded from a persisted cache.
    pub fn with_version(cache_ver: usize) -> (r: PlayerData)
        ensures
            r@.cache_ver == cache_ver,
            r@.results == Seq::<GameDataV>::empty(),
    {
        let r = PlayerData { cache_ver, results: Vec::new() };
        proof {
            assert(r@.results =~= Seq::<GameDataV>::empty());
        }
        r
    }

    /// Number of classified records.
    pub fn num_results(&self) -> (r: usize)
        ensures
            r == self@.results.len(),
    {
        self.results.len()
    }

    /// The record at one position of the corpus, in scan order.
    pub fn record_at(&self, i: usize) -> (r: &GameData)
        requires
            i < self@.results.len(),
        ensures
            r@ == self@.results[i as int],
    {
        &self.results[i]
    }

    /// The schema version this corpus was loaded with.
    pub fn cache_version(&self) -> (r: usize)
        ensures
            r == self@.cache_ver,
    {
        self.cache_ver
    }

    /// Appends one classified record; the corpus is append-only.
    pub fn add_game(&mut self, game: GameData)
        ensures
            final(self)@.cache_ver == old(self)@.cache_ver,
            final(self)@.results == old(self)@.results.push(game@),
    {
        proof {
            lemma_views_push(self.results@, game);
        }
        self.results.push(game);
    }

    /// The classify-and-append step of the incremental scan: classifies
    /// one decoded replay and appends the record; a replay that cannot be
    /// classified leaves the corpus unchanged.
    pub fn ingest(&mut self, game: Game, np_code: &str) -> (r: Result<(), GameParseError>)
        requires
            ts_wf(game.timestamp@),
        ensures
            final(self)@.cache_ver == old(self)@.cache_ver,
            match r {
                Ok(()) => spec_parse_game(game, np_code@) matches Ok(g)
                    && final(self)@.results == old(self)@.results.push(g),
                Err(e) => spec_parse_game(game, np_code@) == Err::<GameDataV, GameParseError>(e)
                    && final(self)@.results == old(self)@.results,
            },
            corpus_wf(old(self)@) ==> corpus_wf(final(self)@),
    {
        let ghost old_results = self@.results;
        match GameData::parse_game(game, np_code.to_owned()) {
            Ok(g) => {
                proof {
                    assert(ts_wf(g@.timestamp));
                }
                self.add_game(g);
                proof {
                    if corpus_wf(PlayerDataV { cache_ver: self@.cache_ver, results: old_results }) {
                        assert forall|i: int| 0 <= i < self@.results.len() implies ts_wf(
                            #[trigger] self@.results[i].timestamp,
                        ) by {
                            if i < old_results.len() {
                                assert(self@.results[i] == old_results[i]);
                            }
                        }
                    }
                }
                Ok(())
            },
            Err(e) => Err(e),
        }
    }

    /// Win/loss tally over the records that fall under `arg`.
    pub fn winrate<T: GameDataCondition>(&self, arg: T) -> (r: WinLossData)
        ensures
            r.games == count_where(self@.results, |g: GameDataV| arg.spec_condition(g)),
            r.wins == count_where(
                self@.results,
                |g: GameDataV| arg.spec_condition(g) && spec_is_victory(g),
            ),
            bucket_wf(r),
    {
        let ghost s = self@.results;
        let mut win_loss_data = WinLossData::new();
        let n = self.results.len();
        let mut idx: usize = 0;
        while idx < n
            invariant
                n == s.len(),
                s == self@.results,
                idx <= n,
                win_loss_data.games == count_where(
                    s.take(idx as int),
                    |g: GameDataV| arg.spec_condition(g),
                ),
                win_loss_data.wins == count_where(
                    s.take(idx as int),
                    |g: GameDataV| arg.spec_condition(g) && spec_is_victory(g),
                ),
                bucket_wf(win_loss_data),
            decreases n - idx,
        {
            let game = &self.results[idx];
            proof {
                assert(game@ == s[idx as int]);
                lemma_count_bounds(s.take(idx as int), |g: GameDataV| arg.spec_condition(g));
                lemma_count_step(s, idx as int, |g: GameDataV| arg.spec_condition(g));
                lemma_count_step(
                    s,
                    idx as int,
                    |g: GameDataV| arg.spec_condition(g) && spec_is_victory(g),
                );
            }
            if arg.game_data_condition(game) {
                win_loss_data.add_game(game.is_victory());
            }
            idx = idx + 1;
        }
        proof {
            assert(s.take(n as int) =~= s);
        }
        win_loss_data
    }

    /// Per-opponent-character tally over the records that fall under `arg`.
    pub fn matchups<T: GameDataCondition>(&self, arg: T) -> (r: WinLossVec<Character>)
        ensures
            r@.len() == 26,
            forall|c: int|
                0 <= c < 26 ==> (#[trigger] r@[c]).games == count_where(
                    self@.results,
                    |g: GameDataV| arg.spec_condition(g) && g.opponent_char.spec_id() == c,
                ) && r@[c].wins == count_where(
                    self@.results,
                    |g: GameDataV|
                        arg.spec_condition(g) && g.opponent_char.spec_id() == c
                            && spec_is_victory(g),
                ) && bucket_wf(r@[c]),
    {
        let ghost s = self@.results;
        let mut matchup_data = WinLossVec::<Character>::new();
        let n = self.results.len();
        let mut idx: usize = 0;
        while idx < n
            invariant
                n == s.len(),
                s == self@.results,
                idx <= n,
                matchup_data@.len() == 26,
                forall|c: int|
                    0 <= c < 26 ==> (#[trigger] matchup_data@[c]).games == count_where(
                        s.take(idx as int),
                        |g: GameDataV| arg.spec_condition(g) && g.opponent_char.spec_id() == c,
                    ) && matchup_data@[c].wins == count_where(
                        s.take(idx as int),
                        |g: GameDataV|
                            arg.spec_condition(g) && g.opponent_char.spec_id() == c
                                && spec_is_victory(g),
                    ) && bucket_wf(matchup_data@[c]),
            decreases n - idx,
        {
            let game = &self.results[idx];
            let eid = game.opponent_char.id();
            proof {
                assert(game@ == s[idx as int]);
                lemma_count_bounds(
                    s.take(idx as int),
                    |g: GameDataV|
                        arg.spec_condition(g) && g.opponent_char.spec_id() == eid as int,
                );
            }
            if arg.game_data_condition(game) {
                matchup_data.add_game(game.is_victory(), eid);
            }
            proof {
                assert forall|c: int| 0 <= c < 26 implies (#[trigger] matchup_data@[c]).games
                    == count_where(
                    s.take(idx + 1),
                    |g: GameDataV| arg.spec_condition(g) && g.opponent_char.spec_id() == c,
                ) && matchup_data@[c].wins == count_where(
                    s.take(idx + 1),
                    |g: GameDataV|
                        arg.spec_condition(g) && g.opponent_char.spec_id() == c
                            && spec_is_victory(g),
                ) && bucket_wf(matchup_data@[c]) by {
                    lemma_count_step(
                        s,
                        idx as int,
                        |g: GameDataV| arg.spec_condition(g) && g.opponent_char.spec_id() == c,
                    );
                    lemma_count_step(
                        s,
                        idx as int,
                        |g: GameDataV|
                            arg.spec_condition(g) && g.opponent_char.spec_id() == c
                                && spec_is_victory(g),
                    );
                }
            }
            idx = idx + 1;
        }
        proof {
            assert(s.take(n as int) =~= s);
        }
        matchup_data
    }

    /// Per-stage tally over the records that fall under `arg`.
    pub fn stages<T: GameDataCondition>(&self, arg: T) -> (r: WinLossVec<Stage>)
        ensures
            r@.len() == 33,
            forall|c: int|
                0 <= c < 33 ==> (#[trigger] r@[c]).games == count_where(
                    self@.results,
                    |g: GameDataV| arg.spec_condition(g) && g.stage.spec_id() == c,
                ) && r@[c].wins == count_where(
                    self@.results,
                    |g: GameDataV|
                        arg.spec_condition(g) && g.stage.spec_id() == c && spec_is_victory(g),
                ) && bucket_wf(r@[c]),
    {
        let ghost s = self@.results;
        let mut stage_data = WinLossVec::<Stage>::new();
        let n = self.results.len();
        let mut idx: usize = 0;
        while idx < n
            invariant
                n == s.len(),
                s == self@.results,
                idx <= n,
                stage_data@.len() == 33,
                forall|c: int|
                    0 <= c < 33 ==> (#[trigger] stage_data@[c]).games == count_where(
                        s.take(idx as int),
                        |g: GameDataV| arg.spec_condition(g) && g.stage.spec_id() == c,
                    ) && stage_data@[c].wins == count_where(
                        s.take(idx as int),
                        |g: GameDataV|
                            arg.spec_condition(g) && g.stage.spec_id() == c && spec_is_victory(g),
                    ) && bucket_wf(stage_data@[c]),
            decreases n - idx,
        {
            let game = &self.results[idx];
            let eid = game.stage.id();
            proof {
                assert(game@ == s[idx as int]);
                lemma_count_bounds(
                    s.take(idx as int),
                    |g: GameDataV| arg.spec_condition(g) && g.stage.spec_id() == eid as int,
                );
            }
            if arg.game_data_condition(game) {
                stage_data.add_game(game.is_victory(), eid);
            }
            proof {
                assert forall|c: int| 0 <= c < 33 implies (#[trigger] stage_data@[c]).games
                    == count_where(
                    s.take(idx + 1),
                    |g: GameDataV| arg.spec_condition(g) && g.stage.spec_id() == c,
                ) && stage_data@[c].wins == count_where(
                    s.take(idx + 1),
                    |g: GameDataV|
                        arg.spec_condition(g) && g.stage.spec_id() == c && spec_is_victory(g),
                ) && bucket_wf(stage_data@[c]) by {
                    lemma_count_step(
                        s,
                        idx as int,
                        |g: GameDataV| arg.spec_condition(g) && g.stage.spec_id() == c,
                    );
                    lemma_count_step(
                        s,
                        idx as int,
                        |g: GameDataV|
                            arg.spec_condition(g) && g.stage.spec_id() == c && spec_is_victory(g),
                    );
                }
            }
            idx = idx + 1;
        }
        proof {
            assert(s.take(n as int) =~= s);
        }
        stage_data
    }

    /// Per-played-character tally over the records that fall under `arg`.
    pub fn characters<T: GameDataCondition>(&self, arg: T) -> (r: WinLossVec<Character>)
        ensures
            r@.len() == 26,
            forall|c: int|
                0 <= c < 26 ==> (#[trigger] r@[c]).games == count_where(
                    self@.results,
                    |g: GameDataV| arg.spec_condition(g) && g.player_char.spec_id() == c,
                ) && r@[c].wins == count_where(
                    self@.results,
                    |g: GameDataV|
                        arg.spec_condition(g) && g.player_char.spec_id() == c && spec_is_victory(
                            g,
                        ),
                ) && bucket_wf(r@[c]),
    {
        let ghost s = self@.results;
        let mut char_data = WinLossVec::<Character>::new();
        let n = self.results.len();
        let mut idx: usize = 0;
        while idx < n
            invariant
                n == s.len(),
                s == self@.results,
                idx <= n,
                char_data@.len() == 26,
                forall|c: int|
                    0 <= c < 26 ==> (#[trigger] char_data@[c]).games == count_where(
                        s.take(idx as int),
                        |g: GameDataV| arg.spec_condition(g) && g.player_char.spec_id() == c,
                    ) && char_data@[c].wins == count_where(
                        s.take(idx as int),
                        |g: GameDataV|
                            arg.spec_condition(g) && g.player_char.spec_id() == c
                                && spec_is_victory(g),
                    ) && bucket_wf(char_data@[c]),
            decreases n - idx,
        {
            let game = &self.results[idx];
            let eid = game.player_char.id();
            proof {
                assert(game@ == s[idx as int]);
                lemma_count_bounds(
                    s.take(idx as int),
                    |g: GameDataV| arg.spec_condition(g) && g.player_char.spec_id() == eid as int,
                );
            }
            if arg.game_data_condition(game) {
                char_data.add_game(game.is_victory(), eid);
            }
            proof {
                assert forall|c: int| 0 <= c < 26 implies (#[trigger] char_data@[c]).games
                    == count_where(
                    s.take(idx + 1),
                    |g: GameDataV| arg.spec_condition(g) && g.player_char.spec_id() == c,
                ) && char_data@[c].wins == count_where(
                    s.take(idx + 1),
                    |g: GameDataV|
                        arg.spec_condition(g) && g.player_char.spec_id() == c && spec_is_victory(
                            g,
                        ),
                ) && bucket_wf(char_data@[c]) by {
                    lemma_count_step(
                        s,
                        idx as int,
                        |g: GameDataV| arg.spec_condition(g) && g.player_char.spec_id() == c,
                    );
                    lemma_count_step(
                        s,
                        idx as int,
                        |g: GameDataV|
                            arg.spec_condition(g) && g.player_char.spec_id() == c
                                && spec_is_victory(g),
                    );
                }
            }
            idx = idx + 1;
        }
        proof {
            assert(s.take(n as int) =~= s);
        }
        char_data
    }

    /// Per-stage tally of the head-to-head between two characters.
    pub fn matchup(&self, player: Character, opponent: Character) -> (r: WinLossVec<Stage>)
        ensures
            r@.len() == 33,
            forall|c: int|
                0 <= c < 33 ==> (#[trigger] r@[c]).games == count_where(
                    self@.results,
                    |g: GameDataV|
                        g.player_char == player && g.opponent_char == opponent && g.stage.spec_id()
                            == c,
                ) && r@[c].wins == count_where(
                    self@.results,
                    |g: GameDataV|
                        g.player_char == player && g.opponent_char == opponent && g.stage.spec_id()
                            == c && spec_is_victory(g),
                ) && bucket_wf(r@[c]),
    {
        let ghost s = self@.results;
        let mut stage_data = WinLossVec::<Stage>::new();
        let n = self.results.len();
        let mut idx: usize = 0;
        while idx < n
            invariant
                n == s.len(),
                s == self@.results,
                idx <= n,
                stage_data@.len() == 33,
                forall|c: int|
                    0 <= c < 33 ==> (#[trigger] stage_data@[c]).games == count_where(
                        s.take(idx as int),
                        |g: GameDataV|
                            g.player_char == player && g.opponent_char == opponent
                                && g.stage.spec_id() == c,
                    ) && stage_data@[c].wins == count_where(
                        s.take(idx as int),
                        |g: GameDataV|
                            g.player_char == player && g.opponent_char == opponent
                                && g.stage.spec_id() == c && spec_is_victory(g),
                    ) && bucket_wf(stage_data@[c]),
            decreases n - idx,
        {
            let game = &self.results[idx];
            let eid = game.stage.id();
            proof {
                assert(game@ == s[idx as int]);
                lemma_count_bounds(
                    s.take(idx as int),
                    |g: GameDataV|
                        g.player_char == player && g.opponent_char == opponent && g.stage.spec_id()
                            == eid as int,
                );
            }
            if game.player_char == player && game.opponent_char == opponent {
                stage_data.add_game(game.is_victory(), eid);
            }
            proof {
                assert forall|c: int| 0 <= c < 33 implies (#[trigger] stage_data@[c]).games
                    == count_where(
                    s.take(idx + 1),
                    |g: GameDataV|
                        g.player_char == player && g.opponent_char == opponent && g.stage.spec_id()
                            == c,
                ) && stage_data@[c].wins == count_where(
                    s.take(idx + 1),
                    |g: GameDataV|
                        g.player_char == player && g.opponent_char == opponent && g.stage.spec_id()
                            == c && spec_is_victory(g),
                ) && bucket_wf(stage_data@[c]) by {
                    lemma_count_step(
                        s,
                        idx as int,
                        |g: GameDataV|
                            g.player_char == player && g.opponent_char == opponent
                                && g.stage.spec_id() == c,
                    );
                    lemma_count_step(
                        s,
                        idx as int,
                        |g: GameDataV|
                            g.player_char == player && g.opponent_char == opponent
                                && g.stage.spec_id() == c && spec_is_victory(g),
                    );
                }
            }
            idx = idx + 1;
        }
        proof {
            assert(s.take(n as int) =~= s);
        }
        stage_data
    }

    /// The most recent `num_games` records, oldest first; `None` when fewer
    /// records exist.
    pub fn last(&self, num_games: usize) -> (r: Option<Vec<GameData>>)
        ensures
            match r {
                Some(v) => num_games <= self@.results.len() && views_of(v@) == self@.results.
                subrange(
                    self@.results.len() - num_games,
                    self@.results.len() as int,
                ),
                None => num_games > self@.results.len(),
            },
    {
        let ghost s = self@.results;
        let n = self.results.len();
        if num_games > n {
            return None;
        }
        let mut out: Vec<GameData> = Vec::new();
        let mut i: usize = n - num_games;
        while i < n
            invariant
                n == s.len(),
                s == self@.results,
                n == self.results@.len(),
                n - num_games <= i <= n,
                out@.len() == i - (n - num_games),
                forall|k: int|
                    0 <= k < out@.len() ==> (#[trigger] out@[k])@ == s[n - num_games + k],
            decreases n - i,
        {
            let g = self.results[i].duplicate();
            proof {
                assert(g@ == s[i as int]);
            }
            out.push(g);
            i = i + 1;
        }
        proof {
            let a = n - num_games;
            assert forall|k: int| 0 <= k < num_games implies views_of(out@)[k] == s.subrange(
                a as int,
                n as int,
            )[k] by {
                assert(views_of(out@)[k] == out@[k]@);
            }
            assert(views_of(out@) =~= s.subrange(a as int, n as int));
        }
        Some(out)
    }
}

/// The three aggregations behind the favorite/best overview: per played
/// character, per opponent character, and per stage, over every record.
pub struct Overview {
    pub char_data: WinLossVec<Character>,
    pub opponent_data: WinLossVec<Character>,
    pub stage_data: WinLossVec<Stage>,
}

impl PlayerData {
    /// The favorite/best overview data across all records.
    pub fn overview(&self) -> (r: Overview)
        ensures
            r.char_data@.len() == 26,
            r.opponent_data@.len() == 26,
            r.stage_data@.len() == 33,
            forall|c: int|
                0 <= c < 26 ==> (#[trigger] r.char_data@[c]).games == count_where(
                    self@.results,
                    |g: GameDataV| g.player_char.spec_id() == c,
                ) && r.char_data@[c].wins == count_where(
                    self@.results,
                    |g: GameDataV| g.player_char.spec_id() == c && spec_is_victory(g),
                ) && bucket_wf(r.char_data@[c]),
            forall|c: int|
                0 <= c < 26 ==> (#[trigger] r.opponent_data@[c]).games == count_where(
                    self@.results,
                    |g: GameDataV| g.opponent_char.spec_id() == c,
                ) && r.opponent_data@[c].wins == count_where(
                    self@.results,
                    |g: GameDataV| g.opponent_char.spec_id() == c && spec_is_victory(g),
                ) && bucket_wf(r.opponent_data@[c]),
            forall|c: int|
                0 <= c < 33 ==> (#[trigger] r.stage_data@[c]).games == count_where(
                    self@.results,
                    |g: GameDataV| g.stage.spec_id() == c,
                ) && r.stage_data@[c].wins == count_where(
                    self@.results,
                    |g: GameDataV| g.stage.spec_id() == c && spec_is_victory(g),
                ) && bucket_wf(r.stage_data@[c]),
    {
        let ghost s = self@.results;
        let mut char_data = WinLossVec::<Character>::new();
        let mut opponent_data = WinLossVec::<Character>::new();
        let mut stage_data = WinLossVec::<Stage>::new();
        let n = self.results.len();
        let mut idx: usize = 0;
        while idx < n
            invariant
                n == s.len(),
                s == self@.results,
                idx <= n,
                char_data@.len() == 26,
                opponent_data@.len() == 26,
                stage_data@.len() == 33,
                forall|c: int|
                    0 <= c < 26 ==> (#[trigger] char_data@[c]).games == count_where(
                        s.take(idx as int),
                        |g: GameDataV| g.player_char.spec_id() == c,
                    ) && char_data@[c].wins == count_where(
                        s.take(idx as int),
                        |g: GameDataV| g.player_char.spec_id() == c && spec_is_victory(g),
                    ) && bucket_wf(char_data@[c]),
                forall|c: int|
                    0 <= c < 26 ==> (#[trigger] opponent_data@[c]).games == count_where(
                        s.take(idx as int),
                        |g: GameDataV| g.opponent_char.spec_id() == c,
                    ) && opponent_data@[c].wins == count_where(
                        s.take(idx as int),
                        |g: GameDataV| g.opponent_char.spec_id() == c && spec_is_victory(g),
                    ) && bucket_wf(opponent_data@[c]),
                forall|c: int|
                    0 <= c < 33 ==> (#[trigger] stage_data@[c]).games == count_where(
                        s.take(idx as int),
                        |g: GameDataV| g.stage.spec_id() == c,
                    ) && stage_data@[c].wins == count_where(
                        s.take(idx as int),
                        |g: GameDataV| g.stage.spec_id() == c && spec_is_victory(g),
                    ) && bucket_wf(stage_data@[c]),
            decreases n - idx,
        {
            let game = &self.results[idx];
            let win = game.is_victory();
            let pc = game.player_char.id();
            let oc = game.opponent_char.id();
            let st = game.stage.id();
            proof {
                assert(game@ == s[idx as int]);
                lemma_count_bounds(
                    s.take(idx as int),
                    |g: GameDataV| g.player_char.spec_id() == pc as int,
                );
                lemma_count_bounds(
                    s.take(idx as int),
                    |g: GameDataV| g.opponent_char.spec_id() == oc as int,
                );
                lemma_count_bounds(
                    s.take(idx as int),
                    |g: GameDataV| g.stage.spec_id() == st as int,
                );
            }
            char_data.add_game(win, pc);
            opponent_data.add_game(win, oc);
            stage_data.add_game(win, st);
            proof {
                assert forall|c: int| 0 <= c < 26 implies (#[trigger] char_data@[c]).games
                    == count_where(
                    s.take(idx + 1),
                    |g: GameDataV| g.player_char.spec_id() == c,
                ) && char_data@[c].wins == count_where(
                    s.take(idx + 1),
                    |g: GameDataV| g.player_char.spec_id() == c && spec_is_victory(g),
                ) && bucket_wf(char_data@[c]) by {
                    lemma_count_step(s, idx as int, |g: GameDataV| g.player_char.spec_id() == c);
                    lemma_count_step(
                        s,
                        idx as int,
                        |g: GameDataV| g.player_char.spec_id() == c && spec_is_victory(g),
                    );
                }
                assert forall|c: int| 0 <= c < 26 implies (#[trigger] opponent_data@[c]).games
                    == count_where(
                    s.take(idx + 1),
                    |g: GameDataV| g.opponent_char.spec_id() == c,
                ) && opponent_data@[c].wins == count_where(
                    s.take(idx + 1),
                    |g: GameDataV| g.opponent_char.spec_id() == c && spec_is_victory(g),
                ) && bucket_wf(opponent_data@[c]) by {
                    lemma_count_step(
                        s,
                        idx as int,
                        |g: GameDataV| g.opponent_char.spec_id() == c,
                    );
                    lemma_count_step(
                        s,
                        idx as int,
                        |g: GameDataV| g.opponent_char.spec_id() == c && spec_is_victory(g),
                    );
                }
                assert forall|c: int| 0 <= c < 33 implies (#[trigger] stage_data@[c]).games
                    == count_where(
                    s.take(idx + 1),
                    |g: GameDataV| g.stage.spec_id() == c,
                ) && stage_data@[c].wins == count_where(
                    s.take(idx + 1),
                    |g: GameDataV| g.stage.spec_id() == c && spec_is_victory(g),
                ) && bucket_wf(stage_data@[c]) by {
                    lemma_count_step(s, idx as int, |g: GameDataV| g.stage.spec_id() == c);
                    lemma_count_step(
                        s,
                        idx as int,
                        |g: GameDataV| g.stage.spec_id() == c && spec_is_victory(g),
                    );
                }
            }
            idx = idx + 1;
        }
        proof {
            assert(s.take(n as int) =~= s);
        }
        Overview { char_data, opponent_data, stage_data }
    }
}

} // verus!
