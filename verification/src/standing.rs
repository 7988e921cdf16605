//! The standings of a league: each team's record over the played games of
//! the regular season, ranked.

use vstd::prelude::*;
use vstd::seq_lib::to_multiset_insert;
use crate::game::{ApiGame, GameView};
use crate::models::{GameType, League, Season};
use crate::text::str_eq;
use crate::views::{
    first_where, lemma_first_where, lemma_first_where_first, lemma_first_where_push,
    lemma_views_push, lemma_views_update, views,
};

verus! {

/// The largest number of teams that a table ranks: ranks are kept in 8 bits.
pub const MAX_RANKED_TEAMS: usize = 255;

/// The key of the standings of a season.
#[derive(Clone, Copy, Debug, PartialEq, Eq, Structural, Hash)]
pub struct StandingKey(pub Season);

impl StandingKey {
    /// The key as it is written: the name of the season.
    pub fn to_string(&self) -> (out: String)
        ensures
            out@ == self.0.name(),
    {
        self.0.to_string()
    }
}

/// A team's row of the standings.
#[derive(Debug)]
pub struct Standing {
    pub team_code: String,
    pub rank: u8,
    pub gp: u16,
    pub points: u16,
    pub diff: i16,
    pub league: League,
}

/// What a `Standing` holds.
pub struct StandingView {
    pub team_code: Seq<char>,
    pub rank: u8,
    pub gp: u16,
    pub points: u16,
    pub diff: i16,
    pub league: League,
}

impl View for Standing {
    type V = StandingView;

    open spec fn view(&self) -> StandingView {
        StandingView {
            team_code: self.team_code@,
            rank: self.rank,
            gp: self.gp,
            points: self.points,
            diff: self.diff,
            league: self.league,
        }
    }
}

impl Clone for Standing {
    fn clone(&self) -> (copy: Self)
        ensures
            copy@ == self@,
    {
        Standing {
            team_code: self.team_code.clone(),
            rank: self.rank,
            gp: self.gp,
            points: self.points,
            diff: self.diff,
            league: self.league,
        }
    }
}

/// The standings of both leagues.
#[derive(Debug)]
pub struct Standings {
    pub SHL: Vec<Standing>,
    pub HA: Vec<Standing>,
}

impl GameView {
    /// Whether `team` won the game: the home team wins with more goals than
    /// the away team, and the away team in every other case.
    pub open spec fn won_by(self, team: Seq<char>) -> bool {
        if self.home_team_result > self.away_team_result {
            self.home_team_code == team
        } else {
            self.away_team_code == team
        }
    }

    /// The points that the game gives `team`: 3 for a win in regulation, 2
    /// for a win after overtime or shootout, 1 for a loss after overtime or
    /// shootout, 0 for a loss in regulation.
    pub open spec fn points_for(self, team: Seq<char>) -> int {
        let extra = self.overtime || self.shootout;
        if self.won_by(team) {
            if extra {
                2
            } else {
                3
            }
        } else {
            if extra {
                1
            } else {
                0
            }
        }
    }

    /// The goal difference of the game as `team` sees it: as the home team
    /// where it is the home team, else as the away team.
    pub open spec fn goal_diff_for(self, team: Seq<char>) -> int {
        if team == self.home_team_code {
            self.home_team_result - self.away_team_result
        } else {
            self.away_team_result - self.home_team_result
        }
    }
}

impl ApiGame {
    /// Whether `team_code` won the game.
    pub fn did_team_win(&self, team_code: &str) -> (won: bool)
        ensures
            won == self@.won_by(team_code@),
    {
        if self.home_team_result > self.away_team_result {
            str_eq(self.home_team_code.as_str(), team_code)
        } else {
            str_eq(self.away_team_code.as_str(), team_code)
        }
    }

    /// The points that the game gives `team_code`.
    pub fn get_points_for(&self, team_code: &str) -> (points: u16)
        ensures
            points == self@.points_for(team_code@),
    {
        let extra = self.overtime || self.shootout;
        if self.did_team_win(team_code) {
            if extra {
                2
            } else {
                3
            }
        } else {
            if extra {
                1
            } else {
                0
            }
        }
    }

    /// The goal difference of the game as `team_code` sees it.
    pub fn get_goal_diff_for(&self, team_code: &str) -> (diff: i32)
        ensures
            diff == self@.goal_diff_for(team_code@),
    {
        if str_eq(team_code, self.home_team_code.as_str()) {
            self.home_team_result as i32 - self.away_team_result as i32
        } else {
            self.away_team_result as i32 - self.home_team_result as i32
        }
    }
}

/// A team's part in a game.
pub struct Side {
    pub team: Seq<char>,
    pub game: GameView,
}

/// The sides of `games`: of each game its home side and then its away side.
pub open spec fn sides(games: Seq<GameView>) -> Seq<Side>
    decreases games.len(),
{
    if games.len() == 0 {
        Seq::empty()
    } else {
        sides(games.drop_last()).push(
            Side { team: games.last().home_team_code, game: games.last() },
        ).push(Side { team: games.last().away_team_code, game: games.last() })
    }
}

/// The teams of `sides`, each once, in the order in which they first occur.
pub open spec fn codes(sides: Seq<Side>) -> Seq<Seq<char>>
    decreases sides.len(),
{
    if sides.len() == 0 {
        Seq::empty()
    } else {
        let before = codes(sides.drop_last());
        if before.contains(sides.last().team) {
            before
        } else {
            before.push(sides.last().team)
        }
    }
}

/// The played games among `sides` in which `team` took part.
pub open spec fn gp_of(sides: Seq<Side>, team: Seq<char>) -> int
    decreases sides.len(),
{
    if sides.len() == 0 {
        0
    } else {
        gp_of(sides.drop_last(), team) + if sides.last().team == team && sides.last().game.played {
            1int
        } else {
            0int
        }
    }
}

/// The points of `team` over the played games among `sides`.
pub open spec fn points_of(sides: Seq<Side>, team: Seq<char>) -> int
    decreases sides.len(),
{
    if sides.len() == 0 {
        0
    } else {
        points_of(sides.drop_last(), team) + if sides.last().team == team
            && sides.last().game.played {
            sides.last().game.points_for(team)
        } else {
            0int
        }
    }
}

/// The goal difference of `team` over the played games among `sides`.
pub open spec fn diff_of(sides: Seq<Side>, team: Seq<char>) -> int
    decreases sides.len(),
{
    if sides.len() == 0 {
        0
    } else {
        diff_of(sides.drop_last(), team) + if sides.last().team == team
            && sides.last().game.played {
            sides.last().game.goal_diff_for(team)
        } else {
            0int
        }
    }
}

/// The league of the first game among `sides` in which `team` took part.
pub open spec fn league_of(sides: Seq<Side>, team: Seq<char>) -> League {
    sides[first_where(sides, |s: Side| s.team == team)].game.league
}

/// A team's record before it is ranked.
pub struct TallyView {
    pub team_code: Seq<char>,
    pub league: League,
    pub gp: int,
    pub points: int,
    pub diff: int,
}

/// The record of `team` over `sides`.
pub open spec fn tally_of(sides: Seq<Side>, team: Seq<char>) -> TallyView {
    TallyView {
        team_code: team,
        league: league_of(sides, team),
        gp: gp_of(sides, team),
        points: points_of(sides, team),
        diff: diff_of(sides, team),
    }
}

/// The records of the teams of `sides`, in the order in which the teams
/// first occur.
pub open spec fn table(sides: Seq<Side>) -> Seq<TallyView> {
    codes(sides).map_values(|team: Seq<char>| tally_of(sides, team))
}

/// Whether a table can be ranked: it has 255 teams at most, and every record
/// fits a row of the standings.
pub open spec fn fits(table: Seq<TallyView>) -> bool {
    table.len() <= MAX_RANKED_TEAMS && forall|k: int|
        0 <= k < table.len() ==> (#[trigger] table[k]).gp <= u16::MAX && table[k].points
            <= u16::MAX && i16::MIN <= table[k].diff <= i16::MAX
}

/// A record as a row of the standings that has no rank yet.
pub open spec fn row_of(tally: TallyView) -> StandingView {
    StandingView {
        team_code: tally.team_code,
        rank: 0,
        gp: tally.gp as u16,
        points: tally.points as u16,
        diff: tally.diff as i16,
        league: tally.league,
    }
}

/// Whether the row `a` stands above the row `b`: a team that has played
/// stands above one that has not; among teams that have played, more points
/// stand above fewer, and on equal points the better goal difference.
pub open spec fn outranks(a: StandingView, b: StandingView) -> bool {
    a.gp > 0 && (b.gp == 0 || a.points > b.points || (a.points == b.points && a.diff > b.diff))
}

/// Whether no row of `rows` stands below a row that it outranks.
pub open spec fn ranked_order(rows: Seq<StandingView>) -> bool {
    forall|i: int, j: int| 0 <= i < j < rows.len() ==> !outranks(#[trigger] rows[j], #[trigger] rows[i])
}

/// `rows` with every rank set to 0.
pub open spec fn unranked(rows: Seq<StandingView>) -> Seq<StandingView> {
    rows.map_values(|r: StandingView| StandingView { rank: 0, ..r })
}

/// The place of `team` among the teams `codes`.
pub open spec fn place(codes: Seq<Seq<char>>, team: Seq<char>) -> int {
    first_where(codes, |c: Seq<char>| c == team)
}

/// Whether `rows` are the standings over `games`: they hold the record of
/// every team of the games once, in ranked order; of two teams of which
/// neither outranks the other, the one that occurs first in the games stands
/// first; and each row carries its place as its rank, or the rank 0 where
/// its team has not played.
pub open spec fn standings_of(rows: Seq<StandingView>, games: Seq<GameView>) -> bool {
    &&& unranked(rows).to_multiset() == table(sides(games)).map_values(
        |t: TallyView| row_of(t),
    ).to_multiset()
    &&& ranked_order(rows)
    &&& forall|i: int, j: int|
        0 <= i < j < rows.len() && !outranks(#[trigger] rows[i], #[trigger] rows[j]) ==> place(
            codes(sides(games)),
            rows[i].team_code,
        ) < place(codes(sides(games)), rows[j].team_code)
    &&& forall|i: int|
        0 <= i < rows.len() ==> (#[trigger] rows[i]).rank == if rows[i].gp == 0 {
            0
        } else {
            i + 1
        }
}

/// A team's record while the games are counted.
struct TeamTally {
    team_code: String,
    league: League,
    gp: i128,
    points: i128,
    diff: i128,
}

impl View for TeamTally {
    type V = TallyView;

    closed spec fn view(&self) -> TallyView {
        TallyView {
            team_code: self.team_code@,
            league: self.league,
            gp: self.gp as int,
            points: self.points as int,
            diff: self.diff as int,
        }
    }
}

proof fn lemma_codes(sides: Seq<Side>)
    ensures
        codes(sides).no_duplicates(),
        forall|i: int| 0 <= i < sides.len() ==> codes(sides).contains((#[trigger] sides[i]).team),
        forall|team: Seq<char>|
            codes(sides).contains(team) ==> first_where(sides, |s: Side| s.team == team)
                < sides.len(),
        codes(sides).len() <= sides.len(),
    decreases sides.len(),
{
    if sides.len() > 0 {
        let front = sides.drop_last();
        let last = sides.last();
        lemma_codes(front);
        let before = codes(front);
        assert(sides =~= front.push(last));
        assert forall|i: int| 0 <= i < sides.len() implies codes(sides).contains(
            (#[trigger] sides[i]).team,
        ) by {
            if i < front.len() {
                assert(sides[i] == front[i]);
                let k = choose|k: int| 0 <= k < before.len() && before[k] == front[i].team;
                assert(codes(sides)[k] == front[i].team);
            } else if before.contains(last.team) {
            } else {
                assert(codes(sides)[before.len() as int] == last.team);
            }
        }
        assert forall|team: Seq<char>| codes(sides).contains(team) implies first_where(
            sides,
            |s: Side| s.team == team,
        ) < sides.len() by {
            let same = |s: Side| s.team == team;
            lemma_first_where_push(front, same, last);
            if !before.contains(team) {
                let k = choose|k: int| 0 <= k < codes(sides).len() && codes(sides)[k] == team;
                if k < before.len() {
                    assert(before[k] == team);
                }
                assert(last.team == team);
            }
        }
    }
}

proof fn lemma_absent_is_zero(sides: Seq<Side>, team: Seq<char>)
    requires
        !codes(sides).contains(team),
    ensures
        gp_of(sides, team) == 0,
        points_of(sides, team) == 0,
        diff_of(sides, team) == 0,
        first_where(sides, |s: Side| s.team == team) == sides.len(),
    decreases sides.len(),
{
    if sides.len() > 0 {
        let front = sides.drop_last();
        let before = codes(front);
        lemma_codes(sides);
        assert(sides[sides.len() - 1].team != team);
        if before.contains(team) {
            let k = choose|k: int| 0 <= k < before.len() && before[k] == team;
            assert(codes(sides)[k] == team);
        }
        lemma_absent_is_zero(front, team);
        assert(sides =~= front.push(sides.last()));
        lemma_first_where_push(front, |s: Side| s.team == team, sides.last());
    }
}

proof fn lemma_tally_bounds(sides: Seq<Side>, team: Seq<char>)
    ensures
        0 <= gp_of(sides, team) <= sides.len(),
        0 <= points_of(sides, team) <= 3 * sides.len(),
        -65535 * sides.len() <= diff_of(sides, team) <= 65535 * sides.len(),
    decreases sides.len(),
{
    if sides.len() > 0 {
        lemma_tally_bounds(sides.drop_last(), team);
    }
}

/// Counts one side of a game into the table.
fn add_side(table_rows: &mut Vec<TeamTally>, game: &ApiGame, team: &String, Ghost(before): Ghost<
    Seq<Side>,
>)
    requires
        views(old(table_rows)@) == table(before),
        before.len() <= 2 * usize::MAX,
    ensures
        views(final(table_rows)@) == table(before.push(Side { team: team@, game: game@ })),
{
    let ghost side = Side { team: team@, game: game@ };
    let ghost next = before.push(side);
    let ghost rows = views(table_rows@);
    let ghost same = |t: TallyView| t.team_code == team@;
    proof {
        lemma_codes(before);
        lemma_codes(next);
        assert(next.drop_last() =~= before);
    }
    let mut at: usize = 0;
    assert(rows.len() == codes(before).len());
    while at < table_rows.len() && !str_eq(table_rows[at].team_code.as_str(), team.as_str())
        invariant
            at <= table_rows.len(),
            table_rows@ == old(table_rows)@,
            rows == views(table_rows@),
            rows == table(before),
            forall|j: int| 0 <= j < at ==> (#[trigger] rows[j]).team_code != team@,
        decreases table_rows.len() - at,
    {
        at += 1;
    }
    let (add_gp, add_points, add_diff): (i128, i128, i128) = if game.played {
        (1, game.get_points_for(team.as_str()) as i128, game.get_goal_diff_for(team.as_str()) as i128)
    } else {
        (0, 0, 0)
    };
    proof {
        lemma_tally_bounds(before, team@);
        assert forall|c: Seq<char>| c != team@ implies gp_of(next, c) == gp_of(before, c)
            && points_of(next, c) == points_of(before, c) && diff_of(next, c) == diff_of(
            before,
            c,
        ) by {}
        assert forall|c: Seq<char>| codes(before).contains(c) implies league_of(next, c)
            == league_of(before, c) by {
            let same_c = |s: Side| s.team == c;
            assert(first_where(before, same_c) < before.len());
            lemma_first_where(before, same_c);
            lemma_first_where_push(before, same_c, side);
            assert(next[first_where(before, same_c)] == before[first_where(before, same_c)]);
        }
    }
    if at < table_rows.len() {
        proof {
            assert(rows[at as int].team_code == team@);
            assert(codes(before)[at as int] == team@);
            assert(codes(before).contains(team@));
            assert(codes(next) == codes(before));
        }
        let row = &table_rows[at];
        let updated = TeamTally {
            team_code: row.team_code.clone(),
            league: row.league,
            gp: row.gp + add_gp,
            points: row.points + add_points,
            diff: row.diff + add_diff,
        };
        proof {
            lemma_views_update(table_rows@, at as int, updated);
            assert(views(table_rows@).update(at as int, updated@) =~= table(next)) by {
                assert forall|k: int| 0 <= k < codes(next).len() implies views(
                    table_rows@,
                ).update(at as int, updated@)[k] == #[trigger] table(next)[k] by {
                    if k != at {
                        assert(codes(before)[k] != codes(before)[at as int]);
                        assert(codes(before).contains(codes(before)[k]));
                    } else {
                        assert(codes(before).contains(team@));
                    }
                }
            }
        }
        table_rows.set(at, updated);
    } else {
        proof {
            assert(!codes(before).contains(team@)) by {
                if codes(before).contains(team@) {
                    let k = choose|k: int| 0 <= k < codes(before).len() && codes(before)[k] == team@;
                    assert(rows[k].team_code == team@);
                }
            }
            lemma_absent_is_zero(before, team@);
            lemma_first_where_push(before, |s: Side| s.team == team@, side);
            assert(codes(next) == codes(before).push(team@));
        }
        let added = TeamTally {
            team_code: team.clone(),
            league: game.league,
            gp: add_gp,
            points: add_points,
            diff: add_diff,
        };
        proof {
            lemma_views_push(table_rows@, added);
            assert(views(table_rows@).push(added@) =~= table(next)) by {
                assert forall|k: int| 0 <= k < codes(next).len() implies views(table_rows@).push(
                    added@,
                )[k] == #[trigger] table(next)[k] by {
                    if k < codes(before).len() {
                        assert(codes(before).contains(codes(before)[k]));
                        assert(codes(before)[k] != team@);
                    }
                }
            }
        }
        table_rows.push(added);
    }
}

/// Whether `origin` says where each of `sorted` stood among `rows`, and of
/// two rows of which the first does not outrank the second, the first stood
/// first among `rows`.
spec fn keeps_order(sorted: Seq<StandingView>, rows: Seq<StandingView>, origin: Seq<int>) -> bool {
    &&& origin.len() == sorted.len()
    &&& forall|k: int|
        0 <= k < sorted.len() ==> 0 <= #[trigger] origin[k] < rows.len() && sorted[k]
            == rows[origin[k]]
    &&& forall|a: int, b: int|
        0 <= a < b < sorted.len() ==> outranks(sorted[a], sorted[b]) || #[trigger] origin[a]
            < #[trigger] origin[b]
}

/// Puts `rows` into ranked order, and says where each row stood before.
fn sort_rows(rows: &Vec<Standing>) -> (out: (Vec<Standing>, Ghost<Seq<int>>))
    ensures
        views(out.0@).to_multiset() == views(rows@).to_multiset(),
        ranked_order(views(out.0@)),
        out.0@.len() == rows@.len(),
        keeps_order(views(out.0@), views(rows@), out.1@),
{
    let mut sorted: Vec<Standing> = Vec::new();
    let ghost mut origin: Seq<int> = Seq::empty();
    let ghost all = views(rows@);
    assert(all.take(0) =~= Seq::<StandingView>::empty());
    assert(views(sorted@) =~= Seq::<StandingView>::empty());
    let mut i: usize = 0;
    while i < rows.len()
        invariant
            i <= rows.len(),
            all == views(rows@),
            sorted@.len() == i,
            views(sorted@).to_multiset() == all.take(i as int).to_multiset(),
            ranked_order(views(sorted@)),
            keeps_order(views(sorted@), all, origin),
            forall|k: int| 0 <= k < origin.len() ==> #[trigger] origin[k] < i,
        decreases rows.len() - i,
    {
        let row = rows[i].clone();
        let ghost before = views(sorted@);
        let mut at: usize = 0;
        while at < sorted.len() && !(row.gp > 0 && (sorted[at].gp == 0 || row.points
            > sorted[at].points || (row.points == sorted[at].points && row.diff
            > sorted[at].diff)))
            invariant
                at <= sorted.len(),
                i < all.len(),
                before == views(sorted@),
                row@ == all[i as int],
                forall|j: int| 0 <= j < at ==> !outranks(row@, #[trigger] before[j]),
            decreases sorted.len() - at,
        {
            at += 1;
        }
        proof {
            assert(views(sorted@.insert(at as int, row)) =~= before.insert(at as int, row@));
            to_multiset_insert(before, at as int, row@);
            assert(all.take(i + 1) =~= all.take(i as int).push(all[i as int]));
            vstd::seq_lib::to_multiset_build(all.take(i as int), all[i as int]);
            let after = before.insert(at as int, row@);
            assert forall|a: int, b: int| 0 <= a < b < after.len() implies !outranks(
                #[trigger] after[b],
                #[trigger] after[a],
            ) by {
                if b < at {
                    assert(after[a] == before[a] && after[b] == before[b]);
                } else if b == at {
                    assert(after[a] == before[a]);
                } else if a < at {
                    assert(after[a] == before[a] && after[b] == before[b - 1]);
                } else if a == at {
                    assert(after[b] == before[b - 1]);
                    assert(at < before.len());
                    assert(outranks(row@, before[at as int]));
                    if b - 1 > at {
                        assert(!outranks(before[b - 1], before[at as int]));
                    }
                } else {
                    assert(after[a] == before[a - 1] && after[b] == before[b - 1]);
                }
            }
            let moved = origin.insert(at as int, i as int);
            assert forall|k: int| 0 <= k < after.len() implies 0 <= #[trigger] moved[k] < all.len()
                && after[k] == all[moved[k]] && moved[k] < i + 1 by {
                if k < at {
                    assert(moved[k] == origin[k] && after[k] == before[k]);
                } else if k > at {
                    assert(moved[k] == origin[k - 1] && after[k] == before[k - 1]);
                }
            }
            assert forall|a: int, b: int| 0 <= a < b < after.len() implies outranks(
                after[a],
                after[b],
            ) || #[trigger] moved[a] < #[trigger] moved[b] by {
                if b < at {
                    assert(moved[a] == origin[a] && moved[b] == origin[b]);
                    assert(after[a] == before[a] && after[b] == before[b]);
                } else if b == at {
                    assert(moved[a] == origin[a]);
                } else if a < at {
                    assert(moved[a] == origin[a] && moved[b] == origin[b - 1]);
                    assert(after[a] == before[a] && after[b] == before[b - 1]);
                } else if a == at {
                    assert(after[b] == before[b - 1]);
                    assert(outranks(row@, before[at as int]));
                    if b - 1 > at {
                        assert(!outranks(before[b - 1], before[at as int]));
                    }
                } else {
                    assert(moved[a] == origin[a - 1] && moved[b] == origin[b - 1]);
                    assert(after[a] == before[a - 1] && after[b] == before[b - 1]);
                }
            }
            origin = moved;
        }
        sorted.insert(at, row);
        i += 1;
    }
    assert(all.take(rows.len() as int) =~= all);
    (sorted, Ghost(origin))
}

/// The standings' rules.
pub struct StandingService;

impl StandingService {
    /// The standings over `games`, or nothing where they hold more teams
    /// than can be ranked or a record that does not fit its row.
    pub fn get_standings(games: &Vec<ApiGame>) -> (standings: Option<Vec<Standing>>)
        ensures
            match standings {
                Some(rows) => fits(table(sides(views(games@)))) && standings_of(
                    views(rows@),
                    views(games@),
                ),
                None => !fits(table(sides(views(games@)))),
            },
    {
        let mut table_rows: Vec<TeamTally> = Vec::new();
        let ghost all = views(games@);
        assert(all.take(0) =~= Seq::<GameView>::empty());
        assert(views(table_rows@) =~= table(sides(all.take(0))));
        let mut i: usize = 0;
        while i < games.len()
            invariant
                i <= games.len(),
                all == views(games@),
                views(table_rows@) == table(sides(all.take(i as int))),
                sides(all.take(i as int)).len() == 2 * i,
            decreases games.len() - i,
        {
            let g = &games[i];
            let ghost before = sides(all.take(i as int));
            proof {
                assert(all.take(i + 1).drop_last() =~= all.take(i as int));
                assert(all.take(i + 1).last() == g@);
            }
            add_side(&mut table_rows, g, &g.home_team_code, Ghost(before));
            add_side(
                &mut table_rows,
                g,
                &g.away_team_code,
                Ghost(before.push(Side { team: g@.home_team_code, game: g@ })),
            );
            i += 1;
        }
        assert(all.take(games.len() as int) =~= all);
        let ghost full = table(sides(all));
        if table_rows.len() > MAX_RANKED_TEAMS {
            return None;
        }
        let mut rows: Vec<Standing> = Vec::new();
        let mut k: usize = 0;
        while k < table_rows.len()
            invariant
                k <= table_rows.len(),
                full == views(table_rows@),
                full == table(sides(all)),
                all == views(games@),
                table_rows.len() <= MAX_RANKED_TEAMS,
                rows.len() == k,
                forall|j: int|
                    0 <= j < k ==> (#[trigger] full[j]).gp <= u16::MAX && full[j].points <= u16::MAX
                        && i16::MIN <= full[j].diff <= i16::MAX,
                forall|j: int| 0 <= j < k ==> (#[trigger] rows@[j])@ == row_of(full[j]),
            decreases table_rows.len() - k,
        {
            let t = &table_rows[k];
            proof {
                assert(full.len() == codes(sides(all)).len());
                assert(full[k as int] == tally_of(sides(all), codes(sides(all))[k as int]));
                lemma_tally_bounds(sides(all), codes(sides(all))[k as int]);
                assert(full[k as int] == t@);
            }
            if t.gp > 65535 || t.points > 65535 || t.diff < -32768 || t.diff > 32767 {
                assert(!(full[k as int].gp <= u16::MAX && full[k as int].points <= u16::MAX
                    && i16::MIN <= full[k as int].diff <= i16::MAX));
                return None;
            }
            rows.push(
                Standing {
                    team_code: t.team_code.clone(),
                    rank: 0,
                    gp: t.gp as u16,
                    points: t.points as u16,
                    diff: t.diff as i16,
                    league: t.league,
                },
            );
            k += 1;
        }
        assert(views(rows@) =~= full.map_values(|t: TallyView| row_of(t)));
        let (sorted, Ghost(origin)) = sort_rows(&rows);
        let mut ranked: Vec<Standing> = Vec::new();
        let ghost order = views(sorted@);
        let mut n: usize = 0;
        while n < sorted.len()
            invariant
                n <= sorted.len(),
                sorted.len() <= MAX_RANKED_TEAMS,
                order == views(sorted@),
                ranked.len() == n,
                forall|j: int|
                    0 <= j < n ==> (#[trigger] ranked@[j])@ == (StandingView {
                        rank: if order[j].gp == 0 {
                            0u8
                        } else {
                            (j + 1) as u8
                        },
                        ..order[j]
                    }),
            decreases sorted.len() - n,
        {
            let r = &sorted[n];
            ranked.push(
                Standing {
                    team_code: r.team_code.clone(),
                    rank: if r.gp == 0 {
                        0
                    } else {
                        (n + 1) as u8
                    },
                    gp: r.gp,
                    points: r.points,
                    diff: r.diff,
                    league: r.league,
                },
            );
            n += 1;
        }
        proof {
            let out = views(ranked@);
            assert(unranked(out) =~= unranked(order));
            assert(unranked(order) =~= order) by {
                lemma_zero_ranks(views(rows@), order);
            }
            assert forall|i: int, j: int| 0 <= i < j < out.len() implies !outranks(
                #[trigger] out[j],
                #[trigger] out[i],
            ) by {
                assert(!outranks(order[j], order[i]));
            }
            let teams = codes(sides(all));
            lemma_codes(sides(all));
            assert(full.len() == teams.len());
            assert forall|k: int| 0 <= k < out.len() implies place(
                teams,
                (#[trigger] out[k]).team_code,
            ) == origin[k] by {
                let m = origin[k];
                assert(order[k] == views(rows@)[m]);
                assert(views(rows@)[m] == row_of(full[m]));
                assert(full[m] == tally_of(sides(all), teams[m]));
                let same = |c: Seq<char>| c == teams[m];
                lemma_first_where(teams, same);
                lemma_first_where_first(teams, same, m);
                if first_where(teams, same) < m {
                    assert(teams[first_where(teams, same)] == teams[m]);
                }
            }
            assert forall|i: int, j: int|
                0 <= i < j < out.len() && !outranks(#[trigger] out[i], #[trigger] out[j]) implies place(
                teams,
                out[i].team_code,
            ) < place(teams, out[j].team_code) by {
                assert(outranks(order[i], order[j]) || origin[i] < origin[j]);
            }
        }
        Some(ranked)
    }

    /// The standings of both leagues over the regular season games among
    /// `games`, or nothing where those of a league cannot be made.
    pub fn update(games: &Vec<ApiGame>) -> (standings: Option<Standings>)
        ensures
            match standings {
                Some(s) => standings_of(views(s.SHL@), league_games(views(games@), League::SHL))
                    && standings_of(views(s.HA@), league_games(views(games@), League::HA)),
                None => !fits(table(sides(league_games(views(games@), League::SHL)))) || !fits(
                    table(sides(league_games(views(games@), League::HA))),
                ),
            },
    {
        let shl_games = StandingService::season_games(games, League::SHL);
        let ha_games = StandingService::season_games(games, League::HA);
        match StandingService::get_standings(&shl_games) {
            Some(shl) => match StandingService::get_standings(&ha_games) {
                Some(ha) => Some(Standings { SHL: shl, HA: ha }),
                None => None,
            },
            None => None,
        }
    }

    /// The regular season games of `league` among `games`.
    pub fn season_games(games: &Vec<ApiGame>, league: League) -> (kept: Vec<ApiGame>)
        ensures
            views(kept@) == league_games(views(games@), league),
    {
        let mut kept: Vec<ApiGame> = Vec::new();
        let ghost all = views(games@);
        let ghost wanted = |g: GameView| g.game_type == GameType::Season && g.league == league;
        assert(all.take(0) =~= Seq::<GameView>::empty());
        assert(views(kept@) =~= Seq::<GameView>::empty());
        let mut i: usize = 0;
        while i < games.len()
            invariant
                i <= games.len(),
                all == views(games@),
                wanted == |g: GameView| g.game_type == GameType::Season && g.league == league,
                views(kept@) == all.take(i as int).filter(wanted),
            decreases games.len() - i,
        {
            proof {
                assert(all.take(i + 1) =~= all.take(i as int).push(all[i as int]));
                all.take(i as int).lemma_filter_push(all[i as int], wanted);
            }
            if games[i].game_type == GameType::Season && games[i].league == league {
                let copy = games[i].clone();
                proof {
                    lemma_views_push(kept@, copy);
                }
                kept.push(copy);
            }
            i += 1;
        }
        assert(all.take(games.len() as int) =~= all);
        kept
    }
}

/// The regular season games of `league` among `games`.
pub open spec fn league_games(games: Seq<GameView>, league: League) -> Seq<GameView> {
    games.filter(|g: GameView| g.game_type == GameType::Season && g.league == league)
}

proof fn lemma_zero_ranks(rows: Seq<StandingView>, order: Seq<StandingView>)
    requires
        forall|j: int| 0 <= j < rows.len() ==> (#[trigger] rows[j]).rank == 0,
        order.to_multiset() == rows.to_multiset(),
    ensures
        unranked(order) =~= order,
{
    assert forall|j: int| 0 <= j < order.len() implies (#[trigger] order[j]).rank == 0 by {
        broadcast use vstd::seq_lib::group_to_multiset_ensures;

        assert(order.contains(order[j]));
        assert(order.to_multiset().count(order[j]) > 0);
        assert(rows.contains(order[j]));
        let k = choose|k: int| 0 <= k < rows.len() && rows[k] == order[j];
        assert(rows[k].rank == 0);
    }
}

} // verus!
