//! The game registry: the games of the current season in their order, and
//! the games of the other seasons by their id.

use vstd::prelude::*;
use crate::game::{ApiGame, GameView, Timestamp, opt_game};
use crate::models::{Season, SeasonKey};
use crate::report::{ApiGameReport, ReportView};
use crate::season::{SeasonGame, SeasonRsp};
use crate::text::str_eq;
use crate::views::{
    first_where, lemma_first_where, lemma_first_where_alike, lemma_first_where_first,
    lemma_first_where_from, lemma_first_where_push, lemma_views_push, lemma_views_update, views,
};
use crate::vote::{
    ApiVotePerGame, VotePerGame, VoteService, VoteView, tallies_fit, tally_fits, tally_of,
    vote_percentages,
};

verus! {

/// The index of the first of `games` with the id `uuid`, or the length of
/// `games` where there is none.
pub open spec fn game_index(games: Seq<GameView>, uuid: Seq<char>) -> int {
    first_where(games, |g: GameView| g.game_uuid == uuid)
}

/// The first of `games` with the id `uuid`.
pub open spec fn game_of(games: Seq<GameView>, uuid: Seq<char>) -> Option<GameView> {
    if game_index(games, uuid) < games.len() {
        Some(games[game_index(games, uuid)])
    } else {
        None
    }
}

/// The first of `reports` that is about the game `uuid`.
pub open spec fn report_of(reports: Seq<ReportView>, uuid: Seq<char>) -> Option<ReportView> {
    let at = first_where(reports, |r: ReportView| r.game_uuid == uuid);
    if at < reports.len() {
        Some(reports[at])
    } else {
        None
    }
}

/// `games` with `report` laid over the first game of the report's id.
pub open spec fn games_with_report(games: Seq<GameView>, report: ReportView) -> Seq<GameView> {
    let at = game_index(games, report.game_uuid);
    if at < games.len() {
        games.update(at, games[at].with_report(report))
    } else {
        games
    }
}

/// `games` with the percentages of `votes` set on the first game of the id
/// `uuid`.
pub open spec fn games_with_votes(games: Seq<GameView>, uuid: Seq<char>, votes: VotePerGame) -> Seq<
    GameView,
> {
    let at = game_index(games, uuid);
    if at < games.len() {
        games.update(at, GameView { votes: Some(vote_percentages(votes)), ..games[at] })
    } else {
        games
    }
}

/// `games` with `game` put in under its id: in place of the first game of
/// that id, or at the end where there is none.
pub open spec fn inserted(games: Seq<GameView>, game: GameView) -> Seq<GameView> {
    let at = game_index(games, game.game_uuid);
    if at < games.len() {
        games.update(at, game)
    } else {
        games.push(game)
    }
}

/// `games` with each of `incoming` put in under its id, in turn.
pub open spec fn inserted_all(games: Seq<GameView>, incoming: Seq<GameView>) -> Seq<GameView>
    decreases incoming.len(),
{
    if incoming.len() == 0 {
        games
    } else {
        inserted(inserted_all(games, incoming.drop_last()), incoming.last())
    }
}

/// The games that are made of the schedule `games` of `key` at `now`, each
/// with the tally of its votes and with its stored report.
pub open spec fn decorated_games(
    games: Seq<SeasonGame>,
    key: SeasonKey,
    votes: Seq<VoteView>,
    reports: Seq<ReportView>,
    now: Timestamp,
) -> Seq<GameView> {
    games.map_values(
        |g: SeasonGame|
            g@.decorated(key, tally_of(votes, g.uuid@), report_of(reports, g.uuid@), now),
    )
}

/// The games that are made of all of `responses`, in their order.
pub open spec fn decorated_all(
    responses: Seq<(SeasonKey, SeasonRsp)>,
    votes: Seq<VoteView>,
    reports: Seq<ReportView>,
    now: Timestamp,
) -> Seq<GameView>
    decreases responses.len(),
{
    if responses.len() == 0 {
        Seq::empty()
    } else {
        decorated_all(responses.drop_last(), votes, reports, now) + decorated_games(
            responses.last().1.gameInfo@,
            responses.last().0,
            votes,
            reports,
            now,
        )
    }
}

/// The first of `reports` that is about the game `uuid`.
pub fn find_report<'a>(reports: &'a Vec<ApiGameReport>, uuid: &str) -> (found: Option<
    &'a ApiGameReport,
>)
    ensures
        match found {
            Some(r) => report_of(views(reports@), uuid@) == Some(r@),
            None => report_of(views(reports@), uuid@) is None,
        },
{
    let ghost all = views(reports@);
    let ghost same = |r: ReportView| r.game_uuid == uuid@;
    let mut i: usize = 0;
    while i < reports.len()
        invariant
            i <= reports.len(),
            all == views(reports@),
            same == |r: ReportView| r.game_uuid == uuid@,
            forall|j: int| 0 <= j < i ==> !same(#[trigger] all[j]),
        decreases reports.len() - i,
    {
        proof {
            lemma_first_where_from(all, same, i as int);
        }
        if str_eq(reports[i].game_uuid.as_str(), uuid) {
            return Some(&reports[i]);
        }
        i += 1;
    }
    proof {
        lemma_first_where_from(all, same, i as int);
    }
    None
}

/// The index of the first of `games` with the id `uuid`.
pub fn find_game(games: &Vec<ApiGame>, uuid: &str) -> (at: usize)
    ensures
        at == game_index(views(games@), uuid@),
        at <= games.len(),
{
    let ghost all = views(games@);
    let ghost same = |g: GameView| g.game_uuid == uuid@;
    let mut i: usize = 0;
    while i < games.len()
        invariant
            i <= games.len(),
            all == views(games@),
            same == |g: GameView| g.game_uuid == uuid@,
            forall|j: int| 0 <= j < i ==> !same(#[trigger] all[j]),
        decreases games.len() - i,
    {
        proof {
            lemma_first_where_from(all, same, i as int);
        }
        if str_eq(games[i].game_uuid.as_str(), uuid) {
            return i;
        }
        i += 1;
    }
    proof {
        lemma_first_where_from(all, same, i as int);
    }
    i
}

/// A copy of `games`, game by game.
pub fn clone_games(games: &Vec<ApiGame>) -> (copy: Vec<ApiGame>)
    ensures
        views(copy@) == views(games@),
{
    let mut copy: Vec<ApiGame> = Vec::new();
    let mut i: usize = 0;
    while i < games.len()
        invariant
            i <= games.len(),
            copy.len() == i,
            forall|j: int| 0 <= j < i ==> (#[trigger] copy@[j])@ == games@[j]@,
        decreases games.len() - i,
    {
        copy.push(games[i].clone());
        i += 1;
    }
    assert(views(copy@) =~= views(games@));
    copy
}

/// What the registry holds.
pub struct RegistryView {
    pub current: Seq<GameView>,
    pub rest: Seq<GameView>,
}

impl RegistryView {
    /// The registry after the games `games` of `season` are taken in: as the
    /// games of the current season where `season` is the current one, else
    /// each under its id among the games of the other seasons.
    pub open spec fn ingested(self, season: Season, games: Seq<GameView>) -> RegistryView {
        if season == Season::current() {
            RegistryView { current: games, rest: self.rest }
        } else {
            RegistryView { current: self.current, rest: inserted_all(self.rest, games) }
        }
    }
}

/// The game registry.
pub struct ApiSeasonService {
    /// The games of the current season, in the order of the schedule.
    pub current_season_in_mem: Vec<ApiGame>,
    /// The games of the other seasons, each id once.
    pub rest_games: Vec<ApiGame>,
}

impl View for ApiSeasonService {
    type V = RegistryView;

    open spec fn view(&self) -> RegistryView {
        RegistryView {
            current: views(self.current_season_in_mem@),
            rest: views(self.rest_games@),
        }
    }
}

impl ApiSeasonService {
    /// A registry without games.
    pub fn new() -> (registry: ApiSeasonService)
        ensures
            registry.current_season_in_mem@.len() == 0,
            registry.rest_games@.len() == 0,
    {
        ApiSeasonService { current_season_in_mem: Vec::new(), rest_games: Vec::new() }
    }

    /// The games of the current season.
    pub open spec fn current(&self) -> Seq<GameView> {
        views(self.current_season_in_mem@)
    }

    /// The games of the other seasons.
    pub open spec fn rest(&self) -> Seq<GameView> {
        views(self.rest_games@)
    }

    /// Makes the games of `responses` at `now` and takes them into the
    /// registry: as the games of the current season where `season` is the
    /// current one, else each under its id among the games of the other
    /// seasons. The games that were made are returned.
    ///
    /// `votes` holds the votes that count and `reports` the stored reports.
    pub fn update(
        &mut self,
        season: &Season,
        responses: &Vec<(SeasonKey, SeasonRsp)>,
        votes: &VoteService,
        reports: &Vec<ApiGameReport>,
        now: Timestamp,
    ) -> (games: Vec<ApiGame>)
        requires
            tallies_fit(views(votes.all_votes@)),
        ensures
            views(games@) == decorated_all(
                responses@,
                views(votes.all_votes@),
                views(reports@),
                now,
            ),
            final(self)@ == old(self)@.ingested(*season, views(games@)),
    {
        let mut games: Vec<ApiGame> = Vec::new();
        let ghost vs = views(votes.all_votes@);
        let ghost rs = views(reports@);
        assert(responses@.take(0) =~= Seq::<(SeasonKey, SeasonRsp)>::empty());
        assert(views(games@) =~= Seq::<GameView>::empty());
        let mut i: usize = 0;
        while i < responses.len()
            invariant
                i <= responses.len(),
                tallies_fit(vs),
                vs == views(votes.all_votes@),
                rs == views(reports@),
                views(games@) == decorated_all(responses@.take(i as int), vs, rs, now),
            decreases responses.len() - i,
        {
            let key = &responses[i].0;
            let schedule = &responses[i].1.gameInfo;
            let ghost before = views(games@);
            let ghost target = decorated_games(schedule@, *key, vs, rs, now);
            let mut k: usize = 0;
            assert(target.take(0) =~= Seq::<GameView>::empty());
            assert(before + Seq::<GameView>::empty() =~= before);
            while k < schedule.len()
                invariant
                    k <= schedule.len(),
                    tallies_fit(vs),
                    vs == views(votes.all_votes@),
                    rs == views(reports@),
                    target == decorated_games(schedule@, *key, vs, rs, now),
                    views(games@) == before + target.take(k as int),
                decreases schedule.len() - k,
            {
                let e = &schedule[k];
                assert(tally_fits(vs, e.uuid@));
                let tally = votes.get(e.uuid.as_str());
                let report = find_report(reports, e.uuid.as_str());
                let game = e.decorate(key, tally, report, now);
                proof {
                    lemma_views_push(games@, game);
                    assert(target.take(k + 1) =~= target.take(k as int).push(target[k as int]));
                    assert(before + target.take(k + 1) =~= (before + target.take(k as int)).push(
                        target[k as int],
                    ));
                }
                games.push(game);
                k += 1;
            }
            proof {
                assert(target.take(schedule.len() as int) =~= target);
                assert(responses@.take(i + 1).drop_last() =~= responses@.take(i as int));
                assert(responses@.take(i + 1).last() == responses@[i as int]);
            }
            i += 1;
        }
        assert(responses@.take(responses.len() as int) =~= responses@);
        if season.is_current() {
            self.current_season_in_mem = clone_games(&games);
        } else {
            let ghost start = views(self.rest_games@);
            let ghost incoming = views(games@);
            assert(incoming.take(0) =~= Seq::<GameView>::empty());
            let mut n: usize = 0;
            while n < games.len()
                invariant
                    n <= games.len(),
                    incoming == views(games@),
                    self.current_season_in_mem == old(self).current_season_in_mem,
                    views(self.rest_games@) == inserted_all(start, incoming.take(n as int)),
                decreases games.len() - n,
            {
                proof {
                    assert(incoming.take(n + 1).drop_last() =~= incoming.take(n as int));
                    assert(incoming.take(n + 1).last() == games@[n as int]@);
                }
                let copy = games[n].clone();
                let at = find_game(&self.rest_games, copy.game_uuid.as_str());
                if at < self.rest_games.len() {
                    proof {
                        lemma_views_update(self.rest_games@, at as int, copy);
                    }
                    self.rest_games.set(at, copy);
                } else {
                    proof {
                        lemma_views_push(self.rest_games@, copy);
                    }
                    self.rest_games.push(copy);
                }
                n += 1;
            }
            assert(incoming.take(games.len() as int) =~= incoming);
        }
        games
    }

    /// Lays `report` over the game of the current season that it is about,
    /// and returns that game as it then stands.
    pub fn update_from_report(&mut self, report: &ApiGameReport) -> (game: Option<ApiGame>)
        ensures
            final(self).current() == games_with_report(old(self).current(), report@),
            final(self).rest() == old(self).rest(),
            opt_game(game) == match game_of(old(self).current(), report@.game_uuid) {
                Some(g) => Some(g.with_report(report@)),
                None => None,
            },
    {
        let at = find_game(&self.current_season_in_mem, report.game_uuid.as_str());
        if at < self.current_season_in_mem.len() {
            let mut game = self.current_season_in_mem[at].clone();
            game.apply_report(report);
            let copy = game.clone();
            proof {
                lemma_views_update(self.current_season_in_mem@, at as int, game);
            }
            self.current_season_in_mem.set(at, game);
            Some(copy)
        } else {
            None
        }
    }

    /// Sets the percentages of `votes` on the game `game_uuid` of the current
    /// season.
    pub fn update_from_votes(&mut self, game_uuid: &str, votes: VotePerGame)
        ensures
            final(self).current() == games_with_votes(old(self).current(), game_uuid@, votes),
            final(self).rest() == old(self).rest(),
    {
        let at = find_game(&self.current_season_in_mem, game_uuid);
        if at < self.current_season_in_mem.len() {
            let mut game = self.current_season_in_mem[at].clone();
            game.votes = Some(ApiVotePerGame::from(votes));
            proof {
                lemma_views_update(self.current_season_in_mem@, at as int, game);
            }
            self.current_season_in_mem.set(at, game);
        }
    }

    /// The games of the current season.
    pub fn read_current_season(&self) -> (games: Vec<ApiGame>)
        ensures
            views(games@) == self.current(),
    {
        clone_games(&self.current_season_in_mem)
    }

    /// The game `game_uuid` of the current season.
    pub fn read_current_season_game(&self, game_uuid: &str) -> (game: Option<ApiGame>)
        ensures
            opt_game(game) == game_of(self.current(), game_uuid@),
    {
        let at = find_game(&self.current_season_in_mem, game_uuid);
        if at < self.current_season_in_mem.len() {
            Some(self.current_season_in_mem[at].clone())
        } else {
            None
        }
    }

    /// The game `game_uuid`, of the current season where it has one of that
    /// id, else of the other seasons.
    pub fn read_game(&self, game_uuid: &str) -> (game: Option<ApiGame>)
        ensures
            opt_game(game) == match game_of(self.current(), game_uuid@) {
                Some(g) => Some(g),
                None => game_of(self.rest(), game_uuid@),
            },
    {
        let current_season_game = self.read_current_season_game(game_uuid);
        if current_season_game.is_some() {
            current_season_game
        } else {
            let at = find_game(&self.rest_games, game_uuid);
            if at < self.rest_games.len() {
                Some(self.rest_games[at].clone())
            } else {
                None
            }
        }
    }
}

/// Games by their id: each id once, a later game in place of an earlier one
/// of its id.
pub struct InMemGames {
    pub games: Vec<ApiGame>,
}

impl InMemGames {
    /// The games `games` by their id.
    pub fn new(games: Vec<ApiGame>) -> (held: InMemGames)
        ensures
            views(held.games@) == inserted_all(Seq::empty(), views(games@)),
    {
        let mut held = InMemGames { games: Vec::new() };
        assert(views(held.games@) =~= Seq::<GameView>::empty());
        held.update(games);
        held
    }

    /// Puts each of `games` in under its id.
    pub fn update(&mut self, games: Vec<ApiGame>)
        ensures
            views(final(self).games@) == inserted_all(views(old(self).games@), views(games@)),
    {
        let ghost start = views(self.games@);
        let ghost incoming = views(games@);
        assert(incoming.take(0) =~= Seq::<GameView>::empty());
        let mut n: usize = 0;
        while n < games.len()
            invariant
                n <= games.len(),
                incoming == views(games@),
                views(self.games@) == inserted_all(start, incoming.take(n as int)),
            decreases games.len() - n,
        {
            proof {
                assert(incoming.take(n + 1).drop_last() =~= incoming.take(n as int));
                assert(incoming.take(n + 1).last() == games@[n as int]@);
            }
            let copy = games[n].clone();
            let at = find_game(&self.games, copy.game_uuid.as_str());
            if at < self.games.len() {
                proof {
                    lemma_views_update(self.games@, at as int, copy);
                }
                self.games.set(at, copy);
            } else {
                proof {
                    lemma_views_push(self.games@, copy);
                }
                self.games.push(copy);
            }
            n += 1;
        }
        assert(incoming.take(games.len() as int) =~= incoming);
    }
}

/// After a report is laid over the games, the game that it is about reads
/// with the report's status, scores and game time.
pub proof fn lemma_read_after_report(games: Seq<GameView>, report: ReportView)
    requires
        game_of(games, report.game_uuid) is Some,
    ensures
        game_of(games_with_report(games, report), report.game_uuid) matches Some(g) && g.status
            == report.status && g.home_team_result == report.home_team_result
            && g.away_team_result == report.away_team_result && g.gametime == Some(
            report.gametime,
        ) && g.played == (report.status == crate::report::GameStatus::Finished),
{
    let same = |g: GameView| g.game_uuid == report.game_uuid;
    let at = game_index(games, report.game_uuid);
    let after = games_with_report(games, report);
    lemma_first_where(games, same);
    assert forall|j: int| 0 <= j < at implies !same(#[trigger] after[j]) by {
        assert(after[j] == games[j]);
    }
    lemma_first_where_from(after, same, at);
}

/// A report changes no game but the one that it is about.
pub proof fn lemma_report_leaves_others(games: Seq<GameView>, report: ReportView, uuid: Seq<char>)
    requires
        uuid != report.game_uuid,
    ensures
        game_of(games_with_report(games, report), uuid) == game_of(games, uuid),
{
    let wanted = |g: GameView| g.game_uuid == uuid;
    let same = |g: GameView| g.game_uuid == report.game_uuid;
    let after = games_with_report(games, report);
    let at = game_index(games, uuid);
    lemma_first_where(games, wanted);
    lemma_first_where(games, same);
    assert forall|j: int| 0 <= j < at implies !wanted(#[trigger] after[j]) by {
        assert(after[j].game_uuid == games[j].game_uuid);
    }
    if at < games.len() {
        assert(game_index(games, report.game_uuid) != at);
        assert(after[at] == games[at]);
    }
    lemma_first_where_from(after, wanted, at);
}

/// The index of the last of `incoming` with the id `uuid`, or -1.
pub open spec fn last_of(incoming: Seq<GameView>, uuid: Seq<char>) -> int
    decreases incoming.len(),
{
    if incoming.len() == 0 {
        -1
    } else if incoming.last().game_uuid == uuid {
        incoming.len() - 1
    } else {
        last_of(incoming.drop_last(), uuid)
    }
}

/// Whether `after` is `games` with `incoming` put in: every game keeps its
/// place and its id; the first game of an id that occurs among `incoming`
/// is the last of `incoming` with that id, and every other game is as it
/// was; ids that were new stand at the end, each once.
pub open spec fn is_inserted(after: Seq<GameView>, games: Seq<GameView>, incoming: Seq<GameView>) -> bool {
    &&& after.len() >= games.len()
    &&& forall|p: int| 0 <= p < games.len() ==> (#[trigger] after[p]).game_uuid == games[p].game_uuid
    &&& forall|i: int|
        0 <= i < incoming.len() ==> game_index(after, (#[trigger] incoming[i]).game_uuid)
            < after.len()
    &&& forall|p: int|
        0 <= p < after.len() ==> if game_index(after, (#[trigger] after[p]).game_uuid) == p
            && last_of(incoming, after[p].game_uuid) >= 0 {
            after[p] == incoming[last_of(incoming, after[p].game_uuid)]
        } else {
            p < games.len() && after[p] == games[p]
        }
}

proof fn lemma_last_of_bound(incoming: Seq<GameView>, uuid: Seq<char>)
    ensures
        -1 <= last_of(incoming, uuid) < incoming.len(),
        last_of(incoming, uuid) >= 0 ==> incoming[last_of(incoming, uuid)].game_uuid == uuid,
    decreases incoming.len(),
{
    if incoming.len() > 0 && incoming.last().game_uuid != uuid {
        lemma_last_of_bound(incoming.drop_last(), uuid);
    }
}

/// What `inserted_all` makes is `games` with `incoming` put in.
pub proof fn lemma_inserted_all(games: Seq<GameView>, incoming: Seq<GameView>)
    ensures
        is_inserted(inserted_all(games, incoming), games, incoming),
    decreases incoming.len(),
{
    let after = inserted_all(games, incoming);
    if incoming.len() == 0 {
        assert forall|p: int| 0 <= p < after.len() implies !(last_of(
            incoming,
            (#[trigger] after[p]).game_uuid,
        ) >= 0) by {}
    } else {
        let front = incoming.drop_last();
        let g = incoming.last();
        let t = inserted_all(games, front);
        lemma_inserted_all(games, front);
        let same = |x: GameView| x.game_uuid == g.game_uuid;
        let at = game_index(t, g.game_uuid);
        lemma_first_where(t, same);
        assert forall|u: Seq<char>| #![trigger game_index(after, u)]
            game_index(t, u) < t.len() implies game_index(after, u) == game_index(t, u) by {
            let pred = |x: GameView| x.game_uuid == u;
            if at < t.len() {
                assert forall|i: int| 0 <= i < t.len() implies pred(#[trigger] t[i]) == pred(
                    after[i],
                ) by {}
                lemma_first_where_alike(t, after, pred);
            } else {
                lemma_first_where_push(t, pred, g);
            }
        }
        assert(game_index(after, g.game_uuid) == at) by {
            if at >= t.len() {
                lemma_first_where_push(t, same, g);
            }
        }
        assert forall|i: int| 0 <= i < incoming.len() implies game_index(
            after,
            (#[trigger] incoming[i]).game_uuid,
        ) < after.len() by {
            if i < front.len() {
                assert(incoming[i] == front[i]);
            }
        }
        assert forall|p: int| 0 <= p < games.len() implies (#[trigger] after[p]).game_uuid
            == games[p].game_uuid by {
            assert(t[p].game_uuid == games[p].game_uuid);
        }
        assert forall|p: int| 0 <= p < after.len() implies if game_index(
            after,
            (#[trigger] after[p]).game_uuid,
        ) == p && last_of(incoming, after[p].game_uuid) >= 0 {
            after[p] == incoming[last_of(incoming, after[p].game_uuid)]
        } else {
            p < games.len() && after[p] == games[p]
        } by {
            let u = after[p].game_uuid;
            if p < t.len() {
                assert(t[p].game_uuid == u);
                lemma_first_where_first(t, |x: GameView| x.game_uuid == u, p);
                assert(game_index(t, u) < t.len());
                assert(game_index(after, u) == game_index(t, u));
                if u != g.game_uuid {
                    assert(after[p] == t[p]);
                    assert(last_of(incoming, u) == last_of(front, u));
                    lemma_last_of_bound(front, u);
                    if last_of(front, u) >= 0 {
                        assert(incoming[last_of(front, u)] == front[last_of(front, u)]);
                    }
                } else if p != at {
                    assert(after[p] == t[p]);
                }
            }
        }
    }
}

/// Putting the same games in a second time changes nothing.
pub proof fn lemma_insert_all_twice(games: Seq<GameView>, incoming: Seq<GameView>)
    ensures
        inserted_all(inserted_all(games, incoming), incoming) == inserted_all(games, incoming),
{
    let once = inserted_all(games, incoming);
    let twice = inserted_all(once, incoming);
    lemma_inserted_all(games, incoming);
    lemma_inserted_all(once, incoming);
    assert forall|u: Seq<char>| #![trigger game_index(twice, u)]
        game_index(once, u) < once.len() implies game_index(twice, u) == game_index(once, u) by {
        let pred = |x: GameView| x.game_uuid == u;
        lemma_first_where(once, pred);
        let at = game_index(once, u);
        assert forall|j: int| 0 <= j < at implies !pred(#[trigger] twice[j]) by {
            assert(twice[j].game_uuid == once[j].game_uuid);
            assert(!pred(once[j]));
        }
        assert(twice[at].game_uuid == once[at].game_uuid);
        lemma_first_where_from(twice, pred, at);
    }
    if twice.len() > once.len() {
        let p = once.len() as int;
        let u = twice[p].game_uuid;
        assert(game_index(twice, u) == p && last_of(incoming, u) >= 0);
        lemma_last_of_bound(incoming, u);
        let i = last_of(incoming, u);
        assert(game_index(once, incoming[i].game_uuid) < once.len());
        assert(game_index(twice, u) == game_index(once, u));
    }
    assert forall|p: int| 0 <= p < once.len() implies twice[p] == once[p] by {
        let u = twice[p].game_uuid;
        assert(once[p].game_uuid == u);
        lemma_first_where_first(once, |x: GameView| x.game_uuid == u, p);
        assert(game_index(twice, u) == game_index(once, u));
    }
    assert(twice =~= once);
}

/// Taking the same games of a season in twice leaves the registry as it is
/// after the first time: the second ingest changes no game, so no report of
/// a change follows from it.
pub proof fn lemma_reingest(registry: RegistryView, season: Season, games: Seq<GameView>)
    ensures
        registry.ingested(season, games).ingested(season, games) == registry.ingested(
            season,
            games,
        ),
{
    lemma_insert_all_twice(registry.rest, games);
}

} // verus!
