//! Votes on the winner of a game: one vote per user and game, the latest
//! counts; tallies per game, and the percentages that clients are shown.

use vstd::prelude::*;
use vstd::arithmetic::div_mod::{lemma_fundamental_div_mod, lemma_fundamental_div_mod_converse};
use vstd::std_specs::convert::FromSpecImpl;
use crate::text::{contains_text, str_eq, texts};
use crate::views::{lemma_views_push, views};

verus! {

/// A vote as a client posts it.
#[derive(Debug)]
pub struct VoteBody {
    pub game_uuid: String,
    pub user_id: String,
    pub team_code: String,
}

/// The votes of one game, counted.
#[derive(Clone, Copy, Debug, PartialEq, Eq, Structural)]
pub struct VotePerGame {
    pub home_count: u16,
    pub away_count: u16,
}

impl Default for VotePerGame {
    fn default() -> (empty: Self)
        ensures
            empty == (VotePerGame { home_count: 0, away_count: 0 }),
    {
        VotePerGame { home_count: 0, away_count: 0 }
    }
}

/// The votes of one game as percentages.
#[derive(Clone, Copy, Debug, PartialEq, Eq, Structural)]
pub struct ApiVotePerGame {
    pub home_perc: u16,
    pub away_perc: u16,
}

impl Default for ApiVotePerGame {
    fn default() -> (empty: Self)
        ensures
            empty == (ApiVotePerGame { home_perc: 0, away_perc: 0 }),
    {
        ApiVotePerGame { home_perc: 0, away_perc: 0 }
    }
}

/// `part` of `total` in percent, rounded to the nearest whole number, a half
/// upwards; 0 where `total` is 0.
pub open spec fn rounded_percent(part: int, total: int) -> int {
    if total <= 0 {
        0
    } else {
        (200 * part + total) / (2 * total)
    }
}

/// The percentages of a tally.
pub open spec fn vote_percentages(votes: VotePerGame) -> ApiVotePerGame {
    let total = votes.home_count + votes.away_count;
    ApiVotePerGame {
        home_perc: rounded_percent(votes.home_count as int, total) as u16,
        away_perc: rounded_percent(votes.away_count as int, total) as u16,
    }
}

/// A rounded percentage of a part lies between 0 and 100.
pub proof fn lemma_rounded_percent_bounds(part: int, total: int)
    requires
        0 <= part <= total,
    ensures
        0 <= rounded_percent(part, total) <= 100,
{
    if total > 0 {
        let x = 200 * part + total;
        let d = 2 * total;
        lemma_fundamental_div_mod(x, d);
        let q = x / d;
        assert(x == d * q + x % d);
        assert(0 <= x % d < d);
        assert(0 <= q <= 100) by (nonlinear_arith)
            requires
                x == d * q + x % d,
                0 <= x % d < d,
                0 <= x <= 201 * total,
                d == 2 * total,
                total > 0,
        ;
    }
}

/// The two percentages of a tally with a vote in it add up to 100, unless
/// the home share lies exactly halfway between two whole numbers: then both
/// are rounded upwards and add up to 101.
pub proof fn lemma_percentages_sum(home: int, away: int)
    requires
        0 <= home,
        0 <= away,
        home + away > 0,
        (200 * home) % (2 * (home + away)) != home + away,
    ensures
        rounded_percent(home, home + away) + rounded_percent(away, home + away) == 100,
{
    let t = home + away;
    let d = 2 * t;
    let q = (200 * home) / d;
    let r = (200 * home) % d;
    lemma_fundamental_div_mod(200 * home, d);
    assert(200 * home == d * q + r);
    assert(0 <= r < d);
    assert(d * q == q * d) by (nonlinear_arith);
    assert(d * (100 - q) == 200 * t - q * d) by (nonlinear_arith)
        requires
            d == 2 * t,
    ;
    assert((q + 1) * d == q * d + d) by (nonlinear_arith);
    assert((99 - q) * d == 200 * t - q * d - d) by (nonlinear_arith)
        requires
            d == 2 * t,
    ;
    assert((100 - q) * d == 200 * t - q * d) by (nonlinear_arith)
        requires
            d == 2 * t,
    ;
    if r < t {
        lemma_fundamental_div_mod_converse(200 * home + t, d, q, r + t);
        lemma_fundamental_div_mod_converse(200 * away + t, d, 100 - q, t - r);
    } else {
        lemma_fundamental_div_mod_converse(200 * home + t, d, q + 1, r - t);
        lemma_fundamental_div_mod_converse(200 * away + t, d, 99 - q, 3 * t - r);
    }
}

impl From<VotePerGame> for ApiVotePerGame {
    fn from(value: VotePerGame) -> (shares: ApiVotePerGame)
        ensures
            shares == vote_percentages(value),
            shares.home_perc <= 100,
            shares.away_perc <= 100,
    {
        let total: u32 = value.home_count as u32 + value.away_count as u32;
        proof {
            lemma_rounded_percent_bounds(value.home_count as int, total as int);
            lemma_rounded_percent_bounds(value.away_count as int, total as int);
        }
        if total == 0 {
            ApiVotePerGame { home_perc: 0, away_perc: 0 }
        } else {
            ApiVotePerGame {
                home_perc: ((200 * (value.home_count as u32) + total) / (2 * total)) as u16,
                away_perc: ((200 * (value.away_count as u32) + total) / (2 * total)) as u16,
            }
        }
    }
}

impl FromSpecImpl<VotePerGame> for ApiVotePerGame {
    open spec fn obeys_from_spec() -> bool {
        true
    }

    open spec fn from_spec(value: VotePerGame) -> ApiVotePerGame {
        vote_percentages(value)
    }
}

/// One user's vote on one game.
#[derive(Debug)]
pub struct Vote {
    pub user_id: String,
    pub game_uuid: String,
    pub team_code: String,
    /// Whether the home team is picked as the winner.
    pub is_home_winner: bool,
}

/// What a `Vote` holds.
pub struct VoteView {
    pub user_id: Seq<char>,
    pub game_uuid: Seq<char>,
    pub team_code: Seq<char>,
    pub is_home_winner: bool,
}

impl View for Vote {
    type V = VoteView;

    open spec fn view(&self) -> VoteView {
        VoteView {
            user_id: self.user_id@,
            game_uuid: self.game_uuid@,
            team_code: self.team_code@,
            is_home_winner: self.is_home_winner,
        }
    }
}

impl Clone for Vote {
    fn clone(&self) -> (copy: Self)
        ensures
            copy@ == self@,
    {
        Vote {
            user_id: self.user_id.clone(),
            game_uuid: self.game_uuid.clone(),
            team_code: self.team_code.clone(),
            is_home_winner: self.is_home_winner,
        }
    }
}

/// The votes of `votes` on the game `game` for its home team
/// (`home` true) or its away team.
pub open spec fn count_votes(votes: Seq<VoteView>, game: Seq<char>, home: bool) -> nat {
    votes.filter(|v: VoteView| v.game_uuid == game && v.is_home_winner == home).len()
}

/// Whether the tally of the game `game` among `votes` can be kept in 16
/// bits: neither of its teams has more than 65535 votes.
pub open spec fn tally_fits(votes: Seq<VoteView>, game: Seq<char>) -> bool {
    count_votes(votes, game, true) <= u16::MAX && count_votes(votes, game, false) <= u16::MAX
}

/// Whether the tally of every game among `votes` can be kept in 16 bits.
pub open spec fn tallies_fit(votes: Seq<VoteView>) -> bool {
    forall|game: Seq<char>| #[trigger] tally_fits(votes, game)
}

/// `votes` without the vote of `user` on `game`.
pub open spec fn without_vote(votes: Seq<VoteView>, user: Seq<char>, game: Seq<char>) -> Seq<
    VoteView,
> {
    votes.filter(|v: VoteView| !(v.game_uuid == game && v.user_id == user))
}

/// `votes` after `vote` is cast: an earlier vote of the same user on the same
/// game is taken out, and `vote` is put at the end.
pub open spec fn cast(votes: Seq<VoteView>, vote: VoteView) -> Seq<VoteView> {
    without_vote(votes, vote.user_id, vote.game_uuid).push(vote)
}

/// Whether one of `votes` is on the game `game`.
pub open spec fn has_votes(votes: Seq<VoteView>, game: Seq<char>) -> bool {
    exists|i: int| 0 <= i < votes.len() && (#[trigger] votes[i]).game_uuid == game
}

/// The tally of the game `uuid` among `votes`, where a vote was cast on it.
pub open spec fn tally_of(votes: Seq<VoteView>, uuid: Seq<char>) -> Option<VotePerGame> {
    if has_votes(votes, uuid) {
        Some(
            VotePerGame {
                home_count: count_votes(votes, uuid, true) as u16,
                away_count: count_votes(votes, uuid, false) as u16,
            },
        )
    } else {
        None
    }
}

/// The games on which one of `votes` was cast, each once, in the order of
/// their first vote.
pub open spec fn voted_games(votes: Seq<VoteView>) -> Seq<Seq<char>>
    decreases votes.len(),
{
    if votes.len() == 0 {
        Seq::empty()
    } else {
        let before = voted_games(votes.drop_last());
        if before.contains(votes.last().game_uuid) {
            before
        } else {
            before.push(votes.last().game_uuid)
        }
    }
}

/// The tallies of all games on which one of `votes` was cast, in the order of
/// their first vote.
pub open spec fn all_tallies(votes: Seq<VoteView>) -> Seq<(Seq<char>, VotePerGame)> {
    voted_games(votes).map_values(
        |game: Seq<char>|
            (
                game,
                VotePerGame {
                    home_count: count_votes(votes, game, true) as u16,
                    away_count: count_votes(votes, game, false) as u16,
                },
            ),
    )
}

/// The views of tallies by game.
pub open spec fn tally_texts(tallies: Seq<(String, VotePerGame)>) -> Seq<(Seq<char>, VotePerGame)> {
    tallies.map_values(|t: (String, VotePerGame)| (t.0@, t.1))
}

/// After a vote is cast, its user has exactly one vote on its game.
pub proof fn lemma_cast_once(votes: Seq<VoteView>, vote: VoteView)
    ensures
        cast(votes, vote).filter(
            |v: VoteView| v.game_uuid == vote.game_uuid && v.user_id == vote.user_id,
        ) == seq![vote],
{
    let same = |v: VoteView| v.game_uuid == vote.game_uuid && v.user_id == vote.user_id;
    let other = |v: VoteView| !(v.game_uuid == vote.game_uuid && v.user_id == vote.user_id);
    let kept = votes.filter(other);
    assert(kept.filter(same).len() == 0) by {
        if kept.filter(same).len() > 0 {
            let x = kept.filter(same)[0];
            kept.lemma_filter_pred(same, 0);
            assert(kept.filter(same).contains(x));
            kept.lemma_filter_contains_rev(same, x);
            let k = choose|k: int| 0 <= k < kept.len() && kept[k] == x;
            votes.lemma_filter_pred(other, k);
        }
    }
    kept.lemma_filter_push(vote, same);
    assert(cast(votes, vote).filter(same) =~= seq![vote]);
}

/// A game with a counted vote has a vote: where a team of the game `game`
/// has votes among `votes`, one of `votes` is on that game.
pub proof fn lemma_counted_game_has_vote(votes: Seq<VoteView>, game: Seq<char>, home: bool)
    ensures
        count_votes(votes, game, home) > 0 ==> exists|i: int|
            0 <= i < votes.len() && (#[trigger] votes[i]).game_uuid == game,
{
    let side = |v: VoteView| v.game_uuid == game && v.is_home_winner == home;
    if votes.filter(side).len() > 0 {
        let x = votes.filter(side)[0];
        votes.lemma_filter_pred(side, 0);
        assert(votes.filter(side).contains(x));
        votes.lemma_filter_contains_rev(side, x);
        let k = choose|k: int| 0 <= k < votes.len() && votes[k] == x;
        assert(votes[k].game_uuid == game);
    }
}

/// The vote aggregator: every vote that counts, in the order of casting.
pub struct VoteService {
    pub all_votes: Vec<Vote>,
}

impl VoteService {
    /// An aggregator that holds `all_votes`.
    pub fn new(all_votes: Vec<Vote>) -> (service: VoteService)
        ensures
            service.all_votes == all_votes,
    {
        VoteService { all_votes }
    }

    /// The votes of `entry` on the game `game_uuid` for its home team
    /// (`home` true) or its away team, counted without a limit.
    pub fn count(entry: &Vec<Vote>, game_uuid: &str, home: bool) -> (n: usize)
        ensures
            n == count_votes(views(entry@), game_uuid@, home),
    {
        let ghost all = views(entry@);
        let ghost side = |v: VoteView| v.game_uuid == game_uuid@ && v.is_home_winner == home;
        assert(all.take(0) =~= Seq::<VoteView>::empty());
        let mut n: usize = 0;
        let mut i: usize = 0;
        while i < entry.len()
            invariant
                i <= entry.len(),
                all == views(entry@),
                side == |v: VoteView| v.game_uuid == game_uuid@ && v.is_home_winner == home,
                n == all.take(i as int).filter(side).len(),
                n <= i,
            decreases entry.len() - i,
        {
            proof {
                assert(all.take(i + 1) =~= all.take(i as int).push(all[i as int]));
                all.take(i as int).lemma_filter_push(all[i as int], side);
            }
            if entry[i].is_home_winner == home && str_eq(entry[i].game_uuid.as_str(), game_uuid) {
                n += 1;
            }
            i += 1;
        }
        assert(all.take(entry.len() as int) =~= all);
        n
    }

    /// Whether the tally of every game can be kept in 16 bits.
    pub fn fits(&self) -> (fits: bool)
        ensures
            fits == tallies_fit(views(self.all_votes@)),
    {
        let ghost all = views(self.all_votes@);
        if self.all_votes.len() <= 65535 {
            assert forall|game: Seq<char>| #[trigger] tally_fits(all, game) by {
                all.lemma_filter_len(|v: VoteView| v.game_uuid == game && v.is_home_winner == true);
                all.lemma_filter_len(
                    |v: VoteView| v.game_uuid == game && v.is_home_winner == false,
                );
            }
            return true;
        }
        let mut counted: Vec<String> = Vec::new();
        let mut i: usize = 0;
        while i < self.all_votes.len()
            invariant
                i <= self.all_votes.len(),
                all == views(self.all_votes@),
                forall|j: int| 0 <= j < i ==> tally_fits(all, (#[trigger] all[j]).game_uuid),
                forall|k: int| 0 <= k < counted@.len() ==> tally_fits(all, (#[trigger] counted@[k])@),
            decreases self.all_votes.len() - i,
        {
            let game = &self.all_votes[i].game_uuid;
            assert(all[i as int].game_uuid == game@);
            if contains_text(&counted, game.as_str()) {
                let ghost k = choose|k: int|
                    0 <= k < texts(counted@).len() && texts(counted@)[k] == game@;
                assert(counted@[k]@ == game@);
            } else {
                let home: usize = VoteService::count(&self.all_votes, game.as_str(), true);
                let away: usize = VoteService::count(&self.all_votes, game.as_str(), false);
                if home > 65535 || away > 65535 {
                    assert(!tally_fits(all, game@));
                    return false;
                }
                counted.push(game.clone());
            }
            i += 1;
        }
        assert forall|game: Seq<char>| #[trigger] tally_fits(all, game) by {
            lemma_counted_game_has_vote(all, game, true);
            lemma_counted_game_has_vote(all, game, false);
        }
        true
    }

    /// Whether `vote` can be cast: with it the tally of its game can still
    /// be kept in 16 bits.
    pub fn takes(&self, vote: &Vote) -> (fits: bool)
        ensures
            fits == tally_fits(cast(views(self.all_votes@), vote@), vote@.game_uuid),
    {
        let ghost all = views(self.all_votes@);
        let ghost other = |v: VoteView|
            !(v.game_uuid == vote@.game_uuid && v.user_id == vote@.user_id);
        let ghost at_home = |v: VoteView| v.game_uuid == vote@.game_uuid && v.is_home_winner == true;
        let ghost away = |v: VoteView| v.game_uuid == vote@.game_uuid && v.is_home_winner == false;
        assert(all.take(0) =~= Seq::<VoteView>::empty());
        assert(all.take(0).filter(other) =~= Seq::<VoteView>::empty());
        let mut for_home: usize = 0;
        let mut for_away: usize = 0;
        let mut i: usize = 0;
        while i < self.all_votes.len()
            invariant
                i <= self.all_votes.len(),
                all == views(self.all_votes@),
                other == |v: VoteView|
                    !(v.game_uuid == vote@.game_uuid && v.user_id == vote@.user_id),
                at_home == |v: VoteView|
                    v.game_uuid == vote@.game_uuid && v.is_home_winner == true,
                away == |v: VoteView| v.game_uuid == vote@.game_uuid && v.is_home_winner == false,
                for_home == all.take(i as int).filter(other).filter(at_home).len(),
                for_away == all.take(i as int).filter(other).filter(away).len(),
                for_home <= i,
                for_away <= i,
            decreases self.all_votes.len() - i,
        {
            proof {
                assert(all.take(i + 1) =~= all.take(i as int).push(all[i as int]));
                all.take(i as int).lemma_filter_push(all[i as int], other);
                all.take(i as int).filter(other).lemma_filter_push(all[i as int], at_home);
                all.take(i as int).filter(other).lemma_filter_push(all[i as int], away);
            }
            let e = &self.all_votes[i];
            if str_eq(e.game_uuid.as_str(), vote.game_uuid.as_str()) && !str_eq(
                e.user_id.as_str(),
                vote.user_id.as_str(),
            ) {
                if e.is_home_winner {
                    for_home += 1;
                } else {
                    for_away += 1;
                }
            }
            i += 1;
        }
        proof {
            assert(all.take(self.all_votes.len() as int) =~= all);
            all.filter(other).lemma_filter_push(vote@, at_home);
            all.filter(other).lemma_filter_push(vote@, away);
        }
        if vote.is_home_winner {
            for_home < 65535 && for_away <= 65535
        } else {
            for_home <= 65535 && for_away < 65535
        }
    }

    /// Counts the votes of `entry` for the home team and for the away team
    /// of the game `game_uuid`.
    ///
    /// The tally is kept in 16 bits: neither team has more than 65535 votes
    /// on the game.
    pub fn get_aggregate(entry: &Vec<Vote>, game_uuid: &str) -> (tally: VotePerGame)
        requires
            tally_fits(views(entry@), game_uuid@),
        ensures
            tally.home_count == count_votes(views(entry@), game_uuid@, true),
            tally.away_count == count_votes(views(entry@), game_uuid@, false),
    {
        let mut tally = VotePerGame { home_count: 0, away_count: 0 };
        let ghost all = views(entry@);
        let ghost home = |v: VoteView| v.game_uuid == game_uuid@ && v.is_home_winner == true;
        let ghost away = |v: VoteView| v.game_uuid == game_uuid@ && v.is_home_winner == false;
        assert(all.take(0) =~= Seq::<VoteView>::empty());
        let mut i: usize = 0;
        while i < entry.len()
            invariant
                i <= entry.len(),
                all == views(entry@),
                home == |v: VoteView| v.game_uuid == game_uuid@ && v.is_home_winner == true,
                away == |v: VoteView| v.game_uuid == game_uuid@ && v.is_home_winner == false,
                all.filter(home).len() <= u16::MAX,
                all.filter(away).len() <= u16::MAX,
                tally.home_count == all.take(i as int).filter(home).len(),
                tally.away_count == all.take(i as int).filter(away).len(),
            decreases entry.len() - i,
        {
            proof {
                assert(all.take(i + 1) =~= all.take(i as int).push(all[i as int]));
                all.take(i as int).lemma_filter_push(all[i as int], home);
                all.take(i as int).lemma_filter_push(all[i as int], away);
                all.lemma_filter_take_len(home, i + 1);
                all.lemma_filter_take_len(away, i + 1);
            }
            if str_eq(entry[i].game_uuid.as_str(), game_uuid) {
                if entry[i].is_home_winner {
                    tally.home_count += 1;
                } else {
                    tally.away_count += 1;
                }
            }
            i += 1;
        }
        assert(all.take(entry.len() as int) =~= all);
        tally
    }

    /// Casts `vote` and returns the tally of its game.
    ///
    /// The tally is kept in 16 bits: with the vote, neither team has more
    /// than 65535 votes on the game.
    pub fn vote(&mut self, vote: Vote) -> (tally: VotePerGame)
        requires
            tally_fits(cast(views(old(self).all_votes@), vote@), vote@.game_uuid),
        ensures
            views(final(self).all_votes@) == cast(views(old(self).all_votes@), vote@),
            tally.home_count == count_votes(views(final(self).all_votes@), vote@.game_uuid, true),
            tally.away_count == count_votes(views(final(self).all_votes@), vote@.game_uuid, false),
    {
        let mut kept: Vec<Vote> = Vec::new();
        let ghost all = views(self.all_votes@);
        let ghost other = |v: VoteView|
            !(v.game_uuid == vote@.game_uuid && v.user_id == vote@.user_id);
        assert(all.take(0) =~= Seq::<VoteView>::empty());
        assert(views(kept@) =~= Seq::<VoteView>::empty());
        let mut i: usize = 0;
        while i < self.all_votes.len()
            invariant
                i <= self.all_votes.len(),
                self.all_votes@ == old(self).all_votes@,
                all == views(self.all_votes@),
                other == |v: VoteView|
                    !(v.game_uuid == vote@.game_uuid && v.user_id == vote@.user_id),
                views(kept@) == all.take(i as int).filter(other),
                kept@.len() <= i,
            decreases self.all_votes.len() - i,
        {
            proof {
                assert(all.take(i + 1) =~= all.take(i as int).push(all[i as int]));
                all.take(i as int).lemma_filter_push(all[i as int], other);
            }
            let e = &self.all_votes[i];
            if !(str_eq(e.game_uuid.as_str(), vote.game_uuid.as_str()) && str_eq(
                e.user_id.as_str(),
                vote.user_id.as_str(),
            )) {
                let copy = e.clone();
                proof {
                    lemma_views_push(kept@, copy);
                }
                kept.push(copy);
            }
            i += 1;
        }
        assert(all.take(self.all_votes.len() as int) =~= all);
        let game_uuid = vote.game_uuid.clone();
        proof {
            lemma_views_push(kept@, vote);
        }
        kept.push(vote);
        self.all_votes = kept;
        VoteService::get_aggregate(&self.all_votes, game_uuid.as_str())
    }

    /// The tallies of all games on which a vote was cast, in the order of
    /// their first vote.
    pub fn get_all(&self) -> (tallies: Vec<(String, VotePerGame)>)
        requires
            tallies_fit(views(self.all_votes@)),
        ensures
            tally_texts(tallies@) == all_tallies(views(self.all_votes@)),
    {
        let mut tallies: Vec<(String, VotePerGame)> = Vec::new();
        let ghost all = views(self.all_votes@);
        assert(all.take(0) =~= Seq::<VoteView>::empty());
        let mut i: usize = 0;
        while i < self.all_votes.len()
            invariant
                i <= self.all_votes.len(),
                tallies_fit(all),
                all == views(self.all_votes@),
                tallies@.len() == voted_games(all.take(i as int)).len(),
                forall|k: int|
                    0 <= k < tallies@.len() ==> (#[trigger] tallies@[k]).0@ == voted_games(
                        all.take(i as int),
                    )[k] && tallies@[k].1.home_count == count_votes(all, tallies@[k].0@, true)
                        && tallies@[k].1.away_count == count_votes(all, tallies@[k].0@, false),
            decreases self.all_votes.len() - i,
        {
            let game = &self.all_votes[i].game_uuid;
            let ghost before = voted_games(all.take(i as int));
            proof {
                assert(all.take(i + 1).drop_last() =~= all.take(i as int));
                assert(all.take(i + 1).last() == self.all_votes@[i as int]@);
            }
            let mut k: usize = 0;
            while k < tallies.len() && !str_eq(tallies[k].0.as_str(), game.as_str())
                invariant
                    k <= tallies.len(),
                    tallies@.len() == before.len(),
                    forall|j: int| 0 <= j < tallies@.len() ==> (#[trigger] tallies@[j]).0@ == before[j],
                    forall|j: int| 0 <= j < k ==> before[j] != game@,
                decreases tallies.len() - k,
            {
                k += 1;
            }
            if k == tallies.len() {
                assert(!before.contains(game@));
                assert(tally_fits(all, game@));
                let tally = VoteService::get_aggregate(&self.all_votes, game.as_str());
                tallies.push((game.clone(), tally));
            } else {
                assert(before[k as int] == game@);
            }
            i += 1;
        }
        assert(all.take(self.all_votes.len() as int) =~= all);
        assert(tally_texts(tallies@) =~= all_tallies(all));
        tallies
    }

    /// The tally of the game `game_uuid`, where a vote was cast on it.
    pub fn get(&self, game_uuid: &str) -> (tally: Option<VotePerGame>)
        requires
            tally_fits(views(self.all_votes@), game_uuid@),
        ensures
            tally == tally_of(views(self.all_votes@), game_uuid@),
    {
        let mut i: usize = 0;
        while i < self.all_votes.len()
            invariant
                i <= self.all_votes.len(),
                tally_fits(views(self.all_votes@), game_uuid@),
                forall|j: int| 0 <= j < i ==> (#[trigger] views(self.all_votes@)[j]).game_uuid != game_uuid@,
            decreases self.all_votes.len() - i,
        {
            if str_eq(self.all_votes[i].game_uuid.as_str(), game_uuid) {
                assert(views(self.all_votes@)[i as int].game_uuid == game_uuid@);
                return Some(VoteService::get_aggregate(&self.all_votes, game_uuid));
            }
            i += 1;
        }
        None
    }
}

} // verus!
