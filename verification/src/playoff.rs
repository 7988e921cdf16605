//! The playoff bracket: a hand-written template of pairings, filled with the
//! games that each side has won.

use vstd::prelude::*;
use crate::game::{ApiGame, GameView};
use crate::models::GameType;
use crate::text::{clone_opt_text, opt_text, str_eq};
use crate::views::{lemma_views_push, views};

verus! {

/// The number of games of a series where the template names none.
pub fn get_nr_games() -> (games: u8)
    ensures
        games == 7,
{
    7
}

/// A pairing of the bracket.
#[derive(Debug)]
pub struct PlayoffEntry {
    pub team1: String,
    pub team2: String,
    pub score1: u8,
    pub score2: u8,
    pub eliminated: Option<String>,
    pub nr_games: u8,
}

/// What a `PlayoffEntry` holds.
pub struct PlayoffEntryView {
    pub team1: Seq<char>,
    pub team2: Seq<char>,
    pub score1: u8,
    pub score2: u8,
    pub eliminated: Option<Seq<char>>,
    pub nr_games: u8,
}

impl View for PlayoffEntry {
    type V = PlayoffEntryView;

    open spec fn view(&self) -> PlayoffEntryView {
        PlayoffEntryView {
            team1: self.team1@,
            team2: self.team2@,
            score1: self.score1,
            score2: self.score2,
            eliminated: opt_text(self.eliminated),
            nr_games: self.nr_games,
        }
    }
}

impl PlayoffEntry {
    /// The pairing with other scores.
    pub fn clone_with(&self, score1: u8, score2: u8) -> (entry: PlayoffEntry)
        ensures
            entry@ == (PlayoffEntryView { score1, score2, ..self@ }),
    {
        PlayoffEntry {
            team1: self.team1.clone(),
            team2: self.team2.clone(),
            score1,
            score2,
            eliminated: clone_opt_text(&self.eliminated),
            nr_games: self.nr_games,
        }
    }
}

/// The rounds of one league's bracket.
#[derive(Debug)]
pub struct PlayoffSeries {
    pub eight: Vec<PlayoffEntry>,
    pub quarter: Vec<PlayoffEntry>,
    pub semi: Vec<PlayoffEntry>,
    pub final_: Option<PlayoffEntry>,
    pub demotion: Option<PlayoffEntry>,
}

/// What a `PlayoffSeries` holds.
pub struct PlayoffSeriesView {
    pub eight: Seq<PlayoffEntryView>,
    pub quarter: Seq<PlayoffEntryView>,
    pub semi: Seq<PlayoffEntryView>,
    pub final_: Option<PlayoffEntryView>,
    pub demotion: Option<PlayoffEntryView>,
}

/// The view of an optional pairing.
pub open spec fn opt_entry(entry: Option<PlayoffEntry>) -> Option<PlayoffEntryView> {
    match entry {
        Some(e) => Some(e@),
        None => None,
    }
}

impl View for PlayoffSeries {
    type V = PlayoffSeriesView;

    open spec fn view(&self) -> PlayoffSeriesView {
        PlayoffSeriesView {
            eight: views(self.eight@),
            quarter: views(self.quarter@),
            semi: views(self.semi@),
            final_: opt_entry(self.final_),
            demotion: opt_entry(self.demotion),
        }
    }
}

impl Default for PlayoffSeries {
    fn default() -> (empty: Self)
        ensures
            empty@ == (PlayoffSeriesView {
                eight: Seq::empty(),
                quarter: Seq::empty(),
                semi: Seq::empty(),
                final_: None,
                demotion: None,
            }),
    {
        let empty = PlayoffSeries {
            eight: Vec::new(),
            quarter: Vec::new(),
            semi: Vec::new(),
            final_: None,
            demotion: None,
        };
        assert(views(empty.eight@) =~= Seq::<PlayoffEntryView>::empty());
        empty
    }
}

/// The brackets of both leagues.
#[derive(Debug)]
pub struct Playoffs {
    pub SHL: PlayoffSeries,
    pub HA: PlayoffSeries,
}

/// The games among `games` between `team` and `opponent` that `team` won.
/// A side that is still to be decided, `TBD`, has won nothing.
pub open spec fn wins(team: Seq<char>, opponent: Seq<char>, games: Seq<GameView>) -> nat {
    if team == "TBD"@ || opponent == "TBD"@ {
        0
    } else {
        games.filter(
            |g: GameView|
                (g.home_team_code == team || g.home_team_code == opponent) && (g.away_team_code
                    == team || g.away_team_code == opponent) && g.won_by(team),
        ).len()
    }
}

/// A number of wins as a pairing keeps it: in 8 bits, so 255 at most.
pub open spec fn score_of(wins: nat) -> u8 {
    if wins > 255 {
        255
    } else {
        wins as u8
    }
}

impl PlayoffEntryView {
    /// The pairing with the scores that `games` give it.
    pub open spec fn scored(self, games: Seq<GameView>) -> PlayoffEntryView {
        PlayoffEntryView {
            score1: score_of(wins(self.team1, self.team2, games)),
            score2: score_of(wins(self.team2, self.team1, games)),
            ..self
        }
    }
}

impl PlayoffSeriesView {
    /// The bracket with the scores that `games` give each pairing.
    pub open spec fn scored(self, games: Seq<GameView>) -> PlayoffSeriesView {
        PlayoffSeriesView {
            eight: self.eight.map_values(|e: PlayoffEntryView| e.scored(games)),
            quarter: self.quarter.map_values(|e: PlayoffEntryView| e.scored(games)),
            semi: self.semi.map_values(|e: PlayoffEntryView| e.scored(games)),
            final_: match self.final_ {
                Some(e) => Some(e.scored(games)),
                None => None,
            },
            demotion: match self.demotion {
                Some(e) => Some(e.scored(games)),
                None => None,
            },
        }
    }
}

/// The played games among `games` that are no regular season games.
pub open spec fn playoff_games(games: Seq<GameView>) -> Seq<GameView> {
    games.filter(|g: GameView| g.game_type != GameType::Season && g.played)
}

/// The playoff bracket's rules.
pub struct PlayoffService;

impl PlayoffService {
    /// The score of `team` against `opponent` over `games`.
    pub fn get_score(team: &str, opponent: &str, games: &Vec<ApiGame>) -> (score: u8)
        ensures
            score == score_of(wins(team@, opponent@, views(games@))),
    {
        if str_eq(team, "TBD") || str_eq(opponent, "TBD") {
            return 0;
        }
        let ghost all = views(games@);
        let ghost counted = |g: GameView|
            (g.home_team_code == team@ || g.home_team_code == opponent@) && (g.away_team_code
                == team@ || g.away_team_code == opponent@) && g.won_by(team@);
        assert(all.take(0) =~= Seq::<GameView>::empty());
        let mut won: usize = 0;
        let mut i: usize = 0;
        while i < games.len()
            invariant
                i <= games.len(),
                all == views(games@),
                counted == |g: GameView|
                    (g.home_team_code == team@ || g.home_team_code == opponent@) && (
                    g.away_team_code == team@ || g.away_team_code == opponent@) && g.won_by(team@),
                won == all.take(i as int).filter(counted).len(),
                won <= i,
            decreases games.len() - i,
        {
            proof {
                assert(all.take(i + 1) =~= all.take(i as int).push(all[i as int]));
                all.take(i as int).lemma_filter_push(all[i as int], counted);
            }
            let g = &games[i];
            if (str_eq(g.home_team_code.as_str(), team) || str_eq(
                g.home_team_code.as_str(),
                opponent,
            )) && (str_eq(g.away_team_code.as_str(), team) || str_eq(
                g.away_team_code.as_str(),
                opponent,
            )) && g.did_team_win(team) {
                won += 1;
            }
            i += 1;
        }
        assert(all.take(games.len() as int) =~= all);
        if won > 255 {
            255
        } else {
            won as u8
        }
    }

    fn score_entry(entry: &PlayoffEntry, games: &Vec<ApiGame>) -> (scored: PlayoffEntry)
        ensures
            scored@ == entry@.scored(views(games@)),
    {
        entry.clone_with(
            PlayoffService::get_score(entry.team1.as_str(), entry.team2.as_str(), games),
            PlayoffService::get_score(entry.team2.as_str(), entry.team1.as_str(), games),
        )
    }

    fn score_round(round: &Vec<PlayoffEntry>, games: &Vec<ApiGame>) -> (scored: Vec<PlayoffEntry>)
        ensures
            views(scored@) == views(round@).map_values(
                |e: PlayoffEntryView| e.scored(views(games@)),
            ),
    {
        let mut scored: Vec<PlayoffEntry> = Vec::new();
        let mut i: usize = 0;
        while i < round.len()
            invariant
                i <= round.len(),
                scored.len() == i,
                forall|j: int| 0 <= j < i ==> (#[trigger] scored@[j])@ == round@[j]@.scored(views(games@)),
            decreases round.len() - i,
        {
            scored.push(PlayoffService::score_entry(&round[i], games));
            i += 1;
        }
        assert(views(scored@) =~= views(round@).map_values(
            |e: PlayoffEntryView| e.scored(views(games@)),
        ));
        scored
    }

    /// The bracket `series` with the scores that `applicable_games` give
    /// each of its pairings.
    pub fn update_series(series: PlayoffSeries, applicable_games: &Vec<ApiGame>) -> (scored:
        PlayoffSeries)
        ensures
            scored@ == series@.scored(views(applicable_games@)),
    {
        PlayoffSeries {
            final_: match &series.final_ {
                Some(e) => Some(PlayoffService::score_entry(e, applicable_games)),
                None => None,
            },
            semi: PlayoffService::score_round(&series.semi, applicable_games),
            quarter: PlayoffService::score_round(&series.quarter, applicable_games),
            eight: PlayoffService::score_round(&series.eight, applicable_games),
            demotion: match &series.demotion {
                Some(e) => Some(PlayoffService::score_entry(e, applicable_games)),
                None => None,
            },
        }
    }

    /// The played games among `games` that are no regular season games.
    pub fn applicable_games(games: &Vec<ApiGame>) -> (kept: Vec<ApiGame>)
        ensures
            views(kept@) == playoff_games(views(games@)),
    {
        let mut kept: Vec<ApiGame> = Vec::new();
        let ghost all = views(games@);
        let ghost wanted = |g: GameView| g.game_type != GameType::Season && g.played;
        assert(all.take(0) =~= Seq::<GameView>::empty());
        assert(views(kept@) =~= Seq::<GameView>::empty());
        let mut i: usize = 0;
        while i < games.len()
            invariant
                i <= games.len(),
                all == views(games@),
                wanted == |g: GameView| g.game_type != GameType::Season && g.played,
                views(kept@) == all.take(i as int).filter(wanted),
            decreases games.len() - i,
        {
            proof {
                assert(all.take(i + 1) =~= all.take(i as int).push(all[i as int]));
                all.take(i as int).lemma_filter_push(all[i as int], wanted);
            }
            if games[i].game_type != GameType::Season && games[i].played {
                let copy = games[i].clone();
                proof {
                    lemma_views_push(kept@, copy);
                }
                kept.push(copy);
            }
            i += 1;
        }
        assert(all.take(games.len() as int) =~= all);
        kept
    }

    /// The brackets `play_offs` of a season with the scores that the playoff
    /// games among `games` give them. Nothing where there is no such game or
    /// no bracket: the stored bracket then stays as it is.
    pub fn update(play_offs: Option<Playoffs>, games: &Vec<ApiGame>) -> (updated: Option<Playoffs>)
        ensures
            match updated {
                Some(u) => play_offs matches Some(p) && playoff_games(views(games@)).len() > 0
                    && u.HA@ == p.HA@.scored(playoff_games(views(games@))) && u.SHL@
                    == p.SHL@.scored(playoff_games(views(games@))),
                None => play_offs is None || playoff_games(views(games@)).len() == 0,
            },
    {
        let applicable_games = PlayoffService::applicable_games(games);
        if applicable_games.len() == 0 {
            return None;
        }
        match play_offs {
            Some(play_offs) => Some(
                Playoffs {
                    HA: PlayoffService::update_series(play_offs.HA, &applicable_games),
                    SHL: PlayoffService::update_series(play_offs.SHL, &applicable_games),
                },
            ),
            None => None,
        }
    }
}

} // verus!
