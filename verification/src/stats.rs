//! The team statistics of a game, read out of the provider's two formats.

use vstd::prelude::*;
use crate::models::StringOrNum;
use crate::text::str_eq;
use crate::views::{first_where, lemma_first_where_from};

verus! {

/// The statistics of one team in a game.
#[derive(Clone, Copy, Debug, PartialEq, Eq, Structural)]
pub struct ApiGameTeamStats {
    pub g: i32,
    pub sog: i32,
    pub pim: i32,
    pub fow: i32,
}

/// The statistics of both teams in a game.
#[derive(Clone, Copy, Debug, PartialEq, Eq, Structural)]
pub struct ApiGameStats {
    pub home: ApiGameTeamStats,
    pub away: ApiGameTeamStats,
}

/// A counter of a team's statistics.
#[derive(Debug)]
pub struct StatsEntry {
    pub key: String,
    pub value: i32,
}

/// A team's counters of one period; period 0 stands for the whole game.
#[derive(Debug)]
pub struct TeamPeriodStats {
    pub period: u8,
    pub parsedTotalStatistics: Vec<StatsEntry>,
}

/// A team's counters, period by period.
#[derive(Debug)]
pub struct TeamStats {
    pub statistics: Vec<TeamPeriodStats>,
}

/// The provider's statistics of a game in the newer format.
#[derive(Debug)]
pub struct TeamStatsRsp {
    pub home: TeamStats,
    pub away: TeamStats,
}

/// The name of a period of the older format.
#[derive(Debug)]
pub struct Period {
    pub label: String,
    pub value: StringOrNum,
}

/// A counter of the older format, with the values of both teams.
#[derive(Debug)]
pub struct Statistics {
    pub caption: String,
    pub homeTeamValue: i32,
    pub awayTeamValue: i32,
}

/// The counters of one period; the period named `Total` stands for the whole
/// game.
#[derive(Debug)]
pub struct PeriodStatsBreakdown {
    pub period: Period,
    pub statistics: Vec<Statistics>,
}

/// The provider's statistics of a game in the older format.
#[derive(Debug)]
pub struct StatsRsp {
    pub period_stats_breakdown: Vec<PeriodStatsBreakdown>,
}

/// The value of the first counter of `entries` with the key `key`, or 0.
pub open spec fn key_value(entries: Seq<StatsEntry>, key: Seq<char>) -> i32 {
    let at = first_where(entries, |e: StatsEntry| e.key@ == key);
    if at < entries.len() {
        entries[at].value
    } else {
        0
    }
}

/// The counters of a team over the whole game: those of its first period
/// numbered 0, or none.
pub open spec fn whole_game(team: TeamStats) -> Seq<StatsEntry> {
    let at = first_where(team.statistics@, |p: TeamPeriodStats| p.period == 0);
    if at < team.statistics@.len() {
        team.statistics@[at].parsedTotalStatistics@
    } else {
        Seq::empty()
    }
}

/// The statistics of a team: goals, shots on goal, penalty minutes and
/// face-offs won, each 0 where the provider lists none.
pub open spec fn team_stats_of(team: TeamStats) -> ApiGameTeamStats {
    ApiGameTeamStats {
        g: key_value(whole_game(team), "G"@),
        sog: key_value(whole_game(team), "SOG"@),
        pim: key_value(whole_game(team), "PIM"@),
        fow: key_value(whole_game(team), "FOW"@),
    }
}

/// The first counter of `stats` with the caption `caption`.
pub open spec fn captioned(stats: Seq<Statistics>, caption: Seq<char>) -> Option<Statistics> {
    let at = first_where(stats, |s: Statistics| s.caption@ == caption);
    if at < stats.len() {
        Some(stats[at])
    } else {
        None
    }
}

/// The counters of the whole game in the older format: those of the first
/// period named `Total`, or none.
pub open spec fn totals_of(rsp: StatsRsp) -> Seq<Statistics> {
    let at = first_where(
        rsp.period_stats_breakdown@,
        |b: PeriodStatsBreakdown| b.period.value@.text() == "Total"@,
    );
    if at < rsp.period_stats_breakdown@.len() {
        rsp.period_stats_breakdown@[at].statistics@
    } else {
        Seq::empty()
    }
}

/// The home value of a counter, or 0.
pub open spec fn home_of(counter: Option<Statistics>) -> i32 {
    match counter {
        Some(c) => c.homeTeamValue,
        None => 0,
    }
}

/// The away value of a counter, or 0.
pub open spec fn away_of(counter: Option<Statistics>) -> i32 {
    match counter {
        Some(c) => c.awayTeamValue,
        None => 0,
    }
}

/// The statistics of a game that the older format gives.
pub open spec fn old_stats_of(rsp: StatsRsp) -> ApiGameStats {
    let stats = totals_of(rsp);
    ApiGameStats {
        home: ApiGameTeamStats {
            g: home_of(captioned(stats, "G"@)),
            sog: home_of(captioned(stats, "SOG"@)),
            pim: home_of(captioned(stats, "PIM"@)),
            fow: home_of(captioned(stats, "FOWon"@)),
        },
        away: ApiGameTeamStats {
            g: away_of(captioned(stats, "G"@)),
            sog: away_of(captioned(stats, "SOG"@)),
            pim: away_of(captioned(stats, "PIM"@)),
            fow: away_of(captioned(stats, "FOWon"@)),
        },
    }
}

fn get_key(key: &str, entries: &Vec<StatsEntry>) -> (value: i32)
    ensures
        value == key_value(entries@, key@),
{
    let ghost same = |e: StatsEntry| e.key@ == key@;
    let mut i: usize = 0;
    while i < entries.len() && !str_eq(entries[i].key.as_str(), key)
        invariant
            i <= entries.len(),
            same == |e: StatsEntry| e.key@ == key@,
            forall|j: int| 0 <= j < i ==> !same(#[trigger] entries@[j]),
        decreases entries.len() - i,
    {
        i += 1;
    }
    proof {
        lemma_first_where_from(entries@, same, i as int);
    }
    if i < entries.len() {
        entries[i].value
    } else {
        0
    }
}

fn team_stats(team: &TeamStats) -> (stats: ApiGameTeamStats)
    ensures
        stats == team_stats_of(*team),
{
    let ghost total = |p: TeamPeriodStats| p.period == 0;
    let mut i: usize = 0;
    while i < team.statistics.len() && team.statistics[i].period != 0
        invariant
            i <= team.statistics.len(),
            total == |p: TeamPeriodStats| p.period == 0,
            forall|j: int| 0 <= j < i ==> !total(#[trigger] team.statistics@[j]),
        decreases team.statistics.len() - i,
    {
        i += 1;
    }
    proof {
        lemma_first_where_from(team.statistics@, total, i as int);
    }
    if i < team.statistics.len() {
        let entries = &team.statistics[i].parsedTotalStatistics;
        ApiGameTeamStats {
            g: get_key("G", entries),
            sog: get_key("SOG", entries),
            pim: get_key("PIM", entries),
            fow: get_key("FOW", entries),
        }
    } else {
        let entries: Vec<StatsEntry> = Vec::new();
        ApiGameTeamStats {
            g: get_key("G", &entries),
            sog: get_key("SOG", &entries),
            pim: get_key("PIM", &entries),
            fow: get_key("FOW", &entries),
        }
    }
}

fn find_caption<'a>(stats: &'a Vec<Statistics>, caption: &str) -> (found: Option<&'a Statistics>)
    ensures
        match found {
            Some(s) => captioned(stats@, caption@) == Some(*s),
            None => captioned(stats@, caption@) is None,
        },
{
    let ghost same = |s: Statistics| s.caption@ == caption@;
    let mut i: usize = 0;
    while i < stats.len() && !str_eq(stats[i].caption.as_str(), caption)
        invariant
            i <= stats.len(),
            same == |s: Statistics| s.caption@ == caption@,
            forall|j: int| 0 <= j < i ==> !same(#[trigger] stats@[j]),
        decreases stats.len() - i,
    {
        i += 1;
    }
    proof {
        lemma_first_where_from(stats@, same, i as int);
    }
    if i < stats.len() {
        Some(&stats[i])
    } else {
        None
    }
}

fn pair_of(found: Option<&Statistics>) -> (pair: (i32, i32))
    ensures
        pair.0 == home_of(
            match found {
                Some(s) => Some(*s),
                None => None,
            },
        ),
        pair.1 == away_of(
            match found {
                Some(s) => Some(*s),
                None => None,
            },
        ),
{
    match found {
        Some(s) => (s.homeTeamValue, s.awayTeamValue),
        None => (0, 0),
    }
}

/// The reading of team statistics.
pub struct StatsService;

impl StatsService {
    /// The statistics of a game that the newer format gives.
    pub fn from_team_stats(v: &TeamStatsRsp) -> (stats: ApiGameStats)
        ensures
            stats == (ApiGameStats { home: team_stats_of(v.home), away: team_stats_of(v.away) }),
    {
        ApiGameStats { home: team_stats(&v.home), away: team_stats(&v.away) }
    }

    /// The statistics of a game that the older format gives.
    pub fn from_stats_rsp(v: &StatsRsp) -> (stats: ApiGameStats)
        ensures
            stats == old_stats_of(*v),
    {
        let ghost total = |b: PeriodStatsBreakdown| b.period.value@.text() == "Total"@;
        let mut i: usize = 0;
        while i < v.period_stats_breakdown.len() && !str_eq(
            v.period_stats_breakdown[i].period.value.to_str().as_str(),
            "Total",
        )
            invariant
                i <= v.period_stats_breakdown.len(),
                total == |b: PeriodStatsBreakdown| b.period.value@.text() == "Total"@,
                forall|j: int| 0 <= j < i ==> !total(#[trigger] v.period_stats_breakdown@[j]),
            decreases v.period_stats_breakdown.len() - i,
        {
            i += 1;
        }
        proof {
            lemma_first_where_from(v.period_stats_breakdown@, total, i as int);
        }
        let empty: Vec<Statistics> = Vec::new();
        let stats = if i < v.period_stats_breakdown.len() {
            &v.period_stats_breakdown[i].statistics
        } else {
            &empty
        };
        assert(stats@ =~= totals_of(*v));
        let goals = pair_of(find_caption(stats, "G"));
        let sog = pair_of(find_caption(stats, "SOG"));
        let fow = pair_of(find_caption(stats, "FOWon"));
        let pim = pair_of(find_caption(stats, "PIM"));
        ApiGameStats {
            home: ApiGameTeamStats { g: goals.0, sog: sog.0, pim: pim.0, fow: fow.0 },
            away: ApiGameTeamStats { g: goals.1, sog: sog.1, pim: pim.1, fow: fow.1 },
        }
    }
}

} // verus!
