//! Player statistics: the provider's box score of a game, the athletes that
//! are made of it, and their totals over a season.
//!
//! Counters are kept in 32 bits; a total stops at the ends of that range.

use vstd::prelude::*;
use crate::models::{Season, StringOrNum};
use crate::text::{parse_i32, parsed_i32, split_first, split_once, str_eq, i32_to_string, int_digits};
use crate::views::{
    first_where, lemma_first_where_from, lemma_views_push, lemma_views_update, views,
};

verus! {

/// The statistics of a skater.
#[derive(Clone, Copy, Debug, PartialEq, Eq, Structural)]
pub struct ApiPlayerStats {
    pub plus_minus: i32,
    pub a: i32,
    pub fol: i32,
    pub fow: i32,
    pub g: i32,
    pub hits: i32,
    pub pim: i32,
    pub sog: i32,
    pub sw: i32,
    pub toi_s: i32,
    pub gp: i32,
}

impl Default for ApiPlayerStats {
    fn default() -> (zero: Self)
        ensures
            zero == ApiPlayerStats::zero(),
    {
        ApiPlayerStats {
            plus_minus: 0,
            a: 0,
            fol: 0,
            fow: 0,
            g: 0,
            hits: 0,
            pim: 0,
            sog: 0,
            sw: 0,
            toi_s: 0,
            gp: 0,
        }
    }
}

/// The statistics of a goalkeeper.
#[derive(Clone, Copy, Debug, PartialEq, Eq, Structural)]
pub struct ApiGoalkeeperStats {
    pub ga: i32,
    pub soga: i32,
    pub spga: i32,
    pub svs: i32,
    pub gp: i32,
}

impl Default for ApiGoalkeeperStats {
    fn default() -> (zero: Self)
        ensures
            zero == ApiGoalkeeperStats::zero(),
    {
        ApiGoalkeeperStats { ga: 0, soga: 0, spga: 0, svs: 0, gp: 0 }
    }
}

/// The statistics of an athlete, by the kind of athlete.
#[derive(Clone, Copy, Debug, PartialEq, Eq, Structural)]
pub enum ApiAthleteStats {
    Player(ApiPlayerStats),
    Goalkeeper(ApiGoalkeeperStats),
}

/// A sum that stops at the ends of 32 bits.
pub open spec fn capped(sum: int) -> i32 {
    if sum > i32::MAX {
        i32::MAX
    } else if sum < i32::MIN {
        i32::MIN
    } else {
        sum as i32
    }
}

/// Adds two counters.
pub fn add_capped(a: i32, b: i32) -> (sum: i32)
    ensures
        sum == capped(a + b),
{
    let wide: i64 = a as i64 + b as i64;
    if wide > 2147483647 {
        2147483647
    } else if wide < -2147483648 {
        -2147483648
    } else {
        wide as i32
    }
}

impl ApiPlayerStats {
    /// The statistics of a skater who has not played.
    pub open spec fn zero() -> ApiPlayerStats {
        ApiPlayerStats {
            plus_minus: 0,
            a: 0,
            fol: 0,
            fow: 0,
            g: 0,
            hits: 0,
            pim: 0,
            sog: 0,
            sw: 0,
            toi_s: 0,
            gp: 0,
        }
    }
}

impl ApiGoalkeeperStats {
    /// The statistics of a goalkeeper who has not played.
    pub open spec fn zero() -> ApiGoalkeeperStats {
        ApiGoalkeeperStats { ga: 0, soga: 0, spga: 0, svs: 0, gp: 0 }
    }
}

impl ApiAthleteStats {
    /// The statistics of an athlete of the same kind who has not played.
    pub open spec fn zero_like(self) -> ApiAthleteStats {
        match self {
            ApiAthleteStats::Player(_) => ApiAthleteStats::Player(ApiPlayerStats::zero()),
            ApiAthleteStats::Goalkeeper(_) => ApiAthleteStats::Goalkeeper(
                ApiGoalkeeperStats::zero(),
            ),
        }
    }

    /// These statistics with those of one more game. A skater's assists,
    /// goals, games, shots, penalty minutes, plus/minus, time on ice,
    /// face-offs won and hits are added up; face-offs lost and shots wide
    /// stay. A goalkeeper's counters are all added up. Statistics of the
    /// other kind of athlete change nothing.
    pub open spec fn plus(self, game: ApiAthleteStats) -> ApiAthleteStats {
        match (self, game) {
            (ApiAthleteStats::Player(s), ApiAthleteStats::Player(g)) => ApiAthleteStats::Player(
                ApiPlayerStats {
                    a: capped(s.a + g.a),
                    g: capped(s.g + g.g),
                    gp: capped(s.gp + g.gp),
                    sog: capped(s.sog + g.sog),
                    pim: capped(s.pim + g.pim),
                    plus_minus: capped(s.plus_minus + g.plus_minus),
                    toi_s: capped(s.toi_s + g.toi_s),
                    fow: capped(s.fow + g.fow),
                    hits: capped(s.hits + g.hits),
                    ..s
                },
            ),
            (
                ApiAthleteStats::Goalkeeper(s),
                ApiAthleteStats::Goalkeeper(g),
            ) => ApiAthleteStats::Goalkeeper(
                ApiGoalkeeperStats {
                    ga: capped(s.ga + g.ga),
                    soga: capped(s.soga + g.soga),
                    spga: capped(s.spga + g.spga),
                    svs: capped(s.svs + g.svs),
                    gp: capped(s.gp + g.gp),
                },
            ),
            _ => self,
        }
    }

    /// Adds the statistics of one more game.
    pub fn add(&mut self, stats: &ApiAthleteStats)
        ensures
            *final(self) == old(self).plus(*stats),
    {
        let sum = match (*self, *stats) {
            (ApiAthleteStats::Player(s), ApiAthleteStats::Player(g)) => ApiAthleteStats::Player(
                ApiPlayerStats {
                    a: add_capped(s.a, g.a),
                    g: add_capped(s.g, g.g),
                    gp: add_capped(s.gp, g.gp),
                    sog: add_capped(s.sog, g.sog),
                    pim: add_capped(s.pim, g.pim),
                    plus_minus: add_capped(s.plus_minus, g.plus_minus),
                    toi_s: add_capped(s.toi_s, g.toi_s),
                    fow: add_capped(s.fow, g.fow),
                    hits: add_capped(s.hits, g.hits),
                    fol: s.fol,
                    sw: s.sw,
                },
            ),
            (
                ApiAthleteStats::Goalkeeper(s),
                ApiAthleteStats::Goalkeeper(g),
            ) => ApiAthleteStats::Goalkeeper(
                ApiGoalkeeperStats {
                    ga: add_capped(s.ga, g.ga),
                    soga: add_capped(s.soga, g.soga),
                    spga: add_capped(s.spga, g.spga),
                    svs: add_capped(s.svs, g.svs),
                    gp: add_capped(s.gp, g.gp),
                },
            ),
            (own, _) => own,
        };
        *self = sum;
    }
}

/// An athlete with his statistics of a game or of a season.
#[derive(Debug)]
pub struct ApiAthlete {
    pub id: i32,
    pub first_name: String,
    pub family_name: String,
    pub jersey: i32,
    pub team_code: String,
    pub position: String,
    pub season: Season,
    pub stats: ApiAthleteStats,
}

/// What an `ApiAthlete` holds.
pub struct AthleteView {
    pub id: i32,
    pub first_name: Seq<char>,
    pub family_name: Seq<char>,
    pub jersey: i32,
    pub team_code: Seq<char>,
    pub position: Seq<char>,
    pub season: Season,
    pub stats: ApiAthleteStats,
}

impl View for ApiAthlete {
    type V = AthleteView;

    open spec fn view(&self) -> AthleteView {
        AthleteView {
            id: self.id,
            first_name: self.first_name@,
            family_name: self.family_name@,
            jersey: self.jersey,
            team_code: self.team_code@,
            position: self.position@,
            season: self.season,
            stats: self.stats,
        }
    }
}

impl Clone for ApiAthlete {
    fn clone(&self) -> (copy: Self)
        ensures
            copy@ == self@,
    {
        ApiAthlete {
            id: self.id,
            first_name: self.first_name.clone(),
            family_name: self.family_name.clone(),
            jersey: self.jersey,
            team_code: self.team_code.clone(),
            position: self.position.clone(),
            season: self.season,
            stats: self.stats,
        }
    }
}

/// The key of a player's season with a team.
#[derive(Debug)]
pub struct PlayerSeasonKey(pub i32, pub Season, pub String);

impl PlayerSeasonKey {
    /// The key as a path: the player, the season and the team.
    pub fn to_string(&self) -> (out: String)
        ensures
            out@ == int_digits(self.0 as int) + "/"@ + self.1.name() + "/"@ + self.2@,
    {
        let mut out = i32_to_string(self.0);
        out.append("/");
        out.append(self.1.to_string().as_str());
        out.append("/");
        out.append(self.2.as_str());
        out
    }
}

/// The key of a team's season.
#[derive(Debug)]
pub struct TeamSeasonKey(pub Season, pub String);

impl TeamSeasonKey {
    /// The key as a path: the season and the team.
    pub fn to_string(&self) -> (out: String)
        ensures
            out@ == self.0.name() + "/"@ + self.1@,
    {
        let mut out = self.0.to_string();
        out.append("/");
        out.append(self.1.as_str());
        out
    }
}

/// The name of a player of the box score.
#[derive(Debug)]
pub struct PlayerName {
    pub firstName: String,
    pub lastName: String,
}

impl Default for PlayerName {
    fn default() -> (empty: Self)
        ensures
            empty.firstName@.len() == 0,
            empty.lastName@.len() == 0,
    {
        PlayerName { firstName: String::new(), lastName: String::new() }
    }
}

impl Clone for PlayerName {
    fn clone(&self) -> (copy: Self)
        ensures
            copy.firstName@ == self.firstName@,
            copy.lastName@ == self.lastName@,
    {
        PlayerName { firstName: self.firstName.clone(), lastName: self.lastName.clone() }
    }
}

/// Whose line of the box score it is.
#[derive(Debug)]
pub struct PlayerInfo {
    pub playerId: i32,
    pub teamId: String,
    pub period: i32,
}

/// A goalkeeper's line of the box score. The save percentage is kept as the
/// bits of its binary32 value.
#[derive(Debug)]
pub struct GoalkeeperStats {
    pub info: PlayerInfo,
    pub GA: i32,
    pub NR: i32,
    pub SOGA: i32,
    pub SPGA: i32,
    pub SVS: i32,
    pub SVS_perc: u32,
}

/// A skater's line of the box score. The face-off percentage is kept as the
/// bits of its binary32 value.
#[derive(Debug)]
pub struct PlayerStats {
    pub info: PlayerInfo,
    pub plus_minus: i32,
    pub A: i32,
    pub FOL: i32,
    pub FOPerc: u32,
    pub FOW: i32,
    pub G: i32,
    pub Hits: i32,
    pub NR: i32,
    pub PIM: i32,
    pub POS: StringOrNum,
    pub PPG: i32,
    pub PPSOG: i32,
    pub SOG: i32,
    pub SW: i32,
    pub TOI: String,
}

/// A value for the home team and one for the away team.
#[derive(Debug)]
pub struct EachTeamStats<T> {
    pub homeTeamValue: T,
    pub awayTeamValue: T,
}

/// A column of the box score.
#[derive(Debug)]
pub struct StatsColumn {
    pub name: String,
    pub stats_type: String,
}

/// The provider's box score of a game. Names are listed by player id; of two
/// names under one id the later one counts, and the away team's names come
/// after the home team's.
#[derive(Debug)]
pub struct PlayerStatsRsp {
    pub dataColumns: Vec<StatsColumn>,
    pub gkDataColumns: Vec<StatsColumn>,
    pub gkStats: EachTeamStats<Vec<GoalkeeperStats>>,
    pub stats: EachTeamStats<Vec<PlayerStats>>,
    pub goalkeepers: EachTeamStats<Vec<(i32, PlayerName)>>,
    pub players: EachTeamStats<Vec<(i32, PlayerName)>>,
}

/// The seconds that a time on ice of the form `minutes:seconds` stands for.
/// A part that is no number counts as 0, and so does a time without a colon.
pub open spec fn toi_seconds(s: Seq<char>) -> i32 {
    let (minutes, seconds) = match split_first(s, ":"@) {
        Some(halves) => halves,
        None => ("0"@, "0"@),
    };
    let minutes = match parsed_i32(minutes) {
        Some(n) => n,
        None => 0i32,
    };
    let seconds = match parsed_i32(seconds) {
        Some(n) => n,
        None => 0i32,
    };
    capped(minutes * 60 + seconds)
}

/// Reads a time on ice.
pub fn parse_toi(s: &str) -> (seconds: i32)
    ensures
        seconds == toi_seconds(s@),
{
    let (min_str, secs_str) = match split_once(s, ":") {
        Some((a, b)) => (a, b),
        None => ("0".to_string(), "0".to_string()),
    };
    let min: i32 = match parse_i32(min_str.as_str()) {
        Some(n) => n,
        None => 0,
    };
    let secs: i32 = match parse_i32(secs_str.as_str()) {
        Some(n) => n,
        None => 0,
    };
    let wide: i64 = min as i64 * 60 + secs as i64;
    if wide > 2147483647 {
        2147483647
    } else if wide < -2147483648 {
        -2147483648
    } else {
        wide as i32
    }
}

/// The name that is listed under `id`: the last one of `away`, else the last
/// one of `home`, else an empty name.
pub open spec fn name_of(home: Seq<(i32, PlayerName)>, away: Seq<(i32, PlayerName)>, id: i32) -> (
    Seq<char>,
    Seq<char>,
) {
    let all = home + away;
    let at = last_with_id(all, id);
    if at >= 0 {
        (all[at].1.firstName@, all[at].1.lastName@)
    } else {
        (Seq::empty(), Seq::empty())
    }
}

/// The last index of `names` under the id `id`, or -1.
pub open spec fn last_with_id(names: Seq<(i32, PlayerName)>, id: i32) -> int
    decreases names.len(),
{
    if names.len() == 0 {
        -1
    } else if names.last().0 == id {
        names.len() - 1
    } else {
        last_with_id(names.drop_last(), id)
    }
}

/// The athlete that a goalkeeper's line of the box score makes. A goalkeeper
/// has played the game where he made a save.
pub open spec fn goalkeeper_of(name: (Seq<char>, Seq<char>), gk: GoalkeeperStats) -> AthleteView {
    AthleteView {
        id: gk.info.playerId,
        first_name: name.0,
        family_name: name.1,
        jersey: gk.NR,
        season: Season::Season2023,
        team_code: gk.info.teamId@,
        position: "GK"@,
        stats: ApiAthleteStats::Goalkeeper(
            ApiGoalkeeperStats {
                ga: gk.GA,
                soga: gk.SOGA,
                spga: gk.SPGA,
                svs: gk.SVS,
                gp: if gk.SVS > 0 {
                    1
                } else {
                    0
                },
            },
        ),
    }
}

/// The athlete that a skater's line of the box score makes.
pub open spec fn skater_of(name: (Seq<char>, Seq<char>), p: PlayerStats) -> AthleteView {
    AthleteView {
        id: p.info.playerId,
        first_name: name.0,
        family_name: name.1,
        jersey: p.NR,
        season: Season::Season2023,
        team_code: p.info.teamId@,
        position: p.POS@.text(),
        stats: ApiAthleteStats::Player(
            ApiPlayerStats {
                plus_minus: p.plus_minus,
                a: p.A,
                fol: p.FOL,
                fow: p.FOW,
                g: p.G,
                hits: p.Hits,
                pim: p.PIM,
                sog: p.SOG,
                sw: p.SW,
                toi_s: toi_seconds(p.TOI@),
                gp: 1,
            },
        ),
    }
}

/// The athletes of a box score: the skaters of the home team, those of the
/// away team, and then the goalkeepers likewise.
pub open spec fn athletes_of(v: PlayerStatsRsp) -> Seq<AthleteView> {
    (v.stats.homeTeamValue@ + v.stats.awayTeamValue@).map_values(
        |p: PlayerStats|
            skater_of(
                name_of(v.players.homeTeamValue@, v.players.awayTeamValue@, p.info.playerId),
                p,
            ),
    ) + (v.gkStats.homeTeamValue@ + v.gkStats.awayTeamValue@).map_values(
        |gk: GoalkeeperStats|
            goalkeeper_of(
                name_of(
                    v.goalkeepers.homeTeamValue@,
                    v.goalkeepers.awayTeamValue@,
                    gk.info.playerId,
                ),
                gk,
            ),
    )
}

fn find_name_in(names: &Vec<(i32, PlayerName)>, id: i32) -> (found: Option<PlayerName>)
    ensures
        match found {
            Some(n) => last_with_id(names@, id) >= 0 && n.firstName@ == names@[last_with_id(
                names@,
                id,
            )].1.firstName@ && n.lastName@ == names@[last_with_id(names@, id)].1.lastName@,
            None => last_with_id(names@, id) == -1,
        },
        last_with_id(names@, id) < names@.len(),
{
    let mut k: usize = names.len();
    assert(names@.take(names.len() as int) =~= names@);
    while k > 0
        invariant
            k <= names.len(),
            last_with_id(names@, id) == last_with_id(names@.take(k as int), id),
        decreases k,
    {
        proof {
            assert(names@.take(k as int).drop_last() =~= names@.take(k - 1));
            assert(names@.take(k as int).last() == names@[k - 1]);
        }
        if names[k - 1].0 == id {
            return Some(names[k - 1].1.clone());
        }
        k -= 1;
    }
    None
}

proof fn lemma_last_with_id_split(home: Seq<(i32, PlayerName)>, away: Seq<(i32, PlayerName)>, id: i32)
    ensures
        last_with_id(home + away, id) == if last_with_id(away, id) >= 0 {
            home.len() + last_with_id(away, id)
        } else {
            last_with_id(home, id)
        },
        last_with_id(away, id) < away.len(),
    decreases away.len(),
{
    if away.len() == 0 {
        assert(home + away =~= home);
    } else {
        assert((home + away).drop_last() =~= home + away.drop_last());
        assert((home + away).last() == away.last());
        lemma_last_with_id_split(home, away.drop_last(), id);
    }
}

fn find_name(home: &Vec<(i32, PlayerName)>, away: &Vec<(i32, PlayerName)>, id: i32) -> (name:
    PlayerName)
    ensures
        (name.firstName@, name.lastName@) == name_of(home@, away@, id),
{
    proof {
        lemma_last_with_id_split(home@, away@, id);
    }
    match find_name_in(away, id) {
        Some(n) => n,
        None => match find_name_in(home, id) {
            Some(n) => n,
            None => PlayerName::default(),
        },
    }
}

impl ApiAthlete {
    /// The athlete that a goalkeeper's line of the box score makes.
    pub fn to_gk(name: PlayerName, gk: &GoalkeeperStats) -> (athlete: ApiAthlete)
        ensures
            athlete@ == goalkeeper_of((name.firstName@, name.lastName@), *gk),
    {
        let stats = ApiGoalkeeperStats {
            ga: gk.GA,
            soga: gk.SOGA,
            spga: gk.SPGA,
            svs: gk.SVS,
            gp: if gk.SVS > 0 {
                1
            } else {
                0
            },
        };
        ApiAthlete {
            id: gk.info.playerId,
            first_name: name.firstName,
            family_name: name.lastName,
            jersey: gk.NR,
            season: Season::Season2023,
            team_code: gk.info.teamId.clone(),
            position: "GK".to_string(),
            stats: ApiAthleteStats::Goalkeeper(stats),
        }
    }

    /// The athlete that a skater's line of the box score makes.
    pub fn to_p(name: PlayerName, p: &PlayerStats) -> (athlete: ApiAthlete)
        ensures
            athlete@ == skater_of((name.firstName@, name.lastName@), *p),
    {
        let stats = ApiPlayerStats {
            plus_minus: p.plus_minus,
            a: p.A,
            fol: p.FOL,
            fow: p.FOW,
            g: p.G,
            hits: p.Hits,
            pim: p.PIM,
            sog: p.SOG,
            sw: p.SW,
            toi_s: parse_toi(p.TOI.as_str()),
            gp: 1,
        };
        ApiAthlete {
            id: p.info.playerId,
            first_name: name.firstName,
            family_name: name.lastName,
            jersey: p.NR,
            season: Season::Season2023,
            team_code: p.info.teamId.clone(),
            position: p.POS.to_str(),
            stats: ApiAthleteStats::Player(stats),
        }
    }

    /// The athletes of a box score.
    pub fn to_vec(v: &PlayerStatsRsp) -> (athletes: Vec<ApiAthlete>)
        ensures
            views(athletes@) == athletes_of(*v),
    {
        let mut athletes: Vec<ApiAthlete> = Vec::new();
        let ghost skaters = v.stats.homeTeamValue@ + v.stats.awayTeamValue@;
        let ghost keepers = v.gkStats.homeTeamValue@ + v.gkStats.awayTeamValue@;
        let mut i: usize = 0;
        while i < v.stats.homeTeamValue.len()
            invariant
                i <= v.stats.homeTeamValue.len(),
                athletes.len() == i,
                skaters == v.stats.homeTeamValue@ + v.stats.awayTeamValue@,
                forall|j: int|
                    0 <= j < i ==> (#[trigger] athletes@[j])@ == skater_of(
                        name_of(
                            v.players.homeTeamValue@,
                            v.players.awayTeamValue@,
                            skaters[j].info.playerId,
                        ),
                        skaters[j],
                    ),
            decreases v.stats.homeTeamValue.len() - i,
        {
            let p = &v.stats.homeTeamValue[i];
            assert(skaters[i as int] == *p);
            let name = find_name(
                &v.players.homeTeamValue,
                &v.players.awayTeamValue,
                p.info.playerId,
            );
            athletes.push(ApiAthlete::to_p(name, p));
            i += 1;
        }
        let home_skaters = v.stats.homeTeamValue.len();
        let mut i: usize = 0;
        while i < v.stats.awayTeamValue.len()
            invariant
                i <= v.stats.awayTeamValue.len(),
                home_skaters == v.stats.homeTeamValue.len(),
                athletes.len() == home_skaters + i,
                skaters == v.stats.homeTeamValue@ + v.stats.awayTeamValue@,
                forall|j: int|
                    0 <= j < home_skaters + i ==> (#[trigger] athletes@[j])@ == skater_of(
                        name_of(
                            v.players.homeTeamValue@,
                            v.players.awayTeamValue@,
                            skaters[j].info.playerId,
                        ),
                        skaters[j],
                    ),
            decreases v.stats.awayTeamValue.len() - i,
        {
            let p = &v.stats.awayTeamValue[i];
            assert(skaters[home_skaters + i] == *p);
            let name = find_name(
                &v.players.homeTeamValue,
                &v.players.awayTeamValue,
                p.info.playerId,
            );
            athletes.push(ApiAthlete::to_p(name, p));
            i += 1;
        }
        let all_skaters = athletes.len();
        let mut i: usize = 0;
        while i < v.gkStats.homeTeamValue.len()
            invariant
                i <= v.gkStats.homeTeamValue.len(),
                all_skaters == skaters.len(),
                athletes.len() == all_skaters + i,
                skaters == v.stats.homeTeamValue@ + v.stats.awayTeamValue@,
                keepers == v.gkStats.homeTeamValue@ + v.gkStats.awayTeamValue@,
                forall|j: int|
                    0 <= j < all_skaters ==> (#[trigger] athletes@[j])@ == skater_of(
                        name_of(
                            v.players.homeTeamValue@,
                            v.players.awayTeamValue@,
                            skaters[j].info.playerId,
                        ),
                        skaters[j],
                    ),
                forall|j: int|
                    0 <= j < i ==> (#[trigger] athletes@[all_skaters + j])@ == goalkeeper_of(
                        name_of(
                            v.goalkeepers.homeTeamValue@,
                            v.goalkeepers.awayTeamValue@,
                            keepers[j].info.playerId,
                        ),
                        keepers[j],
                    ),
            decreases v.gkStats.homeTeamValue.len() - i,
        {
            let gk = &v.gkStats.homeTeamValue[i];
            assert(keepers[i as int] == *gk);
            let name = find_name(
                &v.goalkeepers.homeTeamValue,
                &v.goalkeepers.awayTeamValue,
                gk.info.playerId,
            );
            let ghost before = athletes@;
            athletes.push(ApiAthlete::to_gk(name, gk));
            assert forall|j: int| 0 <= j < i implies (#[trigger] athletes@[all_skaters + j])@
                == goalkeeper_of(
                name_of(
                    v.goalkeepers.homeTeamValue@,
                    v.goalkeepers.awayTeamValue@,
                    keepers[j].info.playerId,
                ),
                keepers[j],
            ) by {
                assert(athletes@[all_skaters + j] == before[all_skaters + j]);
            }
            i += 1;
        }
        let home_keepers = v.gkStats.homeTeamValue.len();
        let mut i: usize = 0;
        while i < v.gkStats.awayTeamValue.len()
            invariant
                i <= v.gkStats.awayTeamValue.len(),
                all_skaters == skaters.len(),
                home_keepers == v.gkStats.homeTeamValue.len(),
                athletes.len() == all_skaters + home_keepers + i,
                skaters == v.stats.homeTeamValue@ + v.stats.awayTeamValue@,
                keepers == v.gkStats.homeTeamValue@ + v.gkStats.awayTeamValue@,
                forall|j: int|
                    0 <= j < all_skaters ==> (#[trigger] athletes@[j])@ == skater_of(
                        name_of(
                            v.players.homeTeamValue@,
                            v.players.awayTeamValue@,
                            skaters[j].info.playerId,
                        ),
                        skaters[j],
                    ),
                forall|j: int|
                    0 <= j < home_keepers + i ==> (#[trigger] athletes@[all_skaters + j])@
                        == goalkeeper_of(
                        name_of(
                            v.goalkeepers.homeTeamValue@,
                            v.goalkeepers.awayTeamValue@,
                            keepers[j].info.playerId,
                        ),
                        keepers[j],
                    ),
            decreases v.gkStats.awayTeamValue.len() - i,
        {
            let gk = &v.gkStats.awayTeamValue[i];
            assert(keepers[home_keepers + i] == *gk);
            let name = find_name(
                &v.goalkeepers.homeTeamValue,
                &v.goalkeepers.awayTeamValue,
                gk.info.playerId,
            );
            let ghost before = athletes@;
            athletes.push(ApiAthlete::to_gk(name, gk));
            assert forall|j: int| 0 <= j < home_keepers + i implies (
            #[trigger] athletes@[all_skaters + j])@ == goalkeeper_of(
                name_of(
                    v.goalkeepers.homeTeamValue@,
                    v.goalkeepers.awayTeamValue@,
                    keepers[j].info.playerId,
                ),
                keepers[j],
            ) by {
                assert(athletes@[all_skaters + j] == before[all_skaters + j]);
            }
            i += 1;
        }
        assert(views(athletes@) =~= athletes_of(*v)) by {
            let target = athletes_of(*v);
            assert(target.len() == skaters.len() + keepers.len());
            assert forall|j: int| 0 <= j < target.len() implies views(athletes@)[j]
                == target[j] by {
                if j >= all_skaters {
                    assert(athletes@[all_skaters + (j - all_skaters)] == athletes@[j]);
                }
            }
        }
        athletes
    }
}

impl AthleteView {
    /// Whether this athlete and `other` are the same player with the same
    /// team in the same season.
    pub open spec fn same_key(self, other: AthleteView) -> bool {
        self.id == other.id && self.season == other.season && self.team_code == other.team_code
    }

    /// The row with which the totals of an athlete start: the athlete with
    /// the statistics of one who has not played.
    pub open spec fn fresh(self) -> AthleteView {
        AthleteView { stats: self.stats.zero_like(), ..self }
    }
}

/// The totals of `entries`: one row for each player, season and team, in
/// the order in which they first occur. A row is named as the first entry
/// of its key names the athlete, and holds the entries' statistics added up
/// in their order.
pub open spec fn totals(entries: Seq<AthleteView>) -> Seq<AthleteView>
    decreases entries.len(),
{
    if entries.len() == 0 {
        Seq::empty()
    } else {
        let before = totals(entries.drop_last());
        let e = entries.last();
        let at = first_where(before, |row: AthleteView| row.same_key(e));
        if at < before.len() {
            before.update(at, AthleteView { stats: before[at].stats.plus(e.stats), ..before[at] })
        } else {
            before.push(AthleteView { stats: e.stats.zero_like().plus(e.stats), ..e })
        }
    }
}

/// The rows of `rows` of the team `team` in the season `season`.
pub open spec fn team_rows(rows: Seq<AthleteView>, season: Season, team: Seq<char>) -> Seq<
    AthleteView,
> {
    rows.filter(|row: AthleteView| row.season == season && row.team_code == team)
}

/// The rows of `rows` of the player `id`.
pub open spec fn career_rows(rows: Seq<AthleteView>, id: i32) -> Seq<AthleteView> {
    rows.filter(|row: AthleteView| row.id == id)
}

/// The totals of the player statistics.
pub struct ApiPlayerStatsService {}

impl ApiPlayerStatsService {
    /// Whether the box score of a game of the status `status` counts: that
    /// of every finished game.
    pub fn counts(status: crate::report::GameStatus) -> (counted: bool)
        ensures
            counted == (status == crate::report::GameStatus::Finished),
    {
        status == crate::report::GameStatus::Finished
    }

    /// The athletes of a game of the season `season`.
    pub fn in_season(athletes: Vec<ApiAthlete>, season: Season) -> (stamped: Vec<ApiAthlete>)
        ensures
            views(stamped@) == views(athletes@).map_values(
                |a: AthleteView| AthleteView { season, ..a },
            ),
    {
        let mut stamped: Vec<ApiAthlete> = Vec::new();
        let mut i: usize = 0;
        while i < athletes.len()
            invariant
                i <= athletes.len(),
                stamped.len() == i,
                forall|j: int|
                    0 <= j < i ==> (#[trigger] stamped@[j])@ == (AthleteView {
                        season,
                        ..athletes@[j]@
                    }),
            decreases athletes.len() - i,
        {
            let mut a = athletes[i].clone();
            a.season = season;
            stamped.push(a);
            i += 1;
        }
        assert(views(stamped@) =~= views(athletes@).map_values(
            |a: AthleteView| AthleteView { season, ..a },
        ));
        stamped
    }

    /// The totals of `entries`, the athletes of the games that count.
    pub fn update(entries: &Vec<ApiAthlete>) -> (rows: Vec<ApiAthlete>)
        ensures
            views(rows@) == totals(views(entries@)),
    {
        let mut rows: Vec<ApiAthlete> = Vec::new();
        let ghost all = views(entries@);
        assert(all.take(0) =~= Seq::<AthleteView>::empty());
        assert(views(rows@) =~= Seq::<AthleteView>::empty());
        let mut i: usize = 0;
        while i < entries.len()
            invariant
                i <= entries.len(),
                all == views(entries@),
                views(rows@) == totals(all.take(i as int)),
            decreases entries.len() - i,
        {
            let e = &entries[i];
            let ghost before = views(rows@);
            let ghost same = |row: AthleteView| row.same_key(e@);
            proof {
                assert(all.take(i + 1).drop_last() =~= all.take(i as int));
                assert(all.take(i + 1).last() == e@);
            }
            let mut at: usize = 0;
            while at < rows.len() && !(rows[at].id == e.id && rows[at].season == e.season && str_eq(
                rows[at].team_code.as_str(),
                e.team_code.as_str(),
            ))
                invariant
                    at <= rows.len(),
                    before == views(rows@),
                    same == |row: AthleteView| row.same_key(e@),
                    forall|j: int| 0 <= j < at ==> !same(#[trigger] before[j]),
                decreases rows.len() - at,
            {
                at += 1;
            }
            proof {
                lemma_first_where_from(before, same, at as int);
            }
            if at < rows.len() {
                let mut row = rows[at].clone();
                row.stats.add(&e.stats);
                proof {
                    lemma_views_update(rows@, at as int, row);
                }
                rows.set(at, row);
            } else {
                let mut row = e.clone();
                row.stats = match e.stats {
                    ApiAthleteStats::Player(_) => ApiAthleteStats::Player(
                        ApiPlayerStats::default(),
                    ),
                    ApiAthleteStats::Goalkeeper(_) => ApiAthleteStats::Goalkeeper(
                        ApiGoalkeeperStats::default(),
                    ),
                };
                row.stats.add(&e.stats);
                proof {
                    lemma_views_push(rows@, row);
                }
                rows.push(row);
            }
            i += 1;
        }
        assert(all.take(entries.len() as int) =~= all);
        rows
    }

    /// The rows of `rows` of the team `team` in the season `season`: the
    /// roster listing of that team.
    pub fn team_players(rows: &Vec<ApiAthlete>, season: Season, team: &str) -> (roster: Vec<
        ApiAthlete,
    >)
        ensures
            views(roster@) == team_rows(views(rows@), season, team@),
    {
        let mut roster: Vec<ApiAthlete> = Vec::new();
        let ghost all = views(rows@);
        let ghost wanted = |row: AthleteView| row.season == season && row.team_code == team@;
        assert(all.take(0) =~= Seq::<AthleteView>::empty());
        assert(views(roster@) =~= Seq::<AthleteView>::empty());
        let mut i: usize = 0;
        while i < rows.len()
            invariant
                i <= rows.len(),
                all == views(rows@),
                wanted == |row: AthleteView| row.season == season && row.team_code == team@,
                views(roster@) == all.take(i as int).filter(wanted),
            decreases rows.len() - i,
        {
            proof {
                assert(all.take(i + 1) =~= all.take(i as int).push(all[i as int]));
                all.take(i as int).lemma_filter_push(all[i as int], wanted);
            }
            if rows[i].season == season && str_eq(rows[i].team_code.as_str(), team) {
                let copy = rows[i].clone();
                proof {
                    lemma_views_push(roster@, copy);
                }
                roster.push(copy);
            }
            i += 1;
        }
        assert(all.take(rows.len() as int) =~= all);
        roster
    }

    /// The rows of `rows` of the player `id`: his career, season by season
    /// and team by team.
    pub fn player_career(rows: &Vec<ApiAthlete>, id: i32) -> (career: Vec<ApiAthlete>)
        ensures
            views(career@) == career_rows(views(rows@), id),
    {
        let mut career: Vec<ApiAthlete> = Vec::new();
        let ghost all = views(rows@);
        let ghost wanted = |row: AthleteView| row.id == id;
        assert(all.take(0) =~= Seq::<AthleteView>::empty());
        assert(views(career@) =~= Seq::<AthleteView>::empty());
        let mut i: usize = 0;
        while i < rows.len()
            invariant
                i <= rows.len(),
                all == views(rows@),
                wanted == |row: AthleteView| row.id == id,
                views(career@) == all.take(i as int).filter(wanted),
            decreases rows.len() - i,
        {
            proof {
                assert(all.take(i + 1) =~= all.take(i as int).push(all[i as int]));
                all.take(i as int).lemma_filter_push(all[i as int], wanted);
            }
            if rows[i].id == id {
                let copy = rows[i].clone();
                proof {
                    lemma_views_push(career@, copy);
                }
                career.push(copy);
            }
            i += 1;
        }
        assert(all.take(rows.len() as int) =~= all);
        career
    }
}

/// The totals hold one row at most for a player, season and team.
pub proof fn lemma_totals_keys_differ(entries: Seq<AthleteView>)
    ensures
        forall|i: int, j: int|
            0 <= i < j < totals(entries).len() ==> !(#[trigger] totals(entries)[i]).same_key(
                #[trigger] totals(entries)[j],
            ),
    decreases entries.len(),
{
    if entries.len() > 0 {
        let before = totals(entries.drop_last());
        let e = entries.last();
        let same = |row: AthleteView| row.same_key(e);
        let at = first_where(before, same);
        lemma_totals_keys_differ(entries.drop_last());
        crate::views::lemma_first_where(before, same);
        let after = totals(entries);
        assert forall|i: int, j: int| 0 <= i < j < after.len() implies !(#[trigger] after[i]).same_key(
            #[trigger] after[j],
        ) by {
            if at < before.len() {
                assert(after[i].same_key(before[i]) && after[j].same_key(before[j]));
                assert(!before[i].same_key(before[j]));
            } else if j < before.len() {
                assert(after[i] == before[i] && after[j] == before[j]);
            } else {
                assert(after[i] == before[i]);
                assert(!same(before[i]));
            }
        }
    }
}

} // verus!
