//! The upstream client's rules: the addresses that are fetched, when a
//! stored answer is too old, and what is stored after a fetch.

use vstd::prelude::*;
use crate::config::Config;
use crate::game::{ApiGame, GameView};
use crate::models::{GameType, League, Season, SeasonKey};
use crate::text::{int_digits, usize_to_string};
use crate::views::views;

verus! {

/// A value that the provider knows by an id of its own.
pub trait IdentifiableEnum {
    /// The provider's id of the value.
    spec fn uuid(&self) -> Seq<char>;

    /// The provider's id of the value.
    fn get_uuid(&self) -> (id: &'static str)
        ensures
            id@ == self.uuid(),
    ;
}

impl IdentifiableEnum for League {
    open spec fn uuid(&self) -> Seq<char> {
        match self {
            League::SHL => "qQ9-bb0bzEWUk"@,
            League::HA => "qQ9-594cW8OWD"@,
        }
    }

    fn get_uuid(&self) -> (id: &'static str) {
        match self {
            League::SHL => "qQ9-bb0bzEWUk",
            League::HA => "qQ9-594cW8OWD",
        }
    }
}

impl IdentifiableEnum for GameType {
    open spec fn uuid(&self) -> Seq<char> {
        match self {
            GameType::Season => "qQ9-af37Ti40B"@,
            GameType::PlayOff => "qQ9-7debq38kX"@,
            GameType::Demotion => "qRf-347BaDIOc"@,
        }
    }

    fn get_uuid(&self) -> (id: &'static str) {
        match self {
            GameType::Season => "qQ9-af37Ti40B",
            GameType::PlayOff => "qQ9-7debq38kX",
            GameType::Demotion => "qRf-347BaDIOc",
        }
    }
}

impl IdentifiableEnum for Season {
    open spec fn uuid(&self) -> Seq<char> {
        match self {
            Season::Season2023 => "qcz-3NvSZ2Cmh"@,
            Season::Season2022 => "qbN-XMFfjGVt"@,
            Season::Season2021 => "qZl-8qa6OaFXf"@,
            Season::Season2020 => "qY7-AdVh5z1XJ"@,
            Season::Season2019 => "qWX-334j11U5o1"@,
            Season::Season2018 => "qUv-YXiuQN45"@,
        }
    }

    fn get_uuid(&self) -> (id: &'static str) {
        match self {
            Season::Season2023 => "qcz-3NvSZ2Cmh",
            Season::Season2022 => "qbN-XMFfjGVt",
            Season::Season2021 => "qZl-8qa6OaFXf",
            Season::Season2020 => "qY7-AdVh5z1XJ",
            Season::Season2019 => "qWX-334j11U5o1",
            Season::Season2018 => "qUv-YXiuQN45",
        }
    }
}

/// The address of the schedule of `key`.
pub open spec fn season_url(config: &Config, key: SeasonKey) -> Seq<char> {
    config.url_of(key.1) + "/sports/game-info?gamePlace=all&played=all&seasonUuid="@ + key.0.uuid()
        + "&seriesUuid="@ + key.1.uuid() + "&gameTypeUuid="@ + key.2.uuid()
}

/// The address of the schedule of `key`.
pub fn get_season_url(config: &Config, key: &SeasonKey) -> (url: String)
    ensures
        url@ == season_url(config, *key),
{
    let mut url = config.get_url(&key.1).to_string();
    url.append("/sports/game-info?gamePlace=all&played=all&seasonUuid=");
    url.append(key.0.get_uuid());
    url.append("&seriesUuid=");
    url.append(key.1.get_uuid());
    url.append("&gameTypeUuid=");
    url.append(key.2.get_uuid());
    url
}

/// The address of the play-by-play feed of the older seasons for a game.
pub fn get_events_url(config: &Config, game_uuid: &str) -> (url: String)
    ensures
        url@ == config.shl_url@ + "/gameday/play-by-play/initial-events/"@ + game_uuid@,
{
    let mut url = config.get_url(&League::SHL).to_string();
    url.append("/gameday/play-by-play/initial-events/");
    url.append(game_uuid);
    url
}

/// The address of the events of a game.
pub fn get_events_2023_url(config: &Config, game_uuid: &str) -> (url: String)
    ensures
        url@ == config.shl_url@ + "/gameday/play-by-play/"@ + game_uuid@,
{
    let mut url = config.get_url(&League::SHL).to_string();
    url.append("/gameday/play-by-play/");
    url.append(game_uuid);
    url
}

/// The address of the team statistics of a game.
pub fn get_stats_url(config: &Config, league: &League, game_uuid: &str) -> (url: String)
    ensures
        url@ == config.url_of(*league) + "/gameday/periodstats/"@ + game_uuid@,
{
    let mut url = config.get_url(league).to_string();
    url.append("/gameday/periodstats/");
    url.append(game_uuid);
    url
}

/// The address of the player statistics of a game.
pub fn get_player_stats_url(config: &Config, league: &League, game_uuid: &str) -> (url: String)
    ensures
        url@ == config.url_of(*league) + "/gameday/boxscore/"@ + game_uuid@,
{
    let mut url = config.get_url(league).to_string();
    url.append("/gameday/boxscore/");
    url.append(game_uuid);
    url
}

/// The address of the live stream of a game.
pub fn get_sse_url(config: &Config, game_uuid: &str) -> (url: String)
    ensures
        url@ == config.sse_url@ + "?gameUuid="@ + game_uuid@,
{
    let mut url = config.sse_url.clone();
    url.append("?gameUuid=");
    url.append(game_uuid);
    url
}

/// A length of time: whole seconds, and the nanoseconds beyond them.
#[derive(Clone, Copy, Debug, PartialEq, Eq, Structural)]
pub struct Span {
    pub secs: u64,
    pub nanos: u32,
}

impl Span {
    /// Whether this length is greater than `other`.
    pub open spec fn exceeds(self, other: Span) -> bool {
        self.secs > other.secs || (self.secs == other.secs && self.nanos > other.nanos)
    }

    /// A length of whole seconds.
    pub fn from_secs(secs: u64) -> (span: Span)
        ensures
            span == (Span { secs, nanos: 0 }),
    {
        Span { secs, nanos: 0 }
    }
}

impl Season {
    /// The age up to which the stored schedule of the season is used: ten
    /// hours for the current season, any age for an earlier one.
    pub open spec fn throttle(self) -> Option<Span> {
        if self == Season::current() {
            Some(Span { secs: 36000, nanos: 0 })
        } else {
            None
        }
    }

    /// The age up to which the stored schedule of the season is used.
    pub fn get_throttle(&self) -> (max_age: Option<Span>)
        ensures
            max_age == self.throttle(),
    {
        if self.is_current() {
            Some(Span::from_secs(60 * 60 * 10))
        } else {
            None
        }
    }

    /// The age up to which the stored details of a game of the season are
    /// used when details are filled in: ten days for the current season; for
    /// an earlier one, whatever is stored is too old.
    pub open spec fn details_age(self) -> Span {
        if self == Season::current() {
            Span { secs: 864000, nanos: 0 }
        } else {
            Span { secs: 0, nanos: 0 }
        }
    }

    /// The age up to which the stored details of a game of the season are
    /// used when details are filled in.
    pub fn get_details_age(&self) -> (max_age: Span)
        ensures
            max_age == self.details_age(),
    {
        if self.is_current() {
            Span::from_secs(60 * 60 * 24 * 10)
        } else {
            Span::from_secs(0)
        }
    }
}

/// Whether a stored value is stale: it is missing, or it is older than
/// `max_age`. A value that is there is never stale where no age is given.
pub open spec fn stale(age: Option<Span>, max_age: Option<Span>) -> bool {
    match age {
        Some(age) => match max_age {
            Some(max_age) => age.exceeds(max_age),
            None => false,
        },
        None => true,
    }
}

/// A collection of the artifact store.
#[derive(Debug)]
pub struct Db {
    pub name: String,
}

impl Db {
    /// The collection `name`.
    pub fn new(name: &str) -> (db: Db)
        ensures
            db.name@ == name@,
    {
        Db { name: name.to_string() }
    }

    /// The place of the value of `key` below the store at `db_path`.
    pub fn get_path(&self, db_path: &str, key: &str) -> (path: String)
        ensures
            path@ == db_path@ + "/"@ + self.name@ + "/"@ + key@,
    {
        let mut path = db_path.to_string();
        path.append("/");
        path.append(self.name.as_str());
        path.append("/");
        path.append(key);
        path
    }

    /// Whether a stored value is stale: `age` is the time since it was
    /// written, or nothing where it is missing.
    pub fn is_stale(age: Option<Span>, max_age: Option<Span>) -> (is_stale: bool)
        ensures
            is_stale == stale(age, max_age),
    {
        match age {
            Some(age) => match max_age {
                Some(max_age) => age.secs > max_age.secs || (age.secs == max_age.secs && age.nanos
                    > max_age.nanos),
                None => false,
            },
            None => true,
        }
    }
}

/// What the upstream client does for an address.
#[derive(Clone, Copy, Debug, PartialEq, Eq, Structural)]
pub enum ThrottleStep {
    /// Answer from the store.
    UseStored,
    /// Ask the provider.
    Fetch,
}

/// What the upstream client stores after it has asked the provider.
#[derive(Clone, Copy, Debug, PartialEq, Eq, Structural)]
pub enum StoreStep {
    /// The provider's answer.
    Answer,
    /// An empty placeholder, so that a provider that fails is not asked
    /// again and again.
    Placeholder,
}

/// What the upstream client does for an address of which the stored answer
/// has the age `age`: it asks the provider where the stored answer is stale.
pub fn throttle_step(age: Option<Span>, max_age: Option<Span>) -> (step: ThrottleStep)
    ensures
        step == if stale(age, max_age) {
            ThrottleStep::Fetch
        } else {
            ThrottleStep::UseStored
        },
{
    if Db::is_stale(age, max_age) {
        ThrottleStep::Fetch
    } else {
        ThrottleStep::UseStored
    }
}

/// What the upstream client stores after it has asked the provider:
/// `answered` says whether an answer came and could be read.
pub fn store_step(answered: bool) -> (step: StoreStep)
    ensures
        step == if answered {
            StoreStep::Answer
        } else {
            StoreStep::Placeholder
        },
{
    if answered {
        StoreStep::Answer
    } else {
        StoreStep::Placeholder
    }
}

/// The number of games of which the details are filled in per cycle.
pub const DETAILS_PER_CYCLE: usize = 10;

/// The seconds that lie between two cycles of filling in details.
pub const DETAILS_CYCLE_SECS: u64 = 3600;

/// The seconds that lie between two games of a cycle.
pub const DETAILS_PAUSE_SECS: u64 = 1;

/// The games of which the details are to be filled in: the played games of
/// `games` whose stored details are stale, as `is_stale` says game by game.
pub open spec fn details_due(games: Seq<GameView>, is_stale: Seq<bool>) -> Seq<GameView>
    decreases games.len(),
{
    if games.len() == 0 {
        Seq::empty()
    } else {
        let before = details_due(games.drop_last(), is_stale);
        if games.last().played && is_stale[games.len() - 1] {
            before.push(games.last())
        } else {
            before
        }
    }
}

/// The note that is stored after a cycle.
pub open spec fn details_note(left: nat, all: nat) -> Seq<char> {
    int_digits(left as int) + " out of "@ + int_digits(all as int) + " left"@
}

/// The filling in of game details.
pub struct FetchDetailsService;

impl FetchDetailsService {
    /// One cycle: the games of which the details are fetched now, ten at
    /// most and in the order of `games`, and the note to store, which says
    /// how many games were due.
    pub fn update(games: &Vec<ApiGame>, is_stale: &Vec<bool>) -> (plan: (Vec<ApiGame>, String))
        requires
            is_stale@.len() == games@.len(),
        ensures
            views(plan.0@) == details_due(views(games@), is_stale@).take(
                if details_due(views(games@), is_stale@).len() < DETAILS_PER_CYCLE {
                    details_due(views(games@), is_stale@).len() as int
                } else {
                    DETAILS_PER_CYCLE as int
                },
            ),
            plan.1@ == details_note(
                details_due(views(games@), is_stale@).len(),
                games@.len(),
            ),
    {
        let mut first: Vec<ApiGame> = Vec::new();
        let mut due: usize = 0;
        let ghost all = views(games@);
        assert(all.take(0) =~= Seq::<GameView>::empty());
        assert(views(first@) =~= Seq::<GameView>::empty());
        let mut i: usize = 0;
        while i < games.len()
            invariant
                i <= games.len(),
                is_stale@.len() == games@.len(),
                all == views(games@),
                due == details_due(all.take(i as int), is_stale@).len(),
                due <= i,
                views(first@) == details_due(all.take(i as int), is_stale@).take(
                    if due < DETAILS_PER_CYCLE {
                        due as int
                    } else {
                        DETAILS_PER_CYCLE as int
                    },
                ),
            decreases games.len() - i,
        {
            proof {
                assert(all.take(i + 1).drop_last() =~= all.take(i as int));
                assert(all.take(i + 1).last() == all[i as int]);
            }
            if games[i].played && is_stale[i] {
                if due < DETAILS_PER_CYCLE {
                    let copy = games[i].clone();
                    proof {
                        crate::views::lemma_views_push(first@, copy);
                    }
                    first.push(copy);
                }
                due += 1;
            }
            proof {
                let now = details_due(all.take(i + 1), is_stale@);
                let cut = if due < DETAILS_PER_CYCLE {
                    due as int
                } else {
                    DETAILS_PER_CYCLE as int
                };
                assert(views(first@) =~= now.take(cut));
            }
            i += 1;
        }
        assert(all.take(games.len() as int) =~= all);
        let mut note = usize_to_string(due);
        note.append(" out of ");
        note.append(usize_to_string(games.len()).as_str());
        note.append(" left");
        (first, note)
    }
}

} // verus!
