//! The full details of a game: the game with its events, team statistics
//! and players.

use vstd::prelude::*;
use crate::athlete::{ApiAthlete, AthleteView};
use crate::event::{ApiGameEvent, EventView};
use crate::game::{ApiGame, GameView};
use crate::report::GameStatus;
use crate::stats::ApiGameStats;
use crate::views::views;

verus! {

/// The details of a game.
#[derive(Debug)]
pub struct ApiGameDetails {
    pub events: Vec<ApiGameEvent>,
    pub stats: Option<ApiGameStats>,
    pub game: ApiGame,
    pub players: Vec<ApiAthlete>,
}

/// What an `ApiGameDetails` holds.
pub struct GameDetailsView {
    pub events: Seq<EventView>,
    pub stats: Option<ApiGameStats>,
    pub game: GameView,
    pub players: Seq<AthleteView>,
}

impl View for ApiGameDetails {
    type V = GameDetailsView;

    open spec fn view(&self) -> GameDetailsView {
        GameDetailsView {
            events: views(self.events@),
            stats: self.stats,
            game: self.game@,
            players: views(self.players@),
        }
    }
}

/// What is read for the details of a game.
#[derive(Clone, Copy, Debug, PartialEq, Eq, Structural)]
pub enum DetailsStep {
    /// The game is not known: there are no details.
    Unknown,
    /// The game has not begun: its details are the game alone.
    GameOnly,
    /// Events, statistics and players are fetched.
    Fetch,
}

/// What is read for the details of `game`.
pub open spec fn details_step(game: Option<GameView>) -> DetailsStep {
    match game {
        Some(g) => if g.status == GameStatus::Coming {
            DetailsStep::GameOnly
        } else {
            DetailsStep::Fetch
        },
        None => DetailsStep::Unknown,
    }
}

/// The details of `game` with what was fetched: the events in the reverse
/// of the order in which they were fetched, none where none were fetched.
pub open spec fn details_of(
    game: GameView,
    events: Option<Seq<EventView>>,
    stats: Option<ApiGameStats>,
    players: Seq<AthleteView>,
) -> GameDetailsView {
    GameDetailsView {
        events: match events {
            Some(e) => e.reverse(),
            None => Seq::empty(),
        },
        stats,
        game,
        players,
    }
}

/// The assembling of game details.
pub struct ApiGameDetailsService;

impl ApiGameDetailsService {
    /// What is read for the details of `game`.
    pub fn plan(game: Option<&ApiGame>) -> (step: DetailsStep)
        ensures
            step == details_step(
                match game {
                    Some(g) => Some(g@),
                    None => None,
                },
            ),
    {
        match game {
            Some(g) => {
                if g.status == GameStatus::Coming {
                    DetailsStep::GameOnly
                } else {
                    DetailsStep::Fetch
                }
            },
            None => DetailsStep::Unknown,
        }
    }

    /// The details of a game that has not begun.
    pub fn game_only(game: ApiGame) -> (details: ApiGameDetails)
        ensures
            details@ == details_of(game@, None, None, Seq::empty()),
    {
        let details = ApiGameDetails {
            game,
            events: Vec::new(),
            stats: None,
            players: Vec::new(),
        };
        assert(views(details.events@) =~= Seq::<EventView>::empty());
        assert(views(details.players@) =~= Seq::<AthleteView>::empty());
        details
    }

    /// The details of `game` with what was fetched.
    pub fn read(
        game: ApiGame,
        events: Option<Vec<ApiGameEvent>>,
        stats: Option<ApiGameStats>,
        players: Vec<ApiAthlete>,
    ) -> (details: ApiGameDetails)
        ensures
            details@ == details_of(
                game@,
                match events {
                    Some(e) => Some(views(e@)),
                    None => None,
                },
                stats,
                views(players@),
            ),
    {
        let mut reversed: Vec<ApiGameEvent> = Vec::new();
        match &events {
            Some(fetched) => {
                let mut k: usize = fetched.len();
                while k > 0
                    invariant
                        k <= fetched.len(),
                        reversed.len() == fetched.len() - k,
                        forall|j: int|
                            0 <= j < reversed.len() ==> (#[trigger] reversed@[j])@
                                == fetched@[fetched.len() - 1 - j]@,
                    decreases k,
                {
                    k -= 1;
                    reversed.push(fetched[k].clone());
                }
                assert(views(reversed@) =~= views(fetched@).reverse());
            },
            None => {
                assert(views(reversed@) =~= Seq::<EventView>::empty());
            },
        }
        ApiGameDetails { game, events: reversed, stats, players }
    }
}

} // verus!
