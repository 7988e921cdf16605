//! The orchestrator's decisions: for which games a listener is spawned, and
//! what is refreshed when a game moves on.

use vstd::prelude::*;
use bounded_vec_deque::BoundedVecDeque;
use crate::bus::{Msg, MsgView};
use crate::game::{ApiGame, GameView, Timestamp};
use crate::models::{League, Season};
use crate::registry::{find_game, game_of};
use crate::report::GameStatus;
use crate::rest::{Span, stale};
use crate::text::texts;
use crate::views::views;

verus! {

/// The number of games that the orchestrator remembers to have spawned a
/// listener for.
pub const SENT_GAMES_LIMIT: usize = 40;

/// The seconds between two polls of the season.
pub const SEASON_POLL_SECS: u64 = 60;

/// The seconds for which the statistics of a game that moved on are taken
/// from the cache.
pub const REFRESH_MAX_AGE_SECS: u64 = 30;

#[verifier::external_type_specification]
#[verifier::external_body]
#[verifier::reject_recursive_types(T)]
pub struct ExBoundedVecDeque<T>(BoundedVecDeque<T>);

/// What a bounded deque of strings holds, front first.
pub uninterp spec fn deque_items(deque: BoundedVecDeque<String>) -> Seq<Seq<char>>;

/// The length limit with which a bounded deque of strings was made.
pub uninterp spec fn deque_limit(deque: BoundedVecDeque<String>) -> nat;

/// `items` after `item` is pushed onto the front of a deque of the length
/// limit `limit`: a deque of the limit 0 takes nothing, and a full deque
/// drops its last item first.
pub open spec fn pushed_front(items: Seq<Seq<char>>, limit: nat, item: Seq<char>) -> Seq<
    Seq<char>,
> {
    if limit == 0 {
        items
    } else if items.len() >= limit {
        seq![item] + items.drop_last()
    } else {
        seq![item] + items
    }
}

/// Makes an empty deque with `BoundedVecDeque::new`. Trusted: the deque is
/// empty and keeps `max_len` as its length limit. The limit is kept small
/// enough for the space that the deque reserves at once.
#[verifier::external_body]
fn deque_new(max_len: usize) -> (deque: BoundedVecDeque<String>)
    requires
        max_len <= 65535,
    ensures
        deque_items(deque) == Seq::<Seq<char>>::empty(),
        deque_limit(deque) == max_len,
{
    BoundedVecDeque::new(max_len)
}

/// Asks `VecDeque::contains` through the deque. Trusted: whether an item of
/// the deque equals `item`.
#[verifier::external_body]
fn deque_contains(deque: &BoundedVecDeque<String>, item: &String) -> (found: bool)
    ensures
        found == deque_items(*deque).contains(item@),
{
    deque.contains(item)
}

/// Pushes with `BoundedVecDeque::push_front`. Trusted: a deque of the limit
/// 0 stays empty; any other deque gets `item` at its front, after its last
/// item is dropped where it is full. The limit stays.
#[verifier::external_body]
fn deque_push_front(deque: &mut BoundedVecDeque<String>, item: String)
    ensures
        deque_items(*final(deque)) == pushed_front(
            deque_items(*old(deque)),
            deque_limit(*old(deque)),
            item@,
        ),
        deque_limit(*final(deque)) == deque_limit(*old(deque)),
{
    deque.push_front(item);
}

/// The games for which a listener was spawned of late, newest first.
pub struct SentGames {
    deque: BoundedVecDeque<String>,
}

impl SentGames {
    /// The ids of the remembered games, newest first.
    pub closed spec fn items(&self) -> Seq<Seq<char>> {
        deque_items(self.deque)
    }

    /// The number of games that are remembered at most.
    pub closed spec fn limit(&self) -> nat {
        deque_limit(self.deque)
    }

    /// No more games are remembered than the limit allows.
    pub open spec fn wf(&self) -> bool {
        self.items().len() <= self.limit()
    }

    /// A memory without games that holds `limit` games at most.
    pub fn new(limit: usize) -> (sent: SentGames)
        requires
            limit <= 65535,
        ensures
            sent.items() == Seq::<Seq<char>>::empty(),
            sent.limit() == limit,
            sent.wf(),
    {
        SentGames { deque: deque_new(limit) }
    }

    /// Whether the game `game_uuid` is remembered.
    pub fn contains(&self, game_uuid: &String) -> (found: bool)
        ensures
            found == self.items().contains(game_uuid@),
    {
        deque_contains(&self.deque, game_uuid)
    }

    /// Remembers the game `game_uuid`, and forgets the oldest game where the
    /// memory is full.
    pub fn remember(&mut self, game_uuid: String)
        requires
            old(self).wf(),
        ensures
            final(self).items() == pushed_front(old(self).items(), old(self).limit(), game_uuid@),
            final(self).limit() == old(self).limit(),
            final(self).wf(),
    {
        deque_push_front(&mut self.deque, game_uuid);
    }
}

/// How a game is listened to.
#[derive(Clone, Copy, Debug, PartialEq, Eq, Structural)]
pub enum Transport {
    /// Over the live stream.
    Sse,
    /// By polling.
    Poll,
}

/// The ids of those of `games`, in their order, that may be live at `now`.
pub open spec fn live_ids(games: Seq<GameView>, now: Timestamp) -> Seq<Seq<char>> {
    games.filter(|g: GameView| g.potentially_live_at(now)).map_values(|g: GameView| g.game_uuid)
}

/// Those of `ids`, in their order, for which a listener is spawned, given
/// the games `sent` that are remembered with the limit `limit`: every id that
/// is not remembered when its turn comes. Each id that is spawned is
/// remembered at once.
pub open spec fn spawned(ids: Seq<Seq<char>>, sent: Seq<Seq<char>>, limit: nat) -> Seq<Seq<char>>
    decreases ids.len(),
{
    if ids.len() == 0 {
        Seq::empty()
    } else {
        let before = spawned(ids.drop_last(), sent, limit);
        if remembered(ids.drop_last(), sent, limit).contains(ids.last()) {
            before
        } else {
            before.push(ids.last())
        }
    }
}

/// The games that are remembered after a listener was spawned for those of
/// `ids` that were not remembered.
pub open spec fn remembered(ids: Seq<Seq<char>>, sent: Seq<Seq<char>>, limit: nat) -> Seq<
    Seq<char>,
>
    decreases ids.len(),
{
    if ids.len() == 0 {
        sent
    } else {
        let before = remembered(ids.drop_last(), sent, limit);
        if before.contains(ids.last()) {
            before
        } else {
            pushed_front(before, limit, ids.last())
        }
    }
}

/// What is refreshed when a game moves on.
#[derive(Debug)]
pub enum RefreshAction {
    /// Rebuild the standings of the season.
    UpdateStandings { season: Season },
    /// Rebuild the playoff bracket of the season.
    UpdatePlayoffs { season: Season },
    /// Rebuild the player statistics.
    UpdatePlayerStats,
    /// Fetch the team statistics of the game, unless they are younger than
    /// `max_age_secs`.
    FetchStats { league: League, season: Season, game_uuid: String, max_age_secs: u64 },
    /// Fetch the player statistics of the game, unless they are younger than
    /// `max_age_secs`.
    FetchPlayers { league: League, game_uuid: String, max_age_secs: u64 },
}

/// What a `RefreshAction` holds.
pub enum RefreshActionView {
    UpdateStandings { season: Season },
    UpdatePlayoffs { season: Season },
    UpdatePlayerStats,
    FetchStats { league: League, season: Season, game_uuid: Seq<char>, max_age_secs: u64 },
    FetchPlayers { league: League, game_uuid: Seq<char>, max_age_secs: u64 },
}

impl View for RefreshAction {
    type V = RefreshActionView;

    open spec fn view(&self) -> RefreshActionView {
        match self {
            RefreshAction::UpdateStandings { season } => RefreshActionView::UpdateStandings {
                season: *season,
            },
            RefreshAction::UpdatePlayoffs { season } => RefreshActionView::UpdatePlayoffs {
                season: *season,
            },
            RefreshAction::UpdatePlayerStats => RefreshActionView::UpdatePlayerStats,
            RefreshAction::FetchStats {
                league,
                season,
                game_uuid,
                max_age_secs,
            } => RefreshActionView::FetchStats {
                league: *league,
                season: *season,
                game_uuid: game_uuid@,
                max_age_secs: *max_age_secs,
            },
            RefreshAction::FetchPlayers {
                league,
                game_uuid,
                max_age_secs,
            } => RefreshActionView::FetchPlayers {
                league: *league,
                game_uuid: game_uuid@,
                max_age_secs: *max_age_secs,
            },
        }
    }
}

/// What is refreshed on the bus message `msg`, given the games of the
/// current season.
///
/// Only the writer's messages count, and only where the registry holds their
/// game. The statistics of the game are fetched; where the game is finished,
/// the standings of the current season, the playoff bracket of the game's
/// season and the player statistics are rebuilt first.
pub open spec fn refresh_plan(msg: MsgView, games: Seq<GameView>) -> Seq<RefreshActionView> {
    if !(msg is EventUpdated || msg is ReportUpdated) {
        Seq::empty()
    } else {
        match game_of(games, msg.game_uuid()) {
            Some(g) => {
                let rebuilt = if g.status == GameStatus::Finished {
                    seq![
                        RefreshActionView::UpdateStandings { season: Season::current() },
                        RefreshActionView::UpdatePlayoffs { season: g.season },
                        RefreshActionView::UpdatePlayerStats,
                    ]
                } else {
                    Seq::empty()
                };
                rebuilt + seq![
                    RefreshActionView::FetchStats {
                        league: g.league,
                        season: g.season,
                        game_uuid: g.game_uuid,
                        max_age_secs: REFRESH_MAX_AGE_SECS,
                    },
                    RefreshActionView::FetchPlayers {
                        league: g.league,
                        game_uuid: g.game_uuid,
                        max_age_secs: REFRESH_MAX_AGE_SECS,
                    },
                ]
            },
            None => Seq::empty(),
        }
    }
}

/// On one bus message each refresh happens once at most: the standings, the
/// playoff bracket and the player statistics are each rebuilt at most once,
/// and each kind of statistics is fetched at most once.
pub proof fn lemma_refresh_once(msg: MsgView, games: Seq<GameView>)
    ensures
        refresh_plan(msg, games).no_duplicates(),
        refresh_plan(msg, games).filter(|a: RefreshActionView| a is UpdateStandings).len() <= 1,
        refresh_plan(msg, games).filter(|a: RefreshActionView| a is UpdatePlayoffs).len() <= 1,
        refresh_plan(msg, games).filter(|a: RefreshActionView| a is UpdatePlayerStats).len() <= 1,
        refresh_plan(msg, games).filter(|a: RefreshActionView| a is FetchStats).len() <= 1,
        refresh_plan(msg, games).filter(|a: RefreshActionView| a is FetchPlayers).len() <= 1,
{
    let plan = refresh_plan(msg, games);
    lemma_count_by_kind(plan, |a: RefreshActionView| a is UpdateStandings);
    lemma_count_by_kind(plan, |a: RefreshActionView| a is UpdatePlayoffs);
    lemma_count_by_kind(plan, |a: RefreshActionView| a is UpdatePlayerStats);
    lemma_count_by_kind(plan, |a: RefreshActionView| a is FetchStats);
    lemma_count_by_kind(plan, |a: RefreshActionView| a is FetchPlayers);
}

/// The statistics of a game are asked of the provider once in thirty
/// seconds at most: every refresh that fetches them allows the stored
/// answer an age of thirty seconds, and a stored answer of that age or less
/// is not stale, so that it is the answer.
pub proof fn lemma_refresh_is_throttled(msg: MsgView, games: Seq<GameView>, i: int, age: Span)
    requires
        0 <= i < refresh_plan(msg, games).len(),
        refresh_plan(msg, games)[i] is FetchStats || refresh_plan(msg, games)[i] is FetchPlayers,
        !age.exceeds(Span { secs: REFRESH_MAX_AGE_SECS, nanos: 0 }),
    ensures
        match refresh_plan(msg, games)[i] {
            RefreshActionView::FetchStats { max_age_secs, .. } => !stale(
                Some(age),
                Some(Span { secs: max_age_secs, nanos: 0 }),
            ),
            RefreshActionView::FetchPlayers { max_age_secs, .. } => !stale(
                Some(age),
                Some(Span { secs: max_age_secs, nanos: 0 }),
            ),
            _ => true,
        },
{
}

/// Where a predicate holds of one item of a sequence at most, the sequence
/// filtered by it has one item at most.
proof fn lemma_count_by_kind(plan: Seq<RefreshActionView>, kind: spec_fn(RefreshActionView) -> bool)
    requires
        forall|i: int, j: int|
            0 <= i < j < plan.len() ==> !(kind(#[trigger] plan[i]) && kind(#[trigger] plan[j])),
    ensures
        plan.filter(kind).len() <= 1,
    decreases plan.len(),
{
    if plan.len() == 0 {
        plan.lemma_filter_len(kind);
    } else {
        let front = plan.drop_last();
        assert(plan =~= front.push(plan.last()));
        front.lemma_filter_push(plan.last(), kind);
        assert forall|i: int, j: int| 0 <= i < j < front.len() implies !(kind(
            #[trigger] front[i],
        ) && kind(#[trigger] front[j])) by {
            assert(front[i] == plan[i] && front[j] == plan[j]);
        }
        lemma_count_by_kind(front, kind);
        if kind(plan.last()) && front.filter(kind).len() > 0 {
            let x = front.filter(kind)[0];
            front.lemma_filter_pred(kind, 0);
            assert(front.filter(kind).contains(x));
            front.lemma_filter_contains_rev(kind, x);
            let k = choose|k: int| 0 <= k < front.len() && front[k] == x;
            assert(plan[k] == x);
            assert(kind(plan[k]) && kind(plan[plan.len() - 1]));
        }
    }
}

/// A request to listen to a game.
#[derive(Debug)]
pub struct SpawnRequest {
    pub game_uuid: String,
    pub transport: Transport,
}

/// The orchestrator's rules.
pub struct Orchestrator;

impl Orchestrator {
    /// The transport by which games are listened to: polling where the
    /// configuration asks for it, else the live stream.
    pub fn transport(poll: bool) -> (transport: Transport)
        ensures
            transport == if poll {
                Transport::Poll
            } else {
                Transport::Sse
            },
    {
        if poll {
            Transport::Poll
        } else {
            Transport::Sse
        }
    }

    /// One round of the season poll: the games of `games` that may be live
    /// at `now` and for which no listener was spawned of late, in their
    /// order. Each of them is remembered in `sent`.
    pub fn games_to_spawn(games: &Vec<ApiGame>, now: Timestamp, sent: &mut SentGames) -> (spawn:
        Vec<String>)
        requires
            old(sent).wf(),
        ensures
            texts(spawn@) == spawned(
                live_ids(views(games@), now),
                old(sent).items(),
                old(sent).limit(),
            ),
            final(sent).items() == remembered(
                live_ids(views(games@), now),
                old(sent).items(),
                old(sent).limit(),
            ),
            final(sent).limit() == old(sent).limit(),
            final(sent).wf(),
    {
        let mut spawn: Vec<String> = Vec::new();
        let ghost all = views(games@);
        let ghost live = |g: GameView| g.potentially_live_at(now);
        let ghost id = |g: GameView| g.game_uuid;
        let ghost start = sent.items();
        let ghost limit = sent.limit();
        assert(all.take(0) =~= Seq::<GameView>::empty());
        assert(all.take(0).filter(live) =~= Seq::<GameView>::empty()) by {
            all.take(0).lemma_filter_len(live);
        }
        assert(all.take(0).filter(live).map_values(id) =~= Seq::<Seq<char>>::empty());
        assert(texts(spawn@) =~= Seq::<Seq<char>>::empty());
        let mut i: usize = 0;
        while i < games.len()
            invariant
                i <= games.len(),
                all == views(games@),
                live == |g: GameView| g.potentially_live_at(now),
                id == |g: GameView| g.game_uuid,
                start == old(sent).items(),
                limit == old(sent).limit(),
                sent.limit() == limit,
                sent.wf(),
                texts(spawn@) == spawned(
                    all.take(i as int).filter(live).map_values(id),
                    start,
                    limit,
                ),
                sent.items() == remembered(
                    all.take(i as int).filter(live).map_values(id),
                    start,
                    limit,
                ),
            decreases games.len() - i,
        {
            let ghost ids = all.take(i as int).filter(live).map_values(id);
            proof {
                assert(all.take(i + 1) =~= all.take(i as int).push(all[i as int]));
                all.take(i as int).lemma_filter_push(all[i as int], live);
            }
            if games[i].is_potentially_live_at(now) {
                let ghost next = all.take(i + 1).filter(live).map_values(id);
                proof {
                    assert(next =~= ids.push(all[i as int].game_uuid));
                    assert(next.drop_last() =~= ids);
                }
                if !sent.contains(&games[i].game_uuid) {
                    let uuid = games[i].game_uuid.clone();
                    assert(texts(spawn@.push(uuid)) =~= texts(
                        spawn@,
                    ).push(uuid@));
                    spawn.push(uuid);
                    sent.remember(games[i].game_uuid.clone());
                }
            }
            i += 1;
        }
        assert(all.take(games.len() as int) =~= all);
        spawn
    }

    /// What is refreshed on the bus message `msg`, given the games of the
    /// current season.
    pub fn refresh_actions(msg: &Msg, all_games: &Vec<ApiGame>) -> (actions: Vec<RefreshAction>)
        ensures
            views(actions@) == refresh_plan(msg@, views(all_games@)),
    {
        let mut actions: Vec<RefreshAction> = Vec::new();
        let should_update = match msg {
            Msg::EventUpdated { event: _, game_uuid: _ } => true,
            Msg::ReportUpdated { report: _, game_uuid: _ } => true,
            _ => false,
        };
        if should_update {
            let at = find_game(all_games, msg.get_game_uuid().as_str());
            if at < all_games.len() {
                let g = &all_games[at];
                if g.status == GameStatus::Finished {
                    actions.push(RefreshAction::UpdateStandings { season: Season::get_current() });
                    actions.push(RefreshAction::UpdatePlayoffs { season: g.season });
                    actions.push(RefreshAction::UpdatePlayerStats);
                }
                actions.push(
                    RefreshAction::FetchStats {
                        league: g.league,
                        season: g.season,
                        game_uuid: g.game_uuid.clone(),
                        max_age_secs: REFRESH_MAX_AGE_SECS,
                    },
                );
                actions.push(
                    RefreshAction::FetchPlayers {
                        league: g.league,
                        game_uuid: g.game_uuid.clone(),
                        max_age_secs: REFRESH_MAX_AGE_SECS,
                    },
                );
            }
        }
        assert(views(actions@) =~= refresh_plan(msg@, views(all_games@)));
        actions
    }
}

/// The memory of spawned games never holds more games than its limit.
pub proof fn lemma_remembered_is_bounded(ids: Seq<Seq<char>>, sent: Seq<Seq<char>>, limit: nat)
    requires
        sent.len() <= limit,
    ensures
        remembered(ids, sent, limit).len() <= limit,
    decreases ids.len(),
{
    if ids.len() > 0 {
        lemma_remembered_is_bounded(ids.drop_last(), sent, limit);
    }
}

/// No listener is spawned for a game that is remembered at the start of a
/// round: a game that has finished and stays remembered is not listened to
/// again.
pub proof fn lemma_remembered_not_spawned(
    ids: Seq<Seq<char>>,
    sent: Seq<Seq<char>>,
    limit: nat,
    game: Seq<char>,
)
    requires
        sent.contains(game),
        ids.len() + sent.len() <= limit,
    ensures
        !spawned(ids, sent, limit).contains(game),
        remembered(ids, sent, limit).contains(game),
        remembered(ids, sent, limit).len() <= ids.len() + sent.len(),
    decreases ids.len(),
{
    if ids.len() > 0 {
        let front = ids.drop_last();
        lemma_remembered_not_spawned(front, sent, limit, game);
        let before = remembered(front, sent, limit);
        let k = choose|k: int| 0 <= k < before.len() && before[k] == game;
        if !before.contains(ids.last()) {
            let after = pushed_front(before, limit, ids.last());
            assert(after =~= seq![ids.last()] + before);
            assert(after[k + 1] == game);
            let s = spawned(front, sent, limit);
            if s.push(ids.last()).contains(game) {
                let j = choose|j: int|
                    0 <= j < s.push(ids.last()).len() && s.push(ids.last())[j] == game;
                if j < s.len() {
                    assert(s[j] == game);
                }
            }
        }
    }
}

} // verus!
