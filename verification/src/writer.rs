//! The writer: the one place where updates of reports are judged and
//! applied, and where events are taken in.

use vstd::prelude::*;
use crate::bus::{Msg, MsgView};
use crate::event::{ApiEventTypeLevel, ApiGameEvent, EventView};
use crate::game::{ApiGame, GameView};
use crate::registry::{ApiSeasonService, game_of, games_with_report};
use crate::report::{ApiGameReport, ReportView, UpdateReport, UpdateView};
use crate::state_machine::{ReportStateMachine, transition_event};
use crate::views::{lemma_filter_one, lemma_views_push, views};

verus! {

/// What the writer has done for it.
#[derive(Debug)]
pub enum WriterAction {
    /// Persist the report of the game.
    StoreReport { game_uuid: String, report: ApiGameReport },
    /// Tell the users of an event of the game, with alerts.
    Notify { game: ApiGame, event: ApiGameEvent },
    /// Refresh the live activities on the game, without alerts.
    RefreshLiveActivities { game: ApiGame },
    /// Put a message on the bus.
    Publish(Msg),
}

/// What a `WriterAction` holds.
pub enum WriterActionView {
    StoreReport { game_uuid: Seq<char>, report: ReportView },
    Notify { game: GameView, event: EventView },
    RefreshLiveActivities { game: GameView },
    Publish(MsgView),
}

impl View for WriterAction {
    type V = WriterActionView;

    open spec fn view(&self) -> WriterActionView {
        match self {
            WriterAction::StoreReport { game_uuid, report } => WriterActionView::StoreReport {
                game_uuid: game_uuid@,
                report: report@,
            },
            WriterAction::Notify { game, event } => WriterActionView::Notify {
                game: game@,
                event: event@,
            },
            WriterAction::RefreshLiveActivities { game } => WriterActionView::RefreshLiveActivities {
                game: game@,
            },
            WriterAction::Publish(msg) => WriterActionView::Publish(msg@),
        }
    }
}

/// The report that an update is laid over: the stored one, or the one that
/// stands for the game as the registry holds it.
pub open spec fn prior_report(stored: Option<ReportView>, game: Option<GameView>) -> Option<
    ReportView,
> {
    match stored {
        Some(r) => Some(r),
        None => match game {
            Some(g) => Some(g.default_report()),
            None => None,
        },
    }
}

/// Whether the writer accepts `update` over `old`: the report that results
/// is a valid successor of `old`, or the update is forced.
pub open spec fn accepts(old: ReportView, update: UpdateView, forced: bool) -> bool {
    update.merged(old).valid_update(old) || forced
}

/// What the writer does with the update `update` of the game `game_uuid`
/// over the report `old`, given the games of the current season.
///
/// An update that is not accepted is dropped. An accepted one is persisted
/// and laid over the game in the registry; where the registry holds the
/// game, the users are told of the event that the change means, or their
/// live activities are refreshed where it means none; and at the end the
/// new report is put on the bus.
pub open spec fn update_actions(
    old: ReportView,
    update: UpdateView,
    game_uuid: Seq<char>,
    forced: bool,
    games: Seq<GameView>,
) -> Seq<WriterActionView> {
    let report = update.merged(old);
    if !accepts(old, update, forced) {
        Seq::empty()
    } else {
        let told = match game_of(games, report.game_uuid) {
            Some(g) => match transition_event(report, old) {
                Some(event) => seq![
                    WriterActionView::Notify { game: g.with_report(report), event },
                ],
                None => seq![
                    WriterActionView::RefreshLiveActivities { game: g.with_report(report) },
                ],
            },
            None => Seq::empty(),
        };
        seq![WriterActionView::StoreReport { game_uuid, report }] + told + seq![
            WriterActionView::Publish(MsgView::ReportUpdated { report, game_uuid }),
        ]
    }
}

/// What the writer does with the event `event` of the game `game_uuid`: it
/// tells the users of it, unless the event is of the lowest level or the
/// registry does not hold the game, and puts it on the bus.
pub open spec fn event_actions(event: EventView, game_uuid: Seq<char>, games: Seq<GameView>) -> Seq<
    WriterActionView,
> {
    let told = if event.info.level() != ApiEventTypeLevel::Low {
        match game_of(games, game_uuid) {
            Some(game) => seq![WriterActionView::Notify { game, event }],
            None => Seq::empty(),
        }
    } else {
        Seq::empty()
    };
    told + seq![WriterActionView::Publish(MsgView::EventUpdated { event, game_uuid })]
}

/// What the writer does on the bus message `msg`, given the stored report
/// of the message's game and the games of the current season. Only updates
/// of reports and events are the writer's business. Nothing is said of an
/// update of a report for which no prior report is known.
pub open spec fn msg_actions(msg: MsgView, stored: Option<ReportView>, games: Seq<GameView>) -> Option<
    Seq<WriterActionView>,
> {
    match msg {
        MsgView::UpdateReport { report, game_uuid, forced } => match prior_report(
            stored,
            game_of(games, game_uuid),
        ) {
            Some(old) => Some(update_actions(old, report, game_uuid, forced, games)),
            None => None,
        },
        MsgView::AddEvent { event, game_uuid } => Some(event_actions(event, game_uuid, games)),
        _ => Some(Seq::empty()),
    }
}

/// The games of the current season after the writer has handled `msg`.
pub open spec fn games_after_msg(msg: MsgView, stored: Option<ReportView>, games: Seq<GameView>) -> Seq<
    GameView,
> {
    match msg {
        MsgView::UpdateReport { report, game_uuid, forced } => match prior_report(
            stored,
            game_of(games, game_uuid),
        ) {
            Some(old) => if accepts(old, report, forced) {
                games_with_report(games, report.merged(old))
            } else {
                games
            },
            None => games,
        },
        _ => games,
    }
}

/// The views of optional actions.
pub open spec fn opt_actions(actions: Option<Vec<WriterAction>>) -> Option<Seq<WriterActionView>> {
    match actions {
        Some(a) => Some(views(a@)),
        None => None,
    }
}

/// The view of an optional report.
pub open spec fn opt_report(report: Option<ApiGameReport>) -> Option<ReportView> {
    match report {
        Some(r) => Some(r@),
        None => None,
    }
}

/// The writer's rules.
pub struct Writer;

impl Writer {
    /// The report that an update of the game `game_uuid` is laid over:
    /// `stored`, the persisted report of the game, or the one that stands
    /// for the game as the registry holds it. Nothing where neither is known.
    pub fn prior_report(
        registry: &ApiSeasonService,
        stored: Option<ApiGameReport>,
        game_uuid: &str,
    ) -> (old: Option<ApiGameReport>)
        ensures
            opt_report(old) == prior_report(
                opt_report(stored),
                game_of(registry.current(), game_uuid@),
            ),
    {
        match stored {
            Some(r) => Some(r),
            None => match registry.read_current_season_game(game_uuid) {
                Some(game) => Some(ApiGameReport::default_from(game)),
                None => None,
            },
        }
    }

    /// Applies the update `update` of the game `game_uuid` over the report
    /// `old_report`: lays the report that results over the game in the
    /// registry, where the update is accepted, and returns what there is to
    /// do.
    pub fn on_update_report(
        registry: &mut ApiSeasonService,
        old_report: &ApiGameReport,
        update: &UpdateReport,
        game_uuid: &str,
        forced: bool,
    ) -> (actions: Vec<WriterAction>)
        ensures
            views(actions@) == update_actions(
                old_report@,
                update@,
                game_uuid@,
                forced,
                old(registry).current(),
            ),
            final(registry).rest() == old(registry).rest(),
            final(registry).current() == if accepts(old_report@, update@, forced) {
                games_with_report(old(registry).current(), update@.merged(old_report@))
            } else {
                old(registry).current()
            },
    {
        let mut actions: Vec<WriterAction> = Vec::new();
        assert(views(actions@) =~= Seq::<WriterActionView>::empty());
        let report = update.to_report(old_report);
        if !report.is_valid_update(old_report) && !forced {
            return actions;
        }
        let first = WriterAction::StoreReport {
            game_uuid: game_uuid.to_string(),
            report: report.clone(),
        };
        proof {
            lemma_views_push(actions@, first);
        }
        actions.push(first);
        let updated_api_game = registry.update_from_report(&report);
        if let Some(g) = updated_api_game {
            let told = match ReportStateMachine::process(&report, old_report) {
                Some(event) => WriterAction::Notify { game: g, event },
                None => WriterAction::RefreshLiveActivities { game: g },
            };
            proof {
                lemma_views_push(actions@, told);
            }
            actions.push(told);
        }
        let last = WriterAction::Publish(
            Msg::ReportUpdated { report, game_uuid: game_uuid.to_string() },
        );
        proof {
            lemma_views_push(actions@, last);
        }
        actions.push(last);
        assert(views(actions@) =~= update_actions(
            old_report@,
            update@,
            game_uuid@,
            forced,
            old(registry).current(),
        ));
        actions
    }

    /// Handles the bus message `msg`: `stored` is the persisted report of the
    /// message's game, if any. What there is to do is returned, or nothing
    /// where the message updates a report for which no prior report is
    /// known.
    pub fn on_msg(registry: &mut ApiSeasonService, stored: Option<ApiGameReport>, msg: Msg) -> (actions:
        Option<Vec<WriterAction>>)
        ensures
            opt_actions(actions) == msg_actions(msg@, opt_report(stored), old(registry).current()),
            final(registry).current() == games_after_msg(
                msg@,
                opt_report(stored),
                old(registry).current(),
            ),
            final(registry).rest() == old(registry).rest(),
    {
        match msg {
            Msg::UpdateReport { report, game_uuid, forced } => {
                match Writer::prior_report(registry, stored, game_uuid.as_str()) {
                    Some(old_report) => Some(
                        Writer::on_update_report(
                            registry,
                            &old_report,
                            &report,
                            game_uuid.as_str(),
                            forced,
                        ),
                    ),
                    None => None,
                }
            },
            Msg::AddEvent { event, game_uuid } => Some(
                Writer::on_add_event(registry, event, game_uuid.as_str()),
            ),
            _ => {
                let none: Vec<WriterAction> = Vec::new();
                assert(views(none@) =~= Seq::<WriterActionView>::empty());
                Some(none)
            },
        }
    }

    /// Takes the event `event` of the game `game_uuid` in and returns what
    /// there is to do.
    pub fn on_add_event(registry: &ApiSeasonService, event: ApiGameEvent, game_uuid: &str) -> (actions:
        Vec<WriterAction>)
        ensures
            views(actions@) == event_actions(event@, game_uuid@, registry.current()),
    {
        let mut actions: Vec<WriterAction> = Vec::new();
        assert(views(actions@) =~= Seq::<WriterActionView>::empty());
        if event.info.get_level() != ApiEventTypeLevel::Low {
            if let Some(game) = registry.read_current_season_game(game_uuid) {
                let told = WriterAction::Notify { game, event: event.clone() };
                proof {
                    lemma_views_push(actions@, told);
                }
                actions.push(told);
            }
        }
        let last = WriterAction::Publish(
            Msg::EventUpdated { event, game_uuid: game_uuid.to_string() },
        );
        proof {
            lemma_views_push(actions@, last);
        }
        actions.push(last);
        assert(views(actions@) =~= event_actions(event@, game_uuid@, registry.current()));
        actions
    }
}

/// An update is accepted exactly where the writer does something, and then
/// the last thing it does is to put the new report of that game on the bus:
/// the report is published before the writer turns to the next message.
pub proof fn lemma_accepted_update_is_published(
    old: ReportView,
    update: UpdateView,
    game_uuid: Seq<char>,
    forced: bool,
    games: Seq<GameView>,
)
    ensures
        accepts(old, update, forced) <==> update_actions(old, update, game_uuid, forced, games).len()
            > 0,
        accepts(old, update, forced) ==> update_actions(
            old,
            update,
            game_uuid,
            forced,
            games,
        ).last() == WriterActionView::Publish(
            MsgView::ReportUpdated { report: update.merged(old), game_uuid },
        ),
{
}

/// An update that is not forced is accepted only where the report that
/// results moves on from the old one: to a legal successor of its status,
/// or, within the status, in its game time, upwards in a score, or in a flag.
pub proof fn lemma_accepted_update_is_valid(old: ReportView, update: UpdateView)
    requires
        accepts(old, update, false),
    ensures
        old.status.legal_successors().contains(update.merged(old).status) || (update.merged(
            old,
        ).status == old.status && (update.merged(old).gametime != old.gametime || update.merged(
            old,
        ).home_team_result > old.home_team_result || update.merged(old).away_team_result
            > old.away_team_result || update.merged(old).overtime != old.overtime || update.merged(
            old,
        ).shootout != old.shootout)),
{
    crate::report::lemma_accepted_update_moves(update.merged(old), old);
}

/// An update that was accepted and is sent again unchanged is dropped: the
/// writer does nothing on it.
pub proof fn lemma_repeated_update_is_dropped(
    old: ReportView,
    update: UpdateView,
    game_uuid: Seq<char>,
    games: Seq<GameView>,
)
    ensures
        update_actions(update.merged(old), update, game_uuid, false, games).len() == 0,
{
    crate::report::lemma_repeated_update_rejected(update, old);
}

/// Whether an action tells the users of something: with an alert, or by
/// refreshing their live activities.
pub open spec fn tells(action: WriterActionView) -> bool {
    action is Notify || action is RefreshLiveActivities
}

/// The users are told once of every accepted update of a game that the
/// registry holds, and of no other update: an update that is rejected tells
/// nothing.
pub proof fn lemma_update_tells_once(
    old: ReportView,
    update: UpdateView,
    game_uuid: Seq<char>,
    forced: bool,
    games: Seq<GameView>,
)
    ensures
        update_actions(old, update, game_uuid, forced, games).filter(
            |a: WriterActionView| tells(a),
        ).len() == if accepts(old, update, forced) && game_of(
            games,
            update.merged(old).game_uuid,
        ) is Some {
            1nat
        } else {
            0nat
        },
{
    let telling = |a: WriterActionView| tells(a);
    let report = update.merged(old);
    let actions = update_actions(old, update, game_uuid, forced, games);
    if !accepts(old, update, forced) {
        actions.lemma_filter_len(telling);
    } else {
        let first = WriterActionView::StoreReport { game_uuid, report };
        let last = WriterActionView::Publish(MsgView::ReportUpdated { report, game_uuid });
        lemma_filter_one(first, telling);
        lemma_filter_one(last, telling);
        match game_of(games, report.game_uuid) {
            Some(g) => {
                let told = match transition_event(report, old) {
                    Some(event) => WriterActionView::Notify { game: g.with_report(report), event },
                    None => WriterActionView::RefreshLiveActivities { game: g.with_report(report) },
                };
                lemma_filter_one(told, telling);
                Seq::filter_distributes_over_add(seq![first], seq![told], telling);
                Seq::filter_distributes_over_add(seq![first] + seq![told], seq![last], telling);
                assert(actions == seq![first] + seq![told] + seq![last]);
            },
            None => {
                let none = Seq::<WriterActionView>::empty();
                none.lemma_filter_len(telling);
                Seq::filter_distributes_over_add(seq![first], none, telling);
                Seq::filter_distributes_over_add(seq![first] + none, seq![last], telling);
                assert(actions == seq![first] + none + seq![last]);
            },
        }
    }
}

/// The users are told once of every event above the lowest level of a game
/// that the registry holds, and of no other event.
pub proof fn lemma_event_tells_once(event: EventView, game_uuid: Seq<char>, games: Seq<GameView>)
    ensures
        event_actions(event, game_uuid, games).filter(|a: WriterActionView| tells(a)).len() == if event.info.level()
            != ApiEventTypeLevel::Low && game_of(games, game_uuid) is Some {
            1nat
        } else {
            0nat
        },
{
    let telling = |a: WriterActionView| tells(a);
    let last = WriterActionView::Publish(MsgView::EventUpdated { event, game_uuid });
    lemma_filter_one(last, telling);
    let told = if event.info.level() != ApiEventTypeLevel::Low {
        match game_of(games, game_uuid) {
            Some(game) => seq![WriterActionView::Notify { game, event }],
            None => Seq::empty(),
        }
    } else {
        Seq::empty()
    };
    if told.len() == 0 {
        told.lemma_filter_len(telling);
    } else {
        lemma_filter_one(told[0], telling);
        assert(told =~= seq![told[0]]);
    }
    Seq::filter_distributes_over_add(told, seq![last], telling);
}

/// A finished game stays finished: an update that is accepted without
/// force over a finished report gives a finished report, so the report that
/// the writer then stores and lays over the game is finished.
pub proof fn lemma_finished_stays_finished(old: ReportView, update: UpdateView)
    requires
        old.status == crate::report::GameStatus::Finished,
        accepts(old, update, false),
    ensures
        update.merged(old).status == crate::report::GameStatus::Finished,
{
    crate::report::lemma_finished_is_terminal(update.merged(old), old);
}

} // verus!
