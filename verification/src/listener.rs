//! The live listener of one game: which messages a frame of the live stream
//! carries, what they mean on the bus, and what happens when the stream
//! falls silent.

use vstd::prelude::*;
use crate::bus::{Msg, MsgView};
use crate::event::ApiGameEvent;
use crate::event_store::{
    EventService, fresh_of, holds_id, index_of_number, stored, stored_all, stored_older,
};
use crate::game::{ApiGame, GameView};
use crate::provider::{
    Action, SseGameTime, GameReport, GameTime, LiveEvent, LiveEventView, LiveState, LiveStateEvent, PlayByPlay,
    PlayByPlayView, SseEvent, TeamStatistics,
};
use crate::report::{GameStatus, UpdateReport, UpdateView};
use crate::text::str_eq;
use crate::views::{lemma_filter_one, lemma_views_push, views};

verus! {

/// The seconds without a message after which a listener gives up.
pub const IDLE_TIMEOUT_SECS: u64 = 300;

/// The seconds between two rounds of a polling listener.
pub const POLL_INTERVAL_SECS: u64 = 10;

/// A message of the live stream, taken out of a frame.
#[derive(Debug)]
pub enum SseMsg {
    Report(GameReport),
    GameTime(GameTime),
    Event(PlayByPlay),
    LiveEvent(LiveEvent),
    TeamStats(TeamStatistics),
    LiveState(LiveStateEvent),
}

/// The state of a listener between two frames: the revision of the last
/// report and the hash of the last play-by-play entry that it saw.
#[derive(Debug)]
pub struct SseClient {
    pub last_report_id: u16,
    pub last_event_id: String,
}

/// The report of a frame, unless it repeats the revision seen last.
pub open spec fn report_part(report: Option<GameReport>, last_report_id: u16) -> Seq<SseMsg> {
    match report {
        Some(report) => if report.revision != last_report_id {
            seq![SseMsg::Report(report)]
        } else {
            Seq::empty()
        },
        None => Seq::empty(),
    }
}

/// The first play-by-play entry of a frame, unless it repeats the hash seen
/// last.
pub open spec fn event_part(batch: Option<Action>, last_event_id: Seq<char>) -> Seq<SseMsg> {
    match batch {
        Some(batch) => if batch.actions@[0].hash@ != last_event_id {
            seq![SseMsg::Event(batch.actions@[0])]
        } else {
            Seq::empty()
        },
        None => Seq::empty(),
    }
}

/// The live event and the clock of a frame, in this order. A clock without
/// period or time is left out.
pub open spec fn moment_part(live_event: Option<LiveEvent>, game_time: Option<SseGameTime>) -> Seq<
    SseMsg,
> {
    let live_event = match live_event {
        Some(e) => seq![SseMsg::LiveEvent(e)],
        None => Seq::empty(),
    };
    let game_time = match game_time {
        Some(t) => match t.game_time() {
            Some(clock) => seq![SseMsg::GameTime(clock)],
            None => Seq::empty(),
        },
        None => Seq::empty(),
    };
    live_event + game_time
}

/// The team statistics and the live state of a frame, in this order.
pub open spec fn state_part(
    team_stats: Option<TeamStatistics>,
    live_state: Option<LiveStateEvent>,
) -> Seq<SseMsg> {
    let team_stats = match team_stats {
        Some(s) => seq![SseMsg::TeamStats(s)],
        None => Seq::empty(),
    };
    let live_state = match live_state {
        Some(s) => seq![SseMsg::LiveState(s)],
        None => Seq::empty(),
    };
    team_stats + live_state
}

/// The messages that a frame carries for a listener that saw the report
/// revision `last_report_id` and the play-by-play hash `last_event_id` last:
/// the report, the first play-by-play entry, the live event, the clock, the
/// team statistics and the live state, as far as the frame holds them.
pub open spec fn frame_messages(
    frame: SseEvent,
    last_report_id: u16,
    last_event_id: Seq<char>,
) -> Seq<SseMsg> {
    report_part(frame.gameReport, last_report_id) + event_part(frame.playByPlay, last_event_id)
        + moment_part(frame.liveEvent, frame.gameTime) + state_part(
        frame.teamStatistics,
        frame.liveState,
    )
}

impl SseClient {
    /// A listener that has seen nothing yet.
    pub fn new() -> (client: SseClient)
        ensures
            client.last_report_id == 0,
            client.last_event_id@.len() == 0,
    {
        SseClient { last_report_id: 0, last_event_id: String::new() }
    }

    fn take_report(&mut self, report: Option<GameReport>) -> (msgs: Vec<SseMsg>)
        ensures
            msgs@ == report_part(report, old(self).last_report_id),
            final(self).last_report_id == match report {
                Some(report) => report.revision,
                None => old(self).last_report_id,
            },
            final(self).last_event_id == old(self).last_event_id,
    {
        let mut msgs: Vec<SseMsg> = Vec::new();
        if let Some(report) = report {
            let revision = report.revision;
            if revision != self.last_report_id {
                msgs.push(SseMsg::Report(report));
            }
            self.last_report_id = revision;
        }
        assert(msgs@ =~= report_part(report, old(self).last_report_id));
        msgs
    }

    fn take_event(&mut self, batch: Option<Action>) -> (msgs: Vec<SseMsg>)
        requires
            batch matches Some(b) ==> b.actions@.len() > 0,
        ensures
            msgs@ == event_part(batch, old(self).last_event_id@),
            final(self).last_event_id@ == match batch {
                Some(b) => b.actions@[0].hash@,
                None => old(self).last_event_id@,
            },
            final(self).last_report_id == old(self).last_report_id,
    {
        let mut msgs: Vec<SseMsg> = Vec::new();
        if let Some(batch) = batch {
            let mut actions = batch.actions;
            let event = actions.remove(0);
            let hash = event.hash.clone();
            if !str_eq(hash.as_str(), self.last_event_id.as_str()) {
                msgs.push(SseMsg::Event(event));
            }
            self.last_event_id = hash;
        }
        assert(msgs@ =~= event_part(batch, old(self).last_event_id@));
        msgs
    }

    fn take_moment(live_event: Option<LiveEvent>, game_time: Option<SseGameTime>) -> (msgs: Vec<
        SseMsg,
    >)
        ensures
            msgs@ == moment_part(live_event, game_time),
    {
        let mut msgs: Vec<SseMsg> = Vec::new();
        if let Some(live_event) = live_event {
            msgs.push(SseMsg::LiveEvent(live_event));
        }
        if let Some(game_time) = game_time {
            if let Some(clock) = game_time.into_game_time() {
                msgs.push(SseMsg::GameTime(clock));
            }
        }
        assert(msgs@ =~= moment_part(live_event, game_time));
        msgs
    }

    fn take_state(team_stats: Option<TeamStatistics>, live_state: Option<LiveStateEvent>) -> (msgs:
        Vec<SseMsg>)
        ensures
            msgs@ == state_part(team_stats, live_state),
    {
        let mut msgs: Vec<SseMsg> = Vec::new();
        if let Some(team_stats) = team_stats {
            msgs.push(SseMsg::TeamStats(team_stats));
        }
        if let Some(live_state) = live_state {
            msgs.push(SseMsg::LiveState(live_state));
        }
        assert(msgs@ =~= state_part(team_stats, live_state));
        msgs
    }

    /// Takes the messages out of a frame, in the order in which they are
    /// passed on, and remembers the report revision and the play-by-play hash
    /// of the frame.
    ///
    /// A play-by-play batch of a frame holds at least one entry.
    pub fn on_frame(&mut self, frame: SseEvent) -> (msgs: Vec<SseMsg>)
        requires
            frame.playByPlay matches Some(batch) ==> batch.actions@.len() > 0,
        ensures
            msgs@ == frame_messages(frame, old(self).last_report_id, old(self).last_event_id@),
            final(self).last_report_id == match frame.gameReport {
                Some(report) => report.revision,
                None => old(self).last_report_id,
            },
            final(self).last_event_id@ == match frame.playByPlay {
                Some(batch) => batch.actions@[0].hash@,
                None => old(self).last_event_id@,
            },
    {
        let SseEvent { gameReport, playByPlay, gameTime, liveEvent, teamStatistics, liveState } =
            frame;
        let mut msgs = self.take_report(gameReport);
        let mut events = self.take_event(playByPlay);
        let mut moment = SseClient::take_moment(liveEvent, gameTime);
        let mut state = SseClient::take_state(teamStatistics, liveState);
        msgs.append(&mut events);
        msgs.append(&mut moment);
        msgs.append(&mut state);
        msgs
    }
}

/// The update that a clock message means: the time of the period, and the
/// status of play in that period.
pub open spec fn clock_update(clock: GameTime) -> UpdateView {
    UpdateView {
        gametime: Some(clock.periodTime@),
        status: Some(GameStatus::of_period(clock.period@.num())),
        ..UpdateView::empty()
    }
}

/// The update that says that the game is finished.
pub open spec fn finished_update() -> UpdateView {
    UpdateView { status: Some(GameStatus::Finished), ..UpdateView::empty() }
}

/// What a message of the live stream of the game `game_uuid` means on the
/// bus, given the stored logs of the game.
///
/// A report and a clock each mean an update of the report. An event of the
/// live stream that is new to `live_log` means an update of the report and
/// then the event itself; one that is stored already means nothing. A
/// play-by-play entry means its event where it is new to `older_log`. A live
/// state means the end of the game where it says that the game is decided.
/// Team statistics mean nothing.
pub open spec fn sse_bus_messages(
    game_uuid: Seq<char>,
    msg: SseMsg,
    live_log: Seq<LiveEventView>,
    older_log: Seq<PlayByPlayView>,
) -> Seq<MsgView> {
    match msg {
        SseMsg::Report(report) => seq![
            MsgView::UpdateReport { report: report@.to_update(), game_uuid, forced: false },
        ],
        SseMsg::Event(entry) => if index_of_number(older_log, entry.eventId) >= older_log.len() {
            seq![MsgView::AddEvent { event: entry@.mapped(game_uuid), game_uuid }]
        } else {
            Seq::empty()
        },
        SseMsg::LiveEvent(event) => if !holds_id(live_log, event@.event_id()) {
            seq![
                MsgView::UpdateReport { report: event@.to_update(), game_uuid, forced: false },
                MsgView::AddEvent { event: event@.to_api_event(), game_uuid },
            ]
        } else {
            Seq::empty()
        },
        SseMsg::TeamStats(_) => Seq::empty(),
        SseMsg::GameTime(clock) => seq![
            MsgView::UpdateReport { report: clock_update(clock), game_uuid, forced: false },
        ],
        SseMsg::LiveState(state) => if state.liveState == LiveState::Decided {
            seq![MsgView::UpdateReport { report: finished_update(), game_uuid, forced: false }]
        } else {
            Seq::empty()
        },
    }
}

/// What a listener does.
#[derive(Debug)]
pub enum ListenerAction {
    /// Put a message on the bus.
    Publish(Msg),
    /// Take every reference to the game out of the user store.
    RemoveReferences { game_uuid: String },
    /// Ask for a new listener for the game.
    Respawn { game_uuid: String },
    /// Fetch the details of the game afresh, past every cache.
    RefreshDetails { game_uuid: String },
    /// End this listener.
    Stop,
}

/// What a `ListenerAction` holds.
pub enum ListenerActionView {
    Publish(MsgView),
    RemoveReferences { game_uuid: Seq<char> },
    Respawn { game_uuid: Seq<char> },
    RefreshDetails { game_uuid: Seq<char> },
    Stop,
}

impl View for ListenerAction {
    type V = ListenerActionView;

    open spec fn view(&self) -> ListenerActionView {
        match self {
            ListenerAction::Publish(msg) => ListenerActionView::Publish(msg@),
            ListenerAction::RemoveReferences { game_uuid } => ListenerActionView::RemoveReferences {
                game_uuid: game_uuid@,
            },
            ListenerAction::Respawn { game_uuid } => ListenerActionView::Respawn {
                game_uuid: game_uuid@,
            },
            ListenerAction::RefreshDetails { game_uuid } => ListenerActionView::RefreshDetails {
                game_uuid: game_uuid@,
            },
            ListenerAction::Stop => ListenerActionView::Stop,
        }
    }
}

/// What a listener of the game `game_uuid` does when no message has come for
/// five minutes, given the game as the registry holds it.
///
/// Where the game is finished, the listener clears the references to it,
/// says on the bus that it has closed, and ends. In every other case it asks
/// for a new listener, has the details of the game fetched afresh, and ends.
pub open spec fn idle_actions(game_uuid: Seq<char>, game: Option<GameView>) -> Seq<
    ListenerActionView,
> {
    if game matches Some(g) && g.status == GameStatus::Finished {
        seq![
            ListenerActionView::RemoveReferences { game_uuid },
            ListenerActionView::Publish(MsgView::SseClosed { game_uuid }),
            ListenerActionView::Stop,
        ]
    } else {
        seq![
            ListenerActionView::Respawn { game_uuid },
            ListenerActionView::RefreshDetails { game_uuid },
            ListenerActionView::Stop,
        ]
    }
}

/// What the new events `fresh` of the game `game_uuid` mean on the bus: for
/// each of them, oldest first, the update of the report that it implies and
/// then the event itself.
pub open spec fn event_pairs(game_uuid: Seq<char>, fresh: Seq<LiveEventView>) -> Seq<MsgView>
    decreases fresh.len(),
{
    if fresh.len() == 0 {
        Seq::empty()
    } else {
        event_pairs(game_uuid, fresh.drop_last()).push(
            MsgView::UpdateReport { report: fresh.last().to_update(), game_uuid, forced: false },
        ).push(MsgView::AddEvent { event: fresh.last().to_api_event(), game_uuid })
    }
}

/// The messages of one round of a polling listener of the game `game_uuid`:
/// the fetched update of the report, where there is one, and then what the
/// new events mean.
pub open spec fn poll_messages(
    game_uuid: Seq<char>,
    report: Option<UpdateView>,
    fresh: Seq<LiveEventView>,
) -> Seq<MsgView> {
    let fetched = match report {
        Some(r) => seq![MsgView::UpdateReport { report: r, game_uuid, forced: false }],
        None => Seq::empty(),
    };
    fetched + event_pairs(game_uuid, fresh)
}

/// The listeners' rules.
pub struct Listener;

impl Listener {
    /// Handles one message of the live stream of the game `game_uuid`:
    /// stores the event that it carries, if any, in the log of the game, and
    /// returns the messages to put on the bus.
    pub fn handle_sse_msg(
        game_uuid: &str,
        msg: SseMsg,
        live_log: &mut Vec<LiveEvent>,
        older_log: &mut Vec<PlayByPlay>,
    ) -> (out: Vec<Msg>)
        ensures
            views(out@) == sse_bus_messages(
                game_uuid@,
                msg,
                views(old(live_log)@),
                views(old(older_log)@),
            ),
            views(final(live_log)@) == match msg {
                SseMsg::LiveEvent(event) => stored(views(old(live_log)@), event@),
                _ => views(old(live_log)@),
            },
            views(final(older_log)@) == match msg {
                SseMsg::Event(entry) => stored_older(views(old(older_log)@), entry@),
                _ => views(old(older_log)@),
            },
    {
        let mut out: Vec<Msg> = Vec::new();
        assert(views(out@) =~= Seq::<MsgView>::empty());
        match msg {
            SseMsg::Report(raw_report) => {
                let m = Msg::UpdateReport {
                    report: UpdateReport::from_game_report(&raw_report),
                    game_uuid: game_uuid.to_string(),
                    forced: false,
                };
                proof {
                    lemma_views_push(out@, m);
                }
                out.push(m);
            },
            SseMsg::Event(raw_event) => {
                let new_event = EventService::store_older_raw(older_log, &raw_event);
                let event = raw_event.into_mapped_event(game_uuid);
                if new_event {
                    let m = Msg::AddEvent { event, game_uuid: game_uuid.to_string() };
                    proof {
                        lemma_views_push(out@, m);
                    }
                    out.push(m);
                }
            },
            SseMsg::LiveEvent(live_event) => {
                let new_event = EventService::store_raw(live_log, &live_event);
                if new_event {
                    let first = Msg::UpdateReport {
                        report: UpdateReport::from(&live_event),
                        game_uuid: game_uuid.to_string(),
                        forced: false,
                    };
                    proof {
                        lemma_views_push(out@, first);
                    }
                    out.push(first);
                    let second = Msg::AddEvent {
                        event: ApiGameEvent::from_live_event(&live_event),
                        game_uuid: game_uuid.to_string(),
                    };
                    proof {
                        lemma_views_push(out@, second);
                    }
                    out.push(second);
                }
            },
            SseMsg::TeamStats(_) => {},
            SseMsg::GameTime(game_time) => {
                let report = UpdateReport {
                    gametime: Some(game_time.periodTime.clone()),
                    status: Some(GameStatus::from_period(game_time.period.to_num())),
                    home_team_result: None,
                    away_team_result: None,
                    overtime: None,
                    shootout: None,
                };
                let m = Msg::UpdateReport { report, game_uuid: game_uuid.to_string(), forced: false };
                proof {
                    lemma_views_push(out@, m);
                }
                out.push(m);
            },
            SseMsg::LiveState(live_state) => {
                if live_state.liveState == LiveState::Decided {
                    let report = UpdateReport {
                        gametime: None,
                        status: Some(GameStatus::Finished),
                        home_team_result: None,
                        away_team_result: None,
                        overtime: None,
                        shootout: None,
                    };
                    let m = Msg::UpdateReport {
                        report,
                        game_uuid: game_uuid.to_string(),
                        forced: false,
                    };
                    proof {
                        lemma_views_push(out@, m);
                    }
                    out.push(m);
                }
            },
        }
        out
    }

    /// What a listener of the game `game_uuid` does when no message has come
    /// for five minutes.
    pub fn on_idle(game_uuid: &str, game: Option<&ApiGame>) -> (actions: Vec<ListenerAction>)
        ensures
            views(actions@) == idle_actions(
                game_uuid@,
                match game {
                    Some(g) => Some(g@),
                    None => None,
                },
            ),
    {
        let finished = match game {
            Some(g) => g.status == GameStatus::Finished,
            None => false,
        };
        let mut actions: Vec<ListenerAction> = Vec::new();
        if finished {
            actions.push(ListenerAction::RemoveReferences { game_uuid: game_uuid.to_string() });
            actions.push(
                ListenerAction::Publish(Msg::SseClosed { game_uuid: game_uuid.to_string() }),
            );
            actions.push(ListenerAction::Stop);
        } else {
            actions.push(ListenerAction::Respawn { game_uuid: game_uuid.to_string() });
            actions.push(ListenerAction::RefreshDetails { game_uuid: game_uuid.to_string() });
            actions.push(ListenerAction::Stop);
        }
        assert(views(actions@) =~= idle_actions(
            game_uuid@,
            match game {
                Some(g) => Some(g@),
                None => None,
            },
        ));
        actions
    }

    /// Handles one round of a polling listener of the game `game`: `fetched`
    /// is the update of the report that was fetched, `events` the events that
    /// were fetched, newest first. The events are stored in the log of the
    /// game, oldest first; the messages to put on the bus are returned, and
    /// whether the listener ends after this round, which it does once the
    /// game is finished.
    pub fn poll_round(
        game: &ApiGame,
        fetched: Option<UpdateReport>,
        events: Vec<LiveEvent>,
        live_log: &mut Vec<LiveEvent>,
    ) -> (out: (Vec<Msg>, bool))
        ensures
            views(final(live_log)@) == stored_all(
                views(old(live_log)@),
                views(events@).reverse(),
            ),
            views(out.0@) == poll_messages(
                game@.game_uuid,
                match fetched {
                    Some(r) => Some(r@),
                    None => None,
                },
                fresh_of(views(old(live_log)@), views(events@).reverse()),
            ),
            out.1 == (game@.status == GameStatus::Finished),
    {
        let mut oldest_first: Vec<LiveEvent> = Vec::new();
        let mut k: usize = events.len();
        while k > 0
            invariant
                k <= events.len(),
                oldest_first.len() == events.len() - k,
                forall|j: int| 0 <= j < oldest_first.len() ==> (#[trigger] oldest_first@[j])@ == events@[events.len() - 1 - j]@,
            decreases k,
        {
            k -= 1;
            oldest_first.push(events[k].clone());
        }
        assert(views(oldest_first@) =~= views(events@).reverse());
        let new_events = EventService::store_raws(live_log, &oldest_first);
        let ghost fresh = views(new_events@);
        let ghost uuid = game@.game_uuid;
        let mut out: Vec<Msg> = Vec::new();
        assert(views(out@) =~= Seq::<MsgView>::empty());
        if let Some(report) = fetched {
            let m = Msg::UpdateReport { report, game_uuid: game.game_uuid.clone(), forced: false };
            proof {
                lemma_views_push(out@, m);
            }
            out.push(m);
        }
        let ghost head = views(out@);
        assert(fresh.take(0) =~= Seq::<LiveEventView>::empty());
        assert(head + event_pairs(uuid, fresh.take(0)) =~= head);
        let mut i: usize = 0;
        while i < new_events.len()
            invariant
                i <= new_events.len(),
                fresh == views(new_events@),
                uuid == game@.game_uuid,
                views(out@) == head + event_pairs(uuid, fresh.take(i as int)),
            decreases new_events.len() - i,
        {
            let implied = Msg::UpdateReport {
                report: UpdateReport::from(&new_events[i]),
                game_uuid: game.game_uuid.clone(),
                forced: false,
            };
            proof {
                lemma_views_push(out@, implied);
            }
            out.push(implied);
            let m = Msg::AddEvent {
                event: ApiGameEvent::from_live_event(&new_events[i]),
                game_uuid: game.game_uuid.clone(),
            };
            proof {
                lemma_views_push(out@, m);
                assert(fresh.take(i + 1).drop_last() =~= fresh.take(i as int));
                assert(fresh.take(i + 1).last() == new_events@[i as int]@);
                assert(head + event_pairs(uuid, fresh.take(i + 1)) =~= (head + event_pairs(
                    uuid,
                    fresh.take(i as int),
                )).push(implied@).push(m@));
            }
            out.push(m);
            i += 1;
        }
        assert(fresh.take(new_events.len() as int) =~= fresh);
        (out, game.status == GameStatus::Finished)
    }
}

/// An idle listener asks for its successor once, unless its game is
/// finished: then it asks for none. Either way the last thing it does is
/// to end.
pub proof fn lemma_idle_listener_restarts_once(game_uuid: Seq<char>, game: Option<GameView>)
    ensures
        idle_actions(game_uuid, game).last() == ListenerActionView::Stop,
        idle_actions(game_uuid, game).filter(|a: ListenerActionView| a is Respawn) == if game matches Some(
            g,
        ) && g.status == GameStatus::Finished {
            Seq::<ListenerActionView>::empty()
        } else {
            seq![ListenerActionView::Respawn { game_uuid }]
        },
{
    let asks = |a: ListenerActionView| a is Respawn;
    let actions = idle_actions(game_uuid, game);
    let (first, second) = (actions[0], actions[1]);
    lemma_filter_one(first, asks);
    lemma_filter_one(second, asks);
    lemma_filter_one(ListenerActionView::Stop, asks);
    Seq::filter_distributes_over_add(seq![first], seq![second], asks);
    Seq::filter_distributes_over_add(
        seq![first] + seq![second],
        seq![ListenerActionView::Stop],
        asks,
    );
    assert(actions =~= seq![first] + seq![second] + seq![ListenerActionView::Stop]);
    assert(seq![first] + Seq::<ListenerActionView>::empty() =~= seq![first]);
    assert(Seq::<ListenerActionView>::empty() + Seq::<ListenerActionView>::empty()
        =~= Seq::<ListenerActionView>::empty());
}

} // verus!
