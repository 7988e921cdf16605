//! The report state machine: which high-level event a change of report means.

use vstd::prelude::*;
use crate::event::{ApiEventType, ApiGameEvent, EventInfoView, EventView, GameEndInfo};
use crate::report::{ApiGameReport, GameStatus, ReportView};

verus! {

/// The event that starts the game of `report`.
pub open spec fn game_start_event(report: ReportView) -> EventView {
    EventView {
        game_uuid: report.game_uuid,
        event_id: "GameStarted"@,
        revision: 1,
        status: GameStatus::Period1,
        gametime: "00:00"@,
        description: "Nedsläpp"@,
        info: EventInfoView::GameStart,
    }
}

/// The event that ends the game of `report`, with the winner as the scores
/// of `report` stand.
pub open spec fn game_end_event(report: ReportView) -> EventView {
    EventView {
        game_uuid: report.game_uuid,
        event_id: "GameEnded"@,
        revision: 1,
        status: GameStatus::Finished,
        gametime: report.gametime,
        description: "Matchen slutade"@,
        info: EventInfoView::GameEnd(report.winner()),
    }
}

/// The high-level event that the step from `old` to `new` means: the start of
/// the game on the step from `Coming` to `Period1`, its end on a step from
/// any other state to `Finished`, and none on every other step.
pub open spec fn transition_event(new: ReportView, old: ReportView) -> Option<EventView> {
    if old.status == GameStatus::Coming && new.status == GameStatus::Period1 {
        Some(game_start_event(new))
    } else if old.status != GameStatus::Finished && new.status == GameStatus::Finished {
        Some(game_end_event(new))
    } else {
        None
    }
}

/// The view of an optional event.
pub open spec fn opt_event(event: Option<ApiGameEvent>) -> Option<EventView> {
    match event {
        Some(e) => Some(e@),
        None => None,
    }
}

/// The report state machine.
pub struct ReportStateMachine {}

impl ReportStateMachine {
    /// The high-level event that the step from `old_report` to `report`
    /// means.
    pub fn process(report: &ApiGameReport, old_report: &ApiGameReport) -> (event: Option<
        ApiGameEvent,
    >)
        ensures
            opt_event(event) == transition_event(report@, old_report@),
    {
        let last_status = old_report.status;
        if last_status == GameStatus::Coming && report.status == GameStatus::Period1 {
            Some(
                ApiGameEvent {
                    game_uuid: report.game_uuid.clone(),
                    event_id: "GameStarted".to_string(),
                    revision: 1,
                    status: GameStatus::Period1,
                    gametime: "00:00".to_string(),
                    description: "Nedsläpp".to_string(),
                    info: ApiEventType::GameStart,
                },
            )
        } else if last_status != GameStatus::Finished && report.status == GameStatus::Finished {
            Some(
                ApiGameEvent {
                    game_uuid: report.game_uuid.clone(),
                    event_id: "GameEnded".to_string(),
                    revision: 1,
                    status: GameStatus::Finished,
                    gametime: report.gametime.clone(),
                    description: "Matchen slutade".to_string(),
                    info: ApiEventType::GameEnd(GameEndInfo { winner: report.get_winner() }),
                },
            )
        } else {
            None
        }
    }
}

/// A step means an event only where the status changes, and the event is of
/// the highest level.
pub proof fn lemma_transition_event_is_high(new: ReportView, old: ReportView)
    ensures
        transition_event(new, old) matches Some(e) ==> new.status != old.status
            && e.info.level() == crate::event::ApiEventTypeLevel::High,
{
}

} // verus!
