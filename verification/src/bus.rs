//! The messages that the components pass to each other over the bus.

use vstd::prelude::*;
use crate::event::{ApiGameEvent, EventView};
use crate::report::{ApiGameReport, ReportView, UpdateReport, UpdateView};

verus! {

/// The number of messages that the bus holds for a consumer before it drops
/// the oldest.
pub const BUS_CAPACITY: usize = 1000;

/// A message on the bus.
#[derive(Debug)]
#[allow(inconsistent_fields)]
pub enum Msg {
    /// A listener saw an event.
    AddEvent { event: ApiGameEvent, game_uuid: String },
    /// A listener saw a change of a report. A forced update is applied even
    /// where the validity rule would refuse it.
    UpdateReport { report: UpdateReport, game_uuid: String, forced: bool },
    /// A listener ended for good.
    SseClosed { game_uuid: String },
    /// The writer applied a change of a report.
    ReportUpdated { report: ApiGameReport, game_uuid: String },
    /// The writer took an event in.
    EventUpdated { event: ApiGameEvent, game_uuid: String },
}

/// What a `Msg` holds.
#[allow(inconsistent_fields)]
pub enum MsgView {
    AddEvent { event: EventView, game_uuid: Seq<char> },
    UpdateReport { report: UpdateView, game_uuid: Seq<char>, forced: bool },
    SseClosed { game_uuid: Seq<char> },
    ReportUpdated { report: ReportView, game_uuid: Seq<char> },
    EventUpdated { event: EventView, game_uuid: Seq<char> },
}

impl View for Msg {
    type V = MsgView;

    open spec fn view(&self) -> MsgView {
        match self {
            Msg::AddEvent { event, game_uuid } => MsgView::AddEvent {
                event: event@,
                game_uuid: game_uuid@,
            },
            Msg::UpdateReport { report, game_uuid, forced } => MsgView::UpdateReport {
                report: report@,
                game_uuid: game_uuid@,
                forced: *forced,
            },
            Msg::SseClosed { game_uuid } => MsgView::SseClosed { game_uuid: game_uuid@ },
            Msg::ReportUpdated { report, game_uuid } => MsgView::ReportUpdated {
                report: report@,
                game_uuid: game_uuid@,
            },
            Msg::EventUpdated { event, game_uuid } => MsgView::EventUpdated {
                event: event@,
                game_uuid: game_uuid@,
            },
        }
    }
}

impl MsgView {
    /// The game that the message is about.
    pub open spec fn game_uuid(self) -> Seq<char> {
        match self {
            MsgView::AddEvent { event, game_uuid } => game_uuid,
            MsgView::UpdateReport { report, game_uuid, forced } => game_uuid,
            MsgView::SseClosed { game_uuid } => game_uuid,
            MsgView::ReportUpdated { report, game_uuid } => game_uuid,
            MsgView::EventUpdated { event, game_uuid } => game_uuid,
        }
    }
}

impl Clone for Msg {
    fn clone(&self) -> (copy: Self)
        ensures
            copy@ == self@,
    {
        match self {
            Msg::AddEvent { event, game_uuid } => Msg::AddEvent {
                event: event.clone(),
                game_uuid: game_uuid.clone(),
            },
            Msg::UpdateReport { report, game_uuid, forced } => Msg::UpdateReport {
                report: report.clone(),
                game_uuid: game_uuid.clone(),
                forced: *forced,
            },
            Msg::SseClosed { game_uuid } => Msg::SseClosed { game_uuid: game_uuid.clone() },
            Msg::ReportUpdated { report, game_uuid } => Msg::ReportUpdated {
                report: report.clone(),
                game_uuid: game_uuid.clone(),
            },
            Msg::EventUpdated { event, game_uuid } => Msg::EventUpdated {
                event: event.clone(),
                game_uuid: game_uuid.clone(),
            },
        }
    }
}

impl Msg {
    /// The game that the message is about.
    pub fn get_game_uuid(&self) -> (game_uuid: &String)
        ensures
            game_uuid@ == self@.game_uuid(),
    {
        match self {
            Msg::SseClosed { game_uuid } => game_uuid,
            Msg::AddEvent { event: _, game_uuid } => game_uuid,
            Msg::UpdateReport { report: _, game_uuid, forced: _ } => game_uuid,
            Msg::ReportUpdated { report: _, game_uuid } => game_uuid,
            Msg::EventUpdated { event: _, game_uuid } => game_uuid,
        }
    }
}

} // verus!
