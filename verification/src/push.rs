//! The pushes that go to a user's devices: an alert, or the refreshed state
//! of a live activity, with the game that they are about.

use vstd::prelude::*;
use crate::apn::{ApnHeader, ApnHeaderView};
use crate::game::{ApiGame, GameView};
use crate::report::GameStatus;
use crate::text::{clone_opt_text, opt_text, texts};

verus! {

/// The visible part of an alert.
#[derive(Debug)]
pub struct ApnAlert {
    pub title: String,
    pub body: String,
    pub subtitle: Option<String>,
}

/// What an `ApnAlert` holds.
pub struct AlertView {
    pub title: Seq<char>,
    pub body: Seq<char>,
    pub subtitle: Option<Seq<char>>,
}

impl View for ApnAlert {
    type V = AlertView;

    open spec fn view(&self) -> AlertView {
        AlertView { title: self.title@, body: self.body@, subtitle: opt_text(self.subtitle) }
    }
}

impl Clone for ApnAlert {
    fn clone(&self) -> (copy: Self)
        ensures
            copy@ == self@,
    {
        ApnAlert {
            title: self.title.clone(),
            body: self.body.clone(),
            subtitle: clone_opt_text(&self.subtitle),
        }
    }
}

/// The view of an optional alert.
pub open spec fn opt_alert(alert: Option<ApnAlert>) -> Option<AlertView> {
    match alert {
        Some(a) => Some(a@),
        None => None,
    }
}

/// The score and the clock that a live activity shows.
#[derive(Debug)]
pub struct LiveActivityReport {
    pub home_score: i16,
    pub away_score: i16,
    pub status: Option<GameStatus>,
    pub gametime: Option<String>,
}

/// What a `LiveActivityReport` holds.
pub struct LiveActivityReportView {
    pub home_score: i16,
    pub away_score: i16,
    pub status: Option<GameStatus>,
    pub gametime: Option<Seq<char>>,
}

impl View for LiveActivityReport {
    type V = LiveActivityReportView;

    open spec fn view(&self) -> LiveActivityReportView {
        LiveActivityReportView {
            home_score: self.home_score,
            away_score: self.away_score,
            status: self.status,
            gametime: opt_text(self.gametime),
        }
    }
}

/// The event that a live activity shows.
#[derive(Debug)]
pub struct LiveActivityEvent {
    pub title: String,
    pub body: Option<String>,
    pub team_code: Option<String>,
}

/// What a `LiveActivityEvent` holds.
pub struct LiveActivityEventView {
    pub title: Seq<char>,
    pub body: Option<Seq<char>>,
    pub team_code: Option<Seq<char>>,
}

impl View for LiveActivityEvent {
    type V = LiveActivityEventView;

    open spec fn view(&self) -> LiveActivityEventView {
        LiveActivityEventView {
            title: self.title@,
            body: opt_text(self.body),
            team_code: opt_text(self.team_code),
        }
    }
}

/// What a live activity shows: the score and clock, and the latest event.
#[derive(Debug)]
pub struct LiveActivityContentState {
    pub report: LiveActivityReport,
    pub event: Option<LiveActivityEvent>,
}

/// What a `LiveActivityContentState` holds.
pub struct ContentStateView {
    pub report: LiveActivityReportView,
    pub event: Option<LiveActivityEventView>,
}

impl View for LiveActivityContentState {
    type V = ContentStateView;

    open spec fn view(&self) -> ContentStateView {
        ContentStateView {
            report: self.report@,
            event: match self.event {
                Some(e) => Some(e@),
                None => None,
            },
        }
    }
}

/// The part of a push that the device's system reads.
#[derive(Debug)]
pub struct ApnAps {
    pub alert: Option<ApnAlert>,
    pub mutable_content: Option<u8>,
    pub content_available: Option<u8>,
    pub sound: Option<String>,
    pub badge: Option<u8>,
    pub event: Option<String>,
    pub relevance_score: Option<u8>,
    pub stale_date: Option<i64>,
    pub timestamp: Option<i64>,
    pub content_state: Option<LiveActivityContentState>,
}

/// What an `ApnAps` holds.
pub struct ApsView {
    pub alert: Option<AlertView>,
    pub mutable_content: Option<u8>,
    pub content_available: Option<u8>,
    pub sound: Option<Seq<char>>,
    pub badge: Option<u8>,
    pub event: Option<Seq<char>>,
    pub relevance_score: Option<u8>,
    pub stale_date: Option<i64>,
    pub timestamp: Option<i64>,
    pub content_state: Option<ContentStateView>,
}

impl View for ApnAps {
    type V = ApsView;

    open spec fn view(&self) -> ApsView {
        ApsView {
            alert: opt_alert(self.alert),
            mutable_content: self.mutable_content,
            content_available: self.content_available,
            sound: opt_text(self.sound),
            badge: self.badge,
            event: opt_text(self.event),
            relevance_score: self.relevance_score,
            stale_date: self.stale_date,
            timestamp: self.timestamp,
            content_state: match self.content_state {
                Some(s) => Some(s@),
                None => None,
            },
        }
    }
}

impl Default for ApnAps {
    fn default() -> (empty: Self)
        ensures
            empty@ == ApsView::empty(),
    {
        ApnAps {
            alert: None,
            mutable_content: None,
            content_available: None,
            sound: None,
            badge: None,
            event: None,
            relevance_score: None,
            stale_date: None,
            timestamp: None,
            content_state: None,
        }
    }
}

impl ApsView {
    /// The part that says nothing.
    pub open spec fn empty() -> ApsView {
        ApsView {
            alert: None,
            mutable_content: None,
            content_available: None,
            sound: None,
            badge: None,
            event: None,
            relevance_score: None,
            stale_date: None,
            timestamp: None,
            content_state: None,
        }
    }
}

/// The body of a push: the system's part, the game, and the keys of the
/// images that the device attaches.
#[derive(Debug)]
pub struct ApnBody {
    pub aps: ApnAps,
    pub data: ApiGame,
    pub local_attachements: Vec<String>,
}

/// What an `ApnBody` holds.
pub struct ApnBodyView {
    pub aps: ApsView,
    pub data: GameView,
    pub local_attachements: Seq<Seq<char>>,
}

impl View for ApnBody {
    type V = ApnBodyView;

    open spec fn view(&self) -> ApnBodyView {
        ApnBodyView {
            aps: self.aps@,
            data: self.data@,
            local_attachements: texts(self.local_attachements@),
        }
    }
}

/// A push: its headers and its body.
#[derive(Debug)]
pub struct ApnPush {
    pub header: ApnHeader,
    pub body: ApnBody,
}

/// What an `ApnPush` holds.
pub struct ApnPushView {
    pub header: ApnHeaderView,
    pub body: ApnBodyView,
}

impl View for ApnPush {
    type V = ApnPushView;

    open spec fn view(&self) -> ApnPushView {
        ApnPushView { header: self.header@, body: self.body@ }
    }
}

} // verus!
