//! What the client-facing surface decides: whether a vote is taken, and
//! which bus messages go out to the web socket clients.

use vstd::prelude::*;
use crate::bus::{Msg, MsgView};
use crate::event::{ApiGameEvent, EventView};
use crate::game::{ApiGame, GameView};
use crate::report::{ApiGameReport, GameStatus, ReportView};
use crate::stats::ApiGameStats;
use crate::text::str_eq;
use crate::vote::{Vote, VoteBody, VoteView};

verus! {

/// The seconds of silence after which a web socket is pinged.
pub const WS_PING_SECS: u64 = 60;

/// Why a vote is refused.
#[derive(Clone, Copy, Debug, PartialEq, Eq, Structural)]
pub enum VoteError {
    /// The key that lets a client write is missing or wrong.
    Unauthorized,
    /// The game is not known.
    InvalidGame,
    /// The team does not play in the game.
    InvalidTeamCode,
    /// The game has begun.
    InvalidGameStatus,
}

impl VoteError {
    /// The HTTP status with which the refusal is answered.
    pub fn status(&self) -> (code: u16)
        ensures
            code == match self {
                VoteError::Unauthorized => 401u16,
                _ => 400u16,
            },
    {
        match self {
            VoteError::Unauthorized => 401,
            _ => 400,
        }
    }

    /// The text with which the refusal is answered.
    pub fn to_string(&self) -> (text: String)
        ensures
            text@ == match self {
                VoteError::Unauthorized => "Unauthorized"@,
                VoteError::InvalidGame => "Invalid game"@,
                VoteError::InvalidTeamCode => "Invalid team_code"@,
                VoteError::InvalidGameStatus => "Invalid game status"@,
            },
    {
        match self {
            VoteError::Unauthorized => "Unauthorized".to_string(),
            VoteError::InvalidGame => "Invalid game".to_string(),
            VoteError::InvalidTeamCode => "Invalid team_code".to_string(),
            VoteError::InvalidGameStatus => "Invalid game status".to_string(),
        }
    }
}

/// The vote that a posted vote makes, or why it is refused.
///
/// A vote needs the right key, a game that the registry holds, a team of
/// that game, and a game that has not begun; the first of these that fails
/// says why the vote is refused.
pub open spec fn checked_vote(
    key: Seq<char>,
    api_key: Seq<char>,
    game: Option<GameView>,
    game_uuid: Seq<char>,
    user_id: Seq<char>,
    team_code: Seq<char>,
) -> Result<VoteView, VoteError> {
    if key != api_key {
        Err(VoteError::Unauthorized)
    } else {
        match game {
            Some(g) => if g.home_team_code != team_code && g.away_team_code != team_code {
                Err(VoteError::InvalidTeamCode)
            } else if g.status != GameStatus::Coming {
                Err(VoteError::InvalidGameStatus)
            } else {
                Ok(
                    VoteView {
                        user_id,
                        game_uuid,
                        team_code,
                        is_home_winner: g.home_team_code == team_code,
                    },
                )
            },
            None => Err(VoteError::InvalidGame),
        }
    }
}

/// The client-facing surface.
pub struct Api;

impl Api {
    /// The vote that the posted vote `body` makes, or why it is refused.
    /// `key` is the key that the client sent, `api_key` the one that lets a
    /// client write, and `game` the game of the vote as the registry holds
    /// it.
    pub fn check_vote(key: &str, api_key: &str, game: Option<&ApiGame>, body: VoteBody) -> (checked:
        Result<Vote, VoteError>)
        ensures
            match checked {
                Ok(v) => Ok::<VoteView, VoteError>(v@),
                Err(e) => Err(e),
            } == checked_vote(
                key@,
                api_key@,
                match game {
                    Some(g) => Some(g@),
                    None => None,
                },
                body.game_uuid@,
                body.user_id@,
                body.team_code@,
            ),
    {
        if !str_eq(key, api_key) {
            return Err(VoteError::Unauthorized);
        }
        match game {
            Some(game) => {
                let home = str_eq(game.home_team_code.as_str(), body.team_code.as_str());
                let away = str_eq(game.away_team_code.as_str(), body.team_code.as_str());
                if !home && !away {
                    Err(VoteError::InvalidTeamCode)
                } else if game.status != GameStatus::Coming {
                    Err(VoteError::InvalidGameStatus)
                } else {
                    Ok(
                        Vote {
                            user_id: body.user_id,
                            game_uuid: body.game_uuid,
                            team_code: body.team_code,
                            is_home_winner: home,
                        },
                    )
                }
            },
            None => Err(VoteError::InvalidGame),
        }
    }
}

/// What a web socket message carries.
#[derive(Debug)]
pub enum WsMsgBody {
    Event { event: ApiGameEvent },
    Report { report: ApiGameReport },
    Stats { stats: ApiGameStats },
}

/// What a `WsMsgBody` holds.
pub enum WsMsgBodyView {
    Event { event: EventView },
    Report { report: ReportView },
    Stats { stats: ApiGameStats },
}

/// A message to the web socket clients.
#[derive(Debug)]
pub struct WsMsg {
    pub game_uuid: String,
    pub body: WsMsgBody,
}

/// What a `WsMsg` holds.
pub struct WsMsgView {
    pub game_uuid: Seq<char>,
    pub body: WsMsgBodyView,
}

impl View for WsMsg {
    type V = WsMsgView;

    open spec fn view(&self) -> WsMsgView {
        WsMsgView {
            game_uuid: self.game_uuid@,
            body: match self.body {
                WsMsgBody::Event { event } => WsMsgBodyView::Event { event: event@ },
                WsMsgBody::Report { report } => WsMsgBodyView::Report { report: report@ },
                WsMsgBody::Stats { stats } => WsMsgBodyView::Stats { stats },
            },
        }
    }
}

/// A hint of a web socket client at the game that it watches.
#[derive(Debug)]
pub struct WsReq {
    pub game_uuid: String,
}

/// What goes out to the web socket clients on a bus message: the event or
/// the report that the writer took in, under the game of the event or of the
/// report. Every other message stays inside.
pub open spec fn ws_message(msg: MsgView) -> Option<WsMsgView> {
    match msg {
        MsgView::EventUpdated { event, game_uuid } => Some(
            WsMsgView { game_uuid: event.game_uuid, body: WsMsgBodyView::Event { event } },
        ),
        MsgView::ReportUpdated { report, game_uuid } => Some(
            WsMsgView { game_uuid: report.game_uuid, body: WsMsgBodyView::Report { report } },
        ),
        _ => None,
    }
}

impl WsMsg {
    /// The message that carries `event`.
    pub fn from_event(event: ApiGameEvent) -> (msg: WsMsg)
        ensures
            msg@ == (WsMsgView {
                game_uuid: event@.game_uuid,
                body: WsMsgBodyView::Event { event: event@ },
            }),
    {
        WsMsg { game_uuid: event.game_uuid.clone(), body: WsMsgBody::Event { event } }
    }

    /// The message that carries `report`.
    pub fn from_report(report: ApiGameReport) -> (msg: WsMsg)
        ensures
            msg@ == (WsMsgView {
                game_uuid: report@.game_uuid,
                body: WsMsgBodyView::Report { report: report@ },
            }),
    {
        WsMsg { game_uuid: report.game_uuid.clone(), body: WsMsgBody::Report { report } }
    }
}

/// The web socket broadcaster.
pub struct ApiWs {}

impl ApiWs {
    /// What goes out to the web socket clients on the bus message `msg`.
    pub fn forward(msg: &Msg) -> (out: Option<WsMsg>)
        ensures
            match out {
                Some(m) => Some(m@),
                None => None,
            } == ws_message(msg@),
    {
        match msg {
            Msg::EventUpdated { event, game_uuid: _ } => Some(WsMsg::from_event(event.clone())),
            Msg::ReportUpdated { report, game_uuid: _ } => Some(
                WsMsg::from_report(report.clone()),
            ),
            _ => None,
        }
    }
}

/// The operational banner.
#[derive(Debug)]
pub struct Status {
    pub msg: String,
    pub lvl: String,
}

/// The answer to a question for the operational banner.
#[derive(Debug)]
pub struct ApiStatusRsp {
    pub status: Option<Status>,
}

/// The operational banner's store.
pub struct StatusService {}

} // verus!
