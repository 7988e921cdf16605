//! The authoritative report of a game, the sparse updates that listeners
//! produce, and the rule that says which updates are accepted.

use vstd::prelude::*;
use crate::text::{clone_opt_text, i16_to_string, int_digits, opt_text, str_eq};

verus! {

/// The state of a game.
#[derive(Clone, Copy, Debug, PartialEq, Eq, Structural, Hash)]
pub enum GameStatus {
    Coming,
    Finished,
    Period1,
    Period2,
    Period3,
    Overtime,
    Shootout,
    Intermission,
}

impl GameStatus {
    /// The states that may follow this one, in the order in which they are
    /// listed.
    pub open spec fn legal_successors(self) -> Seq<GameStatus> {
        match self {
            GameStatus::Coming => seq![GameStatus::Period1],
            GameStatus::Period1 => seq![GameStatus::Intermission, GameStatus::Period2],
            GameStatus::Period2 => seq![GameStatus::Intermission, GameStatus::Period3],
            GameStatus::Period3 => seq![
                GameStatus::Intermission,
                GameStatus::Finished,
                GameStatus::Overtime,
            ],
            GameStatus::Overtime => seq![
                GameStatus::Intermission,
                GameStatus::Finished,
                GameStatus::Shootout,
            ],
            GameStatus::Shootout => seq![GameStatus::Intermission, GameStatus::Finished],
            GameStatus::Intermission => seq![
                GameStatus::Period1,
                GameStatus::Period2,
                GameStatus::Period3,
                GameStatus::Overtime,
                GameStatus::Shootout,
                GameStatus::Finished,
            ],
            GameStatus::Finished => seq![],
        }
    }

    /// Whether `next` may follow this state.
    pub open spec fn may_step_to(self, next: GameStatus) -> bool {
        match self {
            GameStatus::Coming => next == GameStatus::Period1,
            GameStatus::Period1 => next == GameStatus::Intermission || next == GameStatus::Period2,
            GameStatus::Period2 => next == GameStatus::Intermission || next == GameStatus::Period3,
            GameStatus::Period3 => next == GameStatus::Intermission || next == GameStatus::Finished
                || next == GameStatus::Overtime,
            GameStatus::Overtime => next == GameStatus::Intermission || next
                == GameStatus::Finished || next == GameStatus::Shootout,
            GameStatus::Shootout => next == GameStatus::Intermission || next
                == GameStatus::Finished,
            GameStatus::Intermission => next != GameStatus::Coming && next
                != GameStatus::Intermission,
            GameStatus::Finished => false,
        }
    }

    /// The two statements of the successor relation agree.
    pub proof fn lemma_successors_listed(self, next: GameStatus)
        ensures
            self.may_step_to(next) <==> self.legal_successors().contains(next),
    {
        let s = self.legal_successors();
        if self.may_step_to(next) {
            let i = choose|i: int| 0 <= i < s.len() && s[i] == next;
            assert(0 <= i < s.len() && s[i] == next) by {
                if s.len() > 0 && s[0] == next {
                } else if s.len() > 1 && s[1] == next {
                } else if s.len() > 2 && s[2] == next {
                } else if s.len() > 3 && s[3] == next {
                } else if s.len() > 4 && s[4] == next {
                } else if s.len() > 5 && s[5] == next {
                }
            }
        }
    }

    /// The state's name.
    pub open spec fn name(self) -> Seq<char> {
        match self {
            GameStatus::Coming => "Coming"@,
            GameStatus::Finished => "Finished"@,
            GameStatus::Period1 => "Period1"@,
            GameStatus::Period2 => "Period2"@,
            GameStatus::Period3 => "Period3"@,
            GameStatus::Overtime => "Overtime"@,
            GameStatus::Shootout => "Shootout"@,
            GameStatus::Intermission => "Intermission"@,
        }
    }

    /// The state's name.
    pub fn to_string(&self) -> (name: String)
        ensures
            name@ == self.name(),
    {
        match self {
            GameStatus::Coming => "Coming".to_string(),
            GameStatus::Finished => "Finished".to_string(),
            GameStatus::Period1 => "Period1".to_string(),
            GameStatus::Period2 => "Period2".to_string(),
            GameStatus::Period3 => "Period3".to_string(),
            GameStatus::Overtime => "Overtime".to_string(),
            GameStatus::Shootout => "Shootout".to_string(),
            GameStatus::Intermission => "Intermission".to_string(),
        }
    }

    /// The states that may follow this one.
    pub fn get_valid_steps(&self) -> (steps: Vec<GameStatus>)
        ensures
            steps@ == self.legal_successors(),
    {
        let mut steps: Vec<GameStatus> = Vec::new();
        match self {
            GameStatus::Coming => {
                steps.push(GameStatus::Period1);
            },
            GameStatus::Period1 => {
                steps.push(GameStatus::Intermission);
                steps.push(GameStatus::Period2);
            },
            GameStatus::Period2 => {
                steps.push(GameStatus::Intermission);
                steps.push(GameStatus::Period3);
            },
            GameStatus::Period3 => {
                steps.push(GameStatus::Intermission);
                steps.push(GameStatus::Finished);
                steps.push(GameStatus::Overtime);
            },
            GameStatus::Overtime => {
                steps.push(GameStatus::Intermission);
                steps.push(GameStatus::Finished);
                steps.push(GameStatus::Shootout);
            },
            GameStatus::Shootout => {
                steps.push(GameStatus::Intermission);
                steps.push(GameStatus::Finished);
            },
            GameStatus::Intermission => {
                steps.push(GameStatus::Period1);
                steps.push(GameStatus::Period2);
                steps.push(GameStatus::Period3);
                steps.push(GameStatus::Overtime);
                steps.push(GameStatus::Shootout);
                steps.push(GameStatus::Finished);
            },
            GameStatus::Finished => {},
        }
        assert(steps@ =~= self.legal_successors());
        steps
    }

    /// Whether `next` may follow this state.
    pub fn can_step_to(&self, next: GameStatus) -> (ok: bool)
        ensures
            ok == self.may_step_to(next),
    {
        let steps = self.get_valid_steps();
        let mut i: usize = 0;
        proof {
            self.lemma_successors_listed(next);
        }
        while i < steps.len()
            invariant
                i <= steps.len(),
                forall|j: int| 0 <= j < i ==> steps@[j] != next,
                steps@ == self.legal_successors(),
                self.may_step_to(next) <==> self.legal_successors().contains(next),
            decreases steps.len() - i,
        {
            if steps[i] == next {
                return true;
            }
            i += 1;
        }
        false
    }
}

/// The authoritative report of one game.
#[derive(Debug)]
pub struct ApiGameReport {
    pub game_uuid: String,
    pub gametime: String,
    pub status: GameStatus,
    pub home_team_code: String,
    pub away_team_code: String,
    pub home_team_result: i16,
    pub away_team_result: i16,
    pub overtime: Option<bool>,
    pub shootout: Option<bool>,
}

/// What a report holds.
pub struct ReportView {
    pub game_uuid: Seq<char>,
    pub gametime: Seq<char>,
    pub status: GameStatus,
    pub home_team_code: Seq<char>,
    pub away_team_code: Seq<char>,
    pub home_team_result: i16,
    pub away_team_result: i16,
    pub overtime: Option<bool>,
    pub shootout: Option<bool>,
}

impl View for ApiGameReport {
    type V = ReportView;

    open spec fn view(&self) -> ReportView {
        ReportView {
            game_uuid: self.game_uuid@,
            gametime: self.gametime@,
            status: self.status,
            home_team_code: self.home_team_code@,
            away_team_code: self.away_team_code@,
            home_team_result: self.home_team_result,
            away_team_result: self.away_team_result,
            overtime: self.overtime,
            shootout: self.shootout,
        }
    }
}

impl Clone for ApiGameReport {
    fn clone(&self) -> (copy: Self)
        ensures
            copy@ == self@,
    {
        ApiGameReport {
            game_uuid: self.game_uuid.clone(),
            gametime: self.gametime.clone(),
            status: self.status,
            home_team_code: self.home_team_code.clone(),
            away_team_code: self.away_team_code.clone(),
            home_team_result: self.home_team_result,
            away_team_result: self.away_team_result,
            overtime: self.overtime,
            shootout: self.shootout,
        }
    }
}

impl ReportView {
    /// Whether a score went up or the overtime or shootout flag changed from
    /// `older` to this report.
    pub open spec fn score_or_flags_moved(self, older: ReportView) -> bool {
        self.home_team_result > older.home_team_result || self.away_team_result
            > older.away_team_result || self.overtime != older.overtime || self.shootout
            != older.shootout
    }

    /// Whether this report is accepted as the successor of `older`.
    ///
    /// With the status unchanged, something must have moved: the game time, a
    /// score upwards, or a flag; during an intermission the game time alone
    /// does not count. With the status changed, the new status must be a legal
    /// successor of the old one.
    pub open spec fn valid_update(self, older: ReportView) -> bool {
        if older.status == GameStatus::Intermission && self.status == GameStatus::Intermission {
            self.score_or_flags_moved(older)
        } else if older.status == self.status {
            self.gametime != older.gametime || self.score_or_flags_moved(older)
        } else {
            older.status.may_step_to(self.status)
        }
    }

    /// The report in one line: the score board, the status and the game
    /// time.
    pub open spec fn line(self) -> Seq<char> {
        self.home_team_code + " "@ + int_digits(self.home_team_result as int) + " - "@
            + int_digits(self.away_team_result as int) + " "@ + self.away_team_code + " :: "@
            + self.status.name() + " • "@ + self.gametime
    }

    /// The winner of the game as the scores stand: the team with more goals,
    /// nobody on a tie.
    pub open spec fn winner(self) -> Option<Seq<char>> {
        if self.home_team_result > self.away_team_result {
            Some(self.home_team_code)
        } else if self.home_team_result < self.away_team_result {
            Some(self.away_team_code)
        } else {
            None
        }
    }
}

impl ApiGameReport {
    /// Whether this report is accepted as the successor of `older`.
    pub fn is_valid_update(&self, older: &ApiGameReport) -> (valid: bool)
        ensures
            valid == self@.valid_update(older@),
    {
        let moved = self.home_team_result > older.home_team_result || self.away_team_result
            > older.away_team_result || self.overtime != older.overtime || self.shootout
            != older.shootout;
        if older.status == GameStatus::Intermission && self.status == GameStatus::Intermission {
            moved
        } else if older.status == self.status {
            !str_eq(self.gametime.as_str(), older.gametime.as_str()) || moved
        } else {
            older.status.can_step_to(self.status)
        }
    }

    /// The report in one line.
    pub fn to_string(&self) -> (line: String)
        ensures
            line@ == self@.line(),
    {
        let mut line = self.home_team_code.clone();
        line.append(" ");
        line.append(i16_to_string(self.home_team_result).as_str());
        line.append(" - ");
        line.append(i16_to_string(self.away_team_result).as_str());
        line.append(" ");
        line.append(self.away_team_code.as_str());
        line.append(" :: ");
        line.append(self.status.to_string().as_str());
        line.append(" • ");
        line.append(self.gametime.as_str());
        line
    }

    /// The winner of the game as the scores stand.
    pub fn get_winner(&self) -> (winner: Option<String>)
        ensures
            opt_text(winner) == self@.winner(),
    {
        if self.home_team_result > self.away_team_result {
            Some(self.home_team_code.clone())
        } else if self.home_team_result < self.away_team_result {
            Some(self.away_team_code.clone())
        } else {
            None
        }
    }
}

/// A report as a client may post it: every field but the team codes.
#[derive(Debug)]
pub struct ApiUpdateReport {
    pub game_uuid: String,
    pub gametime: String,
    pub status: GameStatus,
    pub home_team_result: i16,
    pub away_team_result: i16,
    pub overtime: Option<bool>,
    pub shootout: Option<bool>,
}

/// A sparse update of a report: each field is present or left as it was.
#[derive(Debug)]
pub struct UpdateReport {
    pub gametime: Option<String>,
    pub status: Option<GameStatus>,
    pub home_team_result: Option<i16>,
    pub away_team_result: Option<i16>,
    pub overtime: Option<bool>,
    pub shootout: Option<bool>,
}

/// What a sparse update holds.
pub struct UpdateView {
    pub gametime: Option<Seq<char>>,
    pub status: Option<GameStatus>,
    pub home_team_result: Option<i16>,
    pub away_team_result: Option<i16>,
    pub overtime: Option<bool>,
    pub shootout: Option<bool>,
}

impl View for UpdateReport {
    type V = UpdateView;

    open spec fn view(&self) -> UpdateView {
        UpdateView {
            gametime: opt_text(self.gametime),
            status: self.status,
            home_team_result: self.home_team_result,
            away_team_result: self.away_team_result,
            overtime: self.overtime,
            shootout: self.shootout,
        }
    }
}

impl Clone for UpdateReport {
    fn clone(&self) -> (copy: Self)
        ensures
            copy@ == self@,
    {
        UpdateReport {
            gametime: clone_opt_text(&self.gametime),
            status: self.status,
            home_team_result: self.home_team_result,
            away_team_result: self.away_team_result,
            overtime: self.overtime,
            shootout: self.shootout,
        }
    }
}

impl Default for UpdateReport {
    fn default() -> (empty: Self)
        ensures
            empty@ == UpdateView::empty(),
    {
        UpdateReport {
            gametime: None,
            status: None,
            home_team_result: None,
            away_team_result: None,
            overtime: None,
            shootout: None,
        }
    }
}

impl UpdateView {
    /// The update that changes nothing.
    pub open spec fn empty() -> UpdateView {
        UpdateView {
            gametime: None,
            status: None,
            home_team_result: None,
            away_team_result: None,
            overtime: None,
            shootout: None,
        }
    }

    /// The report that results from laying this update over `old`.
    ///
    /// A status of `Overtime` or `Shootout` raises the flag of that name; a
    /// flag is otherwise taken from the update where present, else from `old`.
    pub open spec fn merged(self, old: ReportView) -> ReportView {
        ReportView {
            game_uuid: old.game_uuid,
            gametime: match self.gametime {
                Some(t) => t,
                None => old.gametime,
            },
            status: match self.status {
                Some(s) => s,
                None => old.status,
            },
            home_team_code: old.home_team_code,
            away_team_code: old.away_team_code,
            home_team_result: match self.home_team_result {
                Some(n) => n,
                None => old.home_team_result,
            },
            away_team_result: match self.away_team_result {
                Some(n) => n,
                None => old.away_team_result,
            },
            overtime: if self.status == Some(GameStatus::Overtime) {
                Some(true)
            } else if self.overtime is Some {
                self.overtime
            } else {
                old.overtime
            },
            shootout: if self.status == Some(GameStatus::Shootout) {
                Some(true)
            } else if self.shootout is Some {
                self.shootout
            } else {
                old.shootout
            },
        }
    }
}

impl UpdateReport {
    /// Lays this update over `old`.
    pub fn to_report(&self, old: &ApiGameReport) -> (report: ApiGameReport)
        ensures
            report@ == self@.merged(old@),
    {
        let overtime = match self.status {
            Some(GameStatus::Overtime) => Some(true),
            _ => match self.overtime {
                Some(a) => Some(a),
                None => old.overtime,
            },
        };
        let shootout = match self.status {
            Some(GameStatus::Shootout) => Some(true),
            _ => match self.shootout {
                Some(a) => Some(a),
                None => old.shootout,
            },
        };
        ApiGameReport {
            game_uuid: old.game_uuid.clone(),
            gametime: match &self.gametime {
                Some(t) => t.clone(),
                None => old.gametime.clone(),
            },
            status: match self.status {
                Some(s) => s,
                None => old.status,
            },
            home_team_code: old.home_team_code.clone(),
            away_team_code: old.away_team_code.clone(),
            home_team_result: match self.home_team_result {
                Some(n) => n,
                None => old.home_team_result,
            },
            away_team_result: match self.away_team_result {
                Some(n) => n,
                None => old.away_team_result,
            },
            overtime,
            shootout,
        }
    }
}

/// Every accepted update either moves the status to a legal successor, or
/// keeps the status and moves the game time, a score upwards, or a flag.
pub proof fn lemma_accepted_update_moves(new: ReportView, old: ReportView)
    requires
        new.valid_update(old),
    ensures
        old.status.legal_successors().contains(new.status) || (new.status == old.status && (
        new.gametime != old.gametime || new.home_team_result > old.home_team_result
            || new.away_team_result > old.away_team_result || new.overtime != old.overtime
            || new.shootout != old.shootout)),
{
    old.status.lemma_successors_listed(new.status);
}

/// A finished game is never left by an accepted update.
pub proof fn lemma_finished_is_terminal(new: ReportView, old: ReportView)
    requires
        new.valid_update(old),
        old.status == GameStatus::Finished,
    ensures
        new.status == GameStatus::Finished,
{
}

/// Laying the same update over its own result changes nothing.
pub proof fn lemma_merge_idempotent(update: UpdateView, old: ReportView)
    ensures
        update.merged(update.merged(old)) == update.merged(old),
{
}

/// An update that is sent again unchanged is rejected: its result is no valid
/// successor of the report that the first sending produced.
pub proof fn lemma_repeated_update_rejected(update: UpdateView, old: ReportView)
    ensures
        !update.merged(update.merged(old)).valid_update(update.merged(old)),
{
    lemma_merge_idempotent(update, old);
}

} // verus!
