//! The team catalogue: the names under which a team code is shown.

use vstd::prelude::*;
use crate::models::League;
use crate::text::str_eq;
use crate::views::{first_where, lemma_first_where_from};

verus! {

/// A team of the catalogue.
#[derive(Debug)]
pub struct ApiTeam {
    pub code: String,
    pub display_code: String,
    pub name: String,
    pub shortname: String,
    pub golds: Vec<String>,
    pub league: Option<League>,
    pub founded: Option<String>,
    pub retired_numbers: Vec<String>,
}

/// The team catalogue's store.
pub struct ApiTeamsService;

/// The team catalogue, searched by team code.
pub struct TeamsMap {
    pub teams: Vec<ApiTeam>,
}

/// The index of the first of `teams` with the code `code`, or the length of
/// `teams` where there is none.
pub open spec fn team_index(teams: Seq<ApiTeam>, code: Seq<char>) -> int {
    first_where(teams, |t: ApiTeam| t.code@ == code)
}

/// The code under which the team `code` is displayed: that of the
/// catalogue, or `code` itself where the catalogue does not know the team.
pub open spec fn display_code_of(teams: Seq<ApiTeam>, code: Seq<char>) -> Seq<char> {
    if team_index(teams, code) < teams.len() {
        teams[team_index(teams, code)].display_code@
    } else {
        code
    }
}

/// The short name of the team `code`: that of the catalogue, or `code`
/// itself where the catalogue does not know the team.
pub open spec fn shortname_of(teams: Seq<ApiTeam>, code: Seq<char>) -> Seq<char> {
    if team_index(teams, code) < teams.len() {
        teams[team_index(teams, code)].shortname@
    } else {
        code
    }
}

impl TeamsMap {
    /// A catalogue of `teams`.
    pub fn new(teams: Vec<ApiTeam>) -> (map: TeamsMap)
        ensures
            map.teams == teams,
    {
        TeamsMap { teams }
    }

    /// The first team of the catalogue with the code `team_code`.
    pub fn get(&self, team_code: &str) -> (team: Option<&ApiTeam>)
        ensures
            match team {
                Some(t) => team_index(self.teams@, team_code@) < self.teams@.len() && *t
                    == self.teams@[team_index(self.teams@, team_code@)],
                None => team_index(self.teams@, team_code@) >= self.teams@.len(),
            },
    {
        let ghost same = |t: ApiTeam| t.code@ == team_code@;
        let mut i: usize = 0;
        while i < self.teams.len()
            invariant
                i <= self.teams.len(),
                same == |t: ApiTeam| t.code@ == team_code@,
                forall|j: int| 0 <= j < i ==> !same(#[trigger] self.teams@[j]),
            decreases self.teams.len() - i,
        {
            proof {
                lemma_first_where_from(self.teams@, same, i as int);
            }
            if str_eq(self.teams[i].code.as_str(), team_code) {
                return Some(&self.teams[i]);
            }
            i += 1;
        }
        proof {
            lemma_first_where_from(self.teams@, same, i as int);
        }
        None
    }

    /// The code under which the team `team_code` is displayed.
    pub fn get_display_code(&self, team_code: &str) -> (code: String)
        ensures
            code@ == display_code_of(self.teams@, team_code@),
    {
        match self.get(team_code) {
            Some(e) => e.display_code.clone(),
            None => team_code.to_string(),
        }
    }

    /// The short name of the team `team_code`.
    pub fn get_shortname(&self, team_code: &str) -> (name: String)
        ensures
            name@ == shortname_of(self.teams@, team_code@),
    {
        match self.get(team_code) {
            Some(e) => e.shortname.clone(),
            None => team_code.to_string(),
        }
    }
}

} // verus!
