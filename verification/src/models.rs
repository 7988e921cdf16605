//! Leagues, game types and seasons, and the loosely typed scalar of the
//! upstream provider.

use vstd::prelude::*;
use crate::text::{str_eq, texts, clone_texts, join, joined, parsed_i16, parse_i16, i16_to_string, int_digits};

verus! {

/// The two leagues that are followed.
#[derive(Clone, Copy, Debug, PartialEq, Eq, Structural, Hash)]
pub enum League {
    SHL,
    HA,
}

impl League {
    /// Every league, in the order in which seasons are fetched.
    pub fn get_all() -> (all: Vec<League>)
        ensures
            all@ == seq![League::SHL, League::HA],
    {
        let mut all: Vec<League> = Vec::new();
        all.push(League::SHL);
        all.push(League::HA);
        all
    }

    /// The league's name as it is written in keys.
    pub open spec fn name(self) -> Seq<char> {
        match self {
            League::SHL => "SHL"@,
            League::HA => "HA"@,
        }
    }

    /// The league's name as it is written in keys.
    pub fn to_string(&self) -> (out: String)
        ensures
            out@ == self.name(),
    {
        match self {
            League::SHL => "SHL".to_string(),
            League::HA => "HA".to_string(),
        }
    }
}

/// The kind of a game within a season.
#[derive(Clone, Copy, Debug, PartialEq, Eq, Structural, Hash)]
pub enum GameType {
    Season,
    PlayOff,
    Demotion,
}

/// The error of reading a name that is not known.
#[derive(Clone, Copy, Debug, PartialEq, Eq, Structural)]
pub struct ParseStringError;

impl GameType {
    /// Every game type, in the order in which seasons are fetched.
    pub fn get_all() -> (all: Vec<GameType>)
        ensures
            all@ == seq![GameType::Season, GameType::PlayOff, GameType::Demotion],
    {
        let mut all: Vec<GameType> = Vec::new();
        all.push(GameType::Season);
        all.push(GameType::PlayOff);
        all.push(GameType::Demotion);
        all
    }

    /// The game type's name.
    pub open spec fn name(self) -> Seq<char> {
        match self {
            GameType::Season => "Season"@,
            GameType::PlayOff => "PlayOff"@,
            GameType::Demotion => "Demotion"@,
        }
    }

    /// The game type's name.
    pub fn to_string(&self) -> (out: String)
        ensures
            out@ == self.name(),
    {
        match self {
            GameType::Season => "Season".to_string(),
            GameType::PlayOff => "PlayOff".to_string(),
            GameType::Demotion => "Demotion".to_string(),
        }
    }

    /// The game type that `s` names, if any.
    pub open spec fn named(s: Seq<char>) -> Option<GameType> {
        if s == "Season"@ {
            Some(GameType::Season)
        } else if s == "PlayOff"@ {
            Some(GameType::PlayOff)
        } else if s == "Demotion"@ {
            Some(GameType::Demotion)
        } else {
            None
        }
    }

    /// Reads a game type from its name.
    pub fn parse(s: &str) -> (parsed: Result<GameType, ParseStringError>)
        ensures
            parsed == match GameType::named(s@) {
                Some(t) => Ok::<GameType, ParseStringError>(t),
                None => Err(ParseStringError),
            },
    {
        if str_eq(s, "Season") {
            Ok(GameType::Season)
        } else if str_eq(s, "PlayOff") {
            Ok(GameType::PlayOff)
        } else if str_eq(s, "Demotion") {
            Ok(GameType::Demotion)
        } else {
            Err(ParseStringError)
        }
    }
}

impl std::str::FromStr for GameType {
    type Err = ParseStringError;

    fn from_str(s: &str) -> (parsed: Result<Self, Self::Err>)
        ensures
            parsed == match GameType::named(s@) {
                Some(t) => Ok::<GameType, ParseStringError>(t),
                None => Err(ParseStringError),
            },
    {
        GameType::parse(s)
    }
}

/// A season, named by the year in which it ends its autumn.
#[derive(Clone, Copy, Debug, PartialEq, Eq, Structural, Hash)]
pub enum Season {
    Season2023,
    Season2022,
    Season2021,
    Season2020,
    Season2019,
    Season2018,
}

impl Season {
    /// The season that is played now.
    pub open spec fn current() -> Season {
        Season::Season2022
    }

    /// The season that is played now.
    pub fn get_current() -> (season: Season)
        ensures
            season == Season::current(),
    {
        Season::Season2022
    }

    /// Whether this is the season that is played now.
    pub fn is_current(&self) -> (current: bool)
        ensures
            current == (*self == Season::current()),
    {
        *self == Season::get_current()
    }

    /// Every season, oldest first.
    pub fn get_all() -> (all: Vec<Season>)
        ensures
            all@ == seq![
                Season::Season2018,
                Season::Season2019,
                Season::Season2020,
                Season::Season2021,
                Season::Season2022,
                Season::Season2023,
            ],
    {
        let mut all: Vec<Season> = Vec::new();
        all.push(Season::Season2018);
        all.push(Season::Season2019);
        all.push(Season::Season2020);
        all.push(Season::Season2021);
        all.push(Season::Season2022);
        all.push(Season::Season2023);
        all
    }

    /// The season's name as it is written in keys.
    pub open spec fn name(self) -> Seq<char> {
        match self {
            Season::Season2023 => "Season2023"@,
            Season::Season2022 => "Season2022"@,
            Season::Season2021 => "Season2021"@,
            Season::Season2020 => "Season2020"@,
            Season::Season2019 => "Season2019"@,
            Season::Season2018 => "Season2018"@,
        }
    }

    /// The season's name as it is written in keys.
    pub fn to_string(&self) -> (out: String)
        ensures
            out@ == self.name(),
    {
        match self {
            Season::Season2023 => "Season2023".to_string(),
            Season::Season2022 => "Season2022".to_string(),
            Season::Season2021 => "Season2021".to_string(),
            Season::Season2020 => "Season2020".to_string(),
            Season::Season2019 => "Season2019".to_string(),
            Season::Season2018 => "Season2018".to_string(),
        }
    }

    /// The season that `s` names, by its year alone or by its full name.
    pub open spec fn named(s: Seq<char>) -> Option<Season> {
        if s == "2023"@ || s == "Season2023"@ {
            Some(Season::Season2023)
        } else if s == "2022"@ || s == "Season2022"@ {
            Some(Season::Season2022)
        } else if s == "2021"@ || s == "Season2021"@ {
            Some(Season::Season2021)
        } else if s == "2020"@ || s == "Season2020"@ {
            Some(Season::Season2020)
        } else if s == "2019"@ || s == "Season2019"@ {
            Some(Season::Season2019)
        } else if s == "2018"@ || s == "Season2018"@ {
            Some(Season::Season2018)
        } else {
            None
        }
    }

    /// Reads a season from its year or its full name.
    pub fn parse(s: &str) -> (parsed: Result<Season, ParseStringError>)
        ensures
            parsed == match Season::named(s@) {
                Some(t) => Ok::<Season, ParseStringError>(t),
                None => Err(ParseStringError),
            },
    {
        if str_eq(s, "2023") || str_eq(s, "Season2023") {
            Ok(Season::Season2023)
        } else if str_eq(s, "2022") || str_eq(s, "Season2022") {
            Ok(Season::Season2022)
        } else if str_eq(s, "2021") || str_eq(s, "Season2021") {
            Ok(Season::Season2021)
        } else if str_eq(s, "2020") || str_eq(s, "Season2020") {
            Ok(Season::Season2020)
        } else if str_eq(s, "2019") || str_eq(s, "Season2019") {
            Ok(Season::Season2019)
        } else if str_eq(s, "2018") || str_eq(s, "Season2018") {
            Ok(Season::Season2018)
        } else {
            Err(ParseStringError)
        }
    }
}

impl std::str::FromStr for Season {
    type Err = ParseStringError;

    fn from_str(s: &str) -> (parsed: Result<Self, Self::Err>)
        ensures
            parsed == match Season::named(s@) {
                Some(t) => Ok::<Season, ParseStringError>(t),
                None => Err(ParseStringError),
            },
    {
        Season::parse(s)
    }
}

/// A scalar of the upstream provider, which sends numbers as numbers, as
/// strings or as lists of strings.
#[derive(Debug)]
pub enum StringOrNum {
    String(String),
    Arr(Vec<String>),
    Number(i16),
}

/// What a `StringOrNum` holds.
pub enum StringOrNumView {
    String(Seq<char>),
    Arr(Seq<Seq<char>>),
    Number(i16),
}

impl View for StringOrNum {
    type V = StringOrNumView;

    open spec fn view(&self) -> StringOrNumView {
        match self {
            StringOrNum::String(s) => StringOrNumView::String(s@),
            StringOrNum::Arr(a) => StringOrNumView::Arr(texts(a@)),
            StringOrNum::Number(n) => StringOrNumView::Number(*n),
        }
    }
}

impl StringOrNumView {
    /// The number that the scalar stands for: the number itself, the string or
    /// the list's first string read as a decimal `i16`, and 0 where that fails.
    pub open spec fn num(self) -> i16 {
        match self {
            StringOrNumView::String(s) => match parsed_i16(s) {
                Some(n) => n,
                None => 0,
            },
            StringOrNumView::Number(n) => n,
            StringOrNumView::Arr(a) => if a.len() == 0 {
                0
            } else {
                match parsed_i16(a[0]) {
                    Some(n) => n,
                    None => 0,
                }
            },
        }
    }

    /// The text that the scalar stands for: the string itself, the number in
    /// decimal, the list joined by `-`.
    pub open spec fn text(self) -> Seq<char> {
        match self {
            StringOrNumView::String(s) => s,
            StringOrNumView::Number(n) => int_digits(n as int),
            StringOrNumView::Arr(a) => joined(a, "-"@),
        }
    }
}

impl Clone for StringOrNum {
    fn clone(&self) -> (copy: Self)
        ensures
            copy@ == self@,
    {
        match self {
            StringOrNum::String(s) => StringOrNum::String(s.clone()),
            StringOrNum::Arr(a) => StringOrNum::Arr(clone_texts(a)),
            StringOrNum::Number(n) => StringOrNum::Number(*n),
        }
    }
}

impl StringOrNum {
    /// The scalar as a number, 0 where it holds none.
    pub fn to_num(&self) -> (n: i16)
        ensures
            n == self@.num(),
    {
        match self {
            StringOrNum::String(s) => match parse_i16(s.as_str()) {
                Some(n) => n,
                None => 0,
            },
            StringOrNum::Number(n) => *n,
            StringOrNum::Arr(a) => {
                if a.len() == 0 {
                    0
                } else {
                    match parse_i16(a[0].as_str()) {
                        Some(n) => n,
                        None => 0,
                    }
                }
            },
        }
    }

    /// The scalar as text.
    pub fn to_str(&self) -> (out: String)
        ensures
            out@ == self@.text(),
    {
        match self {
            StringOrNum::String(s) => s.clone(),
            StringOrNum::Number(n) => i16_to_string(*n),
            StringOrNum::Arr(a) => join(a, "-"),
        }
    }
}

/// The key of one season's schedule: season, league and game type.
#[derive(Clone, Copy, Debug)]
pub struct SeasonKey(pub Season, pub League, pub GameType);

impl SeasonKey {
    /// The key as a path of three names.
    pub open spec fn name(self) -> Seq<char> {
        self.0.name() + "/"@ + self.1.name() + "/"@ + self.2.name()
    }

    /// The key as a path of three names.
    pub fn to_string(&self) -> (out: String)
        ensures
            out@ == self.name(),
    {
        let mut out = self.0.to_string();
        out.append("/");
        out.append(self.1.to_string().as_str());
        out.append("/");
        out.append(self.2.to_string().as_str());
        out
    }
}

} // verus!
