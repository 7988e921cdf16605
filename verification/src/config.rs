//! The configuration of the service.

use vstd::prelude::*;
use crate::models::League;

verus! {

/// Where the store lies unless the configuration says otherwise.
pub fn default_db_path() -> (path: String)
    ensures
        path@ == "./db"@,
{
    "./db".to_string()
}

/// The milliseconds that a listener waits between two frames unless the
/// configuration says otherwise.
pub fn default_sse_sleep() -> (millis: u64)
    ensures
        millis == 100,
{
    100
}

/// The default of a switch that is on unless the configuration says
/// otherwise.
pub fn default_true() -> (on: bool)
    ensures
        on,
{
    true
}

/// The default of a switch that is off unless the configuration says
/// otherwise.
pub fn default_false() -> (on: bool)
    ensures
        !on,
{
    false
}

/// The configuration.
#[derive(Debug)]
pub struct Config {
    pub port: u16,
    pub ha_url: String,
    pub shl_url: String,
    pub sse_url: String,
    pub apn_host: String,
    pub apn_key_path: String,
    pub apn_key_id: String,
    pub apn_team_id: String,
    pub apn_topic: String,
    pub db_path: String,
    pub api_key: String,
    pub api_admin_key: String,
    pub sse_sleep: u64,
    pub sse_file_append: bool,
    pub poll: bool,
}

impl Config {
    /// The address of the provider of `league`.
    pub open spec fn url_of(&self, league: League) -> Seq<char> {
        match league {
            League::HA => self.ha_url@,
            League::SHL => self.shl_url@,
        }
    }

    /// The address of the provider of `league`.
    pub fn get_url(&self, league: &League) -> (url: &str)
        ensures
            url@ == self.url_of(*league),
    {
        match league {
            League::HA => self.ha_url.as_str(),
            League::SHL => self.shl_url.as_str(),
        }
    }

    /// Whether `given` is the key that lets a client write.
    pub fn is_api_key(&self, given: &str) -> (ok: bool)
        ensures
            ok == (given@ == self.api_key@),
    {
        crate::text::str_eq(given, self.api_key.as_str())
    }
}

/// Turns a result into an option, as the place that drops the error does.
pub trait LogResult<T> {
    /// The value of a success.
    spec fn value(self) -> Option<T>;

    /// The value of a success; the error of a failure is dropped.
    fn ok_log(self, msg: &str) -> (value: Option<T>)
        ensures
            value == self.value(),
    ;
}

impl<T, E> LogResult<T> for Result<T, E> {
    open spec fn value(self) -> Option<T> {
        match self {
            Ok(o) => Some(o),
            Err(_) => None,
        }
    }

    fn ok_log(self, msg: &str) -> (value: Option<T>) {
        match self {
            Ok(o) => Some(o),
            Err(_) => None,
        }
    }
}

} // verus!
