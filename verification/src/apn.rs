//! The push gateway as the core sees it: the headers of a push, the reading
//! of the gateway's answer, and the age at which the bearer token is renewed.

use vstd::prelude::*;
use crate::game::Timestamp;
use crate::text::{i64_to_string, int_digits, opt_text, str_eq, usize_to_string};

verus! {

/// The seconds after which the bearer token is renewed.
pub const TOKEN_LIFETIME_SECS: i64 = 3300;

/// The seconds for which a connection to the gateway is kept alive.
pub const KEEP_ALIVE_SECS: u64 = 3300;

/// Why a push failed.
#[derive(Clone, Copy, Debug, PartialEq, Eq, Structural)]
pub enum ApnError {
    /// The gateway does not know the device token, or knows it no more.
    BadDeviceToken,
    /// Anything else.
    Other,
}

impl ApnError {
    /// The error's name.
    pub fn to_string(&self) -> (name: String)
        ensures
            name@ == match self {
                ApnError::BadDeviceToken => "BadDeviceToken"@,
                ApnError::Other => "Other"@,
            },
    {
        match self {
            ApnError::BadDeviceToken => "BadDeviceToken".to_string(),
            ApnError::Other => "Other".to_string(),
        }
    }
}

/// The gateway's answer to a push that it refused.
#[derive(Debug)]
pub struct ApnResponse {
    pub reason: Option<String>,
}

/// The kind of a push.
#[derive(Clone, Copy, Debug, PartialEq, Eq, Structural)]
pub enum ApnPushType {
    LiveActivity,
    Alert,
}

impl ApnPushType {
    /// The kind as the gateway's header names it.
    pub open spec fn name(self) -> Seq<char> {
        match self {
            ApnPushType::LiveActivity => "liveactivity"@,
            ApnPushType::Alert => "alert"@,
        }
    }

    /// The kind as the gateway's header names it.
    pub fn to_string(&self) -> (name: String)
        ensures
            name@ == self.name(),
    {
        match self {
            ApnPushType::LiveActivity => "liveactivity".to_string(),
            ApnPushType::Alert => "alert".to_string(),
        }
    }
}

/// The headers of a push.
#[derive(Debug)]
pub struct ApnHeader {
    pub push_type: ApnPushType,
    pub priority: usize,
    pub topic: String,
    pub collapse_id: Option<String>,
    pub expiration: Option<i64>,
}

/// What an `ApnHeader` holds.
pub struct ApnHeaderView {
    pub push_type: ApnPushType,
    pub priority: usize,
    pub topic: Seq<char>,
    pub collapse_id: Option<Seq<char>>,
    pub expiration: Option<i64>,
}

impl View for ApnHeader {
    type V = ApnHeaderView;

    open spec fn view(&self) -> ApnHeaderView {
        ApnHeaderView {
            push_type: self.push_type,
            priority: self.priority,
            topic: self.topic@,
            collapse_id: opt_text(self.collapse_id),
            expiration: self.expiration,
        }
    }
}

impl ApnHeaderView {
    /// The header lines of the push, name and value, in the order in which
    /// they are set: priority, topic and push type, then the expiration and
    /// the collapse id where the push has them.
    pub open spec fn lines(self) -> Seq<(Seq<char>, Seq<char>)> {
        let fixed = seq![
            ("apns-priority"@, int_digits(self.priority as int)),
            ("apns-topic"@, self.topic),
            ("apns-push-type"@, self.push_type.name()),
        ];
        let expiration = match self.expiration {
            Some(at) => seq![("apns-expiration"@, int_digits(at as int))],
            None => Seq::empty(),
        };
        let collapse = match self.collapse_id {
            Some(id) => seq![("apns-collapse-id"@, id)],
            None => Seq::empty(),
        };
        fixed + expiration + collapse
    }
}

/// The views of header lines.
pub open spec fn line_texts(lines: Seq<(String, String)>) -> Seq<(Seq<char>, Seq<char>)> {
    lines.map_values(|line: (String, String)| (line.0@, line.1@))
}

impl ApnHeader {
    /// The header lines of the push, name and value.
    pub fn lines(&self) -> (lines: Vec<(String, String)>)
        ensures
            line_texts(lines@) == self@.lines(),
    {
        let mut lines: Vec<(String, String)> = Vec::new();
        lines.push(("apns-priority".to_string(), usize_to_string(self.priority)));
        lines.push(("apns-topic".to_string(), self.topic.clone()));
        lines.push(("apns-push-type".to_string(), self.push_type.to_string()));
        if let Some(exp) = self.expiration {
            lines.push(("apns-expiration".to_string(), i64_to_string(exp)));
        }
        if let Some(cid) = &self.collapse_id {
            lines.push(("apns-collapse-id".to_string(), cid.clone()));
        }
        assert(line_texts(lines@) =~= self@.lines());
        lines
    }
}

/// How the gateway's answer to a push reads: status 200 means success; a
/// refusal for the reason `BadDeviceToken` or `Unregistered` means that the
/// device token is bad; every other answer is another failure.
pub open spec fn push_outcome(status: u16, reason: Option<Seq<char>>) -> Result<(), ApnError> {
    if status == 200 {
        Ok(())
    } else if reason == Some("BadDeviceToken"@) || reason == Some("Unregistered"@) {
        Err(ApnError::BadDeviceToken)
    } else {
        Err(ApnError::Other)
    }
}

/// The address to which a push for `device_token` is posted.
pub open spec fn push_url(apn_host: Seq<char>, device_token: Seq<char>) -> Seq<char> {
    apn_host + "/3/device/"@ + device_token
}

/// A bearer token and the time at which it was made.
#[derive(Debug)]
pub struct Token {
    pub value: String,
    pub expiration: Timestamp,
}

impl Token {
    /// The token that the client holds after a signing at `now`: what was
    /// signed, made at `now`; none where nothing was signed.
    pub fn signed(signed: Option<String>, now: Timestamp) -> (token: Option<Token>)
        ensures
            match signed {
                Some(value) => token matches Some(t) && t.value@ == value@ && t.expiration == now,
                None => token is None,
            },
    {
        match signed {
            Some(value) => Some(Token { value, expiration: now }),
            None => None,
        }
    }
}

/// The push gateway's client: where the gateway is, under which team and key
/// the client signs, and the bearer token that it holds.
#[derive(Debug)]
pub struct ApnClient {
    pub apn_host: String,
    pub team_id: String,
    pub key_id: String,
    pub key_path: String,
    pub token: Option<Token>,
}

/// The claims of a bearer token that say a text.
pub open spec fn text_claims(team_id: Seq<char>) -> Seq<(Seq<char>, Seq<char>)> {
    seq![("iss"@, team_id)]
}

/// The claims of a bearer token that say a number.
pub open spec fn number_claims(issued_at: i64) -> Seq<(Seq<char>, i64)> {
    seq![("iat"@, issued_at)]
}

/// Signs a token with `jsonwebtoken::encode`: an ES256 token with the key id
/// `key_id` in its header and the claims `texts` and `numbers`, signed with
/// the EC key `key_pem` in PEM form. Trusted; the signature differs from
/// call to call, so nothing is claimed of the token. Nothing comes back
/// where the key cannot be read or the signing fails.
#[verifier::external_body]
fn sign_es256(
    key_id: &str,
    texts: &Vec<(String, String)>,
    numbers: &Vec<(String, i64)>,
    key_pem: &Vec<u8>,
) -> (token: Option<String>) {
    let mut claims = serde_json::Map::new();
    claims.extend(texts.iter().map(|c| (c.0.clone(), serde_json::Value::String(c.1.clone()))));
    claims.extend(numbers.iter().map(|c| (c.0.clone(), serde_json::Value::Number(c.1.into()))));
    let mut header = jsonwebtoken::Header::new(jsonwebtoken::Algorithm::ES256);
    header.kid = Some(key_id.to_string());
    let key = jsonwebtoken::EncodingKey::from_ec_pem(key_pem).ok()?;
    jsonwebtoken::encode(&header, &claims, &key).ok()
}

impl ApnClient {
    /// A client without a token.
    pub fn new(apn_host: String, team_id: String, key_id: String, key_path: String) -> (client:
        ApnClient)
        ensures
            client.apn_host == apn_host,
            client.team_id == team_id,
            client.key_id == key_id,
            client.key_path == key_path,
            client.token is None,
    {
        ApnClient { apn_host, team_id, key_id, key_path, token: None }
    }

    /// Whether the client needs a new token at `now`: it holds none, or the
    /// one that it holds was made 55 minutes ago or earlier.
    pub open spec fn token_is_due(&self, now: Timestamp) -> bool {
        match self.token {
            Some(token) => !now.precedes(token.expiration, TOKEN_LIFETIME_SECS as int),
            None => true,
        }
    }

    /// Whether the client needs a new token at `now`.
    pub fn needs_token(&self, now: Timestamp) -> (due: bool)
        ensures
            due == self.token_is_due(now),
    {
        match &self.token {
            Some(token) => !now.is_before(&token.expiration, TOKEN_LIFETIME_SECS),
            None => true,
        }
    }

    /// The claims of a token that is made at the time `issued_at`, in
    /// seconds: the team as the issuer, and the time.
    pub fn claims(&self, issued_at: i64) -> (claims: (Vec<(String, String)>, Vec<(String, i64)>))
        ensures
            claims.0@.map_values(|c: (String, String)| (c.0@, c.1@)) == text_claims(self.team_id@),
            claims.1@.map_values(|c: (String, i64)| (c.0@, c.1)) == number_claims(issued_at),
    {
        let mut texts: Vec<(String, String)> = Vec::new();
        texts.push(("iss".to_string(), self.team_id.clone()));
        let mut numbers: Vec<(String, i64)> = Vec::new();
        numbers.push(("iat".to_string(), issued_at));
        assert(texts@.map_values(|c: (String, String)| (c.0@, c.1@)) =~= text_claims(
            self.team_id@,
        ));
        assert(numbers@.map_values(|c: (String, i64)| (c.0@, c.1)) =~= number_claims(issued_at));
        (texts, numbers)
    }

    /// Makes a token at `now` with the key `key_pem`, where the client needs
    /// one, and says whether the client holds a token afterwards. A token
    /// that is not due is kept. A new token carries the claims of `claims`
    /// and the client's key id.
    pub fn update_token(&mut self, key_pem: &Vec<u8>, now: Timestamp) -> (held: bool)
        ensures
            held == final(self).token is Some,
            !old(self).token_is_due(now) ==> final(self).token == old(self).token && held,
            old(self).token_is_due(now) ==> (final(self).token matches Some(token)
                ==> token.expiration == now),
            final(self).apn_host == old(self).apn_host,
            final(self).team_id == old(self).team_id,
            final(self).key_id == old(self).key_id,
            final(self).key_path == old(self).key_path,
    {
        if self.needs_token(now) {
            let (texts, numbers) = self.claims(now.secs);
            let signed = sign_es256(self.key_id.as_str(), &texts, &numbers, key_pem);
            self.token = Token::signed(signed, now);
        }
        self.token.is_some()
    }

    /// The address to which a push for `device_token` is posted.
    pub fn push_url(&self, device_token: &str) -> (url: String)
        ensures
            url@ == push_url(self.apn_host@, device_token@),
    {
        let mut url = self.apn_host.clone();
        url.append("/3/device/");
        url.append(device_token);
        url
    }

    /// Reads the gateway's answer to a push.
    pub fn read_answer(status: u16, answer: &ApnResponse) -> (outcome: Result<(), ApnError>)
        ensures
            outcome == push_outcome(status, opt_text(answer.reason)),
    {
        if status == 200 {
            return Ok(());
        }
        match &answer.reason {
            Some(reason) => {
                if str_eq(reason.as_str(), "BadDeviceToken") || str_eq(
                    reason.as_str(),
                    "Unregistered",
                ) {
                    Err(ApnError::BadDeviceToken)
                } else {
                    Err(ApnError::Other)
                }
            },
            None => Err(ApnError::Other),
        }
    }
}

} // verus!
