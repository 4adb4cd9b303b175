//! Login sessions and the claims of the tokens they hand out.

use crate::clock::{now_millis, now_seconds};
use crate::ids::{new_uuid, uuid_text};
use crate::time::{clamp_i64, shift};
use uuid::Uuid;
use vstd::prelude::*;
use vstd::string::StringExecFns;

verus! {

#[verifier::external_type_specification]
#[verifier::external_body]
pub struct ExUuidError(uuid::Error);

/// Relies on `uuid::Uuid::parse_str`: the identifier written in `s`, or why there is none.
#[verifier::external_body]
fn parse_uuid(s: &str) -> (r: Result<Uuid, uuid::Error>) {
    Uuid::parse_str(s)
}

/// Milliseconds in an hour.
pub const HOUR_MILLIS: i64 = 3_600_000;

/// Seconds in an hour.
pub const HOUR_SECONDS: i64 = 3_600;

/// Seconds in a day.
pub const DAY_SECONDS: i64 = 86_400;

/// A login session, identified by its refresh token. Times are in
/// milliseconds since the Unix epoch.
#[derive(Debug)]
pub struct Session {
    pub id: Uuid,
    pub user_id: Uuid,
    pub refresh_token: String,
    pub ip_address: Option<String>,
    pub user_agent: Option<String>,
    pub expires_at: i64,
    pub created_at: i64,
    pub last_used_at: i64,
    pub is_active: bool,
}

impl Session {
    /// An active session of `user_id` opened at `now`, ending `expires_in_hours` later.
    pub fn new_at(
        user_id: Uuid,
        refresh_token: String,
        expires_in_hours: i64,
        ip_address: Option<String>,
        user_agent: Option<String>,
        now: i64,
    ) -> (s: Session)
        ensures
            s.user_id == user_id,
            s.refresh_token == refresh_token,
            s.ip_address == ip_address,
            s.user_agent == user_agent,
            s.expires_at == clamp_i64(now + expires_in_hours * HOUR_MILLIS),
            s.created_at == now,
            s.last_used_at == now,
            s.is_active,
    {
        Session {
            id: new_uuid(),
            user_id,
            refresh_token,
            ip_address,
            user_agent,
            expires_at: shift(now, expires_in_hours, HOUR_MILLIS),
            created_at: now,
            last_used_at: now,
            is_active: true,
        }
    }

    /// An active session of `user_id` opened now, ending `expires_in_hours` later.
    pub fn new(
        user_id: Uuid,
        refresh_token: String,
        expires_in_hours: i64,
        ip_address: Option<String>,
        user_agent: Option<String>,
    ) -> (s: Session)
        ensures
            s.user_id == user_id,
            s.refresh_token == refresh_token,
            s.ip_address == ip_address,
            s.user_agent == user_agent,
            s.expires_at == clamp_i64(s.created_at + expires_in_hours * HOUR_MILLIS),
            s.last_used_at == s.created_at,
            s.is_active,
    {
        Session::new_at(user_id, refresh_token, expires_in_hours, ip_address, user_agent, now_millis())
    }

    /// Whether the session has ended by time `now`.
    pub fn is_expired_at(&self, now: i64) -> (r: bool)
        ensures
            r == (now > self.expires_at),
    {
        now > self.expires_at
    }

    /// Whether the session has ended.
    pub fn is_expired(&self) -> bool {
        self.is_expired_at(now_millis())
    }

    /// Whether the session is active and has not ended by time `now`.
    pub fn is_valid_at(&self, now: i64) -> (r: bool)
        ensures
            r == (self.is_active && now <= self.expires_at),
    {
        self.is_active && !self.is_expired_at(now)
    }

    /// Whether the session is active and has not ended.
    pub fn is_valid(&self) -> (r: bool)
        ensures
            r ==> self.is_active,
    {
        self.is_valid_at(now_millis())
    }

    /// Records a use at `now`.
    pub fn update_last_used_at(&mut self, now: i64)
        ensures
            *final(self) == (Session { last_used_at: now, ..*old(self) }),
    {
        self.last_used_at = now;
    }

    /// Records a use now.
    pub fn update_last_used(&mut self)
        ensures
            *final(self) == (Session { last_used_at: final(self).last_used_at, ..*old(self) }),
    {
        self.update_last_used_at(now_millis());
    }

    /// Ends the session for good.
    pub fn revoke(&mut self)
        ensures
            *final(self) == (Session { is_active: false, ..*old(self) }),
    {
        self.is_active = false;
    }

    /// Moves the end of the session to `hours` after `now`.
    pub fn extend_at(&mut self, hours: i64, now: i64)
        ensures
            *final(self) == (Session { expires_at: clamp_i64(now + hours * HOUR_MILLIS), ..*old(self) }),
    {
        self.expires_at = shift(now, hours, HOUR_MILLIS);
    }

    /// Moves the end of the session to `hours` from now.
    pub fn extend(&mut self, hours: i64)
        ensures
            *final(self) == (Session { expires_at: final(self).expires_at, ..*old(self) }),
    {
        self.extend_at(hours, now_millis());
    }
}

/// What a token is for.
#[derive(Debug, Clone, Copy, PartialEq, Eq, Structural)]
pub enum TokenType {
    Access,
    Refresh,
}

/// The claims a token carries. Times are in seconds since the Unix epoch.
#[derive(Debug)]
pub struct Claims {
    /// The user's identifier, as text.
    pub sub: String,
    pub email: String,
    pub role: String,
    /// When the token was issued.
    pub iat: i64,
    /// When the token stops being accepted.
    pub exp: i64,
    pub token_type: TokenType,
}

impl Claims {
    /// The claims of an access token for `user_id`, issued at `now` and valid
    /// for `expires_in_hours`.
    pub fn new_access_token_at(user_id: Uuid, email: String, role: String, expires_in_hours: i64, now: i64) -> (c: Claims)
        ensures
            c.email == email,
            c.role == role,
            c.iat == now,
            c.exp == clamp_i64(now + expires_in_hours * HOUR_SECONDS),
            c.token_type == TokenType::Access,
    {
        Claims {
            sub: uuid_text(&user_id),
            email,
            role,
            iat: now,
            exp: shift(now, expires_in_hours, HOUR_SECONDS),
            token_type: TokenType::Access,
        }
    }

    /// The claims of an access token for `user_id`, issued now and valid for `expires_in_hours`.
    pub fn new_access_token(user_id: Uuid, email: String, role: String, expires_in_hours: i64) -> (c: Claims)
        ensures
            c.email == email,
            c.role == role,
            c.exp == clamp_i64(c.iat + expires_in_hours * HOUR_SECONDS),
            c.token_type == TokenType::Access,
    {
        Claims::new_access_token_at(user_id, email, role, expires_in_hours, now_seconds())
    }

    /// The claims of a refresh token for `user_id`, issued at `now` and valid
    /// for `expires_in_days`.
    pub fn new_refresh_token_at(user_id: Uuid, email: String, role: String, expires_in_days: i64, now: i64) -> (c: Claims)
        ensures
            c.email == email,
            c.role == role,
            c.iat == now,
            c.exp == clamp_i64(now + expires_in_days * DAY_SECONDS),
            c.token_type == TokenType::Refresh,
    {
        Claims {
            sub: uuid_text(&user_id),
            email,
            role,
            iat: now,
            exp: shift(now, expires_in_days, DAY_SECONDS),
            token_type: TokenType::Refresh,
        }
    }

    /// The claims of a refresh token for `user_id`, issued now and valid for `expires_in_days`.
    pub fn new_refresh_token(user_id: Uuid, email: String, role: String, expires_in_days: i64) -> (c: Claims)
        ensures
            c.email == email,
            c.role == role,
            c.exp == clamp_i64(c.iat + expires_in_days * DAY_SECONDS),
            c.token_type == TokenType::Refresh,
    {
        Claims::new_refresh_token_at(user_id, email, role, expires_in_days, now_seconds())
    }

    /// Whether the token is no longer accepted at time `now`.
    pub fn is_expired_at(&self, now: i64) -> (r: bool)
        ensures
            r == (now > self.exp),
    {
        now > self.exp
    }

    /// Whether the token is no longer accepted.
    pub fn is_expired(&self) -> bool {
        self.is_expired_at(now_seconds())
    }

    /// Whether this is an access token.
    pub fn is_access_token(&self) -> (r: bool)
        ensures
            r == (self.token_type == TokenType::Access),
    {
        self.token_type == TokenType::Access
    }

    /// Whether this is a refresh token.
    pub fn is_refresh_token(&self) -> (r: bool)
        ensures
            r == (self.token_type == TokenType::Refresh),
    {
        self.token_type == TokenType::Refresh
    }

    /// The user's identifier, read from `sub`.
    pub fn user_id(&self) -> Result<Uuid, uuid::Error> {
        parse_uuid(self.sub.as_str())
    }
}

/// An access token and a refresh token, handed out together.
#[derive(Debug)]
pub struct TokenPair {
    pub access_token: String,
    pub refresh_token: String,
    /// Always `Bearer`.
    pub token_type: String,
    /// How long the access token lasts, in seconds.
    pub expires_in: i64,
}

impl TokenPair {
    /// A pair of bearer tokens.
    pub fn new(access_token: String, refresh_token: String, expires_in: i64) -> (p: TokenPair)
        ensures
            p.access_token == access_token,
            p.refresh_token == refresh_token,
            p.token_type@ == "Bearer"@,
            p.expires_in == expires_in,
    {
        TokenPair { access_token, refresh_token, token_type: String::from_str("Bearer"), expires_in }
    }
}

/// The body of a login.
#[derive(Debug)]
pub struct LoginRequest {
    pub email: String,
    pub password: String,
}

/// The body of a registration.
#[derive(Debug)]
pub struct RegisterRequest {
    pub email: String,
    pub password: String,
    pub name: String,
}

/// The body of a token refresh.
#[derive(Debug)]
pub struct RefreshTokenRequest {
    pub refresh_token: String,
}

/// The body of a password change.
#[derive(Debug)]
pub struct ChangePasswordRequest {
    pub current_password: String,
    pub new_password: String,
}

} // verus!
