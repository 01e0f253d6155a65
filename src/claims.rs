use vstd::prelude::*;
use crate::role::UserType;

verus! {

/// Lifetime of an access token, in seconds.
pub const ACCESS_TOKEN_TTL_SECS: u64 = 3600;
/// Lifetime of a refresh token, in seconds (equal to the access lifetime).
pub const REFRESH_TOKEN_TTL_SECS: u64 = 3600;

/// The issuer written into access tokens.
pub open spec fn issuer_text() -> Seq<char> {
    "Fiya webservice"@
}

/// The audience written into access tokens and required when they are checked.
pub open spec fn audience_text() -> Seq<char> {
    "Fiya webApp"@
}

/// The claim set of an access token.
#[derive(Debug, Clone)]
pub struct Claims {
    pub exp: u64,
    pub iat: u64,
    pub sub: usize,
    pub iss: String,
    pub aud: String,
    pub role: UserType,
}

/// The claim set of a refresh token: `id` names the one stored session it
/// belongs to, `sub` the user.
#[derive(Debug, Clone, Copy, PartialEq, Eq, Structural)]
pub struct RefreshTokenClaims {
    pub id: u64,
    pub exp: u64,
    pub iat: u64,
    pub sub: usize,
}

/// A claim set handed to the token signer.
#[derive(Debug, Clone)]
pub enum TokenClaims {
    Access(Claims),
    Refresh(RefreshTokenClaims),
}

/// `c` is the access claim set issued to `user` with `role` at time `now`.
pub open spec fn is_access_claims(c: Claims, user: usize, role: UserType, now: u64) -> bool {
    &&& c.sub == user
    &&& c.role == role
    &&& c.iat == now
    &&& c.exp == now + ACCESS_TOKEN_TTL_SECS
    &&& c.iss@ == issuer_text()
    &&& c.aud@ == audience_text()
}

/// The refresh claim set for `session` of `user` issued at time `now`.
pub open spec fn refresh_claims_spec(session: u64, user: usize, now: u64) -> RefreshTokenClaims {
    RefreshTokenClaims { id: session, exp: (now + REFRESH_TOKEN_TTL_SECS) as u64, iat: now, sub: user }
}

/// Clock values for which the expiry of a token issued now fits in a `u64`.
pub open spec fn issuable_at(now: u64) -> bool {
    now as int + ACCESS_TOKEN_TTL_SECS as int <= u64::MAX as int
}

impl Claims {
    /// The access claims for `user_id` with `role`, issued at `now`.
    pub fn new(user_id: usize, role: UserType, now: u64) -> (r: Claims)
        requires
            issuable_at(now),
        ensures
            is_access_claims(r, user_id, role, now),
    {
        Claims {
            exp: now + ACCESS_TOKEN_TTL_SECS,
            iat: now,
            sub: user_id,
            iss: "Fiya webservice".to_owned(),
            aud: "Fiya webApp".to_owned(),
            role,
        }
    }

    /// Whether the claims name this service as issuer and audience.
    pub fn is_for_this_service(&self) -> (r: bool)
        ensures
            r == (self.iss@ == issuer_text() && self.aud@ == audience_text()),
    {
        self.iss == "Fiya webservice".to_owned() && self.aud == "Fiya webApp".to_owned()
    }
}

impl RefreshTokenClaims {
    /// The refresh claims for `session_id` of `user_id`, issued at `now`.
    pub fn new(session_id: u64, user_id: usize, now: u64) -> (r: RefreshTokenClaims)
        requires
            issuable_at(now),
        ensures
            r == refresh_claims_spec(session_id, user_id, now),
    {
        RefreshTokenClaims { id: session_id, exp: now + REFRESH_TOKEN_TTL_SECS, iat: now, sub: user_id }
    }
}

} // verus!
