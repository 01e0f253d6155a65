use vstd::prelude::*;
use crate::claims::{
    is_access_claims, issuable_at, refresh_claims_spec, Claims, RefreshTokenClaims, TokenClaims,
    REFRESH_TOKEN_TTL_SECS,
};
use crate::dto::{ChangePasswordDto, LoginDto, LoginSuccessDto, RefreshTokenRequestDto, UpdatePasswordDto};
use crate::error::{
    fails_with, internal_error, ApiErrorResponse, STATUS_BAD_REQUEST, STATUS_INTERNAL, STATUS_UNAUTHORIZED,
};
use crate::models::{shows, NewUser, RefreshToken, User};
use crate::password::{bcrypt_verdict, hash_password, password_matches};
use crate::response::{ApiSuccessResponse, AuthLoginSuccessResponse, AuthLogoutSuccessResponse};
use crate::role::{role_text, UserType};
use crate::user_agent::{is_browser, is_browser_agent};
use crate::user_repository::{email_registered, with_password, UserRepository, UserStoreView};

verus! {

/// The role a login claims: `admin` when none is given.
pub open spec fn claimed_role(p: LoginDto) -> Seq<char> {
    match p.user_type {
        Some(t) => t@,
        None => "admin"@,
    }
}

pub open spec fn is_role_text(s: Seq<char>) -> bool {
    s == role_text(UserType::Admin) || s == role_text(UserType::Customer)
}

/// The account registered under `email` (unique in a well-formed store).
pub open spec fn user_with_email(users: Seq<User>, email: Seq<char>) -> User {
    users[choose|i: int| 0 <= i < users.len() && (#[trigger] users[i]).email@ == email]
}

/// A login that names a known role, a registered email, that account's role,
/// and a password its verifier accepts.
pub open spec fn login_allowed(v: UserStoreView, p: LoginDto) -> bool {
    let u = user_with_email(v.users, p.email@);
    &&& is_role_text(claimed_role(p))
    &&& email_registered(v.users, p.email@)
    &&& role_text(u.user_type) == claimed_role(p)
    &&& bcrypt_verdict(p.password@, u.password@) == Some(true)
}

/// The session that `pre` holds for a new token pair of `user`, issued at `now`.
pub open spec fn session_record(pre: UserStoreView, user: User, now: u64, token: String) -> RefreshToken {
    RefreshToken {
        id: pre.next_session_id,
        user_id: user.id,
        refresh_token: token,
        expires_at: (now + REFRESH_TOKEN_TTL_SECS) as u64,
        revoked: None,
    }
}

/// `resp` hands `user` a token pair signed by `sign`, with a session identifier
/// never used before, and `post` is `pre` with that session as the user's one
/// session.
pub open spec fn issued<S: Fn(TokenClaims) -> Option<String>>(
    pre: UserStoreView,
    post: UserStoreView,
    user: User,
    now: u64,
    user_agent: Seq<char>,
    sign: S,
    resp: AuthLoginSuccessResponse<LoginSuccessDto>,
) -> bool {
    let sid = pre.next_session_id;
    &&& sid < u64::MAX
    &&& post.next_session_id == sid + 1
    &&& post.users == pre.users
    &&& post.sessions == pre.sessions.update(
        user.id as int,
        Some(session_record(pre, user, now, resp.data.refresh_token)),
    )
    &&& exists|c: Claims|
        is_access_claims(c, user.id, user.user_type, now) && #[trigger] call_ensures(
            sign,
            (TokenClaims::Access(c),),
            Some(resp.data.access_token),
        )
    &&& call_ensures(
        sign,
        (TokenClaims::Refresh(refresh_claims_spec(sid, user.id, now)),),
        Some(resp.data.refresh_token),
    )
    &&& resp.data.token_type@ == "Bearer"@
    &&& (resp.http_only_refresh_token is Some <==> is_browser_agent(user_agent))
    &&& (resp.http_only_refresh_token matches Some(p) ==> p.0 == resp.data.refresh_token
        && p.1 == now + REFRESH_TOKEN_TTL_SECS)
}

/// `sign` can refuse some claim set.
pub open spec fn signer_may_fail<S: Fn(TokenClaims) -> Option<String>>(sign: S) -> bool {
    exists|c: TokenClaims| #[trigger] call_ensures(sign, (c,), None::<String>)
}

/// The refresh claims `c` match the live session of their user at `now`.
pub open spec fn session_accepts(v: UserStoreView, c: RefreshTokenClaims, now: u64) -> bool {
    v.live_session(c.sub as int) matches Some(s) && s.id == c.id && now < s.expires_at
}

/// The refresh token a request carries: the body's when present, else the cookie's.
pub open spec fn chosen_refresh_token(cookie: Option<String>, body: Option<String>) -> Option<String> {
    if body is Some {
        body
    } else {
        cookie
    }
}

pub fn select_refresh_token(cookie: Option<String>, body: Option<String>) -> (r: Option<String>)
    ensures
        r == chosen_refresh_token(cookie, body),
{
    match body {
        Some(b) => Some(b),
        None => cookie,
    }
}

/// Login, refresh, logout and password changes over a user store.
pub struct AuthService;

impl AuthService {
    pub fn new() -> (r: Self) {
        AuthService
    }

    /// Issues a new access/refresh pair for user `user_id` and makes the new
    /// session that user's only one.
    pub fn issue_token_pair<S: Fn(TokenClaims) -> Option<String>>(
        &self,
        repo: &mut UserRepository,
        user_id: usize,
        user_agent: &str,
        now: u64,
        sign: &S,
        message: String,
    ) -> (r: Result<AuthLoginSuccessResponse<LoginSuccessDto>, ApiErrorResponse>)
        requires
            old(repo)@.wf(),
            user_id < old(repo)@.users.len(),
            issuable_at(now),
            forall|c: TokenClaims| call_requires(*sign, (c,)),
        ensures
            final(repo)@.wf(),
            r matches Ok(resp) ==> issued(old(repo)@, final(repo)@, old(repo)@.users[user_id as int], now, user_agent@, *sign, resp),
            r matches Err(e) ==> e.status == STATUS_INTERNAL
                && final(repo)@.users == old(repo)@.users
                && final(repo)@.sessions == old(repo)@.sessions,
            r is Err ==> old(repo)@.next_session_id == u64::MAX || signer_may_fail(*sign),
    {
        let ghost pre = repo@;
        let role = repo.find_user_by_id(user_id).unwrap().user_type;
        let sid = match repo.reserve_session_id() {
            Some(id) => id,
            None => return Err(internal_error("session identifiers exhausted".to_owned())),
        };
        let access_claims = Claims::new(user_id, role, now);
        let ghost ac = access_claims;
        let access_token = match sign(TokenClaims::Access(access_claims)) {
            Some(t) => t,
            None => return Err(internal_error("token signing failed".to_owned())),
        };
        let refresh_claims = RefreshTokenClaims::new(sid, user_id, now);
        let refresh_token = match sign(TokenClaims::Refresh(refresh_claims)) {
            Some(t) => t,
            None => return Err(internal_error("token signing failed".to_owned())),
        };
        let expires_at = refresh_claims.exp;
        let cookie = if is_browser(user_agent) {
            Some((refresh_token.clone(), expires_at))
        } else {
            None
        };
        let stored = repo.create_user_refresh_token(
            RefreshToken { id: sid, user_id, refresh_token: refresh_token.clone(), expires_at, revoked: None },
        );
        if stored.is_err() {
            return Err(internal_error("session store failed".to_owned()));
        }
        let resp = AuthLoginSuccessResponse::new(
            message,
            LoginSuccessDto { access_token, refresh_token, token_type: "Bearer".to_owned() },
            None,
            cookie,
        );
        proof {
            assert(pre.users[user_id as int].id == user_id);
            assert(is_access_claims(ac, user_id, role, now));
            assert(call_ensures(*sign, (TokenClaims::Access(ac),), Some(resp.data.access_token)));
        }
        Ok(resp)
    }

    /// Authenticates by email, claimed role and password, and on success
    /// issues a token pair whose session replaces the user's earlier one.
    pub fn login<S: Fn(TokenClaims) -> Option<String>>(
        &self,
        repo: &mut UserRepository,
        user_agent: &str,
        payload: LoginDto,
        now: u64,
        sign: &S,
    ) -> (r: Result<AuthLoginSuccessResponse<LoginSuccessDto>, ApiErrorResponse>)
        requires
            old(repo)@.wf(),
            issuable_at(now),
            forall|c: TokenClaims| call_requires(*sign, (c,)),
        ensures
            final(repo)@.wf(),
            final(repo)@.users == old(repo)@.users,
            r is Err ==> final(repo)@.sessions == old(repo)@.sessions,
            !is_role_text(claimed_role(payload)) ==> fails_with(r, STATUS_BAD_REQUEST),
            is_role_text(claimed_role(payload)) && !login_allowed(old(repo)@, payload)
                ==> fails_with(r, STATUS_UNAUTHORIZED),
            login_allowed(old(repo)@, payload) ==> r is Ok || (fails_with(r, STATUS_INTERNAL)
                && (old(repo)@.next_session_id == u64::MAX || signer_may_fail(*sign))),
            r matches Ok(resp) ==> login_allowed(old(repo)@, payload) && issued(
                old(repo)@,
                final(repo)@,
                user_with_email(old(repo)@.users, payload.email@),
                now,
                user_agent@,
                *sign,
                resp,
            ),
    {
        let ghost pre = repo@;
        let claimed = match &payload.user_type {
            Some(t) => t.clone(),
            None => UserType::Admin.to_string(),
        };
        let role = match UserType::from_str(claimed.as_str()) {
            Ok(t) => t,
            Err(_) => return Err(ApiErrorResponse::new(STATUS_BAD_REQUEST, "Invalid user type".to_owned())),
        };
        let (user_id, stored_role, password_ok) = match repo.find_user_by_email(payload.email.as_str()) {
            Some(u) => (u.id, u.user_type, password_matches(payload.password.as_str(), u.password.as_str())),
            None => return Err(ApiErrorResponse::new(STATUS_UNAUTHORIZED, "User not found".to_owned())),
        };
        proof {
            let k = choose|i: int| 0 <= i < pre.users.len() && (#[trigger] pre.users[i]).email@ == payload.email@;
            assert(pre.users[k].email@ == pre.users[user_id as int].email@);
            assert(k == user_id);
            assert(user_with_email(pre.users, payload.email@) == pre.users[user_id as int]);
            crate::role::lemma_role_text_injective(role, stored_role);
        }
        if role != stored_role {
            return Err(ApiErrorResponse::new(STATUS_UNAUTHORIZED, "Invalid credentials".to_owned()));
        }
        if !password_ok {
            return Err(ApiErrorResponse::new(STATUS_UNAUTHORIZED, "Invalid credentials".to_owned()));
        }
        self.issue_token_pair(repo, user_id, user_agent, now, sign, "Login successful".to_owned())
    }

    /// Exchanges refresh claims that match the user's live session for a new
    /// token pair; the new session replaces the one the claims named.
    pub fn rotate_session<S: Fn(TokenClaims) -> Option<String>>(
        &self,
        repo: &mut UserRepository,
        user_agent: &str,
        claims: RefreshTokenClaims,
        now: u64,
        sign: &S,
    ) -> (r: Result<AuthLoginSuccessResponse<LoginSuccessDto>, ApiErrorResponse>)
        requires
            old(repo)@.wf(),
            issuable_at(now),
            forall|c: TokenClaims| call_requires(*sign, (c,)),
        ensures
            final(repo)@.wf(),
            final(repo)@.users == old(repo)@.users,
            !session_accepts(old(repo)@, claims, now) ==> fails_with(r, STATUS_BAD_REQUEST)
                && final(repo)@ == old(repo)@,
            session_accepts(old(repo)@, claims, now) ==> r is Ok || (fails_with(r, STATUS_INTERNAL)
                && (old(repo)@.next_session_id == u64::MAX || signer_may_fail(*sign))),
            r matches Ok(resp) ==> session_accepts(old(repo)@, claims, now) && issued(
                old(repo)@,
                final(repo)@,
                old(repo)@.users[claims.sub as int],
                now,
                user_agent@,
                *sign,
                resp,
            ),
            r matches Err(e) ==> final(repo)@.sessions == old(repo)@.sessions,
    {
        let live = match repo.find_valid_user_refresh_token_by_user_id(claims.sub) {
            Some(s) => s.id == claims.id && now < s.expires_at,
            None => false,
        };
        if !live {
            return Err(ApiErrorResponse::new(STATUS_BAD_REQUEST, "Bad request".to_owned()));
        }
        if repo.find_user_by_id(claims.sub).is_none() {
            return Err(ApiErrorResponse::new(STATUS_BAD_REQUEST, "Bad request".to_owned()));
        }
        self.issue_token_pair(repo, claims.sub, user_agent, now, sign, "token refreshed successfully".to_owned())
    }

    /// Refreshes a session from the token in the body, or else the cookie.
    pub fn refresh_user_token<S: Fn(TokenClaims) -> Option<String>, D: Fn(String) -> Option<RefreshTokenClaims>>(
        &self,
        repo: &mut UserRepository,
        user_agent: &str,
        refresh_token_from_cookie: Option<String>,
        payload: RefreshTokenRequestDto,
        now: u64,
        sign: &S,
        decode: &D,
    ) -> (r: Result<AuthLoginSuccessResponse<LoginSuccessDto>, ApiErrorResponse>)
        requires
            old(repo)@.wf(),
            issuable_at(now),
            forall|c: TokenClaims| call_requires(*sign, (c,)),
            forall|t: String| call_requires(*decode, (t,)),
        ensures
            final(repo)@.wf(),
            final(repo)@.users == old(repo)@.users,
            chosen_refresh_token(refresh_token_from_cookie, payload.refresh_token) is None
                ==> fails_with(r, STATUS_UNAUTHORIZED) && final(repo)@ == old(repo)@
                && r->Err_0.message@ == "Invalid refresh token request"@,
            chosen_refresh_token(refresh_token_from_cookie, payload.refresh_token) is Some
                ==> !fails_with(r, STATUS_UNAUTHORIZED),
            chosen_refresh_token(refresh_token_from_cookie, payload.refresh_token) matches Some(t)
                && (forall|c: RefreshTokenClaims| !call_ensures(*decode, (t,), Some(c)))
                ==> fails_with(r, STATUS_BAD_REQUEST) && final(repo)@ == old(repo)@,
            fails_with(r, STATUS_BAD_REQUEST) ==> final(repo)@ == old(repo)@ && {
                let t = chosen_refresh_token(refresh_token_from_cookie, payload.refresh_token)->Some_0;
                ||| call_ensures(*decode, (t,), None::<RefreshTokenClaims>)
                ||| exists|c: RefreshTokenClaims| #[trigger] call_ensures(*decode, (t,), Some(c))
                    && !session_accepts(old(repo)@, c, now)
            },
            r is Err ==> final(repo)@.sessions == old(repo)@.sessions,
            r matches Err(e) ==> e.status == STATUS_UNAUTHORIZED || e.status == STATUS_BAD_REQUEST
                || e.status == STATUS_INTERNAL,
            r matches Ok(resp) ==> exists|c: RefreshTokenClaims| {
                &&& #[trigger] call_ensures(
                    *decode,
                    (chosen_refresh_token(refresh_token_from_cookie, payload.refresh_token)->Some_0,),
                    Some(c),
                )
                &&& session_accepts(old(repo)@, c, now)
                &&& issued(old(repo)@, final(repo)@, old(repo)@.users[c.sub as int], now, user_agent@, *sign, resp)
            },
    {
        let token = match select_refresh_token(refresh_token_from_cookie, payload.refresh_token) {
            Some(t) => t,
            None => return Err(ApiErrorResponse::new(STATUS_UNAUTHORIZED, "Invalid refresh token request".to_owned())),
        };
        let ghost presented = token;
        let claims = match decode(token) {
            Some(c) => c,
            None => return Err(ApiErrorResponse::new(STATUS_BAD_REQUEST, "bad request".to_owned())),
        };
        let r = self.rotate_session(repo, user_agent, claims, now, sign);
        proof {
            assert(call_ensures(*decode, (presented,), Some(claims)));
        }
        r
    }

    /// Ends the user's session. Always reports success.
    pub fn logout(&self, repo: &mut UserRepository, user_id: usize) -> (r: Result<AuthLogoutSuccessResponse, ApiErrorResponse>)
        requires
            old(repo)@.wf(),
        ensures
            final(repo)@.wf(),
            r is Ok,
            final(repo)@.users == old(repo)@.users,
            r matches Ok(o) ==> o.message@ == "Logout successful"@,
            user_id < old(repo)@.users.len() ==> final(repo)@.sessions == old(repo)@.sessions.update(user_id as int, None),
            user_id >= old(repo)@.users.len() ==> final(repo)@.sessions == old(repo)@.sessions,
            final(repo)@.live_session(user_id as int) is None,
            forall|i: int| i != user_id ==> final(repo)@.live_session(i) == old(repo)@.live_session(i),
    {
        let _ = repo.delete_user_refresh_token(user_id);
        Ok(AuthLogoutSuccessResponse::new("Logout successful".to_owned()))
    }

    /// The account of the authenticated caller.
    pub fn get_authenticated_user(&self, repo: &UserRepository, id: usize) -> (r: Result<ApiSuccessResponse<NewUser>, ApiErrorResponse>)
        ensures
            r is Ok <==> id < repo@.users.len(),
            r matches Ok(resp) ==> shows(resp.data, repo@.users[id as int]),
            r matches Err(e) ==> e.status == STATUS_UNAUTHORIZED,
    {
        match repo.find_user_by_id(id) {
            Some(u) => Ok(ApiSuccessResponse::new(
                "Successfully fetched authenticated user".to_owned(),
                NewUser::from_user(u),
                None,
            )),
            None => Err(ApiErrorResponse::new(STATUS_UNAUTHORIZED, "Unauthorized".to_owned())),
        }
    }

    /// Sets a new password without checking the old one (first login, or a
    /// reset by an administrator).
    pub fn update_user_password(&self, repo: &mut UserRepository, user_id: usize, payload: UpdatePasswordDto)
        -> (r: Result<ApiSuccessResponse<()>, ApiErrorResponse>)
        requires
            old(repo)@.wf(),
        ensures
            final(repo)@.wf(),
            final(repo)@.sessions == old(repo)@.sessions,
            final(repo)@.next_session_id == old(repo)@.next_session_id,
            user_id >= old(repo)@.users.len() ==> fails_with(r, STATUS_UNAUTHORIZED),
            user_id < old(repo)@.users.len() ==> r is Ok || fails_with(r, STATUS_INTERNAL),
            r matches Err(e) ==> final(repo)@ == old(repo)@ && (e.status == STATUS_UNAUTHORIZED || e.status == STATUS_INTERNAL),
            r is Ok ==> password_replaced(old(repo)@, final(repo)@, user_id, payload.password@),
    {
        if repo.find_user_by_id(user_id).is_none() {
            return Err(ApiErrorResponse::new(STATUS_UNAUTHORIZED, "Unauthorized".to_owned()));
        }
        let verifier = hash_password(payload.password.as_str())?;
        match repo.update_user_password_by_id(user_id, verifier) {
            Ok(()) => Ok(ApiSuccessResponse::new("Successfully updated user password".to_owned(), (), None)),
            Err(e) => Err(e),
        }
    }

    /// Changes the password after checking the current one. A wrong current
    /// password is a bad request and leaves the stored verifier as it was.
    pub fn change_user_password(&self, repo: &mut UserRepository, user_id: usize, payload: ChangePasswordDto)
        -> (r: Result<ApiSuccessResponse<()>, ApiErrorResponse>)
        requires
            old(repo)@.wf(),
        ensures
            final(repo)@.wf(),
            final(repo)@.sessions == old(repo)@.sessions,
            final(repo)@.next_session_id == old(repo)@.next_session_id,
            user_id >= old(repo)@.users.len() ==> fails_with(r, STATUS_UNAUTHORIZED),
            user_id < old(repo)@.users.len()
                && bcrypt_verdict(payload.old_password@, old(repo)@.users[user_id as int].password@) != Some(true)
                ==> fails_with(r, STATUS_BAD_REQUEST),
            user_id < old(repo)@.users.len()
                && bcrypt_verdict(payload.old_password@, old(repo)@.users[user_id as int].password@) == Some(true)
                ==> r is Ok || fails_with(r, STATUS_INTERNAL),
            r is Err ==> final(repo)@ == old(repo)@,
            r is Ok ==> user_id < old(repo)@.users.len()
                && bcrypt_verdict(payload.old_password@, old(repo)@.users[user_id as int].password@) == Some(true)
                && password_replaced(old(repo)@, final(repo)@, user_id, payload.new_password@),
    {
        let valid = match repo.find_user_by_id(user_id) {
            Some(u) => password_matches(payload.old_password.as_str(), u.password.as_str()),
            None => return Err(ApiErrorResponse::new(STATUS_UNAUTHORIZED, "Unauthorized".to_owned())),
        };
        if !valid {
            return Err(ApiErrorResponse::new(STATUS_BAD_REQUEST, "Unable to update password".to_owned()));
        }
        let verifier = hash_password(payload.new_password.as_str())?;
        match repo.update_user_password_by_id(user_id, verifier) {
            Ok(()) => Ok(ApiSuccessResponse::new("Successfully changed password".to_owned(), (), None)),
            Err(e) => Err(e),
        }
    }
}

/// `post` is `pre` with user `id`'s verifier replaced by one that accepts
/// `password`; nothing else changed.
pub open spec fn password_replaced(pre: UserStoreView, post: UserStoreView, id: usize, password: Seq<char>) -> bool {
    &&& id < pre.users.len()
    &&& post.users == pre.users.update(id as int, with_password(pre.users[id as int], post.users[id as int].password))
    &&& bcrypt_verdict(password, post.users[id as int].password@) == Some(true)
}

} // verus!
