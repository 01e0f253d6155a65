use vstd::prelude::*;
use crate::auth_service::{claimed_role, issued, login_allowed, password_replaced, session_accepts, user_with_email};
use crate::claims::{refresh_claims_spec, RefreshTokenClaims, TokenClaims};
use crate::dto::{LoginDto, LoginSuccessDto};
use crate::models::User;
use crate::response::AuthLoginSuccessResponse;
use crate::role::role_text;
use crate::spm_service::device_authorized;
use crate::spm_repository::SpmStoreView;
use crate::user_repository::{customer_count, customers_of, owned_by, UserStoreView, MAX_CUSTOMERS_PER_ADMIN};

verus! {

/// A second login of the same user makes the refresh claims of the first
/// login stale: they no longer match the user's live session, so refreshing
/// with them is refused as a bad request.
pub proof fn lemma_relogin_invalidates_earlier_refresh<S: Fn(TokenClaims) -> Option<String>>(
    s0: UserStoreView,
    s1: UserStoreView,
    s2: UserStoreView,
    user: User,
    now1: u64,
    now2: u64,
    later: u64,
    agent1: Seq<char>,
    agent2: Seq<char>,
    sign: S,
    first: AuthLoginSuccessResponse<LoginSuccessDto>,
    second: AuthLoginSuccessResponse<LoginSuccessDto>,
)
    requires
        s0.wf(),
        user.id < s0.users.len(),
        issued(s0, s1, user, now1, agent1, sign, first),
        issued(s1, s2, user, now2, agent2, sign, second),
    ensures
        !session_accepts(s2, refresh_claims_spec(s0.next_session_id, user.id, now1), later),
{
    assert(s2.sessions[user.id as int] is Some);
}

/// Refresh claims can be used once: after a refresh that they were accepted
/// for, they no longer match the user's live session.
pub proof fn lemma_refresh_claims_single_use<S: Fn(TokenClaims) -> Option<String>>(
    s0: UserStoreView,
    s1: UserStoreView,
    c: RefreshTokenClaims,
    now: u64,
    later: u64,
    agent: Seq<char>,
    sign: S,
    resp: AuthLoginSuccessResponse<LoginSuccessDto>,
)
    requires
        s0.wf(),
        session_accepts(s0, c, now),
        issued(s0, s1, s0.users[c.sub as int], now, agent, sign, resp),
    ensures
        !session_accepts(s1, c, later),
{
    let i = c.sub as int;
    assert(s0.sessions[i] is Some);
    assert(s0.users[i].id == c.sub);
    assert(s0.sessions[i]->Some_0.id < s0.next_session_id);
    assert(s1.sessions[i] is Some);
}

/// After a password change, a login with the account's email, its role and
/// the new password is accepted.
pub proof fn lemma_changed_password_logs_in(
    pre: UserStoreView,
    post: UserStoreView,
    id: usize,
    new_password: Seq<char>,
    p: LoginDto,
)
    requires
        pre.wf(),
        password_replaced(pre, post, id, new_password),
        p.email@ == pre.users[id as int].email@,
        p.password@ == new_password,
        claimed_role(p) == role_text(pre.users[id as int].user_type),
    ensures
        login_allowed(post, p),
{
    let k = id as int;
    assert(post.users[k].email@ == p.email@);
    assert(crate::user_repository::email_registered(post.users, p.email@));
    let j = choose|j: int| 0 <= j < post.users.len() && (#[trigger] post.users[j]).email@ == p.email@;
    if j != k {
        assert(post.users[j] == pre.users[j]);
        assert(pre.users[j].email@ != pre.users[k].email@);
    }
    assert(user_with_email(post.users, p.email@) == post.users[k]);
}

/// A device secret valid for one cage is refused for any other cage whose
/// stored verifier differs.
pub proof fn lemma_other_device_secret_forbidden(
    v: SpmStoreView,
    secret: Seq<char>,
    cage: Seq<char>,
    other_cage: Seq<char>,
    presented: Seq<char>,
)
    requires
        v.wf(),
        device_authorized(v, secret, other_cage, presented),
        forall|i: int, j: int|
            0 <= i < v.device_tokens.len() && 0 <= j < v.device_tokens.len()
                && (#[trigger] v.device_tokens[i]).id@ == cage && (#[trigger] v.device_tokens[j]).id@ == other_cage
                ==> v.device_tokens[i].token@ != v.device_tokens[j].token@,
    ensures
        !device_authorized(v, secret, cage, presented),
{
}

/// In every well-formed store an account lists at most five created
/// customers, and each of them names that account as its creator.
pub proof fn lemma_admin_customer_cap(v: UserStoreView, a: int)
    requires
        v.wf(),
        0 <= a < v.users.len(),
    ensures
        customer_count(v.users[a]) <= MAX_CUSTOMERS_PER_ADMIN,
        forall|j: int| 0 <= j < customers_of(v.users[a]).len()
            ==> owned_by(v.users[#[trigger] customers_of(v.users[a])[j] as int], a),
{
}

} // verus!
