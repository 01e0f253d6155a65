use vstd::prelude::*;
use crate::claims::{audience_text, issuer_text, Claims};
use crate::error::{fails_with, ApiErrorResponse, STATUS_UNAUTHORIZED};
use crate::models::{AuthUserDto, SpmDeviceAuth};

verus! {

pub open spec fn bearer_prefix() -> Seq<char> {
    "Bearer "@
}

/// The credential of an `Authorization` header of the form `Bearer <credential>`.
pub open spec fn bearer_credential(header: Seq<char>) -> Option<Seq<char>> {
    let n = bearer_prefix().len();
    if header.len() >= n && header.subrange(0, n as int) == bearer_prefix() {
        Some(header.subrange(n as int, header.len() as int))
    } else {
        None
    }
}

/// Reads the credential out of an `Authorization` header.
pub fn bearer_token(header: &str) -> (r: Option<String>)
    ensures
        r is Some <==> bearer_credential(header@) is Some,
        r matches Some(t) ==> Some(t@) == bearer_credential(header@),
{
    proof {
        reveal_strlit("Bearer ");
    }
    let prefix = "Bearer ";
    let n: usize = 7;
    let len = header.unicode_len();
    if len < n {
        return None;
    }
    let mut i: usize = 0;
    while i < n
        invariant
            len == header@.len(),
            n <= len,
            prefix@ == bearer_prefix(),
            n == prefix@.len(),
            i <= n,
            forall|k: int| 0 <= k < i ==> header@[k] == prefix@[k],
        decreases n - i,
    {
        if header.get_char(i) != prefix.get_char(i) {
            proof {
                assert(header@.subrange(0, n as int)[i as int] != bearer_prefix()[i as int]);
            }
            return None;
        }
        i = i + 1;
    }
    proof {
        assert(header@.subrange(0, n as int) =~= bearer_prefix());
    }
    let rest = header.substring_char(n, len);
    Some(rest.to_owned())
}

/// The decoder may refuse `t`, or yield claims not issued by and for this service.
pub open spec fn access_refused<D: Fn(String) -> Option<Claims>>(decode: D, t: String) -> bool {
    ||| call_ensures(decode, (t,), None::<Claims>)
    ||| exists|c: Claims| #[trigger] call_ensures(decode, (t,), Some(c))
        && !(c.iss@ == issuer_text() && c.aud@ == audience_text())
}

/// The caller of a protected route, from the header and the access-token
/// decoder: a missing or malformed header, a token the decoder refuses, or
/// claims not issued by and for this service are all unauthorized.
pub fn requires_auth<D: Fn(String) -> Option<Claims>>(authorization: Option<&str>, decode: &D) -> (r: Result<AuthUserDto, ApiErrorResponse>)
    requires
        forall|t: String| call_requires(*decode, (t,)),
    ensures
        r is Err ==> fails_with(r, STATUS_UNAUTHORIZED),
        authorization is None ==> r is Err,
        authorization matches Some(h) && bearer_credential(h@) is None ==> r is Err,
        r is Err && authorization is Some && bearer_credential(authorization->Some_0@) is Some ==> {
            &&& r->Err_0.message@ == "Invalid credentials"@
            &&& exists|t: String| Some(t@) == bearer_credential(authorization->Some_0@)
                && #[trigger] access_refused(*decode, t)
        },
        r matches Ok(user) ==> exists|t: String, c: Claims| {
            &&& Some(t@) == bearer_credential(authorization->Some_0@)
            &&& #[trigger] call_ensures(*decode, (t,), Some(c))
            &&& c.iss@ == issuer_text() && c.aud@ == audience_text()
            &&& user.id == c.sub && user.user_type == c.role
        },
{
    let header = match authorization {
        Some(h) => h,
        None => return Err(ApiErrorResponse::new(STATUS_UNAUTHORIZED, "Unauthorized".to_owned())),
    };
    let token = match bearer_token(header) {
        Some(t) => t,
        None => return Err(ApiErrorResponse::new(STATUS_UNAUTHORIZED, "Unauthorized".to_owned())),
    };
    let ghost presented = token;
    let claims = match decode(token) {
        Some(c) => c,
        None => {
            assert(access_refused(*decode, presented));
            return Err(ApiErrorResponse::new(STATUS_UNAUTHORIZED, "Invalid credentials".to_owned()));
        },
    };
    if !claims.is_for_this_service() {
        assert(call_ensures(*decode, (presented,), Some(claims)));
        assert(access_refused(*decode, presented));
        return Err(ApiErrorResponse::new(STATUS_UNAUTHORIZED, "Invalid credentials".to_owned()));
    }
    let user = AuthUserDto { id: claims.sub, user_type: claims.role };
    proof {
        assert(call_ensures(*decode, (presented,), Some(claims)));
    }
    Ok(user)
}

/// The device credential of a device-scoped route; it is checked against the
/// cage's stored verifier by the route itself.
pub fn requires_spm_auth(authorization: Option<&str>) -> (r: Result<SpmDeviceAuth, ApiErrorResponse>)
    ensures
        r is Err <==> (authorization is None || bearer_credential(authorization->Some_0@) is None),
        r is Err ==> fails_with(r, STATUS_UNAUTHORIZED),
        r matches Ok(a) ==> Some(a.token@) == bearer_credential(authorization->Some_0@),
{
    let header = match authorization {
        Some(h) => h,
        None => return Err(ApiErrorResponse::new(STATUS_UNAUTHORIZED, "Unauthorized".to_owned())),
    };
    match bearer_token(header) {
        Some(token) => Ok(SpmDeviceAuth { token }),
        None => Err(ApiErrorResponse::new(STATUS_UNAUTHORIZED, "Unauthorized".to_owned())),
    }
}

} // verus!
