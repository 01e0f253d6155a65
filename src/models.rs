use vstd::prelude::*;
use crate::role::UserType;

verus! {

/// A stored account. `id` is the account's position in the user store.
#[derive(Debug)]
pub struct User {
    pub id: usize,
    pub name: String,
    pub email: String,
    pub phone_number: String,
    /// The bcrypt verifier of the password; the password itself is never kept.
    pub password: String,
    pub user_type: UserType,
    pub created_customers: Option<Vec<usize>>,
    pub created_by: Option<usize>,
    pub spm_id: Option<String>,
    pub created_at: i64,
    pub updated_at: i64,
}

/// An account as shown to callers: everything but the password verifier.
#[derive(Debug)]
pub struct NewUser {
    pub id: usize,
    pub name: String,
    pub email: String,
    pub phone_number: String,
    pub user_type: UserType,
    pub created_customers: Option<Vec<usize>>,
    pub created_by: Option<usize>,
    pub spm_id: Option<String>,
    pub created_at: i64,
    pub updated_at: i64,
}

/// `n` shows the account `u`.
pub open spec fn shows(n: NewUser, u: User) -> bool {
    &&& n.id == u.id
    &&& n.name@ == u.name@
    &&& n.email@ == u.email@
    &&& n.phone_number@ == u.phone_number@
    &&& n.user_type == u.user_type
    &&& n.created_by == u.created_by
    &&& n.created_at == u.created_at
    &&& n.updated_at == u.updated_at
    &&& (n.spm_id is Some <==> u.spm_id is Some)
    &&& (n.spm_id matches Some(s) ==> s@ == u.spm_id->Some_0@)
    &&& (n.created_customers is Some <==> u.created_customers is Some)
    &&& (n.created_customers matches Some(c) ==> c@ == u.created_customers->Some_0@)
}

impl NewUser {
    /// The caller-facing form of a stored account.
    pub fn from_user(u: &User) -> (r: NewUser)
        ensures
            shows(r, *u),
    {
        let spm_id = match &u.spm_id {
            Some(s) => Some(s.clone()),
            None => None,
        };
        let created_customers = match &u.created_customers {
            Some(c) => {
                let copy = c.clone();
                assert(copy@ =~= c@);
                Some(copy)
            },
            None => None,
        };
        NewUser {
            id: u.id,
            name: u.name.clone(),
            email: u.email.clone(),
            phone_number: u.phone_number.clone(),
            user_type: u.user_type,
            created_customers,
            created_by: u.created_by,
            spm_id,
            created_at: u.created_at,
            updated_at: u.updated_at,
        }
    }
}

/// The one refresh session of a user: `id` is the session identifier carried
/// by the refresh token, `expires_at` its expiry in epoch seconds.
#[derive(Debug)]
pub struct RefreshToken {
    pub id: u64,
    pub user_id: usize,
    pub refresh_token: String,
    pub expires_at: u64,
    pub revoked: Option<bool>,
}

/// The identity and role of the caller of a protected route.
#[derive(Debug, Clone, Copy, PartialEq, Eq, Structural)]
pub struct AuthUserDto {
    pub id: usize,
    pub user_type: UserType,
}

/// The bearer secret presented on a device-scoped route.
#[derive(Debug)]
pub struct SpmDeviceAuth {
    pub token: String,
}

} // verus!
