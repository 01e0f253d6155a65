use vstd::prelude::*;
use crate::device::generate_password;
use crate::dto::{CreateAdminUserDto, CreateCustomerDto};
use crate::error::{fails_with, ApiErrorResponse, STATUS_BAD_REQUEST, STATUS_INTERNAL, STATUS_UNAUTHORIZED};
use crate::models::{shows, NewUser, User};
use crate::password::{bcrypt_verdict, hash_password};
use crate::response::ApiSuccessResponse;
use crate::role::UserType;
use crate::user_repository::{
    customer_count, customers_after_adding, email_registered, same_account, UserRepository,
    MAX_CUSTOMERS_PER_ADMIN,
};

verus! {

/// Length of the password generated for a new customer.
pub const CUSTOMER_PASSWORD_LEN: usize = 12;

impl CreateAdminUserDto {
    /// The admin account for this request, its password replaced by a verifier.
    pub fn to_model(self, now: i64) -> (r: Result<User, ApiErrorResponse>)
        ensures
            r matches Ok(u) ==> {
                &&& u.name == self.name
                &&& u.email == self.email
                &&& u.phone_number == self.phone_number
                &&& bcrypt_verdict(self.password@, u.password@) == Some(true)
                &&& u.user_type == UserType::Admin
                &&& u.created_customers matches Some(c) && c@.len() == 0
                &&& u.created_by is None
                &&& u.spm_id is None
                &&& u.created_at == now && u.updated_at == now
            },
            r matches Err(e) ==> e.status == STATUS_INTERNAL,
    {
        let password = hash_password(self.password.as_str())?;
        Ok(User {
            id: 0,
            name: self.name,
            email: self.email,
            phone_number: self.phone_number,
            password,
            user_type: UserType::Admin,
            created_customers: Some(Vec::new()),
            created_by: None,
            spm_id: None,
            created_at: now,
            updated_at: now,
        })
    }
}

impl CreateCustomerDto {
    /// The customer account for this request, created by `admin_id`, with a
    /// generated password of which only the verifier is kept.
    pub fn to_model(self, admin_id: usize, now: i64) -> (r: Result<User, ApiErrorResponse>)
        ensures
            r matches Ok(u) ==> {
                &&& u.name == self.name
                &&& u.email == self.email
                &&& u.phone_number == self.phone_number
                &&& exists|p: Seq<char>| p.len() == CUSTOMER_PASSWORD_LEN && #[trigger] bcrypt_verdict(p, u.password@) == Some(true)
                &&& u.user_type == UserType::Customer
                &&& u.created_customers is None
                &&& u.created_by == Some(admin_id)
                &&& u.spm_id == Some(self.spm_id)
                &&& u.created_at == now && u.updated_at == now
            },
            r matches Err(e) ==> e.status == STATUS_INTERNAL,
    {
        let generated = generate_password(CUSTOMER_PASSWORD_LEN);
        let password = hash_password(generated.as_str())?;
        assert(bcrypt_verdict(generated@, password@) == Some(true));
        let u = User {
            id: 0,
            name: self.name,
            email: self.email,
            phone_number: self.phone_number,
            password,
            user_type: UserType::Customer,
            created_customers: None,
            created_by: Some(admin_id),
            spm_id: Some(self.spm_id),
            created_at: now,
            updated_at: now,
        };
        assert(exists|p: Seq<char>| p.len() == CUSTOMER_PASSWORD_LEN && #[trigger] bcrypt_verdict(p, u.password@) == Some(true));
        Ok(u)
    }
}

/// `id` names an admin account of the store.
pub open spec fn is_admin(users: Seq<User>, id: usize) -> bool {
    id < users.len() && users[id as int].user_type == UserType::Admin
}

/// Account creation: admins sign up; admins create customers.
pub struct UserService;

impl UserService {
    pub fn new() -> (r: Self) {
        UserService
    }

    pub fn create_admin_user(&self, repo: &mut UserRepository, payload: CreateAdminUserDto, now: i64)
        -> (r: Result<ApiSuccessResponse<NewUser>, ApiErrorResponse>)
        requires
            old(repo)@.wf(),
        ensures
            final(repo)@.wf(),
            final(repo)@.next_session_id == old(repo)@.next_session_id,
            email_registered(old(repo)@.users, payload.email@) ==> fails_with(r, STATUS_BAD_REQUEST)
                && r->Err_0.message@ == "Email already exists"@,
            r is Err ==> final(repo)@ == old(repo)@,
            !email_registered(old(repo)@.users, payload.email@) ==> r is Ok || fails_with(r, STATUS_INTERNAL),
            r matches Ok(resp) ==> {
                let u = final(repo)@.users[resp.data.id as int];
                &&& resp.data.id == old(repo)@.users.len()
                &&& final(repo)@.users.drop_last() == old(repo)@.users
                &&& final(repo)@.users.len() == old(repo)@.users.len() + 1
                &&& shows(resp.data, u)
                &&& u.email@ == payload.email@
                &&& u.user_type == UserType::Admin
                &&& u.created_customers matches Some(c) && c@.len() == 0
                &&& u.created_by is None
                &&& bcrypt_verdict(payload.password@, u.password@) == Some(true)
            },
    {
        if repo.find_user_by_email(payload.email.as_str()).is_some() {
            return Err(ApiErrorResponse::new(STATUS_BAD_REQUEST, "Email already exists".to_owned()));
        }
        let new_user = payload.to_model(now)?;
        let ghost before = repo@;
        let user = repo.create_user(new_user)?;
        proof {
            assert(repo@.users.drop_last() =~= before.users);
        }
        Ok(ApiSuccessResponse::new("Successfully created a user".to_owned(), user, None))
    }

    /// Creates a customer account owned by admin `admin_id`. An admin owns at
    /// most five customers; a sixth is refused.
    pub fn create_customer_user(&self, repo: &mut UserRepository, admin_id: usize, payload: CreateCustomerDto, now: i64)
        -> (r: Result<ApiSuccessResponse<NewUser>, ApiErrorResponse>)
        requires
            old(repo)@.wf(),
        ensures
            final(repo)@.wf(),
            final(repo)@.sessions.len() == final(repo)@.users.len(),
            final(repo)@.next_session_id == old(repo)@.next_session_id,
            !is_admin(old(repo)@.users, admin_id) ==> fails_with(r, STATUS_UNAUTHORIZED)
                && r->Err_0.message@ == "Unauthorized user doesn't exist"@,
            is_admin(old(repo)@.users, admin_id) && customer_count(old(repo)@.users[admin_id as int]) >= MAX_CUSTOMERS_PER_ADMIN
                ==> fails_with(r, STATUS_UNAUTHORIZED)
                && r->Err_0.message@ == "Maximum number of customers has been created"@,
            is_admin(old(repo)@.users, admin_id) && customer_count(old(repo)@.users[admin_id as int]) < MAX_CUSTOMERS_PER_ADMIN
                && email_registered(old(repo)@.users, payload.email@)
                ==> r->Err_0.message@ == "Email already exists"@,
            is_admin(old(repo)@.users, admin_id) && customer_count(old(repo)@.users[admin_id as int]) < MAX_CUSTOMERS_PER_ADMIN
                && email_registered(old(repo)@.users, payload.email@) ==> fails_with(r, STATUS_BAD_REQUEST),
            is_admin(old(repo)@.users, admin_id) && customer_count(old(repo)@.users[admin_id as int]) < MAX_CUSTOMERS_PER_ADMIN
                && !email_registered(old(repo)@.users, payload.email@) ==> r is Ok || fails_with(r, STATUS_INTERNAL),
            r is Err ==> final(repo)@ == old(repo)@,
            r matches Ok(resp) ==> {
                let n = old(repo)@.users.len() as int;
                let c = final(repo)@.users[n];
                &&& resp.data.id == n
                &&& final(repo)@.users.len() == n + 1
                &&& shows(resp.data, c)
                &&& c.email@ == payload.email@
                &&& c.user_type == UserType::Customer
                &&& c.created_by == Some(admin_id)
                &&& customers_after_adding(old(repo)@.users[admin_id as int], final(repo)@.users[admin_id as int], resp.data.id)
                &&& same_account(old(repo)@.users[admin_id as int], final(repo)@.users[admin_id as int])
                &&& forall|i: int| 0 <= i < n && i != admin_id ==> final(repo)@.users[i] == old(repo)@.users[i]
            },
    {
        let count = match repo.find_admin_user_by_id(admin_id) {
            Some(admin) => match &admin.created_customers {
                Some(list) => list.len(),
                None => 0,
            },
            None => return Err(ApiErrorResponse::new(STATUS_UNAUTHORIZED, "Unauthorized user doesn't exist".to_owned())),
        };
        if count >= MAX_CUSTOMERS_PER_ADMIN {
            return Err(ApiErrorResponse::new(
                STATUS_UNAUTHORIZED,
                "Maximum number of customers has been created".to_owned(),
            ));
        }
        if repo.find_user_by_email(payload.email.as_str()).is_some() {
            return Err(ApiErrorResponse::new(STATUS_BAD_REQUEST, "Email already exists".to_owned()));
        }
        let new_user = payload.to_model(admin_id, now)?;
        let user = repo.create_customer(admin_id, new_user)?;
        Ok(ApiSuccessResponse::new("Successfully created a user".to_owned(), user, None))
    }
}

} // verus!
