use vstd::prelude::*;
use crate::error::{ApiErrorResponse, STATUS_BAD_REQUEST, STATUS_NOT_FOUND, STATUS_UNAUTHORIZED};
use crate::models::{NewUser, RefreshToken, User, shows};
use crate::role::UserType;

verus! {

/// The most customer accounts one admin may create.
pub const MAX_CUSTOMERS_PER_ADMIN: usize = 5;

/// The accounts and their refresh sessions. A user's id is its position;
/// `sessions[i]` is the one session of user `i`, if any.
pub struct UserStoreView {
    pub users: Seq<User>,
    pub sessions: Seq<Option<RefreshToken>>,
    pub next_session_id: u64,
}

pub open spec fn email_registered(users: Seq<User>, email: Seq<char>) -> bool {
    exists|i: int| 0 <= i < users.len() && (#[trigger] users[i]).email@ == email
}

impl UserStoreView {
    pub open spec fn wf(self) -> bool {
        &&& self.sessions.len() == self.users.len()
        &&& forall|i: int| 0 <= i < self.users.len() ==> (#[trigger] self.users[i]).id == i
        &&& links_ok(self.users)
        &&& forall|i: int, j: int|
            0 <= i < self.users.len() && 0 <= j < self.users.len() && i != j
                ==> (#[trigger] self.users[i]).email@ != (#[trigger] self.users[j]).email@
        &&& forall|i: int| 0 <= i < self.sessions.len() ==> match #[trigger] self.sessions[i] {
            Some(s) => s.user_id == i && s.id < self.next_session_id,
            None => true,
        }
    }

    /// The live session of `user`: present and not revoked.
    pub open spec fn live_session(self, user: int) -> Option<RefreshToken> {
        if 0 <= user < self.sessions.len() {
            match self.sessions[user] {
                Some(s) => if s.revoked == Some(true) { None } else { Some(s) },
                None => None,
            }
        } else {
            None
        }
    }
}

/// The ids an account lists as the customers it created.
pub open spec fn customers_of(u: User) -> Seq<usize> {
    match u.created_customers {
        Some(v) => v@,
        None => seq![],
    }
}

/// `u` lists account `k` among the customers it created.
pub open spec fn lists(u: User, k: int) -> bool {
    exists|w: int| 0 <= w < customers_of(u).len() && #[trigger] customers_of(u)[w] as int == k
}

/// `u` names account `a` as its creator.
pub open spec fn owned_by(u: User, a: int) -> bool {
    u.created_by matches Some(b) && b as int == a
}

/// Owner links agree in both directions: an account's `created_by` names an
/// account whose list of created customers holds it, and every listed
/// customer names its lister in `created_by`. No list is longer than an
/// admin may fill.
pub open spec fn links_ok(users: Seq<User>) -> bool {
    &&& forall|k: int| 0 <= k < users.len() ==> match (#[trigger] users[k]).created_by {
        Some(a) => a < users.len() && lists(users[a as int], k),
        None => true,
    }
    &&& forall|a: int, j: int| 0 <= a < users.len() && 0 <= j < customers_of(users[a]).len()
        ==> (#[trigger] customers_of(users[a])[j]) < users.len()
            && owned_by(users[customers_of(users[a])[j] as int], a)
    &&& forall|i: int| 0 <= i < users.len() ==> customer_count(#[trigger] users[i]) <= MAX_CUSTOMERS_PER_ADMIN
}

/// An account with no owner and no created customers.
pub open spec fn unlinked(u: User) -> bool {
    u.created_by is None && customer_count(u) == 0
}

/// Changing fields other than the owner links keeps the links consistent.
proof fn lemma_links_kept(before: Seq<User>, after: Seq<User>)
    requires
        links_ok(before),
        after.len() == before.len(),
        forall|i: int| 0 <= i < before.len() ==> (#[trigger] after[i]).created_by == before[i].created_by
            && customers_of(after[i]) == customers_of(before[i]),
    ensures
        links_ok(after),
{
    assert forall|k: int| 0 <= k < after.len() implies match (#[trigger] after[k]).created_by {
        Some(a) => a < after.len() && lists(after[a as int], k),
        None => true,
    } by {
        assert(after[k].created_by == before[k].created_by);
        if let Some(a) = before[k].created_by {
            assert(customers_of(after[a as int]) == customers_of(before[a as int]));
        }
    }
    assert forall|a: int, j: int| 0 <= a < after.len() && 0 <= j < customers_of(after[a]).len()
        implies (#[trigger] customers_of(after[a])[j]) < after.len()
            && owned_by(after[customers_of(after[a])[j] as int], a) by {
        assert(customers_of(after[a]) == customers_of(before[a]));
        assert(customers_of(before[a])[j] < before.len());
        assert(after[customers_of(before[a])[j] as int].created_by == before[customers_of(before[a])[j] as int].created_by);
    }
    assert forall|i: int| 0 <= i < after.len() implies customer_count(#[trigger] after[i]) <= MAX_CUSTOMERS_PER_ADMIN by {
        assert(customers_of(after[i]) == customers_of(before[i]));
    }
}

/// Adding an account without links keeps the links consistent.
proof fn lemma_links_push_unlinked(before: Seq<User>, u: User)
    requires
        links_ok(before),
        unlinked(u),
    ensures
        links_ok(before.push(u)),
{
    let after = before.push(u);
    let n = before.len() as int;
    assert forall|k: int| 0 <= k < after.len() implies match (#[trigger] after[k]).created_by {
        Some(a) => a < after.len() && lists(after[a as int], k),
        None => true,
    } by {
        if k < n {
            assert(after[k] == before[k]);
            if let Some(a) = before[k].created_by {
                assert(after[a as int] == before[a as int]);
            }
        }
    }
    assert forall|a: int, j: int| 0 <= a < after.len() && 0 <= j < customers_of(after[a]).len()
        implies (#[trigger] customers_of(after[a])[j]) < after.len()
            && owned_by(after[customers_of(after[a])[j] as int], a) by {
        if a < n {
            assert(after[a] == before[a]);
            let e = customers_of(before[a])[j];
            assert(e < before.len());
            assert(after[e as int] == before[e as int]);
        }
    }
    assert forall|i: int| 0 <= i < after.len() implies customer_count(#[trigger] after[i]) <= MAX_CUSTOMERS_PER_ADMIN by {
        if i < n {
            assert(after[i] == before[i]);
        }
    }
}

/// Adding customer `c` of admin `admin` at position `n`, the next one, with
/// the admin listing it, keeps the links consistent.
proof fn lemma_links_add_customer(before: Seq<User>, c: User, admin: usize, n: usize, listed: User)
    requires
        links_ok(before),
        before.len() == n,
        admin < n,
        c.created_by == Some(admin),
        customer_count(c) == 0,
        listed.created_by == before[admin as int].created_by,
        customers_of(listed) == customers_of(before[admin as int]).push(n),
        customer_count(before[admin as int]) < MAX_CUSTOMERS_PER_ADMIN,
    ensures
        links_ok(before.push(c).update(admin as int, listed)),
{
    let after = before.push(c).update(admin as int, listed);
    let old_list = customers_of(before[admin as int]);
    assert(customers_of(after[admin as int]) == old_list.push(n));
    assert(customers_of(after[admin as int])[old_list.len() as int] == n);
    assert forall|k: int| 0 <= k < after.len() implies match (#[trigger] after[k]).created_by {
        Some(a) => a < after.len() && lists(after[a as int], k),
        None => true,
    } by {
        if k == n as int {
            assert(after[k] == c);
            assert(lists(after[admin as int], k));
        } else {
            assert(after[k].created_by == before[k].created_by);
            if let Some(a) = before[k].created_by {
                assert(lists(before[a as int], k));
                if a == admin {
                    let w = choose|w: int| 0 <= w < old_list.len() && #[trigger] old_list[w] as int == k;
                    assert(customers_of(after[a as int])[w] == old_list[w]);
                } else {
                    assert(after[a as int] == before[a as int]);
                }
            }
        }
    }
    assert forall|a: int, j: int| 0 <= a < after.len() && 0 <= j < customers_of(after[a]).len()
        implies (#[trigger] customers_of(after[a])[j]) < after.len()
            && owned_by(after[customers_of(after[a])[j] as int], a) by {
        if a == n as int {
            assert(after[a] == c);
        } else if a == admin as int {
            if j < old_list.len() {
                let e = old_list[j];
                assert(customers_of(after[a])[j] == e);
                assert(e < n);
                assert(owned_by(before[e as int], a));
                assert(after[e as int].created_by == before[e as int].created_by);
            } else {
                assert(customers_of(after[a])[j] == n);
                assert(after[n as int] == c);
            }
        } else {
            assert(after[a] == before[a]);
            let e = customers_of(before[a])[j];
            assert(e < n);
            assert(after[e as int].created_by == before[e as int].created_by);
        }
    }
    assert forall|i: int| 0 <= i < after.len() implies customer_count(#[trigger] after[i]) <= MAX_CUSTOMERS_PER_ADMIN by {
        if i == n as int {
            assert(after[i] == c);
        } else if i != admin as int {
            assert(after[i] == before[i]);
        }
    }
}

/// `u` with the id `id`.
pub open spec fn with_id(u: User, id: usize) -> User {
    User { id, ..u }
}

/// `u` with the password verifier `password`.
pub open spec fn with_password(u: User, password: String) -> User {
    User { password, ..u }
}

pub struct UserRepository {
    users: Vec<User>,
    refresh_tokens: Vec<Option<RefreshToken>>,
    next_session_id: u64,
}

impl View for UserRepository {
    type V = UserStoreView;

    closed spec fn view(&self) -> UserStoreView {
        UserStoreView {
            users: self.users@,
            sessions: self.refresh_tokens@,
            next_session_id: self.next_session_id,
        }
    }
}

impl UserRepository {
    /// An empty store.
    pub fn new() -> (r: Self)
        ensures
            r@.wf(),
            r@.users.len() == 0,
            r@.next_session_id == 0,
    {
        UserRepository { users: Vec::new(), refresh_tokens: Vec::new(), next_session_id: 0 }
    }

    pub fn user_count(&self) -> (r: usize)
        ensures
            r == self@.users.len(),
    {
        self.users.len()
    }

    /// Stores a new account under the next free id. Emails are unique: a
    /// second account with a registered email is refused, as is an account
    /// that comes with owner links (customers are added by `create_customer`).
    pub fn create_user(&mut self, new_user: User) -> (r: Result<NewUser, ApiErrorResponse>)
        requires
            old(self)@.wf(),
        ensures
            final(self)@.wf(),
            final(self)@.next_session_id == old(self)@.next_session_id,
            r is Err <==> email_registered(old(self)@.users, new_user.email@) || !unlinked(new_user),
            r matches Err(e) ==> e.status == STATUS_BAD_REQUEST && final(self)@ == old(self)@,
            email_registered(old(self)@.users, new_user.email@) ==> r->Err_0.message@ == "Email already exists"@,
            r matches Ok(n) ==> {
                &&& n.id == old(self)@.users.len()
                &&& final(self)@.users == old(self)@.users.push(with_id(new_user, n.id))
                &&& final(self)@.sessions == old(self)@.sessions.push(None)
                &&& shows(n, with_id(new_user, n.id))
            },
    {
        if self.find_user_by_email(new_user.email.as_str()).is_some() {
            return Err(ApiErrorResponse::new(STATUS_BAD_REQUEST, "Email already exists".to_owned()));
        }
        let linked = new_user.created_by.is_some() || match &new_user.created_customers {
            Some(list) => list.len() > 0,
            None => false,
        };
        if linked {
            return Err(ApiErrorResponse::new(STATUS_BAD_REQUEST, "Account links are set by the store".to_owned()));
        }
        let mut user = new_user;
        user.id = self.users.len();
        let shown = NewUser::from_user(&user);
        let ghost before = self@;
        self.users.push(user);
        self.refresh_tokens.push(None);
        proof {
            let after = self@;
            assert forall|i: int, j: int|
                0 <= i < after.users.len() && 0 <= j < after.users.len() && i != j
                    implies (#[trigger] after.users[i]).email@ != (#[trigger] after.users[j]).email@ by {
                if i == before.users.len() as int {
                    assert(after.users[j] == before.users[j]);
                } else if j == before.users.len() as int {
                    assert(after.users[i] == before.users[i]);
                } else {
                    assert(after.users[i] == before.users[i]);
                    assert(after.users[j] == before.users[j]);
                }
            }
            assert forall|i: int| 0 <= i < after.sessions.len() implies match #[trigger] after.sessions[i] {
                Some(s) => s.user_id == i && s.id < after.next_session_id,
                None => true,
            } by {
                if i < before.sessions.len() {
                    assert(after.sessions[i] == before.sessions[i]);
                }
            }
            lemma_links_push_unlinked(before.users, with_id(new_user, before.users.len() as usize));
        }
        Ok(shown)
    }

    /// The account with the given id.
    pub fn find_user_by_id(&self, id: usize) -> (r: Option<&User>)
        ensures
            r is None <==> id >= self@.users.len(),
            r matches Some(u) ==> *u == self@.users[id as int],
    {
        if id < self.users.len() {
            Some(&self.users[id])
        } else {
            None
        }
    }

    /// The account with the given id, if it is an admin.
    pub fn find_admin_user_by_id(&self, id: usize) -> (r: Option<&User>)
        ensures
            r is Some <==> (id < self@.users.len() && self@.users[id as int].user_type == UserType::Admin),
            r matches Some(u) ==> *u == self@.users[id as int],
    {
        if id < self.users.len() && self.users[id].user_type == UserType::Admin {
            Some(&self.users[id])
        } else {
            None
        }
    }

    /// The account registered under `email`.
    pub fn find_user_by_email(&self, email: &str) -> (r: Option<&User>)
        requires
            self@.wf(),
        ensures
            r is None <==> !email_registered(self@.users, email@),
            r matches Some(u) ==> u.id < self@.users.len() && u.email@ == email@
                && *u == self@.users[u.id as int],
    {
        let target = email.to_owned();
        let mut i: usize = 0;
        while i < self.users.len()
            invariant
                self@.wf(),
                i <= self@.users.len(),
                target@ == email@,
                forall|k: int| 0 <= k < i ==> (#[trigger] self@.users[k]).email@ != email@,
            decreases self@.users.len() - i,
        {
            if self.users[i].email == target {
                assert(self@.users[i as int].id == i);
                return Some(&self.users[i]);
            }
            i = i + 1;
        }
        None
    }

    /// Hands out the next session identifier; none is ever handed out twice.
    pub fn reserve_session_id(&mut self) -> (r: Option<u64>)
        requires
            old(self)@.wf(),
        ensures
            final(self)@.wf(),
            final(self)@.users == old(self)@.users,
            final(self)@.sessions == old(self)@.sessions,
            r is None <==> old(self)@.next_session_id == u64::MAX,
            r matches Some(id) ==> id == old(self)@.next_session_id
                && final(self)@.next_session_id == id + 1,
            r is None ==> final(self)@ == old(self)@,
    {
        if self.next_session_id == u64::MAX {
            return None;
        }
        let id = self.next_session_id;
        self.next_session_id = id + 1;
        proof {
            let after = self@;
            assert forall|i: int| 0 <= i < after.sessions.len() implies match #[trigger] after.sessions[i] {
                Some(s) => s.user_id == i && s.id < after.next_session_id,
                None => true,
            } by {}
        }
        Some(id)
    }

    /// Stores `session` as its user's one session, replacing any earlier one.
    pub fn create_user_refresh_token(&mut self, session: RefreshToken) -> (r: Result<(), ApiErrorResponse>)
        requires
            old(self)@.wf(),
            session.id < old(self)@.next_session_id,
        ensures
            final(self)@.wf(),
            final(self)@.users == old(self)@.users,
            final(self)@.next_session_id == old(self)@.next_session_id,
            r is Ok <==> session.user_id < old(self)@.users.len(),
            r is Ok ==> final(self)@.sessions == old(self)@.sessions.update(session.user_id as int, Some(session)),
            r matches Err(e) ==> e.status == STATUS_NOT_FOUND && final(self)@ == old(self)@,
    {
        if session.user_id >= self.refresh_tokens.len() {
            return Err(ApiErrorResponse::new(STATUS_NOT_FOUND, "user not found".to_owned()));
        }
        let uid = session.user_id;
        let ghost s = session;
        self.refresh_tokens.set(uid, Some(session));
        proof {
            let after = self@;
            assert forall|i: int| 0 <= i < after.sessions.len() implies match #[trigger] after.sessions[i] {
                Some(t) => t.user_id == i && t.id < after.next_session_id,
                None => true,
            } by {
                if i == uid as int {
                    assert(after.sessions[i] == Some(s));
                }
            }
        }
        Ok(())
    }

    /// Removes the session of `user_id`, if there is one.
    pub fn delete_user_refresh_token(&mut self, user_id: usize) -> (r: Result<(), ApiErrorResponse>)
        requires
            old(self)@.wf(),
        ensures
            final(self)@.wf(),
            r is Ok,
            final(self)@.users == old(self)@.users,
            final(self)@.next_session_id == old(self)@.next_session_id,
            user_id < old(self)@.users.len() ==> final(self)@.sessions == old(self)@.sessions.update(user_id as int, None),
            user_id >= old(self)@.users.len() ==> final(self)@.sessions == old(self)@.sessions,
    {
        if user_id < self.refresh_tokens.len() {
            self.refresh_tokens.set(user_id, None);
            proof {
                let after = self@;
                assert forall|i: int| 0 <= i < after.sessions.len() implies match #[trigger] after.sessions[i] {
                    Some(t) => t.user_id == i && t.id < after.next_session_id,
                    None => true,
                } by {}
            }
        }
        Ok(())
    }

    /// The live session of `user_id`.
    pub fn find_valid_user_refresh_token_by_user_id(&self, user_id: usize) -> (r: Option<&RefreshToken>)
        ensures
            r is None <==> self@.live_session(user_id as int) is None,
            r matches Some(s) ==> self@.live_session(user_id as int) == Some(*s),
    {
        if user_id >= self.refresh_tokens.len() {
            return None;
        }
        match &self.refresh_tokens[user_id] {
            Some(s) => {
                if s.revoked == Some(true) {
                    None
                } else {
                    Some(s)
                }
            },
            None => None,
        }
    }

    /// Replaces the password verifier of user `id`; a write that matches no
    /// account is a bad request.
    pub fn update_user_password_by_id(&mut self, id: usize, new_password: String) -> (r: Result<(), ApiErrorResponse>)
        requires
            old(self)@.wf(),
        ensures
            final(self)@.wf(),
            final(self)@.sessions == old(self)@.sessions,
            final(self)@.next_session_id == old(self)@.next_session_id,
            r is Ok <==> id < old(self)@.users.len(),
            r is Ok ==> final(self)@.users == old(self)@.users.update(id as int, with_password(old(self)@.users[id as int], new_password)),
            r matches Err(e) ==> e.status == STATUS_BAD_REQUEST && final(self)@ == old(self)@,
    {
        if id >= self.users.len() {
            return Err(ApiErrorResponse::new(STATUS_BAD_REQUEST, "user not found".to_owned()));
        }
        let ghost before = self@;
        let mut user = self.users.remove(id);
        user.password = new_password;
        self.users.insert(id, user);
        proof {
            let after = self@;
            assert(after.users =~= before.users.update(id as int, with_password(before.users[id as int], new_password)));
            assert forall|i: int, j: int|
                0 <= i < after.users.len() && 0 <= j < after.users.len() && i != j
                    implies (#[trigger] after.users[i]).email@ != (#[trigger] after.users[j]).email@ by {
                assert(after.users[i].email == before.users[i].email);
                assert(after.users[j].email == before.users[j].email);
            }
            assert forall|i: int| 0 <= i < after.users.len() implies (#[trigger] after.users[i]).id == i by {
                assert(after.users[i].id == before.users[i].id);
            }
            assert forall|i: int| 0 <= i < before.users.len() implies (#[trigger] after.users[i]).created_by
                == before.users[i].created_by && customers_of(after.users[i]) == customers_of(before.users[i]) by {}
            lemma_links_kept(before.users, after.users);
        }
        Ok(())
    }

    /// Stores a customer account created by admin `admin_id` under the next
    /// free id, and lists it among that admin's customers; both or neither.
    /// An admin creates at most five customers.
    pub fn create_customer(&mut self, admin_id: usize, new_user: User) -> (r: Result<NewUser, ApiErrorResponse>)
        requires
            old(self)@.wf(),
        ensures
            final(self)@.wf(),
            final(self)@.next_session_id == old(self)@.next_session_id,
            r is Err <==> !(admin_id < old(self)@.users.len() && old(self)@.users[admin_id as int].user_type == UserType::Admin)
                || customer_count(old(self)@.users[admin_id as int]) >= MAX_CUSTOMERS_PER_ADMIN
                || email_registered(old(self)@.users, new_user.email@)
                || customer_count(new_user) != 0,
            r is Err ==> final(self)@ == old(self)@,
            !(admin_id < old(self)@.users.len() && old(self)@.users[admin_id as int].user_type == UserType::Admin)
                ==> r->Err_0.status == STATUS_UNAUTHORIZED && r->Err_0.message@ == "Unauthorized user doesn't exist"@,
            admin_id < old(self)@.users.len() && old(self)@.users[admin_id as int].user_type == UserType::Admin
                && customer_count(old(self)@.users[admin_id as int]) >= MAX_CUSTOMERS_PER_ADMIN
                ==> r->Err_0.status == STATUS_UNAUTHORIZED
                && r->Err_0.message@ == "Maximum number of customers has been created"@,
            admin_id < old(self)@.users.len() && old(self)@.users[admin_id as int].user_type == UserType::Admin
                && customer_count(old(self)@.users[admin_id as int]) < MAX_CUSTOMERS_PER_ADMIN
                && email_registered(old(self)@.users, new_user.email@)
                ==> r->Err_0.status == STATUS_BAD_REQUEST && r->Err_0.message@ == "Email already exists"@,
            r matches Err(e) ==> e.status == STATUS_UNAUTHORIZED || e.status == STATUS_BAD_REQUEST,
            r matches Ok(n) ==> {
                let c = User { id: n.id, created_by: Some(admin_id), ..new_user };
                &&& n.id == old(self)@.users.len()
                &&& final(self)@.users.len() == n.id + 1
                &&& final(self)@.users[n.id as int] == c
                &&& shows(n, c)
                &&& final(self)@.sessions == old(self)@.sessions.push(None)
                &&& customers_after_adding(old(self)@.users[admin_id as int], final(self)@.users[admin_id as int], n.id)
                &&& same_account(old(self)@.users[admin_id as int], final(self)@.users[admin_id as int])
                &&& forall|i: int| 0 <= i < old(self)@.users.len() && i != admin_id
                    ==> final(self)@.users[i] == old(self)@.users[i]
            },
    {
        let count = match self.find_admin_user_by_id(admin_id) {
            Some(admin) => match &admin.created_customers {
                Some(list) => list.len(),
                None => 0,
            },
            None => return Err(ApiErrorResponse::new(STATUS_UNAUTHORIZED, "Unauthorized user doesn't exist".to_owned())),
        };
        if count >= MAX_CUSTOMERS_PER_ADMIN {
            return Err(ApiErrorResponse::new(
                STATUS_UNAUTHORIZED,
                "Maximum number of customers has been created".to_owned(),
            ));
        }
        if self.find_user_by_email(new_user.email.as_str()).is_some() {
            return Err(ApiErrorResponse::new(STATUS_BAD_REQUEST, "Email already exists".to_owned()));
        }
        let listed = match &new_user.created_customers {
            Some(list) => list.len() > 0,
            None => false,
        };
        if listed {
            return Err(ApiErrorResponse::new(STATUS_BAD_REQUEST, "Account links are set by the store".to_owned()));
        }
        let ghost before = self@;
        let id = self.users.len();
        let mut user = new_user;
        user.id = id;
        user.created_by = Some(admin_id);
        let shown = NewUser::from_user(&user);
        self.users.push(user);
        self.refresh_tokens.push(None);
        let ghost mid = self@;
        let mut admin = self.users.remove(admin_id);
        let mut list = match admin.created_customers {
            Some(v) => v,
            None => Vec::new(),
        };
        list.push(id);
        admin.created_customers = Some(list);
        let ghost listed_admin = admin;
        self.users.insert(admin_id, admin);
        proof {
            let after = self@;
            assert(mid.users =~= before.users.push(mid.users[id as int]));
            assert(after.users =~= mid.users.update(admin_id as int, listed_admin));
            assert(mid.users[admin_id as int] == before.users[admin_id as int]);
            assert(customers_of(listed_admin) =~= customers_of(before.users[admin_id as int]).push(id));
            lemma_links_add_customer(before.users, mid.users[id as int], admin_id, id, listed_admin);
            assert forall|i: int, j: int|
                0 <= i < after.users.len() && 0 <= j < after.users.len() && i != j
                    implies (#[trigger] after.users[i]).email@ != (#[trigger] after.users[j]).email@ by {
                assert(after.users[i].email == mid.users[i].email);
                assert(after.users[j].email == mid.users[j].email);
                if i == id as int {
                    assert(mid.users[j] == before.users[j]);
                } else if j == id as int {
                    assert(mid.users[i] == before.users[i]);
                } else {
                    assert(mid.users[i] == before.users[i]);
                    assert(mid.users[j] == before.users[j]);
                }
            }
            assert forall|i: int| 0 <= i < after.users.len() implies (#[trigger] after.users[i]).id == i by {
                assert(after.users[i].id == mid.users[i].id);
                if i < id as int {
                    assert(mid.users[i] == before.users[i]);
                }
            }
            assert forall|i: int| 0 <= i < after.sessions.len() implies match #[trigger] after.sessions[i] {
                Some(s) => s.user_id == i && s.id < after.next_session_id,
                None => true,
            } by {
                if i < before.sessions.len() {
                    assert(after.sessions[i] == before.sessions[i]);
                }
            }
        }
        Ok(shown)
    }
}

/// The number of customers an account has created.
pub open spec fn customer_count(u: User) -> nat {
    customers_of(u).len()
}

/// `after`'s list of created customers is `before`'s with `customer` added.
pub open spec fn customers_after_adding(before: User, after: User, customer: usize) -> bool {
    &&& after.created_customers is Some
    &&& after.created_customers->Some_0@ == match before.created_customers {
        Some(v) => v@.push(customer),
        None => seq![customer],
    }
}

/// `a` and `b` are the same account, apart from its list of created customers.
pub open spec fn same_account(a: User, b: User) -> bool {
    &&& a.id == b.id
    &&& a.name == b.name
    &&& a.email == b.email
    &&& a.phone_number == b.phone_number
    &&& a.password == b.password
    &&& a.user_type == b.user_type
    &&& a.created_by == b.created_by
    &&& a.spm_id == b.spm_id
    &&& a.created_at == b.created_at
    &&& a.updated_at == b.updated_at
}

} // verus!
