use vstd::prelude::*;
use crate::device::{generate_secure_device_token, hash_id_with_secret, hmac_sha256_hex};
use crate::dto::AddNewCageDto;
use crate::error::{fails_with, ApiErrorResponse, STATUS_BAD_REQUEST, STATUS_FORBIDDEN, STATUS_UNAUTHORIZED};
use crate::response::ApiSuccessResponse;
use crate::spm_repository::{
    cage_id_taken, token_id_taken, Cage, SpmDeviceToken, SpmRepository, SpmStoreView,
};
use crate::user_repository::UserRepository;

verus! {

/// A newly provisioned cage with its device secret. This is the only place
/// the secret is ever handed out; the store keeps its verifier alone.
#[derive(Debug)]
pub struct CageWithDeviceToken {
    pub id: usize,
    pub cage_id: String,
    pub device_token: String,
    pub assigned_monitor: String,
    pub livestock_no: u32,
    pub timestamp: i64,
    pub created_at: i64,
    pub updated_at: i64,
}

impl AddNewCageDto {
    /// The cage record for this request, stamped with `now`.
    pub fn to_model(self, now: i64) -> (r: Cage)
        ensures
            r.cage_id == self.cage_id,
            r.assigned_monitor == self.assigned_monitor,
            r.livestock_no == self.livestock_no,
            r.timestamp == now && r.created_at == now && r.updated_at == now,
    {
        Cage {
            id: 0,
            cage_id: self.cage_id,
            assigned_monitor: self.assigned_monitor,
            livestock_no: self.livestock_no,
            timestamp: now,
            created_at: now,
            updated_at: now,
        }
    }
}

/// The device secret `presented` re-derives the verifier stored for `cage_id`.
pub open spec fn device_authorized(v: SpmStoreView, secret: Seq<char>, cage_id: Seq<char>, presented: Seq<char>) -> bool {
    exists|i: int|
        0 <= i < v.device_tokens.len() && (#[trigger] v.device_tokens[i]).id@ == cage_id
            && v.device_tokens[i].token@ == hmac_sha256_hex(secret, presented)
}

/// Cage provisioning and device authentication, under the server's keyed-hash
/// secret.
pub struct SpmService {
    pub device_secret: String,
}

impl SpmService {
    pub fn new(device_secret: String) -> (r: Self)
        ensures
            r.device_secret == device_secret,
    {
        SpmService { device_secret }
    }

    /// Provisions a cage for user `user_id`: a fresh device secret is made, its
    /// verifier is stored together with the cage, and the secret is returned.
    pub fn add_new_cage(
        &self,
        users: &UserRepository,
        spm: &mut SpmRepository,
        user_id: usize,
        add_new_cage: AddNewCageDto,
        now: i64,
    ) -> (r: Result<ApiSuccessResponse<CageWithDeviceToken>, ApiErrorResponse>)
        requires
            old(spm)@.wf(),
        ensures
            final(spm)@.wf(),
            user_id >= users@.users.len() ==> fails_with(r, STATUS_UNAUTHORIZED),
            r is Err ==> final(spm)@ == old(spm)@,
            user_id < users@.users.len() && !cage_id_taken(old(spm)@.cages, add_new_cage.cage_id@)
                && !token_id_taken(old(spm)@.device_tokens, add_new_cage.cage_id@) ==> r is Ok,
            user_id < users@.users.len() && (cage_id_taken(old(spm)@.cages, add_new_cage.cage_id@)
                || token_id_taken(old(spm)@.device_tokens, add_new_cage.cage_id@)) ==> fails_with(r, STATUS_BAD_REQUEST),
            user_id < users@.users.len() && token_id_taken(old(spm)@.device_tokens, add_new_cage.cage_id@)
                ==> r->Err_0.message@ == "Device token already exist"@,
            r matches Err(e) ==> e.status == STATUS_UNAUTHORIZED || e.status == STATUS_BAD_REQUEST,
            r matches Ok(resp) ==> {
                let n = old(spm)@.cages.len();
                &&& final(spm)@.cages.len() == n + 1
                &&& final(spm)@.device_tokens.len() == n + 1
                &&& final(spm)@.cages.drop_last() == old(spm)@.cages
                &&& final(spm)@.device_tokens.drop_last() == old(spm)@.device_tokens
                &&& final(spm)@.cages[n as int] == (Cage {
                    id: n as usize,
                    cage_id: add_new_cage.cage_id,
                    assigned_monitor: add_new_cage.assigned_monitor,
                    livestock_no: add_new_cage.livestock_no,
                    timestamp: now,
                    created_at: now,
                    updated_at: now,
                })
                &&& final(spm)@.device_tokens[n as int].id@ == add_new_cage.cage_id@
                &&& final(spm)@.device_tokens[n as int].token@
                    == hmac_sha256_hex(self.device_secret@, resp.data.device_token@)
                &&& resp.data.id == n
                &&& resp.data.cage_id@ == add_new_cage.cage_id@
                &&& resp.data.assigned_monitor@ == add_new_cage.assigned_monitor@
                &&& resp.data.livestock_no == add_new_cage.livestock_no
            },
    {
        if users.find_user_by_id(user_id).is_none() {
            return Err(ApiErrorResponse::new(STATUS_UNAUTHORIZED, "Unauthorized".to_owned()));
        }
        let cage = add_new_cage.to_model(now);
        let (device_token, verifier) = generate_secure_device_token(self.device_secret.as_str());
        let record = SpmDeviceToken { id: cage.cage_id.clone(), token: verifier, created_at: now, updated_at: now };
        let ghost before = spm@;
        let ghost rec = record;
        let ghost cg = cage;
        let stored = spm.create_new_cage(cage, record)?;
        proof {
            let n = before.cages.len() as int;
            assert(spm@.device_tokens[n] == rec);
            assert(spm@.cages[n] == stored);
            assert(stored.cage_id == cg.cage_id);
            assert(spm@.cages.drop_last() =~= before.cages);
            assert(spm@.device_tokens.drop_last() =~= before.device_tokens);
        }
        let data = CageWithDeviceToken {
            id: stored.id,
            cage_id: stored.cage_id,
            device_token,
            assigned_monitor: stored.assigned_monitor,
            livestock_no: stored.livestock_no,
            timestamp: stored.timestamp,
            created_at: stored.created_at,
            updated_at: stored.updated_at,
        };
        Ok(ApiSuccessResponse::new("New cage added successfully".to_owned(), data, None))
    }

    /// Checks a presented device secret for `cage_id`: it must re-derive the
    /// verifier stored for that cage. Anything else is forbidden.
    pub fn verify_device_token(&self, spm: &SpmRepository, cage_id: &str, device_token: &str) -> (r: Result<(), ApiErrorResponse>)
        requires
            spm@.wf(),
        ensures
            r is Ok <==> device_authorized(spm@, self.device_secret@, cage_id@, device_token@),
            r is Err ==> fails_with(r, STATUS_FORBIDDEN),
    {
        let stored = match spm.find_device_token_by_id(cage_id) {
            Some(t) => t,
            None => return Err(ApiErrorResponse::new(STATUS_FORBIDDEN, "Unauthorized".to_owned())),
        };
        let derived = hash_id_with_secret(self.device_secret.as_str(), device_token);
        if derived != stored.token {
            proof {
                let v = spm@;
                let k = choose|k: int| 0 <= k < v.device_tokens.len() && v.device_tokens[k] == *stored;
                assert forall|i: int|
                    0 <= i < v.device_tokens.len() && (#[trigger] v.device_tokens[i]).id@ == cage_id@
                        implies v.device_tokens[i].token@ != hmac_sha256_hex(self.device_secret@, device_token@) by {
                    assert(i == k);
                }
            }
            return Err(ApiErrorResponse::new(STATUS_FORBIDDEN, "Unauthorized".to_owned()));
        }
        Ok(())
    }

    /// Authorizes a device's update of `cage_id` and yields the cage its new
    /// readings belong to.
    pub fn update_cage_info<'a>(&self, spm: &'a SpmRepository, cage_id: &str, device_token: &str) -> (r: Result<&'a Cage, ApiErrorResponse>)
        requires
            spm@.wf(),
        ensures
            !device_authorized(spm@, self.device_secret@, cage_id@, device_token@) ==> fails_with(r, STATUS_FORBIDDEN),
            device_authorized(spm@, self.device_secret@, cage_id@, device_token@) && !cage_id_taken(spm@.cages, cage_id@)
                ==> fails_with(r, STATUS_UNAUTHORIZED),
            device_authorized(spm@, self.device_secret@, cage_id@, device_token@) && cage_id_taken(spm@.cages, cage_id@)
                ==> r is Ok,
            r matches Ok(c) ==> c.cage_id@ == cage_id@
                && device_authorized(spm@, self.device_secret@, cage_id@, device_token@)
                && exists|i: int| 0 <= i < spm@.cages.len() && spm@.cages[i] == *c,
    {
        self.verify_device_token(spm, cage_id, device_token)?;
        match spm.find_cage_by_cage_id(cage_id) {
            Some(c) => Ok(c),
            None => Err(ApiErrorResponse::new(STATUS_UNAUTHORIZED, "cage does not exist".to_owned())),
        }
    }

    /// The cages watched by `assigned_monitor`.
    pub fn fetch_all_users_cages(&self, spm: &SpmRepository, assigned_monitor: &str) -> (r: ApiSuccessResponse<Vec<Cage>>)
        ensures
            r.data@ == spm@.cages.filter(|c: Cage| c.assigned_monitor@ == assigned_monitor@),
    {
        let cages = spm.find_all_users_cages(assigned_monitor);
        ApiSuccessResponse::new("Successfully fetched all users cages".to_owned(), cages, None)
    }
}

} // verus!
