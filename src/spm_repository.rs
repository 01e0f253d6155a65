use vstd::prelude::*;
use crate::error::{ApiErrorResponse, STATUS_BAD_REQUEST};

verus! {

/// A monitored cage. `id` is its position in the cage store; the sensor
/// readings are kept beside the store, not in it.
#[derive(Debug)]
pub struct Cage {
    pub id: usize,
    pub cage_id: String,
    pub assigned_monitor: String,
    pub livestock_no: u32,
    pub timestamp: i64,
    pub created_at: i64,
    pub updated_at: i64,
}

impl Cage {
    pub fn duplicate(&self) -> (r: Cage)
        ensures
            r == *self,
    {
        Cage {
            id: self.id,
            cage_id: self.cage_id.clone(),
            assigned_monitor: self.assigned_monitor.clone(),
            livestock_no: self.livestock_no,
            timestamp: self.timestamp,
            created_at: self.created_at,
            updated_at: self.updated_at,
        }
    }
}

/// The stored verifier of a device secret; `id` names the cage it belongs to.
#[derive(Debug)]
pub struct SpmDeviceToken {
    pub id: String,
    pub token: String,
    pub created_at: i64,
    pub updated_at: i64,
}

/// Cages and device verifiers. They are written in pairs: `device_tokens[i]`
/// was provisioned together with `cages[i]`.
pub struct SpmStoreView {
    pub cages: Seq<Cage>,
    pub device_tokens: Seq<SpmDeviceToken>,
}

pub open spec fn cage_id_taken(cages: Seq<Cage>, cage_id: Seq<char>) -> bool {
    exists|i: int| 0 <= i < cages.len() && (#[trigger] cages[i]).cage_id@ == cage_id
}

pub open spec fn token_id_taken(tokens: Seq<SpmDeviceToken>, id: Seq<char>) -> bool {
    exists|i: int| 0 <= i < tokens.len() && (#[trigger] tokens[i]).id@ == id
}

impl SpmStoreView {
    pub open spec fn wf(self) -> bool {
        &&& self.cages.len() == self.device_tokens.len()
        &&& forall|i: int| 0 <= i < self.cages.len() ==> (#[trigger] self.cages[i]).id == i
        &&& forall|i: int, j: int|
            0 <= i < self.cages.len() && 0 <= j < self.cages.len() && i != j
                ==> (#[trigger] self.cages[i]).cage_id@ != (#[trigger] self.cages[j]).cage_id@
        &&& forall|i: int, j: int|
            0 <= i < self.device_tokens.len() && 0 <= j < self.device_tokens.len() && i != j
                ==> (#[trigger] self.device_tokens[i]).id@ != (#[trigger] self.device_tokens[j]).id@
    }
}

/// `c` with the id `id`.
pub open spec fn cage_with_id(c: Cage, id: usize) -> Cage {
    Cage { id, ..c }
}

pub struct SpmRepository {
    cages: Vec<Cage>,
    device_tokens: Vec<SpmDeviceToken>,
}

impl View for SpmRepository {
    type V = SpmStoreView;

    closed spec fn view(&self) -> SpmStoreView {
        SpmStoreView { cages: self.cages@, device_tokens: self.device_tokens@ }
    }
}

impl SpmRepository {
    pub fn new() -> (r: Self)
        ensures
            r@.wf(),
            r@.cages.len() == 0,
    {
        SpmRepository { cages: Vec::new(), device_tokens: Vec::new() }
    }

    /// Provisions a cage and its device verifier as one unit: the verifier is
    /// written first, then the cage; if the cage cannot be written the
    /// verifier is taken back, so either both are stored or neither is.
    pub fn create_new_cage(&mut self, cage: Cage, spm_device_token: SpmDeviceToken) -> (r: Result<Cage, ApiErrorResponse>)
        requires
            old(self)@.wf(),
        ensures
            final(self)@.wf(),
            r is Err <==> token_id_taken(old(self)@.device_tokens, spm_device_token.id@)
                || cage_id_taken(old(self)@.cages, cage.cage_id@),
            r matches Err(e) ==> e.status == STATUS_BAD_REQUEST && final(self)@ == old(self)@,
            token_id_taken(old(self)@.device_tokens, spm_device_token.id@)
                ==> r->Err_0.message@ == "Device token already exist"@,
            !token_id_taken(old(self)@.device_tokens, spm_device_token.id@) && cage_id_taken(old(self)@.cages, cage.cage_id@)
                ==> r->Err_0.message@ == "Cage already exist"@,
            r matches Ok(c) ==> {
                &&& c == cage_with_id(cage, old(self)@.cages.len() as usize)
                &&& final(self)@.cages == old(self)@.cages.push(c)
                &&& final(self)@.device_tokens == old(self)@.device_tokens.push(spm_device_token)
            },
    {
        let ghost before = self@;
        if self.find_device_token_by_id(spm_device_token.id.as_str()).is_some() {
            return Err(ApiErrorResponse::new(STATUS_BAD_REQUEST, "Device token already exist".to_owned()));
        }
        let ghost t = spm_device_token;
        self.device_tokens.push(spm_device_token);
        if self.find_cage_by_cage_id(cage.cage_id.as_str()).is_some() {
            let _ = self.device_tokens.pop();
            proof {
                assert(self.device_tokens@ =~= before.device_tokens);
            }
            return Err(ApiErrorResponse::new(STATUS_BAD_REQUEST, "Cage already exist".to_owned()));
        }
        let mut stored = cage;
        stored.id = self.cages.len();
        let result = stored.duplicate();
        self.cages.push(stored);
        proof {
            let after = self@;
            let n = before.cages.len() as int;
            assert forall|i: int| 0 <= i < after.cages.len() implies (#[trigger] after.cages[i]).id == i by {
                if i < n {
                    assert(after.cages[i] == before.cages[i]);
                }
            }
            assert forall|i: int, j: int|
                0 <= i < after.cages.len() && 0 <= j < after.cages.len() && i != j
                    implies (#[trigger] after.cages[i]).cage_id@ != (#[trigger] after.cages[j]).cage_id@ by {
                if i == n {
                    assert(after.cages[j] == before.cages[j]);
                } else if j == n {
                    assert(after.cages[i] == before.cages[i]);
                } else {
                    assert(after.cages[i] == before.cages[i]);
                    assert(after.cages[j] == before.cages[j]);
                }
            }
            assert forall|i: int, j: int|
                0 <= i < after.device_tokens.len() && 0 <= j < after.device_tokens.len() && i != j
                    implies (#[trigger] after.device_tokens[i]).id@ != (#[trigger] after.device_tokens[j]).id@ by {
                if i == n {
                    assert(after.device_tokens[j] == before.device_tokens[j]);
                } else if j == n {
                    assert(after.device_tokens[i] == before.device_tokens[i]);
                } else {
                    assert(after.device_tokens[i] == before.device_tokens[i]);
                    assert(after.device_tokens[j] == before.device_tokens[j]);
                }
            }
        }
        Ok(result)
    }

    /// The cage registered under `cage_id`.
    pub fn find_cage_by_cage_id(&self, cage_id: &str) -> (r: Option<&Cage>)
        ensures
            r is None <==> !cage_id_taken(self@.cages, cage_id@),
            r matches Some(c) ==> c.cage_id@ == cage_id@
                && exists|i: int| 0 <= i < self@.cages.len() && self@.cages[i] == *c,
    {
        let target = cage_id.to_owned();
        let mut i: usize = 0;
        while i < self.cages.len()
            invariant
                i <= self@.cages.len(),
                target@ == cage_id@,
                forall|k: int| 0 <= k < i ==> (#[trigger] self@.cages[k]).cage_id@ != cage_id@,
            decreases self@.cages.len() - i,
        {
            if self.cages[i].cage_id == target {
                return Some(&self.cages[i]);
            }
            i = i + 1;
        }
        None
    }

    /// The device verifier stored for cage `id`.
    pub fn find_device_token_by_id(&self, id: &str) -> (r: Option<&SpmDeviceToken>)
        ensures
            r is None <==> !token_id_taken(self@.device_tokens, id@),
            r matches Some(t) ==> t.id@ == id@
                && exists|i: int| 0 <= i < self@.device_tokens.len() && self@.device_tokens[i] == *t,
    {
        let target = id.to_owned();
        let mut i: usize = 0;
        while i < self.device_tokens.len()
            invariant
                i <= self@.device_tokens.len(),
                target@ == id@,
                forall|k: int| 0 <= k < i ==> (#[trigger] self@.device_tokens[k]).id@ != id@,
            decreases self@.device_tokens.len() - i,
        {
            if self.device_tokens[i].id == target {
                return Some(&self.device_tokens[i]);
            }
            i = i + 1;
        }
        None
    }

    /// The cages watched by `assigned_monitor`, in store order.
    pub fn find_all_users_cages(&self, assigned_monitor: &str) -> (r: Vec<Cage>)
        ensures
            r@ == self@.cages.filter(|c: Cage| c.assigned_monitor@ == assigned_monitor@),
    {
        let target = assigned_monitor.to_owned();
        let mut out: Vec<Cage> = Vec::new();
        let mut i: usize = 0;
        while i < self.cages.len()
            invariant
                i <= self@.cages.len(),
                target@ == assigned_monitor@,
                out@ == self@.cages.subrange(0, i as int).filter(|c: Cage| c.assigned_monitor@ == assigned_monitor@),
            decreases self@.cages.len() - i,
        {
            proof {
                assert(self@.cages.subrange(0, i + 1).drop_last() =~= self@.cages.subrange(0, i as int));
                reveal(Seq::filter);
            }
            if self.cages[i].assigned_monitor == target {
                out.push(self.cages[i].duplicate());
            }
            i = i + 1;
        }
        proof {
            assert(self@.cages.subrange(0, i as int) =~= self@.cages);
        }
        out
    }
}

} // verus!
