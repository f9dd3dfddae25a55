//! The escrow's read-only calls, which publish nothing.
use vstd::prelude::*;
use vstd::std_specs::hash::spec_hash_map_iter;
use vstd::std_specs::iter::IteratorSpec;

use crate::model::{fund_in_range, ids_total, lemma_ids_total_prefix, stored_account, stored_signer};
use crate::state::{milestone_wf, EscrowContract};
use crate::types::{AccountId, CallContext, Error, Milestone, MilestoneStatus, SignedCall};

verus! {

broadcast use vstd::std_specs::hash::group_hash_axioms;

impl EscrowContract {
    /// Whether a milestone has a deadline that lies before the ledger's time.
    pub fn is_milestone_expired(&self, ctx: &CallContext, milestone_id: u32) -> (r: Result<bool, Error>)
        ensures
            r == (if self@.milestones.contains_key(milestone_id) {
                Ok(self@.milestones[milestone_id].expired_at(ctx.timestamp))
            } else {
                Err(Error::MilestoneNotFound)
            }),
    {
        match self.milestones.get(&milestone_id) {
            Some(m) => {
                if m.deadline == 0 {
                    return Ok(false);
                }
                Ok(ctx.timestamp > m.deadline)
            },
            None => Err(Error::MilestoneNotFound),
        }
    }

    /// A milestone's deadline (0 when it has none).
    pub fn get_milestone_deadline(&self, milestone_id: u32) -> (r: Result<u64, Error>)
        ensures
            r == (if self@.milestones.contains_key(milestone_id) {
                Ok(self@.milestones[milestone_id].deadline)
            } else {
                Err(Error::MilestoneNotFound)
            }),
    {
        match self.milestones.get(&milestone_id) {
            Some(m) => Ok(m.deadline),
            None => Err(Error::MilestoneNotFound),
        }
    }

    /// The account whose authorization the host obtains before the call;
    /// when none is stored the call is refused with `NotInitialized` before
    /// any authorization is asked for.
    pub fn required_signer(&self, call: SignedCall) -> (r: Result<AccountId, Error>)
        ensures
            r == stored_account(stored_signer(self@, call)),
    {
        match call {
            SignedCall::Fund => copy_account(&self.client),
            SignedCall::SubmitMilestone => copy_account(&self.freelancer),
            SignedCall::Approve => copy_account(&self.client),
            SignedCall::FreelancerConfirm => copy_account(&self.freelancer),
            SignedCall::ResolveDispute => copy_account(&self.arbiter),
        }
    }

    pub fn get_client(&self) -> (r: Result<AccountId, Error>)
        ensures
            r == stored_account(self@.client),
    {
        copy_account(&self.client)
    }

    pub fn get_freelancer(&self) -> (r: Result<AccountId, Error>)
        ensures
            r == stored_account(self@.freelancer),
    {
        copy_account(&self.freelancer)
    }

    pub fn get_arbiter(&self) -> (r: Result<AccountId, Error>)
        ensures
            r == stored_account(self@.arbiter),
    {
        copy_account(&self.arbiter)
    }

    pub fn get_token(&self) -> (r: Result<AccountId, Error>)
        ensures
            r == stored_account(self@.token),
    {
        copy_account(&self.token)
    }

    pub fn is_funded(&self) -> (r: bool)
        ensures
            r == self@.is_funded,
    {
        self.is_funded
    }

    pub fn get_escrow_balance(&self) -> (r: i128)
        ensures
            r == self@.escrow_balance,
    {
        self.escrow_balance
    }

    /// The stored contract version: 1 once initialized, 0 before.
    pub fn version(&self) -> (r: u32)
        ensures
            r == self@.version,
    {
        self.version
    }

    /// Whether the client approved the milestone (false for an unknown one).
    pub fn has_client_approval(&self, milestone_id: u32) -> (r: bool)
        ensures
            r == (self@.milestones.contains_key(milestone_id)
                && self@.milestones[milestone_id].client_approved),
    {
        match self.milestones.get(&milestone_id) {
            Some(m) => m.client_approved,
            None => false,
        }
    }

    /// Whether the freelancer confirmed the milestone (false for an unknown one).
    pub fn has_freelancer_approval(&self, milestone_id: u32) -> (r: bool)
        ensures
            r == (self@.milestones.contains_key(milestone_id)
                && self@.milestones[milestone_id].freelancer_approved),
    {
        match self.milestones.get(&milestone_id) {
            Some(m) => m.freelancer_approved,
            None => false,
        }
    }

    /// Whether the code may be upgraded: only once an admin is stored. The
    /// result is that admin, whose authorization the host then obtains
    /// before it replaces the code.
    pub fn upgrade(&self) -> (r: Result<AccountId, Error>)
        ensures
            r == stored_account(self@.admin),
    {
        copy_account(&self.admin)
    }
}

impl EscrowContract {
    /// Whether `fund` can add up the milestone amounts without overflowing;
    /// the host checks it before calling `fund`, which would otherwise abort.
    pub fn funding_fits(&self) -> (r: bool)
        requires
            self@.wf(),
        ensures
            r == fund_in_range(self@),
    {
        if self.client.is_none() || self.is_funded {
            return true;
        }
        let ids = match &self.milestone_ids {
            Some(ids) => ids,
            None => return true,
        };
        let mut total: i128 = 0;
        let mut i: usize = 0;
        while i < ids.len()
            invariant
                i <= ids.len(),
                self@.wf(),
                self@.milestone_ids == Some(ids@),
                self@.client is Some,
                !self@.is_funded,
                total >= 0,
                total == ids_total(ids@.take(i as int), self@.milestones),
            decreases ids.len() - i,
        {
            let id = ids[i];
            proof {
                assert(ids@.take(i + 1).drop_last() =~= ids@.take(i as int));
            }
            match self.milestones.get(&id) {
                Some(m) => match total.checked_add(m.amount) {
                    Some(t) => {
                        total = t;
                    },
                    None => {
                        proof {
                            lemma_ids_total_prefix(ids@, self@.milestones, i + 1);
                        }
                        return false;
                    },
                },
                None => {},
            }
            i = i + 1;
        }
        proof {
            assert(ids@.take(ids.len() as int) =~= ids@);
        }
        true
    }
}

impl EscrowContract {
    /// Whether the state satisfies the escrow's invariant; a host that loads
    /// the state from storage checks it before making calls.
    #[verifier::loop_isolation(false)]
    pub fn is_well_formed(&self) -> (r: bool)
        ensures
            r == self@.wf(),
    {
        if self.escrow_balance < 0 {
            return false;
        }
        let initialized = self.client.is_some();
        let ghost entries = spec_hash_map_iter(&self.milestones).remaining();
        let mut ok = true;
        let ghost mut checked: int = 0;
        for entry in it: self.milestones.iter()
            invariant
                ok ==> forall|j: int|
                    0 <= j < checked ==> initialized && milestone_wf(*(#[trigger] entries[j]).1),
                self.escrow_balance >= 0,
                initialized == (self@.client is Some),
                entries == spec_hash_map_iter(&self.milestones).remaining(),
                it.seq() == entries,
                checked == it.index(),
                !ok ==> !self@.wf(),
            ensures
                checked == entries.len(),
                ok ==> forall|j: int|
                    0 <= j < entries.len() ==> initialized && milestone_wf(*(#[trigger] entries[j]).1),
                !ok ==> !self@.wf(),
        {
            proof {
                assert(entry == it.seq()[checked]);
            }
            let m = entry.1;
            if !initialized || !milestone_ok(m) {
                proof {
                    let k = *entry.0;
                    assert(self@.milestones.contains_key(k) && self@.milestones[k] == *m);
                }
                ok = false;
            }
            proof {
                checked = checked + 1;
            }
        }
        if !ok {
            return false;
        }
        proof {
            assert forall|k: u32| #[trigger] self@.milestones.contains_key(k) implies self@.client is Some
                && milestone_wf(self@.milestones[k]) by {
                let v = entries;
                assert(v.contains((&k, &self@.milestones[k])));
                let j = choose|j: int| 0 <= j < v.len() && v[j] == (&k, &self@.milestones[k]);
                assert(milestone_wf(*v[j].1));
            }
        }
        true
    }
}

fn milestone_ok(m: &Milestone) -> (r: bool)
    ensures
        r == milestone_wf(*m),
{
    m.amount > 0 && (!m.client_approved || m.status == MilestoneStatus::Approved || m.status
        == MilestoneStatus::Released || (m.status == MilestoneStatus::AutoExpired && m.deadline > 0))
}

fn copy_account(o: &Option<AccountId>) -> (r: Result<AccountId, Error>)
    ensures
        r == stored_account(*o),
{
    match o {
        Some(a) => Ok(a.duplicate()),
        None => Err(Error::NotInitialized),
    }
}

} // verus!
