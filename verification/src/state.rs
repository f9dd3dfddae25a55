use std::collections::HashMap;

use vstd::prelude::*;

use crate::types::{AccountId, Milestone, MilestoneStatus};

verus! {

/// The escrow's stored state, one field per storage key. `None` (or, for the
/// flag, the balance and the version, the zero value) stands for a key that
/// was never written.
pub struct EscrowContract {
    pub admin: Option<AccountId>,
    pub client: Option<AccountId>,
    pub freelancer: Option<AccountId>,
    pub arbiter: Option<AccountId>,
    pub token: Option<AccountId>,
    pub version: u32,
    pub is_funded: bool,
    /// The milestone ids in the order they were given at initialization.
    pub milestone_ids: Option<Vec<u32>>,
    pub escrow_balance: i128,
    /// The stored milestones, by id.
    pub milestones: HashMap<u32, Milestone>,
}

/// The mathematical model of the stored state.
#[verifier::ext_equal]
pub struct EscrowView {
    pub admin: Option<AccountId>,
    pub client: Option<AccountId>,
    pub freelancer: Option<AccountId>,
    pub arbiter: Option<AccountId>,
    pub token: Option<AccountId>,
    pub version: u32,
    pub is_funded: bool,
    pub milestone_ids: Option<Seq<u32>>,
    pub escrow_balance: i128,
    pub milestones: Map<u32, Milestone>,
}

impl View for EscrowContract {
    type V = EscrowView;

    open spec fn view(&self) -> EscrowView {
        EscrowView {
            admin: self.admin,
            client: self.client,
            freelancer: self.freelancer,
            arbiter: self.arbiter,
            token: self.token,
            version: self.version,
            is_funded: self.is_funded,
            milestone_ids: match self.milestone_ids {
                Some(ids) => Some(ids@),
                None => None,
            },
            escrow_balance: self.escrow_balance,
            milestones: self.milestones@,
        }
    }
}

/// What every stored milestone satisfies: a positive amount, and a client
/// approval only on a milestone that is approved, released, or auto-expired
/// past a real deadline.
pub open spec fn milestone_wf(m: Milestone) -> bool {
    &&& m.amount > 0
    &&& m.client_approved ==> (m.status == MilestoneStatus::Approved || m.status
        == MilestoneStatus::Released || (m.status == MilestoneStatus::AutoExpired && m.deadline
        > 0))
}

impl EscrowView {
    /// The invariant of every state the escrow can reach: the balance is never
    /// negative, milestones are stored only once the escrow is initialized,
    /// and every stored milestone is well formed.
    pub open spec fn wf(self) -> bool {
        &&& self.escrow_balance >= 0
        &&& forall|k: u32| #[trigger]
            self.milestones.contains_key(k) ==> self.client is Some && milestone_wf(
                self.milestones[k],
            )
    }

    pub open spec fn with_milestone(self, id: u32, m: Milestone) -> EscrowView {
        EscrowView { milestones: self.milestones.insert(id, m), ..self }
    }

    pub open spec fn with_balance(self, balance: i128) -> EscrowView {
        EscrowView { escrow_balance: balance, ..self }
    }
}

impl EscrowContract {
    /// The state of a contract that was never initialized.
    pub fn new() -> (r: EscrowContract)
        ensures
            r@.wf(),
            r@.admin is None,
            r@.client is None,
            r@.freelancer is None,
            r@.arbiter is None,
            r@.token is None,
            r@.version == 0,
            !r@.is_funded,
            r@.milestone_ids is None,
            r@.escrow_balance == 0,
            r@.milestones == Map::<u32, Milestone>::empty(),
    {
        EscrowContract {
            admin: None,
            client: None,
            freelancer: None,
            arbiter: None,
            token: None,
            version: 0,
            is_funded: false,
            milestone_ids: None,
            escrow_balance: 0,
            milestones: HashMap::new(),
        }
    }
}

} // verus!
