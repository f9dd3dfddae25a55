//! The escrow's state-changing calls. Each takes the stored state, the
//! ledger context and the call's arguments; a refused call returns its error
//! and leaves the state as it was (the host rolls a failed call back), an
//! accepted call updates the state and returns the token transfer and events
//! to carry out.
//!
//! Authorization is the host's: before a call it obtains the authorization
//! of the account the call names. That is the `admin` argument of
//! `initialize`; the `caller` argument of `release`, `refund`, `dispute`,
//! `auto_expire`, `set_deadline`, `extend_deadline` and
//! `claim_expired_refund`; and the stored client (`fund`, `approve`),
//! freelancer (`submit_milestone`, `freelancer_confirm`) or arbiter
//! (`resolve_dispute`), when one is stored: without it the call is refused
//! with `NotInitialized` before any authorization is asked for.
use vstd::prelude::*;

use crate::events::{
    ContractEvent, DeadlineExpired, DeadlineExtended, DeadlineSet, DisputeRaised, DisputeResolved,
    Effects, EscrowCreated, EscrowFunded, MilestoneApproved, MilestoneConfirmed, MilestoneExpired,
    MilestoneSubmitted, PaymentReleased, RefundIssued, Transfer,
};
use crate::model::{
    all_stored, fund_effects, fund_error, fund_in_range, fund_post, ids_of, ids_total,
    initialize_effects, initialize_error, initialize_post, listed_milestones, mark_funded,
    lemma_ids_total_prefix, milestones_error, store_milestones, cleared,
    approve_effects, approve_error, approve_post, auto_expire_effects, auto_expire_error,
    claim_effects, claim_error, confirm_effects, confirm_error, confirm_post, dispute_effects,
    dispute_error, dispute_post, extend_deadline_effects, extend_deadline_error, payout_post,
    refund_effects, refund_error, release_effects, release_error, release_post,
    resolution_status, resolve_effects, resolve_error, set_deadline_effects, set_deadline_error,
    submit_effects, submit_error, submit_post, with_deadline,
};
use crate::state::{milestone_wf, EscrowContract, EscrowView};
use crate::types::{is_terminal_status, AccountId, CallContext, Error, Milestone, MilestoneStatus};

verus! {

broadcast use vstd::std_specs::hash::group_hash_axioms;

impl EscrowContract {
    /// The freelancer hands in the work of a funded milestone.
    pub fn submit_milestone(&mut self, ctx: &CallContext, milestone_id: u32) -> (r: Result<
        Effects,
        Error,
    >)
        requires
            old(self)@.wf(),
        ensures
            final(self)@.wf(),
            r is Err <==> submit_error(old(self)@, *ctx, milestone_id) is Some,
            r matches Err(e) ==> submit_error(old(self)@, *ctx, milestone_id) == Some(e)
                && final(self)@ == old(self)@,
            r matches Ok(fx) ==> final(self)@ == submit_post(old(self)@, milestone_id) && fx@
                == submit_effects(old(self)@, *ctx, milestone_id),
    {
        let actor = match &self.freelancer {
            Some(f) => f.duplicate(),
            None => return Err(Error::NotInitialized),
        };
        let m = match self.milestones.get(&milestone_id) {
            Some(m) => m,
            None => return Err(Error::MilestoneNotFound),
        };
        if m.status != MilestoneStatus::Funded {
            return Err(Error::InvalidMilestoneStatus);
        }
        if m.deadline > 0 && ctx.timestamp > m.deadline {
            return Err(Error::DeadlineExceeded);
        }
        let mut updated = m.duplicate();
        updated.status = MilestoneStatus::Submitted;
        let amount = updated.amount;
        let deadline = updated.deadline;
        self.milestones.insert(milestone_id, updated);
        let mut events = Vec::new();
        events.push(
            ContractEvent::MilestoneSubmitted(
                MilestoneSubmitted {
                    contract_id: ctx.contract_address.duplicate(),
                    milestone_id,
                    actor,
                    amount,
                    deadline,
                },
            ),
        );
        Ok(Effects { transfer: None, events })
    }
    /// The client approves a submitted milestone before its deadline.
    pub fn approve(&mut self, ctx: &CallContext, milestone_id: u32) -> (r: Result<Effects, Error>)
        requires
            old(self)@.wf(),
        ensures
            final(self)@.wf(),
            r is Err <==> approve_error(old(self)@, *ctx, milestone_id) is Some,
            r matches Err(e) ==> approve_error(old(self)@, *ctx, milestone_id) == Some(e)
                && final(self)@ == old(self)@,
            r matches Ok(fx) ==> final(self)@ == approve_post(old(self)@, milestone_id) && fx@
                == approve_effects(old(self)@, *ctx, milestone_id),
    {
        let actor = match &self.client {
            Some(c) => c.duplicate(),
            None => return Err(Error::NotInitialized),
        };
        let m = match self.milestones.get(&milestone_id) {
            Some(m) => m,
            None => return Err(Error::MilestoneNotFound),
        };
        if m.status != MilestoneStatus::Submitted {
            return Err(Error::InvalidMilestoneStatus);
        }
        if m.deadline > 0 && ctx.timestamp > m.deadline {
            return Err(Error::DeadlineExceeded);
        }
        if m.client_approved {
            return Err(Error::AlreadyApproved);
        }
        let mut updated = m.duplicate();
        updated.client_approved = true;
        updated.status = MilestoneStatus::Approved;
        self.milestones.insert(milestone_id, updated);
        let mut events = Vec::new();
        events.push(
            ContractEvent::MilestoneApproved(
                MilestoneApproved {
                    contract_id: ctx.contract_address.duplicate(),
                    milestone_id,
                    actor,
                },
            ),
        );
        Ok(Effects { transfer: None, events })
    }

    /// The freelancer confirms a milestone that the client approved.
    pub fn freelancer_confirm(&mut self, ctx: &CallContext, milestone_id: u32) -> (r: Result<
        Effects,
        Error,
    >)
        requires
            old(self)@.wf(),
        ensures
            final(self)@.wf(),
            r is Err <==> confirm_error(old(self)@, milestone_id) is Some,
            r matches Err(e) ==> confirm_error(old(self)@, milestone_id) == Some(e)
                && final(self)@ == old(self)@,
            r matches Ok(fx) ==> final(self)@ == confirm_post(old(self)@, milestone_id) && fx@
                == confirm_effects(old(self)@, *ctx, milestone_id),
    {
        let actor = match &self.freelancer {
            Some(f) => f.duplicate(),
            None => return Err(Error::NotInitialized),
        };
        let m = match self.milestones.get(&milestone_id) {
            Some(m) => m,
            None => return Err(Error::MilestoneNotFound),
        };
        if m.status != MilestoneStatus::Approved {
            return Err(Error::InvalidMilestoneStatus);
        }
        if m.freelancer_approved {
            return Err(Error::AlreadyApproved);
        }
        let mut updated = m.duplicate();
        updated.freelancer_approved = true;
        self.milestones.insert(milestone_id, updated);
        let mut events = Vec::new();
        events.push(
            ContractEvent::MilestoneConfirmed(
                MilestoneConfirmed {
                    contract_id: ctx.contract_address.duplicate(),
                    milestone_id,
                    actor,
                },
            ),
        );
        Ok(Effects { transfer: None, events })
    }

    /// The client pays an approved milestone out to the freelancer.
    pub fn release(&mut self, ctx: &CallContext, milestone_id: u32, caller: AccountId) -> (r:
        Result<Effects, Error>)
        requires
            old(self)@.wf(),
        ensures
            final(self)@.wf(),
            r is Err <==> release_error(old(self)@, *ctx, milestone_id, caller) is Some,
            r matches Err(e) ==> release_error(old(self)@, *ctx, milestone_id, caller) == Some(e)
                && final(self)@ == old(self)@,
            r matches Ok(fx) ==> final(self)@ == release_post(old(self)@, milestone_id) && fx@
                == release_effects(old(self)@, *ctx, milestone_id, caller),
    {
        let client = match &self.client {
            Some(c) => c,
            None => return Err(Error::NotInitialized),
        };
        let freelancer = match &self.freelancer {
            Some(f) => f.duplicate(),
            None => return Err(Error::NotInitialized),
        };
        if !caller.same_as(client) {
            return Err(Error::Unauthorized);
        }
        let m = match self.milestones.get(&milestone_id) {
            Some(m) => m,
            None => return Err(Error::MilestoneNotFound),
        };
        if m.status == MilestoneStatus::Released {
            return Err(Error::InvalidMilestoneStatus);
        }
        if m.deadline > 0 && ctx.timestamp > m.deadline {
            return Err(Error::DeadlineExceeded);
        }
        if !m.client_approved {
            return Err(Error::InsufficientApprovals);
        }
        if self.escrow_balance < m.amount {
            return Err(Error::ZeroAmount);
        }
        if self.token.is_none() {
            return Err(Error::NotInitialized);
        }
        let amount = m.amount;
        let mut updated = m.duplicate();
        updated.status = MilestoneStatus::Released;
        self.milestones.insert(milestone_id, updated);
        self.escrow_balance = self.escrow_balance - amount;
        let mut events = Vec::new();
        events.push(
            ContractEvent::PaymentReleased(
                PaymentReleased {
                    contract_id: ctx.contract_address.duplicate(),
                    milestone_id,
                    actor: caller,
                    recipient: freelancer.duplicate(),
                    amount,
                },
            ),
        );
        let transfer = Transfer { from: ctx.contract_address.duplicate(), to: freelancer, amount };
        Ok(Effects { transfer: Some(transfer), events })
    }

    /// Pays a milestone's amount out of the escrow balance, when the balance
    /// covers it, and gives the milestone its new status.
    fn pay_out(&mut self, milestone_id: u32, status: MilestoneStatus) -> (amount: i128)
        requires
            old(self)@.wf(),
            old(self)@.milestones.contains_key(milestone_id),
            old(self)@.client is Some,
            status.is_terminal(),
            status == MilestoneStatus::AutoExpired ==> old(self)@.milestones[milestone_id].deadline > 0,
            status == MilestoneStatus::Refunded ==> !old(self)@.milestones[milestone_id].client_approved,
        ensures
            final(self)@ == payout_post(old(self)@, milestone_id, status),
            final(self)@.wf(),
            amount == old(self)@.milestones[milestone_id].amount,
    {
        let mut updated = self.milestones.get(&milestone_id).unwrap().duplicate();
        let amount = updated.amount;
        updated.status = status;
        self.milestones.insert(milestone_id, updated);
        if self.escrow_balance >= amount {
            self.escrow_balance = self.escrow_balance - amount;
        }
        amount
    }

    /// The freelancer hands a funded or submitted milestone's amount back to the client.
    pub fn refund(&mut self, ctx: &CallContext, milestone_id: u32, caller: AccountId) -> (r: Result<
        Effects,
        Error,
    >)
        requires
            old(self)@.wf(),
        ensures
            final(self)@.wf(),
            r is Err <==> refund_error(old(self)@, milestone_id, caller) is Some,
            r matches Err(e) ==> refund_error(old(self)@, milestone_id, caller) == Some(e)
                && final(self)@ == old(self)@,
            r matches Ok(fx) ==> final(self)@ == payout_post(
                old(self)@,
                milestone_id,
                MilestoneStatus::Refunded,
            ) && fx@ == refund_effects(old(self)@, *ctx, milestone_id, caller),
    {
        let freelancer = match &self.freelancer {
            Some(f) => f,
            None => return Err(Error::NotInitialized),
        };
        if !caller.same_as(freelancer) {
            return Err(Error::Unauthorized);
        }
        let m = match self.milestones.get(&milestone_id) {
            Some(m) => m,
            None => return Err(Error::MilestoneNotFound),
        };
        if m.status != MilestoneStatus::Funded && m.status != MilestoneStatus::Submitted {
            return Err(Error::InvalidMilestoneStatus);
        }
        let client = match &self.client {
            Some(c) => c.duplicate(),
            None => return Err(Error::NotInitialized),
        };
        if self.token.is_none() {
            return Err(Error::NotInitialized);
        }
        let amount = self.pay_out(milestone_id, MilestoneStatus::Refunded);
        let mut events = Vec::new();
        events.push(
            ContractEvent::RefundIssued(
                RefundIssued {
                    contract_id: ctx.contract_address.duplicate(),
                    milestone_id,
                    actor: caller,
                    recipient: client.duplicate(),
                    amount,
                },
            ),
        );
        let transfer = Transfer { from: ctx.contract_address.duplicate(), to: client, amount };
        Ok(Effects { transfer: Some(transfer), events })
    }

    /// The client or the freelancer opens a dispute on a live milestone,
    /// clearing its approvals.
    pub fn dispute(&mut self, ctx: &CallContext, milestone_id: u32, caller: AccountId) -> (r:
        Result<Effects, Error>)
        requires
            old(self)@.wf(),
        ensures
            final(self)@.wf(),
            r is Err <==> dispute_error(old(self)@, milestone_id, caller) is Some,
            r matches Err(e) ==> dispute_error(old(self)@, milestone_id, caller) == Some(e)
                && final(self)@ == old(self)@,
            r matches Ok(fx) ==> final(self)@ == dispute_post(old(self)@, milestone_id) && fx@
                == dispute_effects(*ctx, milestone_id, caller),
    {
        let client = match &self.client {
            Some(c) => c,
            None => return Err(Error::NotInitialized),
        };
        let freelancer = match &self.freelancer {
            Some(f) => f,
            None => return Err(Error::NotInitialized),
        };
        if !caller.same_as(client) && !caller.same_as(freelancer) {
            return Err(Error::Unauthorized);
        }
        let m = match self.milestones.get(&milestone_id) {
            Some(m) => m,
            None => return Err(Error::MilestoneNotFound),
        };
        if m.status != MilestoneStatus::Funded && m.status != MilestoneStatus::Submitted && m.status
            != MilestoneStatus::Approved {
            return Err(Error::InvalidMilestoneStatus);
        }
        let mut updated = m.duplicate();
        updated.status = MilestoneStatus::Disputed;
        updated.client_approved = false;
        updated.freelancer_approved = false;
        self.milestones.insert(milestone_id, updated);
        let mut events = Vec::new();
        events.push(
            ContractEvent::DisputeRaised(
                DisputeRaised {
                    contract_id: ctx.contract_address.duplicate(),
                    milestone_id,
                    actor: caller,
                },
            ),
        );
        Ok(Effects { transfer: None, events })
    }

    /// The arbiter settles a disputed milestone, paying its amount to the
    /// freelancer or back to the client.
    pub fn resolve_dispute(
        &mut self,
        ctx: &CallContext,
        milestone_id: u32,
        release_to_freelancer: bool,
    ) -> (r: Result<Effects, Error>)
        requires
            old(self)@.wf(),
        ensures
            final(self)@.wf(),
            r is Err <==> resolve_error(old(self)@, milestone_id, release_to_freelancer) is Some,
            r matches Err(e) ==> resolve_error(old(self)@, milestone_id, release_to_freelancer)
                == Some(e) && final(self)@ == old(self)@,
            r matches Ok(fx) ==> final(self)@ == payout_post(
                old(self)@,
                milestone_id,
                resolution_status(release_to_freelancer),
            ) && fx@ == resolve_effects(old(self)@, *ctx, milestone_id, release_to_freelancer),
    {
        let arbiter = match &self.arbiter {
            Some(a) => a.duplicate(),
            None => return Err(Error::NotInitialized),
        };
        let m = match self.milestones.get(&milestone_id) {
            Some(m) => m,
            None => return Err(Error::MilestoneNotFound),
        };
        if m.status != MilestoneStatus::Disputed {
            return Err(Error::InvalidMilestoneStatus);
        }
        let recipient = if release_to_freelancer {
            match &self.freelancer {
                Some(f) => f.duplicate(),
                None => return Err(Error::NotInitialized),
            }
        } else {
            match &self.client {
                Some(c) => c.duplicate(),
                None => return Err(Error::NotInitialized),
            }
        };
        if self.token.is_none() {
            return Err(Error::NotInitialized);
        }
        let status = if release_to_freelancer {
            MilestoneStatus::Released
        } else {
            MilestoneStatus::Refunded
        };
        let amount = self.pay_out(milestone_id, status);
        let mut events = Vec::new();
        events.push(
            ContractEvent::DisputeResolved(
                DisputeResolved {
                    contract_id: ctx.contract_address.duplicate(),
                    milestone_id,
                    actor: arbiter,
                    recipient: recipient.duplicate(),
                    amount,
                    release_to_freelancer,
                },
            ),
        );
        let transfer = Transfer { from: ctx.contract_address.duplicate(), to: recipient, amount };
        Ok(Effects { transfer: Some(transfer), events })
    }

    /// Anyone expires a live milestone whose deadline has passed, returning
    /// its amount to the client.
    pub fn auto_expire(&mut self, ctx: &CallContext, caller: AccountId, milestone_id: u32) -> (r:
        Result<Effects, Error>)
        requires
            old(self)@.wf(),
        ensures
            final(self)@.wf(),
            r is Err <==> auto_expire_error(old(self)@, *ctx, milestone_id) is Some,
            r matches Err(e) ==> auto_expire_error(old(self)@, *ctx, milestone_id) == Some(e)
                && final(self)@ == old(self)@,
            r matches Ok(fx) ==> final(self)@ == payout_post(
                old(self)@,
                milestone_id,
                MilestoneStatus::AutoExpired,
            ) && fx@ == auto_expire_effects(old(self)@, *ctx, caller, milestone_id),
    {
        let m = match self.milestones.get(&milestone_id) {
            Some(m) => m,
            None => return Err(Error::MilestoneNotFound),
        };
        if m.deadline == 0 {
            return Err(Error::InvalidMilestoneStatus);
        }
        if ctx.timestamp <= m.deadline {
            return Err(Error::InvalidMilestoneStatus);
        }
        if m.status == MilestoneStatus::Released || m.status == MilestoneStatus::Refunded || m.status
            == MilestoneStatus::Disputed || m.status == MilestoneStatus::AutoExpired {
            return Err(Error::AlreadyExpired);
        }
        let deadline = m.deadline;
        let client = match &self.client {
            Some(c) => c.duplicate(),
            None => return Err(Error::NotInitialized),
        };
        if self.token.is_none() {
            return Err(Error::NotInitialized);
        }
        let amount = self.pay_out(milestone_id, MilestoneStatus::AutoExpired);
        let mut events = Vec::new();
        events.push(
            ContractEvent::MilestoneExpired(
                MilestoneExpired {
                    contract_id: ctx.contract_address.duplicate(),
                    milestone_id,
                    actor: caller.duplicate(),
                    recipient: client.duplicate(),
                    amount,
                },
            ),
        );
        events.push(
            ContractEvent::DeadlineExpired(
                DeadlineExpired {
                    contract_id: ctx.contract_address.duplicate(),
                    milestone_id,
                    actor: caller,
                    deadline,
                },
            ),
        );
        let transfer = Transfer { from: ctx.contract_address.duplicate(), to: client, amount };
        Ok(Effects { transfer: Some(transfer), events })
    }

    /// The client or the arbiter gives a deadline to a live milestone that has none.
    pub fn set_deadline(
        &mut self,
        ctx: &CallContext,
        milestone_id: u32,
        caller: AccountId,
        deadline: u64,
    ) -> (r: Result<Effects, Error>)
        requires
            old(self)@.wf(),
        ensures
            final(self)@.wf(),
            r is Err <==> set_deadline_error(old(self)@, *ctx, milestone_id, caller, deadline)
                is Some,
            r matches Err(e) ==> set_deadline_error(old(self)@, *ctx, milestone_id, caller, deadline)
                == Some(e) && final(self)@ == old(self)@,
            r matches Ok(fx) ==> final(self)@ == with_deadline(old(self)@, milestone_id, deadline)
                && fx@ == set_deadline_effects(*ctx, milestone_id, caller, deadline),
    {
        let client = match &self.client {
            Some(c) => c,
            None => return Err(Error::NotInitialized),
        };
        let arbiter = match &self.arbiter {
            Some(a) => a,
            None => return Err(Error::NotInitialized),
        };
        if !caller.same_as(client) && !caller.same_as(arbiter) {
            return Err(Error::Unauthorized);
        }
        let m = match self.milestones.get(&milestone_id) {
            Some(m) => m,
            None => return Err(Error::MilestoneNotFound),
        };
        if m.deadline != 0 {
            return Err(Error::DeadlineAlreadySet);
        }
        if is_terminal_status(m.status) {
            return Err(Error::InvalidMilestoneStatus);
        }
        if deadline <= ctx.timestamp {
            return Err(Error::InvalidDeadline);
        }
        let mut updated = m.duplicate();
        updated.deadline = deadline;
        self.milestones.insert(milestone_id, updated);
        let mut events = Vec::new();
        events.push(
            ContractEvent::DeadlineSet(
                DeadlineSet {
                    contract_id: ctx.contract_address.duplicate(),
                    milestone_id,
                    actor: caller,
                    deadline,
                },
            ),
        );
        Ok(Effects { transfer: None, events })
    }

    /// The client or the arbiter moves a live milestone's deadline strictly
    /// forward, past the current time; this also revives an expired milestone.
    pub fn extend_deadline(
        &mut self,
        ctx: &CallContext,
        milestone_id: u32,
        caller: AccountId,
        new_deadline: u64,
    ) -> (r: Result<Effects, Error>)
        requires
            old(self)@.wf(),
        ensures
            final(self)@.wf(),
            r is Err <==> extend_deadline_error(old(self)@, *ctx, milestone_id, caller, new_deadline)
                is Some,
            r matches Err(e) ==> extend_deadline_error(
                old(self)@,
                *ctx,
                milestone_id,
                caller,
                new_deadline,
            ) == Some(e) && final(self)@ == old(self)@,
            r matches Ok(fx) ==> final(self)@ == with_deadline(old(self)@, milestone_id, new_deadline)
                && fx@ == extend_deadline_effects(old(self)@, *ctx, milestone_id, caller, new_deadline),
    {
        let client = match &self.client {
            Some(c) => c,
            None => return Err(Error::NotInitialized),
        };
        let arbiter = match &self.arbiter {
            Some(a) => a,
            None => return Err(Error::NotInitialized),
        };
        if !caller.same_as(client) && !caller.same_as(arbiter) {
            return Err(Error::Unauthorized);
        }
        let m = match self.milestones.get(&milestone_id) {
            Some(m) => m,
            None => return Err(Error::MilestoneNotFound),
        };
        if m.deadline == 0 {
            return Err(Error::InvalidDeadline);
        }
        if is_terminal_status(m.status) {
            return Err(Error::InvalidMilestoneStatus);
        }
        if new_deadline <= m.deadline || new_deadline <= ctx.timestamp {
            return Err(Error::InvalidDeadline);
        }
        let old_deadline = m.deadline;
        let mut updated = m.duplicate();
        updated.deadline = new_deadline;
        self.milestones.insert(milestone_id, updated);
        let mut events = Vec::new();
        events.push(
            ContractEvent::DeadlineExtended(
                DeadlineExtended {
                    contract_id: ctx.contract_address.duplicate(),
                    milestone_id,
                    actor: caller,
                    old_deadline,
                    new_deadline,
                },
            ),
        );
        Ok(Effects { transfer: None, events })
    }

    /// The client takes back the amount of a funded or submitted milestone
    /// whose deadline has passed; a disputed milestone stays locked until the
    /// arbiter resolves it.
    pub fn claim_expired_refund(&mut self, ctx: &CallContext, milestone_id: u32, caller: AccountId) -> (r:
        Result<Effects, Error>)
        requires
            old(self)@.wf(),
        ensures
            final(self)@.wf(),
            r is Err <==> claim_error(old(self)@, *ctx, milestone_id, caller) is Some,
            r matches Err(e) ==> claim_error(old(self)@, *ctx, milestone_id, caller) == Some(e)
                && final(self)@ == old(self)@,
            r matches Ok(fx) ==> final(self)@ == payout_post(
                old(self)@,
                milestone_id,
                MilestoneStatus::Refunded,
            ) && fx@ == claim_effects(old(self)@, *ctx, milestone_id, caller),
    {
        let client = match &self.client {
            Some(c) => c.duplicate(),
            None => return Err(Error::NotInitialized),
        };
        if !caller.same_as(&client) {
            return Err(Error::Unauthorized);
        }
        let m = match self.milestones.get(&milestone_id) {
            Some(m) => m,
            None => return Err(Error::MilestoneNotFound),
        };
        if m.deadline == 0 {
            return Err(Error::InvalidDeadline);
        }
        if ctx.timestamp <= m.deadline {
            return Err(Error::DeadlineNotExpired);
        }
        if m.status == MilestoneStatus::Disputed {
            return Err(Error::MilestoneDisputed);
        }
        if m.status != MilestoneStatus::Funded && m.status != MilestoneStatus::Submitted {
            return Err(Error::InvalidMilestoneStatus);
        }
        if self.token.is_none() {
            return Err(Error::NotInitialized);
        }
        let deadline = m.deadline;
        let amount = self.pay_out(milestone_id, MilestoneStatus::Refunded);
        let mut events = Vec::new();
        events.push(
            ContractEvent::DeadlineExpired(
                DeadlineExpired {
                    contract_id: ctx.contract_address.duplicate(),
                    milestone_id,
                    actor: caller.duplicate(),
                    deadline,
                },
            ),
        );
        events.push(
            ContractEvent::RefundIssued(
                RefundIssued {
                    contract_id: ctx.contract_address.duplicate(),
                    milestone_id,
                    actor: caller,
                    recipient: client.duplicate(),
                    amount,
                },
            ),
        );
        let transfer = Transfer { from: ctx.contract_address.duplicate(), to: client, amount };
        Ok(Effects { transfer: Some(transfer), events })
    }
    /// Sets the escrow up: the parties, the token and the milestones, stored
    /// under their ids with both approvals cleared. Only once, and only with
    /// at least one milestone, each with a positive amount.
    pub fn initialize(
        &mut self,
        ctx: &CallContext,
        admin: AccountId,
        client: AccountId,
        freelancer: AccountId,
        arbiter: AccountId,
        token: AccountId,
        milestones: Vec<Milestone>,
    ) -> (r: Result<Effects, Error>)
        requires
            old(self)@.wf(),
            milestones.len() <= u32::MAX,
        ensures
            final(self)@.wf(),
            r is Err <==> initialize_error(old(self)@, milestones@) is Some,
            r matches Err(e) ==> initialize_error(old(self)@, milestones@) == Some(e)
                && final(self)@ == old(self)@,
            r matches Ok(fx) ==> final(self)@ == initialize_post(
                old(self)@,
                admin,
                client,
                freelancer,
                arbiter,
                token,
                milestones@,
            ) && fx@ == initialize_effects(
                *ctx,
                admin,
                client,
                freelancer,
                arbiter,
                token,
                milestones@,
            ),
    {
        if self.client.is_some() {
            return Err(Error::AlreadyInitialized);
        }
        if milestones.len() == 0 {
            return Err(Error::MilestoneNotFound);
        }
        let mut i: usize = 0;
        while i < milestones.len()
            invariant
                i <= milestones.len(),
                self@ == old(self)@,
                old(self)@.wf(),
                old(self)@.client is None,
                milestones.len() > 0,
                forall|j: int| 0 <= j < i ==> (#[trigger] milestones@[j]).amount > 0,
            decreases milestones.len() - i,
        {
            if milestones[i].amount <= 0 {
                return Err(Error::ZeroAmount);
            }
            i = i + 1;
        }
        let ghost s0 = self@;
        let mut ids: Vec<u32> = Vec::new();
        let mut j: usize = 0;
        while j < milestones.len()
            invariant
                j <= milestones.len(),
                s0 == old(self)@,
                s0.wf(),
                s0.client is None,
                forall|k: int| 0 <= k < milestones.len() ==> (#[trigger] milestones@[k]).amount > 0,
                ids@ == ids_of(milestones@.take(j as int)),
                self.milestones@ == store_milestones(s0.milestones, milestones@.take(j as int)),
                self@ == (EscrowView { milestones: self.milestones@, ..s0 }),
                forall|k: u32| #[trigger]
                    self.milestones@.contains_key(k) ==> milestone_wf(self.milestones@[k]),
            decreases milestones.len() - j,
        {
            let mut m = milestones[j].duplicate();
            m.client_approved = false;
            m.freelancer_approved = false;
            let id = m.id;
            proof {
                assert(m == cleared(milestones@[j as int]));
                assert(milestones@.take(j + 1).drop_last() =~= milestones@.take(j as int));
                assert(ids_of(milestones@.take(j + 1)) =~= ids_of(milestones@.take(j as int)).push(
                    id,
                ));
            }
            self.milestones.insert(id, m);
            ids.push(id);
            j = j + 1;
        }
        proof {
            assert(milestones@.take(milestones.len() as int) =~= milestones@);
        }
        let count = milestones.len() as u32;
        self.admin = Some(admin.duplicate());
        self.version = 1;
        self.client = Some(client.duplicate());
        self.freelancer = Some(freelancer.duplicate());
        self.arbiter = Some(arbiter.duplicate());
        self.token = Some(token.duplicate());
        self.milestone_ids = Some(ids);
        self.is_funded = false;
        let mut events = Vec::new();
        events.push(
            ContractEvent::EscrowCreated(
                EscrowCreated {
                    contract_id: ctx.contract_address.duplicate(),
                    actor: admin,
                    client,
                    freelancer,
                    arbiter,
                    token,
                    milestone_count: count,
                },
            ),
        );
        Ok(Effects { transfer: None, events })
    }

    /// The client pays the sum of all milestone amounts into the escrow,
    /// once; every pending milestone becomes funded.
    pub fn fund(&mut self, ctx: &CallContext) -> (r: Result<Effects, Error>)
        requires
            old(self)@.wf(),
            fund_in_range(old(self)@),
        ensures
            final(self)@.wf(),
            r is Err <==> fund_error(old(self)@) is Some,
            r matches Err(e) ==> fund_error(old(self)@) == Some(e) && final(self)@ == old(self)@,
            r matches Ok(fx) ==> final(self)@ == fund_post(old(self)@) && fx@ == fund_effects(
                old(self)@,
                *ctx,
            ),
    {
        let client = match &self.client {
            Some(c) => c.duplicate(),
            None => return Err(Error::NotInitialized),
        };
        if self.is_funded {
            return Err(Error::AlreadyFunded);
        }
        let ids = match &self.milestone_ids {
            Some(ids) => ids,
            None => return Err(Error::NotInitialized),
        };
        let ghost s0 = self@;
        let mut total: i128 = 0;
        let mut i: usize = 0;
        while i < ids.len()
            invariant
                i <= ids.len(),
                s0 == old(self)@,
                s0.wf(),
                s0.milestone_ids == Some(ids@),
                s0.client is Some,
                !s0.is_funded,
                ids_total(ids@, s0.milestones) <= i128::MAX,
                self@ == s0,
                total == ids_total(ids@.take(i as int), s0.milestones),
                all_stored(ids@.take(i as int), s0.milestones),
            decreases ids.len() - i,
        {
            let id = ids[i];
            proof {
                assert(ids@.take(i + 1).drop_last() =~= ids@.take(i as int));
            }
            match self.milestones.get(&id) {
                Some(m) => {
                    proof {
                        lemma_ids_total_prefix(ids@, s0.milestones, i + 1);
                        assert(all_stored(ids@.take(i + 1), s0.milestones)) by {
                            assert forall|k: int| 0 <= k < i + 1 implies s0.milestones.contains_key(
                                #[trigger] ids@.take(i + 1)[k],
                            ) by {
                                if k < i {
                                    assert(ids@.take(i + 1)[k] == ids@.take(i as int)[k]);
                                }
                            }
                        }
                    }
                    total = total + m.amount;
                },
                None => {
                    proof {
                        assert(!s0.milestones.contains_key(ids@[i as int]));
                    }
                    return Err(Error::MilestoneNotFound);
                },
            }
            i = i + 1;
        }
        proof {
            assert(ids@.take(ids.len() as int) =~= ids@);
        }
        if total <= 0 {
            return Err(Error::ZeroAmount);
        }
        if self.token.is_none() {
            return Err(Error::NotInitialized);
        }
        let mut j: usize = 0;
        while j < ids.len()
            invariant
                j <= ids.len(),
                s0 == old(self)@,
                s0.wf(),
                s0.milestone_ids == Some(ids@),
                all_stored(ids@, s0.milestones),
                self.milestones@ == mark_funded(s0.milestones, ids@.take(j as int)),
                self@ == (EscrowView { milestones: self.milestones@, ..s0 }),
            decreases ids.len() - j,
        {
            let id = ids[j];
            let ghost before = self.milestones@;
            proof {
                assert(s0.milestones.contains_key(ids@[j as int]));
            }
            let mut m = self.milestones.get(&id).unwrap().duplicate();
            if m.status == MilestoneStatus::Pending {
                m.status = MilestoneStatus::Funded;
                self.milestones.insert(id, m);
            }
            proof {
                assert forall|k: u32| #[trigger]
                    ids@.take(j + 1).contains(k) == (ids@.take(j as int).contains(k) || k == id) by {
                    if ids@.take(j + 1).contains(k) {
                        let x = choose|x: int| 0 <= x < j + 1 && #[trigger] ids@.take(j + 1)[x] == k;
                        if x < j {
                            assert(ids@.take(j as int)[x] == k);
                        }
                    }
                    if ids@.take(j as int).contains(k) {
                        let x = choose|x: int| 0 <= x < j && #[trigger] ids@.take(j as int)[x] == k;
                        assert(ids@.take(j + 1)[x] == k);
                    }
                    if k == id {
                        assert(ids@.take(j + 1)[j as int] == k);
                    }
                }
                assert(self.milestones@ =~= mark_funded(s0.milestones, ids@.take(j + 1)));
            }
            j = j + 1;
        }
        proof {
            assert(ids@.take(ids.len() as int) =~= ids@);
        }
        self.is_funded = true;
        self.escrow_balance = total;
        let mut events = Vec::new();
        events.push(
            ContractEvent::EscrowFunded(
                EscrowFunded {
                    contract_id: ctx.contract_address.duplicate(),
                    actor: client.duplicate(),
                    amount: total,
                },
            ),
        );
        let transfer = Transfer { from: client, to: ctx.contract_address.duplicate(), amount: total };
        Ok(Effects { transfer: Some(transfer), events })
    }

    /// The stored milestones, in the order of the stored ids.
    pub fn get_milestones(&self) -> (r: Result<Vec<Milestone>, Error>)
        ensures
            r is Err <==> milestones_error(self@) is Some,
            r matches Err(e) ==> milestones_error(self@) == Some(e),
            r matches Ok(v) ==> v@ == listed_milestones(self@),
    {
        let ids = match &self.milestone_ids {
            Some(ids) => ids,
            None => return Err(Error::NotInitialized),
        };
        let mut out: Vec<Milestone> = Vec::new();
        let mut i: usize = 0;
        while i < ids.len()
            invariant
                i <= ids.len(),
                self@.milestone_ids == Some(ids@),
                all_stored(ids@.take(i as int), self@.milestones),
                out@ == ids@.take(i as int).map_values(|id: u32| self@.milestones[id]),
            decreases ids.len() - i,
        {
            let id = ids[i];
            match self.milestones.get(&id) {
                Some(m) => {
                    out.push(m.duplicate());
                    proof {
                        assert(ids@.take(i + 1).drop_last() =~= ids@.take(i as int));
                        assert(out@ =~= ids@.take(i + 1).map_values(
                            |id: u32| self@.milestones[id],
                        ));
                        assert forall|k: int| 0 <= k < i + 1 implies self@.milestones.contains_key(
                            #[trigger] ids@.take(i + 1)[k],
                        ) by {
                            if k < i {
                                assert(ids@.take(i + 1)[k] == ids@.take(i as int)[k]);
                            }
                        }
                    }
                },
                None => {
                    return Err(Error::MilestoneNotFound);
                },
            }
            i = i + 1;
        }
        proof {
            assert(ids@.take(ids.len() as int) =~= ids@);
        }
        Ok(out)
    }
}

} // verus!
