//! What each call of the escrow does, stated over the model of its state:
//! for each call, the error it is refused with (the first of its checks that
//! fails, in the order the checks are made), the state it leaves when it is
//! accepted, and the effects it then asks for.
use vstd::prelude::*;

use crate::events::{
    ContractEvent, DeadlineExpired, DeadlineExtended, DeadlineSet, DisputeRaised, DisputeResolved,
    EffectsView, EscrowCreated, EscrowFunded, MilestoneApproved, MilestoneConfirmed,
    MilestoneExpired, MilestoneSubmitted, PaymentReleased, RefundIssued, Transfer,
};
use crate::state::EscrowView;
use crate::types::{AccountId, CallContext, Error, Milestone, MilestoneStatus, SignedCall};

verus! {

/// `o` holds an account and it is `a`.
pub open spec fn holds_account(o: Option<AccountId>, a: AccountId) -> bool {
    o matches Some(x) && x@ == a@
}

pub open spec fn with_status(m: Milestone, status: MilestoneStatus) -> Milestone {
    Milestone { status, ..m }
}

/// The escrow balance after paying `amount` out of it: it goes down only
/// when it covers the amount.
pub open spec fn balance_after_payout(balance: i128, amount: i128) -> i128 {
    if balance >= amount {
        (balance - amount) as i128
    } else {
        balance
    }
}

// --- initialize ---

/// A milestone as it is stored at initialization: both approvals cleared.
pub open spec fn cleared(m: Milestone) -> Milestone {
    Milestone { client_approved: false, freelancer_approved: false, ..m }
}

/// `input` stored milestone by milestone under each one's id, a later one
/// replacing an earlier one with the same id.
pub open spec fn store_milestones(stored: Map<u32, Milestone>, input: Seq<Milestone>) -> Map<
    u32,
    Milestone,
>
    decreases input.len(),
{
    if input.len() == 0 {
        stored
    } else {
        store_milestones(stored, input.drop_last()).insert(input.last().id, cleared(input.last()))
    }
}

pub open spec fn ids_of(input: Seq<Milestone>) -> Seq<u32> {
    input.map_values(|m: Milestone| m.id)
}

pub open spec fn initialize_error(s: EscrowView, input: Seq<Milestone>) -> Option<Error> {
    if s.client is Some {
        Some(Error::AlreadyInitialized)
    } else if input.len() == 0 {
        Some(Error::MilestoneNotFound)
    } else if exists|i: int| 0 <= i < input.len() && (#[trigger] input[i]).amount <= 0 {
        Some(Error::ZeroAmount)
    } else {
        None
    }
}

pub open spec fn initialize_post(
    s: EscrowView,
    admin: AccountId,
    client: AccountId,
    freelancer: AccountId,
    arbiter: AccountId,
    token: AccountId,
    input: Seq<Milestone>,
) -> EscrowView {
    EscrowView {
        admin: Some(admin),
        client: Some(client),
        freelancer: Some(freelancer),
        arbiter: Some(arbiter),
        token: Some(token),
        version: 1,
        is_funded: false,
        milestone_ids: Some(ids_of(input)),
        escrow_balance: s.escrow_balance,
        milestones: store_milestones(s.milestones, input),
    }
}

pub open spec fn initialize_effects(
    ctx: CallContext,
    admin: AccountId,
    client: AccountId,
    freelancer: AccountId,
    arbiter: AccountId,
    token: AccountId,
    input: Seq<Milestone>,
) -> EffectsView {
    EffectsView::event(
        ContractEvent::EscrowCreated(
            EscrowCreated {
                contract_id: ctx.contract_address,
                actor: admin,
                client,
                freelancer,
                arbiter,
                token,
                milestone_count: input.len() as u32,
            },
        ),
    )
}

// --- fund ---

/// The sum of the amounts of the stored milestones that `ids` names, an id
/// counted as often as it occurs.
pub open spec fn ids_total(ids: Seq<u32>, ms: Map<u32, Milestone>) -> int
    decreases ids.len(),
{
    if ids.len() == 0 {
        0
    } else {
        ids_total(ids.drop_last(), ms) + if ms.contains_key(ids.last()) {
            ms[ids.last()].amount as int
        } else {
            0
        }
    }
}

pub open spec fn all_stored(ids: Seq<u32>, ms: Map<u32, Milestone>) -> bool {
    forall|i: int| 0 <= i < ids.len() ==> ms.contains_key(#[trigger] ids[i])
}

/// Funding sums the amounts without overflowing `i128`.
pub open spec fn fund_in_range(s: EscrowView) -> bool {
    s.client is Some && !s.is_funded && s.milestone_ids is Some ==> ids_total(
        s.milestone_ids->0,
        s.milestones,
    ) <= i128::MAX
}

pub open spec fn fund_error(s: EscrowView) -> Option<Error> {
    if s.client is None {
        Some(Error::NotInitialized)
    } else if s.is_funded {
        Some(Error::AlreadyFunded)
    } else if s.milestone_ids is None {
        Some(Error::NotInitialized)
    } else if !all_stored(s.milestone_ids->0, s.milestones) {
        Some(Error::MilestoneNotFound)
    } else if ids_total(s.milestone_ids->0, s.milestones) <= 0 {
        Some(Error::ZeroAmount)
    } else if s.token is None {
        Some(Error::NotInitialized)
    } else {
        None
    }
}

pub open spec fn fund_total(s: EscrowView) -> i128 {
    ids_total(s.milestone_ids->0, s.milestones) as i128
}

/// Every pending milestone that `ids` names becomes funded.
pub open spec fn mark_funded(ms: Map<u32, Milestone>, ids: Seq<u32>) -> Map<u32, Milestone> {
    Map::new(
        |k: u32| ms.contains_key(k),
        |k: u32|
            if ids.contains(k) && ms[k].status == MilestoneStatus::Pending {
                with_status(ms[k], MilestoneStatus::Funded)
            } else {
                ms[k]
            },
    )
}

pub open spec fn fund_post(s: EscrowView) -> EscrowView {
    EscrowView {
        is_funded: true,
        escrow_balance: fund_total(s),
        milestones: mark_funded(s.milestones, s.milestone_ids->0),
        ..s
    }
}

pub open spec fn fund_effects(s: EscrowView, ctx: CallContext) -> EffectsView {
    EffectsView::paying(
        Transfer { from: s.client->0, to: ctx.contract_address, amount: fund_total(s) },
        seq![
            ContractEvent::EscrowFunded(
                EscrowFunded {
                    contract_id: ctx.contract_address,
                    actor: s.client->0,
                    amount: fund_total(s),
                },
            ),
        ],
    )
}

// --- submit_milestone ---

pub open spec fn submit_error(s: EscrowView, ctx: CallContext, id: u32) -> Option<Error> {
    if s.freelancer is None {
        Some(Error::NotInitialized)
    } else if !s.milestones.contains_key(id) {
        Some(Error::MilestoneNotFound)
    } else if s.milestones[id].status != MilestoneStatus::Funded {
        Some(Error::InvalidMilestoneStatus)
    } else if s.milestones[id].expired_at(ctx.timestamp) {
        Some(Error::DeadlineExceeded)
    } else {
        None
    }
}

pub open spec fn submit_post(s: EscrowView, id: u32) -> EscrowView {
    s.with_milestone(id, with_status(s.milestones[id], MilestoneStatus::Submitted))
}

pub open spec fn submit_effects(s: EscrowView, ctx: CallContext, id: u32) -> EffectsView {
    EffectsView::event(
        ContractEvent::MilestoneSubmitted(
            MilestoneSubmitted {
                contract_id: ctx.contract_address,
                milestone_id: id,
                actor: s.freelancer->0,
                amount: s.milestones[id].amount,
                deadline: s.milestones[id].deadline,
            },
        ),
    )
}

// --- approve ---

pub open spec fn approve_error(s: EscrowView, ctx: CallContext, id: u32) -> Option<Error> {
    if s.client is None {
        Some(Error::NotInitialized)
    } else if !s.milestones.contains_key(id) {
        Some(Error::MilestoneNotFound)
    } else if s.milestones[id].status != MilestoneStatus::Submitted {
        Some(Error::InvalidMilestoneStatus)
    } else if s.milestones[id].expired_at(ctx.timestamp) {
        Some(Error::DeadlineExceeded)
    } else if s.milestones[id].client_approved {
        Some(Error::AlreadyApproved)
    } else {
        None
    }
}

pub open spec fn approve_post(s: EscrowView, id: u32) -> EscrowView {
    s.with_milestone(
        id,
        Milestone {
            client_approved: true,
            status: MilestoneStatus::Approved,
            ..s.milestones[id]
        },
    )
}

pub open spec fn approve_effects(s: EscrowView, ctx: CallContext, id: u32) -> EffectsView {
    EffectsView::event(
        ContractEvent::MilestoneApproved(
            MilestoneApproved {
                contract_id: ctx.contract_address,
                milestone_id: id,
                actor: s.client->0,
            },
        ),
    )
}

// --- freelancer_confirm ---

pub open spec fn confirm_error(s: EscrowView, id: u32) -> Option<Error> {
    if s.freelancer is None {
        Some(Error::NotInitialized)
    } else if !s.milestones.contains_key(id) {
        Some(Error::MilestoneNotFound)
    } else if s.milestones[id].status != MilestoneStatus::Approved {
        Some(Error::InvalidMilestoneStatus)
    } else if s.milestones[id].freelancer_approved {
        Some(Error::AlreadyApproved)
    } else {
        None
    }
}

pub open spec fn confirm_post(s: EscrowView, id: u32) -> EscrowView {
    s.with_milestone(id, Milestone { freelancer_approved: true, ..s.milestones[id] })
}

pub open spec fn confirm_effects(s: EscrowView, ctx: CallContext, id: u32) -> EffectsView {
    EffectsView::event(
        ContractEvent::MilestoneConfirmed(
            MilestoneConfirmed {
                contract_id: ctx.contract_address,
                milestone_id: id,
                actor: s.freelancer->0,
            },
        ),
    )
}

// --- release ---

pub open spec fn release_error(s: EscrowView, ctx: CallContext, id: u32, caller: AccountId) -> Option<
    Error,
> {
    if s.client is None || s.freelancer is None {
        Some(Error::NotInitialized)
    } else if !holds_account(s.client, caller) {
        Some(Error::Unauthorized)
    } else if !s.milestones.contains_key(id) {
        Some(Error::MilestoneNotFound)
    } else if s.milestones[id].status == MilestoneStatus::Released {
        Some(Error::InvalidMilestoneStatus)
    } else if s.milestones[id].expired_at(ctx.timestamp) {
        Some(Error::DeadlineExceeded)
    } else if !s.milestones[id].client_approved {
        Some(Error::InsufficientApprovals)
    } else if s.escrow_balance < s.milestones[id].amount {
        Some(Error::ZeroAmount)
    } else if s.token is None {
        Some(Error::NotInitialized)
    } else {
        None
    }
}

pub open spec fn release_post(s: EscrowView, id: u32) -> EscrowView {
    s.with_milestone(id, with_status(s.milestones[id], MilestoneStatus::Released)).with_balance(
        (s.escrow_balance - s.milestones[id].amount) as i128,
    )
}

pub open spec fn release_effects(s: EscrowView, ctx: CallContext, id: u32, caller: AccountId) -> EffectsView {
    EffectsView::paying(
        Transfer {
            from: ctx.contract_address,
            to: s.freelancer->0,
            amount: s.milestones[id].amount,
        },
        seq![
            ContractEvent::PaymentReleased(
                PaymentReleased {
                    contract_id: ctx.contract_address,
                    milestone_id: id,
                    actor: caller,
                    recipient: s.freelancer->0,
                    amount: s.milestones[id].amount,
                },
            ),
        ],
    )
}

// --- refund ---

pub open spec fn refund_error(s: EscrowView, id: u32, caller: AccountId) -> Option<Error> {
    if s.freelancer is None {
        Some(Error::NotInitialized)
    } else if !holds_account(s.freelancer, caller) {
        Some(Error::Unauthorized)
    } else if !s.milestones.contains_key(id) {
        Some(Error::MilestoneNotFound)
    } else if s.milestones[id].status != MilestoneStatus::Funded && s.milestones[id].status
        != MilestoneStatus::Submitted {
        Some(Error::InvalidMilestoneStatus)
    } else if s.client is None || s.token is None {
        Some(Error::NotInitialized)
    } else {
        None
    }
}

/// The milestone gets `status` and its amount is paid out of the balance.
pub open spec fn payout_post(s: EscrowView, id: u32, status: MilestoneStatus) -> EscrowView {
    s.with_milestone(id, with_status(s.milestones[id], status)).with_balance(
        balance_after_payout(s.escrow_balance, s.milestones[id].amount),
    )
}

pub open spec fn refund_effects(s: EscrowView, ctx: CallContext, id: u32, caller: AccountId) -> EffectsView {
    EffectsView::paying(
        Transfer { from: ctx.contract_address, to: s.client->0, amount: s.milestones[id].amount },
        seq![
            ContractEvent::RefundIssued(
                RefundIssued {
                    contract_id: ctx.contract_address,
                    milestone_id: id,
                    actor: caller,
                    recipient: s.client->0,
                    amount: s.milestones[id].amount,
                },
            ),
        ],
    )
}

// --- dispute ---

pub open spec fn dispute_error(s: EscrowView, id: u32, caller: AccountId) -> Option<Error> {
    if s.client is None || s.freelancer is None {
        Some(Error::NotInitialized)
    } else if !holds_account(s.client, caller) && !holds_account(s.freelancer, caller) {
        Some(Error::Unauthorized)
    } else if !s.milestones.contains_key(id) {
        Some(Error::MilestoneNotFound)
    } else if s.milestones[id].status != MilestoneStatus::Funded && s.milestones[id].status
        != MilestoneStatus::Submitted && s.milestones[id].status != MilestoneStatus::Approved {
        Some(Error::InvalidMilestoneStatus)
    } else {
        None
    }
}

pub open spec fn dispute_post(s: EscrowView, id: u32) -> EscrowView {
    s.with_milestone(
        id,
        Milestone {
            status: MilestoneStatus::Disputed,
            client_approved: false,
            freelancer_approved: false,
            ..s.milestones[id]
        },
    )
}

pub open spec fn dispute_effects(ctx: CallContext, id: u32, caller: AccountId) -> EffectsView {
    EffectsView::event(
        ContractEvent::DisputeRaised(
            DisputeRaised { contract_id: ctx.contract_address, milestone_id: id, actor: caller },
        ),
    )
}

// --- resolve_dispute ---

/// Who receives a disputed milestone's amount.
pub open spec fn dispute_recipient(s: EscrowView, release_to_freelancer: bool) -> Option<AccountId> {
    if release_to_freelancer {
        s.freelancer
    } else {
        s.client
    }
}

pub open spec fn resolution_status(release_to_freelancer: bool) -> MilestoneStatus {
    if release_to_freelancer {
        MilestoneStatus::Released
    } else {
        MilestoneStatus::Refunded
    }
}

pub open spec fn resolve_error(s: EscrowView, id: u32, release_to_freelancer: bool) -> Option<Error> {
    if s.arbiter is None {
        Some(Error::NotInitialized)
    } else if !s.milestones.contains_key(id) {
        Some(Error::MilestoneNotFound)
    } else if s.milestones[id].status != MilestoneStatus::Disputed {
        Some(Error::InvalidMilestoneStatus)
    } else if dispute_recipient(s, release_to_freelancer) is None || s.token is None {
        Some(Error::NotInitialized)
    } else {
        None
    }
}

pub open spec fn resolve_effects(
    s: EscrowView,
    ctx: CallContext,
    id: u32,
    release_to_freelancer: bool,
) -> EffectsView {
    EffectsView::paying(
        Transfer {
            from: ctx.contract_address,
            to: dispute_recipient(s, release_to_freelancer)->0,
            amount: s.milestones[id].amount,
        },
        seq![
            ContractEvent::DisputeResolved(
                DisputeResolved {
                    contract_id: ctx.contract_address,
                    milestone_id: id,
                    actor: s.arbiter->0,
                    recipient: dispute_recipient(s, release_to_freelancer)->0,
                    amount: s.milestones[id].amount,
                    release_to_freelancer,
                },
            ),
        ],
    )
}

// --- auto_expire ---

pub open spec fn auto_expire_error(s: EscrowView, ctx: CallContext, id: u32) -> Option<Error> {
    if !s.milestones.contains_key(id) {
        Some(Error::MilestoneNotFound)
    } else if !s.milestones[id].expired_at(ctx.timestamp) {
        Some(Error::InvalidMilestoneStatus)
    } else if s.milestones[id].status == MilestoneStatus::Released || s.milestones[id].status
        == MilestoneStatus::Refunded || s.milestones[id].status == MilestoneStatus::Disputed
        || s.milestones[id].status == MilestoneStatus::AutoExpired {
        Some(Error::AlreadyExpired)
    } else if s.client is None || s.token is None {
        Some(Error::NotInitialized)
    } else {
        None
    }
}

pub open spec fn auto_expire_effects(s: EscrowView, ctx: CallContext, caller: AccountId, id: u32) -> EffectsView {
    EffectsView::paying(
        Transfer { from: ctx.contract_address, to: s.client->0, amount: s.milestones[id].amount },
        seq![
            ContractEvent::MilestoneExpired(
                MilestoneExpired {
                    contract_id: ctx.contract_address,
                    milestone_id: id,
                    actor: caller,
                    recipient: s.client->0,
                    amount: s.milestones[id].amount,
                },
            ),
            ContractEvent::DeadlineExpired(
                DeadlineExpired {
                    contract_id: ctx.contract_address,
                    milestone_id: id,
                    actor: caller,
                    deadline: s.milestones[id].deadline,
                },
            ),
        ],
    )
}

// --- set_deadline / extend_deadline ---

/// `caller` is the client or the arbiter.
pub open spec fn may_schedule(s: EscrowView, caller: AccountId) -> bool {
    holds_account(s.client, caller) || holds_account(s.arbiter, caller)
}

pub open spec fn set_deadline_error(
    s: EscrowView,
    ctx: CallContext,
    id: u32,
    caller: AccountId,
    deadline: u64,
) -> Option<Error> {
    if s.client is None || s.arbiter is None {
        Some(Error::NotInitialized)
    } else if !may_schedule(s, caller) {
        Some(Error::Unauthorized)
    } else if !s.milestones.contains_key(id) {
        Some(Error::MilestoneNotFound)
    } else if s.milestones[id].deadline != 0 {
        Some(Error::DeadlineAlreadySet)
    } else if s.milestones[id].status.is_terminal() {
        Some(Error::InvalidMilestoneStatus)
    } else if deadline <= ctx.timestamp {
        Some(Error::InvalidDeadline)
    } else {
        None
    }
}

pub open spec fn with_deadline(s: EscrowView, id: u32, deadline: u64) -> EscrowView {
    s.with_milestone(id, Milestone { deadline, ..s.milestones[id] })
}

pub open spec fn set_deadline_effects(
    ctx: CallContext,
    id: u32,
    caller: AccountId,
    deadline: u64,
) -> EffectsView {
    EffectsView::event(
        ContractEvent::DeadlineSet(
            DeadlineSet {
                contract_id: ctx.contract_address,
                milestone_id: id,
                actor: caller,
                deadline,
            },
        ),
    )
}

pub open spec fn extend_deadline_error(
    s: EscrowView,
    ctx: CallContext,
    id: u32,
    caller: AccountId,
    new_deadline: u64,
) -> Option<Error> {
    if s.client is None || s.arbiter is None {
        Some(Error::NotInitialized)
    } else if !may_schedule(s, caller) {
        Some(Error::Unauthorized)
    } else if !s.milestones.contains_key(id) {
        Some(Error::MilestoneNotFound)
    } else if s.milestones[id].deadline == 0 {
        Some(Error::InvalidDeadline)
    } else if s.milestones[id].status.is_terminal() {
        Some(Error::InvalidMilestoneStatus)
    } else if new_deadline <= s.milestones[id].deadline || new_deadline <= ctx.timestamp {
        Some(Error::InvalidDeadline)
    } else {
        None
    }
}

pub open spec fn extend_deadline_effects(
    s: EscrowView,
    ctx: CallContext,
    id: u32,
    caller: AccountId,
    new_deadline: u64,
) -> EffectsView {
    EffectsView::event(
        ContractEvent::DeadlineExtended(
            DeadlineExtended {
                contract_id: ctx.contract_address,
                milestone_id: id,
                actor: caller,
                old_deadline: s.milestones[id].deadline,
                new_deadline,
            },
        ),
    )
}

// --- claim_expired_refund ---

pub open spec fn claim_error(s: EscrowView, ctx: CallContext, id: u32, caller: AccountId) -> Option<
    Error,
> {
    if s.client is None {
        Some(Error::NotInitialized)
    } else if !holds_account(s.client, caller) {
        Some(Error::Unauthorized)
    } else if !s.milestones.contains_key(id) {
        Some(Error::MilestoneNotFound)
    } else if s.milestones[id].deadline == 0 {
        Some(Error::InvalidDeadline)
    } else if ctx.timestamp <= s.milestones[id].deadline {
        Some(Error::DeadlineNotExpired)
    } else if s.milestones[id].status == MilestoneStatus::Disputed {
        Some(Error::MilestoneDisputed)
    } else if s.milestones[id].status != MilestoneStatus::Funded && s.milestones[id].status
        != MilestoneStatus::Submitted {
        Some(Error::InvalidMilestoneStatus)
    } else if s.token is None {
        Some(Error::NotInitialized)
    } else {
        None
    }
}

pub open spec fn claim_effects(s: EscrowView, ctx: CallContext, id: u32, caller: AccountId) -> EffectsView {
    EffectsView::paying(
        Transfer { from: ctx.contract_address, to: s.client->0, amount: s.milestones[id].amount },
        seq![
            ContractEvent::DeadlineExpired(
                DeadlineExpired {
                    contract_id: ctx.contract_address,
                    milestone_id: id,
                    actor: caller,
                    deadline: s.milestones[id].deadline,
                },
            ),
            ContractEvent::RefundIssued(
                RefundIssued {
                    contract_id: ctx.contract_address,
                    milestone_id: id,
                    actor: caller,
                    recipient: s.client->0,
                    amount: s.milestones[id].amount,
                },
            ),
        ],
    )
}

// --- get_milestones ---

pub open spec fn milestones_error(s: EscrowView) -> Option<Error> {
    if s.milestone_ids is None {
        Some(Error::NotInitialized)
    } else if !all_stored(s.milestone_ids->0, s.milestones) {
        Some(Error::MilestoneNotFound)
    } else {
        None
    }
}

/// The stored milestones in the order of the stored ids.
pub open spec fn listed_milestones(s: EscrowView) -> Seq<Milestone> {
    s.milestone_ids->0.map_values(|id: u32| s.milestones[id])
}

/// The stored party that must authorize a call: the client funds and
/// approves, the freelancer submits and confirms, the arbiter resolves.
pub open spec fn stored_signer(s: EscrowView, call: SignedCall) -> Option<AccountId> {
    match call {
        SignedCall::Fund => s.client,
        SignedCall::SubmitMilestone => s.freelancer,
        SignedCall::Approve => s.client,
        SignedCall::FreelancerConfirm => s.freelancer,
        SignedCall::ResolveDispute => s.arbiter,
    }
}

/// A stored party, or `NotInitialized` when none is stored.
pub open spec fn stored_account(o: Option<AccountId>) -> Result<AccountId, Error> {
    match o {
        Some(a) => Ok(a),
        None => Err(Error::NotInitialized),
    }
}

/// Taking a prefix of the ids never raises their total, amounts being non-negative.
pub proof fn lemma_ids_total_prefix(ids: Seq<u32>, ms: Map<u32, Milestone>, n: int)
    requires
        0 <= n <= ids.len(),
        forall|k: u32| #[trigger] ms.contains_key(k) ==> ms[k].amount >= 0,
    ensures
        ids_total(ids.take(n), ms) <= ids_total(ids, ms),
    decreases ids.len(),
{
    if n < ids.len() {
        lemma_ids_total_prefix(ids.drop_last(), ms, n);
        assert(ids.drop_last().take(n) =~= ids.take(n));
    } else {
        assert(ids.take(n) =~= ids);
    }
}

} // verus!
