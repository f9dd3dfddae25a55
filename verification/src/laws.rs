//! Properties of the escrow as a whole, stated over every call it accepts and
//! proved from the model of each call (`crate::model`), which is what the
//! calls' own contracts speak of.
use vstd::prelude::*;

use crate::events::{ContractEvent, EffectsView, Transfer};
use crate::model::{
    approve_effects, approve_error, approve_post, auto_expire_effects, auto_expire_error,
    claim_effects, claim_error, cleared, confirm_effects, confirm_error, confirm_post, dispute_effects,
    dispute_error, dispute_post, extend_deadline_effects, extend_deadline_error, fund_effects,
    fund_error, fund_post, holds_account, initialize_effects, initialize_error, initialize_post,
    fund_in_range, fund_total, ids_of, ids_total, listed_milestones, milestones_error, mark_funded, payout_post, store_milestones, refund_effects, refund_error, release_effects, release_error,
    balance_after_payout, release_post, resolution_status, resolve_effects, resolve_error, set_deadline_effects,
    set_deadline_error, stored_signer, submit_effects, submit_error, submit_post, with_deadline,
};
use crate::accounting::lemma_listed_after_storing;
use crate::state::{milestone_wf, EscrowView};
use crate::types::{AccountId, CallContext, Error, Milestone, MilestoneStatus, SignedCall};

verus! {

/// A state-changing call of the escrow, with its arguments.
pub enum Call {
    Initialize {
        admin: AccountId,
        client: AccountId,
        freelancer: AccountId,
        arbiter: AccountId,
        token: AccountId,
        milestones: Seq<Milestone>,
    },
    Fund,
    SubmitMilestone { milestone_id: u32 },
    Approve { milestone_id: u32 },
    FreelancerConfirm { milestone_id: u32 },
    Release { milestone_id: u32, caller: AccountId },
    Refund { milestone_id: u32, caller: AccountId },
    Dispute { milestone_id: u32, caller: AccountId },
    ResolveDispute { milestone_id: u32, release_to_freelancer: bool },
    AutoExpire { caller: AccountId, milestone_id: u32 },
    SetDeadline { milestone_id: u32, caller: AccountId, deadline: u64 },
    ExtendDeadline { milestone_id: u32, caller: AccountId, new_deadline: u64 },
    ClaimExpiredRefund { milestone_id: u32, caller: AccountId },
}

/// The error a call is refused with, if it is refused.
pub open spec fn call_error(s: EscrowView, ctx: CallContext, c: Call) -> Option<Error> {
    match c {
        Call::Initialize { milestones, .. } => initialize_error(s, milestones),
        Call::Fund => fund_error(s),
        Call::SubmitMilestone { milestone_id } => submit_error(s, ctx, milestone_id),
        Call::Approve { milestone_id } => approve_error(s, ctx, milestone_id),
        Call::FreelancerConfirm { milestone_id } => confirm_error(s, milestone_id),
        Call::Release { milestone_id, caller } => release_error(s, ctx, milestone_id, caller),
        Call::Refund { milestone_id, caller } => refund_error(s, milestone_id, caller),
        Call::Dispute { milestone_id, caller } => dispute_error(s, milestone_id, caller),
        Call::ResolveDispute { milestone_id, release_to_freelancer } => resolve_error(
            s,
            milestone_id,
            release_to_freelancer,
        ),
        Call::AutoExpire { milestone_id, .. } => auto_expire_error(s, ctx, milestone_id),
        Call::SetDeadline { milestone_id, caller, deadline } => set_deadline_error(
            s,
            ctx,
            milestone_id,
            caller,
            deadline,
        ),
        Call::ExtendDeadline { milestone_id, caller, new_deadline } => extend_deadline_error(
            s,
            ctx,
            milestone_id,
            caller,
            new_deadline,
        ),
        Call::ClaimExpiredRefund { milestone_id, caller } => claim_error(
            s,
            ctx,
            milestone_id,
            caller,
        ),
    }
}

/// The state an accepted call leaves.
pub open spec fn call_post(s: EscrowView, ctx: CallContext, c: Call) -> EscrowView {
    match c {
        Call::Initialize { admin, client, freelancer, arbiter, token, milestones } =>
            initialize_post(s, admin, client, freelancer, arbiter, token, milestones),
        Call::Fund => fund_post(s),
        Call::SubmitMilestone { milestone_id } => submit_post(s, milestone_id),
        Call::Approve { milestone_id } => approve_post(s, milestone_id),
        Call::FreelancerConfirm { milestone_id } => confirm_post(s, milestone_id),
        Call::Release { milestone_id, .. } => release_post(s, milestone_id),
        Call::Refund { milestone_id, .. } => payout_post(
            s,
            milestone_id,
            MilestoneStatus::Refunded,
        ),
        Call::Dispute { milestone_id, .. } => dispute_post(s, milestone_id),
        Call::ResolveDispute { milestone_id, release_to_freelancer } => payout_post(
            s,
            milestone_id,
            resolution_status(release_to_freelancer),
        ),
        Call::AutoExpire { milestone_id, .. } => payout_post(
            s,
            milestone_id,
            MilestoneStatus::AutoExpired,
        ),
        Call::SetDeadline { milestone_id, deadline, .. } => with_deadline(
            s,
            milestone_id,
            deadline,
        ),
        Call::ExtendDeadline { milestone_id, new_deadline, .. } => with_deadline(
            s,
            milestone_id,
            new_deadline,
        ),
        Call::ClaimExpiredRefund { milestone_id, .. } => payout_post(
            s,
            milestone_id,
            MilestoneStatus::Refunded,
        ),
    }
}

/// The effects an accepted call asks for.
pub open spec fn call_effects(s: EscrowView, ctx: CallContext, c: Call) -> EffectsView {
    match c {
        Call::Initialize { admin, client, freelancer, arbiter, token, milestones } =>
            initialize_effects(ctx, admin, client, freelancer, arbiter, token, milestones),
        Call::Fund => fund_effects(s, ctx),
        Call::SubmitMilestone { milestone_id } => submit_effects(s, ctx, milestone_id),
        Call::Approve { milestone_id } => approve_effects(s, ctx, milestone_id),
        Call::FreelancerConfirm { milestone_id } => confirm_effects(s, ctx, milestone_id),
        Call::Release { milestone_id, caller } => release_effects(s, ctx, milestone_id, caller),
        Call::Refund { milestone_id, caller } => refund_effects(s, ctx, milestone_id, caller),
        Call::Dispute { milestone_id, caller } => dispute_effects(ctx, milestone_id, caller),
        Call::ResolveDispute { milestone_id, release_to_freelancer } => resolve_effects(
            s,
            ctx,
            milestone_id,
            release_to_freelancer,
        ),
        Call::AutoExpire { caller, milestone_id } => auto_expire_effects(
            s,
            ctx,
            caller,
            milestone_id,
        ),
        Call::SetDeadline { milestone_id, caller, deadline } => set_deadline_effects(
            ctx,
            milestone_id,
            caller,
            deadline,
        ),
        Call::ExtendDeadline { milestone_id, caller, new_deadline } => extend_deadline_effects(
            s,
            ctx,
            milestone_id,
            caller,
            new_deadline,
        ),
        Call::ClaimExpiredRefund { milestone_id, caller } => claim_effects(
            s,
            ctx,
            milestone_id,
            caller,
        ),
    }
}

/// The escrow's invariant is kept by every call it accepts: the balance
/// stays non-negative, and every stored milestone keeps a positive amount and
/// carries a client approval only while approved, released, or auto-expired
/// past a real deadline. (Funding is made only when its sum fits in `i128`,
/// as `fund` requires.)
pub proof fn law_invariant_is_kept(s: EscrowView, ctx: CallContext, c: Call)
    requires
        s.wf(),
        call_error(s, ctx, c) is None,
        c is Fund ==> fund_in_range(s),
    ensures
        call_post(s, ctx, c).wf(),
{
    let t = call_post(s, ctx, c);
    match c {
        Call::Initialize { milestones, .. } => {
            lemma_stored_milestones_wf(s.milestones, milestones);
        },
        Call::Fund => {
            let ids = s.milestone_ids->0;
            assert(t.milestones == mark_funded(s.milestones, ids));
            assert(0 < ids_total(ids, s.milestones) <= i128::MAX);
            assert(t.escrow_balance == fund_total(s));
            assert forall|k: u32| #[trigger] t.milestones.contains_key(k) implies t.client is Some
                && milestone_wf(t.milestones[k]) by {
                assert(s.milestones.contains_key(k));
            }
        },
        _ => {
            assert forall|k: u32| #[trigger] t.milestones.contains_key(k) implies t.client is Some
                && milestone_wf(t.milestones[k]) by {
                assert(s.milestones.contains_key(k));
            }
        },
    }
}

/// Storing milestones with positive amounts and cleared approvals keeps every
/// stored milestone well formed.
proof fn lemma_stored_milestones_wf(stored: Map<u32, Milestone>, input: Seq<Milestone>)
    requires
        forall|k: u32| #[trigger] stored.contains_key(k) ==> milestone_wf(stored[k]),
        forall|i: int| 0 <= i < input.len() ==> (#[trigger] input[i]).amount > 0,
    ensures
        forall|k: u32| #[trigger]
            store_milestones(stored, input).contains_key(k) ==> milestone_wf(
                store_milestones(stored, input)[k],
            ),
    decreases input.len(),
{
    if input.len() > 0 {
        let prefix = input.drop_last();
        assert forall|i: int| 0 <= i < prefix.len() implies (#[trigger] prefix[i]).amount > 0 by {
            assert(prefix[i] == input[i]);
        }
        lemma_stored_milestones_wf(stored, prefix);
        assert(input.last() == input[input.len() - 1]);
        assert(milestone_wf(cleared(input.last())));
        assert(store_milestones(stored, input) == store_milestones(stored, prefix).insert(
            input.last().id,
            cleared(input.last()),
        ));
    }
}

/// Right after initialization with distinct ids, the listing gives back the
/// input milestones in their order, each with both approvals cleared.
pub proof fn law_listing_after_initialize(
    s: EscrowView,
    admin: AccountId,
    client: AccountId,
    freelancer: AccountId,
    arbiter: AccountId,
    token: AccountId,
    input: Seq<Milestone>,
)
    requires
        initialize_error(s, input) is None,
        ids_of(input).no_duplicates(),
    ensures
        milestones_error(initialize_post(s, admin, client, freelancer, arbiter, token, input))
            is None,
        listed_milestones(initialize_post(s, admin, client, freelancer, arbiter, token, input))
            == input.map_values(|m: Milestone| cleared(m)),
{
    let post = initialize_post(s, admin, client, freelancer, arbiter, token, input);
    lemma_listed_after_storing(s.milestones, input);
    let ids = ids_of(input);
    assert forall|i: int| 0 <= i < ids.len() implies post.milestones.contains_key(
        #[trigger] ids[i],
    ) by {
        assert(ids[i] == input[i].id);
    }
    assert(listed_milestones(post) =~= input.map_values(|m: Milestone| cleared(m))) by {
        assert forall|i: int| 0 <= i < input.len() implies #[trigger] listed_milestones(post)[i]
            == cleared(input[i]) by {
            assert(ids[i] == input[i].id);
        }
    }
}

/// The call, when a stored party rather than an argument must authorize it.
pub open spec fn signed_call(c: Call) -> Option<SignedCall> {
    match c {
        Call::Fund => Some(SignedCall::Fund),
        Call::SubmitMilestone { .. } => Some(SignedCall::SubmitMilestone),
        Call::Approve { .. } => Some(SignedCall::Approve),
        Call::FreelancerConfirm { .. } => Some(SignedCall::FreelancerConfirm),
        Call::ResolveDispute { .. } => Some(SignedCall::ResolveDispute),
        _ => None,
    }
}

/// A call that a stored party must authorize is refused with
/// `NotInitialized` when that party is not stored, so that no authorization
/// is ever asked of a party that does not exist.
pub proof fn law_missing_signer_is_refused(s: EscrowView, ctx: CallContext, c: Call)
    requires
        signed_call(c) is Some,
        stored_signer(s, signed_call(c)->0) is None,
    ensures
        call_error(s, ctx, c) == Some(Error::NotInitialized),
{
}

/// Every milestone of `s` that is released, refunded or auto-expired is
/// still stored in `t`, unchanged.
pub open spec fn keeps_terminal(s: EscrowView, t: EscrowView) -> bool {
    forall|k: u32| #[trigger]
        s.milestones.contains_key(k) && s.milestones[k].status.is_terminal() ==> t.milestones.contains_key(
            k,
        ) && t.milestones[k] == s.milestones[k]
}

/// Every stored milestone that auto-expired did so at a real deadline
/// lying before time `t`. With `t` the time of the latest call, this holds of
/// every state the escrow reaches while ledger time does not go back (see
/// `law_expiries_stay_behind`).
pub open spec fn expiries_behind(s: EscrowView, t: u64) -> bool {
    forall|k: u32| #[trigger]
        s.milestones.contains_key(k) && s.milestones[k].status == MilestoneStatus::AutoExpired
            ==> 0 < s.milestones[k].deadline < t
}

/// The milestone a call acts on, for the calls that act on one.
pub open spec fn call_milestone(c: Call) -> Option<u32> {
    match c {
        Call::Initialize { .. } => None,
        Call::Fund => None,
        Call::SubmitMilestone { milestone_id } => Some(milestone_id),
        Call::Approve { milestone_id } => Some(milestone_id),
        Call::FreelancerConfirm { milestone_id } => Some(milestone_id),
        Call::Release { milestone_id, .. } => Some(milestone_id),
        Call::Refund { milestone_id, .. } => Some(milestone_id),
        Call::Dispute { milestone_id, .. } => Some(milestone_id),
        Call::ResolveDispute { milestone_id, .. } => Some(milestone_id),
        Call::AutoExpire { milestone_id, .. } => Some(milestone_id),
        Call::SetDeadline { milestone_id, .. } => Some(milestone_id),
        Call::ExtendDeadline { milestone_id, .. } => Some(milestone_id),
        Call::ClaimExpiredRefund { milestone_id, .. } => Some(milestone_id),
    }
}

/// The call pays a milestone's amount out of the escrow.
pub open spec fn pays_out(c: Call) -> bool {
    ||| c is Release
    ||| c is Refund
    ||| c is ResolveDispute
    ||| c is AutoExpire
    ||| c is ClaimExpiredRefund
}

/// A milestone that has paid out can no longer be modified: no accepted call
/// changes a released, refunded or auto-expired milestone, as long as ledger
/// time does not go back (every expiry lies before the call's time).
pub proof fn law_paid_out_milestones_are_frozen(s: EscrowView, ctx: CallContext, c: Call)
    requires
        s.wf(),
        expiries_behind(s, ctx.timestamp),
        call_error(s, ctx, c) is None,
    ensures
        keeps_terminal(s, call_post(s, ctx, c)),
{
    let t = call_post(s, ctx, c);
    match c {
        Call::Initialize { .. } => {
            assert forall|k: u32| #[trigger] s.milestones.contains_key(k) implies false by {}
        },
        Call::Release { milestone_id, .. } => {
            assert(s.milestones.contains_key(milestone_id));
        },
        Call::Fund => {
            let ids = s.milestone_ids->0;
            assert forall|k: u32| #[trigger]
                s.milestones.contains_key(k) && s.milestones[k].status.is_terminal() implies t.milestones.contains_key(
                k,
            ) && t.milestones[k] == s.milestones[k] by {
                assert(t.milestones == mark_funded(s.milestones, ids));
            }
        },
        _ => {},
    }
}

/// An accepted call never changes who the parties are, once the escrow is
/// initialized, nor un-funds it.
pub proof fn law_parties_are_fixed(s: EscrowView, ctx: CallContext, c: Call)
    requires
        call_error(s, ctx, c) is None,
        s.client is Some,
    ensures
        call_post(s, ctx, c).admin == s.admin,
        call_post(s, ctx, c).client == s.client,
        call_post(s, ctx, c).freelancer == s.freelancer,
        call_post(s, ctx, c).arbiter == s.arbiter,
        call_post(s, ctx, c).token == s.token,
        s.is_funded ==> call_post(s, ctx, c).is_funded,
{
}

/// No accepted call can be replayed: the same call made again on the state
/// it left, at any time, is refused.
pub proof fn law_calls_are_not_replayable(
    s: EscrowView,
    ctx: CallContext,
    c: Call,
    later: CallContext,
)
    requires
        s.wf(),
        call_error(s, ctx, c) is None,
    ensures
        call_error(call_post(s, ctx, c), later, c) is Some,
{
}

/// A milestone pays out at most once: a call that pays a milestone out
/// leaves it released, refunded or auto-expired, and no paying call on it is
/// accepted afterwards, as long as ledger time does not go back.
pub proof fn law_milestones_pay_out_once(
    s: EscrowView,
    ctx: CallContext,
    c: Call,
    later: CallContext,
    next: Call,
)
    requires
        s.wf(),
        expiries_behind(s, ctx.timestamp),
        ctx.timestamp <= later.timestamp,
        call_error(s, ctx, c) is None,
        pays_out(c),
        pays_out(next),
        call_milestone(next) == call_milestone(c),
    ensures
        call_post(s, ctx, c).milestones[call_milestone(c)->0].status.is_terminal(),
        call_error(call_post(s, ctx, c), later, next) is Some,
{
    law_expiries_stay_behind(s, ctx.timestamp, ctx, c);
    law_invariant_is_kept(s, ctx, c);
    let t = call_post(s, ctx, c);
    let id = call_milestone(c)->0;
    assert(t.milestones.contains_key(id));
}

/// A release of a milestone that has already paid out is refused, whoever
/// asks, as long as ledger time does not go back.
pub proof fn law_paid_out_milestones_are_not_released(
    s: EscrowView,
    ctx: CallContext,
    milestone_id: u32,
    caller: AccountId,
)
    requires
        s.wf(),
        expiries_behind(s, ctx.timestamp),
        s.milestones.contains_key(milestone_id),
        s.milestones[milestone_id].status.is_terminal(),
    ensures
        release_error(s, ctx, milestone_id, caller) is Some,
{
}

/// Expiries stay behind ledger time: if every stored expiry lies before `t`,
/// then after a call at a time not before `t`, accepted or refused, every
/// stored expiry lies before that call's time. (An initialization brings in
/// no auto-expired milestone with a deadline that has not yet passed.)
pub proof fn law_expiries_stay_behind(s: EscrowView, t: u64, ctx: CallContext, c: Call)
    requires
        s.wf(),
        expiries_behind(s, t),
        t <= ctx.timestamp,
        c matches Call::Initialize { milestones, .. } ==> forall|i: int|
            0 <= i < milestones.len() && (#[trigger] milestones[i]).status
                == MilestoneStatus::AutoExpired ==> 0 < milestones[i].deadline < ctx.timestamp,
    ensures
        expiries_behind(s, ctx.timestamp),
        call_error(s, ctx, c) is None ==> expiries_behind(call_post(s, ctx, c), ctx.timestamp),
{
    if call_error(s, ctx, c) is None {
        let post = call_post(s, ctx, c);
        match c {
            Call::Initialize { milestones, .. } => {
                assert forall|k: u32| #[trigger] s.milestones.contains_key(k) implies false by {}
                lemma_stored_milestones_from_input(s.milestones, milestones);
                assert forall|k: u32| #[trigger]
                    post.milestones.contains_key(k) && post.milestones[k].status
                        == MilestoneStatus::AutoExpired implies 0 < post.milestones[k].deadline
                    < ctx.timestamp by {
                    let i = choose|i: int|
                        0 <= i < milestones.len() && post.milestones[k] == cleared(
                            #[trigger] milestones[i],
                        );
                    assert(milestones[i].status == MilestoneStatus::AutoExpired);
                }
            },
            Call::Fund => {
                let ids = s.milestone_ids->0;
                assert(post.milestones == mark_funded(s.milestones, ids));
                assert forall|k: u32| #[trigger]
                    post.milestones.contains_key(k) && post.milestones[k].status
                        == MilestoneStatus::AutoExpired implies 0 < post.milestones[k].deadline
                    < ctx.timestamp by {
                    assert(s.milestones.contains_key(k));
                }
            },
            _ => {
                assert forall|k: u32| #[trigger]
                    post.milestones.contains_key(k) && post.milestones[k].status
                        == MilestoneStatus::AutoExpired implies 0 < post.milestones[k].deadline
                    < ctx.timestamp by {
                    assert(s.milestones.contains_key(k));
                }
            },
        }
    }
}

/// Every milestone stored by an initialization is either one that was
/// already stored, or one of the input milestones with its approvals cleared.
proof fn lemma_stored_milestones_from_input(stored: Map<u32, Milestone>, input: Seq<Milestone>)
    ensures
        forall|k: u32| #[trigger]
            store_milestones(stored, input).contains_key(k) ==> (stored.contains_key(k)
                && store_milestones(stored, input)[k] == stored[k]) || exists|i: int|
                0 <= i < input.len() && store_milestones(stored, input)[k] == cleared(
                    #[trigger] input[i],
                ),
    decreases input.len(),
{
    if input.len() > 0 {
        let prefix = input.drop_last();
        lemma_stored_milestones_from_input(stored, prefix);
        let m = store_milestones(stored, input);
        assert forall|k: u32| #[trigger] m.contains_key(k) implies (stored.contains_key(k)
            && m[k] == stored[k]) || exists|i: int|
            0 <= i < input.len() && m[k] == cleared(#[trigger] input[i]) by {
            if k == input.last().id {
                assert(m[k] == cleared(input[input.len() - 1]));
            } else if !(stored.contains_key(k) && m[k] == stored[k]) {
                let i = choose|i: int|
                    0 <= i < prefix.len() && store_milestones(stored, prefix)[k] == cleared(
                        #[trigger] prefix[i],
                    );
                assert(prefix[i] == input[i]);
            }
        }
    }
}

/// Only the parties entitled to a call get it accepted: a release or an
/// expired refund only from the client, a refund only from the freelancer,
/// a dispute only from either of them, and a deadline change only from the
/// client or the arbiter.
pub proof fn law_only_entitled_callers(s: EscrowView, ctx: CallContext, c: Call)
    requires
        call_error(s, ctx, c) is None,
    ensures
        c matches Call::Release { caller, .. } ==> holds_account(s.client, caller),
        c matches Call::ClaimExpiredRefund { caller, .. } ==> holds_account(s.client, caller),
        c matches Call::Refund { caller, .. } ==> holds_account(s.freelancer, caller),
        c matches Call::Dispute { caller, .. } ==> holds_account(s.client, caller)
            || holds_account(s.freelancer, caller),
        c matches Call::SetDeadline { caller, .. } ==> holds_account(s.client, caller)
            || holds_account(s.arbiter, caller),
        c matches Call::ExtendDeadline { caller, .. } ==> holds_account(s.client, caller)
            || holds_account(s.arbiter, caller),
{
}

/// Deadlines are enforced: work is submitted, approved and paid to the
/// freelancer only while the milestone has not expired, and a milestone is
/// expired or refunded as expired only once its deadline has passed.
pub proof fn law_deadlines_are_enforced(s: EscrowView, ctx: CallContext, c: Call)
    requires
        call_error(s, ctx, c) is None,
    ensures
        c matches Call::SubmitMilestone { milestone_id } ==> !s.milestones[milestone_id].expired_at(
            ctx.timestamp,
        ),
        c matches Call::Approve { milestone_id } ==> !s.milestones[milestone_id].expired_at(
            ctx.timestamp,
        ),
        c matches Call::Release { milestone_id, .. } ==> !s.milestones[milestone_id].expired_at(
            ctx.timestamp,
        ),
        c matches Call::AutoExpire { milestone_id, .. } ==> s.milestones[milestone_id].expired_at(
            ctx.timestamp,
        ),
        c matches Call::ClaimExpiredRefund { milestone_id, .. }
            ==> s.milestones[milestone_id].expired_at(ctx.timestamp),
{
}

/// Tokens move only when funding or paying out: funding moves the total of
/// the milestone amounts from the client into the escrow and makes it the
/// escrow balance; a payout moves exactly the milestone's amount out of the
/// escrow and takes it off the balance when the balance covers it; every
/// other call moves nothing and leaves the balance as it was.
pub proof fn law_tokens_move_only_in_funding_and_payouts(s: EscrowView, ctx: CallContext, c: Call)
    requires
        call_error(s, ctx, c) is None,
    ensures
        c is Fund ==> {
            &&& call_effects(s, ctx, c).transfer matches Some(t)
            &&& t.from == s.client->0
            &&& t.to == ctx.contract_address
            &&& t.amount == fund_total(s)
            &&& call_post(s, ctx, c).escrow_balance == fund_total(s)
        },
        pays_out(c) ==> {
            let id = call_milestone(c)->0;
            &&& call_effects(s, ctx, c).transfer matches Some(t)
            &&& t.from == ctx.contract_address
            &&& t.amount == s.milestones[id].amount
            &&& call_post(s, ctx, c).escrow_balance == balance_after_payout(
                s.escrow_balance,
                s.milestones[id].amount,
            )
        },
        !(c is Fund) && !pays_out(c) ==> call_effects(s, ctx, c).transfer is None
            && call_post(s, ctx, c).escrow_balance == s.escrow_balance,
{
}

/// Every accepted call publishes one event, except an expiry and an expired
/// refund, which publish two: the expiry and the payout.
pub proof fn law_accepted_calls_publish_events(s: EscrowView, ctx: CallContext, c: Call)
    requires
        call_error(s, ctx, c) is None,
    ensures
        call_effects(s, ctx, c).events.len() == if c is AutoExpire || c is ClaimExpiredRefund {
            2int
        } else {
            1int
        },
{
}

/// A deadline only moves forward: setting one needs a milestone without one
/// and a time in the future; extending one needs an existing deadline and a
/// new one after both it and the current time.
pub proof fn law_deadlines_move_forward(s: EscrowView, ctx: CallContext, c: Call)
    requires
        call_error(s, ctx, c) is None,
    ensures
        c matches Call::SetDeadline { milestone_id, deadline, .. } ==> {
            &&& s.milestones[milestone_id].deadline == 0
            &&& deadline > ctx.timestamp
            &&& call_post(s, ctx, c).milestones[milestone_id].deadline == deadline
        },
        c matches Call::ExtendDeadline { milestone_id, new_deadline, .. } ==> {
            &&& s.milestones[milestone_id].deadline > 0
            &&& new_deadline > s.milestones[milestone_id].deadline
            &&& new_deadline > ctx.timestamp
            &&& call_post(s, ctx, c).milestones[milestone_id].deadline == new_deadline
        },
{
}

/// Funds of a disputed milestone stay locked until the arbiter resolves the
/// dispute: no call but the resolution pays a disputed milestone out.
pub proof fn law_disputed_funds_stay_locked(s: EscrowView, ctx: CallContext, c: Call)
    requires
        s.wf(),
        call_error(s, ctx, c) is None,
        pays_out(c),
        s.milestones[call_milestone(c)->0].status == MilestoneStatus::Disputed,
    ensures
        c is ResolveDispute,
{
}

/// The contract that published an event.
pub open spec fn event_contract(e: ContractEvent) -> AccountId {
    match e {
        ContractEvent::EscrowCreated(x) => x.contract_id,
        ContractEvent::EscrowFunded(x) => x.contract_id,
        ContractEvent::MilestoneSubmitted(x) => x.contract_id,
        ContractEvent::MilestoneApproved(x) => x.contract_id,
        ContractEvent::MilestoneConfirmed(x) => x.contract_id,
        ContractEvent::PaymentReleased(x) => x.contract_id,
        ContractEvent::DisputeRaised(x) => x.contract_id,
        ContractEvent::RefundIssued(x) => x.contract_id,
        ContractEvent::DisputeResolved(x) => x.contract_id,
        ContractEvent::MilestoneExpired(x) => x.contract_id,
        ContractEvent::DeadlineSet(x) => x.contract_id,
        ContractEvent::DeadlineExtended(x) => x.contract_id,
        ContractEvent::DeadlineExpired(x) => x.contract_id,
    }
}

/// The account an event names as the one that acted.
pub open spec fn event_actor(e: ContractEvent) -> AccountId {
    match e {
        ContractEvent::EscrowCreated(x) => x.actor,
        ContractEvent::EscrowFunded(x) => x.actor,
        ContractEvent::MilestoneSubmitted(x) => x.actor,
        ContractEvent::MilestoneApproved(x) => x.actor,
        ContractEvent::MilestoneConfirmed(x) => x.actor,
        ContractEvent::PaymentReleased(x) => x.actor,
        ContractEvent::DisputeRaised(x) => x.actor,
        ContractEvent::RefundIssued(x) => x.actor,
        ContractEvent::DisputeResolved(x) => x.actor,
        ContractEvent::MilestoneExpired(x) => x.actor,
        ContractEvent::DeadlineSet(x) => x.actor,
        ContractEvent::DeadlineExtended(x) => x.actor,
        ContractEvent::DeadlineExpired(x) => x.actor,
    }
}

/// The milestone an event is about, for the events about one.
pub open spec fn event_milestone(e: ContractEvent) -> Option<u32> {
    match e {
        ContractEvent::EscrowCreated(_) => None,
        ContractEvent::EscrowFunded(_) => None,
        ContractEvent::MilestoneSubmitted(x) => Some(x.milestone_id),
        ContractEvent::MilestoneApproved(x) => Some(x.milestone_id),
        ContractEvent::MilestoneConfirmed(x) => Some(x.milestone_id),
        ContractEvent::PaymentReleased(x) => Some(x.milestone_id),
        ContractEvent::DisputeRaised(x) => Some(x.milestone_id),
        ContractEvent::RefundIssued(x) => Some(x.milestone_id),
        ContractEvent::DisputeResolved(x) => Some(x.milestone_id),
        ContractEvent::MilestoneExpired(x) => Some(x.milestone_id),
        ContractEvent::DeadlineSet(x) => Some(x.milestone_id),
        ContractEvent::DeadlineExtended(x) => Some(x.milestone_id),
        ContractEvent::DeadlineExpired(x) => Some(x.milestone_id),
    }
}

/// The recipient and amount of the payout an event reports, for the events
/// that report one.
pub open spec fn event_payment(e: ContractEvent) -> Option<(AccountId, i128)> {
    match e {
        ContractEvent::PaymentReleased(x) => Some((x.recipient, x.amount)),
        ContractEvent::RefundIssued(x) => Some((x.recipient, x.amount)),
        ContractEvent::DisputeResolved(x) => Some((x.recipient, x.amount)),
        ContractEvent::MilestoneExpired(x) => Some((x.recipient, x.amount)),
        _ => None,
    }
}

/// The account on whose behalf a call is made: the `admin` of an
/// initialization, the stored party of a call that one must sign, the
/// `caller` argument of every other call.
pub open spec fn call_actor(s: EscrowView, c: Call) -> AccountId {
    match c {
        Call::Initialize { admin, .. } => admin,
        Call::Fund => s.client->0,
        Call::SubmitMilestone { .. } => s.freelancer->0,
        Call::Approve { .. } => s.client->0,
        Call::FreelancerConfirm { .. } => s.freelancer->0,
        Call::Release { caller, .. } => caller,
        Call::Refund { caller, .. } => caller,
        Call::Dispute { caller, .. } => caller,
        Call::ResolveDispute { .. } => s.arbiter->0,
        Call::AutoExpire { caller, .. } => caller,
        Call::SetDeadline { caller, .. } => caller,
        Call::ExtendDeadline { caller, .. } => caller,
        Call::ClaimExpiredRefund { caller, .. } => caller,
    }
}

/// The events of an accepted call describe it: each is published by this
/// contract, names the call's actor, and is about the call's milestone (or
/// none, for initialization and funding). An event that reports a payout
/// reports the transfer the call asks for, its recipient and its amount, and
/// every call that pays a milestone out publishes such an event.
pub proof fn law_events_describe_the_call(s: EscrowView, ctx: CallContext, c: Call)
    requires
        call_error(s, ctx, c) is None,
    ensures
        forall|i: int|
            0 <= i < call_effects(s, ctx, c).events.len() ==> event_contract(
                #[trigger] call_effects(s, ctx, c).events[i],
            ) == ctx.contract_address && event_actor(call_effects(s, ctx, c).events[i])
                == call_actor(s, c) && event_milestone(call_effects(s, ctx, c).events[i])
                == call_milestone(c),
        forall|i: int|
            0 <= i < call_effects(s, ctx, c).events.len() ==> (#[trigger] event_payment(
                call_effects(s, ctx, c).events[i],
            ) matches Some((to, amount)) ==> call_effects(s, ctx, c).transfer == Some(
                (Transfer { from: ctx.contract_address, to, amount }),
            )),
        pays_out(c) ==> exists|i: int|
            0 <= i < call_effects(s, ctx, c).events.len() && (#[trigger] event_payment(
                call_effects(s, ctx, c).events[i],
            )) is Some,
{
    let ev = call_effects(s, ctx, c).events;
    if c is ClaimExpiredRefund {
        assert(event_payment(ev[1]) is Some);
    } else if pays_out(c) {
        assert(event_payment(ev[0]) is Some);
    }
}

} // verus!
