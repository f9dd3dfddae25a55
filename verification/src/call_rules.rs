//! What each call of the escrow is for, call by call, in the terms of the
//! milestone lifecycle: from which statuses a call moves a milestone and to
//! which status, who must make it, which deadline it respects, what it pays
//! out and to whom. Each law states these facts directly over the stored state,
//! and proves that the model each call is verified against (`crate::model`)
//! meets them, so that the calls meet them too.
use vstd::prelude::*;

use crate::events::Transfer;
use crate::accounting::lemma_listed_after_storing;
use crate::model::{
    fund_effects, fund_error, fund_in_range, fund_post, ids_of, ids_total, initialize_effects, initialize_error,
    initialize_post, approve_effects, approve_error, approve_post, auto_expire_effects, auto_expire_error,
    claim_effects, claim_error, confirm_effects, confirm_error, confirm_post, dispute_effects,
    dispute_error, dispute_post, extend_deadline_effects, extend_deadline_error, payout_post,
    refund_effects, refund_error, release_effects, release_error, release_post, resolution_status,
    resolve_effects, resolve_error, set_deadline_effects, set_deadline_error, stored_signer,
    submit_effects, submit_error, submit_post, with_deadline,
};
use crate::state::EscrowView;
use crate::types::{AccountId, CallContext, Error, Milestone, MilestoneStatus, SignedCall};

verus! {

/// `o` is a stored party and `a` is that party.
pub open spec fn is_party(o: Option<AccountId>, a: AccountId) -> bool {
    o is Some && o->0@ == a@
}

/// The milestone has a deadline and `now` lies after it.
pub open spec fn overdue(m: Milestone, now: u64) -> bool {
    m.deadline > 0 && now > m.deadline
}

/// Two values of a milestone agree on what was agreed: its id, amount,
/// deadline and description.
pub open spec fn same_terms(a: Milestone, b: Milestone) -> bool {
    &&& a.id == b.id
    &&& a.amount == b.amount
    &&& a.deadline == b.deadline
    &&& a.description == b.description
}

/// `t` keeps everything of `s` but the balance and the milestone `id`: the
/// parties, the version, the funding flag, the listed ids, which milestones
/// are stored, and every other milestone.
pub open spec fn keeps_all_but(s: EscrowView, t: EscrowView, id: u32) -> bool {
    &&& t.admin == s.admin
    &&& t.client == s.client
    &&& t.freelancer == s.freelancer
    &&& t.arbiter == s.arbiter
    &&& t.token == s.token
    &&& t.version == s.version
    &&& t.is_funded == s.is_funded
    &&& t.milestone_ids == s.milestone_ids
    &&& t.milestones.dom() == s.milestones.dom()
    &&& forall|k: u32| #[trigger]
        s.milestones.contains_key(k) && k != id ==> t.milestones[k] == s.milestones[k]
}

/// `t` pays the amount of milestone `id` out of the balance of `s`: the
/// balance goes down by it when it covers it, and stays otherwise.
pub open spec fn pays_amount_out(s: EscrowView, t: EscrowView, id: u32) -> bool {
    &&& s.escrow_balance >= s.milestones[id].amount ==> t.escrow_balance == s.escrow_balance
        - s.milestones[id].amount
    &&& s.escrow_balance < s.milestones[id].amount ==> t.escrow_balance == s.escrow_balance
}

proof fn lemma_replaced(s: EscrowView, id: u32, m: Milestone)
    requires
        s.milestones.contains_key(id),
    ensures
        keeps_all_but(s, s.with_milestone(id, m), id),
        s.with_milestone(id, m).milestones[id] == m,
        s.with_milestone(id, m).escrow_balance == s.escrow_balance,
{
    assert(s.with_milestone(id, m).milestones.dom() =~= s.milestones.dom());
}

proof fn lemma_paid_out(s: EscrowView, id: u32, status: MilestoneStatus)
    requires
        s.wf(),
        s.milestones.contains_key(id),
    ensures
        keeps_all_but(s, payout_post(s, id, status), id),
        pays_amount_out(s, payout_post(s, id, status), id),
        payout_post(s, id, status).milestones[id].status == status,
        same_terms(payout_post(s, id, status).milestones[id], s.milestones[id]),
        payout_post(s, id, status).milestones[id].client_approved
            == s.milestones[id].client_approved,
        payout_post(s, id, status).milestones[id].freelancer_approved
            == s.milestones[id].freelancer_approved,
{
    assert(payout_post(s, id, status).milestones.dom() =~= s.milestones.dom());
}

/// Work is handed in only on a funded milestone. `submit_milestone` is
/// accepted exactly when a freelancer is stored and the milestone is stored,
/// `Funded` and not overdue; a stored milestone in any other status (one that
/// is still `Pending`, unfunded, among them) is refused with
/// `InvalidMilestoneStatus`. Before that check, a call without a stored
/// freelancer is refused with `NotInitialized` and one on an unknown milestone
/// with `MilestoneNotFound`; after it, an overdue milestone with
/// `DeadlineExceeded`. An accepted call makes the milestone `Submitted`, keeps
/// its terms and approvals and everything else, and moves no tokens.
pub proof fn law_submit_milestone(s: EscrowView, ctx: CallContext, id: u32)
    ensures
        s.freelancer is None ==> submit_error(s, ctx, id) == Some(Error::NotInitialized),
        s.freelancer is Some && !s.milestones.contains_key(id) ==> submit_error(s, ctx, id) == Some(
            Error::MilestoneNotFound,
        ),
        s.freelancer is Some && s.milestones.contains_key(id) && s.milestones[id].status
            == MilestoneStatus::Funded && overdue(s.milestones[id], ctx.timestamp) ==> submit_error(
            s,
            ctx,
            id,
        ) == Some(Error::DeadlineExceeded),
        submit_error(s, ctx, id) is None <==> (s.freelancer is Some && s.milestones.contains_key(id)
            && s.milestones[id].status == MilestoneStatus::Funded && !overdue(
            s.milestones[id],
            ctx.timestamp,
        )),
        s.freelancer is Some && s.milestones.contains_key(id) && s.milestones[id].status
            != MilestoneStatus::Funded ==> submit_error(s, ctx, id) == Some(
            Error::InvalidMilestoneStatus,
        ),
        submit_error(s, ctx, id) is None ==> keeps_all_but(s, submit_post(s, id), id)
            && submit_post(s, id).escrow_balance == s.escrow_balance
            && submit_post(s, id).milestones[id].status == MilestoneStatus::Submitted
            && same_terms(submit_post(s, id).milestones[id], s.milestones[id])
            && submit_post(s, id).milestones[id].client_approved
            == s.milestones[id].client_approved
            && submit_post(s, id).milestones[id].freelancer_approved
            == s.milestones[id].freelancer_approved && submit_effects(s, ctx, id).transfer is None,
{
    if submit_error(s, ctx, id) is None {
        lemma_replaced(s, id, submit_post(s, id).milestones[id]);
    }
}

/// Only submitted work can be approved. `approve` is accepted exactly when a
/// client is stored and the milestone is stored, `Submitted`, not overdue and
/// not yet approved by the client; a stored milestone in any other status
/// (one that is merely `Funded` among them) is refused with
/// `InvalidMilestoneStatus`. Before that check, a call without a stored client
/// is refused with `NotInitialized` and one on an unknown milestone with
/// `MilestoneNotFound`; after it, an overdue milestone with `DeadlineExceeded`
/// and one the client already approved with `AlreadyApproved`. An accepted
/// call makes the milestone `Approved` with the client's approval, keeps its
/// terms, the freelancer's approval and everything else, and moves no tokens.
pub proof fn law_approve(s: EscrowView, ctx: CallContext, id: u32)
    ensures
        s.client is None ==> approve_error(s, ctx, id) == Some(Error::NotInitialized),
        s.client is Some && !s.milestones.contains_key(id) ==> approve_error(s, ctx, id) == Some(
            Error::MilestoneNotFound,
        ),
        s.client is Some && s.milestones.contains_key(id) && s.milestones[id].status
            == MilestoneStatus::Submitted && overdue(s.milestones[id], ctx.timestamp)
            ==> approve_error(s, ctx, id) == Some(Error::DeadlineExceeded),
        s.client is Some && s.milestones.contains_key(id) && s.milestones[id].status
            == MilestoneStatus::Submitted && !overdue(s.milestones[id], ctx.timestamp)
            && s.milestones[id].client_approved ==> approve_error(s, ctx, id) == Some(
            Error::AlreadyApproved,
        ),
        approve_error(s, ctx, id) is None <==> (s.client is Some && s.milestones.contains_key(id)
            && s.milestones[id].status == MilestoneStatus::Submitted && !overdue(
            s.milestones[id],
            ctx.timestamp,
        ) && !s.milestones[id].client_approved),
        s.client is Some && s.milestones.contains_key(id) && s.milestones[id].status
            != MilestoneStatus::Submitted ==> approve_error(s, ctx, id) == Some(
            Error::InvalidMilestoneStatus,
        ),
        approve_error(s, ctx, id) is None ==> keeps_all_but(s, approve_post(s, id), id)
            && approve_post(s, id).escrow_balance == s.escrow_balance
            && approve_post(s, id).milestones[id].status == MilestoneStatus::Approved
            && approve_post(s, id).milestones[id].client_approved && same_terms(
            approve_post(s, id).milestones[id],
            s.milestones[id],
        ) && approve_post(s, id).milestones[id].freelancer_approved
            == s.milestones[id].freelancer_approved && approve_effects(s, ctx, id).transfer is None,
{
    if approve_error(s, ctx, id) is None {
        lemma_replaced(s, id, approve_post(s, id).milestones[id]);
    }
}

/// The freelancer confirms only an approved milestone. `freelancer_confirm`
/// is accepted exactly when a freelancer is stored and the milestone is
/// stored, `Approved` and not yet confirmed; a stored milestone in any other
/// status is refused with `InvalidMilestoneStatus`, a confirmed one with
/// `AlreadyApproved`; a call without a stored freelancer gets
/// `NotInitialized`, one on an unknown milestone `MilestoneNotFound`. An
/// accepted call records the freelancer's approval and changes nothing else.
pub proof fn law_freelancer_confirm(s: EscrowView, ctx: CallContext, id: u32)
    ensures
        s.freelancer is None ==> confirm_error(s, id) == Some(Error::NotInitialized),
        s.freelancer is Some && !s.milestones.contains_key(id) ==> confirm_error(s, id) == Some(
            Error::MilestoneNotFound,
        ),
        s.freelancer is Some && s.milestones.contains_key(id) && s.milestones[id].status
            == MilestoneStatus::Approved && s.milestones[id].freelancer_approved ==> confirm_error(
            s,
            id,
        ) == Some(Error::AlreadyApproved),
        confirm_error(s, id) is None <==> (s.freelancer is Some && s.milestones.contains_key(id)
            && s.milestones[id].status == MilestoneStatus::Approved
            && !s.milestones[id].freelancer_approved),
        s.freelancer is Some && s.milestones.contains_key(id) && s.milestones[id].status
            != MilestoneStatus::Approved ==> confirm_error(s, id) == Some(
            Error::InvalidMilestoneStatus,
        ),
        confirm_error(s, id) is None ==> keeps_all_but(s, confirm_post(s, id), id)
            && confirm_post(s, id).escrow_balance == s.escrow_balance
            && confirm_post(s, id).milestones[id].status == MilestoneStatus::Approved
            && confirm_post(s, id).milestones[id].freelancer_approved && same_terms(
            confirm_post(s, id).milestones[id],
            s.milestones[id],
        ) && confirm_post(s, id).milestones[id].client_approved
            == s.milestones[id].client_approved && confirm_effects(s, ctx, id).transfer is None,
{
    if confirm_error(s, id) is None {
        lemma_replaced(s, id, confirm_post(s, id).milestones[id]);
    }
}

/// Payment goes to the freelancer once the client approved. `release` is
/// accepted exactly when a client and a freelancer are stored, the caller is
/// the client, and the milestone is stored, not yet `Released`, not overdue,
/// approved by the client and covered by the balance, with a token stored. A
/// released milestone is refused with `InvalidMilestoneStatus`, one the client
/// has not approved with `InsufficientApprovals`; before those, a missing
/// party gives `NotInitialized`, another caller `Unauthorized` and an unknown
/// milestone `MilestoneNotFound`, and an overdue milestone gives
/// `DeadlineExceeded` and an uncovered amount `ZeroAmount`. An accepted call
/// makes the milestone `Released`, takes its amount off the balance and
/// transfers it from the contract to the freelancer.
pub proof fn law_release(s: EscrowView, ctx: CallContext, id: u32, caller: AccountId)
    requires
        s.wf(),
    ensures
        s.client is None || s.freelancer is None ==> release_error(s, ctx, id, caller) == Some(
            Error::NotInitialized,
        ),
        s.client is Some && s.freelancer is Some && !is_party(s.client, caller) ==> release_error(
            s,
            ctx,
            id,
            caller,
        ) == Some(Error::Unauthorized),
        s.freelancer is Some && is_party(s.client, caller) && !s.milestones.contains_key(id)
            ==> release_error(s, ctx, id, caller) == Some(Error::MilestoneNotFound),
        s.freelancer is Some && is_party(s.client, caller) && s.milestones.contains_key(id)
            && s.milestones[id].status != MilestoneStatus::Released && overdue(
            s.milestones[id],
            ctx.timestamp,
        ) ==> release_error(s, ctx, id, caller) == Some(Error::DeadlineExceeded),
        s.freelancer is Some && is_party(s.client, caller) && s.milestones.contains_key(id)
            && s.milestones[id].status != MilestoneStatus::Released && !overdue(
            s.milestones[id],
            ctx.timestamp,
        ) && s.milestones[id].client_approved && s.escrow_balance < s.milestones[id].amount
            ==> release_error(s, ctx, id, caller) == Some(Error::ZeroAmount),
        release_error(s, ctx, id, caller) is None <==> (s.freelancer is Some && is_party(
            s.client,
            caller,
        ) && s.milestones.contains_key(id) && s.milestones[id].status != MilestoneStatus::Released
            && !overdue(s.milestones[id], ctx.timestamp) && s.milestones[id].client_approved
            && s.escrow_balance >= s.milestones[id].amount && s.token is Some),
        s.freelancer is Some && is_party(s.client, caller) && s.milestones.contains_key(id)
            && s.milestones[id].status == MilestoneStatus::Released ==> release_error(
            s,
            ctx,
            id,
            caller,
        ) == Some(Error::InvalidMilestoneStatus),
        s.freelancer is Some && is_party(s.client, caller) && s.milestones.contains_key(id)
            && s.milestones[id].status != MilestoneStatus::Released && !overdue(
            s.milestones[id],
            ctx.timestamp,
        ) && !s.milestones[id].client_approved ==> release_error(s, ctx, id, caller) == Some(
            Error::InsufficientApprovals,
        ),
        release_error(s, ctx, id, caller) is None ==> keeps_all_but(s, release_post(s, id), id)
            && release_post(s, id).escrow_balance == s.escrow_balance - s.milestones[id].amount
            && release_post(s, id).milestones[id].status == MilestoneStatus::Released
            && same_terms(release_post(s, id).milestones[id], s.milestones[id])
            && release_effects(s, ctx, id, caller).transfer == Some(
            (Transfer {
                from: ctx.contract_address,
                to: s.freelancer->0,
                amount: s.milestones[id].amount,
            }),
        ),
{
    if release_error(s, ctx, id, caller) is None {
        assert(release_post(s, id).milestones.dom() =~= s.milestones.dom());
    }
}

/// The freelancer may give back a milestone that is funded or submitted.
/// `refund` is accepted exactly when the caller is the stored freelancer, the
/// milestone is stored and `Funded` or `Submitted`, and a client and a token
/// are stored; a stored milestone in any other status is refused with
/// `InvalidMilestoneStatus`. Before that check, a call without a stored
/// freelancer is refused with `NotInitialized`, one by another caller with
/// `Unauthorized` and one on an unknown milestone with `MilestoneNotFound`. An
/// accepted call makes the milestone `Refunded`, pays its amount out of the
/// balance and transfers it from the contract to the client.
pub proof fn law_refund(s: EscrowView, ctx: CallContext, id: u32, caller: AccountId)
    requires
        s.wf(),
    ensures
        s.freelancer is None ==> refund_error(s, id, caller) == Some(Error::NotInitialized),
        s.freelancer is Some && !is_party(s.freelancer, caller) ==> refund_error(s, id, caller)
            == Some(Error::Unauthorized),
        is_party(s.freelancer, caller) && !s.milestones.contains_key(id) ==> refund_error(
            s,
            id,
            caller,
        ) == Some(Error::MilestoneNotFound),
        refund_error(s, id, caller) is None <==> (is_party(s.freelancer, caller)
            && s.milestones.contains_key(id) && (s.milestones[id].status == MilestoneStatus::Funded
            || s.milestones[id].status == MilestoneStatus::Submitted) && s.client is Some
            && s.token is Some),
        is_party(s.freelancer, caller) && s.milestones.contains_key(id) && s.milestones[id].status
            != MilestoneStatus::Funded && s.milestones[id].status != MilestoneStatus::Submitted
            ==> refund_error(s, id, caller) == Some(Error::InvalidMilestoneStatus),
        refund_error(s, id, caller) is None ==> keeps_all_but(
            s,
            payout_post(s, id, MilestoneStatus::Refunded),
            id,
        ) && pays_amount_out(s, payout_post(s, id, MilestoneStatus::Refunded), id) && payout_post(
            s,
            id,
            MilestoneStatus::Refunded,
        ).milestones[id].status == MilestoneStatus::Refunded && same_terms(
            payout_post(s, id, MilestoneStatus::Refunded).milestones[id],
            s.milestones[id],
        ) && refund_effects(s, ctx, id, caller).transfer == Some(
            (Transfer {
                from: ctx.contract_address,
                to: s.client->0,
                amount: s.milestones[id].amount,
            }),
        ),
{
    if refund_error(s, id, caller) is None {
        lemma_paid_out(s, id, MilestoneStatus::Refunded);
    }
}

/// Either party may dispute a milestone that is funded, submitted or
/// approved. `dispute` is accepted exactly when a client and a freelancer
/// are stored, the caller is one of them, and the milestone is stored and
/// `Funded`, `Submitted` or `Approved`; a stored milestone in any other status
/// is refused with `InvalidMilestoneStatus`; before that, a missing party gives
/// `NotInitialized`, a third caller `Unauthorized` and an unknown milestone
/// `MilestoneNotFound`. An accepted call makes the milestone `Disputed` with
/// both approvals cleared, keeps its terms and everything else, and moves no
/// tokens.
pub proof fn law_dispute(s: EscrowView, ctx: CallContext, id: u32, caller: AccountId)
    ensures
        s.client is None || s.freelancer is None ==> dispute_error(s, id, caller) == Some(
            Error::NotInitialized,
        ),
        s.client is Some && s.freelancer is Some && !is_party(s.client, caller) && !is_party(
            s.freelancer,
            caller,
        ) ==> dispute_error(s, id, caller) == Some(Error::Unauthorized),
        s.client is Some && s.freelancer is Some && (is_party(s.client, caller) || is_party(
            s.freelancer,
            caller,
        )) && !s.milestones.contains_key(id) ==> dispute_error(s, id, caller) == Some(
            Error::MilestoneNotFound,
        ),
        dispute_error(s, id, caller) is None <==> (s.client is Some && s.freelancer is Some && (
        is_party(s.client, caller) || is_party(s.freelancer, caller))
            && s.milestones.contains_key(id) && (s.milestones[id].status == MilestoneStatus::Funded
            || s.milestones[id].status == MilestoneStatus::Submitted || s.milestones[id].status
            == MilestoneStatus::Approved)),
        s.client is Some && s.freelancer is Some && (is_party(s.client, caller) || is_party(
            s.freelancer,
            caller,
        )) && s.milestones.contains_key(id) && s.milestones[id].status != MilestoneStatus::Funded
            && s.milestones[id].status != MilestoneStatus::Submitted && s.milestones[id].status
            != MilestoneStatus::Approved ==> dispute_error(s, id, caller) == Some(
            Error::InvalidMilestoneStatus,
        ),
        dispute_error(s, id, caller) is None ==> keeps_all_but(s, dispute_post(s, id), id)
            && dispute_post(s, id).escrow_balance == s.escrow_balance
            && dispute_post(s, id).milestones[id].status == MilestoneStatus::Disputed
            && !dispute_post(s, id).milestones[id].client_approved
            && !dispute_post(s, id).milestones[id].freelancer_approved && same_terms(
            dispute_post(s, id).milestones[id],
            s.milestones[id],
        ) && dispute_effects(ctx, id, caller).transfer is None,
{
    if dispute_error(s, id, caller) is None {
        lemma_replaced(s, id, dispute_post(s, id).milestones[id]);
    }
}

/// The arbiter settles a dispute, and only a dispute. `resolve_dispute` is
/// accepted exactly when an arbiter is stored, the milestone is stored and
/// `Disputed`, and the party it goes to (the freelancer when released to the
/// freelancer, the client otherwise) and a token are stored; a stored
/// milestone in any other status is refused with `InvalidMilestoneStatus`;
/// before that, a call without a stored arbiter gets `NotInitialized` and one
/// on an unknown milestone `MilestoneNotFound`. An accepted call makes the
/// milestone `Released` (to the freelancer) or `Refunded` (to the client),
/// pays its amount out of the balance and transfers it from the contract to
/// that party.
pub proof fn law_resolve_dispute(
    s: EscrowView,
    ctx: CallContext,
    id: u32,
    release_to_freelancer: bool,
)
    requires
        s.wf(),
    ensures
        s.arbiter is None ==> resolve_error(s, id, release_to_freelancer) == Some(
            Error::NotInitialized,
        ),
        s.arbiter is Some && !s.milestones.contains_key(id) ==> resolve_error(
            s,
            id,
            release_to_freelancer,
        ) == Some(Error::MilestoneNotFound),
        resolve_error(s, id, release_to_freelancer) is None <==> (s.arbiter is Some
            && s.milestones.contains_key(id) && s.milestones[id].status == MilestoneStatus::Disputed
            && (if release_to_freelancer {
            s.freelancer is Some
        } else {
            s.client is Some
        }) && s.token is Some),
        s.arbiter is Some && s.milestones.contains_key(id) && s.milestones[id].status
            != MilestoneStatus::Disputed ==> resolve_error(s, id, release_to_freelancer) == Some(
            Error::InvalidMilestoneStatus,
        ),
        resolve_error(s, id, release_to_freelancer) is None ==> keeps_all_but(
            s,
            payout_post(s, id, resolution_status(release_to_freelancer)),
            id,
        ) && pays_amount_out(s, payout_post(s, id, resolution_status(release_to_freelancer)), id)
            && payout_post(s, id, resolution_status(release_to_freelancer)).milestones[id].status
            == (if release_to_freelancer {
            MilestoneStatus::Released
        } else {
            MilestoneStatus::Refunded
        }) && same_terms(
            payout_post(s, id, resolution_status(release_to_freelancer)).milestones[id],
            s.milestones[id],
        ) && resolve_effects(s, ctx, id, release_to_freelancer).transfer == Some(
            (Transfer {
                from: ctx.contract_address,
                to: if release_to_freelancer {
                    s.freelancer->0
                } else {
                    s.client->0
                },
                amount: s.milestones[id].amount,
            }),
        ),
{
    if resolve_error(s, id, release_to_freelancer) is None {
        lemma_paid_out(s, id, resolution_status(release_to_freelancer));
    }
}

/// Anyone may expire an overdue milestone that has not paid out and is not
/// in dispute. `auto_expire` is accepted exactly when the milestone is
/// stored, overdue and `Pending`, `Funded`, `Submitted` or `Approved`, with a
/// client and a token stored. An unknown milestone is refused with
/// `MilestoneNotFound`, a stored milestone that is not overdue with
/// `InvalidMilestoneStatus`, and an overdue one with `AlreadyExpired` exactly
/// when it is `Released`, `Refunded`, `Disputed` or
/// `AutoExpired`. An accepted call makes the milestone `AutoExpired`, pays its
/// amount out of the balance and transfers it from the contract back to the
/// client.
pub proof fn law_auto_expire(s: EscrowView, ctx: CallContext, caller: AccountId, id: u32)
    requires
        s.wf(),
    ensures
        !s.milestones.contains_key(id) ==> auto_expire_error(s, ctx, id) == Some(
            Error::MilestoneNotFound,
        ),
        auto_expire_error(s, ctx, id) is None <==> (s.milestones.contains_key(id) && overdue(
            s.milestones[id],
            ctx.timestamp,
        ) && (s.milestones[id].status == MilestoneStatus::Pending || s.milestones[id].status
            == MilestoneStatus::Funded || s.milestones[id].status == MilestoneStatus::Submitted
            || s.milestones[id].status == MilestoneStatus::Approved) && s.client is Some
            && s.token is Some),
        s.milestones.contains_key(id) && !overdue(s.milestones[id], ctx.timestamp)
            ==> auto_expire_error(s, ctx, id) == Some(Error::InvalidMilestoneStatus),
        s.milestones.contains_key(id) && overdue(s.milestones[id], ctx.timestamp) ==> (
        auto_expire_error(s, ctx, id) == Some(Error::AlreadyExpired) <==> (s.milestones[id].status
            == MilestoneStatus::Released || s.milestones[id].status == MilestoneStatus::Refunded
            || s.milestones[id].status == MilestoneStatus::Disputed || s.milestones[id].status
            == MilestoneStatus::AutoExpired)),
        auto_expire_error(s, ctx, id) is None ==> keeps_all_but(
            s,
            payout_post(s, id, MilestoneStatus::AutoExpired),
            id,
        ) && pays_amount_out(s, payout_post(s, id, MilestoneStatus::AutoExpired), id)
            && payout_post(s, id, MilestoneStatus::AutoExpired).milestones[id].status
            == MilestoneStatus::AutoExpired && same_terms(
            payout_post(s, id, MilestoneStatus::AutoExpired).milestones[id],
            s.milestones[id],
        ) && auto_expire_effects(s, ctx, caller, id).transfer == Some(
            (Transfer {
                from: ctx.contract_address,
                to: s.client->0,
                amount: s.milestones[id].amount,
            }),
        ),
{
    if auto_expire_error(s, ctx, id) is None {
        lemma_paid_out(s, id, MilestoneStatus::AutoExpired);
    }
}

/// A milestone without a deadline gets one while it has not paid out.
/// `set_deadline` is accepted exactly when a client and an arbiter are
/// stored, the caller is one of them, and the milestone is stored, has no
/// deadline and is not `Released`, `Refunded` or `AutoExpired`, with the new
/// deadline after the current time. Past those first checks, a milestone is
/// refused with `InvalidMilestoneStatus` exactly when it is `Released`,
/// `Refunded` or `AutoExpired`. A missing party gives `NotInitialized`,
/// another caller `Unauthorized`, an unknown milestone `MilestoneNotFound`, a
/// milestone with a deadline `DeadlineAlreadySet`, and a new deadline not
/// after the current time `InvalidDeadline`. An accepted call gives the
/// milestone the new deadline and changes nothing else.
pub proof fn law_set_deadline(
    s: EscrowView,
    ctx: CallContext,
    id: u32,
    caller: AccountId,
    deadline: u64,
)
    ensures
        s.client is None || s.arbiter is None ==> set_deadline_error(s, ctx, id, caller, deadline)
            == Some(Error::NotInitialized),
        s.client is Some && s.arbiter is Some && !is_party(s.client, caller) && !is_party(
            s.arbiter,
            caller,
        ) ==> set_deadline_error(s, ctx, id, caller, deadline) == Some(Error::Unauthorized),
        s.client is Some && s.arbiter is Some && (is_party(s.client, caller) || is_party(
            s.arbiter,
            caller,
        )) && !s.milestones.contains_key(id) ==> set_deadline_error(s, ctx, id, caller, deadline)
            == Some(Error::MilestoneNotFound),
        s.client is Some && s.arbiter is Some && (is_party(s.client, caller) || is_party(
            s.arbiter,
            caller,
        )) && s.milestones.contains_key(id) && s.milestones[id].deadline != 0 ==> set_deadline_error(
            s,
            ctx,
            id,
            caller,
            deadline,
        ) == Some(Error::DeadlineAlreadySet),
        s.client is Some && s.arbiter is Some && (is_party(s.client, caller) || is_party(
            s.arbiter,
            caller,
        )) && s.milestones.contains_key(id) && s.milestones[id].deadline == 0
            && s.milestones[id].status != MilestoneStatus::Released && s.milestones[id].status
            != MilestoneStatus::Refunded && s.milestones[id].status != MilestoneStatus::AutoExpired
            && deadline <= ctx.timestamp ==> set_deadline_error(s, ctx, id, caller, deadline)
            == Some(Error::InvalidDeadline),
        set_deadline_error(s, ctx, id, caller, deadline) is None <==> (s.client is Some
            && s.arbiter is Some && (is_party(s.client, caller) || is_party(s.arbiter, caller))
            && s.milestones.contains_key(id) && s.milestones[id].deadline == 0
            && s.milestones[id].status != MilestoneStatus::Released && s.milestones[id].status
            != MilestoneStatus::Refunded && s.milestones[id].status != MilestoneStatus::AutoExpired
            && deadline > ctx.timestamp),
        s.client is Some && s.arbiter is Some && (is_party(s.client, caller) || is_party(
            s.arbiter,
            caller,
        )) && s.milestones.contains_key(id) && s.milestones[id].deadline == 0 ==> (
        set_deadline_error(s, ctx, id, caller, deadline) == Some(Error::InvalidMilestoneStatus)
            <==> (s.milestones[id].status == MilestoneStatus::Released || s.milestones[id].status
            == MilestoneStatus::Refunded || s.milestones[id].status
            == MilestoneStatus::AutoExpired)),
        set_deadline_error(s, ctx, id, caller, deadline) is None ==> keeps_all_but(
            s,
            with_deadline(s, id, deadline),
            id,
        ) && with_deadline(s, id, deadline).escrow_balance == s.escrow_balance && with_deadline(
            s,
            id,
            deadline,
        ).milestones[id] == (Milestone { deadline, ..s.milestones[id] }) && set_deadline_effects(
            ctx,
            id,
            caller,
            deadline,
        ).transfer is None,
{
    if set_deadline_error(s, ctx, id, caller, deadline) is None {
        lemma_replaced(s, id, with_deadline(s, id, deadline).milestones[id]);
    }
}

/// A milestone's deadline can be moved later, never earlier, while it has not
/// paid out, in whatever other status it is (submitted work included).
/// `extend_deadline` is accepted exactly when a client and an arbiter are
/// stored, the caller is one of them, and the milestone is stored, has a
/// deadline and is not `Released`, `Refunded` or `AutoExpired`, with the new
/// deadline after both the old one and the current time. Past those first
/// checks, a milestone is refused with `InvalidMilestoneStatus` exactly when
/// it is `Released`, `Refunded` or `AutoExpired`. A missing party gives
/// `NotInitialized`, another caller `Unauthorized`, an unknown milestone
/// `MilestoneNotFound`, a milestone without a deadline, or a new deadline not
/// after the old one and the current time, `InvalidDeadline`. An accepted call
/// gives the milestone the new deadline and changes nothing else.
pub proof fn law_extend_deadline(
    s: EscrowView,
    ctx: CallContext,
    id: u32,
    caller: AccountId,
    new_deadline: u64,
)
    ensures
        s.client is None || s.arbiter is None ==> extend_deadline_error(
            s,
            ctx,
            id,
            caller,
            new_deadline,
        ) == Some(Error::NotInitialized),
        s.client is Some && s.arbiter is Some && !is_party(s.client, caller) && !is_party(
            s.arbiter,
            caller,
        ) ==> extend_deadline_error(s, ctx, id, caller, new_deadline) == Some(Error::Unauthorized),
        s.client is Some && s.arbiter is Some && (is_party(s.client, caller) || is_party(
            s.arbiter,
            caller,
        )) && !s.milestones.contains_key(id) ==> extend_deadline_error(
            s,
            ctx,
            id,
            caller,
            new_deadline,
        ) == Some(Error::MilestoneNotFound),
        s.client is Some && s.arbiter is Some && (is_party(s.client, caller) || is_party(
            s.arbiter,
            caller,
        )) && s.milestones.contains_key(id) && s.milestones[id].deadline == 0
            ==> extend_deadline_error(s, ctx, id, caller, new_deadline) == Some(
            Error::InvalidDeadline,
        ),
        s.client is Some && s.arbiter is Some && (is_party(s.client, caller) || is_party(
            s.arbiter,
            caller,
        )) && s.milestones.contains_key(id) && s.milestones[id].deadline > 0
            && s.milestones[id].status != MilestoneStatus::Released && s.milestones[id].status
            != MilestoneStatus::Refunded && s.milestones[id].status != MilestoneStatus::AutoExpired
            && (new_deadline <= s.milestones[id].deadline || new_deadline <= ctx.timestamp)
            ==> extend_deadline_error(s, ctx, id, caller, new_deadline) == Some(
            Error::InvalidDeadline,
        ),
        extend_deadline_error(s, ctx, id, caller, new_deadline) is None <==> (s.client is Some
            && s.arbiter is Some && (is_party(s.client, caller) || is_party(s.arbiter, caller))
            && s.milestones.contains_key(id) && s.milestones[id].deadline > 0
            && s.milestones[id].status != MilestoneStatus::Released && s.milestones[id].status
            != MilestoneStatus::Refunded && s.milestones[id].status != MilestoneStatus::AutoExpired
            && new_deadline > s.milestones[id].deadline && new_deadline > ctx.timestamp),
        s.client is Some && s.arbiter is Some && (is_party(s.client, caller) || is_party(
            s.arbiter,
            caller,
        )) && s.milestones.contains_key(id) && s.milestones[id].deadline > 0 ==> (
        extend_deadline_error(s, ctx, id, caller, new_deadline) == Some(
            Error::InvalidMilestoneStatus,
        ) <==> (s.milestones[id].status == MilestoneStatus::Released || s.milestones[id].status
            == MilestoneStatus::Refunded || s.milestones[id].status
            == MilestoneStatus::AutoExpired)),
        extend_deadline_error(s, ctx, id, caller, new_deadline) is None ==> keeps_all_but(
            s,
            with_deadline(s, id, new_deadline),
            id,
        ) && with_deadline(s, id, new_deadline).escrow_balance == s.escrow_balance
            && with_deadline(s, id, new_deadline).milestones[id] == (Milestone {
            deadline: new_deadline,
            ..s.milestones[id]
        }) && extend_deadline_effects(s, ctx, id, caller, new_deadline).transfer is None,
{
    if extend_deadline_error(s, ctx, id, caller, new_deadline) is None {
        lemma_replaced(s, id, with_deadline(s, id, new_deadline).milestones[id]);
    }
}

/// After a deadline passes, the client takes back what was not delivered.
/// `claim_expired_refund` is accepted exactly when the caller is the stored
/// client, and the milestone is stored, overdue and `Funded` or `Submitted`,
/// with a token stored. An overdue milestone in dispute is refused with
/// `MilestoneDisputed`; one in any other status but `Funded` and `Submitted`
/// with `InvalidMilestoneStatus`. Before those checks, a call without a stored
/// client gets `NotInitialized`, one by another caller `Unauthorized`, one on
/// an unknown milestone `MilestoneNotFound`, one on a milestone without a
/// deadline `InvalidDeadline`, and one before the deadline has passed
/// `DeadlineNotExpired`. An accepted call makes the milestone `Refunded`, pays
/// its amount out of the balance and transfers it from the contract to the
/// client.
pub proof fn law_claim_expired_refund(
    s: EscrowView,
    ctx: CallContext,
    id: u32,
    caller: AccountId,
)
    requires
        s.wf(),
    ensures
        s.client is None ==> claim_error(s, ctx, id, caller) == Some(Error::NotInitialized),
        s.client is Some && !is_party(s.client, caller) ==> claim_error(s, ctx, id, caller) == Some(
            Error::Unauthorized,
        ),
        is_party(s.client, caller) && !s.milestones.contains_key(id) ==> claim_error(
            s,
            ctx,
            id,
            caller,
        ) == Some(Error::MilestoneNotFound),
        is_party(s.client, caller) && s.milestones.contains_key(id) && s.milestones[id].deadline
            == 0 ==> claim_error(s, ctx, id, caller) == Some(Error::InvalidDeadline),
        is_party(s.client, caller) && s.milestones.contains_key(id) && s.milestones[id].deadline
            > 0 && ctx.timestamp <= s.milestones[id].deadline ==> claim_error(s, ctx, id, caller)
            == Some(Error::DeadlineNotExpired),
        claim_error(s, ctx, id, caller) is None <==> (is_party(s.client, caller)
            && s.milestones.contains_key(id) && overdue(s.milestones[id], ctx.timestamp) && (
        s.milestones[id].status == MilestoneStatus::Funded || s.milestones[id].status
            == MilestoneStatus::Submitted) && s.token is Some),
        is_party(s.client, caller) && s.milestones.contains_key(id) && overdue(
            s.milestones[id],
            ctx.timestamp,
        ) && s.milestones[id].status == MilestoneStatus::Disputed ==> claim_error(
            s,
            ctx,
            id,
            caller,
        ) == Some(Error::MilestoneDisputed),
        is_party(s.client, caller) && s.milestones.contains_key(id) && overdue(
            s.milestones[id],
            ctx.timestamp,
        ) && s.milestones[id].status != MilestoneStatus::Disputed && s.milestones[id].status
            != MilestoneStatus::Funded && s.milestones[id].status != MilestoneStatus::Submitted
            ==> claim_error(s, ctx, id, caller) == Some(Error::InvalidMilestoneStatus),
        claim_error(s, ctx, id, caller) is None ==> keeps_all_but(
            s,
            payout_post(s, id, MilestoneStatus::Refunded),
            id,
        ) && pays_amount_out(s, payout_post(s, id, MilestoneStatus::Refunded), id) && payout_post(
            s,
            id,
            MilestoneStatus::Refunded,
        ).milestones[id].status == MilestoneStatus::Refunded && same_terms(
            payout_post(s, id, MilestoneStatus::Refunded).milestones[id],
            s.milestones[id],
        ) && claim_effects(s, ctx, id, caller).transfer == Some(
            (Transfer {
                from: ctx.contract_address,
                to: s.client->0,
                amount: s.milestones[id].amount,
            }),
        ),
{
    if claim_error(s, ctx, id, caller) is None {
        lemma_paid_out(s, id, MilestoneStatus::Refunded);
    }
}

/// The client pays the whole escrow in, once. `fund` is accepted exactly when
/// a client is stored, the escrow is not yet funded, milestone ids are listed
/// and each of them is stored, their amounts add up to more than zero, and a
/// token is stored. A second funding is refused with `AlreadyFunded`, one
/// without a client or a list of ids with `NotInitialized`, one with a listed
/// id that is not stored with `MilestoneNotFound`, and one whose amounts add
/// up to zero or less with `ZeroAmount`. An accepted call marks the escrow
/// funded, makes the sum of the listed amounts its balance, turns every listed
/// milestone that is `Pending` into `Funded` (every other milestone stays as
/// it was) and transfers the sum from the client to the contract. (Funding
/// is made only when that sum fits in `i128`, as `fund` requires.)
pub proof fn law_fund(s: EscrowView, ctx: CallContext)
    requires
        fund_in_range(s),
    ensures
        s.client is None ==> fund_error(s) == Some(Error::NotInitialized),
        s.client is Some && !s.is_funded && s.milestone_ids is Some && (forall|i: int|
            0 <= i < s.milestone_ids->0.len() ==> s.milestones.contains_key(
                #[trigger] s.milestone_ids->0[i],
            )) && ids_total(s.milestone_ids->0, s.milestones) <= 0 ==> fund_error(s) == Some(
            Error::ZeroAmount,
        ),
        fund_error(s) is None <==> (s.client is Some && !s.is_funded && s.milestone_ids is Some
            && (forall|i: int|
            0 <= i < s.milestone_ids->0.len() ==> s.milestones.contains_key(
                #[trigger] s.milestone_ids->0[i],
            )) && ids_total(s.milestone_ids->0, s.milestones) > 0 && s.token is Some),
        s.client is Some && s.is_funded ==> fund_error(s) == Some(Error::AlreadyFunded),
        s.client is Some && !s.is_funded && s.milestone_ids is None ==> fund_error(s) == Some(
            Error::NotInitialized,
        ),
        s.client is Some && !s.is_funded && s.milestone_ids is Some && (exists|i: int|
            0 <= i < s.milestone_ids->0.len() && !s.milestones.contains_key(
                #[trigger] s.milestone_ids->0[i],
            )) ==> fund_error(s) == Some(Error::MilestoneNotFound),
        fund_error(s) is None ==> fund_post(s).is_funded && fund_post(s).escrow_balance
            == ids_total(s.milestone_ids->0, s.milestones) && fund_post(s).client == s.client
            && fund_post(s).freelancer == s.freelancer && fund_post(s).arbiter == s.arbiter
            && fund_post(s).milestone_ids == s.milestone_ids && fund_post(s).milestones.dom()
            == s.milestones.dom() && fund_effects(s, ctx).transfer == Some(
            (Transfer {
                from: s.client->0,
                to: ctx.contract_address,
                amount: ids_total(s.milestone_ids->0, s.milestones) as i128,
            }),
        ),
        fund_error(s) is None ==> forall|k: u32| #[trigger]
            s.milestones.contains_key(k) ==> same_terms(fund_post(s).milestones[k], s.milestones[k])
                && fund_post(s).milestones[k].client_approved == s.milestones[k].client_approved
                && fund_post(s).milestones[k].freelancer_approved
                == s.milestones[k].freelancer_approved && fund_post(s).milestones[k].status == (
            if s.milestone_ids->0.contains(k) && s.milestones[k].status
                == MilestoneStatus::Pending {
                MilestoneStatus::Funded
            } else {
                s.milestones[k].status
            }),
{
    if fund_error(s) is None {
        assert(fund_post(s).milestones.dom() =~= s.milestones.dom());
    }
}

/// An escrow is set up once, with at least one milestone and only positive
/// amounts. `initialize` is accepted exactly when no client is stored yet,
/// the milestone list is not empty and every amount in it is above zero; a
/// second initialization is refused with `AlreadyInitialized`, an empty list
/// with `MilestoneNotFound` and a list with an amount of zero or less with
/// `ZeroAmount`. An accepted call stores the given parties and token, sets the
/// version to 1, leaves the escrow unfunded and its balance as it was, lists
/// the ids of the given milestones in their order and, when those ids are
/// distinct, stores each given milestone under its id with its terms and
/// status and both approvals cleared. It moves no tokens.
pub proof fn law_initialize(
    s: EscrowView,
    ctx: CallContext,
    admin: AccountId,
    client: AccountId,
    freelancer: AccountId,
    arbiter: AccountId,
    token: AccountId,
    input: Seq<Milestone>,
)
    ensures
        s.client is None && input.len() == 0 ==> initialize_error(s, input) == Some(
            Error::MilestoneNotFound,
        ),
        s.client is None && (exists|i: int| 0 <= i < input.len() && (#[trigger] input[i]).amount <= 0)
            ==> initialize_error(s, input) == Some(Error::ZeroAmount),
        initialize_error(s, input) is None <==> (s.client is None && input.len() > 0 && forall|
            i: int,
        | 0 <= i < input.len() ==> (#[trigger] input[i]).amount > 0),
        s.client is Some ==> initialize_error(s, input) == Some(Error::AlreadyInitialized),
        initialize_error(s, input) is None ==> initialize_post(
            s,
            admin,
            client,
            freelancer,
            arbiter,
            token,
            input,
        ).admin == Some(admin) && initialize_post(
            s,
            admin,
            client,
            freelancer,
            arbiter,
            token,
            input,
        ).client == Some(client) && initialize_post(
            s,
            admin,
            client,
            freelancer,
            arbiter,
            token,
            input,
        ).freelancer == Some(freelancer) && initialize_post(
            s,
            admin,
            client,
            freelancer,
            arbiter,
            token,
            input,
        ).arbiter == Some(arbiter) && initialize_post(
            s,
            admin,
            client,
            freelancer,
            arbiter,
            token,
            input,
        ).token == Some(token) && initialize_post(
            s,
            admin,
            client,
            freelancer,
            arbiter,
            token,
            input,
        ).version == 1 && !initialize_post(
            s,
            admin,
            client,
            freelancer,
            arbiter,
            token,
            input,
        ).is_funded && initialize_post(
            s,
            admin,
            client,
            freelancer,
            arbiter,
            token,
            input,
        ).escrow_balance == s.escrow_balance && initialize_post(
            s,
            admin,
            client,
            freelancer,
            arbiter,
            token,
            input,
        ).milestone_ids == Some(Seq::new(input.len(), |i: int| input[i].id))
            && initialize_effects(
            ctx,
            admin,
            client,
            freelancer,
            arbiter,
            token,
            input,
        ).transfer is None,
        initialize_error(s, input) is None && (forall|i: int, j: int|
            0 <= i < j < input.len() ==> (#[trigger] input[i]).id != (#[trigger] input[j]).id)
            ==> forall|i: int|
            0 <= i < input.len() ==> initialize_post(
                s,
                admin,
                client,
                freelancer,
                arbiter,
                token,
                input,
            ).milestones.contains_key((#[trigger] input[i]).id) && same_terms(
                initialize_post(s, admin, client, freelancer, arbiter, token, input).milestones[input[i].id],
                input[i],
            ) && initialize_post(s, admin, client, freelancer, arbiter, token, input).milestones[input[i].id].status
                == input[i].status && !initialize_post(
                s,
                admin,
                client,
                freelancer,
                arbiter,
                token,
                input,
            ).milestones[input[i].id].client_approved && !initialize_post(
                s,
                admin,
                client,
                freelancer,
                arbiter,
                token,
                input,
            ).milestones[input[i].id].freelancer_approved,
{
    assert(ids_of(input) =~= Seq::new(input.len(), |i: int| input[i].id));
    if initialize_error(s, input) is None && (forall|i: int, j: int|
        0 <= i < j < input.len() ==> (#[trigger] input[i]).id != (#[trigger] input[j]).id) {
        assert(ids_of(input).no_duplicates()) by {
            assert forall|i: int, j: int|
                0 <= i < ids_of(input).len() && 0 <= j < ids_of(input).len() && i != j implies ids_of(
                input,
            )[i] != ids_of(input)[j] by {
                if i < j {
                    assert(input[i].id != input[j].id);
                } else {
                    assert(input[j].id != input[i].id);
                }
            }
        }
        lemma_listed_after_storing(s.milestones, input);
    }
}

/// Each party signs its own calls: the client funds and approves, the
/// freelancer submits and confirms, the arbiter resolves disputes.
pub proof fn law_signers(s: EscrowView)
    ensures
        stored_signer(s, SignedCall::Fund) == s.client,
        stored_signer(s, SignedCall::Approve) == s.client,
        stored_signer(s, SignedCall::SubmitMilestone) == s.freelancer,
        stored_signer(s, SignedCall::FreelancerConfirm) == s.freelancer,
        stored_signer(s, SignedCall::ResolveDispute) == s.arbiter,
{
}

} // verus!
