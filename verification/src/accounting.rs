//! Conservation of the escrow's funds: once funded, the escrow balance is
//! always the sum of the amounts of the listed milestones that have not paid
//! out yet, as long as ledger time does not go back.
use vstd::prelude::*;

use crate::laws::{
    call_error, call_milestone, call_post, expiries_behind, law_expiries_stay_behind,
    law_invariant_is_kept, Call,
};
use crate::model::{
    all_stored, fund_error, fund_in_range, fund_post, ids_of, ids_total, initialize_error,
    initialize_post, mark_funded, release_error, store_milestones,
};
use crate::state::EscrowView;
use crate::types::{AccountId, CallContext, Error, Milestone, MilestoneStatus};

verus! {

/// What milestone `id` still holds in the escrow: its amount while it has
/// not paid out, nothing once it has (or when it is not stored).
pub open spec fn unpaid(ms: Map<u32, Milestone>, id: u32) -> int {
    if ms.contains_key(id) && !ms[id].status.is_terminal() {
        ms[id].amount as int
    } else {
        0
    }
}

/// The sum of what the milestones that `ids` names still hold.
pub open spec fn unpaid_total(ids: Seq<u32>, ms: Map<u32, Milestone>) -> int
    decreases ids.len(),
{
    if ids.len() == 0 {
        0
    } else {
        unpaid_total(ids.drop_last(), ms) + unpaid(ms, ids.last())
    }
}

/// A funded escrow whose balance is exactly what its listed, distinct,
/// stored milestones still hold, with every expiry lying before time `t`.
pub open spec fn escrow_accounted(s: EscrowView, t: u64) -> bool {
    &&& s.wf()
    &&& s.client is Some
    &&& s.is_funded
    &&& s.milestone_ids is Some
    &&& s.milestone_ids->0.no_duplicates()
    &&& all_stored(s.milestone_ids->0, s.milestones)
    &&& forall|k: u32| #[trigger] s.milestones.contains_key(k) ==> s.milestone_ids->0.contains(k)
    &&& s.escrow_balance == unpaid_total(s.milestone_ids->0, s.milestones)
    &&& expiries_behind(s, t)
}

/// An initialized escrow waiting for its funds: distinct ids, exactly the
/// listed milestones stored, none of them paid out.
pub open spec fn ready_for_funding(s: EscrowView) -> bool {
    &&& s.wf()
    &&& s.client is Some
    &&& !s.is_funded
    &&& s.milestone_ids is Some
    &&& s.milestone_ids->0.no_duplicates()
    &&& all_stored(s.milestone_ids->0, s.milestones)
    &&& forall|k: u32| #[trigger]
        s.milestones.contains_key(k) ==> s.milestone_ids->0.contains(k)
            && !s.milestones[k].status.is_terminal()
}

/// Initializing with pending milestones of distinct ids leaves the escrow
/// ready for funding.
pub proof fn law_initialize_prepares_funding(
    s: EscrowView,
    admin: AccountId,
    client: AccountId,
    freelancer: AccountId,
    arbiter: AccountId,
    token: AccountId,
    input: Seq<Milestone>,
)
    requires
        s.wf(),
        initialize_error(s, input) is None,
        ids_of(input).no_duplicates(),
        forall|i: int| 0 <= i < input.len() ==> (#[trigger] input[i]).status
            == MilestoneStatus::Pending,
    ensures
        ready_for_funding(initialize_post(s, admin, client, freelancer, arbiter, token, input)),
{
    let post = initialize_post(s, admin, client, freelancer, arbiter, token, input);
    law_invariant_is_kept(
        s,
        CallContext { contract_address: admin, timestamp: 0 },
        Call::Initialize { admin, client, freelancer, arbiter, token, milestones: input },
    );
    assert forall|k: u32| #[trigger] s.milestones.contains_key(k) implies false by {}
    lemma_listed_after_storing(s.milestones, input);
    let ids = ids_of(input);
    assert forall|i: int| 0 <= i < ids.len() implies post.milestones.contains_key(
        #[trigger] ids[i],
    ) by {}
    assert forall|k: u32| #[trigger] post.milestones.contains_key(k) implies ids.contains(k)
        && !post.milestones[k].status.is_terminal() by {
        lemma_stored_keys_come_from_input(s.milestones, input, k);
        let i = choose|i: int| 0 <= i < input.len() && (#[trigger] input[i]).id == k;
        assert(ids[i] == k);
        assert(post.milestones[k] == crate::model::cleared(input[i]));
    }
}

/// Funding an escrow that is ready for it makes its balance exactly what its
/// milestones hold.
pub proof fn law_funding_accounts_the_escrow(s: EscrowView, ctx: CallContext)
    requires
        ready_for_funding(s),
        fund_in_range(s),
        fund_error(s) is None,
    ensures
        escrow_accounted(fund_post(s), ctx.timestamp),
{
    let ids = s.milestone_ids->0;
    let post = fund_post(s);
    law_invariant_is_kept(s, ctx, Call::Fund);
    assert(post.milestones == mark_funded(s.milestones, ids));
    lemma_unpaid_total_of_live(ids, s.milestones, post.milestones);
    assert forall|k: u32| #[trigger] post.milestones.contains_key(k) implies s.milestone_ids->0.contains(
        k,
    ) by {
        assert(s.milestones.contains_key(k));
    }
    assert forall|k: u32| #[trigger]
        post.milestones.contains_key(k) && post.milestones[k].status == MilestoneStatus::AutoExpired
            implies 0 < post.milestones[k].deadline < ctx.timestamp by {
        assert(s.milestones.contains_key(k));
    }
    assert forall|i: int| 0 <= i < ids.len() implies post.milestones.contains_key(
        #[trigger] ids[i],
    ) by {
        assert(s.milestones.contains_key(ids[i]));
    }
}

/// Initializing with pending milestones of distinct ids and then funding
/// makes the escrow balance exactly what the milestones hold.
pub proof fn law_initialized_then_funded_escrow_is_accounted(
    s: EscrowView,
    admin: AccountId,
    client: AccountId,
    freelancer: AccountId,
    arbiter: AccountId,
    token: AccountId,
    input: Seq<Milestone>,
    ctx: CallContext,
)
    requires
        s.wf(),
        initialize_error(s, input) is None,
        ids_of(input).no_duplicates(),
        forall|i: int| 0 <= i < input.len() ==> (#[trigger] input[i]).status
            == MilestoneStatus::Pending,
        fund_in_range(initialize_post(s, admin, client, freelancer, arbiter, token, input)),
        fund_error(initialize_post(s, admin, client, freelancer, arbiter, token, input)) is None,
    ensures
        escrow_accounted(
            fund_post(initialize_post(s, admin, client, freelancer, arbiter, token, input)),
            ctx.timestamp,
        ),
{
    law_initialize_prepares_funding(s, admin, client, freelancer, arbiter, token, input);
    law_funding_accounts_the_escrow(
        initialize_post(s, admin, client, freelancer, arbiter, token, input),
        ctx,
    );
}

/// Funds are conserved: in an accounted escrow, a call made at a time not
/// before the latest one, accepted or refused, leaves the escrow accounted:
/// its balance is still exactly what its unpaid milestones hold.
pub proof fn law_escrow_stays_accounted(s: EscrowView, t: u64, ctx: CallContext, c: Call)
    requires
        escrow_accounted(s, t),
        t <= ctx.timestamp,
    ensures
        escrow_accounted(s, ctx.timestamp),
        call_error(s, ctx, c) is None ==> escrow_accounted(call_post(s, ctx, c), ctx.timestamp),
{
    if c is Initialize {
        assert(call_error(s, ctx, c) == Some(Error::AlreadyInitialized));
        assert forall|k: u32| #[trigger]
            s.milestones.contains_key(k) && s.milestones[k].status == MilestoneStatus::AutoExpired
                implies 0 < s.milestones[k].deadline < ctx.timestamp by {}
    } else {
        law_expiries_stay_behind(s, t, ctx, c);
    }
    if call_error(s, ctx, c) is None {
        let ids = s.milestone_ids->0;
        let post = call_post(s, ctx, c);
        law_invariant_is_kept(s, ctx, c);
        match c {
            Call::Initialize { .. } => {},
            Call::Fund => {},
            _ => {
                let id = call_milestone(c)->0;
                let m = post.milestones[id];
                assert(s.milestones.contains_key(id));
                assert(!s.milestones[id].status.is_terminal());
                assert(post.milestones == s.milestones.insert(id, m));
                lemma_unpaid_total_update(ids, s.milestones, id, m);
                lemma_unpaid_total_nonnegative(ids, post.milestones);
                assert forall|k: u32| #[trigger] post.milestones.contains_key(k) implies ids.contains(
                    k,
                ) by {
                    if k != id {
                        assert(s.milestones.contains_key(k));
                    }
                }
                assert forall|i: int| 0 <= i < ids.len() implies post.milestones.contains_key(
                    #[trigger] ids[i],
                ) by {}
            },
        }
    }
}

/// In an accounted escrow a release is never refused for want of balance,
/// and the balance is never negative.
pub proof fn law_accounted_escrow_covers_releases(
    s: EscrowView,
    t: u64,
    ctx: CallContext,
    milestone_id: u32,
    caller: AccountId,
)
    requires
        escrow_accounted(s, t),
        t <= ctx.timestamp,
    ensures
        release_error(s, ctx, milestone_id, caller) != Some(Error::ZeroAmount),
        s.escrow_balance >= 0,
{
    let ids = s.milestone_ids->0;
    if s.milestones.contains_key(milestone_id) && !s.milestones[milestone_id].status.is_terminal() {
        let m = Milestone { status: MilestoneStatus::Released, ..s.milestones[milestone_id] };
        lemma_unpaid_total_update(ids, s.milestones, milestone_id, m);
        lemma_unpaid_total_nonnegative(ids, s.milestones.insert(milestone_id, m));
    }
}

/// Changing what ids not in the list hold changes nothing of the total.
proof fn lemma_unpaid_total_frame(ids: Seq<u32>, a: Map<u32, Milestone>, b: Map<u32, Milestone>)
    requires
        forall|i: int| 0 <= i < ids.len() ==> unpaid(a, #[trigger] ids[i]) == unpaid(b, ids[i]),
    ensures
        unpaid_total(ids, a) == unpaid_total(ids, b),
    decreases ids.len(),
{
    if ids.len() > 0 {
        let p = ids.drop_last();
        assert forall|i: int| 0 <= i < p.len() implies unpaid(a, #[trigger] p[i]) == unpaid(
            b,
            p[i],
        ) by {
            assert(p[i] == ids[i]);
        }
        lemma_unpaid_total_frame(p, a, b);
        assert(ids.last() == ids[ids.len() - 1]);
    }
}

/// Replacing the milestone of a listed id, listed once, changes the total by
/// the difference of what the two hold.
proof fn lemma_unpaid_total_update(ids: Seq<u32>, ms: Map<u32, Milestone>, id: u32, m: Milestone)
    requires
        ids.no_duplicates(),
        ids.contains(id),
    ensures
        unpaid_total(ids, ms.insert(id, m)) == unpaid_total(ids, ms) - unpaid(ms, id) + unpaid(
            ms.insert(id, m),
            id,
        ),
    decreases ids.len(),
{
    let p = ids.drop_last();
    let ms2 = ms.insert(id, m);
    if ids.last() == id {
        assert forall|i: int| 0 <= i < p.len() implies unpaid(ms, #[trigger] p[i]) == unpaid(
            ms2,
            p[i],
        ) by {
            assert(p[i] == ids[i]);
            assert(ids[i] != ids[ids.len() - 1]);
        }
        lemma_unpaid_total_frame(p, ms, ms2);
    } else {
        let j = choose|j: int| 0 <= j < ids.len() && ids[j] == id;
        assert(j != ids.len() - 1);
        assert(p[j] == id);
        assert(p.no_duplicates()) by {
            assert forall|x: int, y: int| 0 <= x < p.len() && 0 <= y < p.len() && x != y implies p[x]
                != p[y] by {
                assert(p[x] == ids[x] && p[y] == ids[y]);
            }
        }
        lemma_unpaid_total_update(p, ms, id, m);
    }
}

/// What milestones hold is never negative, amounts being positive.
proof fn lemma_unpaid_total_nonnegative(ids: Seq<u32>, ms: Map<u32, Milestone>)
    requires
        forall|k: u32| #[trigger] ms.contains_key(k) ==> ms[k].amount > 0,
    ensures
        unpaid_total(ids, ms) >= 0,
    decreases ids.len(),
{
    if ids.len() > 0 {
        lemma_unpaid_total_nonnegative(ids.drop_last(), ms);
    }
}

/// When no listed milestone has paid out, and funding keeps every one of them
/// live with its amount, what they hold afterwards is their amounts' sum.
proof fn lemma_unpaid_total_of_live(ids: Seq<u32>, ms: Map<u32, Milestone>, funded: Map<u32, Milestone>)
    requires
        all_stored(ids, ms),
        forall|k: u32| #[trigger] ms.contains_key(k) ==> !ms[k].status.is_terminal(),
        funded == mark_funded(ms, ids),
    ensures
        unpaid_total(ids, funded) == ids_total(ids, ms),
    decreases ids.len(),
{
    if ids.len() > 0 {
        let p = ids.drop_last();
        assert(all_stored(p, ms)) by {
            assert forall|i: int| 0 <= i < p.len() implies ms.contains_key(#[trigger] p[i]) by {
                assert(p[i] == ids[i]);
            }
        }
        assert forall|i: int| 0 <= i < p.len() implies unpaid(funded, #[trigger] p[i]) == unpaid(
            mark_funded(ms, p),
            p[i],
        ) by {
            assert(p[i] == ids[i]);
            assert(ms.contains_key(p[i]));
        }
        lemma_unpaid_total_frame(p, funded, mark_funded(ms, p));
        lemma_unpaid_total_of_live(p, ms, mark_funded(ms, p));
        assert(ms.contains_key(ids[ids.len() - 1]));
    }
}

/// With distinct ids, every input milestone is stored under its id with its
/// approvals cleared, and the stored ids are listed in input order.
pub proof fn lemma_listed_after_storing(stored: Map<u32, Milestone>, input: Seq<Milestone>)
    requires
        ids_of(input).no_duplicates(),
    ensures
        forall|i: int|
            0 <= i < input.len() ==> store_milestones(stored, input).contains_key(
                (#[trigger] input[i]).id,
            ) && store_milestones(stored, input)[input[i].id] == crate::model::cleared(input[i]),
    decreases input.len(),
{
    if input.len() > 0 {
        let p = input.drop_last();
        assert(ids_of(p) =~= ids_of(input).drop_last());
        assert(ids_of(p).no_duplicates()) by {
            assert forall|x: int, y: int|
                0 <= x < ids_of(p).len() && 0 <= y < ids_of(p).len() && x != y implies ids_of(
                p,
            )[x] != ids_of(p)[y] by {
                assert(ids_of(p)[x] == ids_of(input)[x] && ids_of(p)[y] == ids_of(input)[y]);
            }
        }
        lemma_listed_after_storing(stored, p);
        assert forall|i: int| 0 <= i < input.len() implies store_milestones(
            stored,
            input,
        ).contains_key((#[trigger] input[i]).id) && store_milestones(stored, input)[input[i].id]
            == crate::model::cleared(input[i]) by {
            if i < input.len() - 1 {
                assert(p[i] == input[i]);
                assert(ids_of(input)[i] != ids_of(input)[input.len() - 1]);
            }
        }
    }
}

/// A key stored by initializing an empty map is the id of an input milestone.
proof fn lemma_stored_keys_come_from_input(stored: Map<u32, Milestone>, input: Seq<Milestone>, k: u32)
    requires
        store_milestones(stored, input).contains_key(k),
        !stored.contains_key(k),
    ensures
        exists|i: int| 0 <= i < input.len() && (#[trigger] input[i]).id == k,
    decreases input.len(),
{
    if input.len() > 0 && input.last().id != k {
        let p = input.drop_last();
        lemma_stored_keys_come_from_input(stored, p, k);
        let i = choose|i: int| 0 <= i < p.len() && (#[trigger] p[i]).id == k;
        assert(input[i] == p[i]);
    } else if input.len() > 0 {
        assert(input[input.len() - 1].id == k);
    }
}

} // verus!
