use escrow::{
    is_terminal_status, AccountId, CallContext, ContractEvent, Effects, Error, EscrowContract,
    Milestone, MilestoneStatus, SignedCall,
};

fn account(name: &str) -> AccountId {
    AccountId::new(name.to_string())
}

fn ctx(now: u64) -> CallContext {
    CallContext { contract_address: account("escrow-contract"), timestamp: now }
}

fn milestone(id: u32, amount: i128, deadline: u64) -> Milestone {
    Milestone {
        id,
        deadline,
        amount,
        status: MilestoneStatus::Pending,
        description: format!("milestone {}", id),
        client_approved: false,
        freelancer_approved: false,
    }
}

fn initialized(milestones: Vec<Milestone>) -> EscrowContract {
    let mut e = EscrowContract::new();
    e.initialize(
        &ctx(0),
        account("admin"),
        account("client"),
        account("freelancer"),
        account("arbiter"),
        account("token"),
        milestones,
    )
    .unwrap();
    e
}

fn funded(milestones: Vec<Milestone>) -> EscrowContract {
    let mut e = initialized(milestones);
    e.fund(&ctx(0)).unwrap();
    e
}

fn status(e: &EscrowContract, id: u32) -> MilestoneStatus {
    e.milestones.get(&id).unwrap().status
}

fn single_event(fx: &Effects) -> &ContractEvent {
    assert_eq!(fx.events.len(), 1);
    &fx.events[0]
}

#[test]
fn error_codes_match_the_contract_numbering() {
    let all = [
        Error::AlreadyInitialized,
        Error::NotInitialized,
        Error::AlreadyFunded,
        Error::NotFunded,
        Error::MilestoneNotFound,
        Error::InvalidMilestoneStatus,
        Error::Unauthorized,
        Error::ZeroAmount,
        Error::InsufficientApprovals,
        Error::AlreadyApproved,
        Error::DeadlineExceeded,
        Error::AlreadyExpired,
        Error::DeadlineNotExpired,
        Error::InvalidDeadline,
        Error::DeadlineAlreadySet,
        Error::MilestoneDisputed,
    ];
    for (i, e) in all.iter().enumerate() {
        assert_eq!(e.code(), (i + 1) as u32);
    }
}

#[test]
fn terminal_statuses_are_the_paid_out_ones() {
    assert!(is_terminal_status(MilestoneStatus::Released));
    assert!(is_terminal_status(MilestoneStatus::Refunded));
    assert!(is_terminal_status(MilestoneStatus::AutoExpired));
    assert!(!is_terminal_status(MilestoneStatus::Pending));
    assert!(!is_terminal_status(MilestoneStatus::Funded));
    assert!(!is_terminal_status(MilestoneStatus::Submitted));
    assert!(!is_terminal_status(MilestoneStatus::Approved));
    assert!(!is_terminal_status(MilestoneStatus::Disputed));
}

#[test]
fn calls_before_initialization_are_refused() {
    let mut e = EscrowContract::new();
    let c = account("client");
    assert_eq!(e.fund(&ctx(0)).unwrap_err(), Error::NotInitialized);
    assert_eq!(e.submit_milestone(&ctx(0), 1).unwrap_err(), Error::NotInitialized);
    assert_eq!(e.approve(&ctx(0), 1).unwrap_err(), Error::NotInitialized);
    assert_eq!(e.freelancer_confirm(&ctx(0), 1).unwrap_err(), Error::NotInitialized);
    assert_eq!(e.release(&ctx(0), 1, c.clone()).unwrap_err(), Error::NotInitialized);
    assert_eq!(e.refund(&ctx(0), 1, c.clone()).unwrap_err(), Error::NotInitialized);
    assert_eq!(e.dispute(&ctx(0), 1, c.clone()).unwrap_err(), Error::NotInitialized);
    assert_eq!(e.resolve_dispute(&ctx(0), 1, true).unwrap_err(), Error::NotInitialized);
    assert_eq!(e.set_deadline(&ctx(0), 1, c.clone(), 9).unwrap_err(), Error::NotInitialized);
    assert_eq!(e.extend_deadline(&ctx(0), 1, c.clone(), 9).unwrap_err(), Error::NotInitialized);
    assert_eq!(e.claim_expired_refund(&ctx(0), 1, c.clone()).unwrap_err(), Error::NotInitialized);
    assert_eq!(e.auto_expire(&ctx(0), c, 1).unwrap_err(), Error::MilestoneNotFound);
    assert_eq!(e.get_milestones().unwrap_err(), Error::NotInitialized);
    assert_eq!(e.get_client().unwrap_err(), Error::NotInitialized);
    assert_eq!(e.get_token().unwrap_err(), Error::NotInitialized);
    assert_eq!(e.upgrade().unwrap_err(), Error::NotInitialized);
    assert_eq!(e.version(), 0);
    assert_eq!(e.get_escrow_balance(), 0);
    assert!(!e.is_funded());
    assert!(!e.has_client_approval(1));
    assert!(!e.has_freelancer_approval(1));
    assert_eq!(e.is_milestone_expired(&ctx(0), 1), Err(Error::MilestoneNotFound));
    assert_eq!(e.get_milestone_deadline(1), Err(Error::MilestoneNotFound));
}

#[test]
fn initialize_needs_a_milestone_and_positive_amounts() {
    let mut e = EscrowContract::new();
    let r = e.initialize(
        &ctx(0),
        account("admin"),
        account("client"),
        account("freelancer"),
        account("arbiter"),
        account("token"),
        vec![],
    );
    assert_eq!(r.unwrap_err(), Error::MilestoneNotFound);
    let r = e.initialize(
        &ctx(0),
        account("admin"),
        account("client"),
        account("freelancer"),
        account("arbiter"),
        account("token"),
        vec![milestone(1, 10, 0), milestone(2, -5, 0)],
    );
    assert_eq!(r.unwrap_err(), Error::ZeroAmount);
    // A refused call leaves nothing behind.
    assert!(e.milestones.is_empty());
    assert_eq!(e.get_client().unwrap_err(), Error::NotInitialized);
}

#[test]
fn initialize_clears_approvals_keeps_status_and_reports_the_setup() {
    let mut given = milestone(7, 40, 0);
    given.client_approved = true;
    given.freelancer_approved = true;
    given.status = MilestoneStatus::Submitted;
    let mut e = EscrowContract::new();
    let fx = e
        .initialize(
            &ctx(3),
            account("admin"),
            account("client"),
            account("freelancer"),
            account("arbiter"),
            account("token"),
            vec![given, milestone(8, 60, 0)],
        )
        .unwrap();
    assert!(fx.transfer.is_none());
    match single_event(&fx) {
        ContractEvent::EscrowCreated(ev) => {
            assert_eq!(ev.contract_id, account("escrow-contract"));
            assert_eq!(ev.actor, account("admin"));
            assert_eq!(ev.client, account("client"));
            assert_eq!(ev.freelancer, account("freelancer"));
            assert_eq!(ev.arbiter, account("arbiter"));
            assert_eq!(ev.token, account("token"));
            assert_eq!(ev.milestone_count, 2);
        },
        other => panic!("unexpected event {:?}", other),
    }
    let stored = e.milestones.get(&7).unwrap();
    assert!(!stored.client_approved && !stored.freelancer_approved);
    assert_eq!(stored.status, MilestoneStatus::Submitted);
    assert_eq!(e.milestone_ids, Some(vec![7, 8]));
    assert_eq!(e.version(), 1);
    assert_eq!(e.upgrade(), Ok(account("admin")));
}

#[test]
fn fund_moves_the_total_in_and_funds_pending_milestones() {
    let mut e = initialized(vec![milestone(1, 100, 0), milestone(2, 250, 0)]);
    let fx = e.fund(&ctx(5)).unwrap();
    let t = fx.transfer.as_ref().unwrap();
    assert_eq!(t.from, account("client"));
    assert_eq!(t.to, account("escrow-contract"));
    assert_eq!(t.amount, 350);
    match single_event(&fx) {
        ContractEvent::EscrowFunded(ev) => {
            assert_eq!(ev.actor, account("client"));
            assert_eq!(ev.amount, 350);
        },
        other => panic!("unexpected event {:?}", other),
    }
    assert_eq!(e.get_escrow_balance(), 350);
    assert_eq!(status(&e, 1), MilestoneStatus::Funded);
    assert_eq!(status(&e, 2), MilestoneStatus::Funded);
    assert_eq!(e.fund(&ctx(6)).unwrap_err(), Error::AlreadyFunded);
}

#[test]
fn a_repeated_id_is_stored_once_but_funded_per_occurrence() {
    let mut e = initialized(vec![milestone(1, 100, 0), milestone(1, 50, 0)]);
    assert_eq!(e.milestones.len(), 1);
    assert_eq!(e.milestones.get(&1).unwrap().amount, 50);
    assert_eq!(e.milestone_ids, Some(vec![1, 1]));
    e.fund(&ctx(0)).unwrap();
    assert_eq!(e.get_escrow_balance(), 100);
    let listed = e.get_milestones().unwrap();
    assert_eq!(listed.len(), 2);
    assert_eq!(listed[0].amount, 50);
    assert_eq!(listed[1].amount, 50);
}

#[test]
fn funding_that_would_overflow_is_detected_beforehand() {
    let half = i128::MAX / 2 + 1;
    let e = initialized(vec![milestone(1, half, 0), milestone(2, half, 0)]);
    assert!(!e.funding_fits());
    let e = initialized(vec![milestone(1, half, 0), milestone(2, half - 2, 0)]);
    assert!(e.funding_fits());
}

#[test]
fn release_pays_the_freelancer_exactly_the_amount() {
    let mut e = funded(vec![milestone(1, 120, 0), milestone(2, 30, 0)]);
    e.submit_milestone(&ctx(1), 1).unwrap();
    e.approve(&ctx(1), 1).unwrap();
    let fx = e.release(&ctx(2), 1, account("client")).unwrap();
    let t = fx.transfer.as_ref().unwrap();
    assert_eq!((t.from.clone(), t.to.clone(), t.amount), (account("escrow-contract"), account("freelancer"), 120));
    match single_event(&fx) {
        ContractEvent::PaymentReleased(ev) => {
            assert_eq!(ev.milestone_id, 1);
            assert_eq!(ev.actor, account("client"));
            assert_eq!(ev.recipient, account("freelancer"));
            assert_eq!(ev.amount, 120);
        },
        other => panic!("unexpected event {:?}", other),
    }
    assert_eq!(e.get_escrow_balance(), 30);
    assert_eq!(status(&e, 2), MilestoneStatus::Funded);
}

#[test]
fn accepted_calls_cannot_be_replayed() {
    let c = account("client");
    let f = account("freelancer");
    let a = account("arbiter");
    let mut e = funded(vec![milestone(1, 10, 0), milestone(2, 10, 0), milestone(3, 10, 0)]);
    e.submit_milestone(&ctx(1), 1).unwrap();
    assert_eq!(e.submit_milestone(&ctx(1), 1).unwrap_err(), Error::InvalidMilestoneStatus);
    e.set_deadline(&ctx(1), 2, a.clone(), 50).unwrap();
    assert_eq!(e.set_deadline(&ctx(1), 2, a.clone(), 50).unwrap_err(), Error::DeadlineAlreadySet);
    e.extend_deadline(&ctx(1), 2, c.clone(), 60).unwrap();
    assert_eq!(e.extend_deadline(&ctx(1), 2, c.clone(), 60).unwrap_err(), Error::InvalidDeadline);
    e.dispute(&ctx(1), 3, f.clone()).unwrap();
    assert_eq!(e.dispute(&ctx(1), 3, f.clone()).unwrap_err(), Error::InvalidMilestoneStatus);
    e.resolve_dispute(&ctx(1), 3, true).unwrap();
    assert_eq!(e.resolve_dispute(&ctx(1), 3, true).unwrap_err(), Error::InvalidMilestoneStatus);
    e.auto_expire(&ctx(61), f.clone(), 2).unwrap();
    assert_eq!(e.auto_expire(&ctx(61), f, 2).unwrap_err(), Error::AlreadyExpired);
}

#[test]
fn paid_out_milestones_are_frozen() {
    let c = account("client");
    let a = account("arbiter");
    let mut e = funded(vec![milestone(1, 10, 0)]);
    e.submit_milestone(&ctx(1), 1).unwrap();
    e.approve(&ctx(1), 1).unwrap();
    e.release(&ctx(1), 1, c.clone()).unwrap();
    assert_eq!(e.set_deadline(&ctx(1), 1, a.clone(), 99).unwrap_err(), Error::InvalidMilestoneStatus);
    assert_eq!(e.dispute(&ctx(1), 1, c.clone()).unwrap_err(), Error::InvalidMilestoneStatus);
    assert_eq!(e.freelancer_confirm(&ctx(1), 1).unwrap_err(), Error::InvalidMilestoneStatus);
    assert_eq!(status(&e, 1), MilestoneStatus::Released);
}

#[test]
fn an_expired_refund_is_not_paid_twice() {
    let c = account("client");
    let mut e = funded(vec![milestone(1, 10, 100)]);
    e.claim_expired_refund(&ctx(101), 1, c.clone()).unwrap();
    assert_eq!(e.auto_expire(&ctx(102), c.clone(), 1).unwrap_err(), Error::AlreadyExpired);
    assert_eq!(e.claim_expired_refund(&ctx(102), 1, c.clone()).unwrap_err(), Error::InvalidMilestoneStatus);
    assert_eq!(e.release(&ctx(102), 1, c).unwrap_err(), Error::DeadlineExceeded);
}

#[test]
fn release_of_an_auto_expired_milestone_before_its_deadline_is_the_exception() {
    // An approved milestone auto-expires; a release at a time not after its
    // deadline (which a ledger moving forward never offers) is still accepted,
    // once the balance covers it.
    let c = account("client");
    let mut e = funded(vec![milestone(1, 10, 100), milestone(2, 10, 0)]);
    e.submit_milestone(&ctx(1), 1).unwrap();
    e.approve(&ctx(1), 1).unwrap();
    e.auto_expire(&ctx(101), c.clone(), 1).unwrap();
    assert_eq!(e.get_escrow_balance(), 10);
    assert_eq!(e.release(&ctx(102), 1, c.clone()).unwrap_err(), Error::DeadlineExceeded);
    e.release(&ctx(50), 1, c.clone()).unwrap();
    assert_eq!(status(&e, 1), MilestoneStatus::Released);
    assert_eq!(e.get_escrow_balance(), 0);
}

#[test]
fn release_refused_when_the_balance_does_not_cover_the_amount() {
    let c = account("client");
    let mut e = funded(vec![milestone(1, 10, 100)]);
    e.submit_milestone(&ctx(1), 1).unwrap();
    e.approve(&ctx(1), 1).unwrap();
    e.auto_expire(&ctx(101), c.clone(), 1).unwrap();
    assert_eq!(e.get_escrow_balance(), 0);
    assert_eq!(e.release(&ctx(50), 1, c).unwrap_err(), Error::ZeroAmount);
    assert_eq!(status(&e, 1), MilestoneStatus::AutoExpired);
}

#[test]
fn refunds_beyond_the_balance_leave_it_unchanged() {
    // A milestone that expires before funding still pays out; the balance,
    // which does not cover it, stays at zero.
    let c = account("client");
    let mut e = initialized(vec![milestone(1, 10, 100)]);
    let fx = e.auto_expire(&ctx(101), c, 1).unwrap();
    assert_eq!(fx.transfer.unwrap().amount, 10);
    assert_eq!(fx.events.len(), 2);
    assert_eq!(e.get_escrow_balance(), 0);
}

#[test]
fn only_entitled_parties_act() {
    let stranger = account("stranger");
    let mut e = funded(vec![milestone(1, 10, 100)]);
    assert_eq!(e.release(&ctx(1), 1, account("arbiter")).unwrap_err(), Error::Unauthorized);
    assert_eq!(e.refund(&ctx(1), 1, account("arbiter")).unwrap_err(), Error::Unauthorized);
    assert_eq!(e.dispute(&ctx(1), 1, account("arbiter")).unwrap_err(), Error::Unauthorized);
    assert_eq!(e.extend_deadline(&ctx(1), 1, stranger.clone(), 200).unwrap_err(), Error::Unauthorized);
    assert_eq!(e.claim_expired_refund(&ctx(101), 1, stranger).unwrap_err(), Error::Unauthorized);
    // The arbiter may move the deadline.
    e.extend_deadline(&ctx(1), 1, account("arbiter"), 200).unwrap();
    assert_eq!(e.get_milestone_deadline(1), Ok(200));
}

#[test]
fn auto_expire_checks_deadline_then_status() {
    let c = account("client");
    let mut e = funded(vec![milestone(1, 10, 0), milestone(2, 10, 100)]);
    assert_eq!(e.auto_expire(&ctx(500), c.clone(), 1).unwrap_err(), Error::InvalidMilestoneStatus);
    assert_eq!(e.auto_expire(&ctx(100), c.clone(), 2).unwrap_err(), Error::InvalidMilestoneStatus);
    e.dispute(&ctx(1), 2, c.clone()).unwrap();
    assert_eq!(e.auto_expire(&ctx(101), c.clone(), 2).unwrap_err(), Error::AlreadyExpired);
    // A disputed milestone's funds stay locked until the arbiter resolves it.
    assert_eq!(e.claim_expired_refund(&ctx(101), 2, c).unwrap_err(), Error::MilestoneDisputed);
}

#[test]
fn claim_needs_a_deadline() {
    let c = account("client");
    let mut e = funded(vec![milestone(1, 10, 0)]);
    assert_eq!(e.claim_expired_refund(&ctx(500), 1, c).unwrap_err(), Error::InvalidDeadline);
}

#[test]
fn claim_expired_refund_reports_expiry_then_refund() {
    let c = account("client");
    let mut e = funded(vec![milestone(4, 25, 100)]);
    let fx = e.claim_expired_refund(&ctx(101), 4, c.clone()).unwrap();
    assert_eq!(fx.events.len(), 2);
    match &fx.events[0] {
        ContractEvent::DeadlineExpired(ev) => {
            assert_eq!((ev.milestone_id, ev.deadline), (4, 100));
        },
        other => panic!("unexpected event {:?}", other),
    }
    match &fx.events[1] {
        ContractEvent::RefundIssued(ev) => {
            assert_eq!(ev.recipient, c);
            assert_eq!(ev.amount, 25);
        },
        other => panic!("unexpected event {:?}", other),
    }
    let t = fx.transfer.unwrap();
    assert_eq!((t.to, t.amount), (c, 25));
}

#[test]
fn resolution_to_the_client_refunds_and_reports_it() {
    let mut e = funded(vec![milestone(1, 40, 0)]);
    e.dispute(&ctx(1), 1, account("freelancer")).unwrap();
    let fx = e.resolve_dispute(&ctx(2), 1, false).unwrap();
    let t = fx.transfer.as_ref().unwrap();
    assert_eq!((t.to.clone(), t.amount), (account("client"), 40));
    match single_event(&fx) {
        ContractEvent::DisputeResolved(ev) => {
            assert_eq!(ev.actor, account("arbiter"));
            assert!(!ev.release_to_freelancer);
        },
        other => panic!("unexpected event {:?}", other),
    }
    assert_eq!(status(&e, 1), MilestoneStatus::Refunded);
    assert_eq!(e.get_escrow_balance(), 0);
}

#[test]
fn deadlines_move_forward_only() {
    let c = account("client");
    let mut e = funded(vec![milestone(1, 10, 0)]);
    assert_eq!(e.set_deadline(&ctx(10), 1, c.clone(), 5).unwrap_err(), Error::InvalidDeadline);
    let fx = e.set_deadline(&ctx(10), 1, c.clone(), 20).unwrap();
    match single_event(&fx) {
        ContractEvent::DeadlineSet(ev) => assert_eq!(ev.deadline, 20),
        other => panic!("unexpected event {:?}", other),
    }
    assert_eq!(e.extend_deadline(&ctx(30), 1, c.clone(), 25).unwrap_err(), Error::InvalidDeadline);
    let fx = e.extend_deadline(&ctx(30), 1, c.clone(), 40).unwrap();
    match single_event(&fx) {
        ContractEvent::DeadlineExtended(ev) => {
            assert_eq!((ev.old_deadline, ev.new_deadline), (20, 40));
        },
        other => panic!("unexpected event {:?}", other),
    }
}

#[test]
fn approvals_are_reported_per_milestone() {
    let mut e = funded(vec![milestone(1, 10, 0)]);
    e.submit_milestone(&ctx(1), 1).unwrap();
    e.approve(&ctx(1), 1).unwrap();
    assert!(e.has_client_approval(1));
    assert!(!e.has_freelancer_approval(1));
    e.freelancer_confirm(&ctx(1), 1).unwrap();
    assert!(e.has_freelancer_approval(1));
    assert!(!e.has_client_approval(2));
}

#[test]
fn the_signer_of_each_call_is_the_stored_party() {
    let fresh = EscrowContract::new();
    assert_eq!(fresh.required_signer(SignedCall::Fund), Err(Error::NotInitialized));
    let e = initialized(vec![milestone(1, 10, 0)]);
    assert_eq!(e.required_signer(SignedCall::Fund), Ok(account("client")));
    assert_eq!(e.required_signer(SignedCall::Approve), Ok(account("client")));
    assert_eq!(e.required_signer(SignedCall::SubmitMilestone), Ok(account("freelancer")));
    assert_eq!(e.required_signer(SignedCall::FreelancerConfirm), Ok(account("freelancer")));
    assert_eq!(e.required_signer(SignedCall::ResolveDispute), Ok(account("arbiter")));
}

#[test]
fn well_formed_states_are_recognized() {
    let mut e = funded(vec![milestone(1, 10, 0), milestone(2, 20, 0)]);
    assert!(e.is_well_formed());
    assert!(EscrowContract::new().is_well_formed());
    e.milestones.get_mut(&2).unwrap().amount = 0;
    assert!(!e.is_well_formed());
    let mut e = funded(vec![milestone(1, 10, 0)]);
    e.milestones.get_mut(&1).unwrap().client_approved = true;
    assert!(!e.is_well_formed());
    let mut e = funded(vec![milestone(1, 10, 0)]);
    e.escrow_balance = -1;
    assert!(!e.is_well_formed());
}

#[test]
fn the_balance_always_equals_what_unpaid_milestones_hold() {
    let c = account("client");
    let f = account("freelancer");
    let mut e = funded(vec![milestone(1, 100, 50), milestone(2, 200, 0), milestone(3, 300, 0), milestone(4, 400, 0)]);
    let unpaid = |e: &EscrowContract| -> i128 {
        e.milestone_ids
            .as_ref()
            .unwrap()
            .iter()
            .map(|id| e.milestones.get(id).unwrap())
            .filter(|m| !is_terminal_status(m.status))
            .map(|m| m.amount)
            .sum()
    };
    assert_eq!(e.get_escrow_balance(), 1000);
    assert_eq!(unpaid(&e), 1000);
    e.submit_milestone(&ctx(10), 2).unwrap();
    e.approve(&ctx(11), 2).unwrap();
    e.release(&ctx(12), 2, c.clone()).unwrap();
    assert_eq!((e.get_escrow_balance(), unpaid(&e)), (800, 800));
    e.refund(&ctx(13), 3, f.clone()).unwrap();
    assert_eq!((e.get_escrow_balance(), unpaid(&e)), (500, 500));
    e.auto_expire(&ctx(60), c.clone(), 1).unwrap();
    assert_eq!((e.get_escrow_balance(), unpaid(&e)), (400, 400));
    e.dispute(&ctx(61), 4, f).unwrap();
    e.resolve_dispute(&ctx(62), 4, true).unwrap();
    assert_eq!((e.get_escrow_balance(), unpaid(&e)), (0, 0));
}

#[test]
fn listing_after_initialization_is_the_input_with_approvals_cleared() {
    let mut a = milestone(5, 10, 7);
    a.client_approved = true;
    let mut b = milestone(3, 20, 0);
    b.freelancer_approved = true;
    b.status = MilestoneStatus::Funded;
    let e = initialized(vec![a, b]);
    let listed = e.get_milestones().unwrap();
    assert_eq!(listed.len(), 2);
    assert_eq!((listed[0].id, listed[0].amount, listed[0].deadline), (5, 10, 7));
    assert_eq!((listed[1].id, listed[1].amount, listed[1].status), (3, 20, MilestoneStatus::Funded));
    assert!(listed.iter().all(|m| !m.client_approved && !m.freelancer_approved));
    assert_eq!(listed[0].description, "milestone 5");
}
