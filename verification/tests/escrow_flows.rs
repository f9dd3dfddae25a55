use std::collections::HashMap;

use escrow::{AccountId, CallContext, Effects, Error, EscrowContract, Milestone, MilestoneStatus};

/// Runs the escrow the way its host does: it applies the token transfers an
/// accepted call asks for to a ledger of balances and records how many events
/// the last call published.
struct TestSetup {
    escrow: EscrowContract,
    contract: AccountId,
    now: u64,
    admin: AccountId,
    client: AccountId,
    freelancer: AccountId,
    arbiter: AccountId,
    token_address: AccountId,
    balances: HashMap<String, i128>,
    last_events: usize,
}

fn account(name: &str) -> AccountId {
    AccountId::new(name.to_string())
}

fn setup_test() -> TestSetup {
    let client = account("client");
    let mut balances = HashMap::new();
    balances.insert(client.key.clone(), 1000);
    TestSetup {
        escrow: EscrowContract::new(),
        contract: account("escrow-contract"),
        now: 0,
        admin: account("admin"),
        client,
        freelancer: account("freelancer"),
        arbiter: account("arbiter"),
        token_address: account("token"),
        balances,
        last_events: 0,
    }
}

fn milestone(id: u32, amount: i128) -> Milestone {
    milestone_with_deadline(id, amount, 0)
}

fn milestone_with_deadline(id: u32, amount: i128, deadline: u64) -> Milestone {
    Milestone {
        id,
        deadline,
        amount,
        status: MilestoneStatus::Pending,
        description: String::from("Security milestone"),
        client_approved: false,
        freelancer_approved: false,
    }
}

impl TestSetup {
    fn ctx(&self) -> CallContext {
        CallContext { contract_address: self.contract.clone(), timestamp: self.now }
    }

    fn apply(&mut self, r: Result<Effects, Error>) -> Result<(), Error> {
        let fx = r?;
        if let Some(t) = fx.transfer {
            let from = self.balances.get(&t.from.key).copied().unwrap_or(0);
            assert!(t.amount >= 0 && from >= t.amount, "token transfer refused");
            self.balances.insert(t.from.key.clone(), from - t.amount);
            *self.balances.entry(t.to.key.clone()).or_insert(0) += t.amount;
        }
        self.last_events = fx.events.len();
        Ok(())
    }

    fn balance(&self, a: &AccountId) -> i128 {
        self.balances.get(&a.key).copied().unwrap_or(0)
    }

    fn initialize(&mut self, milestones: Vec<Milestone>) -> Result<(), Error> {
        let ctx = self.ctx();
        let r = self.escrow.initialize(
            &ctx,
            self.admin.clone(),
            self.client.clone(),
            self.freelancer.clone(),
            self.arbiter.clone(),
            self.token_address.clone(),
            milestones,
        );
        self.apply(r)
    }

    fn fund(&mut self) -> Result<(), Error> {
        assert!(self.escrow.funding_fits(), "amount overflow");
        let ctx = self.ctx();
        let r = self.escrow.fund(&ctx);
        self.apply(r)
    }

    fn submit_milestone(&mut self, id: u32) -> Result<(), Error> {
        let ctx = self.ctx();
        let r = self.escrow.submit_milestone(&ctx, id);
        self.apply(r)
    }

    fn approve(&mut self, id: u32) -> Result<(), Error> {
        let ctx = self.ctx();
        let r = self.escrow.approve(&ctx, id);
        self.apply(r)
    }

    fn freelancer_confirm(&mut self, id: u32) -> Result<(), Error> {
        let ctx = self.ctx();
        let r = self.escrow.freelancer_confirm(&ctx, id);
        self.apply(r)
    }

    fn release(&mut self, id: u32, caller: &AccountId) -> Result<(), Error> {
        let ctx = self.ctx();
        let r = self.escrow.release(&ctx, id, caller.clone());
        self.apply(r)
    }

    fn refund(&mut self, id: u32, caller: &AccountId) -> Result<(), Error> {
        let ctx = self.ctx();
        let r = self.escrow.refund(&ctx, id, caller.clone());
        self.apply(r)
    }

    fn dispute(&mut self, id: u32, caller: &AccountId) -> Result<(), Error> {
        let ctx = self.ctx();
        let r = self.escrow.dispute(&ctx, id, caller.clone());
        self.apply(r)
    }

    fn resolve_dispute(&mut self, id: u32, release_to_freelancer: bool) -> Result<(), Error> {
        let ctx = self.ctx();
        let r = self.escrow.resolve_dispute(&ctx, id, release_to_freelancer);
        self.apply(r)
    }

    fn auto_expire(&mut self, caller: &AccountId, id: u32) -> Result<(), Error> {
        let ctx = self.ctx();
        let r = self.escrow.auto_expire(&ctx, caller.clone(), id);
        self.apply(r)
    }

    fn set_deadline(&mut self, id: u32, caller: &AccountId, deadline: u64) -> Result<(), Error> {
        let ctx = self.ctx();
        let r = self.escrow.set_deadline(&ctx, id, caller.clone(), deadline);
        self.apply(r)
    }

    fn extend_deadline(&mut self, id: u32, caller: &AccountId, deadline: u64) -> Result<(), Error> {
        let ctx = self.ctx();
        let r = self.escrow.extend_deadline(&ctx, id, caller.clone(), deadline);
        self.apply(r)
    }

    fn claim_expired_refund(&mut self, id: u32, caller: &AccountId) -> Result<(), Error> {
        let ctx = self.ctx();
        let r = self.escrow.claim_expired_refund(&ctx, id, caller.clone());
        self.apply(r)
    }

    /// View calls publish no events.
    fn is_milestone_expired(&mut self, id: u32) -> bool {
        self.last_events = 0;
        let ctx = self.ctx();
        self.escrow.is_milestone_expired(&ctx, id).unwrap()
    }

    fn get_milestone_deadline(&mut self, id: u32) -> u64 {
        self.last_events = 0;
        self.escrow.get_milestone_deadline(id).unwrap()
    }

    fn status_of(&mut self, index: usize) -> MilestoneStatus {
        self.last_events = 0;
        self.escrow.get_milestones().unwrap()[index].status
    }

    fn contract_event_count(&self) -> usize {
        self.last_events
    }

    fn initialize_single_milestone(&mut self, amount: i128) {
        self.initialize(vec![milestone(1, amount)]).unwrap();
    }

    fn initialize_single_milestone_with_deadline(&mut self, amount: i128, deadline: u64) {
        self.initialize(vec![milestone_with_deadline(1, amount, deadline)]).unwrap();
    }

    fn fully_approve_single_milestone(&mut self) {
        self.fund().unwrap();
        self.submit_milestone(1).unwrap();
        self.approve(1).unwrap();
        self.freelancer_confirm(1).unwrap();
    }
}

fn described(id: u32, amount: i128, description: &str) -> Milestone {
    Milestone {
        id,
        deadline: 0,
        amount,
        status: MilestoneStatus::Pending,
        description: String::from(description),
        client_approved: false,
        freelancer_approved: false,
    }
}

#[test]
fn test_happy_path() {
    let mut setup = setup_test();
    let milestones = vec![described(1, 100, "Milestone 1"), described(2, 200, "Milestone 2")];
    setup.initialize(milestones).unwrap();

    assert_eq!(setup.escrow.get_client(), Ok(setup.client.clone()));
    assert_eq!(setup.escrow.get_freelancer(), Ok(setup.freelancer.clone()));
    assert_eq!(setup.escrow.get_arbiter(), Ok(setup.arbiter.clone()));
    assert_eq!(setup.escrow.get_token(), Ok(setup.token_address.clone()));
    assert_eq!(setup.escrow.is_funded(), false);

    let fetched = setup.escrow.get_milestones().unwrap();
    assert_eq!(fetched.len(), 2);
    assert_eq!(fetched[0].status, MilestoneStatus::Pending);

    setup.fund().unwrap();
    assert_eq!(setup.escrow.is_funded(), true);

    let client = setup.client.clone();
    let contract = setup.contract.clone();
    assert_eq!(setup.balance(&client), 700);
    assert_eq!(setup.balance(&contract), 300);

    assert_eq!(setup.status_of(0), MilestoneStatus::Funded);

    setup.submit_milestone(1).unwrap();
    assert_eq!(setup.status_of(0), MilestoneStatus::Submitted);

    setup.approve(1).unwrap();
    assert_eq!(setup.status_of(0), MilestoneStatus::Approved);
    assert_eq!(setup.escrow.has_client_approval(1), true);

    setup.release(1, &client).unwrap();
    assert_eq!(setup.status_of(0), MilestoneStatus::Released);

    let freelancer = setup.freelancer.clone();
    assert_eq!(setup.balance(&freelancer), 100);
    assert_eq!(setup.balance(&contract), 200);
    assert_eq!(setup.escrow.get_escrow_balance(), 200);
}

#[test]
fn test_voluntary_refund() {
    let mut setup = setup_test();
    setup.initialize(vec![described(1, 250, "Project Work")]).unwrap();
    setup.fund().unwrap();

    let freelancer = setup.freelancer.clone();
    setup.refund(1, &freelancer).unwrap();

    assert_eq!(setup.status_of(0), MilestoneStatus::Refunded);
    let client = setup.client.clone();
    let contract = setup.contract.clone();
    assert_eq!(setup.balance(&client), 1000);
    assert_eq!(setup.balance(&contract), 0);
}

#[test]
fn test_dispute_and_resolve_to_freelancer() {
    let mut setup = setup_test();
    setup.initialize(vec![described(1, 400, "High Value Milestone")]).unwrap();
    setup.fund().unwrap();
    setup.submit_milestone(1).unwrap();
    setup.approve(1).unwrap();

    let client = setup.client.clone();
    setup.dispute(1, &client).unwrap();
    assert_eq!(setup.status_of(0), MilestoneStatus::Disputed);

    setup.resolve_dispute(1, true).unwrap();

    let freelancer = setup.freelancer.clone();
    assert_eq!(setup.balance(&freelancer), 400);
    assert_eq!(setup.balance(&client), 600);
    assert_eq!(setup.status_of(0), MilestoneStatus::Released);
}

#[test]
fn test_dispute_and_resolve_to_client() {
    let mut setup = setup_test();
    setup.initialize(vec![described(1, 400, "High Value Milestone")]).unwrap();
    setup.fund().unwrap();
    setup.submit_milestone(1).unwrap();

    let freelancer = setup.freelancer.clone();
    setup.dispute(1, &freelancer).unwrap();
    assert_eq!(setup.status_of(0), MilestoneStatus::Disputed);

    setup.resolve_dispute(1, false).unwrap();

    let client = setup.client.clone();
    assert_eq!(setup.balance(&client), 1000);
    assert_eq!(setup.balance(&freelancer), 0);
    assert_eq!(setup.status_of(0), MilestoneStatus::Refunded);
}

#[test]
fn test_double_initialization_fails() {
    let mut setup = setup_test();
    let milestones = vec![described(1, 100, "Milestone")];
    setup.initialize(milestones.clone()).unwrap();
    let r = setup.initialize(milestones);
    assert_eq!(r, Err(Error::AlreadyInitialized));
    assert_eq!(r.unwrap_err().code(), 1);
}

#[test]
fn test_zero_amount_fails() {
    let mut setup = setup_test();
    let r = setup.initialize(vec![described(1, 0, "Invalid Milestone")]);
    assert_eq!(r, Err(Error::ZeroAmount));
    assert_eq!(r.unwrap_err().code(), 8);
}

#[test]
fn test_unauthorized_release_fails() {
    let mut setup = setup_test();
    setup.initialize(vec![described(1, 100, "Milestone")]).unwrap();
    setup.fund().unwrap();
    setup.submit_milestone(1).unwrap();
    setup.approve(1).unwrap();

    let freelancer = setup.freelancer.clone();
    let r = setup.release(1, &freelancer);
    assert_eq!(r, Err(Error::Unauthorized));
    assert_eq!(r.unwrap_err().code(), 7);
}

#[test]
fn test_version() {
    let mut setup = setup_test();
    setup.initialize(vec![described(1, 100, "Milestone")]).unwrap();
    assert_eq!(setup.escrow.version(), 1);
}

#[test]
fn test_release_without_approval_fails() {
    let mut setup = setup_test();
    setup.initialize(vec![described(1, 100, "Milestone")]).unwrap();
    setup.fund().unwrap();
    setup.submit_milestone(1).unwrap();
    let client = setup.client.clone();
    let r = setup.release(1, &client);
    assert_eq!(r, Err(Error::InsufficientApprovals));
    assert_eq!(r.unwrap_err().code(), 9);
}

#[test]
fn test_double_client_approval_fails() {
    let mut setup = setup_test();
    setup.initialize(vec![described(1, 100, "Milestone")]).unwrap();
    setup.fund().unwrap();
    setup.submit_milestone(1).unwrap();
    setup.approve(1).unwrap();
    let r = setup.approve(1);
    assert_eq!(r, Err(Error::InvalidMilestoneStatus));
    assert_eq!(r.unwrap_err().code(), 6);
}

#[test]
fn test_double_freelancer_confirmation_fails() {
    let mut setup = setup_test();
    setup.initialize(vec![described(1, 100, "Milestone")]).unwrap();
    setup.fund().unwrap();
    setup.submit_milestone(1).unwrap();
    setup.approve(1).unwrap();
    setup.freelancer_confirm(1).unwrap();
    let r = setup.freelancer_confirm(1);
    assert_eq!(r, Err(Error::AlreadyApproved));
    assert_eq!(r.unwrap_err().code(), 10);
}

#[test]
fn test_dispute_clears_approvals() {
    let mut setup = setup_test();
    setup.initialize(vec![described(1, 400, "High Value Milestone")]).unwrap();
    setup.fund().unwrap();
    setup.submit_milestone(1).unwrap();
    setup.approve(1).unwrap();

    assert_eq!(setup.escrow.has_client_approval(1), true);

    let client = setup.client.clone();
    setup.dispute(1, &client).unwrap();
    assert_eq!(setup.status_of(0), MilestoneStatus::Disputed);

    assert_eq!(setup.escrow.has_client_approval(1), false);
}

#[test]
fn test_unauthorized_refund_fails() {
    let mut setup = setup_test();
    setup.initialize_single_milestone(150);
    setup.fund().unwrap();
    let client = setup.client.clone();
    assert_eq!(setup.refund(1, &client), Err(Error::Unauthorized));
}

#[test]
fn test_unauthorized_dispute_fails() {
    let mut setup = setup_test();
    setup.initialize_single_milestone(150);
    setup.fund().unwrap();
    let stranger = account("stranger");
    assert_eq!(setup.dispute(1, &stranger), Err(Error::Unauthorized));
}

#[test]
fn test_submit_invalid_milestone_fails() {
    let mut setup = setup_test();
    setup.initialize_single_milestone(150);
    setup.fund().unwrap();
    let r = setup.submit_milestone(99);
    assert_eq!(r, Err(Error::MilestoneNotFound));
    assert_eq!(r.unwrap_err().code(), 5);
}

#[test]
fn test_release_invalid_milestone_fails() {
    let mut setup = setup_test();
    setup.initialize_single_milestone(150);
    setup.fully_approve_single_milestone();
    let client = setup.client.clone();
    assert_eq!(setup.release(99, &client), Err(Error::MilestoneNotFound));
}

#[test]
fn test_double_release_replay_fails() {
    let mut setup = setup_test();
    setup.initialize_single_milestone(150);
    setup.fully_approve_single_milestone();
    let client = setup.client.clone();
    setup.release(1, &client).unwrap();
    assert_eq!(setup.release(1, &client), Err(Error::InvalidMilestoneStatus));
}

#[test]
fn test_double_refund_replay_fails() {
    let mut setup = setup_test();
    setup.initialize_single_milestone(150);
    setup.fund().unwrap();
    let freelancer = setup.freelancer.clone();
    setup.refund(1, &freelancer).unwrap();
    assert_eq!(setup.refund(1, &freelancer), Err(Error::InvalidMilestoneStatus));
}

#[test]
fn test_dispute_after_release_fails() {
    let mut setup = setup_test();
    setup.initialize_single_milestone(150);
    setup.fully_approve_single_milestone();
    let client = setup.client.clone();
    setup.release(1, &client).unwrap();
    assert_eq!(setup.dispute(1, &client), Err(Error::InvalidMilestoneStatus));
}

#[test]
fn test_refund_after_release_fails() {
    let mut setup = setup_test();
    setup.initialize_single_milestone(150);
    setup.fully_approve_single_milestone();
    let client = setup.client.clone();
    setup.release(1, &client).unwrap();
    let freelancer = setup.freelancer.clone();
    assert_eq!(setup.refund(1, &freelancer), Err(Error::InvalidMilestoneStatus));
}

#[test]
fn test_successful_security_events_are_emitted() {
    let mut setup = setup_test();
    setup.initialize_single_milestone(150);
    assert_eq!(setup.contract_event_count(), 1);

    setup.fund().unwrap();
    assert_eq!(setup.contract_event_count(), 1);

    setup.submit_milestone(1).unwrap();
    assert_eq!(setup.contract_event_count(), 1);

    setup.approve(1).unwrap();
    assert_eq!(setup.contract_event_count(), 1);

    setup.freelancer_confirm(1).unwrap();
    assert_eq!(setup.contract_event_count(), 1);

    let client = setup.client.clone();
    setup.release(1, &client).unwrap();
    assert_eq!(setup.contract_event_count(), 1);
}

#[test]
fn test_set_deadline_stores_value_and_emits_event() {
    let mut setup = setup_test();
    setup.initialize_single_milestone(100);

    setup.now = 1_000;
    assert_eq!(setup.get_milestone_deadline(1), 0);
    assert_eq!(setup.is_milestone_expired(1), false);

    let before = setup.contract_event_count();
    let client = setup.client.clone();
    setup.set_deadline(1, &client, 5_000).unwrap();
    let after = setup.contract_event_count();

    assert_eq!(setup.get_milestone_deadline(1), 5_000);
    assert_eq!(after, before + 1);
    assert_eq!(setup.is_milestone_expired(1), false);

    setup.now = 5_001;
    assert_eq!(setup.is_milestone_expired(1), true);
}

#[test]
fn test_set_deadline_unauthorized_fails() {
    let mut setup = setup_test();
    setup.initialize_single_milestone(100);
    setup.now = 1_000;
    let stranger = account("stranger");
    assert_eq!(setup.set_deadline(1, &stranger, 5_000), Err(Error::Unauthorized));
}

#[test]
fn test_set_deadline_in_past_fails() {
    let mut setup = setup_test();
    setup.initialize_single_milestone(100);
    setup.now = 1_000;
    let client = setup.client.clone();
    let r = setup.set_deadline(1, &client, 1_000);
    assert_eq!(r, Err(Error::InvalidDeadline));
    assert_eq!(r.unwrap_err().code(), 14);
}

#[test]
fn test_set_deadline_twice_fails() {
    let mut setup = setup_test();
    setup.initialize_single_milestone(100);
    setup.now = 1_000;
    let client = setup.client.clone();
    setup.set_deadline(1, &client, 5_000).unwrap();
    let r = setup.set_deadline(1, &client, 6_000);
    assert_eq!(r, Err(Error::DeadlineAlreadySet));
    assert_eq!(r.unwrap_err().code(), 15);
}

#[test]
fn test_extend_deadline_by_arbiter_succeeds() {
    let mut setup = setup_test();
    setup.initialize_single_milestone(100);
    setup.now = 1_000;
    let client = setup.client.clone();
    let arbiter = setup.arbiter.clone();
    setup.set_deadline(1, &client, 5_000).unwrap();
    setup.extend_deadline(1, &arbiter, 9_000).unwrap();
    assert_eq!(setup.get_milestone_deadline(1), 9_000);
}

#[test]
fn test_expired_milestone_can_be_extended_then_submitted() {
    let mut setup = setup_test();
    setup.initialize_single_milestone_with_deadline(100, 5_000);
    setup.now = 1_000;
    setup.fund().unwrap();

    setup.now = 6_000;
    assert_eq!(setup.is_milestone_expired(1), true);

    let arbiter = setup.arbiter.clone();
    setup.extend_deadline(1, &arbiter, 20_000).unwrap();
    assert_eq!(setup.get_milestone_deadline(1), 20_000);
    assert_eq!(setup.is_milestone_expired(1), false);

    setup.submit_milestone(1).unwrap();
    assert_eq!(setup.status_of(0), MilestoneStatus::Submitted);
}

#[test]
fn test_extend_deadline_unauthorized_fails() {
    let mut setup = setup_test();
    setup.initialize_single_milestone(100);
    setup.now = 1_000;
    let client = setup.client.clone();
    setup.set_deadline(1, &client, 5_000).unwrap();
    let freelancer = setup.freelancer.clone();
    assert_eq!(setup.extend_deadline(1, &freelancer, 9_000), Err(Error::Unauthorized));
}

#[test]
fn test_extend_deadline_backwards_fails() {
    let mut setup = setup_test();
    setup.initialize_single_milestone(100);
    setup.now = 1_000;
    let client = setup.client.clone();
    setup.set_deadline(1, &client, 5_000).unwrap();
    assert_eq!(setup.extend_deadline(1, &client, 4_000), Err(Error::InvalidDeadline));
}

#[test]
fn test_extend_deadline_without_existing_deadline_fails() {
    let mut setup = setup_test();
    setup.initialize_single_milestone(100);
    setup.now = 1_000;
    let client = setup.client.clone();
    assert_eq!(setup.extend_deadline(1, &client, 5_000), Err(Error::InvalidDeadline));
}

#[test]
fn test_submit_after_deadline_expired_fails() {
    let mut setup = setup_test();
    setup.initialize_single_milestone_with_deadline(100, 5_000);
    setup.now = 1_000;
    setup.fund().unwrap();
    setup.now = 5_001;
    let r = setup.submit_milestone(1);
    assert_eq!(r, Err(Error::DeadlineExceeded));
    assert_eq!(r.unwrap_err().code(), 11);
}

#[test]
fn test_approve_after_deadline_expired_fails() {
    let mut setup = setup_test();
    setup.initialize_single_milestone_with_deadline(100, 5_000);
    setup.now = 1_000;
    setup.fund().unwrap();
    setup.submit_milestone(1).unwrap();
    setup.now = 5_001;
    assert_eq!(setup.approve(1), Err(Error::DeadlineExceeded));
}

#[test]
fn test_release_after_deadline_expired_fails() {
    let mut setup = setup_test();
    setup.initialize_single_milestone_with_deadline(100, 5_000);
    setup.now = 1_000;
    setup.fund().unwrap();
    setup.submit_milestone(1).unwrap();
    setup.approve(1).unwrap();
    setup.now = 5_001;
    let client = setup.client.clone();
    assert_eq!(setup.release(1, &client), Err(Error::DeadlineExceeded));
}

#[test]
fn test_client_refund_after_expiry_when_funded_no_submission() {
    let mut setup = setup_test();
    setup.initialize_single_milestone_with_deadline(250, 5_000);
    setup.now = 1_000;
    setup.fund().unwrap();
    assert_eq!(setup.escrow.is_funded(), true);

    setup.now = 5_001;
    assert_eq!(setup.is_milestone_expired(1), true);

    let before = setup.contract_event_count();
    let client = setup.client.clone();
    setup.claim_expired_refund(1, &client).unwrap();
    let after = setup.contract_event_count();

    assert_eq!(after, before + 2);
    assert_eq!(setup.status_of(0), MilestoneStatus::Refunded);

    let contract = setup.contract.clone();
    assert_eq!(setup.balance(&client), 1000);
    assert_eq!(setup.balance(&contract), 0);
    assert_eq!(setup.escrow.get_escrow_balance(), 0);
}

#[test]
fn test_client_refund_after_expiry_when_submitted() {
    let mut setup = setup_test();
    setup.initialize_single_milestone_with_deadline(150, 5_000);
    setup.now = 1_000;
    setup.fund().unwrap();
    setup.submit_milestone(1).unwrap();

    setup.now = 5_001;
    let client = setup.client.clone();
    setup.claim_expired_refund(1, &client).unwrap();

    assert_eq!(setup.status_of(0), MilestoneStatus::Refunded);
    let contract = setup.contract.clone();
    assert_eq!(setup.balance(&client), 1000);
    assert_eq!(setup.balance(&contract), 0);
}

#[test]
fn test_client_refund_before_expiry_fails() {
    let mut setup = setup_test();
    setup.initialize_single_milestone_with_deadline(100, 5_000);
    setup.now = 1_000;
    setup.fund().unwrap();
    let client = setup.client.clone();
    let r = setup.claim_expired_refund(1, &client);
    assert_eq!(r, Err(Error::DeadlineNotExpired));
    assert_eq!(r.unwrap_err().code(), 13);
}

#[test]
fn test_client_refund_unauthorized_fails() {
    let mut setup = setup_test();
    setup.initialize_single_milestone_with_deadline(100, 5_000);
    setup.now = 1_000;
    setup.fund().unwrap();
    setup.now = 5_001;
    let freelancer = setup.freelancer.clone();
    assert_eq!(setup.claim_expired_refund(1, &freelancer), Err(Error::Unauthorized));
}

#[test]
fn test_dispute_can_be_raised_after_expiry() {
    let mut setup = setup_test();
    setup.initialize_single_milestone_with_deadline(400, 5_000);
    setup.now = 1_000;
    setup.fund().unwrap();
    setup.submit_milestone(1).unwrap();

    setup.now = 6_000;
    assert_eq!(setup.is_milestone_expired(1), true);

    let client = setup.client.clone();
    setup.dispute(1, &client).unwrap();
    assert_eq!(setup.status_of(0), MilestoneStatus::Disputed);
}

#[test]
fn test_claim_refund_locked_when_disputed_after_expiry() {
    let mut setup = setup_test();
    setup.initialize_single_milestone_with_deadline(400, 5_000);
    setup.now = 1_000;
    setup.fund().unwrap();
    setup.submit_milestone(1).unwrap();

    setup.now = 6_000;
    let client = setup.client.clone();
    setup.dispute(1, &client).unwrap();
    let r = setup.claim_expired_refund(1, &client);
    assert_eq!(r, Err(Error::MilestoneDisputed));
    assert_eq!(r.unwrap_err().code(), 16);
}

#[test]
fn test_arbiter_resolves_dispute_raised_after_expiry() {
    let mut setup = setup_test();
    setup.initialize_single_milestone_with_deadline(400, 5_000);
    setup.now = 1_000;
    setup.fund().unwrap();
    setup.submit_milestone(1).unwrap();

    setup.now = 6_000;
    let freelancer = setup.freelancer.clone();
    setup.dispute(1, &freelancer).unwrap();
    setup.resolve_dispute(1, false).unwrap();

    assert_eq!(setup.status_of(0), MilestoneStatus::Refunded);
    let client = setup.client.clone();
    assert_eq!(setup.balance(&client), 1000);
    assert_eq!(setup.escrow.get_escrow_balance(), 0);
}

#[test]
fn test_multiple_milestones_expiring_simultaneously() {
    let mut setup = setup_test();
    setup
        .initialize(vec![milestone_with_deadline(1, 100, 5_000), milestone_with_deadline(2, 200, 5_000)])
        .unwrap();

    setup.now = 1_000;
    setup.fund().unwrap();
    assert_eq!(setup.escrow.get_escrow_balance(), 300);

    setup.now = 5_001;
    assert_eq!(setup.is_milestone_expired(1), true);
    assert_eq!(setup.is_milestone_expired(2), true);

    let client = setup.client.clone();
    setup.claim_expired_refund(1, &client).unwrap();
    setup.claim_expired_refund(2, &client).unwrap();

    assert_eq!(setup.status_of(0), MilestoneStatus::Refunded);
    assert_eq!(setup.status_of(1), MilestoneStatus::Refunded);
    assert_eq!(setup.escrow.get_escrow_balance(), 0);

    let contract = setup.contract.clone();
    assert_eq!(setup.balance(&client), 1000);
    assert_eq!(setup.balance(&contract), 0);
}

#[test]
fn test_auto_expire_emits_deadline_expired() {
    let mut setup = setup_test();
    setup.initialize_single_milestone_with_deadline(150, 5_000);
    setup.now = 1_000;
    setup.fund().unwrap();

    setup.now = 6_000;
    assert_eq!(setup.is_milestone_expired(1), true);
    let client = setup.client.clone();
    setup.auto_expire(&client, 1).unwrap();

    assert_eq!(setup.contract_event_count(), 2);
    assert_eq!(setup.status_of(0), MilestoneStatus::AutoExpired);

    assert_eq!(setup.balance(&client), 1000);
    assert_eq!(setup.escrow.get_escrow_balance(), 0);
}
