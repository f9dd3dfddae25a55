use vstd::prelude::*;

use crate::types::AccountId;

verus! {

/// The escrow was set up.
#[derive(Debug)]
pub struct EscrowCreated {
    pub contract_id: AccountId,
    pub actor: AccountId,
    pub client: AccountId,
    pub freelancer: AccountId,
    pub arbiter: AccountId,
    pub token: AccountId,
    pub milestone_count: u32,
}

/// The client paid the whole escrow in.
#[derive(Debug)]
pub struct EscrowFunded {
    pub contract_id: AccountId,
    pub actor: AccountId,
    pub amount: i128,
}

/// The freelancer submitted a milestone's work.
#[derive(Debug)]
pub struct MilestoneSubmitted {
    pub contract_id: AccountId,
    pub milestone_id: u32,
    pub actor: AccountId,
    pub amount: i128,
    pub deadline: u64,
}

/// The client approved a submitted milestone.
#[derive(Debug)]
pub struct MilestoneApproved {
    pub contract_id: AccountId,
    pub milestone_id: u32,
    pub actor: AccountId,
}

/// The freelancer confirmed an approved milestone.
#[derive(Debug)]
pub struct MilestoneConfirmed {
    pub contract_id: AccountId,
    pub milestone_id: u32,
    pub actor: AccountId,
}

/// A milestone's amount was paid to the freelancer.
#[derive(Debug)]
pub struct PaymentReleased {
    pub contract_id: AccountId,
    pub milestone_id: u32,
    pub actor: AccountId,
    pub recipient: AccountId,
    pub amount: i128,
}

/// A party opened a dispute on a milestone.
#[derive(Debug)]
pub struct DisputeRaised {
    pub contract_id: AccountId,
    pub milestone_id: u32,
    pub actor: AccountId,
}

/// A milestone's amount went back to the client.
#[derive(Debug)]
pub struct RefundIssued {
    pub contract_id: AccountId,
    pub milestone_id: u32,
    pub actor: AccountId,
    pub recipient: AccountId,
    pub amount: i128,
}

/// The arbiter settled a dispute.
#[derive(Debug)]
pub struct DisputeResolved {
    pub contract_id: AccountId,
    pub milestone_id: u32,
    pub actor: AccountId,
    pub recipient: AccountId,
    pub amount: i128,
    pub release_to_freelancer: bool,
}

/// A milestone past its deadline was expired and its amount returned to the client.
#[derive(Debug)]
pub struct MilestoneExpired {
    pub contract_id: AccountId,
    pub milestone_id: u32,
    pub actor: AccountId,
    pub recipient: AccountId,
    pub amount: i128,
}

/// A deadline was assigned to a milestone that did not have one.
#[derive(Debug)]
pub struct DeadlineSet {
    pub contract_id: AccountId,
    pub milestone_id: u32,
    pub actor: AccountId,
    pub deadline: u64,
}

/// An existing milestone deadline was pushed further into the future.
#[derive(Debug)]
pub struct DeadlineExtended {
    pub contract_id: AccountId,
    pub milestone_id: u32,
    pub actor: AccountId,
    pub old_deadline: u64,
    pub new_deadline: u64,
}

/// An expired milestone was acted upon after its deadline elapsed.
#[derive(Debug)]
pub struct DeadlineExpired {
    pub contract_id: AccountId,
    pub milestone_id: u32,
    pub actor: AccountId,
    pub deadline: u64,
}

/// An event that an accepted call publishes.
#[derive(Debug)]
pub enum ContractEvent {
    EscrowCreated(EscrowCreated),
    EscrowFunded(EscrowFunded),
    MilestoneSubmitted(MilestoneSubmitted),
    MilestoneApproved(MilestoneApproved),
    MilestoneConfirmed(MilestoneConfirmed),
    PaymentReleased(PaymentReleased),
    DisputeRaised(DisputeRaised),
    RefundIssued(RefundIssued),
    DisputeResolved(DisputeResolved),
    MilestoneExpired(MilestoneExpired),
    DeadlineSet(DeadlineSet),
    DeadlineExtended(DeadlineExtended),
    DeadlineExpired(DeadlineExpired),
}

/// A movement of escrow tokens that an accepted call asks for.
#[derive(Debug)]
pub struct Transfer {
    pub from: AccountId,
    pub to: AccountId,
    pub amount: i128,
}

/// What an accepted call asks its host to do, in this order: make the token
/// transfer, if any, then publish the events.
#[derive(Debug)]
pub struct Effects {
    pub transfer: Option<Transfer>,
    pub events: Vec<ContractEvent>,
}

#[verifier::ext_equal]
pub struct EffectsView {
    pub transfer: Option<Transfer>,
    pub events: Seq<ContractEvent>,
}

impl View for Effects {
    type V = EffectsView;

    open spec fn view(&self) -> EffectsView {
        EffectsView { transfer: self.transfer, events: self.events@ }
    }
}

impl EffectsView {
    /// Effects that move no tokens and publish one event.
    pub open spec fn event(e: ContractEvent) -> EffectsView {
        EffectsView { transfer: None, events: seq![e] }
    }

    /// Effects that move tokens and then publish the given events.
    pub open spec fn paying(t: Transfer, events: Seq<ContractEvent>) -> EffectsView {
        EffectsView { transfer: Some(t), events }
    }
}

} // verus!
