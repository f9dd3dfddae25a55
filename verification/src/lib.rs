//! Milestone-based escrow between a client, a freelancer and an arbiter.
//!
//! The library holds the escrow's rules: which calls are accepted in which
//! state, which error a refused call gets, how each accepted call changes the
//! stored state, and which token transfer and events it asks for. Host work
//! (authorization, storage, token transfers, publishing events, replacing the
//! code) is left to the caller, which applies the returned effects.
//!
//! - `types`: accounts, milestones, statuses, storage keys, errors;
//! - `state`: the stored state, its model and its invariant;
//! - `model`: what each call does, over the model;
//! - `escrow`, `queries`: the calls, each proved against the model;
//! - `call_rules`: what each call is for, in the terms of the milestone
//!   lifecycle;
//! - `laws`: properties of the escrow across all calls.

pub mod accounting;
pub mod call_rules;
mod escrow;
mod events;
pub mod laws;
pub mod model;
mod queries;
mod state;
mod types;

pub use events::{
    ContractEvent, DeadlineExpired, DeadlineExtended, DeadlineSet, DisputeRaised, DisputeResolved,
    Effects, EffectsView, EscrowCreated, EscrowFunded, MilestoneApproved, MilestoneConfirmed,
    MilestoneExpired, MilestoneSubmitted, PaymentReleased, RefundIssued, Transfer,
};
pub use state::{milestone_wf, EscrowContract, EscrowView};
pub use types::{
    is_terminal_status, AccountId, CallContext, DataKey, Error, Milestone, MilestoneStatus,
    SignedCall,
};
