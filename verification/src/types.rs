use vstd::prelude::*;
use vstd::std_specs::cmp::PartialEqSpecImpl;

verus! {

/// An account (the client, the freelancer, the arbiter, a token contract, the
/// escrow contract itself or any caller), identified by its address text.
#[derive(Debug)]
pub struct AccountId {
    pub key: String,
}

impl View for AccountId {
    type V = Seq<char>;

    open spec fn view(&self) -> Seq<char> {
        self.key@
    }
}

impl AccountId {
    pub fn new(key: String) -> (r: AccountId)
        ensures
            r.key == key,
    {
        AccountId { key }
    }

    /// A second value of the same account.
    pub fn duplicate(&self) -> (r: AccountId)
        ensures
            r == *self,
    {
        AccountId { key: self.key.clone() }
    }

    /// Whether both values name the same account.
    pub fn same_as(&self, other: &AccountId) -> (r: bool)
        ensures
            r == (self@ == other@),
    {
        self.key == other.key
    }
}

impl PartialEq for AccountId {
    fn eq(&self, other: &AccountId) -> (r: bool) {
        self.key == other.key
    }
}

impl PartialEqSpecImpl for AccountId {
    open spec fn obeys_eq_spec() -> bool {
        true
    }

    open spec fn eq_spec(&self, other: &AccountId) -> bool {
        self@ == other@
    }
}

impl Clone for AccountId {
    fn clone(&self) -> (r: AccountId)
        ensures
            r == *self,
    {
        self.duplicate()
    }
}

/// Lifecycle of a milestone.
#[derive(Clone, Copy, Debug, PartialEq, Eq, Structural)]
pub enum MilestoneStatus {
    Pending,
    Funded,
    Submitted,
    Approved,
    Released,
    Refunded,
    Disputed,
    AutoExpired,
}

impl MilestoneStatus {
    /// A milestone that has already paid out can no longer be modified.
    pub open spec fn is_terminal(self) -> bool {
        self == MilestoneStatus::Released || self == MilestoneStatus::Refunded
            || self == MilestoneStatus::AutoExpired
    }
}

/// A milestone that has already paid out can no longer be modified.
pub fn is_terminal_status(status: MilestoneStatus) -> (r: bool)
    ensures
        r == status.is_terminal(),
{
    status == MilestoneStatus::Released || status == MilestoneStatus::Refunded || status
        == MilestoneStatus::AutoExpired
}

/// One unit of work, paid out on its own.
#[derive(Debug)]
pub struct Milestone {
    /// Timestamp after which the milestone has expired; 0 means no deadline.
    pub deadline: u64,
    pub id: u32,
    pub amount: i128,
    pub status: MilestoneStatus,
    pub description: String,
    pub client_approved: bool,
    pub freelancer_approved: bool,
}

impl Milestone {
    /// A second value of the same milestone.
    pub fn duplicate(&self) -> (r: Milestone)
        ensures
            r == *self,
    {
        Milestone {
            deadline: self.deadline,
            id: self.id,
            amount: self.amount,
            status: self.status,
            description: self.description.clone(),
            client_approved: self.client_approved,
            freelancer_approved: self.freelancer_approved,
        }
    }

    /// The milestone has a deadline and `now` lies after it.
    pub open spec fn expired_at(self, now: u64) -> bool {
        self.deadline > 0 && now > self.deadline
    }
}

impl Clone for Milestone {
    fn clone(&self) -> (r: Milestone)
        ensures
            r == *self,
    {
        self.duplicate()
    }
}

/// The keys under which the escrow keeps its state in contract storage.
#[derive(Clone, Copy, Debug, PartialEq, Eq, Structural)]
pub enum DataKey {
    Client,
    Freelancer,
    Arbiter,
    Token,
    IsFunded,
    Admin,
    Version,
    Milestone(u32),
    MilestoneIds,
    EscrowBalance,
}

/// Why a call was refused.
#[derive(Clone, Copy, Debug, PartialEq, Eq, PartialOrd, Ord, Structural)]
pub enum Error {
    AlreadyInitialized,
    NotInitialized,
    AlreadyFunded,
    NotFunded,
    MilestoneNotFound,
    InvalidMilestoneStatus,
    Unauthorized,
    ZeroAmount,
    InsufficientApprovals,
    AlreadyApproved,
    DeadlineExceeded,
    AlreadyExpired,
    DeadlineNotExpired,
    InvalidDeadline,
    DeadlineAlreadySet,
    MilestoneDisputed,
}

impl Error {
    /// The numeric code under which the contract reports the error.
    pub open spec fn spec_code(self) -> u32 {
        match self {
            Error::AlreadyInitialized => 1,
            Error::NotInitialized => 2,
            Error::AlreadyFunded => 3,
            Error::NotFunded => 4,
            Error::MilestoneNotFound => 5,
            Error::InvalidMilestoneStatus => 6,
            Error::Unauthorized => 7,
            Error::ZeroAmount => 8,
            Error::InsufficientApprovals => 9,
            Error::AlreadyApproved => 10,
            Error::DeadlineExceeded => 11,
            Error::AlreadyExpired => 12,
            Error::DeadlineNotExpired => 13,
            Error::InvalidDeadline => 14,
            Error::DeadlineAlreadySet => 15,
            Error::MilestoneDisputed => 16,
        }
    }

    /// The numeric code under which the contract reports the error.
    pub fn code(&self) -> (r: u32)
        ensures
            r == self.spec_code(),
    {
        match self {
            Error::AlreadyInitialized => 1,
            Error::NotInitialized => 2,
            Error::AlreadyFunded => 3,
            Error::NotFunded => 4,
            Error::MilestoneNotFound => 5,
            Error::InvalidMilestoneStatus => 6,
            Error::Unauthorized => 7,
            Error::ZeroAmount => 8,
            Error::InsufficientApprovals => 9,
            Error::AlreadyApproved => 10,
            Error::DeadlineExceeded => 11,
            Error::AlreadyExpired => 12,
            Error::DeadlineNotExpired => 13,
            Error::InvalidDeadline => 14,
            Error::DeadlineAlreadySet => 15,
            Error::MilestoneDisputed => 16,
        }
    }
}

/// The calls that a stored party, rather than an argument, must authorize.
#[derive(Clone, Copy, Debug, PartialEq, Eq, Structural)]
pub enum SignedCall {
    Fund,
    SubmitMilestone,
    Approve,
    FreelancerConfirm,
    ResolveDispute,
}

/// What a call learns from the ledger it runs on: the escrow contract's own
/// address and the ledger's current timestamp.
pub struct CallContext {
    pub contract_address: AccountId,
    pub timestamp: u64,
}

} // verus!
