use vstd::prelude::*;

verus! {

/// Keys under which the contract keeps its instance-level records.
#[derive(Clone, Copy, Debug, PartialEq, Eq, Structural)]
pub enum DataKey {
    Client,
    Freelancer,
    Milestones,
    Initialized,
    ReadinessChecklist,
}

/// Which deployment steps have been carried out on this contract instance.
///
/// A fresh instance has every flag cleared; each flag is set by the
/// lifecycle operation that it names and never cleared again.
#[derive(Clone, Copy, Debug, PartialEq, Eq, Structural)]
pub struct ReadinessChecklist {
    pub caps_set: bool,
    pub governed_params_set: bool,
    pub emergency_controls_enabled: bool,
    pub initialized: bool,
}

impl ReadinessChecklist {
    /// The checklist of an instance on which nothing has been done yet.
    pub open spec fn cleared() -> ReadinessChecklist {
        ReadinessChecklist {
            caps_set: false,
            governed_params_set: false,
            emergency_controls_enabled: false,
            initialized: false,
        }
    }
}

impl Default for ReadinessChecklist {
    fn default() -> (checklist: Self)
        ensures
            checklist == ReadinessChecklist::cleared(),
    {
        ReadinessChecklist {
            caps_set: false,
            governed_params_set: false,
            emergency_controls_enabled: false,
            initialized: false,
        }
    }
}

/// Snapshot returned to deployers before production traffic is directed at
/// an instance: the stored checklist flags plus the compile-time limits.
#[derive(Clone, Copy, Debug, PartialEq, Eq, Structural)]
pub struct MainnetReadinessInfo {
    pub caps_set: bool,
    pub governed_params_set: bool,
    pub emergency_controls_enabled: bool,
    pub initialized: bool,
    pub protocol_version: u32,
    pub max_escrow_total_stroops: i128,
}

/// Lifecycle errors of the contract instance.
#[derive(Clone, Copy, Debug, PartialEq, Eq, PartialOrd, Ord, Structural)]
pub enum Error {
    AlreadyInitialized,
    NotInitialized,
    IndexOutOfBounds,
    AlreadyReleased,
    InvalidStatusTransition,
}

/// Where an escrow agreement stands in its payment lifecycle.
#[derive(Clone, Copy, Debug, PartialEq, Eq, Structural)]
pub enum ContractStatus {
    Created,
    Funded,
    Completed,
    Disputed,
}

/// The status changes that an escrow agreement may go through:
/// `Created -> Funded`, `Funded -> Completed`, `Funded -> Disputed` and
/// `Disputed -> Completed`, besides staying where it is.
pub open spec fn allowed_transition(from: ContractStatus, to: ContractStatus) -> bool {
    ||| from == to
    ||| (from == ContractStatus::Created && to == ContractStatus::Funded)
    ||| (from == ContractStatus::Funded && to == ContractStatus::Completed)
    ||| (from == ContractStatus::Funded && to == ContractStatus::Disputed)
    ||| (from == ContractStatus::Disputed && to == ContractStatus::Completed)
}

impl ContractStatus {
    /// Moves to `next` when the lifecycle allows it, and reports
    /// `InvalidStatusTransition` otherwise.
    pub fn transition_to(self, next: ContractStatus) -> (r: Result<ContractStatus, Error>)
        ensures
            allowed_transition(self, next) ==> r == Ok::<ContractStatus, Error>(next),
            !allowed_transition(self, next) ==> r == Err::<ContractStatus, Error>(
                Error::InvalidStatusTransition,
            ),
    {
        let ok = match (self, next) {
            (ContractStatus::Created, ContractStatus::Created) => true,
            (ContractStatus::Funded, ContractStatus::Funded) => true,
            (ContractStatus::Completed, ContractStatus::Completed) => true,
            (ContractStatus::Disputed, ContractStatus::Disputed) => true,
            (ContractStatus::Created, ContractStatus::Funded) => true,
            (ContractStatus::Funded, ContractStatus::Completed) => true,
            (ContractStatus::Funded, ContractStatus::Disputed) => true,
            (ContractStatus::Disputed, ContractStatus::Completed) => true,
            _ => false,
        };
        if ok {
            Ok(next)
        } else {
            Err(Error::InvalidStatusTransition)
        }
    }
}

/// One payment step of an escrow agreement: what it is worth, how much of
/// the deposit has been set aside for it, whether it has been paid out, and
/// the evidence of the work attached to it, if any.
#[derive(Clone, Debug, PartialEq, Eq)]
pub struct Milestone {
    pub amount: i128,
    pub funded: i128,
    pub released: bool,
    pub work_evidence: Option<String>,
}

/// Hard cap on what the milestones of one agreement may add up to.
pub const MAINNET_MAX_TOTAL_ESCROW_PER_CONTRACT_STROOPS: i128 = 1_000_000_000_000_000i128;

/// Version of the protocol that this build implements.
pub const MAINNET_PROTOCOL_VERSION: u32 = 1u32;

/// A participant of the protocol (client, freelancer or administrator),
/// identified by the number under which its address is registered.
#[derive(Clone, Copy, Debug, PartialEq, Eq, Structural)]
pub struct AccountId {
    pub id: u64,
}

/// Why an escrow operation was refused.
#[derive(Clone, Copy, Debug, PartialEq, Eq, Structural)]
pub enum EscrowError {
    InvalidParticipant,
    EmptyMilestones,
    InvalidMilestoneAmount,
    InvalidDepositAmount,
    InvalidMilestone,
    ContractNotFound,
    ContractPaused,
    TooManyMilestones,
    TotalCapExceeded,
    InvalidState,
    MilestoneAlreadyReleased,
    InsufficientMilestoneFunding,
    InvalidProtocolParameters,
    GovernanceAlreadyInitialized,
    GovernanceNotInitialized,
    MigrationAlreadyPending,
    NoPendingMigration,
    MigrationNotConfirmed,
    Unauthorized,
}

/// The governed validation limits.
#[derive(Clone, Copy, Debug, PartialEq, Eq, Structural)]
pub struct ProtocolParameters {
    pub min_milestone_amount: i128,
    pub max_milestones: u32,
    pub min_reputation_rating: i128,
    pub max_reputation_rating: i128,
}

impl ProtocolParameters {
    /// The limits in force before governance sets any.
    pub open spec fn defaults() -> ProtocolParameters {
        ProtocolParameters {
            min_milestone_amount: 1,
            max_milestones: 16,
            min_reputation_rating: 1,
            max_reputation_rating: 5,
        }
    }

    /// Limits that governance may put in force: a positive minimum milestone
    /// amount, room for at least one milestone, and a rating range of
    /// positive values that is not empty.
    pub open spec fn valid(self) -> bool {
        &&& self.min_milestone_amount > 0
        &&& self.max_milestones > 0
        &&& self.min_reputation_rating > 0
        &&& self.max_reputation_rating >= self.min_reputation_rating
    }

    /// Builds the limits, refusing a combination that is not valid.
    pub fn validated(
        min_milestone_amount: i128,
        max_milestones: u32,
        min_reputation_rating: i128,
        max_reputation_rating: i128,
    ) -> (r: Result<ProtocolParameters, EscrowError>)
        ensures
            ({
                let p = ProtocolParameters {
                    min_milestone_amount,
                    max_milestones,
                    min_reputation_rating,
                    max_reputation_rating,
                };
                &&& p.valid() ==> r == Ok::<ProtocolParameters, EscrowError>(p)
                &&& !p.valid() ==> r == Err::<ProtocolParameters, EscrowError>(
                    EscrowError::InvalidProtocolParameters,
                )
            }),
    {
        if min_milestone_amount <= 0 || max_milestones == 0 || min_reputation_rating <= 0
            || max_reputation_rating < min_reputation_rating {
            Err(EscrowError::InvalidProtocolParameters)
        } else {
            Ok(
                ProtocolParameters {
                    min_milestone_amount,
                    max_milestones,
                    min_reputation_rating,
                    max_reputation_rating,
                },
            )
        }
    }
}

/// A proposed hand-over of an agreement to a new client.
#[derive(Clone, Copy, Debug, PartialEq, Eq, Structural)]
pub struct PendingClientMigration {
    pub current_client: AccountId,
    pub proposed_client: AccountId,
    pub proposed_client_confirmed: bool,
}

} // verus!
