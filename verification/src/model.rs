use vstd::prelude::*;

use crate::milestones;
use crate::types::{
    AccountId, ContractStatus, EscrowError, MainnetReadinessInfo, Milestone, PendingClientMigration,
    ProtocolParameters, ReadinessChecklist, MAINNET_MAX_TOTAL_ESCROW_PER_CONTRACT_STROOPS,
    MAINNET_PROTOCOL_VERSION,
};

verus! {

/// An agreement record, with its milestones as a sequence.
pub struct ContractView {
    pub client: AccountId,
    pub freelancer: AccountId,
    pub milestones: Seq<Milestone>,
    pub total_amount: i128,
    pub total_funded: i128,
    pub total_released: i128,
    pub status: ContractStatus,
    pub pending_migration: Option<PendingClientMigration>,
}

impl ContractView {
    /// The bookkeeping of an agreement is consistent:
    /// - it has between one and `u32::MAX` milestones, each consistent;
    /// - `total_amount` is what the milestones are worth, within the cap;
    /// - `total_released` is what the released milestones are worth;
    /// - what is set aside for milestones never exceeds what was deposited,
    ///   and deposits never exceed `total_amount`;
    /// - the agreement is `Created` exactly while nothing has been deposited,
    ///   `Completed` exactly when every milestone is released, and never
    ///   `Disputed`;
    /// - client and freelancer differ, and a pending hand-over goes from the
    ///   current client to someone who is neither party.
    pub open spec fn wf(self) -> bool {
        &&& 0 < self.milestones.len() <= u32::MAX
        &&& milestones::all_milestones_wf(self.milestones)
        &&& self.total_amount == milestones::sum_of(self.milestones, milestones::by_amount())
        &&& self.total_amount <= MAINNET_MAX_TOTAL_ESCROW_PER_CONTRACT_STROOPS
        &&& self.total_released == milestones::sum_of(self.milestones, milestones::by_release())
        &&& milestones::sum_of(self.milestones, milestones::by_funding()) <= self.total_funded
        &&& 0 <= self.total_funded <= self.total_amount
        &&& (self.status == ContractStatus::Created <==> self.total_funded == 0)
        &&& (self.status == ContractStatus::Completed <==> milestones::all_released(self.milestones))
        &&& self.status != ContractStatus::Disputed
        &&& self.client != self.freelancer
        &&& (self.pending_migration matches Some(p) ==> {
            &&& p.current_client == self.client
            &&& p.proposed_client != self.client
            &&& p.proposed_client != self.freelancer
        })
    }

    /// The record of an agreement just created for `amounts`.
    pub open spec fn created(client: AccountId, freelancer: AccountId, amounts: Seq<i128>) -> ContractView {
        ContractView {
            client,
            freelancer,
            milestones: milestones::fresh_milestones(amounts),
            total_amount: milestones::amount_sum(amounts) as i128,
            total_funded: 0,
            total_released: 0,
            status: ContractStatus::Created,
            pending_migration: None,
        }
    }
}

/// The state of a contract instance, with its agreements as a sequence.
pub struct EscrowView {
    pub contracts: Seq<ContractView>,
    pub initialized: bool,
    pub checklist: ReadinessChecklist,
    pub parameters: ProtocolParameters,
    pub governance_admin: Option<AccountId>,
    pub pending_governance_admin: Option<AccountId>,
    pub emergency: bool,
    pub admin: Option<AccountId>,
}

impl EscrowView {
    /// The instance state is consistent: identifiers fit in `u32`, every
    /// agreement is consistent, the limits in force are valid, the
    /// `initialized` flag and its checklist entry agree, and an
    /// administrator is named exactly once the instance is initialized.
    pub open spec fn wf(self) -> bool {
        &&& self.contracts.len() <= u32::MAX
        &&& forall|i: int| 0 <= i < self.contracts.len() ==> (#[trigger] self.contracts[i]).wf()
        &&& self.parameters.valid()
        &&& self.initialized == self.checklist.initialized
        &&& self.initialized == (self.admin is Some)
        &&& (self.pending_governance_admin is Some ==> self.governance_admin is Some)
    }

    /// A freshly deployed instance.
    pub open spec fn fresh() -> EscrowView {
        EscrowView {
            contracts: Seq::empty(),
            initialized: false,
            checklist: ReadinessChecklist::cleared(),
            parameters: ProtocolParameters::defaults(),
            governance_admin: None,
            pending_governance_admin: None,
            emergency: false,
            admin: None,
        }
    }

    /// Why creating an agreement would be refused in this state (see
    /// `creation_error`).
    pub open spec fn create_error(
        self,
        client: AccountId,
        freelancer: AccountId,
        amounts: Seq<i128>,
    ) -> Option<EscrowError> {
        creation_error(self.emergency, self.parameters, client, freelancer, amounts)
    }
}

/// Why creating an agreement would be refused, checked in this order:
/// emergency pause, client equal to freelancer, no milestones, more
/// milestones than the governed maximum, an amount below the governed
/// minimum, amounts adding up to more than the per-agreement cap.
pub open spec fn creation_error(
    emergency: bool,
    parameters: ProtocolParameters,
    client: AccountId,
    freelancer: AccountId,
    amounts: Seq<i128>,
) -> Option<EscrowError> {
    if emergency {
        Some(EscrowError::ContractPaused)
    } else if client == freelancer {
        Some(EscrowError::InvalidParticipant)
    } else if amounts.len() == 0 {
        Some(EscrowError::EmptyMilestones)
    } else if amounts.len() > parameters.max_milestones {
        Some(EscrowError::TooManyMilestones)
    } else if milestones::some_below(amounts, parameters.min_milestone_amount) {
        Some(EscrowError::InvalidMilestoneAmount)
    } else if milestones::amount_sum(amounts) > MAINNET_MAX_TOTAL_ESCROW_PER_CONTRACT_STROOPS {
        Some(EscrowError::TotalCapExceeded)
    } else {
        None
    }
}

/// An operation on one agreement record, with the party that authorized
/// it (`caller`).
#[derive(Clone, Copy, Debug, PartialEq, Eq, Structural)]
pub enum RecordOp {
    /// Deposit `amount` into the agreement.
    Deposit { caller: AccountId, amount: i128 },
    /// Set aside `amount` of the deposits for milestone `milestone_idx`.
    Fund { caller: AccountId, milestone_idx: u32, amount: i128 },
    /// Pay out milestone `milestone_idx`.
    Release { caller: AccountId, milestone_idx: u32 },
    /// Propose to hand the agreement over to `proposed_client`.
    RequestMigration { caller: AccountId, proposed_client: AccountId },
    /// Accept the proposed hand-over.
    ConfirmMigration { caller: AccountId },
    /// Complete the confirmed hand-over.
    FinalizeMigration { caller: AccountId },
    /// Withdraw the proposed hand-over.
    CancelMigration { caller: AccountId },
}

/// The checks made before the record is looked at: the emergency pause
/// stops deposits and releases, and a deposit must be positive.
pub open spec fn precheck(emergency: bool, op: RecordOp) -> Option<EscrowError> {
    match op {
        RecordOp::Deposit { amount, .. } => if emergency {
            Some(EscrowError::ContractPaused)
        } else if amount <= 0 {
            Some(EscrowError::InvalidDepositAmount)
        } else {
            None
        },
        RecordOp::Release { .. } => if emergency {
            Some(EscrowError::ContractPaused)
        } else {
            None
        },
        _ => None,
    }
}

/// Why `op` would be refused on the stored record `record` (`None` when no
/// such agreement exists): first the checks of `precheck`, then an unknown
/// agreement, then the checks of `ContractView::op_error`.
pub open spec fn stored_op_error(emergency: bool, record: Option<ContractView>, op: RecordOp) -> Option<
    EscrowError,
> {
    match precheck(emergency, op) {
        Some(e) => Some(e),
        None => match record {
            None => Some(EscrowError::ContractNotFound),
            Some(c) => c.op_error(op),
        },
    }
}

impl ContractView {
    /// Why `op` would be refused by this record, checked in this order.
    /// - Deposit: a caller other than the client, an agreement that no
    ///   longer takes deposits (neither `Created` nor `Funded`), a deposit
    ///   that would take the agreement beyond its total.
    /// - Fund: a caller other than the client, an unknown milestone, an
    ///   amount below zero or above the milestone's worth, a milestone
    ///   already paid out, a total set aside that would exceed what was
    ///   deposited.
    /// - Release: a caller other than the client, an unknown milestone, an
    ///   agreement that is not `Funded`, a milestone already paid out, a
    ///   milestone for which less than its worth has been set aside.
    /// - RequestMigration: a caller other than the client, a hand-over
    ///   already pending, a proposed client who is already a party.
    /// - ConfirmMigration: no hand-over pending, a caller other than the
    ///   proposed client.
    /// - FinalizeMigration: no hand-over pending, a caller other than the
    ///   client, a hand-over not yet confirmed.
    /// - CancelMigration: no hand-over pending, a caller other than the
    ///   client.
    pub open spec fn op_error(self, op: RecordOp) -> Option<EscrowError> {
        match op {
            RecordOp::Deposit { caller, amount } => if caller != self.client {
                Some(EscrowError::Unauthorized)
            } else if !(self.status == ContractStatus::Created || self.status
                == ContractStatus::Funded) {
                Some(EscrowError::InvalidState)
            } else if self.total_funded + amount > self.total_amount {
                Some(EscrowError::InvalidDepositAmount)
            } else {
                None
            },
            RecordOp::Fund { caller, milestone_idx, amount } => if caller != self.client {
                Some(EscrowError::Unauthorized)
            } else if milestone_idx >= self.milestones.len() {
                Some(EscrowError::InvalidMilestone)
            } else {
                let m = self.milestones[milestone_idx as int];
                if amount < 0 || amount > m.amount {
                    Some(EscrowError::InvalidDepositAmount)
                } else if m.released {
                    Some(EscrowError::MilestoneAlreadyReleased)
                } else if milestones::sum_of(self.milestones, milestones::by_funding()) - m.funded
                    + amount > self.total_funded {
                    Some(EscrowError::InvalidDepositAmount)
                } else {
                    None
                }
            },
            RecordOp::Release { caller, milestone_idx } => if caller != self.client {
                Some(EscrowError::Unauthorized)
            } else if milestone_idx >= self.milestones.len() {
                Some(EscrowError::InvalidMilestone)
            } else if self.status != ContractStatus::Funded {
                Some(EscrowError::InvalidState)
            } else if self.milestones[milestone_idx as int].released {
                Some(EscrowError::MilestoneAlreadyReleased)
            } else if self.milestones[milestone_idx as int].funded
                < self.milestones[milestone_idx as int].amount {
                Some(EscrowError::InsufficientMilestoneFunding)
            } else {
                None
            },
            RecordOp::RequestMigration { caller, proposed_client } => if caller != self.client {
                Some(EscrowError::Unauthorized)
            } else if self.pending_migration is Some {
                Some(EscrowError::MigrationAlreadyPending)
            } else if proposed_client == self.client || proposed_client == self.freelancer {
                Some(EscrowError::InvalidParticipant)
            } else {
                None
            },
            RecordOp::ConfirmMigration { caller } => match self.pending_migration {
                None => Some(EscrowError::NoPendingMigration),
                Some(p) => if caller != p.proposed_client {
                    Some(EscrowError::Unauthorized)
                } else {
                    None
                },
            },
            RecordOp::FinalizeMigration { caller } => match self.pending_migration {
                None => Some(EscrowError::NoPendingMigration),
                Some(p) => if caller != self.client {
                    Some(EscrowError::Unauthorized)
                } else if !p.proposed_client_confirmed {
                    Some(EscrowError::MigrationNotConfirmed)
                } else {
                    None
                },
            },
            RecordOp::CancelMigration { caller } => if self.pending_migration is None {
                Some(EscrowError::NoPendingMigration)
            } else if caller != self.client {
                Some(EscrowError::Unauthorized)
            } else {
                None
            },
        }
    }

    /// The record once `op` has been carried out.
    pub open spec fn after_op(self, op: RecordOp) -> ContractView {
        match op {
            RecordOp::Deposit { amount, .. } => self.deposited(amount),
            RecordOp::Fund { milestone_idx, amount, .. } => self.with_funding(milestone_idx, amount),
            RecordOp::Release { milestone_idx, .. } => self.released(milestone_idx),
            RecordOp::RequestMigration { proposed_client, .. } => self.migration_requested(
                proposed_client,
            ),
            RecordOp::ConfirmMigration { .. } => self.migration_confirmed(),
            RecordOp::FinalizeMigration { .. } => self.migration_finalized(),
            RecordOp::CancelMigration { .. } => ContractView { pending_migration: None, ..self },
        }
    }
}

impl EscrowView {
    /// The record of agreement `contract_id`, if there is one.
    pub open spec fn record(self, contract_id: u32) -> Option<ContractView> {
        if contract_id < self.contracts.len() {
            Some(self.contracts[contract_id as int])
        } else {
            None
        }
    }

    /// Why `op` on agreement `contract_id` would be refused in this state.
    pub open spec fn record_op_error(self, contract_id: u32, op: RecordOp) -> Option<EscrowError> {
        stored_op_error(self.emergency, self.record(contract_id), op)
    }

    /// The state once `op` has been carried out on agreement `contract_id`.
    pub open spec fn after_record_op(self, contract_id: u32, op: RecordOp) -> EscrowView {
        self.with_contract(contract_id, self.contracts[contract_id as int].after_op(op))
    }

    /// Why a deposit by `caller` would be refused.
    pub open spec fn deposit_error(self, contract_id: u32, caller: AccountId, amount: i128) -> Option<
        EscrowError,
    > {
        self.record_op_error(contract_id, RecordOp::Deposit { caller, amount })
    }

    /// Why setting aside funds for a milestone would be refused.
    pub open spec fn funding_error(
        self,
        contract_id: u32,
        caller: AccountId,
        milestone_idx: u32,
        amount: i128,
    ) -> Option<EscrowError> {
        self.record_op_error(contract_id, RecordOp::Fund { caller, milestone_idx, amount })
    }

    /// Why paying out a milestone would be refused.
    pub open spec fn release_error(self, contract_id: u32, caller: AccountId, milestone_idx: u32) -> Option<
        EscrowError,
    > {
        self.record_op_error(contract_id, RecordOp::Release { caller, milestone_idx })
    }

    /// Why proposing a hand-over to `proposed_client` would be refused.
    pub open spec fn migration_request_error(
        self,
        contract_id: u32,
        caller: AccountId,
        proposed_client: AccountId,
    ) -> Option<EscrowError> {
        self.record_op_error(contract_id, RecordOp::RequestMigration { caller, proposed_client })
    }

    /// Why confirming the pending hand-over would be refused.
    pub open spec fn migration_confirm_error(self, contract_id: u32, caller: AccountId) -> Option<
        EscrowError,
    > {
        self.record_op_error(contract_id, RecordOp::ConfirmMigration { caller })
    }

    /// Why completing the pending hand-over would be refused.
    pub open spec fn migration_finalize_error(self, contract_id: u32, caller: AccountId) -> Option<
        EscrowError,
    > {
        self.record_op_error(contract_id, RecordOp::FinalizeMigration { caller })
    }

    /// Why withdrawing the pending hand-over would be refused.
    pub open spec fn migration_cancel_error(self, contract_id: u32, caller: AccountId) -> Option<
        EscrowError,
    > {
        self.record_op_error(contract_id, RecordOp::CancelMigration { caller })
    }

    /// Why reading the pending hand-over fails: an unknown agreement, or no
    /// hand-over pending.
    pub open spec fn pending_migration_error(self, contract_id: u32) -> Option<EscrowError> {
        if contract_id >= self.contracts.len() {
            Some(EscrowError::ContractNotFound)
        } else if self.contracts[contract_id as int].pending_migration is None {
            Some(EscrowError::NoPendingMigration)
        } else {
            None
        }
    }

    /// Why putting limits `p` into force would be refused: once governance
    /// is set up, a caller other than its administrator; then limits that
    /// are not valid.
    pub open spec fn parameter_update_error(self, caller: AccountId, p: ProtocolParameters) -> Option<
        EscrowError,
    > {
        if self.governance_admin matches Some(a) && caller != a {
            Some(EscrowError::Unauthorized)
        } else if !p.valid() {
            Some(EscrowError::InvalidProtocolParameters)
        } else {
            None
        }
    }

    /// Why proposing a new governance administrator would be refused:
    /// governance not set up, or a caller other than its administrator.
    pub open spec fn admin_proposal_error(self, caller: AccountId) -> Option<EscrowError> {
        match self.governance_admin {
            None => Some(EscrowError::GovernanceNotInitialized),
            Some(a) => if caller != a {
                Some(EscrowError::Unauthorized)
            } else {
                None
            },
        }
    }

    /// Why switching emergency mode on or off would be refused: once the
    /// instance is initialized, a caller other than its administrator.
    pub open spec fn emergency_control_error(self, caller: AccountId) -> Option<EscrowError> {
        if self.admin matches Some(a) && caller != a {
            Some(EscrowError::Unauthorized)
        } else {
            None
        }
    }

    /// Why accepting the governance transfer would be refused: nothing
    /// proposed, or a caller other than the proposed administrator.
    pub open spec fn admin_acceptance_error(self, caller: AccountId) -> Option<EscrowError> {
        match self.pending_governance_admin {
            None => Some(EscrowError::InvalidState),
            Some(a) => if caller != a {
                Some(EscrowError::Unauthorized)
            } else {
                None
            },
        }
    }
}

/// A deployment step that the readiness checklist records.
#[derive(Clone, Copy, Debug, PartialEq, Eq, Structural)]
pub enum ReadinessStep {
    Initialized,
    GovernedParams,
    EmergencyControls,
}

impl ReadinessStep {
    /// The checklist with this step recorded; the other flags stay as they were.
    pub open spec fn mark(self, c: ReadinessChecklist) -> ReadinessChecklist {
        match self {
            ReadinessStep::Initialized => ReadinessChecklist { initialized: true, ..c },
            ReadinessStep::GovernedParams => ReadinessChecklist { governed_params_set: true, ..c },
            ReadinessStep::EmergencyControls => ReadinessChecklist {
                emergency_controls_enabled: true,
                ..c
            },
        }
    }
}

impl EscrowView {
    /// The readiness report of this state.
    pub open spec fn readiness_info(self) -> MainnetReadinessInfo {
        MainnetReadinessInfo {
            caps_set: MAINNET_MAX_TOTAL_ESCROW_PER_CONTRACT_STROOPS > 0,
            governed_params_set: self.checklist.governed_params_set,
            emergency_controls_enabled: self.checklist.emergency_controls_enabled,
            initialized: self.checklist.initialized,
            protocol_version: MAINNET_PROTOCOL_VERSION,
            max_escrow_total_stroops: MAINNET_MAX_TOTAL_ESCROW_PER_CONTRACT_STROOPS,
        }
    }
}

impl ContractView {
    /// The record once a hand-over to `proposed_client` is proposed.
    pub open spec fn migration_requested(self, proposed_client: AccountId) -> ContractView {
        ContractView {
            pending_migration: Some(
                PendingClientMigration {
                    current_client: self.client,
                    proposed_client,
                    proposed_client_confirmed: false,
                },
            ),
            ..self
        }
    }

    /// The record once the proposed client has confirmed the hand-over.
    pub open spec fn migration_confirmed(self) -> ContractView {
        ContractView {
            pending_migration: Some(
                PendingClientMigration {
                    proposed_client_confirmed: true,
                    ..self.pending_migration->0
                },
            ),
            ..self
        }
    }

    /// The record once the hand-over is complete.
    pub open spec fn migration_finalized(self) -> ContractView {
        ContractView {
            client: self.pending_migration->0.proposed_client,
            pending_migration: None,
            ..self
        }
    }

    /// The record after a deposit of `amount`: the amount is added to what
    /// was deposited and the agreement is `Funded`.
    pub open spec fn deposited(self, amount: i128) -> ContractView {
        ContractView {
            total_funded: (self.total_funded + amount) as i128,
            status: ContractStatus::Funded,
            ..self
        }
    }

    /// The record after `amount` is set aside for milestone `idx`.
    pub open spec fn with_funding(self, idx: u32, amount: i128) -> ContractView {
        ContractView {
            milestones: self.milestones.update(
                idx as int,
                Milestone { funded: amount, ..self.milestones[idx as int] },
            ),
            ..self
        }
    }

    /// The record after milestone `idx` is paid out: the milestone is marked
    /// released, its worth is added to what was paid out, and the agreement
    /// is `Completed` once every milestone is released (still `Funded`
    /// before that).
    pub open spec fn released(self, idx: u32) -> ContractView {
        let ms = self.milestones.update(
            idx as int,
            Milestone { released: true, ..self.milestones[idx as int] },
        );
        ContractView {
            milestones: ms,
            total_released: (self.total_released + self.milestones[idx as int].amount) as i128,
            status: if milestones::all_released(ms) {
                ContractStatus::Completed
            } else {
                ContractStatus::Funded
            },
            ..self
        }
    }
}

impl EscrowView {
    /// The state once an agreement for `amounts` is created.
    pub open spec fn after_create(self, client: AccountId, freelancer: AccountId, amounts: Seq<i128>) -> EscrowView {
        EscrowView {
            contracts: self.contracts.push(ContractView::created(client, freelancer, amounts)),
            ..self
        }
    }

    /// The state with the record of agreement `contract_id` replaced by `c`.
    pub open spec fn with_contract(self, contract_id: u32, c: ContractView) -> EscrowView {
        EscrowView { contracts: self.contracts.update(contract_id as int, c), ..self }
    }

    /// The state once `amount` is deposited into agreement `contract_id`.
    pub open spec fn after_deposit(self, contract_id: u32, amount: i128) -> EscrowView {
        self.with_contract(contract_id, self.contracts[contract_id as int].deposited(amount))
    }

    /// The state once `amount` is set aside for a milestone.
    pub open spec fn after_funding(self, contract_id: u32, milestone_idx: u32, amount: i128) -> EscrowView {
        self.with_contract(
            contract_id,
            self.contracts[contract_id as int].with_funding(milestone_idx, amount),
        )
    }

    /// The state once a milestone is paid out.
    pub open spec fn after_release(self, contract_id: u32, milestone_idx: u32) -> EscrowView {
        self.with_contract(contract_id, self.contracts[contract_id as int].released(milestone_idx))
    }

    /// The state once a hand-over to `proposed_client` is proposed.
    pub open spec fn after_migration_request(self, contract_id: u32, proposed_client: AccountId) -> EscrowView {
        self.with_contract(
            contract_id,
            self.contracts[contract_id as int].migration_requested(proposed_client),
        )
    }

    /// The state once the proposed client confirmed the hand-over.
    pub open spec fn after_migration_confirm(self, contract_id: u32) -> EscrowView {
        self.with_contract(contract_id, self.contracts[contract_id as int].migration_confirmed())
    }

    /// The state once the hand-over is complete.
    pub open spec fn after_migration_finalize(self, contract_id: u32) -> EscrowView {
        self.with_contract(contract_id, self.contracts[contract_id as int].migration_finalized())
    }

    /// The state once the pending hand-over is withdrawn.
    pub open spec fn after_migration_cancel(self, contract_id: u32) -> EscrowView {
        self.with_contract(
            contract_id,
            ContractView { pending_migration: None, ..self.contracts[contract_id as int] },
        )
    }

    /// The state once the instance is initialized by `admin`.
    pub open spec fn after_initialize(self, admin: AccountId) -> EscrowView {
        EscrowView {
            initialized: true,
            admin: Some(admin),
            checklist: ReadinessStep::Initialized.mark(self.checklist),
            ..self
        }
    }

    /// The state once governance is set up by `admin` with limits `p`.
    pub open spec fn after_governance_setup(self, admin: AccountId, p: ProtocolParameters) -> EscrowView {
        EscrowView {
            governance_admin: Some(admin),
            parameters: p,
            checklist: ReadinessStep::GovernedParams.mark(self.checklist),
            ..self
        }
    }

    /// The state once `new_admin` is proposed as governance administrator.
    pub open spec fn after_admin_proposal(self, new_admin: AccountId) -> EscrowView {
        EscrowView { pending_governance_admin: Some(new_admin), ..self }
    }

    /// The state once the proposed governance administrator has taken over.
    pub open spec fn after_admin_acceptance(self) -> EscrowView {
        EscrowView {
            governance_admin: self.pending_governance_admin,
            pending_governance_admin: None,
            ..self
        }
    }

    /// The state once limits `p` are put into force.
    pub open spec fn after_parameter_update(self, p: ProtocolParameters) -> EscrowView {
        EscrowView {
            parameters: p,
            checklist: ReadinessStep::GovernedParams.mark(self.checklist),
            ..self
        }
    }

    /// The state once emergency mode is switched on (`on`) or resolved.
    pub open spec fn after_emergency(self, on: bool) -> EscrowView {
        EscrowView {
            emergency: on,
            checklist: ReadinessStep::EmergencyControls.mark(self.checklist),
            ..self
        }
    }
}

impl ContractView {
    /// A record created for amounts that pass the checks of `create_error`
    /// is consistent.
    pub proof fn lemma_created_wf(
        client: AccountId,
        freelancer: AccountId,
        amounts: Seq<i128>,
        p: ProtocolParameters,
    )
        requires
            p.valid(),
            client != freelancer,
            0 < amounts.len() <= p.max_milestones,
            !milestones::some_below(amounts, p.min_milestone_amount),
            milestones::amount_sum(amounts) <= MAINNET_MAX_TOTAL_ESCROW_PER_CONTRACT_STROOPS,
        ensures
            ContractView::created(client, freelancer, amounts).wf(),
    {
        let c = ContractView::created(client, freelancer, amounts);
        let ms = c.milestones;
        milestones::lemma_fresh_milestones_sum(amounts);
        assert forall|j: int| 0 <= j < ms.len() implies milestones::milestone_wf(#[trigger] ms[j]) by {
            assert(amounts[j] >= p.min_milestone_amount);
        }
        assert forall|j: int| 0 <= j < ms.len() implies milestones::by_funding()(#[trigger] ms[j]) == 0 by {}
        assert forall|j: int| 0 <= j < ms.len() implies milestones::by_release()(#[trigger] ms[j]) == 0 by {}
        milestones::lemma_sum_of_zero(ms, milestones::by_funding());
        milestones::lemma_sum_of_zero(ms, milestones::by_release());
        assert forall|j: int| 0 <= j < ms.len() implies milestones::by_amount()(#[trigger] ms[j]) >= 0 by {}
        milestones::lemma_sum_of_nonneg(ms, milestones::by_amount());
        assert(!ms[0].released);
    }

    /// A deposit that passes the checks of `deposit_error` keeps the record
    /// consistent.
    pub proof fn lemma_deposited_wf(self, amount: i128)
        requires
            self.wf(),
            amount > 0,
            self.status == ContractStatus::Created || self.status == ContractStatus::Funded,
            self.total_funded + amount <= self.total_amount,
        ensures
            self.deposited(amount).wf(),
    {
        if milestones::all_released(self.milestones) {
            assert(milestones::all_released(self.deposited(amount).milestones));
        }
    }

    /// Setting aside funds as `funding_error` allows keeps the record
    /// consistent.
    pub proof fn lemma_funding_wf(self, idx: u32, amount: i128)
        requires
            self.wf(),
            idx < self.milestones.len(),
            0 <= amount <= self.milestones[idx as int].amount,
            !self.milestones[idx as int].released,
            milestones::sum_of(self.milestones, milestones::by_funding())
                - self.milestones[idx as int].funded + amount <= self.total_funded,
        ensures
            self.with_funding(idx, amount).wf(),
    {
        let j = idx as int;
        let c = self;
        let new_m = Milestone { funded: amount, ..c.milestones[j] };
        let ms = c.milestones.update(j, new_m);
        milestones::lemma_sum_of_update(c.milestones, milestones::by_funding(), j, new_m);
        milestones::lemma_sum_of_update(c.milestones, milestones::by_amount(), j, new_m);
        milestones::lemma_sum_of_update(c.milestones, milestones::by_release(), j, new_m);
        assert forall|k: int| 0 <= k < ms.len() implies milestones::milestone_wf(#[trigger] ms[k]) by {
            if k != j {
                assert(ms[k] == c.milestones[k]);
            }
        }
        assert(milestones::all_released(ms) == milestones::all_released(c.milestones)) by {
            if milestones::all_released(ms) {
                assert forall|k: int| 0 <= k < c.milestones.len() implies (#[trigger] c.milestones[k]).released by {
                    assert(ms[k].released == c.milestones[k].released);
                }
            }
            if milestones::all_released(c.milestones) {
                assert forall|k: int| 0 <= k < ms.len() implies (#[trigger] ms[k]).released by {
                    assert(ms[k].released == c.milestones[k].released);
                }
            }
        }
    }

    /// A release that passes the checks of `release_error` keeps the record
    /// consistent; what has been paid out stays within the agreement total.
    pub proof fn lemma_released_wf(self, idx: u32)
        requires
            self.wf(),
            idx < self.milestones.len(),
            self.status == ContractStatus::Funded,
            !self.milestones[idx as int].released,
            self.milestones[idx as int].funded >= self.milestones[idx as int].amount,
        ensures
            self.total_released + self.milestones[idx as int].amount <= self.total_amount,
            self.released(idx).wf(),
    {
        let j = idx as int;
        let c = self;
        let new_m = Milestone { released: true, ..c.milestones[j] };
        let ms = c.milestones.update(j, new_m);
        assert(milestones::milestone_wf(c.milestones[j]));
        milestones::lemma_sum_of_update(c.milestones, milestones::by_funding(), j, new_m);
        milestones::lemma_sum_of_update(c.milestones, milestones::by_amount(), j, new_m);
        milestones::lemma_sum_of_update(c.milestones, milestones::by_release(), j, new_m);
        assert forall|k: int| 0 <= k < ms.len() implies milestones::milestone_wf(#[trigger] ms[k]) by {
            if k != j {
                assert(ms[k] == c.milestones[k]);
            }
        }
        assert forall|k: int| 0 <= k < ms.len() implies milestones::by_release()(#[trigger] ms[k])
            <= milestones::by_amount()(ms[k]) by {
            assert(milestones::milestone_wf(ms[k]));
        }
        milestones::lemma_sum_of_le(ms, milestones::by_release(), milestones::by_amount());
    }
}

impl ContractView {
    /// Carrying out an operation that the checks of `stored_op_error` allow
    /// keeps the record consistent.
    pub proof fn lemma_op_keeps_wf(self, emergency: bool, op: RecordOp)
        requires
            self.wf(),
            stored_op_error(emergency, Some(self), op) is None,
        ensures
            self.after_op(op).wf(),
    {
        match op {
            RecordOp::Deposit { amount, .. } => self.lemma_deposited_wf(amount),
            RecordOp::Fund { milestone_idx, amount, .. } => self.lemma_funding_wf(milestone_idx, amount),
            RecordOp::Release { milestone_idx, .. } => self.lemma_released_wf(milestone_idx),
            _ => {},
        }
    }
}

impl EscrowView {
    /// Replacing a record by a consistent one keeps the state consistent.
    pub proof fn lemma_with_contract_wf(self, contract_id: u32, c: ContractView)
        requires
            self.wf(),
            contract_id < self.contracts.len(),
            c.wf(),
        ensures
            self.with_contract(contract_id, c).wf(),
    {
        let n = self.with_contract(contract_id, c);
        assert forall|i: int| 0 <= i < n.contracts.len() implies (#[trigger] n.contracts[i]).wf() by {
            if i != contract_id {
                assert(n.contracts[i] == self.contracts[i]);
            }
        }
    }
}

/// The state-changing operations of the contract, with their arguments.
pub enum Operation {
    CreateContract { client: AccountId, freelancer: AccountId, amounts: Seq<i128> },
    OnRecord { contract_id: u32, op: RecordOp },
    Initialize { admin: AccountId },
    InitializeProtocolGovernance { admin: AccountId, parameters: ProtocolParameters },
    UpdateProtocolParameters { caller: AccountId, parameters: ProtocolParameters },
    ProposeGovernanceAdmin { caller: AccountId, new_admin: AccountId },
    AcceptGovernanceAdmin { caller: AccountId },
    ActivateEmergencyPause { caller: AccountId },
    ResolveEmergency { caller: AccountId },
}

impl EscrowView {
    /// Whether the contract carries out `op` in this state rather than
    /// refusing it.
    pub open spec fn accepts(self, op: Operation) -> bool {
        match op {
            Operation::CreateContract { client, freelancer, amounts } => self.create_error(
                client,
                freelancer,
                amounts,
            ) is None && self.contracts.len() < u32::MAX,
            Operation::OnRecord { contract_id, op } => self.record_op_error(contract_id, op) is None,
            Operation::Initialize { admin } => !self.initialized,
            Operation::InitializeProtocolGovernance { admin, parameters } =>
                self.governance_admin is None && parameters.valid(),
            Operation::UpdateProtocolParameters { caller, parameters } =>
                self.parameter_update_error(caller, parameters) is None,
            Operation::ProposeGovernanceAdmin { caller, new_admin } => self.admin_proposal_error(
                caller,
            ) is None,
            Operation::AcceptGovernanceAdmin { caller } => self.admin_acceptance_error(caller) is None,
            Operation::ActivateEmergencyPause { caller } => self.emergency_control_error(caller) is None,
            Operation::ResolveEmergency { caller } => self.emergency_control_error(caller) is None,
        }
    }

    /// The state once `op` has been carried out.
    pub open spec fn apply(self, op: Operation) -> EscrowView {
        match op {
            Operation::CreateContract { client, freelancer, amounts } => self.after_create(
                client,
                freelancer,
                amounts,
            ),
            Operation::OnRecord { contract_id, op } => self.after_record_op(contract_id, op),
            Operation::Initialize { admin } => self.after_initialize(admin),
            Operation::InitializeProtocolGovernance { admin, parameters } =>
                self.after_governance_setup(admin, parameters),
            Operation::UpdateProtocolParameters { caller, parameters } => self.after_parameter_update(
                parameters,
            ),
            Operation::ProposeGovernanceAdmin { caller, new_admin } => self.after_admin_proposal(
                new_admin,
            ),
            Operation::AcceptGovernanceAdmin { caller } => self.after_admin_acceptance(),
            Operation::ActivateEmergencyPause { caller } => self.after_emergency(true),
            Operation::ResolveEmergency { caller } => self.after_emergency(false),
        }
    }
}

} // verus!
