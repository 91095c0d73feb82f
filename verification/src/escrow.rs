use vstd::prelude::*;

use crate::milestones;
use crate::model::{
    creation_error, precheck, stored_op_error, ContractView, EscrowView, ReadinessStep, RecordOp,
};
use crate::types::{
    AccountId, ContractStatus, Error, EscrowError, MainnetReadinessInfo, Milestone,
    PendingClientMigration, ProtocolParameters, ReadinessChecklist,
    MAINNET_MAX_TOTAL_ESCROW_PER_CONTRACT_STROOPS, MAINNET_PROTOCOL_VERSION,
};

verus! {

/// The stored record of one escrow agreement.
pub struct ContractData {
    pub client: AccountId,
    pub freelancer: AccountId,
    pub milestones: Vec<Milestone>,
    pub total_amount: i128,
    pub total_funded: i128,
    pub total_released: i128,
    pub status: ContractStatus,
    pub pending_migration: Option<PendingClientMigration>,
}

impl View for ContractData {
    type V = ContractView;

    open spec fn view(&self) -> ContractView {
        ContractView {
            client: self.client,
            freelancer: self.freelancer,
            milestones: self.milestones@,
            total_amount: self.total_amount,
            total_funded: self.total_funded,
            total_released: self.total_released,
            status: self.status,
            pending_migration: self.pending_migration,
        }
    }
}

impl ContractData {
    /// Whether this record's bookkeeping is consistent (see `ContractView::wf`).
    pub fn is_consistent(&self) -> (r: bool)
        ensures
            r == self@.wf(),
    {
        let n = self.milestones.len();
        if n == 0 || n > 4294967295usize {
            return false;
        }
        if !milestones::milestones_consistent(&self.milestones) {
            return false;
        }
        let worth = match milestones::capped_worth(&self.milestones) {
            Some(t) => t,
            None => {
                return false;
            },
        };
        if worth != self.total_amount {
            return false;
        }
        if milestones::released_total(&self.milestones) != self.total_released {
            return false;
        }
        if milestones::allocated_total(&self.milestones) > self.total_funded {
            return false;
        }
        if !(0 <= self.total_funded && self.total_funded <= self.total_amount) {
            return false;
        }
        if (self.status == ContractStatus::Created) != (self.total_funded == 0) {
            return false;
        }
        if (self.status == ContractStatus::Completed) != milestones::every_milestone_released(
            &self.milestones,
        ) {
            return false;
        }
        if self.status == ContractStatus::Disputed || self.client == self.freelancer {
            return false;
        }
        match self.pending_migration {
            Some(p) => p.current_client == self.client && p.proposed_client != self.client
                && p.proposed_client != self.freelancer,
            None => true,
        }
    }
}

/// The view of a record that may be missing.
pub open spec fn stored_view(record: &Option<ContractData>) -> Option<ContractView> {
    match record {
        Some(c) => Some(c@),
        None => None,
    }
}

/// The checks made before a record is looked at (see `precheck`).
pub fn precheck_op(emergency: bool, op: RecordOp) -> (r: Option<EscrowError>)
    ensures
        r == precheck(emergency, op),
{
    match op {
        RecordOp::Deposit { amount, .. } => if emergency {
            Some(EscrowError::ContractPaused)
        } else if amount <= 0 {
            Some(EscrowError::InvalidDepositAmount)
        } else {
            None
        },
        RecordOp::Release { .. } => if emergency {
            Some(EscrowError::ContractPaused)
        } else {
            None
        },
        _ => None,
    }
}

/// Carries out `op` on a stored record (`None` when no such agreement was
/// found) and returns the record to store back, or why `op` is refused.
pub fn apply_to_stored(emergency: bool, record: Option<ContractData>, op: RecordOp) -> (r: Result<
    ContractData,
    EscrowError,
>)
    requires
        record matches Some(c) ==> c@.wf(),
    ensures
        match r {
            Ok(c) => {
                &&& stored_op_error(emergency, stored_view(&record), op) is None
                &&& c@ == stored_view(&record)->0.after_op(op)
                &&& c@.wf()
            },
            Err(e) => stored_op_error(emergency, stored_view(&record), op) == Some(e),
        },
{
    if let Some(e) = precheck_op(emergency, op) {
        return Err(e);
    }
    match record {
        None => Err(EscrowError::ContractNotFound),
        Some(c) => {
            let mut c = c;
            match c.apply_op(emergency, op) {
                Ok(()) => Ok(c),
                Err(e) => Err(e),
            }
        },
    }
}

impl ContractData {
    /// A new agreement record between `client` and `freelancer`, with one
    /// milestone per amount, checked against the emergency switch and the
    /// limits in force; or why it is refused.
    pub fn create(
        emergency: bool,
        parameters: ProtocolParameters,
        client: AccountId,
        freelancer: AccountId,
        milestones: &Vec<i128>,
    ) -> (r: Result<ContractData, EscrowError>)
        requires
            parameters.valid(),
        ensures
            match r {
                Ok(c) => {
                    &&& creation_error(emergency, parameters, client, freelancer, milestones@) is None
                    &&& c@ == ContractView::created(client, freelancer, milestones@)
                    &&& c@.wf()
                },
                Err(e) => creation_error(emergency, parameters, client, freelancer, milestones@)
                    == Some(e),
            },
    {
        if emergency {
            return Err(EscrowError::ContractPaused);
        }
        if client == freelancer {
            return Err(EscrowError::InvalidParticipant);
        }
        if milestones.len() == 0 {
            return Err(EscrowError::EmptyMilestones);
        }
        if milestones.len() > parameters.max_milestones as usize {
            return Err(EscrowError::TooManyMilestones);
        }
        if milestones::has_amount_below(milestones, parameters.min_milestone_amount) {
            return Err(EscrowError::InvalidMilestoneAmount);
        }
        let total = match milestones::capped_total(milestones) {
            Some(t) => t,
            None => {
                return Err(EscrowError::TotalCapExceeded);
            },
        };
        let list = milestones::fresh_milestone_list(milestones);
        let record = ContractData {
            client,
            freelancer,
            milestones: list,
            total_amount: total,
            total_funded: 0,
            total_released: 0,
            status: ContractStatus::Created,
            pending_migration: None,
        };
        proof {
            milestones::lemma_fresh_milestones_sum(milestones@);
            ContractView::lemma_created_wf(client, freelancer, milestones@, parameters);
            assert(record@ == ContractView::created(client, freelancer, milestones@));
        }
        Ok(record)
    }

    /// What has been set aside for milestone `milestone_idx`; nothing for
    /// an unknown milestone.
    pub fn funded_for(&self, milestone_idx: u32) -> (r: i128)
        ensures
            milestone_idx < self@.milestones.len() ==> r == self@.milestones[milestone_idx as int].funded,
            milestone_idx >= self@.milestones.len() ==> r == 0,
    {
        let j = milestone_idx as usize;
        if j >= self.milestones.len() {
            0
        } else {
            self.milestones[j].funded
        }
    }

    /// The pending hand-over, or `NoPendingMigration`.
    pub fn pending_hand_over(&self) -> (r: Result<PendingClientMigration, EscrowError>)
        ensures
            match self@.pending_migration {
                Some(p) => r == Ok::<PendingClientMigration, EscrowError>(p),
                None => r == Err::<PendingClientMigration, EscrowError>(EscrowError::NoPendingMigration),
            },
    {
        match self.pending_migration {
            Some(p) => Ok(p),
            None => Err(EscrowError::NoPendingMigration),
        }
    }

    /// Carries out `op` on this record, or leaves it unchanged and says why
    /// `op` is refused.
    pub fn apply_op(&mut self, emergency: bool, op: RecordOp) -> (r: Result<(), EscrowError>)
        requires
            old(self)@.wf(),
        ensures
            final(self)@.wf(),
            match r {
                Ok(_) => {
                    &&& stored_op_error(emergency, Some(old(self)@), op) is None
                    &&& final(self)@ == old(self)@.after_op(op)
                },
                Err(e) => {
                    &&& stored_op_error(emergency, Some(old(self)@), op) == Some(e)
                    &&& final(self)@ == old(self)@
                },
            },
    {
        if let Some(e) = precheck_op(emergency, op) {
            return Err(e);
        }
        let r = match op {
            RecordOp::Deposit { caller, amount } => self.deposit(caller, amount),
            RecordOp::Fund { caller, milestone_idx, amount } => self.fund(caller, milestone_idx, amount),
            RecordOp::Release { caller, milestone_idx } => self.release(caller, milestone_idx),
            RecordOp::RequestMigration { caller, proposed_client } => self.request_migration(
                caller,
                proposed_client,
            ),
            RecordOp::ConfirmMigration { caller } => self.confirm_migration(caller),
            RecordOp::FinalizeMigration { caller } => self.finalize_migration(caller),
            RecordOp::CancelMigration { caller } => self.cancel_migration(caller),
        };
        proof {
            if r is Ok {
                old(self)@.lemma_op_keeps_wf(emergency, op);
            }
        }
        r
    }

    fn deposit(&mut self, caller: AccountId, amount: i128) -> (r: Result<(), EscrowError>)
        requires
            old(self)@.wf(),
            amount > 0,
        ensures
            match r {
                Ok(_) => {
                    &&& old(self)@.op_error(RecordOp::Deposit { caller, amount }) is None
                    &&& final(self)@ == old(self)@.deposited(amount)
                },
                Err(e) => {
                    &&& old(self)@.op_error(RecordOp::Deposit { caller, amount }) == Some(e)
                    &&& final(self)@ == old(self)@
                },
            },
    {
        if caller != self.client {
            return Err(EscrowError::Unauthorized);
        }
        if !(self.status == ContractStatus::Created || self.status == ContractStatus::Funded) {
            return Err(EscrowError::InvalidState);
        }
        if amount > self.total_amount - self.total_funded {
            return Err(EscrowError::InvalidDepositAmount);
        }
        self.total_funded = self.total_funded + amount;
        self.status = ContractStatus::Funded;
        Ok(())
    }

    fn fund(&mut self, caller: AccountId, milestone_idx: u32, amount: i128) -> (r: Result<(), EscrowError>)
        requires
            old(self)@.wf(),
        ensures
            match r {
                Ok(_) => {
                    &&& old(self)@.op_error(RecordOp::Fund { caller, milestone_idx, amount }) is None
                    &&& final(self)@ == old(self)@.with_funding(milestone_idx, amount)
                },
                Err(e) => {
                    &&& old(self)@.op_error(RecordOp::Fund { caller, milestone_idx, amount }) == Some(e)
                    &&& final(self)@ == old(self)@
                },
            },
    {
        if caller != self.client {
            return Err(EscrowError::Unauthorized);
        }
        let ghost c = old(self)@;
        let j = milestone_idx as usize;
        if j >= self.milestones.len() {
            return Err(EscrowError::InvalidMilestone);
        }
        let worth = self.milestones[j].amount;
        let funded = self.milestones[j].funded;
        proof {
            assert(milestones::milestone_wf(c.milestones[j as int]));
        }
        if amount < 0 || amount > worth {
            return Err(EscrowError::InvalidDepositAmount);
        }
        if self.milestones[j].released {
            return Err(EscrowError::MilestoneAlreadyReleased);
        }
        let allocated = milestones::allocated_total(&self.milestones);
        if amount - funded > self.total_funded - allocated {
            return Err(EscrowError::InvalidDepositAmount);
        }
        self.milestones[j].funded = amount;
        proof {
            assert(self@ =~= c.with_funding(milestone_idx, amount));
        }
        Ok(())
    }

    fn release(&mut self, caller: AccountId, milestone_idx: u32) -> (r: Result<(), EscrowError>)
        requires
            old(self)@.wf(),
        ensures
            match r {
                Ok(_) => {
                    &&& old(self)@.op_error(RecordOp::Release { caller, milestone_idx }) is None
                    &&& final(self)@ == old(self)@.released(milestone_idx)
                },
                Err(e) => {
                    &&& old(self)@.op_error(RecordOp::Release { caller, milestone_idx }) == Some(e)
                    &&& final(self)@ == old(self)@
                },
            },
    {
        if caller != self.client {
            return Err(EscrowError::Unauthorized);
        }
        let ghost c = old(self)@;
        let j = milestone_idx as usize;
        if j >= self.milestones.len() {
            return Err(EscrowError::InvalidMilestone);
        }
        if self.status != ContractStatus::Funded {
            return Err(EscrowError::InvalidState);
        }
        if self.milestones[j].released {
            return Err(EscrowError::MilestoneAlreadyReleased);
        }
        let worth = self.milestones[j].amount;
        if self.milestones[j].funded < worth {
            return Err(EscrowError::InsufficientMilestoneFunding);
        }
        proof {
            c.lemma_released_wf(milestone_idx);
        }
        let released_before = self.total_released;
        self.milestones[j].released = true;
        self.total_released = released_before + worth;
        if milestones::every_milestone_released(&self.milestones) {
            self.status = ContractStatus::Completed;
        }
        proof {
            assert(self@ =~= c.released(milestone_idx));
        }
        Ok(())
    }

    fn request_migration(&mut self, caller: AccountId, proposed_client: AccountId) -> (r: Result<
        (),
        EscrowError,
    >)
        ensures
            match r {
                Ok(_) => {
                    &&& old(self)@.op_error(RecordOp::RequestMigration { caller, proposed_client }) is None
                    &&& final(self)@ == old(self)@.migration_requested(proposed_client)
                },
                Err(e) => {
                    &&& old(self)@.op_error(RecordOp::RequestMigration { caller, proposed_client })
                        == Some(e)
                    &&& final(self)@ == old(self)@
                },
            },
    {
        if caller != self.client {
            return Err(EscrowError::Unauthorized);
        }
        if self.pending_migration.is_some() {
            return Err(EscrowError::MigrationAlreadyPending);
        }
        if proposed_client == self.client || proposed_client == self.freelancer {
            return Err(EscrowError::InvalidParticipant);
        }
        self.pending_migration = Some(
            PendingClientMigration {
                current_client: self.client,
                proposed_client,
                proposed_client_confirmed: false,
            },
        );
        Ok(())
    }

    fn confirm_migration(&mut self, caller: AccountId) -> (r: Result<(), EscrowError>)
        ensures
            match r {
                Ok(_) => {
                    &&& old(self)@.op_error(RecordOp::ConfirmMigration { caller }) is None
                    &&& final(self)@ == old(self)@.migration_confirmed()
                },
                Err(e) => {
                    &&& old(self)@.op_error(RecordOp::ConfirmMigration { caller }) == Some(e)
                    &&& final(self)@ == old(self)@
                },
            },
    {
        match self.pending_migration {
            None => Err(EscrowError::NoPendingMigration),
            Some(p) => {
                if caller != p.proposed_client {
                    return Err(EscrowError::Unauthorized);
                }
                self.pending_migration = Some(
                    PendingClientMigration { proposed_client_confirmed: true, ..p },
                );
                Ok(())
            },
        }
    }

    fn finalize_migration(&mut self, caller: AccountId) -> (r: Result<(), EscrowError>)
        ensures
            match r {
                Ok(_) => {
                    &&& old(self)@.op_error(RecordOp::FinalizeMigration { caller }) is None
                    &&& final(self)@ == old(self)@.migration_finalized()
                },
                Err(e) => {
                    &&& old(self)@.op_error(RecordOp::FinalizeMigration { caller }) == Some(e)
                    &&& final(self)@ == old(self)@
                },
            },
    {
        match self.pending_migration {
            None => Err(EscrowError::NoPendingMigration),
            Some(p) => {
                if caller != self.client {
                    return Err(EscrowError::Unauthorized);
                }
                if !p.proposed_client_confirmed {
                    return Err(EscrowError::MigrationNotConfirmed);
                }
                self.client = p.proposed_client;
                self.pending_migration = None;
                Ok(())
            },
        }
    }

    fn cancel_migration(&mut self, caller: AccountId) -> (r: Result<(), EscrowError>)
        ensures
            match r {
                Ok(_) => {
                    &&& old(self)@.op_error(RecordOp::CancelMigration { caller }) is None
                    &&& final(self)@ == (ContractView { pending_migration: None, ..old(self)@ })
                },
                Err(e) => {
                    &&& old(self)@.op_error(RecordOp::CancelMigration { caller }) == Some(e)
                    &&& final(self)@ == old(self)@
                },
            },
    {
        if self.pending_migration.is_none() {
            return Err(EscrowError::NoPendingMigration);
        }
        if caller != self.client {
            return Err(EscrowError::Unauthorized);
        }
        self.pending_migration = None;
        Ok(())
    }
}

/// The parts of an instance's state, as they are kept in storage.
pub struct EscrowState {
    pub contracts: Vec<ContractData>,
    pub initialized: bool,
    pub checklist: ReadinessChecklist,
    pub parameters: ProtocolParameters,
    pub governance_admin: Option<AccountId>,
    pub pending_governance_admin: Option<AccountId>,
    pub emergency: bool,
    pub admin: Option<AccountId>,
}

impl EscrowState {
    /// The instance state that these parts describe.
    pub open spec fn view_of(&self) -> EscrowView {
        EscrowView {
            contracts: self.contracts@.map_values(|c: ContractData| c@),
            initialized: self.initialized,
            checklist: self.checklist,
            parameters: self.parameters,
            governance_admin: self.governance_admin,
            pending_governance_admin: self.pending_governance_admin,
            emergency: self.emergency,
            admin: self.admin,
        }
    }
}

/// All the state of one escrow contract instance: its agreements (the
/// identifier of an agreement is its position), the lifecycle flags, the
/// governed limits and the emergency switch.
pub struct Escrow {
    contracts: Vec<ContractData>,
    initialized: bool,
    checklist: ReadinessChecklist,
    parameters: ProtocolParameters,
    governance_admin: Option<AccountId>,
    pending_governance_admin: Option<AccountId>,
    emergency: bool,
    admin: Option<AccountId>,
}

impl View for Escrow {
    type V = EscrowView;

    closed spec fn view(&self) -> EscrowView {
        EscrowView {
            contracts: self.contracts@.map_values(|c: ContractData| c@),
            initialized: self.initialized,
            checklist: self.checklist,
            parameters: self.parameters,
            governance_admin: self.governance_admin,
            pending_governance_admin: self.pending_governance_admin,
            emergency: self.emergency,
            admin: self.admin,
        }
    }
}

impl Escrow {
    /// A freshly deployed instance: no agreements, nothing initialized,
    /// default limits, no emergency.
    pub fn new() -> (s: Escrow)
        ensures
            s@ == EscrowView::fresh(),
            s@.wf(),
    {
        let s = Escrow {
            contracts: Vec::new(),
            initialized: false,
            checklist: ReadinessChecklist::default(),
            parameters: ProtocolParameters {
                min_milestone_amount: 1,
                max_milestones: 16,
                min_reputation_rating: 1,
                max_reputation_rating: 5,
            },
            governance_admin: None,
            pending_governance_admin: None,
            emergency: false,
            admin: None,
        };
        assert(s@.contracts =~= Seq::<ContractView>::empty());
        s
    }

    /// Rebuilds an instance from stored parts, provided they are
    /// consistent; `None` when they are not.
    pub fn from_state(state: EscrowState) -> (r: Option<Escrow>)
        ensures
            r is Some <==> state.view_of().wf(),
            r matches Some(e) ==> e@ == state.view_of(),
    {
        let ghost v = state.view_of();
        let n = state.contracts.len();
        if n > 4294967295usize {
            return None;
        }
        let p = state.parameters;
        if !(p.min_milestone_amount > 0 && p.max_milestones > 0 && p.min_reputation_rating > 0
            && p.max_reputation_rating >= p.min_reputation_rating) {
            return None;
        }
        if state.initialized != state.checklist.initialized {
            return None;
        }
        if state.initialized != state.admin.is_some() {
            return None;
        }
        if state.pending_governance_admin.is_some() && state.governance_admin.is_none() {
            return None;
        }
        let mut i: usize = 0;
        while i < n
            invariant
                n == state.contracts@.len(),
                v == state.view_of(),
                i <= n,
                forall|j: int| 0 <= j < i ==> (#[trigger] v.contracts[j]).wf(),
            decreases n - i,
        {
            if !state.contracts[i].is_consistent() {
                assert(!v.contracts[i as int].wf());
                return None;
            }
            i = i + 1;
        }
        let e = Escrow {
            contracts: state.contracts,
            initialized: state.initialized,
            checklist: state.checklist,
            parameters: state.parameters,
            governance_admin: state.governance_admin,
            pending_governance_admin: state.pending_governance_admin,
            emergency: state.emergency,
            admin: state.admin,
        };
        Some(e)
    }

    /// The parts of this instance's state, to be kept in storage.
    pub fn into_state(self) -> (state: EscrowState)
        ensures
            state.view_of() == self@,
    {
        EscrowState {
            contracts: self.contracts,
            initialized: self.initialized,
            checklist: self.checklist,
            parameters: self.parameters,
            governance_admin: self.governance_admin,
            pending_governance_admin: self.pending_governance_admin,
            emergency: self.emergency,
            admin: self.admin,
        }
    }

    /// Greets back: returns what it was given.
    pub fn hello<T>(to: T) -> (r: T)
        ensures
            r == to,
    {
        to
    }

    /// Creates an agreement between `client` and `freelancer` with one
    /// milestone per amount, and returns its identifier, which is the number
    /// of agreements created before it.
    pub fn create_contract(
        &mut self,
        client: AccountId,
        freelancer: AccountId,
        milestones: &Vec<i128>,
    ) -> (r: Result<u32, EscrowError>)
        requires
            old(self)@.wf(),
            old(self)@.contracts.len() < u32::MAX,
        ensures
            final(self)@.wf(),
            match r {
                Ok(id) => {
                    &&& old(self)@.create_error(client, freelancer, milestones@) is None
                    &&& id == old(self)@.contracts.len()
                    &&& final(self)@ == old(self)@.after_create(client, freelancer, milestones@)
                },
                Err(e) => {
                    &&& old(self)@.create_error(client, freelancer, milestones@) == Some(e)
                    &&& final(self)@ == old(self)@
                },
            },
    {
        let record = match ContractData::create(
            self.emergency,
            self.parameters,
            client,
            freelancer,
            milestones,
        ) {
            Ok(c) => c,
            Err(e) => {
                return Err(e);
            },
        };
        let id = self.contracts.len() as u32;
        self.contracts.push(record);
        proof {
            assert(self@.contracts =~= old(self)@.contracts.push(
                ContractView::created(client, freelancer, milestones@),
            ));
        }
        Ok(id)
    }

    /// The record of agreement `contract_id`.
    pub fn get_contract(&self, contract_id: u32) -> (r: Result<&ContractData, EscrowError>)
        ensures
            contract_id < self@.contracts.len() ==> (r matches Ok(c) && c@ == self@.contracts[contract_id as int]),
            contract_id >= self@.contracts.len() ==> r == Err::<&ContractData, EscrowError>(
                EscrowError::ContractNotFound,
            ),
    {
        if (contract_id as usize) < self.contracts.len() {
            Ok(&self.contracts[contract_id as usize])
        } else {
            Err(EscrowError::ContractNotFound)
        }
    }

    /// Carries out `op` on agreement `contract_id`, or leaves the state
    /// unchanged and says why `op` is refused.
    fn apply_record_op(&mut self, contract_id: u32, op: RecordOp) -> (r: Result<(), EscrowError>)
        requires
            old(self)@.wf(),
        ensures
            final(self)@.wf(),
            match r {
                Ok(_) => {
                    &&& old(self)@.record_op_error(contract_id, op) is None
                    &&& final(self)@ == old(self)@.after_record_op(contract_id, op)
                },
                Err(e) => {
                    &&& old(self)@.record_op_error(contract_id, op) == Some(e)
                    &&& final(self)@ == old(self)@
                },
            },
    {
        if let Some(e) = precheck_op(self.emergency, op) {
            return Err(e);
        }
        let i = contract_id as usize;
        if i >= self.contracts.len() {
            return Err(EscrowError::ContractNotFound);
        }
        let ghost c = old(self)@.contracts[i as int];
        proof {
            assert(c == self.contracts@[i as int]@);
            assert(c.wf());
        }
        let r = self.contracts[i].apply_op(self.emergency, op);
        proof {
            if r is Ok {
                assert(self@.contracts =~= old(self)@.contracts.update(i as int, c.after_op(op)));
                old(self)@.lemma_with_contract_wf(contract_id, c.after_op(op));
            } else {
                assert(self@.contracts =~= old(self)@.contracts);
            }
        }
        r
    }

    /// `caller`, who must be the client, adds `amount` to what was deposited
    /// into agreement `contract_id`, which becomes `Funded`. Deposits may
    /// come in several parts but never exceed the agreement's total.
    pub fn deposit_funds(&mut self, contract_id: u32, caller: AccountId, amount: i128) -> (r: Result<
        bool,
        EscrowError,
    >)
        requires
            old(self)@.wf(),
        ensures
            final(self)@.wf(),
            match r {
                Ok(b) => {
                    &&& b
                    &&& old(self)@.deposit_error(contract_id, caller, amount) is None
                    &&& final(self)@ == old(self)@.after_deposit(contract_id, amount)
                },
                Err(e) => {
                    &&& old(self)@.deposit_error(contract_id, caller, amount) == Some(e)
                    &&& final(self)@ == old(self)@
                },
            },
    {
        match self.apply_record_op(contract_id, RecordOp::Deposit { caller, amount }) {
            Ok(()) => Ok(true),
            Err(e) => Err(e),
        }
    }

    /// `caller`, who must be the client, sets aside `amount` of the deposits
    /// of agreement `contract_id` for milestone `milestone_idx`, replacing
    /// what was set aside for it before.
    pub fn set_milestone_funded(
        &mut self,
        contract_id: u32,
        caller: AccountId,
        milestone_idx: u32,
        amount: i128,
    ) -> (r: Result<bool, EscrowError>)
        requires
            old(self)@.wf(),
        ensures
            final(self)@.wf(),
            match r {
                Ok(b) => {
                    &&& b
                    &&& old(self)@.funding_error(contract_id, caller, milestone_idx, amount) is None
                    &&& final(self)@ == old(self)@.after_funding(contract_id, milestone_idx, amount)
                },
                Err(e) => {
                    &&& old(self)@.funding_error(contract_id, caller, milestone_idx, amount) == Some(e)
                    &&& final(self)@ == old(self)@
                },
            },
    {
        match self.apply_record_op(contract_id, RecordOp::Fund { caller, milestone_idx, amount }) {
            Ok(()) => Ok(true),
            Err(e) => Err(e),
        }
    }

    /// `caller`, who must be the client, pays out milestone `milestone_idx`
    /// of agreement `contract_id` to the freelancer. Once every milestone is
    /// paid out the agreement is `Completed`.
    pub fn release_milestone(&mut self, contract_id: u32, caller: AccountId, milestone_idx: u32) -> (r:
        Result<bool, EscrowError>)
        requires
            old(self)@.wf(),
        ensures
            final(self)@.wf(),
            match r {
                Ok(b) => {
                    &&& b
                    &&& old(self)@.release_error(contract_id, caller, milestone_idx) is None
                    &&& final(self)@ == old(self)@.after_release(contract_id, milestone_idx)
                },
                Err(e) => {
                    &&& old(self)@.release_error(contract_id, caller, milestone_idx) == Some(e)
                    &&& final(self)@ == old(self)@
                },
            },
    {
        match self.apply_record_op(contract_id, RecordOp::Release { caller, milestone_idx }) {
            Ok(()) => Ok(true),
            Err(e) => Err(e),
        }
    }

    /// `caller`, who must be the client, proposes to hand agreement
    /// `contract_id` over to `proposed_client`; the hand-over waits for the
    /// proposed client's confirmation.
    pub fn request_client_migration(
        &mut self,
        contract_id: u32,
        caller: AccountId,
        proposed_client: AccountId,
    ) -> (r: Result<bool, EscrowError>)
        requires
            old(self)@.wf(),
        ensures
            final(self)@.wf(),
            match r {
                Ok(b) => {
                    &&& b
                    &&& old(self)@.migration_request_error(contract_id, caller, proposed_client) is None
                    &&& final(self)@ == old(self)@.after_migration_request(contract_id, proposed_client)
                },
                Err(e) => {
                    &&& old(self)@.migration_request_error(contract_id, caller, proposed_client)
                        == Some(e)
                    &&& final(self)@ == old(self)@
                },
            },
    {
        match self.apply_record_op(
            contract_id,
            RecordOp::RequestMigration { caller, proposed_client },
        ) {
            Ok(()) => Ok(true),
            Err(e) => Err(e),
        }
    }

    /// `caller`, who must be the proposed client of agreement
    /// `contract_id`, accepts the hand-over.
    pub fn confirm_client_migration(&mut self, contract_id: u32, caller: AccountId) -> (r: Result<
        bool,
        EscrowError,
    >)
        requires
            old(self)@.wf(),
        ensures
            final(self)@.wf(),
            match r {
                Ok(b) => {
                    &&& b
                    &&& old(self)@.migration_confirm_error(contract_id, caller) is None
                    &&& final(self)@ == old(self)@.after_migration_confirm(contract_id)
                },
                Err(e) => {
                    &&& old(self)@.migration_confirm_error(contract_id, caller) == Some(e)
                    &&& final(self)@ == old(self)@
                },
            },
    {
        match self.apply_record_op(contract_id, RecordOp::ConfirmMigration { caller }) {
            Ok(()) => Ok(true),
            Err(e) => Err(e),
        }
    }

    /// `caller`, who must be the client, completes a confirmed hand-over:
    /// the proposed client becomes the client of agreement `contract_id` and
    /// nothing is pending any more.
    pub fn finalize_client_migration(&mut self, contract_id: u32, caller: AccountId) -> (r: Result<
        bool,
        EscrowError,
    >)
        requires
            old(self)@.wf(),
        ensures
            final(self)@.wf(),
            match r {
                Ok(b) => {
                    &&& b
                    &&& old(self)@.migration_finalize_error(contract_id, caller) is None
                    &&& final(self)@ == old(self)@.after_migration_finalize(contract_id)
                },
                Err(e) => {
                    &&& old(self)@.migration_finalize_error(contract_id, caller) == Some(e)
                    &&& final(self)@ == old(self)@
                },
            },
    {
        match self.apply_record_op(contract_id, RecordOp::FinalizeMigration { caller }) {
            Ok(()) => Ok(true),
            Err(e) => Err(e),
        }
    }

    /// `caller`, who must be the client, withdraws the pending hand-over of
    /// agreement `contract_id`.
    pub fn cancel_client_migration(&mut self, contract_id: u32, caller: AccountId) -> (r: Result<
        bool,
        EscrowError,
    >)
        requires
            old(self)@.wf(),
        ensures
            final(self)@.wf(),
            match r {
                Ok(b) => {
                    &&& b
                    &&& old(self)@.migration_cancel_error(contract_id, caller) is None
                    &&& final(self)@ == old(self)@.after_migration_cancel(contract_id)
                },
                Err(e) => {
                    &&& old(self)@.migration_cancel_error(contract_id, caller) == Some(e)
                    &&& final(self)@ == old(self)@
                },
            },
    {
        match self.apply_record_op(contract_id, RecordOp::CancelMigration { caller }) {
            Ok(()) => Ok(true),
            Err(e) => Err(e),
        }
    }

    /// The pending hand-over of agreement `contract_id`.
    pub fn get_pending_client_migration(&self, contract_id: u32) -> (r: Result<
        PendingClientMigration,
        EscrowError,
    >)
        ensures
            match r {
                Ok(p) => self@.pending_migration_error(contract_id) is None
                    && self@.contracts[contract_id as int].pending_migration == Some(p),
                Err(e) => self@.pending_migration_error(contract_id) == Some(e),
            },
    {
        let i = contract_id as usize;
        if i >= self.contracts.len() {
            return Err(EscrowError::ContractNotFound);
        }
        proof {
            assert(self@.contracts[i as int] == self.contracts@[i as int]@);
        }
        self.contracts[i].pending_hand_over()
    }

    /// Whether agreement `contract_id` exists and has a hand-over pending.
    pub fn has_pending_client_migration(&self, contract_id: u32) -> (r: bool)
        ensures
            r == (contract_id < self@.contracts.len()
                && self@.contracts[contract_id as int].pending_migration is Some),
    {
        let i = contract_id as usize;
        if i >= self.contracts.len() {
            return false;
        }
        proof {
            assert(self@.contracts[i as int] == self.contracts@[i as int]@);
        }
        self.contracts[i].pending_migration.is_some()
    }

    /// Records on the readiness checklist that `step` has been carried out.
    fn update_readiness_checklist(&mut self, step: ReadinessStep)
        ensures
            final(self)@ == (EscrowView {
                checklist: step.mark(old(self)@.checklist),
                ..old(self)@
            }),
    {
        match step {
            ReadinessStep::Initialized => {
                self.checklist.initialized = true;
            },
            ReadinessStep::GovernedParams => {
                self.checklist.governed_params_set = true;
            },
            ReadinessStep::EmergencyControls => {
                self.checklist.emergency_controls_enabled = true;
            },
        }
    }

    /// Initializes the instance once, with `admin` as its administrator; a
    /// second call is refused with `AlreadyInitialized` and changes nothing.
    pub fn initialize(&mut self, admin: AccountId) -> (r: Result<(), Error>)
        requires
            old(self)@.wf(),
        ensures
            final(self)@.wf(),
            old(self)@.initialized ==> r == Err::<(), Error>(Error::AlreadyInitialized) && final(self)@
                == old(self)@,
            !old(self)@.initialized ==> r == Ok::<(), Error>(()) && final(self)@
                == old(self)@.after_initialize(admin),
    {
        if self.initialized {
            return Err(Error::AlreadyInitialized);
        }
        self.initialized = true;
        self.admin = Some(admin);
        self.update_readiness_checklist(ReadinessStep::Initialized);
        Ok(())
    }

    /// The administrator named at initialization, if any.
    pub fn get_admin(&self) -> (a: Option<AccountId>)
        ensures
            a == self@.admin,
    {
        self.admin
    }

    /// Sets up protocol governance once: `admin` becomes the governance
    /// administrator and the given limits come into force.
    pub fn initialize_protocol_governance(
        &mut self,
        admin: AccountId,
        min_milestone_amount: i128,
        max_milestones: u32,
        min_reputation_rating: i128,
        max_reputation_rating: i128,
    ) -> (r: Result<bool, EscrowError>)
        requires
            old(self)@.wf(),
        ensures
            final(self)@.wf(),
            ({
                let p = ProtocolParameters {
                    min_milestone_amount,
                    max_milestones,
                    min_reputation_rating,
                    max_reputation_rating,
                };
                &&& old(self)@.governance_admin is Some ==> r == Err::<bool, EscrowError>(
                    EscrowError::GovernanceAlreadyInitialized,
                ) && final(self)@ == old(self)@
                &&& (old(self)@.governance_admin is None && !p.valid()) ==> r == Err::<
                    bool,
                    EscrowError,
                >(EscrowError::InvalidProtocolParameters) && final(self)@ == old(self)@
                &&& (old(self)@.governance_admin is None && p.valid()) ==> r == Ok::<bool, EscrowError>(
                    true,
                ) && final(self)@ == old(self)@.after_governance_setup(admin, p)
            }),
    {
        if self.governance_admin.is_some() {
            return Err(EscrowError::GovernanceAlreadyInitialized);
        }
        let parameters = match ProtocolParameters::validated(
            min_milestone_amount,
            max_milestones,
            min_reputation_rating,
            max_reputation_rating,
        ) {
            Ok(p) => p,
            Err(e) => {
                return Err(e);
            },
        };
        self.governance_admin = Some(admin);
        self.parameters = parameters;
        self.update_readiness_checklist(ReadinessStep::GovernedParams);
        Ok(true)
    }

    /// Puts new limits into force; they apply to agreements created from
    /// now on. Once governance is set up, only its administrator (`caller`)
    /// may do so.
    pub fn update_protocol_parameters(
        &mut self,
        caller: AccountId,
        min_milestone_amount: i128,
        max_milestones: u32,
        min_reputation_rating: i128,
        max_reputation_rating: i128,
    ) -> (r: Result<bool, EscrowError>)
        requires
            old(self)@.wf(),
        ensures
            final(self)@.wf(),
            ({
                let p = ProtocolParameters {
                    min_milestone_amount,
                    max_milestones,
                    min_reputation_rating,
                    max_reputation_rating,
                };
                match r {
                    Ok(b) => {
                        &&& b
                        &&& old(self)@.parameter_update_error(caller, p) is None
                        &&& final(self)@ == old(self)@.after_parameter_update(p)
                    },
                    Err(e) => {
                        &&& old(self)@.parameter_update_error(caller, p) == Some(e)
                        &&& final(self)@ == old(self)@
                    },
                }
            }),
    {
        if let Some(admin) = self.governance_admin {
            if caller != admin {
                return Err(EscrowError::Unauthorized);
            }
        }
        let parameters = match ProtocolParameters::validated(
            min_milestone_amount,
            max_milestones,
            min_reputation_rating,
            max_reputation_rating,
        ) {
            Ok(p) => p,
            Err(e) => {
                return Err(e);
            },
        };
        self.parameters = parameters;
        self.update_readiness_checklist(ReadinessStep::GovernedParams);
        Ok(true)
    }

    /// Enters emergency mode: creation, deposits and releases are refused
    /// with `ContractPaused` until the emergency is resolved. Once the
    /// instance is initialized, only its administrator (`caller`) may do so.
    pub fn activate_emergency_pause(&mut self, caller: AccountId) -> (r: Result<(), EscrowError>)
        requires
            old(self)@.wf(),
        ensures
            final(self)@.wf(),
            match r {
                Ok(_) => {
                    &&& old(self)@.emergency_control_error(caller) is None
                    &&& final(self)@ == old(self)@.after_emergency(true)
                },
                Err(e) => {
                    &&& old(self)@.emergency_control_error(caller) == Some(e)
                    &&& final(self)@ == old(self)@
                },
            },
    {
        if let Some(admin) = self.admin {
            if caller != admin {
                return Err(EscrowError::Unauthorized);
            }
        }
        self.emergency = true;
        self.update_readiness_checklist(ReadinessStep::EmergencyControls);
        Ok(())
    }

    /// Leaves emergency mode and restores normal operation. Once the
    /// instance is initialized, only its administrator (`caller`) may do so.
    pub fn resolve_emergency(&mut self, caller: AccountId) -> (r: Result<(), EscrowError>)
        requires
            old(self)@.wf(),
        ensures
            final(self)@.wf(),
            match r {
                Ok(_) => {
                    &&& old(self)@.emergency_control_error(caller) is None
                    &&& final(self)@ == old(self)@.after_emergency(false)
                },
                Err(e) => {
                    &&& old(self)@.emergency_control_error(caller) == Some(e)
                    &&& final(self)@ == old(self)@
                },
            },
    {
        if let Some(admin) = self.admin {
            if caller != admin {
                return Err(EscrowError::Unauthorized);
            }
        }
        self.emergency = false;
        self.update_readiness_checklist(ReadinessStep::EmergencyControls);
        Ok(())
    }

    /// The readiness report: the stored checklist flags, `caps_set` derived
    /// from the per-agreement cap, and the compile-time version and cap.
    pub fn get_mainnet_readiness_info(&self) -> (info: MainnetReadinessInfo)
        ensures
            info == self@.readiness_info(),
    {
        MainnetReadinessInfo {
            caps_set: MAINNET_MAX_TOTAL_ESCROW_PER_CONTRACT_STROOPS > 0,
            governed_params_set: self.checklist.governed_params_set,
            emergency_controls_enabled: self.checklist.emergency_controls_enabled,
            initialized: self.checklist.initialized,
            protocol_version: MAINNET_PROTOCOL_VERSION,
            max_escrow_total_stroops: MAINNET_MAX_TOTAL_ESCROW_PER_CONTRACT_STROOPS,
        }
    }

    /// The limits in force.
    pub fn get_protocol_parameters(&self) -> (p: ProtocolParameters)
        ensures
            p == self@.parameters,
    {
        self.parameters
    }

    /// The governance administrator, once governance is set up.
    pub fn get_governance_admin(&self) -> (a: Option<AccountId>)
        ensures
            a == self@.governance_admin,
    {
        self.governance_admin
    }

    /// The governance administrator (`caller`) proposes `new_admin` as
    /// its successor; the transfer takes effect once the proposed
    /// administrator accepts it. A new proposal replaces a pending one.
    pub fn propose_governance_admin(&mut self, caller: AccountId, new_admin: AccountId) -> (r: Result<
        bool,
        EscrowError,
    >)
        requires
            old(self)@.wf(),
        ensures
            final(self)@.wf(),
            match r {
                Ok(b) => {
                    &&& b
                    &&& old(self)@.admin_proposal_error(caller) is None
                    &&& final(self)@ == old(self)@.after_admin_proposal(new_admin)
                },
                Err(e) => {
                    &&& old(self)@.admin_proposal_error(caller) == Some(e)
                    &&& final(self)@ == old(self)@
                },
            },
    {
        match self.governance_admin {
            None => Err(EscrowError::GovernanceNotInitialized),
            Some(admin) => {
                if caller != admin {
                    return Err(EscrowError::Unauthorized);
                }
                self.pending_governance_admin = Some(new_admin);
                Ok(true)
            },
        }
    }

    /// The proposed governance administrator (`caller`) takes over.
    pub fn accept_governance_admin(&mut self, caller: AccountId) -> (r: Result<bool, EscrowError>)
        requires
            old(self)@.wf(),
        ensures
            final(self)@.wf(),
            match r {
                Ok(b) => {
                    &&& b
                    &&& old(self)@.admin_acceptance_error(caller) is None
                    &&& final(self)@ == old(self)@.after_admin_acceptance()
                },
                Err(e) => {
                    &&& old(self)@.admin_acceptance_error(caller) == Some(e)
                    &&& final(self)@ == old(self)@
                },
            },
    {
        match self.pending_governance_admin {
            None => Err(EscrowError::InvalidState),
            Some(next) => {
                if caller != next {
                    return Err(EscrowError::Unauthorized);
                }
                self.governance_admin = Some(next);
                self.pending_governance_admin = None;
                Ok(true)
            },
        }
    }

    /// The proposed next governance administrator, if any.
    pub fn get_pending_governance_admin(&self) -> (a: Option<AccountId>)
        ensures
            a == self@.pending_governance_admin,
    {
        self.pending_governance_admin
    }

    /// Whether emergency mode is on.
    pub fn is_emergency(&self) -> (b: bool)
        ensures
            b == self@.emergency,
    {
        self.emergency
    }

    /// Whether the instance has been initialized.
    pub fn is_initialized(&self) -> (b: bool)
        ensures
            b == self@.initialized,
    {
        self.initialized
    }

    /// The identifier that the next agreement will get.
    pub fn next_contract_id(&self) -> (n: u32)
        requires
            self@.wf(),
        ensures
            n == self@.contracts.len(),
    {
        self.contracts.len() as u32
    }

    /// What has been set aside for milestone `milestone_idx` of agreement
    /// `contract_id`; nothing for an unknown agreement or milestone.
    pub fn get_milestone_funded(&self, contract_id: u32, milestone_idx: u32) -> (r: i128)
        ensures
            (contract_id < self@.contracts.len() && milestone_idx
                < self@.contracts[contract_id as int].milestones.len()) ==> r
                == self@.contracts[contract_id as int].milestones[milestone_idx as int].funded,
            !(contract_id < self@.contracts.len() && milestone_idx
                < self@.contracts[contract_id as int].milestones.len()) ==> r == 0,
    {
        let i = contract_id as usize;
        if i >= self.contracts.len() {
            return 0;
        }
        proof {
            assert(self@.contracts[i as int] == self.contracts@[i as int]@);
        }
        self.contracts[i].funded_for(milestone_idx)
    }
}

} // verus!
