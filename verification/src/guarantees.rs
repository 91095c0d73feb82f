use vstd::prelude::*;

use crate::milestones;
use crate::model::{ContractView, EscrowView};
use crate::types::{
    AccountId, ContractStatus, EscrowError, Milestone, ProtocolParameters,
    MAINNET_MAX_TOTAL_ESCROW_PER_CONTRACT_STROOPS,
};

verus! {

// What each operation accepts and refuses, and what it leaves behind,
// stated directly over its inputs and the records it reads.

/// Creating an agreement is refused only for the documented reasons: with
/// emergency mode off, two different parties, between one milestone and
/// the governed maximum, every amount at least the governed minimum and a
/// total within the cap, creation succeeds, whatever the amounts and their
/// order. The new agreement belongs to the two parties, has one unfunded,
/// unpaid milestone per amount, in order, is worth the sum of the amounts
/// and starts `Created` with nothing deposited or paid out and no hand-over
/// pending; it gets the next identifier and the existing agreements stay.
pub proof fn law_creation_accepts_every_valid_request(
    s: EscrowView,
    client: AccountId,
    freelancer: AccountId,
    amounts: Seq<i128>,
)
    requires
        s.wf(),
        !s.emergency,
        client != freelancer,
        0 < amounts.len() <= s.parameters.max_milestones,
        forall|i: int| 0 <= i < amounts.len() ==> amounts[i] >= s.parameters.min_milestone_amount,
        milestones::amount_sum(amounts) <= MAINNET_MAX_TOTAL_ESCROW_PER_CONTRACT_STROOPS,
    ensures
        s.create_error(client, freelancer, amounts) is None,
        ({
            let t = s.after_create(client, freelancer, amounts);
            let c = t.contracts[s.contracts.len() as int];
            &&& t.contracts.len() == s.contracts.len() + 1
            &&& forall|i: int| 0 <= i < s.contracts.len() ==> #[trigger] t.contracts[i] == s.contracts[i]
            &&& c.client == client
            &&& c.freelancer == freelancer
            &&& c.milestones.len() == amounts.len()
            &&& forall|i: int|
                0 <= i < amounts.len() ==> #[trigger] c.milestones[i] == (Milestone {
                    amount: amounts[i],
                    funded: 0,
                    released: false,
                    work_evidence: None,
                })
            &&& c.total_amount == milestones::amount_sum(amounts)
            &&& c.total_funded == 0
            &&& c.total_released == 0
            &&& c.status == ContractStatus::Created
            &&& c.pending_migration is None
            &&& t.parameters == s.parameters && t.emergency == s.emergency
        }),
{
    let t = s.after_create(client, freelancer, amounts);
    assert forall|i: int| 0 <= i < s.contracts.len() implies #[trigger] t.contracts[i] == s.contracts[i] by {}
    milestones::lemma_fresh_milestones_sum(amounts);
    ContractView::lemma_created_wf(client, freelancer, amounts, s.parameters);
}

/// Creating an agreement is refused for each documented reason: emergency
/// mode, the same party on both sides, no milestones, more milestones than
/// the governed maximum, an amount below the governed minimum, or a total
/// beyond the cap.
pub proof fn law_creation_refuses_each_invalid_request(
    s: EscrowView,
    client: AccountId,
    freelancer: AccountId,
    amounts: Seq<i128>,
    i: int,
)
    ensures
        s.emergency ==> s.create_error(client, freelancer, amounts) == Some(EscrowError::ContractPaused),
        client == freelancer ==> s.create_error(client, freelancer, amounts) is Some,
        amounts.len() == 0 ==> s.create_error(client, freelancer, amounts) is Some,
        amounts.len() > s.parameters.max_milestones ==> s.create_error(client, freelancer, amounts) is Some,
        (0 <= i < amounts.len() && amounts[i] < s.parameters.min_milestone_amount) ==> s.create_error(
            client,
            freelancer,
            amounts,
        ) is Some,
        milestones::amount_sum(amounts) > MAINNET_MAX_TOTAL_ESCROW_PER_CONTRACT_STROOPS
            ==> s.create_error(client, freelancer, amounts) is Some,
{
}

/// Deposits may come in several parts: outside emergency mode, the client
/// may deposit any positive amount into an agreement that is `Created` or
/// `Funded`, as long as the deposits stay within the agreement's total. The
/// deposit adds exactly the amount to what was deposited, makes the
/// agreement `Funded` and changes nothing else, in it or elsewhere.
pub proof fn law_deposit_accepts_any_part_within_total(s: EscrowView, contract_id: u32, amount: i128)
    requires
        contract_id < s.contracts.len(),
        !s.emergency,
        amount > 0,
        s.contracts[contract_id as int].status == ContractStatus::Created
            || s.contracts[contract_id as int].status == ContractStatus::Funded,
        s.contracts[contract_id as int].total_funded + amount
            <= s.contracts[contract_id as int].total_amount,
    ensures
        s.deposit_error(contract_id, s.contracts[contract_id as int].client, amount) is None,
        ({
            let c = s.contracts[contract_id as int];
            let t = s.after_deposit(contract_id, amount);
            let n = t.contracts[contract_id as int];
            &&& n.total_funded == c.total_funded + amount
            &&& n.status == ContractStatus::Funded
            &&& n.milestones == c.milestones
            &&& n.total_amount == c.total_amount
            &&& n.total_released == c.total_released
            &&& n.client == c.client && n.freelancer == c.freelancer
            &&& n.pending_migration == c.pending_migration
            &&& t.contracts.len() == s.contracts.len()
            &&& forall|i: int| 0 <= i < s.contracts.len() && i != contract_id ==> #[trigger] t.contracts[i]
                == s.contracts[i]
        }),
{
}

/// A deposit is refused when it is not positive, when it would take the
/// deposits beyond the agreement's total, when the agreement is neither
/// `Created` nor `Funded`, or when it does not come from the client.
pub proof fn law_deposit_refusals(s: EscrowView, contract_id: u32, caller: AccountId, amount: i128)
    requires
        contract_id < s.contracts.len(),
    ensures
        amount <= 0 ==> s.deposit_error(contract_id, caller, amount) is Some,
        s.contracts[contract_id as int].total_funded + amount > s.contracts[contract_id as int].total_amount
            ==> s.deposit_error(contract_id, caller, amount) is Some,
        !(s.contracts[contract_id as int].status == ContractStatus::Created
            || s.contracts[contract_id as int].status == ContractStatus::Funded) ==> s.deposit_error(
            contract_id,
            caller,
            amount,
        ) is Some,
        caller != s.contracts[contract_id as int].client ==> s.deposit_error(contract_id, caller, amount)
            is Some,
{
}

/// Emergency mode does not touch the allocation of deposits to milestones:
/// whether it is on or off, setting funds aside is refused or accepted for
/// the same reason, and never with `ContractPaused`.
pub proof fn law_emergency_does_not_affect_funding(
    s: EscrowView,
    contract_id: u32,
    caller: AccountId,
    milestone_idx: u32,
    amount: i128,
    on: bool,
)
    ensures
        (EscrowView { emergency: on, ..s }).funding_error(contract_id, caller, milestone_idx, amount)
            == s.funding_error(contract_id, caller, milestone_idx, amount),
        s.funding_error(contract_id, caller, milestone_idx, amount) != Some(EscrowError::ContractPaused),
{
}

/// The client may set aside for an unpaid milestone any amount between
/// nothing and its worth, as long as what is set aside across all
/// milestones stays within what was deposited. Only that milestone's
/// allocation changes, to exactly the amount.
pub proof fn law_funding_accepts_any_allocation_within_deposits(
    s: EscrowView,
    contract_id: u32,
    milestone_idx: u32,
    amount: i128,
)
    requires
        contract_id < s.contracts.len(),
        milestone_idx < s.contracts[contract_id as int].milestones.len(),
        0 <= amount <= s.contracts[contract_id as int].milestones[milestone_idx as int].amount,
        !s.contracts[contract_id as int].milestones[milestone_idx as int].released,
        milestones::sum_of(s.contracts[contract_id as int].milestones, milestones::by_funding())
            - s.contracts[contract_id as int].milestones[milestone_idx as int].funded + amount
            <= s.contracts[contract_id as int].total_funded,
    ensures
        s.funding_error(contract_id, s.contracts[contract_id as int].client, milestone_idx, amount) is None,
        ({
            let c = s.contracts[contract_id as int];
            let t = s.after_funding(contract_id, milestone_idx, amount);
            let n = t.contracts[contract_id as int];
            &&& n.milestones.len() == c.milestones.len()
            &&& n.milestones[milestone_idx as int].funded == amount
            &&& n.milestones[milestone_idx as int].amount == c.milestones[milestone_idx as int].amount
            &&& n.milestones[milestone_idx as int].released == c.milestones[milestone_idx as int].released
            &&& n.milestones[milestone_idx as int].work_evidence
                == c.milestones[milestone_idx as int].work_evidence
            &&& forall|j: int|
                0 <= j < c.milestones.len() && j != milestone_idx ==> #[trigger] n.milestones[j]
                    == c.milestones[j]
            &&& n.total_funded == c.total_funded && n.total_released == c.total_released
            &&& n.status == c.status && n.client == c.client
            &&& t.contracts.len() == s.contracts.len()
        }),
{
}

/// Setting funds aside is refused for an amount below nothing or above the
/// milestone's worth, for a milestone already paid out, for an allocation
/// beyond what was deposited, and for anyone but the client.
pub proof fn law_funding_refusals(
    s: EscrowView,
    contract_id: u32,
    caller: AccountId,
    milestone_idx: u32,
    amount: i128,
)
    requires
        contract_id < s.contracts.len(),
        milestone_idx < s.contracts[contract_id as int].milestones.len(),
    ensures
        ({
            let c = s.contracts[contract_id as int];
            let m = c.milestones[milestone_idx as int];
            &&& (amount < 0 || amount > m.amount) ==> s.funding_error(contract_id, caller, milestone_idx, amount) is Some
            &&& m.released ==> s.funding_error(contract_id, caller, milestone_idx, amount) is Some
            &&& milestones::sum_of(c.milestones, milestones::by_funding()) - m.funded + amount > c.total_funded
                ==> s.funding_error(contract_id, caller, milestone_idx, amount) is Some
            &&& caller != c.client ==> s.funding_error(contract_id, caller, milestone_idx, amount) is Some
        }),
{
}

/// Outside emergency mode, the client may have any unpaid milestone of a
/// `Funded` agreement paid out once at least its worth is set aside for
/// it, whatever the other milestones hold. The payout marks that milestone
/// paid, adds exactly its worth to what was paid out, leaves the other
/// milestones as they were, and completes the agreement exactly when every
/// milestone is then paid out.
pub proof fn law_release_accepts_every_funded_milestone(s: EscrowView, contract_id: u32, milestone_idx: u32)
    requires
        s.wf(),
        contract_id < s.contracts.len(),
        !s.emergency,
        s.contracts[contract_id as int].status == ContractStatus::Funded,
        milestone_idx < s.contracts[contract_id as int].milestones.len(),
        !s.contracts[contract_id as int].milestones[milestone_idx as int].released,
        s.contracts[contract_id as int].milestones[milestone_idx as int].funded
            >= s.contracts[contract_id as int].milestones[milestone_idx as int].amount,
    ensures
        s.release_error(contract_id, s.contracts[contract_id as int].client, milestone_idx) is None,
        ({
            let c = s.contracts[contract_id as int];
            let t = s.after_release(contract_id, milestone_idx);
            let n = t.contracts[contract_id as int];
            &&& n.total_released == c.total_released + c.milestones[milestone_idx as int].amount
            &&& n.milestones.len() == c.milestones.len()
            &&& n.milestones[milestone_idx as int].released
            &&& n.milestones[milestone_idx as int].amount == c.milestones[milestone_idx as int].amount
            &&& n.milestones[milestone_idx as int].funded == c.milestones[milestone_idx as int].funded
            &&& n.milestones[milestone_idx as int].work_evidence
                == c.milestones[milestone_idx as int].work_evidence
            &&& forall|j: int|
                0 <= j < c.milestones.len() && j != milestone_idx ==> #[trigger] n.milestones[j]
                    == c.milestones[j]
            &&& (n.status == ContractStatus::Completed <==> forall|j: int|
                0 <= j < n.milestones.len() ==> (#[trigger] n.milestones[j]).released)
            &&& n.status != ContractStatus::Completed ==> n.status == ContractStatus::Funded
            &&& n.total_funded == c.total_funded && n.client == c.client
            &&& t.contracts.len() == s.contracts.len()
        }),
{
    let c = s.contracts[contract_id as int];
    assert(c.wf());
    c.lemma_released_wf(milestone_idx);
}

/// A payout is refused in emergency mode, for a milestone with less than
/// its worth set aside, for one already paid out, for an agreement that is
/// not `Funded`, and for anyone but the client.
pub proof fn law_release_refusals(s: EscrowView, contract_id: u32, caller: AccountId, milestone_idx: u32)
    requires
        contract_id < s.contracts.len(),
        milestone_idx < s.contracts[contract_id as int].milestones.len(),
    ensures
        ({
            let c = s.contracts[contract_id as int];
            let m = c.milestones[milestone_idx as int];
            &&& s.emergency ==> s.release_error(contract_id, caller, milestone_idx) == Some(
                EscrowError::ContractPaused,
            )
            &&& m.funded < m.amount ==> s.release_error(contract_id, caller, milestone_idx) is Some
            &&& m.released ==> s.release_error(contract_id, caller, milestone_idx) is Some
            &&& c.status != ContractStatus::Funded ==> s.release_error(contract_id, caller, milestone_idx) is Some
            &&& caller != c.client ==> s.release_error(contract_id, caller, milestone_idx) is Some
        }),
{
}

/// Governance is independent of emergency mode: whether it is on or off,
/// changing the limits is refused or accepted for the same reason; valid
/// limits from the governance administrator (or from anyone before
/// governance is set up) are put into force exactly, and nothing else
/// changes but the readiness flag of governed limits.
pub proof fn law_parameter_update_ignores_emergency(
    s: EscrowView,
    caller: AccountId,
    p: ProtocolParameters,
    on: bool,
)
    ensures
        (EscrowView { emergency: on, ..s }).parameter_update_error(caller, p) == s.parameter_update_error(
            caller,
            p,
        ),
        (p.valid() && (s.governance_admin is None || s.governance_admin == Some(caller)))
            ==> s.parameter_update_error(caller, p) is None,
        !p.valid() ==> s.parameter_update_error(caller, p) is Some,
        s.after_parameter_update(p).parameters == p,
        s.after_parameter_update(p).contracts == s.contracts,
        s.after_parameter_update(p).emergency == s.emergency,
        s.after_parameter_update(p).governance_admin == s.governance_admin,
        s.after_parameter_update(p).checklist.governed_params_set,
        s.after_parameter_update(p).checklist.initialized == s.checklist.initialized,
        s.after_parameter_update(p).checklist.emergency_controls_enabled
            == s.checklist.emergency_controls_enabled,
{
}

/// The client hand-over is independent of emergency mode, and each step
/// succeeds when its documented conditions hold: the client may propose
/// anyone who is not yet a party while nothing is pending; the proposed
/// client may confirm a pending proposal; the client may complete a
/// confirmed one or withdraw a pending one.
pub proof fn law_hand_over_steps_accept_their_parties(
    s: EscrowView,
    contract_id: u32,
    caller: AccountId,
    proposed_client: AccountId,
    on: bool,
)
    requires
        contract_id < s.contracts.len(),
    ensures
        ({
            let c = s.contracts[contract_id as int];
            let u = EscrowView { emergency: on, ..s };
            &&& u.migration_request_error(contract_id, caller, proposed_client)
                == s.migration_request_error(contract_id, caller, proposed_client)
            &&& u.migration_confirm_error(contract_id, caller) == s.migration_confirm_error(contract_id, caller)
            &&& u.migration_finalize_error(contract_id, caller) == s.migration_finalize_error(
                contract_id,
                caller,
            )
            &&& u.migration_cancel_error(contract_id, caller) == s.migration_cancel_error(contract_id, caller)
            &&& (c.pending_migration is None && proposed_client != c.client && proposed_client
                != c.freelancer) ==> s.migration_request_error(contract_id, c.client, proposed_client) is None
            &&& c.pending_migration is Some ==> s.migration_confirm_error(
                contract_id,
                c.pending_migration->0.proposed_client,
            ) is None
            &&& (c.pending_migration matches Some(p) && p.proposed_client_confirmed)
                ==> s.migration_finalize_error(contract_id, c.client) is None
            &&& c.pending_migration is Some ==> s.migration_cancel_error(contract_id, c.client) is None
        }),
{
}

/// Administration steps succeed when their documented conditions hold:
/// initialization while not initialized; governance setup with valid
/// limits while none is set up; a successor proposed by the governance
/// administrator and accepted by the proposed one; emergency switches by
/// the administrator, or by anyone before initialization.
pub proof fn law_administration_accepts_its_parties(s: EscrowView, caller: AccountId)
    ensures
        s.governance_admin matches Some(a) ==> s.admin_proposal_error(a) is None,
        s.pending_governance_admin matches Some(a) ==> s.admin_acceptance_error(a) is None,
        s.admin matches Some(a) ==> s.emergency_control_error(a) is None,
        s.admin is None ==> s.emergency_control_error(caller) is None,
        s.after_emergency(true).emergency && !s.after_emergency(false).emergency,
        s.after_emergency(true).contracts == s.contracts,
        s.after_emergency(true).parameters == s.parameters,
{
}

/// Governance is set up once, by whoever names themselves administrator,
/// with any valid limits, whatever the emergency switch: the administrator
/// and the limits are then exactly those given, and the agreements and the
/// emergency switch stay as they were.
pub proof fn law_governance_setup_accepts_valid_limits(
    s: EscrowView,
    admin: AccountId,
    p: ProtocolParameters,
)
    requires
        s.governance_admin is None,
        p.valid(),
    ensures
        s.accepts(crate::model::Operation::InitializeProtocolGovernance { admin, parameters: p }),
        s.after_governance_setup(admin, p).governance_admin == Some(admin),
        s.after_governance_setup(admin, p).parameters == p,
        s.after_governance_setup(admin, p).contracts == s.contracts,
        s.after_governance_setup(admin, p).emergency == s.emergency,
        s.after_governance_setup(admin, p).pending_governance_admin == s.pending_governance_admin,
{
}

} // verus!
