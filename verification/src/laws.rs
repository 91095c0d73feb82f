use vstd::prelude::*;

use crate::milestones;
use crate::model::{stored_op_error, ContractView, EscrowView, Operation, ReadinessStep, RecordOp};
use crate::types::{
    AccountId, ContractStatus, EscrowError, ProtocolParameters,
    ReadinessChecklist, MAINNET_MAX_TOTAL_ESCROW_PER_CONTRACT_STROOPS, MAINNET_PROTOCOL_VERSION,
};

verus! {

/// Flags that are set in `a` are set in `b`.
pub open spec fn flags_kept(a: ReadinessChecklist, b: ReadinessChecklist) -> bool {
    &&& a.caps_set ==> b.caps_set
    &&& a.governed_params_set ==> b.governed_params_set
    &&& a.emergency_controls_enabled ==> b.emergency_controls_enabled
    &&& a.initialized ==> b.initialized
}

/// What `b` keeps of the agreement record `a`: the same freelancer and
/// milestone amounts, paid-out milestones still paid out, deposits and
/// payouts no smaller, and a status reached along the allowed transitions.
pub open spec fn record_keeps_history(a: ContractView, b: ContractView) -> bool {
    &&& b.freelancer == a.freelancer
    &&& b.total_amount == a.total_amount
    &&& b.milestones.len() == a.milestones.len()
    &&& a.total_funded <= b.total_funded
    &&& a.total_released <= b.total_released
    &&& crate::types::allowed_transition(a.status, b.status)
    &&& forall|j: int| 0 <= j < a.milestones.len() ==> {
        &&& (#[trigger] b.milestones[j]).amount == a.milestones[j].amount
        &&& a.milestones[j].released ==> b.milestones[j].released
    }
}

/// What `t` keeps of `s`: every agreement of `s` is still there and keeps
/// its history; initialization and checklist flags stay set.
pub open spec fn keeps_history(s: EscrowView, t: EscrowView) -> bool {
    &&& s.contracts.len() <= t.contracts.len()
    &&& forall|i: int|
        0 <= i < s.contracts.len() ==> record_keeps_history(#[trigger] s.contracts[i], t.contracts[i])
    &&& s.initialized ==> t.initialized
    &&& flags_kept(s.checklist, t.checklist)
}

proof fn lemma_mark_keeps_flags(step: ReadinessStep, c: ReadinessChecklist)
    ensures
        flags_kept(c, step.mark(c)),
{
}

proof fn lemma_record_change_keeps_history(s: EscrowView, contract_id: u32, c: ContractView)
    requires
        contract_id < s.contracts.len(),
        record_keeps_history(s.contracts[contract_id as int], c),
    ensures
        keeps_history(s, s.with_contract(contract_id, c)),
{
    let t = s.with_contract(contract_id, c);
    assert forall|i: int| 0 <= i < s.contracts.len() implies record_keeps_history(
        #[trigger] s.contracts[i],
        t.contracts[i],
    ) by {
        if i != contract_id {
            assert(t.contracts[i] == s.contracts[i]);
            assert forall|j: int| 0 <= j < s.contracts[i].milestones.len() implies {
                &&& (#[trigger] t.contracts[i].milestones[j]).amount == s.contracts[i].milestones[j].amount
                &&& s.contracts[i].milestones[j].released ==> t.contracts[i].milestones[j].released
            } by {}
        }
    }
}

/// A record operation that the checks of `stored_op_error` allow keeps the
/// record's history.
proof fn lemma_op_keeps_record_history(c: ContractView, emergency: bool, op: RecordOp)
    requires
        c.wf(),
        stored_op_error(emergency, Some(c), op) is None,
    ensures
        record_keeps_history(c, c.after_op(op)),
{
    let n = c.after_op(op);
    match op {
        RecordOp::Release { milestone_idx, .. } => {
            assert(milestones::milestone_wf(c.milestones[milestone_idx as int]));
            c.lemma_released_wf(milestone_idx);
        },
        _ => {},
    }
    assert forall|j: int| 0 <= j < c.milestones.len() implies {
        &&& (#[trigger] n.milestones[j]).amount == c.milestones[j].amount
        &&& c.milestones[j].released ==> n.milestones[j].released
    } by {}
}

/// Every operation that the contract carries out on a consistent state
/// leaves it consistent: deposits never exceed an agreement's total, what
/// is set aside never exceeds what was deposited, payouts always match the
/// released milestones, and an agreement is `Completed` exactly when all
/// its milestones are paid out.
pub proof fn law_operations_keep_state_consistent(s: EscrowView, op: Operation)
    requires
        s.wf(),
        s.accepts(op),
    ensures
        s.apply(op).wf(),
{
    match op {
        Operation::CreateContract { client, freelancer, amounts } => {
            ContractView::lemma_created_wf(client, freelancer, amounts, s.parameters);
            let t = s.apply(op);
            assert forall|i: int| 0 <= i < t.contracts.len() implies (#[trigger] t.contracts[i]).wf() by {
                if i < s.contracts.len() {
                    assert(t.contracts[i] == s.contracts[i]);
                }
            }
        },
        Operation::OnRecord { contract_id, op } => {
            let c = s.contracts[contract_id as int];
            c.lemma_op_keeps_wf(s.emergency, op);
            s.lemma_with_contract_wf(contract_id, c.after_op(op));
        },
        _ => {},
    }
}

/// Nothing that the contract carries out undoes history: agreements are
/// never removed and keep their freelancer and amounts, released milestones
/// are never released again or un-released, deposits and payouts only grow,
/// statuses only move along `Created -> Funded -> Completed`, and
/// initialization and readiness flags, once set, stay set.
pub proof fn law_operations_keep_history(s: EscrowView, op: Operation)
    requires
        s.wf(),
        s.accepts(op),
    ensures
        keeps_history(s, s.apply(op)),
{
    let t = s.apply(op);
    match op {
        Operation::CreateContract { client, freelancer, amounts } => {
            assert forall|i: int| 0 <= i < s.contracts.len() implies #[trigger] t.contracts[i]
                == s.contracts[i] by {}
        },
        Operation::OnRecord { contract_id, op } => {
            let c = s.contracts[contract_id as int];
            lemma_op_keeps_record_history(c, s.emergency, op);
            lemma_record_change_keeps_history(s, contract_id, c.after_op(op));
        },
        Operation::Initialize { admin } => {
            lemma_mark_keeps_flags(ReadinessStep::Initialized, s.checklist);
        },
        Operation::InitializeProtocolGovernance { admin, parameters } => {
            lemma_mark_keeps_flags(ReadinessStep::GovernedParams, s.checklist);
        },
        Operation::UpdateProtocolParameters { caller, parameters } => {
            lemma_mark_keeps_flags(ReadinessStep::GovernedParams, s.checklist);
        },
        Operation::ProposeGovernanceAdmin { caller, new_admin } => {},
        Operation::AcceptGovernanceAdmin { caller } => {},
        Operation::ActivateEmergencyPause { caller } => {
            lemma_mark_keeps_flags(ReadinessStep::EmergencyControls, s.checklist);
        },
        Operation::ResolveEmergency { caller } => {
            lemma_mark_keeps_flags(ReadinessStep::EmergencyControls, s.checklist);
        },
    }
}

/// The accounting of every agreement in a consistent state: nothing
/// negative, payouts within deposits, deposits within the agreement total,
/// the total within the per-agreement cap; each milestone has between
/// nothing and its worth set aside, fully so once paid out; and what is set
/// aside across milestones stays within what was deposited.
pub proof fn law_escrow_accounting(s: EscrowView, contract_id: u32)
    requires
        s.wf(),
        contract_id < s.contracts.len(),
    ensures
        ({
            let c = s.contracts[contract_id as int];
            &&& 0 <= c.total_released <= c.total_funded <= c.total_amount
                <= MAINNET_MAX_TOTAL_ESCROW_PER_CONTRACT_STROOPS
            &&& forall|j: int| 0 <= j < c.milestones.len() ==> {
                &&& 0 <= (#[trigger] c.milestones[j]).funded <= c.milestones[j].amount
                &&& c.milestones[j].released ==> c.milestones[j].funded == c.milestones[j].amount
            }
            &&& milestones::sum_of(c.milestones, milestones::by_funding()) <= c.total_funded
        }),
{
    let c = s.contracts[contract_id as int];
    assert(c.wf());
    assert forall|j: int| 0 <= j < c.milestones.len() implies milestones::by_release()(
        #[trigger] c.milestones[j],
    ) <= milestones::by_funding()(c.milestones[j]) by {
        assert(milestones::milestone_wf(c.milestones[j]));
    }
    milestones::lemma_sum_of_le(c.milestones, milestones::by_release(), milestones::by_funding());
    assert forall|j: int| 0 <= j < c.milestones.len() implies milestones::by_release()(
        #[trigger] c.milestones[j],
    ) >= 0 by {
        assert(milestones::milestone_wf(c.milestones[j]));
    }
    milestones::lemma_sum_of_nonneg(c.milestones, milestones::by_release());
    assert forall|j: int| 0 <= j < c.milestones.len() implies {
        &&& 0 <= (#[trigger] c.milestones[j]).funded <= c.milestones[j].amount
        &&& c.milestones[j].released ==> c.milestones[j].funded == c.milestones[j].amount
    } by {
        assert(milestones::milestone_wf(c.milestones[j]));
    }
}

/// While emergency mode is on, creating agreements, depositing and
/// releasing are all refused with `ContractPaused`, whoever asks; resolving
/// the emergency switches it off again.
pub proof fn law_emergency_blocks_fund_movements(
    s: EscrowView,
    client: AccountId,
    freelancer: AccountId,
    amounts: Seq<i128>,
    contract_id: u32,
    caller: AccountId,
    amount: i128,
    milestone_idx: u32,
)
    requires
        s.emergency,
    ensures
        s.create_error(client, freelancer, amounts) == Some(EscrowError::ContractPaused),
        s.deposit_error(contract_id, caller, amount) == Some(EscrowError::ContractPaused),
        s.release_error(contract_id, caller, milestone_idx) == Some(EscrowError::ContractPaused),
        !s.after_emergency(false).emergency,
{
}

/// The party that must authorize `op` on the record `c`: the proposed
/// client to confirm a hand-over, the client for everything else.
pub open spec fn required_party(c: ContractView, op: RecordOp) -> AccountId {
    match op {
        RecordOp::ConfirmMigration { .. } => c.pending_migration->0.proposed_client,
        _ => c.client,
    }
}

/// The party named as having authorized `op`.
pub open spec fn op_caller(op: RecordOp) -> AccountId {
    match op {
        RecordOp::Deposit { caller, .. } => caller,
        RecordOp::Fund { caller, .. } => caller,
        RecordOp::Release { caller, .. } => caller,
        RecordOp::RequestMigration { caller, .. } => caller,
        RecordOp::ConfirmMigration { caller } => caller,
        RecordOp::FinalizeMigration { caller } => caller,
        RecordOp::CancelMigration { caller } => caller,
    }
}

/// Only the recorded client can deposit into an agreement, set funds aside
/// for its milestones, release them, or propose, complete or withdraw a
/// hand-over; only the proposed client can confirm a hand-over; anyone
/// else is refused with `Unauthorized` once the earlier checks pass. Once
/// governance is set up, only its administrator can change the limits or
/// propose a successor, and only the proposed successor can take over.
/// Once the instance is initialized, only its administrator can switch
/// emergency mode on or off.
pub proof fn law_operations_need_authorization(
    s: EscrowView,
    contract_id: u32,
    op: RecordOp,
    caller: AccountId,
    p: ProtocolParameters,
)
    ensures
        s.record_op_error(contract_id, op) is None ==> contract_id < s.contracts.len() && op_caller(op)
            == required_party(s.contracts[contract_id as int], op),
        (contract_id < s.contracts.len() && op_caller(op) != required_party(
            s.contracts[contract_id as int],
            op,
        )) ==> s.record_op_error(contract_id, op) is Some,
        s.parameter_update_error(caller, p) is None && s.governance_admin is Some
            ==> s.governance_admin == Some(caller),
        s.admin_proposal_error(caller) is None ==> s.governance_admin == Some(caller),
        s.admin_acceptance_error(caller) is None ==> s.pending_governance_admin == Some(caller),
        (s.governance_admin matches Some(a) && a != caller) ==> s.parameter_update_error(caller, p)
            == Some(EscrowError::Unauthorized),
        s.emergency_control_error(caller) is None && s.admin is Some ==> s.admin == Some(caller),
        (s.admin matches Some(a) && a != caller) ==> !s.accepts(
            Operation::ActivateEmergencyPause { caller },
        ) && !s.accepts(Operation::ResolveEmergency { caller }),
{
}

/// A milestone that has been paid out cannot be paid out again.
pub proof fn law_release_is_not_replayable(
    s: EscrowView,
    contract_id: u32,
    caller: AccountId,
    milestone_idx: u32,
)
    requires
        s.wf(),
        s.release_error(contract_id, caller, milestone_idx) is None,
    ensures
        s.after_release(contract_id, milestone_idx).contracts[contract_id as int].milestones[milestone_idx as int].released,
        s.after_release(contract_id, milestone_idx).release_error(contract_id, caller, milestone_idx) is Some,
{
}

/// A `Completed` agreement takes no further deposit and pays out nothing more.
pub proof fn law_completed_agreement_is_closed(
    s: EscrowView,
    contract_id: u32,
    caller: AccountId,
    amount: i128,
    milestone_idx: u32,
)
    requires
        s.wf(),
        contract_id < s.contracts.len(),
        s.contracts[contract_id as int].status == ContractStatus::Completed,
    ensures
        s.deposit_error(contract_id, caller, amount) is Some,
        s.release_error(contract_id, caller, milestone_idx) is Some,
{
}

/// A proposed hand-over cannot be completed before the proposed client
/// confirms it, and nobody else can confirm it; once confirmed, completing
/// it makes the proposed client the client of the agreement, changes
/// nothing else of the record, and takes the authority over the funds away
/// from the former client.
pub proof fn law_client_migration_requires_confirmation(
    s: EscrowView,
    contract_id: u32,
    caller: AccountId,
    proposed_client: AccountId,
    other: AccountId,
)
    requires
        s.wf(),
        s.migration_request_error(contract_id, caller, proposed_client) is None,
        other != proposed_client,
    ensures
        ({
            let requested = s.after_migration_request(contract_id, proposed_client);
            let confirmed = requested.after_migration_confirm(contract_id);
            let done = confirmed.after_migration_finalize(contract_id);
            &&& requested.migration_finalize_error(contract_id, caller) == Some(
                EscrowError::MigrationNotConfirmed,
            )
            &&& requested.migration_confirm_error(contract_id, other) == Some(EscrowError::Unauthorized)
            &&& requested.migration_confirm_error(contract_id, proposed_client) is None
            &&& confirmed.migration_finalize_error(contract_id, caller) is None
            &&& done.contracts[contract_id as int] == ContractView {
                client: proposed_client,
                ..s.contracts[contract_id as int]
            }
            &&& done.contracts.len() == s.contracts.len()
            &&& forall|i: int| 0 <= i < s.contracts.len() && i != contract_id ==> #[trigger] done.contracts[i]
                == s.contracts[i]
            &&& forall|amount: i128|
                !s.emergency && amount > 0 ==> #[trigger] done.deposit_error(contract_id, caller, amount)
                    == Some(EscrowError::Unauthorized)
        }),
{
    let requested = s.after_migration_request(contract_id, proposed_client);
    let confirmed = requested.after_migration_confirm(contract_id);
    let done = confirmed.after_migration_finalize(contract_id);
    assert(s.contracts[contract_id as int].pending_migration is None);
    assert(done.contracts[contract_id as int] =~= ContractView {
        client: proposed_client,
        ..s.contracts[contract_id as int]
    });
}

/// Withdrawing a proposed hand-over restores the state from before the
/// proposal.
pub proof fn law_cancel_undoes_migration_request(
    s: EscrowView,
    contract_id: u32,
    caller: AccountId,
    proposed_client: AccountId,
)
    requires
        s.migration_request_error(contract_id, caller, proposed_client) is None,
    ensures
        s.after_migration_request(contract_id, proposed_client).migration_cancel_error(contract_id, caller) is None,
        s.after_migration_request(contract_id, proposed_client).after_migration_cancel(contract_id) == s,
{
    let t = s.after_migration_request(contract_id, proposed_client).after_migration_cancel(contract_id);
    assert(t.contracts[contract_id as int] == s.contracts[contract_id as int]);
    assert(t.contracts =~= s.contracts);
}

/// An instance is initialized at most once, and so is its governance; the
/// administrator named at initialization stays, and from then on only it
/// can switch emergency mode on or off.
pub proof fn law_one_time_setup(
    s: EscrowView,
    admin: AccountId,
    other: AccountId,
    p: ProtocolParameters,
)
    ensures
        !s.after_initialize(admin).accepts(Operation::Initialize { admin: other }),
        s.after_initialize(admin).readiness_info().initialized,
        s.after_initialize(admin).admin == Some(admin),
        s.after_initialize(admin).emergency_control_error(admin) is None,
        other != admin ==> s.after_initialize(admin).emergency_control_error(other) == Some(
            EscrowError::Unauthorized,
        ),
        p.valid() ==> !s.after_governance_setup(admin, p).accepts(
            Operation::InitializeProtocolGovernance { admin, parameters: p },
        ),
        s.after_governance_setup(admin, p).readiness_info().governed_params_set,
{
}

/// A new agreement gets the next identifier: the number of agreements
/// created before it; the agreements created before are left as they were.
pub proof fn law_agreement_ids_are_sequential(
    s: EscrowView,
    client: AccountId,
    freelancer: AccountId,
    amounts: Seq<i128>,
)
    ensures
        s.after_create(client, freelancer, amounts).contracts.len() == s.contracts.len() + 1,
        s.after_create(client, freelancer, amounts).contracts[s.contracts.len() as int]
            == ContractView::created(client, freelancer, amounts),
        s.after_create(client, freelancer, amounts).contracts.take(s.contracts.len() as int)
            == s.contracts,
{
    assert(s.after_create(client, freelancer, amounts).contracts.take(s.contracts.len() as int)
        =~= s.contracts);
}

/// Governance passes to a new administrator in two steps: a proposal by
/// the administrator leaves it in charge, and only the acceptance by the
/// proposed administrator hands over; nothing can be accepted before
/// something is proposed, and nothing can be proposed before governance is
/// set up.
pub proof fn law_governance_transfer_is_two_step(
    s: EscrowView,
    new_admin: AccountId,
    caller: AccountId,
)
    requires
        s.wf(),
        s.governance_admin is Some,
    ensures
        s.after_admin_proposal(new_admin).governance_admin == s.governance_admin,
        s.after_admin_proposal(new_admin).accepts(Operation::AcceptGovernanceAdmin { caller: new_admin }),
        caller != new_admin ==> !s.after_admin_proposal(new_admin).accepts(
            Operation::AcceptGovernanceAdmin { caller },
        ),
        s.after_admin_proposal(new_admin).after_admin_acceptance().governance_admin == Some(new_admin),
        s.after_admin_proposal(new_admin).after_admin_acceptance().pending_governance_admin is None,
        !s.after_admin_proposal(new_admin).after_admin_acceptance().accepts(
            Operation::AcceptGovernanceAdmin { caller },
        ),
        !EscrowView::fresh().accepts(Operation::ProposeGovernanceAdmin { caller, new_admin }),
        !EscrowView::fresh().accepts(Operation::AcceptGovernanceAdmin { caller }),
{
}

/// New limits apply to agreements created afterwards: putting them into
/// force changes no existing agreement, and creation checks them.
pub proof fn law_parameters_govern_new_agreements(
    s: EscrowView,
    p: ProtocolParameters,
    client: AccountId,
    freelancer: AccountId,
    amounts: Seq<i128>,
)
    requires
        p.valid(),
    ensures
        s.after_parameter_update(p).contracts == s.contracts,
        !s.emergency && client != freelancer && amounts.len() > p.max_milestones ==> s.after_parameter_update(
            p,
        ).create_error(client, freelancer, amounts) == Some(EscrowError::TooManyMilestones),
        (!s.emergency && client != freelancer && 0 < amounts.len() <= p.max_milestones
            && milestones::some_below(amounts, p.min_milestone_amount)) ==> s.after_parameter_update(
            p,
        ).create_error(client, freelancer, amounts) == Some(EscrowError::InvalidMilestoneAmount),
{
}

/// The readiness report mirrors the stored checklist, and its `caps_set`,
/// protocol version and escrow cap come from the build, whatever the state.
pub proof fn law_readiness_report(s: EscrowView)
    ensures
        s.readiness_info().caps_set,
        s.readiness_info().protocol_version == MAINNET_PROTOCOL_VERSION,
        s.readiness_info().max_escrow_total_stroops == MAINNET_MAX_TOTAL_ESCROW_PER_CONTRACT_STROOPS,
        s.readiness_info().initialized == s.checklist.initialized,
        s.readiness_info().governed_params_set == s.checklist.governed_params_set,
        s.readiness_info().emergency_controls_enabled == s.checklist.emergency_controls_enabled,
        !EscrowView::fresh().readiness_info().initialized,
        !EscrowView::fresh().readiness_info().governed_params_set,
        !EscrowView::fresh().readiness_info().emergency_controls_enabled,
{
}


/// Whether the contract carries out `op` in state `s`.
#[verifier::opaque]
pub open spec fn carried_out(s: EscrowView, op: Operation) -> bool {
    s.accepts(op)
}

/// The state after `op` is offered in state `s`: the state it leads to if
/// the contract carries it out, `s` itself if the contract refuses it.
#[verifier::opaque]
pub open spec fn step(s: EscrowView, op: Operation) -> EscrowView {
    if s.accepts(op) {
        s.apply(op)
    } else {
        s
    }
}

/// The state reached from `s` when `ops` are offered in turn; an operation
/// that the contract refuses leaves the state as it was.
pub open spec fn run(s: EscrowView, ops: Seq<Operation>) -> EscrowView
    decreases ops.len(),
{
    if ops.len() == 0 {
        s
    } else {
        step(run(s, ops.drop_last()), ops.last())
    }
}

/// Whether the `i`-th of `ops`, offered from `s` after the ones before it,
/// is carried out.
pub open spec fn accepted_at(s: EscrowView, ops: Seq<Operation>, i: int) -> bool {
    carried_out(run(s, ops.take(i)), ops[i])
}

/// Whether `op` is an operation that the checklist flag of `f` records:
/// initialization; governance setup or a limits update; an emergency pause
/// or its resolution.
pub open spec fn records(f: ReadinessStep, op: Operation) -> bool {
    match f {
        ReadinessStep::Initialized => op is Initialize,
        ReadinessStep::GovernedParams => op is InitializeProtocolGovernance
            || op is UpdateProtocolParameters,
        ReadinessStep::EmergencyControls => op is ActivateEmergencyPause || op is ResolveEmergency,
    }
}

/// The checklist flag of `f` in `c`.
pub open spec fn flag(f: ReadinessStep, c: ReadinessChecklist) -> bool {
    match f {
        ReadinessStep::Initialized => c.initialized,
        ReadinessStep::GovernedParams => c.governed_params_set,
        ReadinessStep::EmergencyControls => c.emergency_controls_enabled,
    }
}

/// Some operation of `ops` that the flag of `f` records was carried out.
pub open spec fn step_carried_out(s: EscrowView, ops: Seq<Operation>, f: ReadinessStep) -> bool {
    exists|i: int| 0 <= i < ops.len() && records(f, #[trigger] ops[i]) && accepted_at(s, ops, i)
}

/// One offered operation sets a checklist flag exactly when it is carried
/// out and is an operation that the flag records; no flag is ever cleared.
proof fn lemma_step_flag(s: EscrowView, op: Operation, f: ReadinessStep)
    ensures
        flag(f, step(s, op).checklist) == (flag(f, s.checklist) || (carried_out(s, op) && records(
            f,
            op,
        ))),
{
    reveal(step);
    reveal(carried_out);
}

/// After `ops` offered from `s`, a flag is set exactly when it was set in
/// `s` or an operation that it records was carried out along the way.
proof fn lemma_run_flag(s: EscrowView, ops: Seq<Operation>, f: ReadinessStep)
    ensures
        flag(f, run(s, ops).checklist) == (flag(f, s.checklist) || step_carried_out(s, ops, f)),
    decreases ops.len(),
{
    if ops.len() > 0 {
        let n = ops.len() - 1;
        let prefix = ops.drop_last();
        lemma_run_flag(s, prefix, f);
        let before = run(s, prefix);
        let op = ops.last();
        lemma_step_flag(before, op, f);
        assert(ops.take(n) =~= prefix);
        assert(accepted_at(s, ops, n) == carried_out(before, op));
        if step_carried_out(s, ops, f) {
            let i = choose|i: int| 0 <= i < ops.len() && records(f, #[trigger] ops[i]) && accepted_at(s, ops, i);
            if i < n {
                assert(ops.take(i) =~= prefix.take(i));
                assert(prefix[i] == ops[i]);
                assert(accepted_at(s, prefix, i));
            }
        }
        if step_carried_out(s, prefix, f) {
            let i = choose|i: int| 0 <= i < prefix.len() && records(f, #[trigger] prefix[i]) && accepted_at(s, prefix, i);
            assert(ops.take(i) =~= prefix.take(i));
            assert(ops[i] == prefix[i]);
            assert(accepted_at(s, ops, i));
        }
        if carried_out(before, op) && records(f, op) {
            assert(records(f, ops[n]));
        }
    }
}

/// Whatever operations a freshly deployed instance is offered, its
/// readiness report says `initialized` exactly when an initialization was
/// carried out, `governed_params_set` exactly when governance was set up or
/// the limits were updated, and `emergency_controls_enabled` exactly when
/// an emergency pause or its resolution was carried out. Refused operations
/// leave no trace.
pub proof fn law_readiness_flags_follow_accepted_steps(ops: Seq<Operation>)
    ensures
        run(EscrowView::fresh(), ops).readiness_info().initialized == step_carried_out(
            EscrowView::fresh(),
            ops,
            ReadinessStep::Initialized,
        ),
        run(EscrowView::fresh(), ops).readiness_info().governed_params_set == step_carried_out(
            EscrowView::fresh(),
            ops,
            ReadinessStep::GovernedParams,
        ),
        run(EscrowView::fresh(), ops).readiness_info().emergency_controls_enabled
            == step_carried_out(EscrowView::fresh(), ops, ReadinessStep::EmergencyControls),
{
    lemma_run_flag(EscrowView::fresh(), ops, ReadinessStep::Initialized);
    lemma_run_flag(EscrowView::fresh(), ops, ReadinessStep::GovernedParams);
    lemma_run_flag(EscrowView::fresh(), ops, ReadinessStep::EmergencyControls);
}

} // verus!
