use escrow::{
    AccountId, ContractData, ContractStatus, Escrow, EscrowState, Milestone,
    PendingClientMigration,
};

fn sample() -> Escrow {
    let mut escrow = Escrow::new();
    let c = AccountId { id: 1 };
    let f = AccountId { id: 2 };
    let id = escrow.create_contract(c, f, &vec![100_i128, 200_i128]).unwrap();
    escrow.deposit_funds(id, AccountId { id: 1 }, 150).unwrap();
    escrow.set_milestone_funded(id, AccountId { id: 1 }, 0, 100).unwrap();
    escrow.release_milestone(id, AccountId { id: 1 }, 0).unwrap();
    escrow.create_contract(c, f, &vec![5_i128]).unwrap();
    escrow.initialize(AccountId { id: 9 }).unwrap();
    escrow
}

fn record(milestones: Vec<Milestone>, funded: i128, released: i128, status: ContractStatus) -> ContractData {
    let total = milestones.iter().map(|m| m.amount).sum();
    ContractData {
        client: AccountId { id: 1 },
        freelancer: AccountId { id: 2 },
        milestones,
        total_amount: total,
        total_funded: funded,
        total_released: released,
        status,
        pending_migration: None,
    }
}

fn state_with(contracts: Vec<ContractData>) -> EscrowState {
    let mut state = Escrow::new().into_state();
    state.contracts = contracts;
    state
}

#[test]
fn stored_state_round_trips() {
    let escrow = sample();
    let before = escrow.get_mainnet_readiness_info();
    let restored = Escrow::from_state(escrow.into_state()).expect("consistent state");
    assert_eq!(restored.get_mainnet_readiness_info(), before);
    assert_eq!(restored.next_contract_id(), 2);
    let first = restored.get_contract(0).unwrap();
    assert_eq!(first.total_funded, 150);
    assert_eq!(first.total_released, 100);
    assert_eq!(first.status, ContractStatus::Funded);
    assert!(first.milestones[0].released);
    assert!(!first.milestones[1].released);
}

#[test]
fn consistent_records_are_accepted() {
    let ok = record(
        vec![
            Milestone { amount: 10, funded: 10, released: true, work_evidence: None },
            Milestone { amount: 5, funded: 0, released: false, work_evidence: None },
        ],
        12,
        10,
        ContractStatus::Funded,
    );
    assert!(ok.is_consistent());
    assert!(Escrow::from_state(state_with(vec![ok])).is_some());
}

#[test]
fn inconsistent_records_are_rejected() {
    let m = |amount, funded, released| Milestone { amount, funded, released, work_evidence: None };
    let cases = vec![
        // payouts that do not match the released milestones
        record(vec![m(10, 10, true)], 10, 5, ContractStatus::Completed),
        // more set aside than deposited
        record(vec![m(10, 10, false)], 5, 0, ContractStatus::Funded),
        // deposits beyond the total
        record(vec![m(10, 0, false)], 11, 0, ContractStatus::Funded),
        // released without full funding
        record(vec![m(10, 3, true)], 10, 10, ContractStatus::Completed),
        // completed with a milestone still open
        record(vec![m(10, 10, true), m(5, 0, false)], 10, 10, ContractStatus::Completed),
        // created although something was deposited
        record(vec![m(10, 0, false)], 4, 0, ContractStatus::Created),
        // disputed agreements do not arise
        record(vec![m(10, 0, false)], 4, 0, ContractStatus::Disputed),
        // no milestones
        record(vec![], 0, 0, ContractStatus::Created),
    ];
    for c in cases {
        assert!(!c.is_consistent());
        assert!(Escrow::from_state(state_with(vec![c])).is_none());
    }

    let mut same_parties = record(vec![m(10, 0, false)], 0, 0, ContractStatus::Created);
    same_parties.freelancer = same_parties.client;
    assert!(!same_parties.is_consistent());

    let mut bad_migration = record(vec![m(10, 0, false)], 0, 0, ContractStatus::Created);
    bad_migration.pending_migration = Some(PendingClientMigration {
        current_client: AccountId { id: 1 },
        proposed_client: AccountId { id: 2 },
        proposed_client_confirmed: false,
    });
    assert!(!bad_migration.is_consistent());

    let mut wrong_total = record(vec![m(10, 0, false)], 0, 0, ContractStatus::Created);
    wrong_total.total_amount = 11;
    assert!(!wrong_total.is_consistent());
}

#[test]
fn inconsistent_instance_flags_are_rejected() {
    let mut state = Escrow::new().into_state();
    state.initialized = true;
    assert!(Escrow::from_state(state).is_none());

    let mut state = Escrow::new().into_state();
    state.parameters.max_milestones = 0;
    assert!(Escrow::from_state(state).is_none());

    let mut state = Escrow::new().into_state();
    state.pending_governance_admin = Some(AccountId { id: 4 });
    assert!(Escrow::from_state(state).is_none());
}

#[test]
fn history_is_kept_across_operations() {
    let mut escrow = sample();
    escrow.activate_emergency_pause(AccountId { id: 9 }).unwrap();
    escrow.resolve_emergency(AccountId { id: 9 }).unwrap();
    escrow.update_protocol_parameters(AccountId { id: 1 }, 1, 2, 1, 5).unwrap();
    escrow.deposit_funds(0, AccountId { id: 1 }, 150).unwrap();
    escrow.set_milestone_funded(0, AccountId { id: 1 }, 1, 200).unwrap();
    let r = escrow.get_contract(0).unwrap();
    assert!(r.milestones[0].released);
    assert_eq!(r.total_released, 100);
    assert_eq!(r.total_funded, 300);
    assert_eq!(r.milestones[1].amount, 200);
    let info = escrow.get_mainnet_readiness_info();
    assert!(info.initialized && info.governed_params_set && info.emergency_controls_enabled);
    escrow.release_milestone(0, AccountId { id: 1 }, 1).unwrap();
    assert_eq!(escrow.get_contract(0).unwrap().status, ContractStatus::Completed);
}
