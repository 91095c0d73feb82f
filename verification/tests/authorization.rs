use escrow::{
    apply_to_stored, AccountId, ContractData, ContractStatus, Escrow, EscrowError, ProtocolParameters,
    RecordOp,
};

const CLIENT: AccountId = AccountId { id: 1 };
const FREELANCER: AccountId = AccountId { id: 2 };
const NEWCOMER: AccountId = AccountId { id: 3 };
const STRANGER: AccountId = AccountId { id: 4 };

fn funded_agreement() -> (Escrow, u32) {
    let mut escrow = Escrow::new();
    let id = escrow.create_contract(CLIENT, FREELANCER, &vec![100_i128, 200_i128]).unwrap();
    escrow.deposit_funds(id, CLIENT, 300).unwrap();
    (escrow, id)
}

#[test]
fn only_the_client_moves_funds() {
    let (mut escrow, id) = funded_agreement();
    for who in [FREELANCER, STRANGER] {
        assert_eq!(escrow.deposit_funds(id, who, 1), Err(EscrowError::Unauthorized));
        assert_eq!(escrow.set_milestone_funded(id, who, 0, 100), Err(EscrowError::Unauthorized));
        assert_eq!(escrow.release_milestone(id, who, 0), Err(EscrowError::Unauthorized));
        assert_eq!(
            escrow.request_client_migration(id, who, NEWCOMER),
            Err(EscrowError::Unauthorized)
        );
    }
    let record = escrow.get_contract(id).unwrap();
    assert_eq!(record.total_funded, 300);
    assert_eq!(record.milestones[0].funded, 0);
    assert!(escrow.set_milestone_funded(id, CLIENT, 0, 100).unwrap());
    assert!(escrow.release_milestone(id, CLIENT, 0).unwrap());
}

#[test]
fn earlier_checks_come_before_authorization() {
    let (mut escrow, id) = funded_agreement();
    assert_eq!(escrow.deposit_funds(9, STRANGER, 1), Err(EscrowError::ContractNotFound));
    assert_eq!(escrow.deposit_funds(id, STRANGER, 0), Err(EscrowError::InvalidDepositAmount));
    escrow.activate_emergency_pause(STRANGER).unwrap();
    assert_eq!(escrow.release_milestone(id, STRANGER, 0), Err(EscrowError::ContractPaused));
    assert_eq!(escrow.confirm_client_migration(id, STRANGER), Err(EscrowError::NoPendingMigration));
}

#[test]
fn hand_over_roles() {
    let (mut escrow, id) = funded_agreement();
    escrow.request_client_migration(id, CLIENT, NEWCOMER).unwrap();
    assert_eq!(escrow.confirm_client_migration(id, CLIENT), Err(EscrowError::Unauthorized));
    assert_eq!(escrow.cancel_client_migration(id, NEWCOMER), Err(EscrowError::Unauthorized));
    assert_eq!(escrow.finalize_client_migration(id, CLIENT), Err(EscrowError::MigrationNotConfirmed));
    assert!(escrow.confirm_client_migration(id, NEWCOMER).unwrap());
    assert_eq!(escrow.finalize_client_migration(id, NEWCOMER), Err(EscrowError::Unauthorized));
    assert!(escrow.finalize_client_migration(id, CLIENT).unwrap());
    assert_eq!(escrow.get_contract(id).unwrap().client, NEWCOMER);
    assert_eq!(escrow.release_milestone(id, CLIENT, 0), Err(EscrowError::Unauthorized));
}

#[test]
fn only_the_governance_admin_governs() {
    let mut escrow = Escrow::new();
    assert!(escrow.update_protocol_parameters(STRANGER, 5, 8, 1, 5).unwrap());
    escrow.initialize_protocol_governance(CLIENT, 10, 4, 1, 5).unwrap();
    assert_eq!(
        escrow.update_protocol_parameters(STRANGER, 20, 4, 1, 5),
        Err(EscrowError::Unauthorized)
    );
    assert_eq!(
        escrow.update_protocol_parameters(STRANGER, 0, 4, 1, 5),
        Err(EscrowError::Unauthorized)
    );
    assert_eq!(escrow.get_protocol_parameters().min_milestone_amount, 10);
    assert!(escrow.update_protocol_parameters(CLIENT, 20, 4, 1, 5).unwrap());
    assert_eq!(
        escrow.propose_governance_admin(STRANGER, STRANGER),
        Err(EscrowError::Unauthorized)
    );
    escrow.propose_governance_admin(CLIENT, NEWCOMER).unwrap();
    assert_eq!(escrow.accept_governance_admin(STRANGER), Err(EscrowError::Unauthorized));
    assert_eq!(escrow.get_governance_admin(), Some(CLIENT));
    escrow.accept_governance_admin(NEWCOMER).unwrap();
    assert_eq!(
        escrow.update_protocol_parameters(CLIENT, 30, 4, 1, 5),
        Err(EscrowError::Unauthorized)
    );
}

#[test]
fn stored_records_are_updated_one_at_a_time() {
    let params = ProtocolParameters {
        min_milestone_amount: 1,
        max_milestones: 16,
        min_reputation_rating: 1,
        max_reputation_rating: 5,
    };
    let record = ContractData::create(false, params, CLIENT, FREELANCER, &vec![40_i128, 60]).unwrap();
    assert_eq!(record.total_amount, 100);
    assert_eq!(record.status, ContractStatus::Created);
    assert_eq!(
        ContractData::create(true, params, CLIENT, FREELANCER, &vec![40_i128]).err(),
        Some(EscrowError::ContractPaused)
    );

    let deposit = RecordOp::Deposit { caller: CLIENT, amount: 70 };
    assert_eq!(apply_to_stored(false, None, deposit).err(), Some(EscrowError::ContractNotFound));
    assert_eq!(apply_to_stored(true, None, deposit).err(), Some(EscrowError::ContractPaused));
    let funded = apply_to_stored(false, Some(record), deposit).unwrap();
    assert_eq!(funded.total_funded, 70);
    assert_eq!(funded.status, ContractStatus::Funded);

    let refused = apply_to_stored(
        false,
        Some(funded),
        RecordOp::Fund { caller: FREELANCER, milestone_idx: 0, amount: 40 },
    );
    assert_eq!(refused.err(), Some(EscrowError::Unauthorized));
}

#[test]
fn emergency_controls_belong_to_the_administrator() {
    let mut escrow = Escrow::new();
    assert_eq!(escrow.get_admin(), None);
    escrow.initialize(CLIENT).unwrap();
    assert_eq!(escrow.get_admin(), Some(CLIENT));
    assert_eq!(escrow.activate_emergency_pause(STRANGER), Err(EscrowError::Unauthorized));
    assert!(!escrow.is_emergency());
    assert!(!escrow.get_mainnet_readiness_info().emergency_controls_enabled);
    escrow.activate_emergency_pause(CLIENT).unwrap();
    assert!(escrow.is_emergency());
    assert_eq!(escrow.resolve_emergency(STRANGER), Err(EscrowError::Unauthorized));
    assert!(escrow.is_emergency());
    escrow.resolve_emergency(CLIENT).unwrap();
    assert!(!escrow.is_emergency());
    assert!(escrow.initialize(STRANGER).is_err());
    assert_eq!(escrow.get_admin(), Some(CLIENT));
}

#[test]
fn work_evidence_travels_with_its_milestone() {
    let params = ProtocolParameters {
        min_milestone_amount: 1,
        max_milestones: 16,
        min_reputation_rating: 1,
        max_reputation_rating: 5,
    };
    let mut record = ContractData::create(false, params, CLIENT, FREELANCER, &vec![40_i128, 60]).unwrap();
    assert_eq!(record.milestones[0].work_evidence, None);
    record.milestones[1].work_evidence = Some(String::from("ipfs://design-draft"));
    assert!(record.is_consistent());
    let record = apply_to_stored(false, Some(record), RecordOp::Deposit { caller: CLIENT, amount: 100 }).unwrap();
    let record = apply_to_stored(
        false,
        Some(record),
        RecordOp::Fund { caller: CLIENT, milestone_idx: 1, amount: 60 },
    )
    .unwrap();
    let record = apply_to_stored(false, Some(record), RecordOp::Release { caller: CLIENT, milestone_idx: 1 }).unwrap();
    assert!(record.milestones[1].released);
    assert_eq!(record.milestones[1].work_evidence, Some(String::from("ipfs://design-draft")));
}
