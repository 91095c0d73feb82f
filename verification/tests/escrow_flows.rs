use escrow::{
    AccountId, ContractStatus, Escrow, EscrowError, MAINNET_MAX_TOTAL_ESCROW_PER_CONTRACT_STROOPS,
};

const MILESTONE_ONE: i128 = 1000;

fn participants() -> (AccountId, AccountId) {
    (AccountId { id: 10 }, AccountId { id: 20 })
}

fn default_milestones() -> Vec<i128> {
    vec![MILESTONE_ONE, 2000, 3000]
}

fn total_milestone_amount() -> i128 {
    6000
}

#[test]
fn test_test_hello() {
    assert_eq!(Escrow::hello("World"), "World");
}

#[test]
fn hello_test_hello() {
    let result = Escrow::hello(String::from("World"));
    assert_eq!(result, "World");
}

#[test]
fn test_create_contract() {
    let mut escrow = Escrow::new();
    let (client_addr, freelancer_addr) = participants();
    let milestones = vec![200_0000000_i128, 400_0000000_i128, 600_0000000_i128];

    let id = escrow
        .create_contract(client_addr, freelancer_addr, &milestones)
        .unwrap();
    assert_eq!(id, 0);
}

#[test]
fn test_deposit_funds() {
    let mut escrow = Escrow::new();
    let (client_addr, freelancer_addr) = participants();
    let milestones = vec![200_0000000_i128, 400_0000000_i128, 600_0000000_i128];

    let contract_id_val = escrow
        .create_contract(client_addr, freelancer_addr, &milestones)
        .unwrap();
    let result = escrow.deposit_funds(contract_id_val, client_addr, 1_000_0000000).unwrap();
    assert!(result);
}

#[test]
fn test_release_milestone() {
    let mut escrow = Escrow::new();
    let (client_addr, freelancer_addr) = participants();
    let milestones = vec![200_0000000_i128, 400_0000000_i128, 600_0000000_i128];

    let contract_id_val = escrow
        .create_contract(client_addr, freelancer_addr, &milestones)
        .unwrap();
    escrow.deposit_funds(contract_id_val, client_addr, 1_200_0000000).unwrap();
    escrow
        .set_milestone_funded(contract_id_val, client_addr, 0, 200_0000000)
        .unwrap();

    let result = escrow.release_milestone(contract_id_val, client_addr, 0).unwrap();
    assert!(result);
}

#[test]
fn test_per_milestone_funding_tracking() {
    let mut escrow = Escrow::new();
    let (client_addr, freelancer_addr) = participants();
    let milestones = vec![100_i128, 200_i128, 300_i128];

    let contract_id_val = escrow
        .create_contract(client_addr, freelancer_addr, &milestones)
        .unwrap();

    assert!(escrow.deposit_funds(contract_id_val, client_addr, 600_i128).unwrap());

    assert!(escrow.set_milestone_funded(contract_id_val, client_addr, 0, 100_i128).unwrap());
    assert!(escrow.set_milestone_funded(contract_id_val, client_addr, 1, 200_i128).unwrap());
    assert!(escrow.set_milestone_funded(contract_id_val, client_addr, 2, 300_i128).unwrap());

    assert_eq!(escrow.get_milestone_funded(contract_id_val, 0), 100_i128);
    assert_eq!(escrow.get_milestone_funded(contract_id_val, 1), 200_i128);
    assert_eq!(escrow.get_milestone_funded(contract_id_val, 2), 300_i128);
}

#[test]
fn get_contract_for_missing_id_fails() {
    let escrow = Escrow::new();
    assert_eq!(
        escrow.get_contract(999).err(),
        Some(EscrowError::ContractNotFound)
    );
}

#[test]
fn scenario_empty_milestones_fails() {
    let mut escrow = Escrow::new();
    let (client_addr, freelancer_addr) = participants();
    let empty: Vec<i128> = Vec::new();
    let result = escrow.create_contract(client_addr, freelancer_addr, &empty);
    assert_eq!(result, Err(EscrowError::EmptyMilestones));
}

#[test]
fn scenario_invalid_milestone_amount_zero_fails() {
    let mut escrow = Escrow::new();
    let (client_addr, freelancer_addr) = participants();
    let result = escrow.create_contract(client_addr, freelancer_addr, &vec![0_i128]);
    assert_eq!(result, Err(EscrowError::InvalidMilestoneAmount));
}

#[test]
fn scenario_invalid_milestone_amount_negative_fails() {
    let mut escrow = Escrow::new();
    let (client_addr, freelancer_addr) = participants();
    let result = escrow.create_contract(client_addr, freelancer_addr, &vec![-100_0000000_i128]);
    assert_eq!(result, Err(EscrowError::InvalidMilestoneAmount));
}

#[test]
fn scenario_invalid_deposit_amount_zero_fails() {
    let mut escrow = Escrow::new();
    let (client_addr, freelancer_addr) = participants();
    let contract_id = escrow
        .create_contract(client_addr, freelancer_addr, &vec![100_0000000_i128])
        .unwrap();
    let result = escrow.deposit_funds(contract_id, client_addr, 0);
    assert_eq!(result, Err(EscrowError::InvalidDepositAmount));
}

#[test]
fn scenario_same_client_freelancer_fails() {
    let mut escrow = Escrow::new();
    let same_addr = AccountId { id: 5 };
    let result = escrow.create_contract(same_addr, same_addr, &vec![100_0000000_i128]);
    assert_eq!(result, Err(EscrowError::InvalidParticipant));
}

#[test]
fn scenario_refund_partial_funding() {
    let mut escrow = Escrow::new();
    let (client_addr, freelancer_addr) = participants();
    let contract_id = escrow
        .create_contract(
            client_addr,
            freelancer_addr,
            &vec![100_0000000_i128, 100_0000000_i128],
        )
        .unwrap();
    let _ = escrow.deposit_funds(contract_id, client_addr, 100_0000000_i128);
    let record = escrow.get_contract(contract_id).unwrap();
    assert_eq!(record.total_funded, 100_0000000_i128);
}

#[test]
fn scenario_invalid_milestone_index_fails() {
    let mut escrow = Escrow::new();
    let (client_addr, freelancer_addr) = participants();
    let contract_id = escrow
        .create_contract(client_addr, freelancer_addr, &default_milestones())
        .unwrap();
    let _ = escrow.deposit_funds(contract_id, client_addr, total_milestone_amount());
    let result = escrow.release_milestone(contract_id, client_addr, 100);
    assert_eq!(result, Err(EscrowError::InvalidMilestone));
}

#[test]
fn test_create_rejects_empty_milestones() {
    let mut escrow = Escrow::new();
    let (client_addr, freelancer_addr) = participants();
    let result = escrow.create_contract(client_addr, freelancer_addr, &Vec::new());
    assert_eq!(result, Err(EscrowError::EmptyMilestones));
}

#[test]
fn test_create_rejects_non_positive_milestone_amount() {
    let mut escrow = Escrow::new();
    let (client_addr, freelancer_addr) = participants();
    let result = escrow.create_contract(client_addr, freelancer_addr, &vec![100_i128, 0_i128]);
    assert_eq!(result, Err(EscrowError::InvalidMilestoneAmount));
}

#[test]
fn test_release_requires_funded_state() {
    let mut escrow = Escrow::new();
    let (client_addr, freelancer_addr) = participants();
    let contract_id = escrow
        .create_contract(client_addr, freelancer_addr, &default_milestones())
        .unwrap();
    let result = escrow.release_milestone(contract_id, client_addr, 0);
    assert_eq!(result, Err(EscrowError::InvalidState));
}

#[test]
fn deposit_partial_funds_transitions_to_funded_and_persists_balance() {
    let mut escrow = Escrow::new();
    let (client_addr, freelancer_addr) = participants();
    let contract_id = escrow
        .create_contract(
            client_addr,
            freelancer_addr,
            &vec![200_0000000_i128, 400_0000000_i128, 600_0000000_i128],
        )
        .unwrap();

    assert!(escrow.deposit_funds(contract_id, client_addr, 1_000_0000000_i128).unwrap());

    let contract = escrow.get_contract(contract_id).unwrap();
    assert_eq!(contract.total_funded, 1_000_0000000_i128);
    assert_eq!(contract.total_released, 0);
    assert_eq!(contract.status, ContractStatus::Funded);
}

#[test]
fn full_funding_matches_total_amount() {
    let mut escrow = Escrow::new();
    let (client_addr, freelancer_addr) = participants();
    let contract_id = escrow
        .create_contract(client_addr, freelancer_addr, &default_milestones())
        .unwrap();
    assert!(escrow.deposit_funds(contract_id, client_addr, total_milestone_amount()).unwrap());

    let contract = escrow.get_contract(contract_id).unwrap();
    assert_eq!(contract.total_funded, total_milestone_amount());
    assert_eq!(contract.status, ContractStatus::Funded);
}

#[test]
fn contract_ids_follow_creation_order() {
    let mut escrow = Escrow::new();
    let (client_addr, freelancer_addr) = participants();
    let a = escrow
        .create_contract(client_addr, freelancer_addr, &default_milestones())
        .unwrap();
    let b = escrow
        .create_contract(client_addr, freelancer_addr, &default_milestones())
        .unwrap();
    assert_eq!((a, b), (0, 1));
    assert_eq!(escrow.next_contract_id(), 2);
    let record = escrow.get_contract(b).unwrap();
    assert_eq!(record.total_amount, total_milestone_amount());
    assert_eq!(record.milestones.len(), 3);
    assert_eq!(record.status, ContractStatus::Created);
}

#[test]
fn releasing_every_milestone_completes_the_agreement() {
    let mut escrow = Escrow::new();
    let (client_addr, freelancer_addr) = participants();
    let id = escrow
        .create_contract(client_addr, freelancer_addr, &vec![100_i128, 200_i128])
        .unwrap();
    escrow.deposit_funds(id, client_addr, 300).unwrap();
    escrow.set_milestone_funded(id, client_addr, 0, 100).unwrap();
    escrow.set_milestone_funded(id, client_addr, 1, 200).unwrap();

    assert!(escrow.release_milestone(id, client_addr, 0).unwrap());
    assert_eq!(escrow.get_contract(id).unwrap().status, ContractStatus::Funded);
    assert_eq!(
        escrow.release_milestone(id, client_addr, 0),
        Err(EscrowError::MilestoneAlreadyReleased)
    );

    assert!(escrow.release_milestone(id, client_addr, 1).unwrap());
    let record = escrow.get_contract(id).unwrap();
    assert_eq!(record.status, ContractStatus::Completed);
    assert_eq!(record.total_released, 300);
    assert!(record.milestones.iter().all(|m| m.released));

    // A completed agreement is closed.
    assert_eq!(escrow.release_milestone(id, client_addr, 1), Err(EscrowError::InvalidState));
    assert_eq!(escrow.deposit_funds(id, client_addr, 1), Err(EscrowError::InvalidState));
}

#[test]
fn release_needs_the_milestone_fully_funded() {
    let mut escrow = Escrow::new();
    let (client_addr, freelancer_addr) = participants();
    let id = escrow
        .create_contract(client_addr, freelancer_addr, &default_milestones())
        .unwrap();
    escrow.deposit_funds(id, client_addr, total_milestone_amount()).unwrap();
    assert_eq!(
        escrow.release_milestone(id, client_addr, 0),
        Err(EscrowError::InsufficientMilestoneFunding)
    );
    escrow.set_milestone_funded(id, client_addr, 0, MILESTONE_ONE - 1).unwrap();
    assert_eq!(
        escrow.release_milestone(id, client_addr, 0),
        Err(EscrowError::InsufficientMilestoneFunding)
    );
    escrow.set_milestone_funded(id, client_addr, 0, MILESTONE_ONE).unwrap();
    assert!(escrow.release_milestone(id, client_addr, 0).unwrap());
    let record = escrow.get_contract(id).unwrap();
    assert_eq!(record.total_released, MILESTONE_ONE);
    assert_eq!(record.milestones[0].released, true);
}

#[test]
fn deposits_never_exceed_the_total() {
    let mut escrow = Escrow::new();
    let (client_addr, freelancer_addr) = participants();
    let id = escrow
        .create_contract(client_addr, freelancer_addr, &default_milestones())
        .unwrap();
    assert!(escrow.deposit_funds(id, client_addr, 4000).unwrap());
    assert_eq!(escrow.deposit_funds(id, client_addr, 2001), Err(EscrowError::InvalidDepositAmount));
    assert!(escrow.deposit_funds(id, client_addr, 2000).unwrap());
    assert_eq!(escrow.deposit_funds(id, client_addr, 1), Err(EscrowError::InvalidDepositAmount));
    assert_eq!(escrow.get_contract(id).unwrap().total_funded, total_milestone_amount());
    assert_eq!(escrow.deposit_funds(id, client_addr, i128::MAX), Err(EscrowError::InvalidDepositAmount));
    assert_eq!(escrow.deposit_funds(5, client_addr, 10), Err(EscrowError::ContractNotFound));
    assert_eq!(escrow.deposit_funds(id, client_addr, -3), Err(EscrowError::InvalidDepositAmount));
}

#[test]
fn funding_allocation_rules() {
    let mut escrow = Escrow::new();
    let (client_addr, freelancer_addr) = participants();
    let id = escrow
        .create_contract(client_addr, freelancer_addr, &vec![100_i128, 200_i128, 300_i128])
        .unwrap();
    escrow.deposit_funds(id, client_addr, 250).unwrap();

    assert_eq!(escrow.set_milestone_funded(9, client_addr, 0, 1), Err(EscrowError::ContractNotFound));
    assert_eq!(escrow.set_milestone_funded(id, client_addr, 3, 1), Err(EscrowError::InvalidMilestone));
    assert_eq!(escrow.set_milestone_funded(id, client_addr, 0, -1), Err(EscrowError::InvalidDepositAmount));
    assert_eq!(escrow.set_milestone_funded(id, client_addr, 0, 101), Err(EscrowError::InvalidDepositAmount));

    assert!(escrow.set_milestone_funded(id, client_addr, 0, 100).unwrap());
    assert!(escrow.set_milestone_funded(id, client_addr, 1, 150).unwrap());
    // 100 + 150 already set aside out of 250 deposited.
    assert_eq!(escrow.set_milestone_funded(id, client_addr, 2, 1), Err(EscrowError::InvalidDepositAmount));
    // Lowering an allocation frees room for another.
    assert!(escrow.set_milestone_funded(id, client_addr, 1, 100).unwrap());
    assert!(escrow.set_milestone_funded(id, client_addr, 2, 50).unwrap());

    assert!(escrow.release_milestone(id, client_addr, 0).unwrap());
    assert_eq!(
        escrow.set_milestone_funded(id, client_addr, 0, 0),
        Err(EscrowError::MilestoneAlreadyReleased)
    );
    assert_eq!(escrow.get_milestone_funded(id, 0), 100);
    assert_eq!(escrow.get_milestone_funded(id, 7), 0);
    assert_eq!(escrow.get_milestone_funded(42, 0), 0);
}

#[test]
fn emergency_pause_blocks_fund_movements() {
    let mut escrow = Escrow::new();
    let (client_addr, freelancer_addr) = participants();
    let id = escrow
        .create_contract(client_addr, freelancer_addr, &vec![50_i128, 75_i128])
        .unwrap();
    escrow.activate_emergency_pause(client_addr).unwrap();
    assert!(escrow.is_emergency());
    assert_eq!(
        escrow.create_contract(client_addr, freelancer_addr, &vec![50_i128, 75_i128]),
        Err(EscrowError::ContractPaused)
    );
    assert_eq!(escrow.deposit_funds(id, client_addr, 10), Err(EscrowError::ContractPaused));
    assert_eq!(escrow.release_milestone(id, client_addr, 0), Err(EscrowError::ContractPaused));

    escrow.resolve_emergency(client_addr).unwrap();
    assert!(!escrow.is_emergency());
    assert!(escrow.deposit_funds(id, client_addr, 125).unwrap());
    let created = escrow
        .create_contract(client_addr, freelancer_addr, &vec![10_i128, 20_i128])
        .unwrap();
    assert_eq!(created, 1);
}

#[test]
fn creation_is_checked_against_the_total_cap() {
    let mut escrow = Escrow::new();
    let (client_addr, freelancer_addr) = participants();
    let cap = MAINNET_MAX_TOTAL_ESCROW_PER_CONTRACT_STROOPS;
    assert_eq!(
        escrow.create_contract(client_addr, freelancer_addr, &vec![cap, 1]),
        Err(EscrowError::TotalCapExceeded)
    );
    assert_eq!(escrow.create_contract(client_addr, freelancer_addr, &vec![cap]), Ok(0));
}
