use escrow::{AccountId, Escrow, EscrowError, MAINNET_MAX_TOTAL_ESCROW_PER_CONTRACT_STROOPS};

const MAX_MILESTONES: u32 = 16;
const MAX_TOTAL_ESCROW_STROOPS: i128 = MAINNET_MAX_TOTAL_ESCROW_PER_CONTRACT_STROOPS;

fn setup() -> (Escrow, AccountId, AccountId) {
    (Escrow::new(), AccountId { id: 1 }, AccountId { id: 2 })
}

#[test]
fn create_contract_accepts_exactly_max_milestones() {
    let (mut escrow, client_addr, freelancer_addr) = setup();
    let mut milestones = vec![1_i128];
    for _ in 1..MAX_MILESTONES {
        milestones.push(1_i128);
    }
    assert_eq!(milestones.len() as u32, MAX_MILESTONES);
    let _id = escrow
        .create_contract(client_addr, freelancer_addr, &milestones)
        .unwrap();
}

#[test]
fn create_contract_rejects_milestone_count_above_max() {
    let (mut escrow, client_addr, freelancer_addr) = setup();
    let mut milestones = vec![1_i128];
    for _ in 1..=MAX_MILESTONES {
        milestones.push(1_i128);
    }
    assert_eq!(milestones.len() as u32, MAX_MILESTONES + 1);
    let result = escrow.create_contract(client_addr, freelancer_addr, &milestones);
    assert!(result.is_err(), "expected error for count > MAX_MILESTONES");
}

#[test]
fn create_contract_rejects_count_one_above_max_with_error_code() {
    let (mut escrow, client_addr, freelancer_addr) = setup();
    let mut milestones = vec![1_i128];
    for _ in 1..=MAX_MILESTONES {
        milestones.push(1_i128);
    }
    let result = escrow.create_contract(client_addr, freelancer_addr, &milestones);
    match result {
        Err(EscrowError::TooManyMilestones) => {}
        other => panic!("expected TooManyMilestones, got {:?}", other),
    }
}

#[test]
fn create_contract_accepts_total_exactly_at_cap() {
    let (mut escrow, client_addr, freelancer_addr) = setup();
    let milestones = vec![MAX_TOTAL_ESCROW_STROOPS];
    let _id = escrow
        .create_contract(client_addr, freelancer_addr, &milestones)
        .unwrap();
}

#[test]
fn create_contract_accepts_total_split_across_milestones_at_cap() {
    let (mut escrow, client_addr, freelancer_addr) = setup();
    let half = MAX_TOTAL_ESCROW_STROOPS / 2;
    let remainder = MAX_TOTAL_ESCROW_STROOPS - half;
    let milestones = vec![half, remainder];
    let _id = escrow
        .create_contract(client_addr, freelancer_addr, &milestones)
        .unwrap();
}

#[test]
fn create_contract_rejects_total_one_above_cap() {
    let (mut escrow, client_addr, freelancer_addr) = setup();
    let milestones = vec![MAX_TOTAL_ESCROW_STROOPS + 1];
    let result = escrow.create_contract(client_addr, freelancer_addr, &milestones);
    match result {
        Err(EscrowError::TotalCapExceeded) => {}
        other => panic!("expected TotalCapExceeded, got {:?}", other),
    }
}

#[test]
fn create_contract_rejects_total_above_cap_across_milestones() {
    let (mut escrow, client_addr, freelancer_addr) = setup();
    let half = MAX_TOTAL_ESCROW_STROOPS / 2 + 1;
    let milestones = vec![half, half];
    let result = escrow.create_contract(client_addr, freelancer_addr, &milestones);
    match result {
        Err(EscrowError::TotalCapExceeded) => {}
        other => panic!("expected TotalCapExceeded, got {:?}", other),
    }
}

#[test]
fn create_contract_rejects_i128_max_single_milestone() {
    let (mut escrow, client_addr, freelancer_addr) = setup();
    let milestones = vec![i128::MAX];
    let result = escrow.create_contract(client_addr, freelancer_addr, &milestones);
    match result {
        Err(EscrowError::TotalCapExceeded) => {}
        other => panic!("expected TotalCapExceeded for i128::MAX milestone, got {:?}", other),
    }
}

#[test]
fn create_contract_rejects_two_large_milestones_that_would_overflow_i128() {
    let (mut escrow, client_addr, freelancer_addr) = setup();
    let large = i128::MAX / 2 + 2;
    let milestones = vec![large, large];
    let result = escrow.create_contract(client_addr, freelancer_addr, &milestones);
    match result {
        Err(EscrowError::TotalCapExceeded) => {}
        other => panic!("expected TotalCapExceeded for overflow pair, got {:?}", other),
    }
}

#[test]
fn count_check_fires_before_amount_check() {
    let (mut escrow, client_addr, freelancer_addr) = setup();
    let mut milestones = vec![MAX_TOTAL_ESCROW_STROOPS];
    for _ in 1..=MAX_MILESTONES {
        milestones.push(MAX_TOTAL_ESCROW_STROOPS);
    }
    let result = escrow.create_contract(client_addr, freelancer_addr, &milestones);
    match result {
        Err(EscrowError::TooManyMilestones) => {}
        other => panic!("expected TooManyMilestones (count check first), got {:?}", other),
    }
}

#[test]
fn create_contract_still_accepts_original_three_milestone_example() {
    let (mut escrow, client_addr, freelancer_addr) = setup();
    let milestones = vec![200_0000000_i128, 400_0000000_i128, 600_0000000_i128];
    let id = escrow
        .create_contract(client_addr, freelancer_addr, &milestones)
        .unwrap();
    assert_eq!(id, 0);
}

#[test]
fn test_create_contract_panics_when_single_milestone_is_zero() {
    let (mut escrow, a, b) = setup();
    assert_eq!(
        escrow.create_contract(a, b, &vec![0_i128]),
        Err(EscrowError::InvalidMilestoneAmount)
    );
}

#[test]
fn test_create_contract_panics_when_single_milestone_is_negative() {
    let (mut escrow, a, b) = setup();
    assert_eq!(
        escrow.create_contract(a, b, &vec![-1_i128]),
        Err(EscrowError::InvalidMilestoneAmount)
    );
}

#[test]
fn test_create_contract_panics_when_any_milestone_is_non_positive() {
    let (mut escrow, a, b) = setup();
    assert_eq!(
        escrow.create_contract(a, b, &vec![100_0000000_i128, 0_i128, 200_0000000_i128]),
        Err(EscrowError::InvalidMilestoneAmount)
    );
}

#[test]
fn test_create_contract_panics_when_client_equals_freelancer() {
    let (mut escrow, a, _) = setup();
    assert_eq!(
        escrow.create_contract(a, a, &vec![100_0000000_i128]),
        Err(EscrowError::InvalidParticipant)
    );
}

#[test]
fn refused_creation_leaves_the_counter_alone() {
    let (mut escrow, a, b) = setup();
    assert!(escrow.create_contract(a, a, &vec![1_i128]).is_err());
    assert!(escrow.create_contract(a, b, &Vec::new()).is_err());
    assert_eq!(escrow.next_contract_id(), 0);
    assert_eq!(escrow.create_contract(a, b, &vec![1_i128]), Ok(0));
}
