//! Milestone escrow between a client and a freelancer: agreement creation,
//! deposits, per-milestone funding and release, client hand-over, protocol
//! governance, emergency controls and the mainnet readiness report.

pub mod baseline;
pub mod escrow;
pub mod guarantees;
pub mod host;
pub mod laws;
pub mod milestones;
pub mod model;
pub mod types;

pub use crate::baseline::{
    assert_within_baseline, BaselineRegression, MeasuredResources, ResourceBaseline, ResourceMetric,
};
pub use crate::escrow::{apply_to_stored, precheck_op, ContractData, Escrow, EscrowState};
pub use crate::model::RecordOp;
pub use crate::host::amounts_from_host;
pub use crate::types::{
    AccountId, ContractStatus, DataKey, Error, EscrowError, MainnetReadinessInfo, Milestone,
    PendingClientMigration, ProtocolParameters, ReadinessChecklist,
    MAINNET_MAX_TOTAL_ESCROW_PER_CONTRACT_STROOPS, MAINNET_PROTOCOL_VERSION,
};
