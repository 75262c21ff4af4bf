//! Escrow settlement for client / service-provider engagements: escrow
//! records, milestone tracking, earnings distribution with fee splitting and
//! dispute resolution, all as verified state transitions on plain values.
//!
//! The ledger around the library (authorization, token balances and
//! transfers, persistence) stays outside it: operations take the live
//! balances they depend on as arguments and return the payouts to perform.
pub mod contract;
pub mod dispute;
pub mod error;
pub mod escrow;
pub mod fees;
pub mod laws;
pub mod milestone;
pub mod store;
pub mod types;
pub mod user;

pub use contract::EngagementContract;
pub use dispute::DisputeManager;
pub use error::ContractError;
pub use escrow::EscrowManager;
pub use fees::{split_earnings, FeeSplit};
pub use milestone::MilestoneManager;
pub use store::EscrowStore;
pub use types::{AccountId, AllowanceValue, Escrow, Milestone, Objective, Payout};
pub use user::{User, UserManager, UserRegistry};
