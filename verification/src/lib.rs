//! Verified state machines for a learning platform's on-chain contracts:
//! soulbound course badges, a staking vault that grades reward multipliers,
//! and badge-weighted governance votes.

pub mod access;
pub mod address;
pub mod table;

pub use access::{check_admin, install_admin, AdminCheck};
pub use address::Address;
pub mod badge_nft;

pub use badge_nft::{Badge, BadgeError, BadgeMinted, BadgeNFT};
pub mod stake_vault;

pub use stake_vault::{ContractUpgraded, StakeInfo, StakeVault, VaultError};
pub mod governance;

pub use governance::{Governance, GovernanceError, Proposal, ProposalExecuted};
