//! A crowdfunding escrow: a campaign holds a fundraising goal and a deadline;
//! contributors deposit value into a campaign-owned vault; the creator may
//! withdraw the vault's balance only if the goal was met by the deadline;
//! contributors may reclaim their stakes only if the goal was missed.
//!
//! The library is the escrow state machine and its bookkeeping. Moving value
//! and reading the clock belong to an external ledger: each operation takes
//! the current time (and, where it settles funds, the vault balance) as
//! arguments and returns the one transfer the ledger must perform.
//! [`model`] states the global invariants of that machine and proves every
//! operation preserves them.

pub mod errors;
pub mod model;
pub mod ops;
pub mod state;

pub use errors::CrowdfundError;
pub use ops::{contribute, create_campaign, refund, withdraw};
pub use ops::{Deposit, Payout, VaultAuthority};
pub use state::{AccountId, Campaign, CampaignView, Contribution, MAX_NAME_LEN};
