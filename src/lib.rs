//! Escrowed token-distribution campaigns: the lifecycle of one campaign,
//! the batched payout algorithm with its checked accounting, and the laws
//! that hold over every sequence of operations on a campaign.
//!
//! The ledger that actually moves tokens is outside this crate: every
//! operation here decides, validates and updates the campaign record, and
//! reports what the ledger has to do.
pub mod distribute;
pub mod error;
pub mod escrow;
pub mod events;
pub mod keys;
pub mod laws;
pub mod lifecycle;
pub mod state;
pub mod token;

pub use distribute::distribute_batch;
pub use error::AirdropError;
pub use events::{BatchDistributed, CampaignCreated, CampaignFunded, CampaignRefunded};
pub use keys::Pubkey;
pub use lifecycle::{create_campaign, fund_campaign, refund};
pub use state::{CampaignState, CampaignStatus};
