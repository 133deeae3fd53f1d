use vstd::prelude::*;

use crate::keys::Pubkey;

verus! {

/// Emitted when a campaign has been created.
#[derive(Clone, Copy, Debug)]
pub struct CampaignCreated {
    pub creator: Pubkey,
    pub campaign_id: [u8; 16],
    pub token_mint: Pubkey,
    pub amount_per_recipient: u64,
    pub crank_authority: Pubkey,
}

/// Emitted when the creator has funded the escrow.
#[derive(Clone, Copy, Debug)]
pub struct CampaignFunded {
    pub creator: Pubkey,
    pub campaign_id: [u8; 16],
    pub amount: u64,
}

/// Emitted when a batch has been paid out; `total_distributed` is the
/// campaign's cumulative payout after the batch.
#[derive(Clone, Copy, Debug)]
pub struct BatchDistributed {
    pub campaign_id: [u8; 16],
    pub recipient_count: u32,
    pub total_distributed: u64,
}

/// Emitted when the creator has cancelled the campaign, taken back what the
/// escrow held and closed the escrow.
#[derive(Clone, Copy, Debug)]
pub struct CampaignRefunded {
    pub creator: Pubkey,
    pub campaign_id: [u8; 16],
    pub refund_amount: u64,
}

impl CampaignRefunded {
    /// Whether the refund pays tokens back to the creator before the
    /// escrow is closed; an empty escrow is closed without a transfer.
    pub fn moves_tokens(&self) -> (r: bool)
        ensures
            r == (self.refund_amount > 0),
    {
        self.refund_amount > 0
    }
}

} // verus!
