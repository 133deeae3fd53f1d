use vstd::prelude::*;

use crate::error::AirdropError;
use crate::events::{CampaignCreated, CampaignFunded, CampaignRefunded};
use crate::keys::Pubkey;
use crate::state::{funding_step, refund_step, CampaignState, CampaignStatus};

verus! {

/// Opens a campaign in `Draft` with nothing deposited or paid.
///
/// The ledger refuses a second campaign under the same `(creator,
/// campaign_id)`, since both derive the campaign's address; `bump` is the
/// bump seed that derivation found.
pub fn create_campaign(
    creator: Pubkey,
    campaign_id: [u8; 16],
    token_mint: Pubkey,
    escrow_ata: Pubkey,
    amount_per_recipient: u64,
    total_recipients: u32,
    crank_authority: Pubkey,
    bump: u8,
) -> (r: (CampaignState, CampaignCreated))
    ensures
        r.0 == (CampaignState {
            creator,
            campaign_id,
            token_mint,
            escrow_ata,
            amount_per_recipient,
            total_amount: 0,
            distributed_amount: 0,
            total_recipients,
            distributed_count: 0,
            status: CampaignStatus::Draft,
            crank_authority,
            bump,
        }),
        r.0.wf(),
        r.1 == (CampaignCreated {
            creator,
            campaign_id,
            token_mint,
            amount_per_recipient,
            crank_authority,
        }),
{
    let campaign = CampaignState {
        creator,
        campaign_id,
        token_mint,
        escrow_ata,
        amount_per_recipient,
        total_amount: 0,
        distributed_amount: 0,
        total_recipients,
        distributed_count: 0,
        status: CampaignStatus::Draft,
        crank_authority,
        bump,
    };
    let event = CampaignCreated {
        creator,
        campaign_id,
        token_mint,
        amount_per_recipient,
        crank_authority,
    };
    (campaign, event)
}

/// Records the one deposit of `amount` into the escrow by `caller`.
///
/// Only the creator may fund, and only a `Draft`: a campaign is funded once
/// and never topped up. On success the ledger moves `amount` from the
/// creator's token account into the escrow.
pub fn fund_campaign(campaign: &mut CampaignState, caller: Pubkey, amount: u64) -> (r: Result<
    CampaignFunded,
    AirdropError,
>)
    requires
        old(campaign).wf(),
    ensures
        final(campaign).wf(),
        match old(campaign).fund_check(caller, amount) {
            Some(e) => r == Err::<CampaignFunded, AirdropError>(e) && *final(campaign) == *old(
                campaign,
            ),
            None => *final(campaign) == old(campaign).after_funding(amount) && r == Ok::<
                CampaignFunded,
                AirdropError,
            >(
                CampaignFunded {
                    creator: old(campaign).creator,
                    campaign_id: old(campaign).campaign_id,
                    amount,
                },
            ),
        },
        caller == old(campaign).creator && old(campaign).status == CampaignStatus::Draft ==> r is Ok
            && final(campaign).total_amount == amount,
        r is Ok ==> funding_step(*old(campaign), *final(campaign)),
{
    if !caller.same_as(&campaign.creator) {
        return Err(AirdropError::Unauthorized);
    }
    if campaign.status != CampaignStatus::Draft {
        return Err(AirdropError::InvalidStatus);
    }
    let total_amount = match campaign.total_amount.checked_add(amount) {
        Some(t) => t,
        None => return Err(AirdropError::Overflow),
    };
    campaign.total_amount = total_amount;
    campaign.status = CampaignStatus::Funded;
    assert(old(campaign).fund_check(old(campaign).creator, amount) is None);
    assert(*campaign == old(campaign).after_funding(amount));
    Ok(CampaignFunded { creator: campaign.creator, campaign_id: campaign.campaign_id, amount })
}

/// Cancels the campaign at the request of `caller`; `escrow_balance` is what
/// the escrow holds now.
///
/// Only the creator may refund, at any point before the campaign completes.
/// Every successful refund releases the escrow: the ledger pays the whole
/// escrow balance back to the creator, where there is any, and then closes
/// the escrow account.
pub fn refund(campaign: &mut CampaignState, caller: Pubkey, escrow_balance: u64) -> (r: Result<
    CampaignRefunded,
    AirdropError,
>)
    requires
        old(campaign).wf(),
    ensures
        final(campaign).wf(),
        match old(campaign).refund_check(caller) {
            Some(e) => r == Err::<CampaignRefunded, AirdropError>(e) && *final(campaign) == *old(
                campaign,
            ),
            None => *final(campaign) == old(campaign).after_refund() && r == Ok::<
                CampaignRefunded,
                AirdropError,
            >(
                CampaignRefunded {
                    creator: old(campaign).creator,
                    campaign_id: old(campaign).campaign_id,
                    refund_amount: escrow_balance,
                },
            ),
        },
        r is Ok ==> refund_step(*old(campaign), *final(campaign)),
{
    if !caller.same_as(&campaign.creator) {
        return Err(AirdropError::Unauthorized);
    }
    if campaign.status == CampaignStatus::Completed {
        return Err(AirdropError::AlreadyCompleted);
    }
    campaign.status = CampaignStatus::Cancelled;
    Ok(
        CampaignRefunded {
            creator: campaign.creator,
            campaign_id: campaign.campaign_id,
            refund_amount: escrow_balance,
        },
    )
}

} // verus!
