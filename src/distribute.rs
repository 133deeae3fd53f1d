use vstd::prelude::*;

use crate::error::AirdropError;
use crate::events::BatchDistributed;
use crate::keys::Pubkey;
use crate::state::{batch_step, recipients_hold, CampaignState, CampaignStatus};

verus! {

/// Pays out one batch: the first `recipient_count` of the supplied recipient
/// accounts, asked for by `caller`. `recipient_mints[i]` is the token held
/// by the `i`-th supplied account, `None` where it is no token account, as
/// `token::recipient_mints` reads it.
///
/// The checks come in the order of `CampaignState::batch_check`: the caller,
/// the status, the number of supplied accounts, a cost beyond 64 bits
/// (`Overflow`), the escrow's funds, each recipient's token, and the paid
/// count.
///
/// The batch is all or nothing: every check, the recipients' tokens
/// included, is made before the record changes, and a refused batch leaves
/// it as it was. On success the ledger moves exactly
/// `amount_per_recipient` from the escrow to each of those accounts, signed
/// for by the campaign's derived address.
///
/// A batch is bounded by what the escrow holds, not by how many recipients
/// are left to reach `total_recipients`: the paid count may pass the target,
/// and completion is decided after the batch.
pub fn distribute_batch(
    campaign: &mut CampaignState,
    caller: Pubkey,
    recipient_count: u32,
    recipient_mints: &Vec<Option<Pubkey>>,
) -> (r: Result<BatchDistributed, AirdropError>)
    requires
        old(campaign).wf(),
    ensures
        final(campaign).wf(),
        match old(campaign).batch_check(caller, recipient_count, recipient_mints@) {
            Some(e) => r == Err::<BatchDistributed, AirdropError>(e) && *final(campaign) == *old(
                campaign,
            ),
            None => *final(campaign) == old(campaign).after_batch(recipient_count) && r == Ok::<
                BatchDistributed,
                AirdropError,
            >(
                BatchDistributed {
                    campaign_id: old(campaign).campaign_id,
                    recipient_count,
                    total_distributed: final(campaign).distributed_amount,
                },
            ),
        },
        r is Ok ==> batch_step(*old(campaign), *final(campaign)),
{
    if !caller.same_as(&campaign.crank_authority) {
        return Err(AirdropError::UnauthorizedCrank);
    }
    if !(campaign.status == CampaignStatus::Funded || campaign.status
        == CampaignStatus::Processing) {
        return Err(AirdropError::InvalidStatus);
    }
    if recipient_count as usize > recipient_mints.len() {
        return Err(AirdropError::BatchTooLarge);
    }
    let amount_per = campaign.amount_per_recipient;
    proof {
        assert(amount_per as int * recipient_count as int <= u64::MAX as int * u32::MAX as int)
            by (nonlinear_arith)
            requires
                amount_per <= u64::MAX,
                recipient_count <= u32::MAX,
        ;
    }
    // The cost is computed exactly in 128 bits, and refused where it does
    // not fit the 64-bit amounts that the escrow holds.
    let total_needed: u128 = match (amount_per as u128).checked_mul(recipient_count as u128) {
        Some(t) => t,
        None => return Err(AirdropError::Overflow),
    };
    if total_needed > u64::MAX as u128 {
        return Err(AirdropError::Overflow);
    }
    let remaining: u64 = match campaign.total_amount.checked_sub(campaign.distributed_amount) {
        Some(left) => left,
        None => return Err(AirdropError::InsufficientFunds),
    };
    if (remaining as u128) < total_needed {
        return Err(AirdropError::InsufficientFunds);
    }
    let count = recipient_count as usize;
    let mut distributed_this_batch: u64 = 0;
    let mut i: usize = 0;
    while i < count
        invariant
            *campaign == *old(campaign),
            old(campaign).wf(),
            caller == campaign.crank_authority,
            campaign.status.accepts_batches(),
            remaining == campaign.remaining(),
            count == recipient_count,
            count <= recipient_mints@.len(),
            i <= count,
            amount_per == campaign.amount_per_recipient,
            total_needed == amount_per * recipient_count,
            total_needed <= remaining,
            distributed_this_batch == amount_per * i,
            recipients_hold(recipient_mints@, i as int, campaign.token_mint),
        decreases count - i,
    {
        let holds = match &recipient_mints[i] {
            Some(mint) => mint.same_as(&campaign.token_mint),
            None => false,
        };
        if !holds {
            assert(recipient_mints@[i as int] != Some(campaign.token_mint));
            return Err(AirdropError::InvalidRecipientMint);
        }
        proof {
            assert(amount_per * (i + 1) <= amount_per * recipient_count) by (nonlinear_arith)
                requires
                    i < recipient_count,
            ;
            assert(amount_per * (i + 1) == amount_per * i + amount_per) by (nonlinear_arith);
        }
        distributed_this_batch = match distributed_this_batch.checked_add(amount_per) {
            Some(d) => d,
            None => return Err(AirdropError::Overflow),
        };
        i = i + 1;
    }
    let distributed_amount = match campaign.distributed_amount.checked_add(
        distributed_this_batch,
    ) {
        Some(d) => d,
        None => return Err(AirdropError::Overflow),
    };
    let distributed_count = match campaign.distributed_count.checked_add(recipient_count) {
        Some(c) => c,
        None => return Err(AirdropError::Overflow),
    };
    proof {
        let old_count = campaign.distributed_count as int;
        assert(amount_per * old_count + amount_per * recipient_count == amount_per * (old_count
            + recipient_count)) by (nonlinear_arith);
    }
    campaign.distributed_amount = distributed_amount;
    campaign.distributed_count = distributed_count;
    campaign.status = CampaignStatus::Processing;
    if campaign.distributed_count >= campaign.total_recipients && campaign.total_recipients > 0 {
        campaign.status = CampaignStatus::Completed;
    }
    assert(old(campaign).batch_check(caller, recipient_count, recipient_mints@) is None);
    assert(*campaign == old(campaign).after_batch(recipient_count));
    Ok(
        BatchDistributed {
            campaign_id: campaign.campaign_id,
            recipient_count,
            total_distributed: campaign.distributed_amount,
        },
    )
}

} // verus!
