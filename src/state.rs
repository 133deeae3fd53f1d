use vstd::prelude::*;

use crate::error::AirdropError;
use crate::keys::Pubkey;

verus! {

/// Where a campaign stands in its lifecycle.
#[derive(Clone, Copy, Debug, PartialEq, Eq, Structural)]
pub enum CampaignStatus {
    Draft,
    Funded,
    Processing,
    Completed,
    Cancelled,
}

impl CampaignStatus {
    /// Position along `Draft -> Funded -> Processing -> {Completed | Cancelled}`.
    pub open spec fn rank(self) -> nat {
        match self {
            CampaignStatus::Draft => 0,
            CampaignStatus::Funded => 1,
            CampaignStatus::Processing => 2,
            CampaignStatus::Completed => 3,
            CampaignStatus::Cancelled => 3,
        }
    }

    /// `Completed` and `Cancelled` are never left once entered.
    pub open spec fn is_terminal(self) -> bool {
        self == CampaignStatus::Completed || self == CampaignStatus::Cancelled
    }

    /// Whether batches may be paid out in this status.
    pub open spec fn accepts_batches(self) -> bool {
        self == CampaignStatus::Funded || self == CampaignStatus::Processing
    }
}

/// A status change that never goes backwards and never leaves a terminal
/// status.
pub open spec fn advances(from: CampaignStatus, to: CampaignStatus) -> bool {
    from == to || (!from.is_terminal() && from.rank() < to.rank())
}

/// The status after a batch: `Completed` once the paid count reaches a
/// positive target, `Processing` otherwise.
pub open spec fn settled_status(distributed_count: int, total_recipients: int) -> CampaignStatus {
    if distributed_count >= total_recipients && total_recipients > 0 {
        CampaignStatus::Completed
    } else {
        CampaignStatus::Processing
    }
}

/// Whether the first `n` supplied recipient accounts all hold `mint`.
/// `None` stands for an account that is no token account at all.
pub open spec fn recipients_hold(mints: Seq<Option<Pubkey>>, n: int, mint: Pubkey) -> bool {
    forall|i: int| 0 <= i < n ==> #[trigger] mints[i] == Some(mint)
}

/// The persistent record of one campaign.
#[derive(Clone, Copy, Debug)]
pub struct CampaignState {
    /// Who created and funds the campaign; the only one who may refund it.
    pub creator: Pubkey,
    /// Chosen by the creator; with `creator` it is the campaign's key.
    pub campaign_id: [u8; 16],
    /// The one token the campaign pays out.
    pub token_mint: Pubkey,
    /// The escrow account bound to this campaign.
    pub escrow_ata: Pubkey,
    /// What every recipient receives.
    pub amount_per_recipient: u64,
    /// Everything ever deposited into the escrow.
    pub total_amount: u64,
    /// Everything paid out so far.
    pub distributed_amount: u64,
    /// How many recipients the campaign means to pay; decides completion.
    pub total_recipients: u32,
    /// How many recipients have been paid so far.
    pub distributed_count: u32,
    pub status: CampaignStatus,
    /// Who may pay out batches.
    pub crank_authority: Pubkey,
    /// Bump seed of the campaign's derived address.
    pub bump: u8,
}

impl CampaignState {
    /// Bytes the record takes on the ledger, its 8-byte discriminator
    /// included.
    pub const SIZE: usize = 8 + 32 + 16 + 32 + 32 + 8 + 8 + 8 + 4 + 4 + 1 + 32 + 1;

    /// The accounting invariant: every paid recipient got exactly the unit,
    /// nothing was paid beyond what was deposited, and a draft holds nothing.
    pub open spec fn wf(self) -> bool {
        &&& self.distributed_amount == self.amount_per_recipient * self.distributed_count
        &&& self.distributed_amount <= self.total_amount
        &&& self.status == CampaignStatus::Draft ==> self.total_amount == 0
            && self.distributed_count == 0
    }

    /// Tests the accounting invariant on a record read from storage.
    pub fn is_well_formed(&self) -> (r: bool)
        ensures
            r == self.wf(),
    {
        let per = self.amount_per_recipient as u128;
        let count = self.distributed_count as u128;
        proof {
            assert(per * count <= u64::MAX as int * u32::MAX as int) by (nonlinear_arith)
                requires
                    per <= u64::MAX,
                    count <= u32::MAX,
            ;
        }
        let paid_per_recipient = self.distributed_amount as u128 == per * count;
        let within_deposits = self.distributed_amount <= self.total_amount;
        let draft_is_empty = self.status != CampaignStatus::Draft || (self.total_amount == 0
            && self.distributed_count == 0);
        paid_per_recipient && within_deposits && draft_is_empty
    }

    /// What the escrow should still hold of the deposits.
    pub open spec fn remaining(self) -> int {
        self.total_amount - self.distributed_amount
    }

    /// What a batch of `n` recipients costs.
    pub open spec fn batch_cost(self, n: int) -> int {
        self.amount_per_recipient * n
    }

    /// The fields that no operation changes.
    pub open spec fn same_identity(self, other: CampaignState) -> bool {
        &&& self.creator == other.creator
        &&& self.campaign_id == other.campaign_id
        &&& self.token_mint == other.token_mint
        &&& self.escrow_ata == other.escrow_ata
        &&& self.amount_per_recipient == other.amount_per_recipient
        &&& self.total_recipients == other.total_recipients
        &&& self.crank_authority == other.crank_authority
        &&& self.bump == other.bump
    }

    /// Why a deposit of `amount` by `caller` is refused, if it is.
    pub open spec fn fund_check(self, caller: Pubkey, amount: u64) -> Option<AirdropError> {
        if caller != self.creator {
            Some(AirdropError::Unauthorized)
        } else if self.status != CampaignStatus::Draft {
            Some(AirdropError::InvalidStatus)
        } else if self.total_amount + amount > u64::MAX {
            Some(AirdropError::Overflow)
        } else {
            None
        }
    }

    /// The record after a deposit of `amount`.
    pub open spec fn after_funding(self, amount: u64) -> CampaignState {
        CampaignState {
            total_amount: (self.total_amount + amount) as u64,
            status: CampaignStatus::Funded,
            ..self
        }
    }

    /// Why a batch of the first `n` of the supplied recipient accounts,
    /// asked for by `caller`, is refused, if it is. The checks come in this
    /// order and the first that fails decides.
    pub open spec fn batch_check(self, caller: Pubkey, n: u32, mints: Seq<Option<Pubkey>>) -> Option<
        AirdropError,
    > {
        if caller != self.crank_authority {
            Some(AirdropError::UnauthorizedCrank)
        } else if !self.status.accepts_batches() {
            Some(AirdropError::InvalidStatus)
        } else if n > mints.len() {
            Some(AirdropError::BatchTooLarge)
        } else if self.batch_cost(n as int) > u64::MAX {
            Some(AirdropError::Overflow)
        } else if self.batch_cost(n as int) > self.remaining() {
            Some(AirdropError::InsufficientFunds)
        } else if !recipients_hold(mints, n as int, self.token_mint) {
            Some(AirdropError::InvalidRecipientMint)
        } else if self.distributed_count + n > u32::MAX {
            Some(AirdropError::Overflow)
        } else {
            None
        }
    }

    /// The record after a batch of `n` recipients has been paid.
    pub open spec fn after_batch(self, n: u32) -> CampaignState {
        CampaignState {
            distributed_amount: (self.distributed_amount + self.batch_cost(n as int)) as u64,
            distributed_count: (self.distributed_count + n) as u32,
            status: settled_status(self.distributed_count + n, self.total_recipients as int),
            ..self
        }
    }

    /// Why a refund asked for by `caller` is refused, if it is.
    pub open spec fn refund_check(self, caller: Pubkey) -> Option<AirdropError> {
        if caller != self.creator {
            Some(AirdropError::Unauthorized)
        } else if self.status == CampaignStatus::Completed {
            Some(AirdropError::AlreadyCompleted)
        } else {
            None
        }
    }

    /// The record after a refund.
    pub open spec fn after_refund(self) -> CampaignState {
        CampaignState { status: CampaignStatus::Cancelled, ..self }
    }
}

} // verus!

verus! {

/// `post` is `pre` after a successful deposit by the creator.
pub open spec fn funding_step(pre: CampaignState, post: CampaignState) -> bool {
    exists|amount: u64|
        pre.fund_check(pre.creator, amount) is None && post == #[trigger] pre.after_funding(amount)
}

/// `post` is `pre` after a successful batch asked for by the crank
/// authority.
pub open spec fn batch_step(pre: CampaignState, post: CampaignState) -> bool {
    exists|n: u32, mints: Seq<Option<Pubkey>>|
        #[trigger] pre.batch_check(pre.crank_authority, n, mints) is None && post == pre.after_batch(
            n,
        )
}

/// `post` is `pre` after a successful refund by the creator.
pub open spec fn refund_step(pre: CampaignState, post: CampaignState) -> bool {
    pre.refund_check(pre.creator) is None && post == pre.after_refund()
}

/// `post` follows from `pre` by one successful operation.
pub open spec fn step(pre: CampaignState, post: CampaignState) -> bool {
    funding_step(pre, post) || batch_step(pre, post) || refund_step(pre, post)
}

} // verus!
