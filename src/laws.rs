use vstd::prelude::*;

use crate::error::AirdropError;
use crate::keys::Pubkey;
use crate::state::{
    advances, batch_step, funding_step, refund_step, step, CampaignState, CampaignStatus,
};

verus! {

/// A status that advanced twice has advanced.
pub proof fn lemma_advances_transitive(a: CampaignStatus, b: CampaignStatus, c: CampaignStatus)
    requires
        advances(a, b),
        advances(b, c),
    ensures
        advances(a, c),
{
}

/// One successful operation keeps the accounting invariant, never moves the
/// status backwards or out of a terminal status, and keeps the campaign's
/// identity, unit and target.
pub proof fn lemma_step_preserves(pre: CampaignState, post: CampaignState)
    requires
        pre.wf(),
        step(pre, post),
    ensures
        post.wf(),
        advances(pre.status, post.status),
        pre.same_identity(post),
{
    if funding_step(pre, post) {
    } else if batch_step(pre, post) {
        let (n, mints) = choose|n: u32, mints: Seq<Option<Pubkey>>|
            #[trigger] pre.batch_check(pre.crank_authority, n, mints) is None && post
                == pre.after_batch(n);
        let per = pre.amount_per_recipient as int;
        let c = pre.distributed_count as int;
        assert(per * c + per * n == per * (c + n)) by (nonlinear_arith);
    } else {
        assert(refund_step(pre, post));
    }
}

/// Along every run of successful operations from a campaign that satisfies
/// the accounting invariant (as every newly created one does), every state
/// satisfies it: each paid recipient got exactly the unit and nothing was
/// paid beyond what was deposited. The status only moves forward, and a
/// terminal status is never left.
pub proof fn lemma_reachable(run: Seq<CampaignState>)
    requires
        run.len() > 0,
        run[0].wf(),
        forall|i: int| 0 <= i < run.len() - 1 ==> step(#[trigger] run[i], run[i + 1]),
    ensures
        forall|i: int|
            0 <= i < run.len() ==> {
                let s = #[trigger] run[i];
                &&& s.wf()
                &&& s.distributed_amount == s.amount_per_recipient * s.distributed_count
                &&& s.distributed_amount <= s.total_amount
            },
        forall|i: int, j: int|
            0 <= i <= j < run.len() ==> advances(#[trigger] run[i].status, #[trigger] run[j].status),
    decreases run.len(),
{
    if run.len() > 1 {
        let prefix = run.drop_last();
        assert forall|i: int| 0 <= i < prefix.len() - 1 implies step(
            #[trigger] prefix[i],
            prefix[i + 1],
        ) by {
            assert(step(run[i], run[i + 1]));
        }
        lemma_reachable(prefix);
        let last = run.len() - 1;
        assert(prefix[last - 1] == run[last - 1]);
        assert(step(run[last - 1], run[last]));
        lemma_step_preserves(run[last - 1], run[last]);
        assert forall|i: int, j: int| 0 <= i <= j < run.len() implies advances(
            #[trigger] run[i].status,
            #[trigger] run[j].status,
        ) by {
            if j < last {
                assert(prefix[i] == run[i] && prefix[j] == run[j]);
            } else if i < last {
                assert(prefix[i] == run[i] && prefix[last - 1] == run[last - 1]);
                lemma_advances_transitive(run[i].status, run[last - 1].status, run[j].status);
            }
        }
        assert forall|i: int| 0 <= i < run.len() implies (#[trigger] run[i]).wf() by {
            if i < last {
                assert(prefix[i] == run[i]);
            }
        }
    }
}

/// A campaign is funded at most once along any run: once a deposit has
/// succeeded, every later deposit by the creator is refused with
/// `InvalidStatus`, and no later operation is a deposit.
pub proof fn lemma_funded_at_most_once(run: Seq<CampaignState>, i: int, j: int)
    requires
        run.len() > 0,
        run[0].wf(),
        forall|k: int| 0 <= k < run.len() - 1 ==> step(#[trigger] run[k], run[k + 1]),
        0 <= i < j < run.len(),
        funding_step(run[i], run[i + 1]),
    ensures
        forall|amount: u64|
            #[trigger] run[j].fund_check(run[j].creator, amount) == Some(
                AirdropError::InvalidStatus,
            ),
        j < run.len() - 1 ==> !funding_step(run[j], run[j + 1]),
{
    lemma_reachable(run);
    assert(run[i + 1].status == CampaignStatus::Funded);
    assert(advances(run[i + 1].status, run[j].status));
    assert(run[j].status != CampaignStatus::Draft);
}

/// A single recipient account that does not hold the campaign's token, at
/// any position of the batch, refuses the whole batch; the batch then
/// changes nothing and pays no one.
pub proof fn lemma_bad_recipient_voids_batch(
    s: CampaignState,
    caller: Pubkey,
    n: u32,
    mints: Seq<Option<Pubkey>>,
    k: int,
)
    requires
        0 <= k < n <= mints.len(),
        mints[k] != Some(s.token_mint),
    ensures
        s.batch_check(caller, n, mints) is Some,
{
}

/// A batch whose total cost exceeds the largest 64-bit amount is refused
/// with `Overflow`, never paid at a wrapped amount, once the caller, the
/// status and the number of supplied accounts have passed.
pub proof fn lemma_overflowing_batch_refused(
    s: CampaignState,
    caller: Pubkey,
    n: u32,
    mints: Seq<Option<Pubkey>>,
)
    requires
        s.batch_cost(n as int) > u64::MAX,
    ensures
        s.batch_check(caller, n, mints) is Some,
        caller == s.crank_authority && s.status.accepts_batches() && n <= mints.len()
            ==> s.batch_check(caller, n, mints) == Some(AirdropError::Overflow),
{
}

} // verus!
