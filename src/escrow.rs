use vstd::prelude::*;

use crate::keys::Pubkey;
use crate::state::CampaignState;

verus! {

/// The ASCII bytes of `campaign`, the first seed of every campaign address.
pub open spec fn campaign_seed_prefix() -> Seq<u8> {
    seq![99u8, 97u8, 109u8, 112u8, 97u8, 105u8, 103u8, 110u8]
}

/// The seeds from which a campaign's address is derived: the prefix, the
/// creator and the campaign id. The escrow account belongs to that address,
/// so no held key can move the escrowed tokens.
pub open spec fn address_seeds(creator: Pubkey, campaign_id: [u8; 16]) -> Seq<Seq<u8>> {
    seq![campaign_seed_prefix(), creator.bytes@, campaign_id@]
}

fn bytes_of<const N: usize>(bytes: &[u8; N]) -> (r: Vec<u8>)
    ensures
        r@ == bytes@,
{
    let mut out: Vec<u8> = Vec::new();
    let mut i: usize = 0;
    while i < N
        invariant
            i <= N,
            bytes@.len() == N,
            out@ == bytes@.subrange(0, i as int),
        decreases N - i,
    {
        out.push(bytes[i]);
        i = i + 1;
    }
    assert(out@ =~= bytes@);
    out
}

/// The seeds of the address of the campaign that `creator` opened under
/// `campaign_id`; one `(creator, campaign_id)` pair has one address, which
/// is why a campaign cannot be created twice.
pub fn campaign_seeds(creator: &Pubkey, campaign_id: &[u8; 16]) -> (r: Vec<Vec<u8>>)
    ensures
        r@.len() == 3,
        forall|i: int| 0 <= i < 3 ==> (#[trigger] r@[i])@ == address_seeds(*creator, *campaign_id)[i],
{
    let prefix: Vec<u8> = vec![99u8, 97u8, 109u8, 112u8, 97u8, 105u8, 103u8, 110u8];
    assert(prefix@ =~= campaign_seed_prefix());
    let mut seeds: Vec<Vec<u8>> = Vec::new();
    seeds.push(prefix);
    seeds.push(bytes_of(&creator.bytes));
    seeds.push(bytes_of(campaign_id));
    seeds
}

impl CampaignState {
    /// What the campaign presents to the ledger to sign for its escrow: the
    /// seeds of its address followed by its bump seed.
    pub fn signer_seeds(&self) -> (r: Vec<Vec<u8>>)
        ensures
            r@.len() == 4,
            forall|i: int|
                0 <= i < 3 ==> (#[trigger] r@[i])@ == address_seeds(self.creator, self.campaign_id)[i],
            r@[3]@ == seq![self.bump],
    {
        let mut seeds = campaign_seeds(&self.creator, &self.campaign_id);
        let bump: Vec<u8> = vec![self.bump];
        seeds.push(bump);
        seeds
    }
}

} // verus!
