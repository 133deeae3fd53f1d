use solshare_airdrop::escrow::campaign_seeds;
use solshare_airdrop::token::recipient_mints;
use solshare_airdrop::{
    create_campaign, distribute_batch, fund_campaign, refund, AirdropError, CampaignState,
    CampaignStatus, Pubkey,
};

fn key(b: u8) -> Pubkey {
    Pubkey::new_from_array([b; 32])
}

fn creator() -> Pubkey {
    key(1)
}

fn crank() -> Pubkey {
    key(2)
}

fn mint() -> Pubkey {
    key(3)
}

fn new_campaign(amount_per_recipient: u64, total_recipients: u32) -> CampaignState {
    let (campaign, _) = create_campaign(
        creator(),
        [7u8; 16],
        mint(),
        key(4),
        amount_per_recipient,
        total_recipients,
        crank(),
        254,
    );
    campaign
}

fn funded(amount_per_recipient: u64, total_recipients: u32, amount: u64) -> CampaignState {
    let mut campaign = new_campaign(amount_per_recipient, total_recipients);
    fund_campaign(&mut campaign, creator(), amount).unwrap();
    campaign
}

fn good_recipients(n: usize) -> Vec<Option<Pubkey>> {
    vec![Some(mint()); n]
}

fn snapshot(c: &CampaignState) -> (u64, u64, u32, CampaignStatus) {
    (c.total_amount, c.distributed_amount, c.distributed_count, c.status)
}

#[test]
fn create_starts_in_draft_with_zero_balances() {
    let (campaign, event) =
        create_campaign(creator(), [7u8; 16], mint(), key(4), 100, 3, crank(), 254);
    assert_eq!(snapshot(&campaign), (0, 0, 0, CampaignStatus::Draft));
    assert_eq!(campaign.amount_per_recipient, 100);
    assert_eq!(campaign.total_recipients, 3);
    assert!(campaign.crank_authority == crank());
    assert!(campaign.escrow_ata == key(4));
    assert_eq!(campaign.bump, 254);
    assert!(event.creator == creator());
    assert!(event.token_mint == mint());
    assert_eq!(event.campaign_id, [7u8; 16]);
    assert_eq!(event.amount_per_recipient, 100);
    assert!(event.crank_authority == crank());
}

#[test]
fn scenario_full_batch_completes() {
    let mut campaign = funded(100, 3, 300);
    let event = distribute_batch(&mut campaign, crank(), 3, &good_recipients(3)).unwrap();
    assert_eq!(event.recipient_count, 3);
    assert_eq!(event.total_distributed, 300);
    assert_eq!(event.campaign_id, [7u8; 16]);
    assert_eq!(snapshot(&campaign), (300, 300, 3, CampaignStatus::Completed));
}

#[test]
fn scenario_underfunded_batch_is_refused() {
    let mut campaign = funded(100, 3, 250);
    let before = snapshot(&campaign);
    let r = distribute_batch(&mut campaign, crank(), 3, &good_recipients(3));
    assert_eq!(r.unwrap_err(), AirdropError::InsufficientFunds);
    assert_eq!(snapshot(&campaign), before);
    assert_eq!(before, (250, 0, 0, CampaignStatus::Funded));
}

#[test]
fn scenario_refund_after_partial_payout() {
    let mut campaign = funded(100, 3, 300);
    distribute_batch(&mut campaign, crank(), 2, &good_recipients(2)).unwrap();
    assert_eq!(snapshot(&campaign), (300, 200, 2, CampaignStatus::Processing));
    let escrow_balance = campaign.total_amount - campaign.distributed_amount;
    let event = refund(&mut campaign, creator(), escrow_balance).unwrap();
    assert_eq!(event.refund_amount, 100);
    assert!(event.moves_tokens());
    assert!(event.creator == creator());
    assert_eq!(campaign.status, CampaignStatus::Cancelled);
    let r = distribute_batch(&mut campaign, crank(), 1, &good_recipients(1));
    assert_eq!(r.unwrap_err(), AirdropError::InvalidStatus);
    assert_eq!(snapshot(&campaign), (300, 200, 2, CampaignStatus::Cancelled));
}

#[test]
fn scenario_wrong_mint_voids_batch() {
    let mut campaign = funded(100, 3, 300);
    let before = snapshot(&campaign);
    let recipients = vec![Some(mint()), Some(key(9)), Some(mint())];
    let r = distribute_batch(&mut campaign, crank(), 3, &recipients);
    assert_eq!(r.unwrap_err(), AirdropError::InvalidRecipientMint);
    assert_eq!(snapshot(&campaign), before);
}

#[test]
fn bad_recipient_at_each_position_changes_nothing() {
    for bad in 0..4usize {
        let mut campaign = funded(10, 10, 100);
        distribute_batch(&mut campaign, crank(), 1, &good_recipients(1)).unwrap();
        let before = snapshot(&campaign);
        let mut recipients = good_recipients(4);
        recipients[bad] = Some(key(9));
        let r = distribute_batch(&mut campaign, crank(), 4, &recipients);
        assert_eq!(r.unwrap_err(), AirdropError::InvalidRecipientMint);
        assert_eq!(snapshot(&campaign), before);
    }
}

#[test]
fn account_that_is_no_token_account_voids_batch() {
    let mut campaign = funded(100, 3, 300);
    let recipients = vec![Some(mint()), None];
    let r = distribute_batch(&mut campaign, crank(), 2, &recipients);
    assert_eq!(r.unwrap_err(), AirdropError::InvalidRecipientMint);
    assert_eq!(snapshot(&campaign), (300, 0, 0, CampaignStatus::Funded));
}

#[test]
fn accounts_beyond_the_batch_are_not_checked() {
    let mut campaign = funded(100, 5, 300);
    let recipients = vec![Some(mint()), Some(mint()), Some(key(9))];
    let event = distribute_batch(&mut campaign, crank(), 2, &recipients).unwrap();
    assert_eq!(event.total_distributed, 200);
    assert_eq!(snapshot(&campaign), (300, 200, 2, CampaignStatus::Processing));
}

#[test]
fn second_funding_is_refused() {
    let mut campaign = funded(100, 3, 300);
    let r = fund_campaign(&mut campaign, creator(), 50);
    assert_eq!(r.unwrap_err(), AirdropError::InvalidStatus);
    assert_eq!(snapshot(&campaign), (300, 0, 0, CampaignStatus::Funded));
    distribute_batch(&mut campaign, crank(), 1, &good_recipients(1)).unwrap();
    let r = fund_campaign(&mut campaign, creator(), 50);
    assert_eq!(r.unwrap_err(), AirdropError::InvalidStatus);
    assert_eq!(campaign.total_amount, 300);
}

#[test]
fn funding_sets_total_and_status() {
    let mut campaign = new_campaign(100, 3);
    let event = fund_campaign(&mut campaign, creator(), 300).unwrap();
    assert_eq!(event.amount, 300);
    assert!(event.creator == creator());
    assert_eq!(event.campaign_id, [7u8; 16]);
    assert_eq!(snapshot(&campaign), (300, 0, 0, CampaignStatus::Funded));
}

#[test]
fn funding_by_another_is_refused() {
    let mut campaign = new_campaign(100, 3);
    let r = fund_campaign(&mut campaign, key(9), 300);
    assert_eq!(r.unwrap_err(), AirdropError::Unauthorized);
    assert_eq!(snapshot(&campaign), (0, 0, 0, CampaignStatus::Draft));
}

#[test]
fn oversized_batch_cost_is_refused_not_wrapped() {
    let mut campaign = funded(u64::MAX, 10, u64::MAX);
    let r = distribute_batch(&mut campaign, crank(), 2, &good_recipients(2));
    assert_eq!(r.unwrap_err(), AirdropError::Overflow);
    assert_eq!(snapshot(&campaign), (u64::MAX, 0, 0, CampaignStatus::Funded));
}

#[test]
fn largest_unit_single_recipient_is_paid() {
    let mut campaign = funded(u64::MAX, 1, u64::MAX);
    let event = distribute_batch(&mut campaign, crank(), 1, &good_recipients(1)).unwrap();
    assert_eq!(event.total_distributed, u64::MAX);
    assert_eq!(snapshot(&campaign), (u64::MAX, u64::MAX, 1, CampaignStatus::Completed));
}

#[test]
fn recipient_count_overflow_is_refused() {
    let mut campaign = funded(0, 0, 0);
    campaign.distributed_count = u32::MAX - 1;
    campaign.status = CampaignStatus::Processing;
    let r = distribute_batch(&mut campaign, crank(), 2, &good_recipients(2));
    assert_eq!(r.unwrap_err(), AirdropError::Overflow);
    assert_eq!(campaign.distributed_count, u32::MAX - 1);
    let event = distribute_batch(&mut campaign, crank(), 1, &good_recipients(1)).unwrap();
    assert_eq!(event.recipient_count, 1);
    assert_eq!(campaign.distributed_count, u32::MAX);
}

#[test]
fn batch_by_another_is_refused() {
    let mut campaign = funded(100, 3, 300);
    let r = distribute_batch(&mut campaign, creator(), 1, &good_recipients(1));
    assert_eq!(r.unwrap_err(), AirdropError::UnauthorizedCrank);
    assert_eq!(snapshot(&campaign), (300, 0, 0, CampaignStatus::Funded));
}

#[test]
fn batch_on_draft_is_refused() {
    let mut campaign = new_campaign(100, 3);
    let r = distribute_batch(&mut campaign, crank(), 0, &good_recipients(0));
    assert_eq!(r.unwrap_err(), AirdropError::InvalidStatus);
}

#[test]
fn batch_larger_than_supplied_accounts_is_refused() {
    let mut campaign = funded(100, 3, 300);
    let r = distribute_batch(&mut campaign, crank(), 3, &good_recipients(2));
    assert_eq!(r.unwrap_err(), AirdropError::BatchTooLarge);
    assert_eq!(snapshot(&campaign), (300, 0, 0, CampaignStatus::Funded));
}

#[test]
fn batches_may_pass_the_recipient_target() {
    let mut campaign = funded(100, 2, 300);
    distribute_batch(&mut campaign, crank(), 3, &good_recipients(3)).unwrap();
    assert_eq!(snapshot(&campaign), (300, 300, 3, CampaignStatus::Completed));
}

#[test]
fn zero_target_never_completes() {
    let mut campaign = funded(100, 0, 300);
    distribute_batch(&mut campaign, crank(), 3, &good_recipients(3)).unwrap();
    assert_eq!(snapshot(&campaign), (300, 300, 3, CampaignStatus::Processing));
}

#[test]
fn batches_accumulate_until_completion() {
    let mut campaign = funded(25, 4, 100);
    let first = distribute_batch(&mut campaign, crank(), 1, &good_recipients(1)).unwrap();
    assert_eq!(first.total_distributed, 25);
    assert_eq!(campaign.status, CampaignStatus::Processing);
    let second = distribute_batch(&mut campaign, crank(), 3, &good_recipients(3)).unwrap();
    assert_eq!(second.total_distributed, 100);
    assert_eq!(snapshot(&campaign), (100, 100, 4, CampaignStatus::Completed));
    let r = distribute_batch(&mut campaign, crank(), 1, &good_recipients(1));
    assert_eq!(r.unwrap_err(), AirdropError::InvalidStatus);
}

#[test]
fn invariant_holds_along_a_run() {
    let mut campaign = funded(7, 5, 40);
    for n in [1u32, 0, 2, 2] {
        let _ = distribute_batch(&mut campaign, crank(), n, &good_recipients(n as usize));
        assert_eq!(
            campaign.distributed_amount,
            campaign.amount_per_recipient * campaign.distributed_count as u64
        );
        assert!(campaign.distributed_amount <= campaign.total_amount);
    }
    assert_eq!(snapshot(&campaign), (40, 35, 5, CampaignStatus::Completed));
}

#[test]
fn status_never_leaves_a_terminal_status() {
    let mut campaign = funded(100, 1, 100);
    distribute_batch(&mut campaign, crank(), 1, &good_recipients(1)).unwrap();
    assert_eq!(campaign.status, CampaignStatus::Completed);
    assert_eq!(refund(&mut campaign, creator(), 0).unwrap_err(), AirdropError::AlreadyCompleted);
    assert_eq!(fund_campaign(&mut campaign, creator(), 1).unwrap_err(), AirdropError::InvalidStatus);
    assert_eq!(campaign.status, CampaignStatus::Completed);

    let mut cancelled = new_campaign(100, 1);
    refund(&mut cancelled, creator(), 0).unwrap();
    assert_eq!(
        fund_campaign(&mut cancelled, creator(), 1).unwrap_err(),
        AirdropError::InvalidStatus
    );
    refund(&mut cancelled, creator(), 0).unwrap();
    assert_eq!(cancelled.status, CampaignStatus::Cancelled);
}

#[test]
fn refund_of_empty_escrow_only_cancels() {
    let mut campaign = new_campaign(100, 3);
    let event = refund(&mut campaign, creator(), 0).unwrap();
    assert_eq!(event.refund_amount, 0);
    assert!(!event.moves_tokens());
    assert_eq!(snapshot(&campaign), (0, 0, 0, CampaignStatus::Cancelled));
}

#[test]
fn refund_by_another_is_refused() {
    let mut campaign = funded(100, 3, 300);
    let r = refund(&mut campaign, crank(), 300);
    assert_eq!(r.unwrap_err(), AirdropError::Unauthorized);
    assert_eq!(campaign.status, CampaignStatus::Funded);
}

#[test]
fn signer_seeds_name_campaign_creator_id_and_bump() {
    let campaign = new_campaign(100, 3);
    let seeds = campaign.signer_seeds();
    assert_eq!(seeds.len(), 4);
    assert_eq!(seeds[0], b"campaign".to_vec());
    assert_eq!(seeds[1], vec![1u8; 32]);
    assert_eq!(seeds[2], vec![7u8; 16]);
    assert_eq!(seeds[3], vec![254u8]);
    let address = campaign_seeds(&creator(), &[7u8; 16]);
    assert_eq!(address[..], seeds[..3]);
}

#[test]
fn pubkeys_compare_by_bytes() {
    let mut bytes = [5u8; 32];
    assert!(Pubkey::new_from_array(bytes) == key(5));
    bytes[31] = 6;
    assert!(Pubkey::new_from_array(bytes) != key(5));
    assert_eq!(Pubkey::new_from_array(bytes).to_bytes(), bytes);
}

#[test]
fn well_formedness_check_follows_the_invariant() {
    let mut campaign = funded(100, 3, 300);
    assert!(campaign.is_well_formed());
    distribute_batch(&mut campaign, crank(), 2, &good_recipients(2)).unwrap();
    assert!(campaign.is_well_formed());
    campaign.distributed_amount = 150;
    assert!(!campaign.is_well_formed());
    campaign.distributed_amount = 400;
    campaign.distributed_count = 4;
    assert!(!campaign.is_well_formed());
    let mut draft = new_campaign(100, 3);
    draft.total_amount = 5;
    assert!(!draft.is_well_formed());
}

#[test]
fn largest_count_at_largest_unit_overflows() {
    let mut campaign = funded(u64::MAX, 0, u64::MAX);
    let n = 1000usize;
    let r = distribute_batch(&mut campaign, crank(), n as u32, &good_recipients(n));
    assert_eq!(r.unwrap_err(), AirdropError::Overflow);
    assert_eq!(snapshot(&campaign), (u64::MAX, 0, 0, CampaignStatus::Funded));
}

#[test]
fn too_large_batch_is_refused_before_funds_are_checked() {
    let mut campaign = funded(100, 3, 50);
    let r = distribute_batch(&mut campaign, crank(), 3, &good_recipients(1));
    assert_eq!(r.unwrap_err(), AirdropError::BatchTooLarge);
    let mut rich = funded(u64::MAX, 3, 50);
    let r = distribute_batch(&mut rich, crank(), 3, &good_recipients(2));
    assert_eq!(r.unwrap_err(), AirdropError::BatchTooLarge);
}

fn token_account_data(mint: u8, owner: u8, state: u8) -> Vec<u8> {
    let mut data = vec![0u8; 165];
    for b in data[0..32].iter_mut() {
        *b = mint;
    }
    for b in data[32..64].iter_mut() {
        *b = owner;
    }
    data[64] = 42;
    data[108] = state;
    data
}

#[test]
fn recipient_mints_read_initialized_token_accounts() {
    let mut delegated = token_account_data(3, 8, 1);
    delegated[72] = 1;
    let accounts = vec![
        token_account_data(3, 8, 1),
        token_account_data(9, 3, 2),
        delegated,
    ];
    let mints = recipient_mints(&accounts);
    assert_eq!(mints.len(), 3);
    assert!(mints[0] == Some(mint()));
    assert!(mints[1] == Some(key(9)));
    assert!(mints[2] == Some(mint()));
}

#[test]
fn recipient_mints_reject_other_data() {
    let mut bad_tag = token_account_data(3, 8, 1);
    bad_tag[129] = 2;
    let mut long = token_account_data(3, 8, 1);
    long.push(0);
    let accounts = vec![
        token_account_data(3, 8, 0),
        token_account_data(3, 8, 3),
        bad_tag,
        long,
        vec![3u8; 32],
        Vec::new(),
    ];
    let mints = recipient_mints(&accounts);
    assert_eq!(mints.len(), 6);
    assert!(mints.iter().all(|m| m.is_none()));
}

#[test]
fn parsed_recipients_feed_a_batch() {
    let mut campaign = funded(100, 2, 300);
    let accounts = vec![token_account_data(3, 8, 1), token_account_data(3, 9, 1)];
    let event = distribute_batch(&mut campaign, crank(), 2, &recipient_mints(&accounts)).unwrap();
    assert_eq!(event.total_distributed, 200);
    let wrong = vec![token_account_data(3, 8, 1), token_account_data(5, 3, 1)];
    let mut other = funded(100, 2, 300);
    let r = distribute_batch(&mut other, crank(), 2, &recipient_mints(&wrong));
    assert_eq!(r.unwrap_err(), AirdropError::InvalidRecipientMint);
}
