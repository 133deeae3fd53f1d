use vstd::prelude::*;

use crate::keys::Pubkey;

verus! {

/// Length in bytes of the data of a token account.
pub const TOKEN_ACCOUNT_LEN: usize = 165;

/// A four-byte option tag at `at`: `0, 0, 0, 0` for none, `1, 0, 0, 0` for
/// some.
pub open spec fn valid_option_tag(data: Seq<u8>, at: int) -> bool {
    &&& data[at] == 0 || data[at] == 1
    &&& data[at + 1] == 0
    &&& data[at + 2] == 0
    &&& data[at + 3] == 0
}

/// Whether `data` is the data of an initialized token account: 165 bytes
/// laid out as mint (0..32), owner (32..64), amount (64..72), delegate
/// option (72..108), state (108), native option (109..121), delegated
/// amount (121..129) and close-authority option (129..165), with a state of
/// initialized (1) or frozen (2).
pub open spec fn is_token_account_data(data: Seq<u8>) -> bool {
    &&& data.len() == TOKEN_ACCOUNT_LEN
    &&& valid_option_tag(data, 72)
    &&& data[108] == 1 || data[108] == 2
    &&& valid_option_tag(data, 109)
    &&& valid_option_tag(data, 129)
}

/// Relies on anchor_spl's `TokenAccount::try_deserialize`, which is
/// spl-token's `Account::unpack`: it accepts exactly the data of an
/// initialized token account and reads the mint from its first 32 bytes.
#[verifier::external_body]
fn token_account_mint(data: &[u8]) -> (r: Option<Pubkey>)
    ensures
        r is Some <==> is_token_account_data(data@),
        r is Some ==> r->Some_0.bytes@ == data@.subrange(0, 32),
{
    match <anchor_spl::token::TokenAccount as anchor_lang::AccountDeserialize>::try_deserialize(
        &mut &data[..],
    ) {
        Ok(account) => Some(Pubkey::new_from_array(account.mint.to_bytes())),
        Err(_) => None,
    }
}

/// The token held by each supplied recipient account, read from the
/// account's data: `None` where the data is no initialized token account.
pub fn recipient_mints(accounts: &Vec<Vec<u8>>) -> (r: Vec<Option<Pubkey>>)
    ensures
        r@.len() == accounts@.len(),
        forall|i: int|
            0 <= i < accounts@.len() ==> {
                &&& (#[trigger] r@[i] is Some <==> is_token_account_data(accounts@[i]@))
                &&& r@[i] is Some ==> r@[i]->Some_0.bytes@ == accounts@[i]@.subrange(0, 32)
            },
{
    let mut mints: Vec<Option<Pubkey>> = Vec::new();
    let mut i: usize = 0;
    while i < accounts.len()
        invariant
            i <= accounts@.len(),
            mints@.len() == i,
            forall|j: int|
                0 <= j < i ==> {
                    &&& (#[trigger] mints@[j] is Some <==> is_token_account_data(accounts@[j]@))
                    &&& mints@[j] is Some ==> mints@[j]->Some_0.bytes@ == accounts@[j]@.subrange(
                        0,
                        32,
                    )
                },
        decreases accounts@.len() - i,
    {
        let mint = token_account_mint(accounts[i].as_slice());
        mints.push(mint);
        i = i + 1;
    }
    mints
}

} // verus!
