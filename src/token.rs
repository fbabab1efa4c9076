use vstd::prelude::*;
use anchor_lang::AccountDeserialize;
use crate::state::Pubkey;

verus! {

#[verifier::external_type_specification]
#[verifier::external_body]
pub struct ExAnchorError(anchor_lang::error::Error);

/// The two addresses of a token account that the instructions check.
#[derive(Clone, Copy, Debug)]
pub struct TokenAccountKeys {
    pub mint: Pubkey,
    pub owner: Pubkey,
}

/// An optional-value tag of the token layout: four bytes, `0` or `1` little-endian.
pub open spec fn option_tag_ok(data: Seq<u8>, at: int) -> bool {
    &&& data[at] == 0 || data[at] == 1
    &&& data[at + 1] == 0
    &&& data[at + 2] == 0
    &&& data[at + 3] == 0
}

/// Bytes that unpack as an initialized (or frozen) token account: mint at 0,
/// owner at 32, delegate tag at 72, state at 108, native tag at 109, close
/// authority tag at 129.
pub open spec fn token_account_layout_ok(data: Seq<u8>) -> bool {
    &&& data.len() == 165
    &&& option_tag_ok(data, 72)
    &&& data[108] == 1 || data[108] == 2
    &&& option_tag_ok(data, 109)
    &&& option_tag_ok(data, 129)
}

/// Bytes that unpack as an initialized mint: authority tag at 0, initialized
/// flag at 45, freeze authority tag at 46.
pub open spec fn mint_layout_ok(data: Seq<u8>) -> bool {
    &&& data.len() == 82
    &&& option_tag_ok(data, 0)
    &&& data[45] == 1
    &&& option_tag_ok(data, 46)
}

/// Relies on anchor_spl's `TokenAccount::try_deserialize`, which calls spl-token's
/// `Account::unpack`: it accepts exactly the initialized 165-byte layouts and
/// reads the mint and the owner from the first 64 bytes.
#[verifier::external_body]
fn try_deserialize_token_account(data: &[u8]) -> (r: Result<TokenAccountKeys, anchor_lang::error::Error>)
    ensures
        r is Ok <==> token_account_layout_ok(data@),
        r is Ok ==> r->Ok_0.mint@ == data@.subrange(0, 32),
        r is Ok ==> r->Ok_0.owner@ == data@.subrange(32, 64),
{
    let mut buf: &[u8] = data;
    match anchor_spl::token::TokenAccount::try_deserialize(&mut buf) {
        Ok(a) => Ok(TokenAccountKeys {
            mint: Pubkey { bytes: a.mint.to_bytes() },
            owner: Pubkey { bytes: a.owner.to_bytes() },
        }),
        Err(e) => Err(e),
    }
}

/// Relies on anchor_spl's `Mint::try_deserialize`, which calls spl-token's
/// `Mint::unpack`: it accepts exactly the initialized 82-byte layouts.
#[verifier::external_body]
fn try_deserialize_mint(data: &[u8]) -> (r: Result<(), anchor_lang::error::Error>)
    ensures
        r is Ok <==> mint_layout_ok(data@),
{
    let mut buf: &[u8] = data;
    match anchor_spl::token::Mint::try_deserialize(&mut buf) {
        Ok(_) => Ok(()),
        Err(e) => Err(e),
    }
}

/// The mint and owner of a token account, or `None` where the bytes are no
/// initialized token account.
pub fn read_token_account(data: &[u8]) -> (r: Option<TokenAccountKeys>)
    ensures
        r is Some <==> token_account_layout_ok(data@),
        r is Some ==> r->Some_0.mint@ == data@.subrange(0, 32),
        r is Some ==> r->Some_0.owner@ == data@.subrange(32, 64),
{
    match try_deserialize_token_account(data) {
        Ok(keys) => Some(keys),
        Err(_) => None,
    }
}

/// Whether the bytes are an initialized mint.
pub fn is_valid_mint(data: &[u8]) -> (r: bool)
    ensures
        r == mint_layout_ok(data@),
{
    match try_deserialize_mint(data) {
        Ok(_) => true,
        Err(_) => false,
    }
}

} // verus!
