use vstd::prelude::*;

use solana_program::program_error::ProgramError;
use solana_program::program_pack::Pack;

use crate::address::Address;
use crate::codec::le_u64_at;
use crate::error::ProcessError;

verus! {

/// What the booth reads from a token account: the mint of the asset it holds
/// and its balance.
#[derive(Debug, Copy, Clone)]
pub struct TokenAccountInfo {
    pub mint: Address,
    pub amount: u64,
}

/// The four-byte tag of an optional field at `at`: `[0,0,0,0]` for none,
/// `[1,0,0,0]` for some.
pub open spec fn option_tag_valid(data: Seq<u8>, at: int) -> bool {
    &&& data[at] == 0 || data[at] == 1
    &&& data[at + 1] == 0
    &&& data[at + 2] == 0
    &&& data[at + 3] == 0
}

/// A token account is 165 bytes: mint (0..32), owner (32..64), amount
/// (64..72, little-endian), optional delegate (tag at 72), state (108: 0
/// uninitialized, 1 initialized, 2 frozen), optional native amount (tag at
/// 109), delegated amount (121..129), optional close authority (tag at 129).
pub open spec fn token_account_layout_valid(data: Seq<u8>) -> bool {
    &&& data.len() == 165
    &&& option_tag_valid(data, 72)
    &&& data[108] <= 2
    &&& option_tag_valid(data, 109)
    &&& option_tag_valid(data, 129)
}

/// The mint bytes and balance of the token account stored in `data`.
pub open spec fn token_account_model(data: Seq<u8>) -> Result<(Seq<u8>, u64), ProcessError> {
    if !token_account_layout_valid(data) {
        Err(ProcessError::InvalidAccountData)
    } else if data[108] == 0 {
        Err(ProcessError::UninitializedAccount)
    } else {
        Ok((data.subrange(0, 32), le_u64_at(data, 64) as u64))
    }
}

pub open spec fn token_account_view(r: Result<TokenAccountInfo, ProcessError>) -> Result<
    (Seq<u8>, u64),
    ProcessError,
> {
    match r {
        Ok(t) => Ok((t.mint@, t.amount)),
        Err(e) => Err(e),
    }
}

/// Relies on `spl_token::state::Account::unpack`: it accepts exactly the
/// layout above with a state other than uninitialized, failing with
/// `UninitializedAccount` for that state and `InvalidAccountData` otherwise.
#[verifier::external_body]
pub(crate) fn unpack_token_account(data: &[u8]) -> (r: Result<TokenAccountInfo, ProcessError>)
    ensures
        token_account_view(r) == token_account_model(data@),
{
    match spl_token::state::Account::unpack(data) {
        Ok(account) => Ok(
            TokenAccountInfo { mint: Address { bytes: account.mint.to_bytes() }, amount: account.amount },
        ),
        Err(ProgramError::UninitializedAccount) => Err(ProcessError::UninitializedAccount),
        Err(_) => Err(ProcessError::InvalidAccountData),
    }
}

/// A mint is 82 bytes: optional mint authority (tag at 0), supply (36..44),
/// decimals (44), initialized flag (45: 0 or 1), optional freeze authority
/// (tag at 46).
pub open spec fn mint_layout_valid(data: Seq<u8>) -> bool {
    &&& data.len() == 82
    &&& option_tag_valid(data, 0)
    &&& data[45] <= 1
    &&& option_tag_valid(data, 46)
}

/// The decimals of the mint stored in `data`.
pub open spec fn mint_decimals_model(data: Seq<u8>) -> Result<u8, ProcessError> {
    if !mint_layout_valid(data) {
        Err(ProcessError::InvalidAccountData)
    } else if data[45] == 0 {
        Err(ProcessError::UninitializedAccount)
    } else {
        Ok(data[44])
    }
}

/// Relies on `spl_token::state::Mint::unpack`: it accepts exactly the layout
/// above with the initialized flag set, failing with `UninitializedAccount`
/// where it is clear and `InvalidAccountData` otherwise.
#[verifier::external_body]
pub(crate) fn unpack_mint_decimals(data: &[u8]) -> (r: Result<u8, ProcessError>)
    ensures
        r == mint_decimals_model(data@),
{
    match spl_token::state::Mint::unpack(data) {
        Ok(mint) => Ok(mint.decimals),
        Err(ProgramError::UninitializedAccount) => Err(ProcessError::UninitializedAccount),
        Err(_) => Err(ProcessError::InvalidAccountData),
    }
}

} // verus!
