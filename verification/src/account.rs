//! Ledger records as the crafting rules read them, and the two kinds of
//! record that the token program keeps.

use vstd::prelude::*;
use crate::error::ProgramError;
use crate::pubkey::Pubkey;
use solana_program::program_error::ProgramError as OutsideError;
use solana_program::program_pack::Pack;
use solana_program::pubkey::Pubkey as OutsidePubkey;

verus! {

/// A record of the ledger as an instruction sees it: its address, its
/// balance of native currency, its bytes, the program that owns it, and
/// whether its holder signed the instruction and allowed writes to it.
#[derive(Clone, Debug, PartialEq, Eq)]
pub struct AccountInfo {
    pub key: Pubkey,
    pub lamports: u64,
    pub data: Vec<u8>,
    pub owner: Pubkey,
    pub is_signer: bool,
    pub is_writable: bool,
}

impl AccountInfo {
    /// The number of bytes that the record holds.
    pub fn data_len(&self) -> (len: usize)
        ensures
            len == self.data@.len(),
    {
        self.data.len()
    }

    /// Whether the record holds no bytes, as a record that was never created.
    pub fn data_is_empty(&self) -> (empty: bool)
        ensures
            empty == (self.data@.len() == 0),
    {
        self.data.len() == 0
    }

    /// The record's balance of native currency.
    pub fn lamports(&self) -> (lamports: u64)
        ensures
            lamports == self.lamports,
    {
        self.lamports
    }
}

/// What the crafting rules read of a token mint.
#[derive(Clone, Copy, Debug, PartialEq, Eq)]
pub struct Mint {
    /// The address allowed to mint new tokens, if any.
    pub mint_authority: Option<Pubkey>,
    /// The number of tokens in existence.
    pub supply: u64,
    /// The number of decimal places of an amount.
    pub decimals: u8,
}

/// What the crafting rules read of a token account.
#[derive(Clone, Copy, Debug, PartialEq, Eq)]
pub struct TokenAccount {
    /// The mint whose tokens the account holds.
    pub mint: Pubkey,
    /// The address that may spend them.
    pub owner: Pubkey,
    /// The number of tokens held.
    pub amount: u64,
}

/// What the token program reads out of the bytes of a mint record.
pub uninterp spec fn unpacked_mint(data: Seq<u8>) -> Result<Mint, ProgramError>;

/// What the token program reads out of the bytes of a token account record.
pub uninterp spec fn unpacked_token_account(data: Seq<u8>) -> Result<TokenAccount, ProgramError>;

/// Reads a mint with `Mint::unpack` of `spl_token`, and keeps of it the mint
/// authority, the supply and the decimals. A failure is handed on as it is:
/// the outside function fails with `UninitializedAccount` or with
/// `InvalidAccountData`, and with no other. The contract only gives the
/// outcome its name: it is a function of the bytes alone.
#[verifier::external_body]
pub(crate) fn unpack_mint(data: &Vec<u8>) -> (mint: Result<Mint, ProgramError>)
    ensures
        mint == unpacked_mint(data@),
{
    match spl_token::state::Mint::unpack(data.as_slice()) {
        Ok(mint) => Ok(Mint {
            mint_authority: Option::from(mint.mint_authority).map(
                |key: OutsidePubkey| Pubkey { bytes: key.to_bytes() },
            ),
            supply: mint.supply,
            decimals: mint.decimals,
        }),
        Err(OutsideError::UninitializedAccount) => Err(ProgramError::UninitializedAccount),
        Err(_) => Err(ProgramError::InvalidAccountData),
    }
}

/// Reads a token account with `Account::unpack` of `spl_token`, and keeps of
/// it the mint, the owner and the amount. A failure is handed on as it is:
/// the outside function fails with `UninitializedAccount` or with
/// `InvalidAccountData`, and with no other. The contract only gives the
/// outcome its name: it is a function of the bytes alone.
#[verifier::external_body]
pub(crate) fn unpack_token_account(data: &Vec<u8>) -> (account: Result<
    TokenAccount,
    ProgramError,
>)
    ensures
        account == unpacked_token_account(data@),
{
    match spl_token::state::Account::unpack(data.as_slice()) {
        Ok(account) => Ok(TokenAccount {
            mint: Pubkey { bytes: account.mint.to_bytes() },
            owner: Pubkey { bytes: account.owner.to_bytes() },
            amount: account.amount,
        }),
        Err(OutsideError::UninitializedAccount) => Err(ProgramError::UninitializedAccount),
        Err(_) => Err(ProgramError::InvalidAccountData),
    }
}

} // verus!
