//! The checks that an instruction makes of the records handed to it.

use vstd::prelude::*;
use crate::account::{
    unpack_mint, unpack_token_account, unpacked_mint, unpacked_token_account, AccountInfo, Mint,
    TokenAccount,
};
use crate::error::{failure, ProgramError, TokenRecipesError};
use crate::pubkey::{
    associated_token_program, associated_token_program_id, find_program_address,
    lemma_same_view_same_pubkey, program_address, token_program, token_program_id, Pubkey,
};
use crate::state::key::Key;
use crate::utils::{
    create_associated_token_account, effects_match, no_effects, no_seeds, push_seed, single_effect,
    Effect, EffectView,
};

verus! {

/// The outcome of a check.
pub type ProgramResult = Result<(), ProgramError>;

/// The number of bytes of a mint record of the token program.
pub const MINT_LEN: usize = 82;

/// The number of bytes of a token account record of the token program.
pub const TOKEN_ACCOUNT_LEN: usize = 165;

/// `Ok` where `holds`, the given error otherwise.
pub open spec fn check(holds: bool, error: TokenRecipesError) -> ProgramResult {
    if holds {
        Ok(())
    } else {
        Err(failure(error))
    }
}

/// Asserts that the given account is owned by the given program.
pub fn assert_program_owner(account: &AccountInfo, owner: &Pubkey) -> (result: ProgramResult)
    ensures
        result == check(account.owner == *owner, TokenRecipesError::InvalidProgramOwner),
{
    if !(account.owner == *owner) {
        Err(ProgramError::from(TokenRecipesError::InvalidProgramOwner))
    } else {
        Ok(())
    }
}

/// The suffix byte with which the seeds derive to `key` under the program;
/// `InvalidPda` where they derive to another address or to none.
pub open spec fn spec_assert_pda(key: Pubkey, program_id: Pubkey, seeds: Seq<Seq<u8>>) -> Result<
    u8,
    ProgramError,
> {
    match program_address(seeds, program_id@) {
        Some((address, bump)) => if key@ == address {
            Ok(bump)
        } else {
            Err(failure(TokenRecipesError::InvalidPda))
        },
        None => Err(failure(TokenRecipesError::InvalidPda)),
    }
}

/// Asserts that the seeds derive to the address of the given account under
/// the given program, and returns the suffix byte of the derivation.
pub fn assert_pda(account: &AccountInfo, program_id: &Pubkey, seeds: &Vec<Vec<u8>>) -> (result:
    Result<u8, ProgramError>)
    ensures
        result == spec_assert_pda(account.key, *program_id, seeds.deep_view()),
{
    match find_program_address(seeds, program_id) {
        Some((key, bump)) => {
            proof {
                if account.key@ == key@ {
                    lemma_same_view_same_pubkey(account.key, key);
                }
            }
            if !(account.key == key) {
                return Err(ProgramError::from(TokenRecipesError::InvalidPda));
            }
            Ok(bump)
        },
        None => Err(ProgramError::from(TokenRecipesError::InvalidPda)),
    }
}

/// Asserts that the given account is empty.
pub fn assert_empty(account: &AccountInfo) -> (result: ProgramResult)
    ensures
        result == check(account.data@.len() == 0, TokenRecipesError::ExpectedEmptyAccount),
{
    if !account.data_is_empty() {
        Err(ProgramError::from(TokenRecipesError::ExpectedEmptyAccount))
    } else {
        Ok(())
    }
}

/// Asserts that the given account is a signer.
pub fn assert_signer(account: &AccountInfo) -> (result: ProgramResult)
    ensures
        result == check(account.is_signer, TokenRecipesError::ExpectedSignerAccount),
{
    if !account.is_signer {
        Err(ProgramError::from(TokenRecipesError::ExpectedSignerAccount))
    } else {
        Ok(())
    }
}

/// Asserts that the given account is writable.
pub fn assert_writable(account: &AccountInfo) -> (result: ProgramResult)
    ensures
        result == check(account.is_writable, TokenRecipesError::ExpectedWritableAccount),
{
    if !account.is_writable {
        Err(ProgramError::from(TokenRecipesError::ExpectedWritableAccount))
    } else {
        Ok(())
    }
}

/// Asserts that the given account matches the given public key.
pub fn assert_same_pubkeys(account: &AccountInfo, expected: &Pubkey) -> (result: ProgramResult)
    ensures
        result == check(account.key == *expected, TokenRecipesError::AccountMismatch),
{
    if !(account.key == *expected) {
        Err(ProgramError::from(TokenRecipesError::AccountMismatch))
    } else {
        Ok(())
    }
}

/// Asserts that the given account has the expected data size.
pub fn assert_data_size(account: &AccountInfo, size: usize) -> (result: ProgramResult)
    ensures
        result == check(account.data@.len() == size, TokenRecipesError::InvalidDataSize),
{
    if account.data_len() != size {
        Err(ProgramError::from(TokenRecipesError::InvalidDataSize))
    } else {
        Ok(())
    }
}

/// Whether the bytes of a record are more than one and start with the tag.
pub open spec fn has_account_key(data: Seq<u8>, key: Key) -> bool {
    data.len() > 1 && data[0] == key.spec_byte()
}

/// Asserts that the given account has the expected account key.
pub fn assert_account_key(account: &AccountInfo, key: Key) -> (result: ProgramResult)
    ensures
        result == check(has_account_key(account.data@, key), TokenRecipesError::InvalidAccountKey),
{
    if account.data_len() <= 1 || account.data[0] != key.to_byte() {
        Err(ProgramError::from(TokenRecipesError::InvalidAccountKey))
    } else {
        Ok(())
    }
}

/// Asserts that the mint has the expected mint authority.
pub fn assert_mint_authority(mint_account: &Mint, expected_mint_authority: &Pubkey) -> (result:
    ProgramResult)
    ensures
        result == check(
            mint_account.mint_authority == Some(*expected_mint_authority),
            TokenRecipesError::InvalidMintAuthority,
        ),
{
    match mint_account.mint_authority {
        None => Err(ProgramError::from(TokenRecipesError::InvalidMintAuthority)),
        Some(authority) => {
            if !(authority == *expected_mint_authority) {
                return Err(ProgramError::from(TokenRecipesError::InvalidMintAuthority));
            }
            Ok(())
        },
    }
}

/// Asserts that the given token account has enough tokens.
pub fn assert_enough_tokens(token_account: TokenAccount, expected_amount: u64) -> (result:
    ProgramResult)
    ensures
        result == check(
            token_account.amount >= expected_amount,
            TokenRecipesError::NotEnoughTokens,
        ),
{
    if token_account.amount < expected_amount {
        Err(ProgramError::from(TokenRecipesError::NotEnoughTokens))
    } else {
        Ok(())
    }
}

/// The mint that a record holds: the record must belong to the token
/// program and have the size of a mint, and the token program must read a
/// mint out of its bytes.
pub open spec fn spec_mint_account(account: AccountInfo) -> Result<Mint, ProgramError> {
    if account.owner != token_program_id() {
        Err(failure(TokenRecipesError::InvalidProgramOwner))
    } else if account.data@.len() != MINT_LEN {
        Err(failure(TokenRecipesError::InvalidDataSize))
    } else {
        unpacked_mint(account.data@)
    }
}

/// Asserts that a given account is a mint account.
pub fn assert_mint_account(account: &AccountInfo) -> (result: Result<Mint, ProgramError>)
    ensures
        result == spec_mint_account(*account),
{
    assert_program_owner(account, &token_program())?;
    assert_data_size(account, MINT_LEN)?;
    unpack_mint(&account.data)
}

/// The token account that a record holds: the record must belong to the
/// token program and have the size of a token account, and the token
/// program must read a token account out of its bytes.
pub open spec fn spec_token_account(account: AccountInfo) -> Result<TokenAccount, ProgramError> {
    if account.owner != token_program_id() {
        Err(failure(TokenRecipesError::InvalidProgramOwner))
    } else if account.data@.len() != TOKEN_ACCOUNT_LEN {
        Err(failure(TokenRecipesError::InvalidDataSize))
    } else {
        unpacked_token_account(account.data@)
    }
}

/// Asserts that a given account is a token account.
pub fn assert_token_account(account: &AccountInfo) -> (result: Result<TokenAccount, ProgramError>)
    ensures
        result == spec_token_account(*account),
{
    assert_program_owner(account, &token_program())?;
    assert_data_size(account, TOKEN_ACCOUNT_LEN)?;
    unpack_token_account(&account.data)
}

/// The seeds from which the associated token account of `owner` for `mint`
/// is derived.
pub open spec fn spec_associated_token_seeds(owner: Pubkey, mint: Pubkey) -> Seq<Seq<u8>> {
    seq![owner@, token_program_id()@, mint@]
}

/// The seeds from which the associated token account of `owner` for `mint`
/// is derived.
pub fn associated_token_seeds(owner: &Pubkey, mint: &Pubkey) -> (seeds: Vec<Vec<u8>>)
    ensures
        seeds.deep_view() == spec_associated_token_seeds(*owner, *mint),
{
    let mut seeds = no_seeds();
    push_seed(&mut seeds, owner.to_vec());
    push_seed(&mut seeds, token_program().to_vec());
    push_seed(&mut seeds, mint.to_vec());
    assert(seeds.deep_view() =~= spec_associated_token_seeds(*owner, *mint));
    seeds
}

/// What is asked for a token account of `owner` for `mint` to exist at
/// `account`. An empty record must stand at the address of the associated
/// token account, which is then created; any other must be a token account
/// of that mint and owner, and nothing is asked.
pub open spec fn spec_token_account_or_create_ata(
    account: AccountInfo,
    mint: AccountInfo,
    owner: AccountInfo,
    payer: AccountInfo,
) -> Result<Seq<EffectView>, ProgramError> {
    if !account.is_writable {
        Err(failure(TokenRecipesError::ExpectedWritableAccount))
    } else if account.data@.len() == 0 {
        match spec_assert_pda(
            account.key,
            associated_token_program_id(),
            spec_associated_token_seeds(owner.key, mint.key),
        ) {
            Err(e) => Err(e),
            Ok(_) => Ok(
                seq![
                    EffectView::CreateAssociatedTokenAccount {
                        token: account.key,
                        mint: mint.key,
                        owner: owner.key,
                        payer: payer.key,
                    },
                ],
            ),
        }
    } else {
        match spec_token_account(account) {
            Err(e) => Err(e),
            Ok(parsed) => if mint.key != parsed.mint {
                Err(failure(TokenRecipesError::AccountMismatch))
            } else if owner.key != parsed.owner {
                Err(failure(TokenRecipesError::AccountMismatch))
            } else {
                Ok(Seq::empty())
            },
        }
    }
}

/// Asserts that a given account is a token account of the given mint and
/// owner, or asks for it to be created if it is their associated token
/// account and does not exist yet.
pub fn assert_token_account_or_create_ata(
    account: &AccountInfo,
    mint: &AccountInfo,
    owner: &AccountInfo,
    payer: &AccountInfo,
) -> (result: Result<Vec<Effect>, ProgramError>)
    ensures
        effects_match(result, spec_token_account_or_create_ata(*account, *mint, *owner, *payer)),
{
    assert_writable(account)?;
    if account.data_is_empty() {
        let seeds = associated_token_seeds(&owner.key, &mint.key);
        assert_pda(account, &associated_token_program(), &seeds)?;
        Ok(single_effect(create_associated_token_account(account, mint, owner, payer)))
    } else {
        let parsed_account = assert_token_account(account)?;
        assert_same_pubkeys(mint, &parsed_account.mint)?;
        assert_same_pubkeys(owner, &parsed_account.owner)?;
        Ok(no_effects())
    }
}

} // verus!
