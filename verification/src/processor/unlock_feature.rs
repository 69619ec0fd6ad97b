//! The instruction that levels a feature of a recipe up.

use vstd::prelude::*;
use crate::account::AccountInfo;
use crate::assertions::{
    assert_enough_tokens, assert_mint_account, assert_program_owner, assert_same_pubkeys,
    assert_signer, assert_token_account, assert_writable, spec_mint_account, spec_token_account,
};
use crate::error::{failure, ProgramError, TokenRecipesError};
use crate::processor::{recipe_of_signer, spec_recipe_of_signer};
use crate::pubkey::{id, program_id, token_program, token_program_id};
use crate::state::features::{spec_unlock, Feature, UnlockFeatureContext};
use crate::utils::{effects_match, Effect, EffectView};

verus! {

/// What the unlocking of a feature asks for. The records are the writable
/// record of the recipe, the record of the feature, the authority of the
/// recipe, which must have signed, the holder of the token that is
/// presented, who must have signed, the writable mint of the token, the
/// holder's writable token account of that mint, which must hold a token,
/// else `NotEnoughTokens`, and the token program. The feature is levelled
/// up by its gates.
pub open spec fn spec_unlock_feature(accounts: Seq<AccountInfo>) -> Result<
    Seq<EffectView>,
    ProgramError,
> {
    if accounts.len() < 7 {
        Err(ProgramError::NotEnoughAccountKeys)
    } else {
        let recipe = accounts[0];
        let feature_pda = accounts[1];
        let authority = accounts[2];
        let owner = accounts[3];
        let mint = accounts[4];
        let token = accounts[5];
        match spec_recipe_of_signer(recipe, authority) {
            Err(e) => Err(e),
            Ok(_) => if feature_pda.owner != program_id() {
                Err(failure(TokenRecipesError::InvalidProgramOwner))
            } else {
                match Feature::spec_load(feature_pda) {
                    Err(e) => Err(e),
                    Ok(feature) => if !owner.is_signer {
                        Err(failure(TokenRecipesError::ExpectedSignerAccount))
                    } else if !mint.is_writable {
                        Err(failure(TokenRecipesError::ExpectedWritableAccount))
                    } else {
                        match spec_mint_account(mint) {
                            Err(e) => Err(e),
                            Ok(_) => if !token.is_writable {
                                Err(failure(TokenRecipesError::ExpectedWritableAccount))
                            } else {
                                match spec_token_account(token) {
                                    Err(e) => Err(e),
                                    Ok(token_account) => if mint.key != token_account.mint
                                        || owner.key != token_account.owner {
                                        Err(failure(TokenRecipesError::AccountMismatch))
                                    } else if token_account.amount < 1 {
                                        Err(failure(TokenRecipesError::NotEnoughTokens))
                                    } else if accounts[6].key != token_program_id() {
                                        Err(failure(TokenRecipesError::AccountMismatch))
                                    } else {
                                        spec_unlock(
                                            recipe,
                                            owner,
                                            mint,
                                            token,
                                            feature.spec_kind(),
                                            feature.spec_max_level(),
                                            feature.spec_gates(),
                                        )
                                    },
                                }
                            },
                        }
                    },
                }
            },
        }
    }
}

/// Levels a feature of a recipe up by burning or holding a token of the
/// feature.
pub fn unlock_feature(accounts: &[AccountInfo]) -> (result: Result<Vec<Effect>, ProgramError>)
    ensures
        effects_match(result, spec_unlock_feature(accounts@)),
{
    if accounts.len() < 7 {
        return Err(ProgramError::NotEnoughAccountKeys);
    }
    let recipe = &accounts[0];
    let feature_pda = &accounts[1];
    let authority = &accounts[2];
    let owner = &accounts[3];
    let mint = &accounts[4];
    let token = &accounts[5];
    let token_program_account = &accounts[6];

    recipe_of_signer(recipe, authority)?;

    assert_program_owner(feature_pda, &id())?;
    let feature_account = Feature::load(feature_pda)?;

    assert_signer(owner)?;
    assert_writable(mint)?;
    assert_mint_account(mint)?;
    assert_writable(token)?;
    let token_account = assert_token_account(token)?;
    assert_same_pubkeys(mint, &token_account.mint)?;
    assert_same_pubkeys(owner, &token_account.owner)?;
    assert_enough_tokens(token_account, 1)?;

    assert_same_pubkeys(token_program_account, &token_program())?;

    feature_account.unlock(&UnlockFeatureContext { recipe, owner, mint, token })
}

} // verus!
