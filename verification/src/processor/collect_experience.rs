//! The instruction that pays out the experience of a recipe.

use vstd::prelude::*;
use crate::account::AccountInfo;
use crate::assertions::{assert_same_pubkeys, assert_signer, assert_writable};
use crate::error::{failure, ProgramError, TokenRecipesError};
use crate::processor::{recipe_of_signer, spec_recipe_of_signer};
use crate::pubkey::{
    associated_token_program, associated_token_program_id, token_program, token_program_id,
};
use crate::state::features::wisdom::{
    collect_experience as collect_experience_logic, spec_collect_experience, WisdomFeature,
};
use crate::state::recipe::{Recipe, RecipeView};
use crate::utils::{append_effects, effects_match, Effect, EffectView};

verus! {

/// What the collection of the experience of a recipe asks for. The records
/// are the writable record of the recipe, its authority, which must have
/// signed, the record of the wisdom feature, the mint of the experience,
/// the authority's token account for it, the payer, signed and writable,
/// the token program and the associated-token-account program. The
/// experience is minted to the authority, and the recipe is written with
/// its counter at zero.
pub open spec fn spec_collect_experience_instruction(accounts: Seq<AccountInfo>) -> Result<
    Seq<EffectView>,
    ProgramError,
> {
    if accounts.len() < 8 {
        Err(ProgramError::NotEnoughAccountKeys)
    } else {
        let recipe = accounts[0];
        let authority = accounts[1];
        let wisdom_feature_pda = accounts[2];
        let experience_mint = accounts[3];
        let experience_token = accounts[4];
        let payer = accounts[5];
        match spec_recipe_of_signer(recipe, authority) {
            Err(e) => Err(e),
            Ok(recipe_account) => if !payer.is_signer {
                Err(failure(TokenRecipesError::ExpectedSignerAccount))
            } else if !payer.is_writable {
                Err(failure(TokenRecipesError::ExpectedWritableAccount))
            } else if accounts[6].key != token_program_id() {
                Err(failure(TokenRecipesError::AccountMismatch))
            } else if accounts[7].key != associated_token_program_id() {
                Err(failure(TokenRecipesError::AccountMismatch))
            } else {
                match WisdomFeature::spec_get(wisdom_feature_pda) {
                    Err(e) => Err(e),
                    Ok(wisdom_feature) => match spec_collect_experience(
                        recipe_account.accumulated_experience,
                        wisdom_feature.experience_mint,
                        authority,
                        experience_mint,
                        experience_token,
                        wisdom_feature_pda,
                        payer,
                    ) {
                        Err(e) => Err(e),
                        Ok(minted) => match Recipe::spec_save(
                            RecipeView { accumulated_experience: 0, ..recipe_account },
                            recipe,
                        ) {
                            Err(e) => Err(e),
                            Ok(written) => Ok(minted + written),
                        },
                    },
                }
            },
        }
    }
}

/// Collects the experience that a recipe earned.
pub fn collect_experience(accounts: &[AccountInfo]) -> (result: Result<Vec<Effect>, ProgramError>)
    ensures
        effects_match(result, spec_collect_experience_instruction(accounts@)),
{
    if accounts.len() < 8 {
        return Err(ProgramError::NotEnoughAccountKeys);
    }
    let recipe = &accounts[0];
    let authority = &accounts[1];
    let wisdom_feature_pda = &accounts[2];
    let experience_mint = &accounts[3];
    let experience_token = &accounts[4];
    let payer = &accounts[5];
    let token_program_account = &accounts[6];
    let ata_program_account = &accounts[7];

    let mut recipe_account = recipe_of_signer(recipe, authority)?;

    assert_signer(payer)?;
    assert_writable(payer)?;

    assert_same_pubkeys(token_program_account, &token_program())?;
    assert_same_pubkeys(ata_program_account, &associated_token_program())?;

    let wisdom_feature_account = WisdomFeature::get(wisdom_feature_pda)?;
    let mut effects = collect_experience_logic(
        recipe_account.accumulated_experience,
        &wisdom_feature_account.experience_mint,
        authority,
        experience_mint,
        experience_token,
        wisdom_feature_pda,
        payer,
    )?;

    recipe_account.accumulated_experience = 0;
    let saved = recipe_account.save(recipe)?;
    append_effects(&mut effects, saved);
    Ok(effects)
}

} // verus!
