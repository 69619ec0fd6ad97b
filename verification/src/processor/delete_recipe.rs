//! The instruction that deletes a recipe.

use vstd::prelude::*;
use crate::account::AccountInfo;
use crate::assertions::{assert_same_pubkeys, assert_signer, assert_writable};
use crate::error::{failure, ProgramError, TokenRecipesError};
use crate::pubkey::{system_program, system_program_id, token_program, token_program_id};
use crate::state::features::fees::{
    collect_fees, collect_shards, spec_collect_fees, spec_collect_shards, FeesFeature,
};
use crate::state::features::wisdom::{collect_experience, spec_collect_experience, WisdomFeature};
use crate::state::recipe::Recipe;
use crate::utils::{append_effects, close_account, effects_match, push_effect, Effect, EffectView};

verus! {

/// What the deletion of a recipe asks for. The records are the writable
/// record of the recipe, its authority, writable and signed, the payer,
/// who must have signed, the admin's destination, the record of the fee
/// feature, the mint of the shards and the authority's token account for
/// them, the record of the wisdom feature, the mint of the experience and
/// the authority's token account for it, the system program and the token
/// program. A recipe that has an ingredient left is not deleted:
/// `RecipeMustBeEmptyBeforeItCanBeDeleted`. What the recipe earned is
/// settled first, fees, then shards, then experience; then its record is
/// closed and its storage deposit handed to the authority.
pub open spec fn spec_delete_recipe(accounts: Seq<AccountInfo>, rent_exempt_reserve: u64) -> Result<
    Seq<EffectView>,
    ProgramError,
> {
    if accounts.len() < 12 {
        Err(ProgramError::NotEnoughAccountKeys)
    } else {
        let recipe = accounts[0];
        let authority = accounts[1];
        let payer = accounts[2];
        let admin_fees_destination = accounts[3];
        let fees_feature_pda = accounts[4];
        let shards_mint = accounts[5];
        let shards_token = accounts[6];
        let wisdom_feature_pda = accounts[7];
        let experience_mint = accounts[8];
        let experience_token = accounts[9];
        match Recipe::spec_get_writable(recipe) {
            Err(e) => Err(e),
            Ok(recipe_account) => if !authority.is_writable {
                Err(failure(TokenRecipesError::ExpectedWritableAccount))
            } else {
                match Recipe::spec_signer_authority(recipe_account, authority) {
                    Err(e) => Err(e),
                    Ok(_) => if recipe_account.inputs.len() > 0 || recipe_account.outputs.len()
                        > 0 {
                        Err(failure(TokenRecipesError::RecipeMustBeEmptyBeforeItCanBeDeleted))
                    } else if !payer.is_signer {
                        Err(failure(TokenRecipesError::ExpectedSignerAccount))
                    } else if accounts[10].key != system_program_id() {
                        Err(failure(TokenRecipesError::AccountMismatch))
                    } else if accounts[11].key != token_program_id() {
                        Err(failure(TokenRecipesError::AccountMismatch))
                    } else {
                        match FeesFeature::spec_get(fees_feature_pda) {
                            Err(e) => Err(e),
                            Ok(fees_feature) => match WisdomFeature::spec_get(wisdom_feature_pda) {
                                Err(e) => Err(e),
                                Ok(wisdom_feature) => match spec_collect_fees(
                                    recipe_account.accumulated_admin_fees,
                                    fees_feature.admin_destination,
                                    recipe_account.base,
                                    recipe,
                                    authority,
                                    admin_fees_destination,
                                    rent_exempt_reserve,
                                ) {
                                    Err(e) => Err(e),
                                    Ok(paid) => match spec_collect_shards(
                                        recipe_account.accumulated_shards,
                                        fees_feature.shard_mint,
                                        authority,
                                        shards_mint,
                                        shards_token,
                                        fees_feature_pda,
                                    ) {
                                        Err(e) => Err(e),
                                        Ok(shards) => match spec_collect_experience(
                                            recipe_account.accumulated_experience,
                                            wisdom_feature.experience_mint,
                                            authority,
                                            experience_mint,
                                            experience_token,
                                            wisdom_feature_pda,
                                            payer,
                                        ) {
                                            Err(e) => Err(e),
                                            Ok(experience) => Ok(
                                                (paid + shards + experience).push(
                                                    EffectView::Close {
                                                        target: recipe.key,
                                                        receiver: authority.key,
                                                    },
                                                ),
                                            ),
                                        },
                                    },
                                },
                            },
                        }
                    },
                }
            },
        }
    }
}

/// Deletes a recipe that has no ingredients left, settling what it earned.
/// `rent_exempt_reserve` is the storage deposit that the record of the
/// recipe must keep while it exists.
pub fn delete_recipe(accounts: &[AccountInfo], rent_exempt_reserve: u64) -> (result: Result<
    Vec<Effect>,
    ProgramError,
>)
    ensures
        effects_match(result, spec_delete_recipe(accounts@, rent_exempt_reserve)),
{
    if accounts.len() < 12 {
        return Err(ProgramError::NotEnoughAccountKeys);
    }
    let recipe = &accounts[0];
    let authority = &accounts[1];
    let payer = &accounts[2];
    let admin_fees_destination = &accounts[3];
    let fees_feature_pda = &accounts[4];
    let shards_mint = &accounts[5];
    let shards_token = &accounts[6];
    let wisdom_feature_pda = &accounts[7];
    let experience_mint = &accounts[8];
    let experience_token = &accounts[9];
    let system_program_account = &accounts[10];
    let token_program_account = &accounts[11];

    let recipe_account = Recipe::get_writable(recipe)?;
    assert_writable(authority)?;
    recipe_account.assert_signer_authority(authority)?;
    if recipe_account.inputs.len() > 0 || recipe_account.outputs.len() > 0 {
        return Err(ProgramError::from(TokenRecipesError::RecipeMustBeEmptyBeforeItCanBeDeleted));
    }

    assert_signer(payer)?;

    assert_same_pubkeys(system_program_account, &system_program())?;
    assert_same_pubkeys(token_program_account, &token_program())?;

    let fees_feature_account = FeesFeature::get(fees_feature_pda)?;
    let wisdom_feature_account = WisdomFeature::get(wisdom_feature_pda)?;

    let mut effects = collect_fees(
        recipe_account.accumulated_admin_fees,
        &fees_feature_account.admin_destination,
        &recipe_account.base,
        recipe,
        authority,
        admin_fees_destination,
        rent_exempt_reserve,
    )?;

    let shards = collect_shards(
        recipe_account.accumulated_shards,
        &fees_feature_account.shard_mint,
        authority,
        shards_mint,
        shards_token,
        fees_feature_pda,
    )?;

    let experience = collect_experience(
        recipe_account.accumulated_experience,
        &wisdom_feature_account.experience_mint,
        authority,
        experience_mint,
        experience_token,
        wisdom_feature_pda,
        payer,
    )?;

    append_effects(&mut effects, shards);
    append_effects(&mut effects, experience);
    push_effect(&mut effects, close_account(recipe, authority));
    Ok(effects)
}

} // verus!
