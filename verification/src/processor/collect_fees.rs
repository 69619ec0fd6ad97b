//! The instruction that pays out the fees and shards of a recipe.

use vstd::prelude::*;
use crate::account::AccountInfo;
use crate::assertions::{assert_same_pubkeys, assert_signer, assert_writable};
use crate::error::{failure, ProgramError, TokenRecipesError};
use crate::processor::{recipe_of_signer, spec_recipe_of_signer};
use crate::pubkey::{system_program, system_program_id, token_program, token_program_id};
use crate::state::features::fees::{
    collect_fees as collect_fees_logic, collect_shards, spec_collect_fees, spec_collect_shards,
    FeesFeature,
};
use crate::state::recipe::{Recipe, RecipeView};
use crate::utils::{append_effects, effects_match, Effect, EffectView};

verus! {

/// What the collection of the fees of a recipe asks for. The records are
/// the writable record of the recipe, its authority, writable and signed,
/// the admin's destination, the record of the fee feature, the mint of the
/// shards, the authority's token account for them, the payer, signed and
/// writable, the system program and the token program. What the recipe
/// holds above its storage deposit is paid out, the admin's part to the
/// admin's destination and the rest to the authority; the shards are
/// minted to the authority; the recipe is written with both counters at
/// zero.
pub open spec fn spec_collect_fees_instruction(
    accounts: Seq<AccountInfo>,
    rent_exempt_reserve: u64,
) -> Result<Seq<EffectView>, ProgramError> {
    if accounts.len() < 9 {
        Err(ProgramError::NotEnoughAccountKeys)
    } else {
        let recipe = accounts[0];
        let authority = accounts[1];
        let admin_fees_destination = accounts[2];
        let fees_feature_pda = accounts[3];
        let shards_mint = accounts[4];
        let shards_token = accounts[5];
        let payer = accounts[6];
        match spec_recipe_of_signer(recipe, authority) {
            Err(e) => Err(e),
            Ok(recipe_account) => if !authority.is_writable {
                Err(failure(TokenRecipesError::ExpectedWritableAccount))
            } else if !payer.is_signer {
                Err(failure(TokenRecipesError::ExpectedSignerAccount))
            } else if !payer.is_writable {
                Err(failure(TokenRecipesError::ExpectedWritableAccount))
            } else if accounts[7].key != system_program_id() {
                Err(failure(TokenRecipesError::AccountMismatch))
            } else if accounts[8].key != token_program_id() {
                Err(failure(TokenRecipesError::AccountMismatch))
            } else {
                match FeesFeature::spec_get(fees_feature_pda) {
                    Err(e) => Err(e),
                    Ok(fees_feature) => match spec_collect_fees(
                        recipe_account.accumulated_admin_fees,
                        fees_feature.admin_destination,
                        recipe_account.base,
                        recipe,
                        authority,
                        admin_fees_destination,
                        rent_exempt_reserve,
                    ) {
                        Err(e) => Err(e),
                        Ok(paid) => match spec_collect_shards(
                            recipe_account.accumulated_shards,
                            fees_feature.shard_mint,
                            authority,
                            shards_mint,
                            shards_token,
                            fees_feature_pda,
                        ) {
                            Err(e) => Err(e),
                            Ok(minted) => match Recipe::spec_save(
                                RecipeView {
                                    accumulated_admin_fees: 0,
                                    accumulated_shards: 0,
                                    ..recipe_account
                                },
                                recipe,
                            ) {
                                Err(e) => Err(e),
                                Ok(written) => Ok(paid + minted + written),
                            },
                        },
                    },
                }
            },
        }
    }
}

/// Collects the fees and the shards that a recipe earned.
/// `rent_exempt_reserve` is the storage deposit that the record of the
/// recipe must keep.
pub fn collect_fees(accounts: &[AccountInfo], rent_exempt_reserve: u64) -> (result: Result<
    Vec<Effect>,
    ProgramError,
>)
    ensures
        effects_match(result, spec_collect_fees_instruction(accounts@, rent_exempt_reserve)),
{
    if accounts.len() < 9 {
        return Err(ProgramError::NotEnoughAccountKeys);
    }
    let recipe = &accounts[0];
    let authority = &accounts[1];
    let admin_fees_destination = &accounts[2];
    let fees_feature_pda = &accounts[3];
    let shards_mint = &accounts[4];
    let shards_token = &accounts[5];
    let payer = &accounts[6];
    let system_program_account = &accounts[7];
    let token_program_account = &accounts[8];

    let mut recipe_account = recipe_of_signer(recipe, authority)?;
    assert_writable(authority)?;

    assert_signer(payer)?;
    assert_writable(payer)?;

    assert_same_pubkeys(system_program_account, &system_program())?;
    assert_same_pubkeys(token_program_account, &token_program())?;

    let fees_feature_account = FeesFeature::get(fees_feature_pda)?;

    let mut effects = collect_fees_logic(
        recipe_account.accumulated_admin_fees,
        &fees_feature_account.admin_destination,
        &recipe_account.base,
        recipe,
        authority,
        admin_fees_destination,
        rent_exempt_reserve,
    )?;

    let minted = collect_shards(
        recipe_account.accumulated_shards,
        &fees_feature_account.shard_mint,
        authority,
        shards_mint,
        shards_token,
        fees_feature_pda,
    )?;

    recipe_account.accumulated_admin_fees = 0;
    recipe_account.accumulated_shards = 0;
    let saved = recipe_account.save(recipe)?;
    append_effects(&mut effects, minted);
    append_effects(&mut effects, saved);
    Ok(effects)
}

} // verus!
