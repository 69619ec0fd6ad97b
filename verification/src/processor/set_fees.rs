//! The instruction that sets the custom fee of a recipe.

use vstd::prelude::*;
use crate::account::AccountInfo;
use crate::error::{failure, ProgramError, TokenRecipesError};
use crate::processor::{recipe_of_signer, spec_recipe_of_signer};
use crate::state::features::fees::asserts_can_set_fees;
use crate::state::recipe::{Recipe, RecipeView};
use crate::utils::{effects_match, Effect, EffectView};

verus! {

/// What is asked for the custom fee of a recipe to be set. The records are
/// the writable record of the recipe and its authority, which must have
/// signed. Fails with `InvalidFeesFeature` below level 10 of the fee
/// feature; else the recipe is written with the fee.
pub open spec fn spec_set_fees(accounts: Seq<AccountInfo>, fees: u64) -> Result<
    Seq<EffectView>,
    ProgramError,
> {
    if accounts.len() < 2 {
        Err(ProgramError::NotEnoughAccountKeys)
    } else {
        match spec_recipe_of_signer(accounts[0], accounts[1]) {
            Err(e) => Err(e),
            Ok(recipe_account) => if recipe_account.feature_levels.fees < 10 {
                Err(failure(TokenRecipesError::InvalidFeesFeature))
            } else {
                Recipe::spec_save(RecipeView { fees, ..recipe_account }, accounts[0])
            },
        }
    }
}

/// Sets the custom fee of a recipe in the name of its authority.
pub fn set_fees(accounts: &[AccountInfo], fees: u64) -> (result: Result<Vec<Effect>, ProgramError>)
    ensures
        effects_match(result, spec_set_fees(accounts@, fees)),
{
    if accounts.len() < 2 {
        return Err(ProgramError::NotEnoughAccountKeys);
    }
    let recipe = &accounts[0];
    let authority = &accounts[1];
    let mut recipe_account = recipe_of_signer(recipe, authority)?;
    asserts_can_set_fees(&recipe_account)?;
    recipe_account.fees = fees;
    recipe_account.save(recipe)
}

} // verus!
