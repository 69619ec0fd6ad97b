//! The instruction that makes a recipe craftable.

use vstd::prelude::*;
use crate::account::AccountInfo;
use crate::error::ProgramError;
use crate::processor::{recipe_of_signer, spec_recipe_of_signer};
use crate::state::recipe::{Recipe, RecipeStatus, RecipeView};
use crate::utils::{effects_match, Effect, EffectView};

verus! {

/// What is asked for the status of a recipe to be set. The records are the
/// writable record of the recipe and its authority, which must have signed.
/// The recipe is written with the status; whether it has ingredients does
/// not matter.
pub open spec fn spec_set_status(accounts: Seq<AccountInfo>, status: RecipeStatus) -> Result<
    Seq<EffectView>,
    ProgramError,
> {
    if accounts.len() < 2 {
        Err(ProgramError::NotEnoughAccountKeys)
    } else {
        match spec_recipe_of_signer(accounts[0], accounts[1]) {
            Err(e) => Err(e),
            Ok(recipe_account) => Recipe::spec_save(
                RecipeView { status, ..recipe_account },
                accounts[0],
            ),
        }
    }
}

/// Sets the status of a recipe in the name of its authority.
pub fn set_status(accounts: &[AccountInfo], status: RecipeStatus) -> (result: Result<
    Vec<Effect>,
    ProgramError,
>)
    ensures
        effects_match(result, spec_set_status(accounts@, status)),
{
    if accounts.len() < 2 {
        return Err(ProgramError::NotEnoughAccountKeys);
    }
    let recipe = &accounts[0];
    let authority = &accounts[1];
    let mut recipe_account = recipe_of_signer(recipe, authority)?;
    recipe_account.status = status;
    recipe_account.save(recipe)
}

/// Activates a recipe: from now on it can be crafted.
pub fn activate_recipe(accounts: &[AccountInfo]) -> (result: Result<Vec<Effect>, ProgramError>)
    ensures
        effects_match(result, spec_set_status(accounts@, RecipeStatus::Active)),
{
    set_status(accounts, RecipeStatus::Active)
}

} // verus!
