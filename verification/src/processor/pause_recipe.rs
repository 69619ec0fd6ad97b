//! The instruction that stops a recipe from being crafted.

use vstd::prelude::*;
use crate::account::AccountInfo;
use crate::error::ProgramError;
use crate::processor::activate_recipe::{set_status, spec_set_status};
use crate::state::recipe::RecipeStatus;
use crate::utils::{effects_match, Effect};

verus! {

/// Pauses a recipe: it cannot be crafted until it is activated again. Its
/// ingredients stay as they are.
pub fn pause_recipe(accounts: &[AccountInfo]) -> (result: Result<Vec<Effect>, ProgramError>)
    ensures
        effects_match(result, spec_set_status(accounts@, RecipeStatus::Paused)),
{
    set_status(accounts, RecipeStatus::Paused)
}

} // verus!
