//! The instruction that creates a recipe.

use vstd::prelude::*;
use crate::account::AccountInfo;
use crate::assertions::{
    assert_empty, assert_pda, assert_same_pubkeys, assert_signer, assert_writable,
    spec_assert_pda,
};
use crate::error::{failure, ProgramError, TokenRecipesError};
use crate::pubkey::{id, program_id, system_program, system_program_id};
use crate::state::recipe::{Recipe, RecipeView};
use crate::utils::{
    append_effects, create_account, effects_match, single_effect, spec_with_bump, with_bump,
    Effect, EffectView,
};

verus! {

/// What the creation of a recipe asks for. The records are the base, which
/// must have signed; the record of the recipe, which must be writable,
/// empty and stand at the address derived from the base; the authority; the
/// payer, writable and signed; and the system program. The record is
/// created at the size of a recipe without ingredients and written with a
/// new recipe of the base and the authority.
pub open spec fn spec_create_recipe(accounts: Seq<AccountInfo>) -> Result<
    Seq<EffectView>,
    ProgramError,
> {
    if accounts.len() < 5 {
        Err(ProgramError::NotEnoughAccountKeys)
    } else {
        let base = accounts[0];
        let recipe = accounts[1];
        let authority = accounts[2];
        let payer = accounts[3];
        if !base.is_signer {
            Err(failure(TokenRecipesError::ExpectedSignerAccount))
        } else if !recipe.is_writable {
            Err(failure(TokenRecipesError::ExpectedWritableAccount))
        } else if recipe.data@.len() != 0 {
            Err(failure(TokenRecipesError::ExpectedEmptyAccount))
        } else {
            match spec_assert_pda(recipe.key, program_id(), Recipe::spec_seeds(base.key)) {
                Err(e) => Err(e),
                Ok(bump) => if !payer.is_writable {
                    Err(failure(TokenRecipesError::ExpectedWritableAccount))
                } else if !payer.is_signer {
                    Err(failure(TokenRecipesError::ExpectedSignerAccount))
                } else if accounts[4].key != system_program_id() {
                    Err(failure(TokenRecipesError::AccountMismatch))
                } else {
                    Ok(
                        seq![
                            EffectView::CreateAccount {
                                target: recipe.key,
                                funding: payer.key,
                                size: 138,
                                owner: program_id(),
                                signer_seeds: spec_with_bump(Recipe::spec_seeds(base.key), bump),
                            },
                            EffectView::Write {
                                account: recipe.key,
                                data: RecipeView::spec_new(
                                    base.key,
                                    authority.key,
                                ).spec_serialize(),
                            },
                        ],
                    )
                },
            }
        }
    }
}

/// Creates a recipe: paused, without ingredients, owned by its authority.
pub fn create_recipe(accounts: &[AccountInfo]) -> (result: Result<Vec<Effect>, ProgramError>)
    ensures
        effects_match(result, spec_create_recipe(accounts@)),
{
    if accounts.len() < 5 {
        return Err(ProgramError::NotEnoughAccountKeys);
    }
    let base = &accounts[0];
    let recipe = &accounts[1];
    let authority = &accounts[2];
    let payer = &accounts[3];
    let system_program_account = &accounts[4];

    assert_signer(base)?;

    assert_writable(recipe)?;
    assert_empty(recipe)?;
    let recipe_bump = assert_pda(recipe, &id(), &Recipe::seeds(&base.key))?;

    assert_writable(payer)?;
    assert_signer(payer)?;

    assert_same_pubkeys(system_program_account, &system_program())?;

    let mut effects = single_effect(
        create_account(
            recipe,
            payer,
            Recipe::INITIAL_LEN,
            &id(),
            Some(with_bump(Recipe::seeds(&base.key), recipe_bump)),
        ),
    );
    let saved = Recipe::new(base.key, authority.key).save(recipe)?;
    append_effects(&mut effects, saved);
    assert(effects.deep_view() =~= spec_create_recipe(accounts@).unwrap());
    Ok(effects)
}

} // verus!
