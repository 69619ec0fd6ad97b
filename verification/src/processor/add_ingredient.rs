//! The instruction that adds an ingredient to a recipe.

use vstd::prelude::*;
use crate::account::AccountInfo;
use crate::assertions::{assert_same_pubkeys, assert_signer, assert_writable, ProgramResult};
use crate::error::{failure, ProgramError, TokenRecipesError};
use crate::processor::{recipe_of_signer, spec_recipe_of_signer};
use crate::pubkey::{
    system_program, system_program_id, token_program, token_program_id, Pubkey,
};
use crate::state::features::additional_outputs::{
    assert_valid_additional_outputs, spec_valid_additional_outputs,
};
use crate::state::features::max_supply::{
    assert_valid_max_supply_outputs, spec_valid_max_supply_outputs,
};
use crate::state::features::sol_payment::{assert_valid_sol_payment, spec_valid_sol_payment};
use crate::state::features::transfer_inputs::{
    assert_valid_transfer_inputs, spec_valid_transfer_inputs,
};
use crate::state::ingredient_input::IngredientInput;
use crate::state::ingredient_output::IngredientOutput;
use crate::state::recipe::{Ingredient, IngredientType, Recipe, RecipeView};
use crate::utils::{effects_match, Effect, EffectView};

verus! {

/// The ingredient that an instruction describes by its kind, its token, its
/// amount and, where the kind needs them, a destination or a maximum
/// supply: `MissingDestinationArgument` or `MissingMaxSupplyArgument` where
/// what the kind needs is not given.
pub open spec fn spec_ingredient(
    ingredient_type: IngredientType,
    mint: Pubkey,
    amount: u64,
    destination: Option<Pubkey>,
    max_supply: Option<u64>,
) -> Result<Ingredient, ProgramError> {
    match ingredient_type {
        IngredientType::BurnTokenInput => Ok(
            Ingredient::Input(IngredientInput::BurnToken { mint, amount }),
        ),
        IngredientType::TransferTokenInput => match destination {
            Some(destination) => Ok(
                Ingredient::Input(IngredientInput::TransferToken { mint, amount, destination }),
            ),
            None => Err(failure(TokenRecipesError::MissingDestinationArgument)),
        },
        IngredientType::TransferSolInput => match destination {
            Some(destination) => Ok(
                Ingredient::Input(IngredientInput::TransferSol { lamports: amount, destination }),
            ),
            None => Err(failure(TokenRecipesError::MissingDestinationArgument)),
        },
        IngredientType::MintTokenOutput => Ok(
            Ingredient::Output(IngredientOutput::MintToken { mint, amount }),
        ),
        IngredientType::MintTokenWithMaxSupplyOutput => match max_supply {
            Some(max_supply) => Ok(
                Ingredient::Output(
                    IngredientOutput::MintTokenWithMaxSupply { mint, amount, max_supply },
                ),
            ),
            None => Err(failure(TokenRecipesError::MissingMaxSupplyArgument)),
        },
    }
}

/// Makes the ingredient that an instruction describes.
pub fn ingredient_of(
    ingredient_type: IngredientType,
    mint: Pubkey,
    amount: u64,
    destination: Option<Pubkey>,
    max_supply: Option<u64>,
) -> (result: Result<Ingredient, ProgramError>)
    ensures
        result == spec_ingredient(ingredient_type, mint, amount, destination, max_supply),
{
    match ingredient_type {
        IngredientType::BurnTokenInput => Ok(
            Ingredient::Input(IngredientInput::BurnToken { mint, amount }),
        ),
        IngredientType::TransferTokenInput => match destination {
            Some(destination) => Ok(
                Ingredient::Input(IngredientInput::TransferToken { mint, amount, destination }),
            ),
            None => Err(ProgramError::from(TokenRecipesError::MissingDestinationArgument)),
        },
        IngredientType::TransferSolInput => match destination {
            Some(destination) => Ok(
                Ingredient::Input(IngredientInput::TransferSol { lamports: amount, destination }),
            ),
            None => Err(ProgramError::from(TokenRecipesError::MissingDestinationArgument)),
        },
        IngredientType::MintTokenOutput => Ok(
            Ingredient::Output(IngredientOutput::MintToken { mint, amount }),
        ),
        IngredientType::MintTokenWithMaxSupplyOutput => match max_supply {
            Some(max_supply) => Ok(
                Ingredient::Output(
                    IngredientOutput::MintTokenWithMaxSupply { mint, amount, max_supply },
                ),
            ),
            None => Err(ProgramError::from(TokenRecipesError::MissingMaxSupplyArgument)),
        },
    }
}

/// Whether a recipe stays within what its feature levels allow: the first
/// allowance that it goes beyond says how it fails.
pub open spec fn spec_within_features(recipe: RecipeView) -> ProgramResult {
    if !spec_valid_transfer_inputs(recipe) {
        Err(failure(TokenRecipesError::InvalidTransferInputsFeature))
    } else if !spec_valid_sol_payment(recipe) {
        Err(failure(TokenRecipesError::InvalidSolPaymentFeature))
    } else if !spec_valid_additional_outputs(recipe) {
        Err(failure(TokenRecipesError::InvalidAdditionalOutputsFeature))
    } else if !spec_valid_max_supply_outputs(recipe) {
        Err(failure(TokenRecipesError::InvalidMaxSupplyFeature))
    } else {
        Ok(())
    }
}

/// Asserts that a recipe stays within what its feature levels allow.
pub fn assert_within_features(recipe: &Recipe) -> (result: ProgramResult)
    ensures
        result == spec_within_features(recipe@),
{
    assert_valid_transfer_inputs(recipe)?;
    assert_valid_sol_payment(recipe)?;
    assert_valid_additional_outputs(recipe)?;
    assert_valid_max_supply_outputs(recipe)
}

/// The recipe with one more ingredient behind the others of its side.
pub open spec fn spec_with_ingredient(recipe: RecipeView, ingredient: Ingredient) -> RecipeView {
    match ingredient {
        Ingredient::Input(input) => recipe.with_input(input),
        Ingredient::Output(output) => recipe.with_output(output),
    }
}

/// What the addition of an ingredient asks for. The records are the
/// writable record of the recipe, the mint, the record of the token and the
/// recipe, the record that holds the mint authority, the authority of the
/// recipe, which must have signed, the payer, writable and signed, the
/// system program and the token program. The amount must not be zero, else
/// `CannotAddIngredientWithZeroAmount`. The ingredient is added, and the
/// recipe with it must stay within what its feature levels allow.
pub open spec fn spec_add_ingredient(
    accounts: Seq<AccountInfo>,
    amount: u64,
    ingredient_type: IngredientType,
    destination: Option<Pubkey>,
    max_supply: Option<u64>,
) -> Result<Seq<EffectView>, ProgramError> {
    if accounts.len() < 8 {
        Err(ProgramError::NotEnoughAccountKeys)
    } else {
        let recipe = accounts[0];
        let mint = accounts[1];
        let ingredient_record = accounts[2];
        let delegated_ingredient = accounts[3];
        let authority = accounts[4];
        let payer = accounts[5];
        match spec_recipe_of_signer(recipe, authority) {
            Err(e) => Err(e),
            Ok(recipe_account) => if !payer.is_writable {
                Err(failure(TokenRecipesError::ExpectedWritableAccount))
            } else if !payer.is_signer {
                Err(failure(TokenRecipesError::ExpectedSignerAccount))
            } else if accounts[6].key != system_program_id() {
                Err(failure(TokenRecipesError::AccountMismatch))
            } else if accounts[7].key != token_program_id() {
                Err(failure(TokenRecipesError::AccountMismatch))
            } else if amount == 0 {
                Err(failure(TokenRecipesError::CannotAddIngredientWithZeroAmount))
            } else {
                match spec_ingredient(ingredient_type, mint.key, amount, destination, max_supply) {
                    Err(e) => Err(e),
                    Ok(ingredient) => {
                        let added = match ingredient {
                            Ingredient::Input(input) => input.spec_add(
                                recipe_account,
                                recipe,
                                mint,
                                ingredient_record,
                                payer,
                            ),
                            Ingredient::Output(output) => output.spec_add(
                                recipe_account,
                                recipe,
                                mint,
                                ingredient_record,
                                delegated_ingredient,
                                authority,
                                payer,
                            ),
                        };
                        match added {
                            Err(e) => Err(e),
                            Ok(effects) => match spec_within_features(
                                spec_with_ingredient(recipe_account, ingredient),
                            ) {
                                Err(e) => Err(e),
                                Ok(_) => Ok(effects),
                            },
                        }
                    },
                }
            },
        }
    }
}

/// Adds an ingredient to a recipe in the name of its authority.
pub fn add_ingredient(
    accounts: &[AccountInfo],
    amount: u64,
    ingredient_type: IngredientType,
    destination: Option<Pubkey>,
    max_supply: Option<u64>,
) -> (result: Result<Vec<Effect>, ProgramError>)
    ensures
        effects_match(
            result,
            spec_add_ingredient(accounts@, amount, ingredient_type, destination, max_supply),
        ),
{
    if accounts.len() < 8 {
        return Err(ProgramError::NotEnoughAccountKeys);
    }
    let recipe = &accounts[0];
    let mint = &accounts[1];
    let ingredient_record = &accounts[2];
    let delegated_ingredient = &accounts[3];
    let authority = &accounts[4];
    let payer = &accounts[5];
    let system_program_account = &accounts[6];
    let token_program_account = &accounts[7];

    let mut recipe_account = recipe_of_signer(recipe, authority)?;
    assert_writable(payer)?;
    assert_signer(payer)?;
    assert_same_pubkeys(system_program_account, &system_program())?;
    assert_same_pubkeys(token_program_account, &token_program())?;

    if amount == 0 {
        return Err(ProgramError::from(TokenRecipesError::CannotAddIngredientWithZeroAmount));
    }
    let ingredient = ingredient_of(ingredient_type, mint.key, amount, destination, max_supply)?;

    let effects = match ingredient {
        Ingredient::Input(input) => input.add(
            &mut recipe_account,
            recipe,
            mint,
            ingredient_record,
            payer,
        ),
        Ingredient::Output(output) => output.add(
            &mut recipe_account,
            recipe,
            mint,
            ingredient_record,
            delegated_ingredient,
            authority,
            payer,
        ),
    }?;

    assert_within_features(&recipe_account)?;
    Ok(effects)
}

} // verus!
