//! The instructions of the program: what each checks of the records handed
//! to it, and what it asks of the ledger.

use vstd::prelude::*;
use crate::account::AccountInfo;
use crate::error::ProgramError;
use crate::instruction::TokenRecipesInstruction;
use crate::processor::craft::{Crafting, CraftingView};
use crate::pubkey::Pubkey;
use crate::state::recipe::{recipe_matches, Recipe, RecipeStatus, RecipeView};
use crate::utils::{effects_match, Effect, EffectView};

pub mod activate_recipe;
pub mod add_ingredient;
pub mod admin_set_feature;
pub mod collect_experience;
pub mod collect_fees;
pub mod craft;
pub mod create_recipe;
pub mod delete_recipe;
pub mod pause_recipe;
pub mod remove_ingredient;
pub mod set_fees;
pub mod unlock_feature;

verus! {

/// The recipe that an instruction of its authority changes: the record must
/// be writable and hold a recipe of the program, and the authority of the
/// recipe must have signed.
pub open spec fn spec_recipe_of_signer(recipe: AccountInfo, authority: AccountInfo) -> Result<
    RecipeView,
    ProgramError,
> {
    match Recipe::spec_get_writable(recipe) {
        Err(e) => Err(e),
        Ok(recipe_account) => match Recipe::spec_signer_authority(recipe_account, authority) {
            Err(e) => Err(e),
            Ok(_) => Ok(recipe_account),
        },
    }
}

/// Reads the recipe that an instruction of its authority changes.
pub fn recipe_of_signer(recipe: &AccountInfo, authority: &AccountInfo) -> (result: Result<
    Recipe,
    ProgramError,
>)
    ensures
        recipe_matches(result, spec_recipe_of_signer(*recipe, *authority)),
{
    let recipe_account = Recipe::get_writable(recipe)?;
    recipe_account.assert_signer_authority(authority)?;
    Ok(recipe_account)
}

/// What an instruction comes to: what it asks of the ledger or, for a
/// craft, the craft that it begins, which is then taken step by step.
#[derive(Clone, Debug, PartialEq, Eq)]
pub enum Processed {
    Effects(Vec<Effect>),
    Crafting(Crafting),
}

/// The mathematical value of a [`Processed`].
pub ghost enum ProcessedView {
    Effects(Seq<EffectView>),
    Crafting(CraftingView),
}

impl View for Processed {
    type V = ProcessedView;

    open spec fn view(&self) -> ProcessedView {
        match *self {
            Processed::Effects(effects) => ProcessedView::Effects(effects.deep_view()),
            Processed::Crafting(crafting) => ProcessedView::Crafting(crafting@),
        }
    }
}

/// What an instruction that asks of the ledger at once comes to.
pub open spec fn spec_asked(outcome: Result<Seq<EffectView>, ProgramError>) -> Result<
    ProcessedView,
    ProgramError,
> {
    match outcome {
        Ok(effects) => Ok(ProcessedView::Effects(effects)),
        Err(e) => Err(e),
    }
}

/// What an instruction that asks of the ledger at once comes to.
fn asked(outcome: Result<Vec<Effect>, ProgramError>, Ghost(expected): Ghost<
    Result<Seq<EffectView>, ProgramError>,
>) -> (result: Result<Processed, ProgramError>)
    requires
        effects_match(outcome, expected),
    ensures
        processed_matches(result, spec_asked(expected)),
{
    match outcome {
        Ok(effects) => Ok(Processed::Effects(effects)),
        Err(e) => Err(e),
    }
}

/// Whether an outcome is the expected one: the same failure, or what the
/// instruction is expected to come to.
pub open spec fn processed_matches(
    result: Result<Processed, ProgramError>,
    expected: Result<ProcessedView, ProgramError>,
) -> bool {
    match result {
        Ok(processed) => expected == Ok::<ProcessedView, ProgramError>(processed@),
        Err(e) => expected == Err::<ProcessedView, ProgramError>(e),
    }
}

/// What an instruction comes to: what the instruction that its payload
/// holds asks for, or the craft that it begins; `BorshIoError` where the
/// payload holds none.
pub open spec fn spec_process_instruction(
    accounts: Seq<AccountInfo>,
    instruction_data: Seq<u8>,
    rent_exempt_reserve: u64,
) -> Result<ProcessedView, ProgramError> {
    match TokenRecipesInstruction::spec_try_from_slice(instruction_data) {
        Err(e) => Err(e),
        Ok(instruction) => match instruction {
            TokenRecipesInstruction::CreateRecipe => spec_asked(
                create_recipe::spec_create_recipe(accounts),
            ),
            TokenRecipesInstruction::AddIngredient {
                ingredient_type,
                amount,
                destination,
                max_supply,
            } => spec_asked(
                add_ingredient::spec_add_ingredient(
                    accounts,
                    amount,
                    ingredient_type,
                    destination,
                    max_supply,
                ),
            ),
            TokenRecipesInstruction::RemoveIngredient { ingredient_type } => spec_asked(
                remove_ingredient::spec_remove_ingredient(accounts, ingredient_type),
            ),
            TokenRecipesInstruction::ActivateRecipe => spec_asked(
                activate_recipe::spec_set_status(accounts, RecipeStatus::Active),
            ),
            TokenRecipesInstruction::PauseRecipe => spec_asked(
                activate_recipe::spec_set_status(accounts, RecipeStatus::Paused),
            ),
            TokenRecipesInstruction::Craft { quantity } => match craft::spec_craft(
                accounts,
                quantity,
            ) {
                Ok(crafting) => Ok(ProcessedView::Crafting(crafting)),
                Err(e) => Err(e),
            },
            TokenRecipesInstruction::DeleteRecipe => spec_asked(
                delete_recipe::spec_delete_recipe(accounts, rent_exempt_reserve),
            ),
            TokenRecipesInstruction::AdminSetFeature { feature } => spec_asked(
                admin_set_feature::spec_admin_set_feature(accounts, feature),
            ),
            TokenRecipesInstruction::UnlockFeature => spec_asked(
                unlock_feature::spec_unlock_feature(accounts),
            ),
            TokenRecipesInstruction::SetFees { fees } => spec_asked(
                set_fees::spec_set_fees(accounts, fees),
            ),
            TokenRecipesInstruction::CollectFees => spec_asked(
                collect_fees::spec_collect_fees_instruction(accounts, rent_exempt_reserve),
            ),
            TokenRecipesInstruction::CollectExperience => spec_asked(
                collect_experience::spec_collect_experience_instruction(accounts),
            ),
        },
    }
}

/// The entry of the program.
pub struct Processor;

impl Processor {
    /// Decodes an instruction and decides what it comes to, from the
    /// records handed to it: what it asks of the ledger or, for a craft,
    /// the craft to be taken step by step. `rent_exempt_reserve` is the
    /// storage deposit that the first of the records must keep at its
    /// present size; only the instructions that pay out what a recipe holds
    /// read it.
    pub fn process_instruction(
        _program_id: &Pubkey,
        accounts: &[AccountInfo],
        instruction_data: &[u8],
        rent_exempt_reserve: u64,
    ) -> (result: Result<Processed, ProgramError>)
        ensures
            processed_matches(
                result,
                spec_process_instruction(accounts@, instruction_data@, rent_exempt_reserve),
            ),
    {
        let instruction = TokenRecipesInstruction::try_from_slice(instruction_data)?;
        match instruction {
            TokenRecipesInstruction::CreateRecipe => asked(
                create_recipe::create_recipe(accounts),
                Ghost(create_recipe::spec_create_recipe(accounts@)),
            ),
            TokenRecipesInstruction::AddIngredient {
                ingredient_type,
                amount,
                destination,
                max_supply,
            } => asked(
                add_ingredient::add_ingredient(
                    accounts,
                    amount,
                    ingredient_type,
                    destination,
                    max_supply,
                ),
                Ghost(
                    add_ingredient::spec_add_ingredient(
                        accounts@,
                        amount,
                        ingredient_type,
                        destination,
                        max_supply,
                    ),
                ),
            ),
            TokenRecipesInstruction::RemoveIngredient { ingredient_type } => asked(
                remove_ingredient::remove_ingredient(accounts, ingredient_type),
                Ghost(remove_ingredient::spec_remove_ingredient(accounts@, ingredient_type)),
            ),
            TokenRecipesInstruction::ActivateRecipe => asked(
                activate_recipe::activate_recipe(accounts),
                Ghost(activate_recipe::spec_set_status(accounts@, RecipeStatus::Active)),
            ),
            TokenRecipesInstruction::PauseRecipe => asked(
                pause_recipe::pause_recipe(accounts),
                Ghost(activate_recipe::spec_set_status(accounts@, RecipeStatus::Paused)),
            ),
            TokenRecipesInstruction::Craft { quantity } => {
                match craft::craft(accounts, quantity) {
                    Ok(crafting) => Ok(Processed::Crafting(crafting)),
                    Err(e) => Err(e),
                }
            },
            TokenRecipesInstruction::DeleteRecipe => asked(
                delete_recipe::delete_recipe(accounts, rent_exempt_reserve),
                Ghost(delete_recipe::spec_delete_recipe(accounts@, rent_exempt_reserve)),
            ),
            TokenRecipesInstruction::AdminSetFeature { feature } => asked(
                admin_set_feature::admin_set_feature(accounts, feature),
                Ghost(admin_set_feature::spec_admin_set_feature(accounts@, feature)),
            ),
            TokenRecipesInstruction::UnlockFeature => asked(
                unlock_feature::unlock_feature(accounts),
                Ghost(unlock_feature::spec_unlock_feature(accounts@)),
            ),
            TokenRecipesInstruction::SetFees { fees } => asked(
                set_fees::set_fees(accounts, fees),
                Ghost(set_fees::spec_set_fees(accounts@, fees)),
            ),
            TokenRecipesInstruction::CollectFees => asked(
                collect_fees::collect_fees(accounts, rent_exempt_reserve),
                Ghost(collect_fees::spec_collect_fees_instruction(accounts@, rent_exempt_reserve)),
            ),
            TokenRecipesInstruction::CollectExperience => asked(
                collect_experience::collect_experience(accounts),
                Ghost(collect_experience::spec_collect_experience_instruction(accounts@)),
            ),
        }
    }
}

} // verus!
