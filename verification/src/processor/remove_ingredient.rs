//! The instruction that removes an ingredient from a recipe.

use vstd::prelude::*;
use crate::account::AccountInfo;
use crate::assertions::{assert_same_pubkeys, assert_signer, assert_writable};
use crate::error::{failure, ProgramError, TokenRecipesError};
use crate::processor::{recipe_of_signer, spec_recipe_of_signer};
use crate::pubkey::{system_program, system_program_id, token_program, token_program_id};
use crate::processor::add_ingredient::{spec_add_ingredient, spec_ingredient};
use crate::pubkey::{program_id, Pubkey};
use crate::state::ingredient_record::{lemma_ingredient_record_round_trip, IngredientRecord};
use crate::assertions::spec_mint_account;
use crate::state::delegated_ingredient::{
    lemma_acquire_counts_one_more, lemma_delegated_ingredient_round_trip, DelegatedIngredient,
};
use crate::state::ingredient_input::IngredientInput;
use crate::state::ingredient_output::IngredientOutput;
use crate::state::key::{lemma_key_byte_round_trip, Key};
use crate::state::recipe::{
    input_matches, is_first_input, is_first_output, lemma_first_input_is_unique,
    lemma_first_output_is_unique, lemma_header_len, lemma_len_with_output, output_matches,
    lemma_header_round_trip, lemma_len_with_input, lemma_recipe_round_trip,
    lemma_recipe_serialized_len,
    spec_find_ingredient, Ingredient, IngredientType, Recipe, RecipeView,
};
use crate::utils::{effects_match, Effect, EffectView};

verus! {

/// What the removal of an ingredient asks for. The records are those of the
/// addition of an ingredient, and the same is checked of them. The
/// ingredient is the first of the recipe that the kind and the mint name,
/// else `MissingIngredient`; it is removed.
pub open spec fn spec_remove_ingredient(
    accounts: Seq<AccountInfo>,
    ingredient_type: IngredientType,
) -> Result<
    Seq<EffectView>,
    ProgramError,
> {
    if accounts.len() < 8 {
        Err(ProgramError::NotEnoughAccountKeys)
    } else {
        let recipe = accounts[0];
        let mint = accounts[1];
        let ingredient_record = accounts[2];
        let delegated_ingredient = accounts[3];
        let authority = accounts[4];
        let payer = accounts[5];
        match spec_recipe_of_signer(recipe, authority) {
            Err(e) => Err(e),
            Ok(recipe_account) => if !payer.is_writable {
                Err(failure(TokenRecipesError::ExpectedWritableAccount))
            } else if !payer.is_signer {
                Err(failure(TokenRecipesError::ExpectedSignerAccount))
            } else if accounts[6].key != system_program_id() {
                Err(failure(TokenRecipesError::AccountMismatch))
            } else if accounts[7].key != token_program_id() {
                Err(failure(TokenRecipesError::AccountMismatch))
            } else {
                match spec_find_ingredient(recipe_account, ingredient_type, mint.key) {
                    Err(e) => Err(e),
                    Ok((Ingredient::Input(input), index)) => input.spec_remove(
                        recipe_account,
                        index,
                        recipe,
                        mint,
                        ingredient_record,
                        payer,
                    ),
                    Ok((Ingredient::Output(output), index)) => output.spec_remove(
                        recipe_account,
                        index,
                        recipe,
                        mint,
                        ingredient_record,
                        delegated_ingredient,
                        authority,
                        payer,
                    ),
                }
            },
        }
    }
}

/// Removes an ingredient from a recipe in the name of its authority.
pub fn remove_ingredient(accounts: &[AccountInfo], ingredient_type: IngredientType) -> (result:
    Result<Vec<Effect>, ProgramError>)
    ensures
        effects_match(result, spec_remove_ingredient(accounts@, ingredient_type)),
{
    if accounts.len() < 8 {
        return Err(ProgramError::NotEnoughAccountKeys);
    }
    let recipe = &accounts[0];
    let mint = &accounts[1];
    let ingredient_record = &accounts[2];
    let delegated_ingredient = &accounts[3];
    let authority = &accounts[4];
    let payer = &accounts[5];
    let system_program_account = &accounts[6];
    let token_program_account = &accounts[7];

    let mut recipe_account = recipe_of_signer(recipe, authority)?;
    assert_writable(payer)?;
    assert_signer(payer)?;
    assert_same_pubkeys(system_program_account, &system_program())?;
    assert_same_pubkeys(token_program_account, &token_program())?;

    let (ingredient, index) = recipe_account.find_ingredient(ingredient_type, mint)?;
    match ingredient {
        Ingredient::Input(input) => input.remove(
            &mut recipe_account,
            index,
            recipe,
            mint,
            ingredient_record,
            payer,
        ),
        Ingredient::Output(output) => output.remove(
            &mut recipe_account,
            index,
            recipe,
            mint,
            ingredient_record,
            delegated_ingredient,
            authority,
            payer,
        ),
    }
}

/// Whether a record is the record `before` as it stands later, holding
/// `data`: at the same address, owned by the same program, handed in with
/// the same rights.
pub open spec fn holds_later(before: AccountInfo, after: AccountInfo, data: Seq<u8>) -> bool {
    &&& after.key == before.key
    &&& after.owner == before.owner
    &&& after.is_signer == before.is_signer
    &&& after.is_writable == before.is_writable
    &&& after.data@ == data
}

/// Whether a record is the record `before` as it stands after the program
/// wrote `data` to it, having created it where it did not exist: at the
/// same address, owned by the program, handed in with the same rights.
pub open spec fn holds_written(before: AccountInfo, after: AccountInfo, data: Seq<u8>) -> bool {
    &&& after.key == before.key
    &&& after.owner == program_id()
    &&& after.is_signer == before.is_signer
    &&& after.is_writable == before.is_writable
    &&& after.data@ == data
}

/// A recipe that was read from its record is read again from the record as
/// it stands after another recipe with the same tag was written to it.
pub proof fn lemma_written_recipe_is_read(
    before: AccountInfo,
    after: AccountInfo,
    recipe: RecipeView,
    written: RecipeView,
)
    requires
        Recipe::spec_get_writable(before) == Ok::<RecipeView, ProgramError>(recipe),
        written.key == recipe.key,
        written.inputs.len() <= u32::MAX,
        written.outputs.len() <= u32::MAX,
        holds_later(before, after, written.spec_serialize()),
    ensures
        Recipe::spec_get_writable(after) == Ok::<RecipeView, ProgramError>(written),
        recipe.key == Key::Recipe,
{
    lemma_header_round_trip(recipe, Seq::empty());
    lemma_key_byte_round_trip(before.data@[0]);
    lemma_recipe_serialized_len(written);
    lemma_header_len(written);
    lemma_recipe_round_trip(written, Seq::empty());
    assert(written.spec_serialize() + Seq::<u8>::empty() =~= written.spec_serialize());
    assert(written.spec_serialize()[0] == written.key.spec_byte());
}

/// The ingredient that was put behind the inputs of a recipe is the one
/// that is found, where none of the inputs before it is the one that the
/// instruction names.
pub proof fn lemma_added_input_is_found(
    recipe: RecipeView,
    input: IngredientInput,
    ingredient_type: IngredientType,
    mint: Pubkey,
)
    requires
        ingredient_type.spec_is_input(),
        input_matches(input, ingredient_type, mint),
        forall|j: int|
            0 <= j < recipe.inputs.len() ==> !input_matches(
                #[trigger] recipe.inputs[j],
                ingredient_type,
                mint,
            ),
    ensures
        spec_find_ingredient(recipe.with_input(input), ingredient_type, mint) == Ok::<
            (Ingredient, int),
            ProgramError,
        >((Ingredient::Input(input), recipe.inputs.len() as int)),
        recipe.with_input(input).without_input(recipe.inputs.len() as int) == recipe,
{
    let added = recipe.with_input(input);
    let last = recipe.inputs.len() as int;
    assert(is_first_input(added.inputs, last, ingredient_type, mint));
    let chosen = choose|i: int| is_first_input(added.inputs, i, ingredient_type, mint);
    lemma_first_input_is_unique(added.inputs, chosen, last, ingredient_type, mint);
    assert(added.inputs.remove(last) =~= recipe.inputs);
}

/// The record of a token and a recipe that the program wrote is the one
/// that is read from its account afterwards.
pub proof fn lemma_written_ingredient_record_is_got(
    before: AccountInfo,
    after: AccountInfo,
    mint: AccountInfo,
    recipe: AccountInfo,
    payer: AccountInfo,
    written: IngredientRecord,
)
    requires
        match IngredientRecord::spec_get_or_create(before, mint, recipe, payer) {
            Ok((record, _)) => written.key == record.key && written.mint == record.mint
                && written.recipe == record.recipe,
            Err(_) => false,
        },
        holds_written(before, after, written.spec_serialize()),
    ensures
        IngredientRecord::spec_get(after, mint, recipe) == Ok::<IngredientRecord, ProgramError>(
            written,
        ),
{
    lemma_ingredient_record_round_trip(written, Seq::empty());
    assert(written.spec_serialize() + Seq::<u8>::empty() =~= written.spec_serialize());
    assert(written.spec_serialize()[0] == written.key.spec_byte());
    if before.data@.len() != 0 {
        lemma_key_byte_round_trip(before.data@[0]);
    }
}

/// What the removal of the input that was just added asks for: the record
/// of the recipe shrinks back to the size that it had and is written with
/// the recipe as it was; the record of the token and the recipe is written
/// as it was, or closed where the token plays no role as an output.
pub open spec fn spec_undone_input(
    before: Seq<AccountInfo>,
    recipe: RecipeView,
    input: IngredientInput,
) -> Seq<EffectView> {
    let resized = seq![
        EffectView::Realloc {
            target: before[0].key,
            funding: before[5].key,
            new_size: before[0].data@.len() as usize,
            refund: true,
        },
        EffectView::Write { account: before[0].key, data: recipe.spec_serialize() },
    ];
    match input {
        IngredientInput::TransferSol { .. } => resized,
        _ => match IngredientRecord::spec_get_or_create(
            before[2],
            before[1],
            before[0],
            before[5],
        ) {
            Ok((record, _)) => resized + record.spec_save_or_close(before[2], before[5]),
            Err(_) => resized,
        },
    }
}

/// Whether the records are those of `before` as they stand after the input
/// was added: the record of the recipe holds the recipe with the input,
/// the record of the token and the recipe holds the token as an input, and
/// every other record is as it was.
pub open spec fn stands_after_input(
    before: Seq<AccountInfo>,
    after: Seq<AccountInfo>,
    recipe: RecipeView,
    input: IngredientInput,
) -> bool {
    &&& after.len() == before.len()
    &&& forall|i: int| 0 <= i < before.len() && i != 0 && i != 2 ==> after[i] == before[i]
    &&& holds_later(before[0], after[0], recipe.with_input(input).spec_serialize())
    &&& match input {
        IngredientInput::TransferSol { .. } => after[2] == before[2],
        _ => match IngredientRecord::spec_get_or_create(
            before[2],
            before[1],
            before[0],
            before[5],
        ) {
            Ok((record, _)) => holds_written(
                before[2],
                after[2],
                (IngredientRecord { input: true, ..record }).spec_serialize(),
            ),
            Err(_) => false,
        },
    }
}

/// The addition of an input writes what stands after it: it asks for the
/// record of the recipe to grow by the length of the input and to hold the
/// recipe with the input and, for an input of tokens, for the record of
/// the token and the recipe to hold the token as an input, as the last of
/// what it asks.
pub proof fn lemma_add_input_writes(
    before: Seq<AccountInfo>,
    amount: u64,
    ingredient_type: IngredientType,
    destination: Option<Pubkey>,
    max_supply: Option<u64>,
    recipe: RecipeView,
    input: IngredientInput,
)
    requires
        spec_add_ingredient(before, amount, ingredient_type, destination, max_supply) is Ok,
        spec_recipe_of_signer(before[0], before[4]) == Ok::<RecipeView, ProgramError>(recipe),
        spec_ingredient(ingredient_type, before[1].key, amount, destination, max_supply) == Ok::<
            Ingredient,
            ProgramError,
        >(Ingredient::Input(input)),
    ensures
        ({
            let effects = spec_add_ingredient(
                before,
                amount,
                ingredient_type,
                destination,
                max_supply,
            ).unwrap();
            &&& effects.len() >= 2
            &&& effects[0] == (EffectView::Realloc {
                target: before[0].key,
                funding: before[5].key,
                new_size: (before[0].data@.len() + input.spec_len()) as usize,
                refund: true,
            })
            &&& effects[1] == (EffectView::Write {
                account: before[0].key,
                data: recipe.with_input(input).spec_serialize(),
            })
            &&& match input {
                IngredientInput::TransferSol { .. } => effects.len() == 2,
                _ => match IngredientRecord::spec_get_or_create(
                    before[2],
                    before[1],
                    before[0],
                    before[5],
                ) {
                    Ok((record, _)) => !record.input && effects.last() == (EffectView::Write {
                        account: before[2].key,
                        data: (IngredientRecord { input: true, ..record }).spec_serialize(),
                    }),
                    Err(_) => false,
                },
            }
        }),
{
}

/// The addition of an output writes what stands after it: it asks for the
/// record of the recipe to grow by the length of the output and to hold
/// the recipe with the output, for the record of the token and the recipe
/// to hold the token as an output, and, as the last of what it asks, for
/// the record that holds the mint authority to count one recipe more.
pub proof fn lemma_add_output_writes(
    before: Seq<AccountInfo>,
    amount: u64,
    ingredient_type: IngredientType,
    destination: Option<Pubkey>,
    max_supply: Option<u64>,
    recipe: RecipeView,
    output: IngredientOutput,
)
    requires
        spec_add_ingredient(before, amount, ingredient_type, destination, max_supply) is Ok,
        spec_recipe_of_signer(before[0], before[4]) == Ok::<RecipeView, ProgramError>(recipe),
        spec_ingredient(ingredient_type, before[1].key, amount, destination, max_supply) == Ok::<
            Ingredient,
            ProgramError,
        >(Ingredient::Output(output)),
    ensures
        ({
            let effects = spec_add_ingredient(
                before,
                amount,
                ingredient_type,
                destination,
                max_supply,
            ).unwrap();
            &&& effects.len() >= 4
            &&& effects[0] == (EffectView::Realloc {
                target: before[0].key,
                funding: before[5].key,
                new_size: (before[0].data@.len() + output.spec_len()) as usize,
                refund: true,
            })
            &&& effects[1] == (EffectView::Write {
                account: before[0].key,
                data: recipe.with_output(output).spec_serialize(),
            })
            &&& match (
                IngredientRecord::spec_get_or_create(before[2], before[1], before[0], before[5]),
                DelegatedIngredient::spec_get_or_create(before[3], before[1], before[4], before[5]),
            ) {
                (Ok((record, created)), Ok((delegated, _))) => {
                    &&& !record.output
                    &&& effects[2 + created.len() as int] == (EffectView::Write {
                        account: before[2].key,
                        data: (IngredientRecord { output: true, ..record }).spec_serialize(),
                    })
                    &&& effects.last() == (EffectView::Write {
                        account: before[3].key,
                        data: (DelegatedIngredient {
                            counter: (delegated.counter + 1) as u32,
                            ..delegated
                        }).spec_serialize(),
                    })
                },
                _ => false,
            }
        }),
{
    lemma_acquire_counts_one_more(before[3], before[1], before[4], before[5]);
}

/// Removing an input that was just added brings everything back: where an
/// input was added to a recipe whose record had the size of the recipe and
/// which did not list the token as an input, and the records then hold
/// what the addition wrote, its removal succeeds, and asks for the record
/// of the recipe to take the size that it had and to hold the recipe as it
/// was, and for the record of the token and the recipe to hold what it
/// held, or to be closed again.
pub proof fn lemma_remove_undoes_add_input(
    before: Seq<AccountInfo>,
    after: Seq<AccountInfo>,
    amount: u64,
    ingredient_type: IngredientType,
    destination: Option<Pubkey>,
    max_supply: Option<u64>,
    recipe: RecipeView,
    input: IngredientInput,
)
    requires
        spec_add_ingredient(before, amount, ingredient_type, destination, max_supply) is Ok,
        spec_recipe_of_signer(before[0], before[4]) == Ok::<RecipeView, ProgramError>(recipe),
        spec_ingredient(ingredient_type, before[1].key, amount, destination, max_supply) == Ok::<
            Ingredient,
            ProgramError,
        >(Ingredient::Input(input)),
        before[0].data@.len() == recipe.spec_len(),
        forall|j: int|
            0 <= j < recipe.inputs.len() ==> !input_matches(
                #[trigger] recipe.inputs[j],
                ingredient_type,
                before[1].key,
            ),
        stands_after_input(before, after, recipe, input),
    ensures
        spec_remove_ingredient(after, ingredient_type) == Ok::<Seq<EffectView>, ProgramError>(
            spec_undone_input(before, recipe, input),
        ),
{
    let added = recipe.with_input(input);
    let mint = before[1];
    let payer = before[5];
    assert(after[1] == before[1] && after[3] == before[3] && after[4] == before[4] && after[5]
        == before[5] && after[6] == before[6] && after[7] == before[7]);
    lemma_written_recipe_is_read(before[0], after[0], recipe, added);
    lemma_added_input_is_found(recipe, input, ingredient_type, mint.key);
    lemma_recipe_serialized_len(added);
    lemma_len_with_input(recipe, input);
    match input {
        IngredientInput::TransferSol { .. } => {},
        _ => {
            let record = IngredientRecord::spec_get_or_create(
                before[2],
                before[1],
                before[0],
                before[5],
            ).unwrap().0;
            let written = IngredientRecord { input: true, ..record };
            lemma_written_ingredient_record_is_got(
                before[2],
                after[2],
                mint,
                before[0],
                payer,
                written,
            );
            assert(IngredientRecord::spec_get(after[2], after[1], after[0])
                == IngredientRecord::spec_get(after[2], mint, before[0]));
            assert((IngredientRecord { input: false, ..written }) == record);
        },
    }
}

/// The ingredient that was put behind the outputs of a recipe is the one
/// that is found, where none of the outputs before it mints the token.
pub proof fn lemma_added_output_is_found(
    recipe: RecipeView,
    output: IngredientOutput,
    ingredient_type: IngredientType,
)
    requires
        !ingredient_type.spec_is_input(),
        forall|j: int|
            0 <= j < recipe.outputs.len() ==> !output_matches(
                #[trigger] recipe.outputs[j],
                output.spec_mint(),
            ),
    ensures
        spec_find_ingredient(recipe.with_output(output), ingredient_type, output.spec_mint())
            == Ok::<(Ingredient, int), ProgramError>(
            (Ingredient::Output(output), recipe.outputs.len() as int),
        ),
        recipe.with_output(output).without_output(recipe.outputs.len() as int) == recipe,
{
    let added = recipe.with_output(output);
    let last = recipe.outputs.len() as int;
    assert(is_first_output(added.outputs, last, output.spec_mint()));
    let chosen = choose|i: int| is_first_output(added.outputs, i, output.spec_mint());
    lemma_first_output_is_unique(added.outputs, chosen, last, output.spec_mint());
    assert(added.outputs.remove(last) =~= recipe.outputs);
}

/// The record that holds the mint authority of a token, as the program
/// wrote it, is the one that is read from its account afterwards.
pub proof fn lemma_written_delegated_ingredient_is_got(
    before: AccountInfo,
    after: AccountInfo,
    mint: AccountInfo,
    authority: AccountInfo,
    payer: AccountInfo,
    written: DelegatedIngredient,
)
    requires
        match DelegatedIngredient::spec_get_or_create(before, mint, authority, payer) {
            Ok((record, _)) => written.key == record.key && written.mint == record.mint
                && written.authority == record.authority,
            Err(_) => false,
        },
        holds_written(before, after, written.spec_serialize()),
    ensures
        DelegatedIngredient::spec_get(after, mint, authority) == Ok::<
            DelegatedIngredient,
            ProgramError,
        >(written),
{
    lemma_delegated_ingredient_round_trip(written, Seq::empty());
    assert(written.spec_serialize() + Seq::<u8>::empty() =~= written.spec_serialize());
    assert(written.spec_serialize()[0] == written.key.spec_byte());
    if before.data@.len() != 0 {
        lemma_key_byte_round_trip(before.data@[0]);
    }
}

/// What the removal of the output that was just added asks for: the record
/// of the recipe shrinks back to the size that it had and is written with
/// the recipe as it was; the record of the token and the recipe is written
/// as it was, or closed where the token plays no role as an input; the
/// record that holds the mint authority is written with the counter that
/// it had, or, where it had counted no recipe, hands the mint authority
/// back and is closed.
pub open spec fn spec_undone_output(before: Seq<AccountInfo>, recipe: RecipeView) -> Seq<
    EffectView,
> {
    let resized = seq![
        EffectView::Realloc {
            target: before[0].key,
            funding: before[5].key,
            new_size: before[0].data@.len() as usize,
            refund: true,
        },
        EffectView::Write { account: before[0].key, data: recipe.spec_serialize() },
    ];
    match (
        IngredientRecord::spec_get_or_create(before[2], before[1], before[0], before[5]),
        DelegatedIngredient::spec_get_or_create(before[3], before[1], before[4], before[5]),
    ) {
        (Ok((record, _)), Ok((delegated, _))) => match delegated.spec_save_or_close(
            before[3],
            before[1],
            before[4],
            before[5],
        ) {
            Ok(released) => resized + record.spec_save_or_close(before[2], before[5]) + released,
            Err(_) => resized,
        },
        _ => resized,
    }
}

/// Whether the records are those of `before` as they stand after the
/// output was added: the record of the recipe holds the recipe with the
/// output, the record of the token and the recipe holds the token as an
/// output, the record that holds the mint authority counts one recipe
/// more, the mint is still a mint, and every other record is as it was.
pub open spec fn stands_after_output(
    before: Seq<AccountInfo>,
    after: Seq<AccountInfo>,
    recipe: RecipeView,
    output: IngredientOutput,
) -> bool {
    &&& after.len() == before.len()
    &&& forall|i: int| 4 <= i < before.len() ==> after[i] == before[i]
    &&& holds_later(before[0], after[0], recipe.with_output(output).spec_serialize())
    &&& after[1].key == before[1].key
    &&& after[1].is_writable == before[1].is_writable
    &&& spec_mint_account(after[1]) is Ok
    &&& match (
        IngredientRecord::spec_get_or_create(before[2], before[1], before[0], before[5]),
        DelegatedIngredient::spec_get_or_create(before[3], before[1], before[4], before[5]),
    ) {
        (Ok((record, _)), Ok((delegated, _))) => {
            &&& holds_written(
                before[2],
                after[2],
                (IngredientRecord { output: true, ..record }).spec_serialize(),
            )
            &&& holds_written(
                before[3],
                after[3],
                (DelegatedIngredient {
                    counter: (delegated.counter + 1) as u32,
                    ..delegated
                }).spec_serialize(),
            )
        },
        _ => false,
    }
}

/// Removing an output that was just added brings everything back: where an
/// output was added to a recipe whose record had the size of the recipe
/// and which did not mint the token, and the records then hold what the
/// addition wrote, its removal succeeds, and asks for the record of the
/// recipe to take the size that it had and to hold the recipe as it was,
/// for the record of the token and the recipe to hold what it held or to
/// be closed again, and for the record that holds the mint authority to
/// count what it counted or, where it was new, to hand the mint authority
/// back and to be closed again.
pub proof fn lemma_remove_undoes_add_output(
    before: Seq<AccountInfo>,
    after: Seq<AccountInfo>,
    amount: u64,
    ingredient_type: IngredientType,
    destination: Option<Pubkey>,
    max_supply: Option<u64>,
    recipe: RecipeView,
    output: IngredientOutput,
)
    requires
        spec_add_ingredient(before, amount, ingredient_type, destination, max_supply) is Ok,
        spec_recipe_of_signer(before[0], before[4]) == Ok::<RecipeView, ProgramError>(recipe),
        spec_ingredient(ingredient_type, before[1].key, amount, destination, max_supply) == Ok::<
            Ingredient,
            ProgramError,
        >(Ingredient::Output(output)),
        before[0].data@.len() == recipe.spec_len(),
        forall|j: int|
            0 <= j < recipe.outputs.len() ==> !output_matches(
                #[trigger] recipe.outputs[j],
                before[1].key,
            ),
        stands_after_output(before, after, recipe, output),
    ensures
        spec_remove_ingredient(after, ingredient_type) == Ok::<Seq<EffectView>, ProgramError>(
            spec_undone_output(before, recipe),
        ),
{
    let added = recipe.with_output(output);
    let payer = before[5];
    let authority = before[4];
    assert(after[4] == before[4] && after[5] == before[5] && after[6] == before[6] && after[7]
        == before[7]);
    lemma_written_recipe_is_read(before[0], after[0], recipe, added);
    lemma_added_output_is_found(recipe, output, ingredient_type);
    lemma_recipe_serialized_len(added);
    lemma_len_with_output(recipe, output);

    let record = IngredientRecord::spec_get_or_create(
        before[2],
        before[1],
        before[0],
        before[5],
    ).unwrap().0;
    let written = IngredientRecord { output: true, ..record };
    lemma_written_ingredient_record_is_got(
        before[2],
        after[2],
        before[1],
        before[0],
        payer,
        written,
    );
    assert(IngredientRecord::spec_get(after[2], after[1], after[0]) == IngredientRecord::spec_get(
        after[2],
        before[1],
        before[0],
    ));
    assert((IngredientRecord { output: false, ..written }) == record);

    let delegated = DelegatedIngredient::spec_get_or_create(
        before[3],
        before[1],
        before[4],
        before[5],
    ).unwrap().0;
    let counted = DelegatedIngredient { counter: (delegated.counter + 1) as u32, ..delegated };
    lemma_written_delegated_ingredient_is_got(
        before[3],
        after[3],
        before[1],
        authority,
        payer,
        counted,
    );
    assert(DelegatedIngredient::spec_get(after[3], after[1], after[4])
        == DelegatedIngredient::spec_get(after[3], before[1], before[4]));
    assert((DelegatedIngredient { counter: (counted.counter - 1) as u32, ..counted })
        == delegated);
}

} // verus!
