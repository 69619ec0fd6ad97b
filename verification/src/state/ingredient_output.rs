//! What a recipe produces each time it is crafted.

use vstd::prelude::*;
use vstd::bytes::spec_u64_to_le_bytes;
use crate::codec::{
    lemma_pubkey_round_trip, lemma_u64_round_trip, pubkey_at, put_pubkey, put_u64, put_u8,
    spec_pubkey_at, spec_u64_at, u64_at,
};
use crate::account::{AccountInfo, Mint};
use crate::assertions::{
    assert_account_key, assert_mint_account, assert_pda, assert_program_owner,
    assert_same_pubkeys, assert_token_account, assert_writable, associated_token_seeds,
    has_account_key, spec_assert_pda, spec_associated_token_seeds, spec_mint_account,
    spec_token_account, ProgramResult,
};
use crate::error::{failure, ProgramError, TokenRecipesError};
use crate::pubkey::{
    associated_token_program, associated_token_program_id, id, program_id, Pubkey,
};
use crate::state::delegated_ingredient::DelegatedIngredient;
use crate::state::ingredient_input::{multiplied_amount, spec_multiplied_amount};
use crate::state::ingredient_record::{spec_set_role, IngredientRecord};
use crate::state::key::Key;
use crate::state::recipe::{Recipe, RecipeView};
use crate::utils::{
    append_effects, create_associated_token_account, effects_match, mint_tokens, no_effects,
    push_effect, single_effect, spec_with_bump, with_bump, Effect, EffectView,
};

verus! {

/// One output of a recipe.
#[derive(Clone, Copy, Debug, PartialEq, Eq)]
pub enum IngredientOutput {
    /// `amount` tokens of `mint` are minted.
    MintToken { mint: Pubkey, amount: u64 },
    /// `amount` tokens of `mint` are minted, as long as no more than
    /// `max_supply` of them exist afterwards.
    MintTokenWithMaxSupply { mint: Pubkey, amount: u64, max_supply: u64 },
}

impl IngredientOutput {
    /// The number of bytes that the output takes in a recipe record.
    pub open spec fn spec_len(self) -> nat {
        match self {
            IngredientOutput::MintToken { .. } => 41,
            IngredientOutput::MintTokenWithMaxSupply { .. } => 49,
        }
    }

    /// The number of bytes that the output takes in a recipe record.
    pub fn len(&self) -> (len: usize)
        ensures
            len == self.spec_len(),
    {
        match self {
            IngredientOutput::MintToken { .. } => 1 + 32 + 8,
            IngredientOutput::MintTokenWithMaxSupply { .. } => 1 + 32 + 8 + 8,
        }
    }

    /// The token that the output mints.
    pub open spec fn spec_mint(self) -> Pubkey {
        match self {
            IngredientOutput::MintToken { mint, .. } => mint,
            IngredientOutput::MintTokenWithMaxSupply { mint, .. } => mint,
        }
    }

    /// The bytes of the output in a recipe record: the variant's tag, then
    /// its fields in order.
    pub open spec fn spec_serialize(self) -> Seq<u8> {
        match self {
            IngredientOutput::MintToken { mint, amount } => seq![0u8] + mint@
                + spec_u64_to_le_bytes(amount),
            IngredientOutput::MintTokenWithMaxSupply { mint, amount, max_supply } => seq![1u8]
                + mint@ + spec_u64_to_le_bytes(amount) + spec_u64_to_le_bytes(max_supply),
        }
    }

    /// The output that the bytes of `data` from `at` on hold, and where the
    /// bytes behind it start; `None` where they hold no output.
    pub open spec fn spec_parse_at(data: Seq<u8>, at: int) -> Option<(IngredientOutput, int)> {
        if at < 0 || at >= data.len() {
            None
        } else if data[at] == 0 && at + 41 <= data.len() {
            Some(
                (
                    IngredientOutput::MintToken {
                        mint: spec_pubkey_at(data, at + 1),
                        amount: spec_u64_at(data, at + 33),
                    },
                    at + 41,
                ),
            )
        } else if data[at] == 1 && at + 49 <= data.len() {
            Some(
                (
                    IngredientOutput::MintTokenWithMaxSupply {
                        mint: spec_pubkey_at(data, at + 1),
                        amount: spec_u64_at(data, at + 33),
                        max_supply: spec_u64_at(data, at + 41),
                    },
                    at + 49,
                ),
            )
        } else {
            None
        }
    }

    /// Writes the output behind the bytes of `out`.
    pub fn serialize(&self, out: &mut Vec<u8>)
        ensures
            final(out)@ == old(out)@ + self.spec_serialize(),
    {
        match self {
            IngredientOutput::MintToken { mint, amount } => {
                put_u8(out, 0);
                put_pubkey(out, mint);
                put_u64(out, *amount);
                assert(out@ =~= old(out)@ + self.spec_serialize());
            },
            IngredientOutput::MintTokenWithMaxSupply { mint, amount, max_supply } => {
                put_u8(out, 1);
                put_pubkey(out, mint);
                put_u64(out, *amount);
                put_u64(out, *max_supply);
                assert(out@ =~= old(out)@ + self.spec_serialize());
            },
        }
    }

    /// Reads the output that starts at `at`.
    pub fn deserialize_at(data: &[u8], at: usize) -> (parsed: Option<(IngredientOutput, usize)>)
        ensures
            match parsed {
                Some((output, next)) => IngredientOutput::spec_parse_at(data@, at as int) == Some(
                    (output, next as int),
                ),
                None => IngredientOutput::spec_parse_at(data@, at as int) is None,
            },
    {
        let len = data.len();
        if at >= len {
            return None;
        }
        let tag = data[at];
        if tag == 0 && len - at >= 41 {
            Some(
                (
                    IngredientOutput::MintToken {
                        mint: pubkey_at(data, at + 1),
                        amount: u64_at(data, at + 33),
                    },
                    at + 41,
                ),
            )
        } else if tag == 1 && len - at >= 49 {
            Some(
                (
                    IngredientOutput::MintTokenWithMaxSupply {
                        mint: pubkey_at(data, at + 1),
                        amount: u64_at(data, at + 33),
                        max_supply: u64_at(data, at + 41),
                    },
                    at + 49,
                ),
            )
        } else {
            None
        }
    }
}

/// Whether a mint of which `supply` tokens exist may mint `minted` more
/// under a maximum supply: the supply afterwards must fit a `u64`, else
/// `NumericalOverflow`, and be no more than the maximum, else
/// `MaximumSupplyReached`.
pub open spec fn spec_assert_max_supply(
    supply: u64,
    minted: u64,
    max_supply: u64,
) -> ProgramResult {
    if supply + minted > u64::MAX {
        Err(failure(TokenRecipesError::NumericalOverflow))
    } else if supply + minted > max_supply {
        Err(failure(TokenRecipesError::MaximumSupplyReached))
    } else {
        Ok(())
    }
}

/// Asserts that a mint of which `supply` tokens exist may mint `minted`
/// more under a maximum supply.
pub fn assert_max_supply(supply: u64, minted: u64, max_supply: u64) -> (result: ProgramResult)
    ensures
        result == spec_assert_max_supply(supply, minted, max_supply),
{
    let new_supply = match supply.checked_add(minted) {
        Some(new_supply) => new_supply,
        None => { return Err(ProgramError::from(TokenRecipesError::NumericalOverflow)); },
    };
    if new_supply > max_supply {
        return Err(ProgramError::from(TokenRecipesError::MaximumSupplyReached));
    }
    Ok(())
}

/// What is asked for the token account that a craft mints into to exist.
/// An empty record must stand at the address of the associated token
/// account of `owner` for the mint, which is then created; any other must
/// be a writable token account of the mint owned by `owner`.
pub open spec fn spec_output_token(
    output_token: AccountInfo,
    output_mint: AccountInfo,
    owner: AccountInfo,
    payer: AccountInfo,
) -> Result<Seq<EffectView>, ProgramError> {
    if output_token.data@.len() == 0 {
        match spec_assert_pda(
            output_token.key,
            associated_token_program_id(),
            spec_associated_token_seeds(owner.key, output_mint.key),
        ) {
            Err(e) => Err(e),
            Ok(_) => Ok(
                seq![
                    EffectView::CreateAssociatedTokenAccount {
                        token: output_token.key,
                        mint: output_mint.key,
                        owner: owner.key,
                        payer: payer.key,
                    },
                ],
            ),
        }
    } else if !output_token.is_writable {
        Err(failure(TokenRecipesError::ExpectedWritableAccount))
    } else {
        match spec_token_account(output_token) {
            Err(e) => Err(e),
            Ok(token_account) => if output_mint.key != token_account.mint || owner.key
                != token_account.owner {
                Err(failure(TokenRecipesError::AccountMismatch))
            } else {
                Ok(Seq::empty())
            },
        }
    }
}

/// The mint of an output as it stands, the suffix byte of the record that
/// holds its mint authority, the amount that a craft mints, and what is
/// asked for the token account to exist. The three records at `cursor` must
/// be the writable mint of the output, the token account of the crafter,
/// and the record of the program that holds the mint authority, at its
/// derived address. The amount times the quantity must fit a `u64`, else
/// `NumericalOverflow`.
pub open spec fn spec_output_mint_and_token(
    accounts: Seq<AccountInfo>,
    cursor: int,
    owner: AccountInfo,
    payer: AccountInfo,
    quantity: u64,
    mint: Pubkey,
    amount: u64,
) -> Result<(Mint, u8, u64, Seq<EffectView>), ProgramError> {
    if cursor < 0 || cursor + 3 > accounts.len() {
        Err(ProgramError::NotEnoughAccountKeys)
    } else {
        let output_mint = accounts[cursor];
        let output_token = accounts[cursor + 1];
        let delegated_ingredient = accounts[cursor + 2];
        if delegated_ingredient.owner != program_id() {
            Err(failure(TokenRecipesError::InvalidProgramOwner))
        } else if !has_account_key(delegated_ingredient.data@, Key::DelegatedIngredient) {
            Err(failure(TokenRecipesError::InvalidAccountKey))
        } else {
            match spec_assert_pda(
                delegated_ingredient.key,
                program_id(),
                DelegatedIngredient::spec_seeds(output_mint.key),
            ) {
                Err(e) => Err(e),
                Ok(bump) => if output_mint.key != mint {
                    Err(failure(TokenRecipesError::AccountMismatch))
                } else if !output_mint.is_writable {
                    Err(failure(TokenRecipesError::ExpectedWritableAccount))
                } else {
                    match spec_mint_account(output_mint) {
                        Err(e) => Err(e),
                        Ok(mint_account) => match spec_output_token(
                            output_token,
                            output_mint,
                            owner,
                            payer,
                        ) {
                            Err(e) => Err(e),
                            Ok(created) => match spec_multiplied_amount(amount, quantity) {
                                Err(e) => Err(e),
                                Ok(multiplied) => Ok((mint_account, bump, multiplied, created)),
                            },
                        },
                    }
                },
            }
        }
    }
}

/// Checks the records of an output and computes the amount that a craft
/// mints of it.
pub fn next_output_mint_and_token(
    accounts: &[AccountInfo],
    cursor: usize,
    owner: &AccountInfo,
    payer: &AccountInfo,
    quantity: u64,
    mint: &Pubkey,
    amount: u64,
) -> (result: Result<(Mint, u8, u64, Vec<Effect>), ProgramError>)
    ensures
        match result {
            Ok((mint_account, bump, multiplied, effects)) => spec_output_mint_and_token(
                accounts@,
                cursor as int,
                *owner,
                *payer,
                quantity,
                *mint,
                amount,
            ) == Ok::<(Mint, u8, u64, Seq<EffectView>), ProgramError>(
                (mint_account, bump, multiplied, effects.deep_view()),
            ),
            Err(e) => spec_output_mint_and_token(
                accounts@,
                cursor as int,
                *owner,
                *payer,
                quantity,
                *mint,
                amount,
            ) == Err::<(Mint, u8, u64, Seq<EffectView>), ProgramError>(e),
        },
{
    if cursor >= accounts.len() || accounts.len() - cursor < 3 {
        return Err(ProgramError::NotEnoughAccountKeys);
    }
    let output_mint = &accounts[cursor];
    let output_token = &accounts[cursor + 1];
    let delegated_ingredient = &accounts[cursor + 2];
    assert_program_owner(delegated_ingredient, &id())?;
    assert_account_key(delegated_ingredient, Key::DelegatedIngredient)?;
    let delegated_ingredient_bump = assert_pda(
        delegated_ingredient,
        &id(),
        &DelegatedIngredient::seeds(&output_mint.key),
    )?;
    assert_same_pubkeys(output_mint, mint)?;
    assert_writable(output_mint)?;
    let output_mint_account = assert_mint_account(output_mint)?;
    let effects = if output_token.data_is_empty() {
        assert_pda(
            output_token,
            &associated_token_program(),
            &associated_token_seeds(&owner.key, &output_mint.key),
        )?;
        single_effect(create_associated_token_account(output_token, output_mint, owner, payer))
    } else {
        assert_writable(output_token)?;
        let output_token_account = assert_token_account(output_token)?;
        assert_same_pubkeys(output_mint, &output_token_account.mint)?;
        assert_same_pubkeys(owner, &output_token_account.owner)?;
        no_effects()
    };
    let multiplied_amount = multiplied_amount(amount, quantity)?;
    Ok((output_mint_account, delegated_ingredient_bump, multiplied_amount, effects))
}

impl IngredientOutput {
    /// The most tokens that may exist after a craft of the output, if the
    /// output says so.
    pub open spec fn spec_max_supply(self) -> Option<u64> {
        match self {
            IngredientOutput::MintToken { .. } => None,
            IngredientOutput::MintTokenWithMaxSupply { max_supply, .. } => Some(max_supply),
        }
    }

    /// The amount of the output that one craft mints.
    pub open spec fn spec_amount(self) -> u64 {
        match self {
            IngredientOutput::MintToken { amount, .. } => amount,
            IngredientOutput::MintTokenWithMaxSupply { amount, .. } => amount,
        }
    }

    /// What is asked for the token of an output to be recorded as an output
    /// of the recipe: `IngredientAlreadyAdded` where it is one already.
    pub open spec fn spec_record_as_output(
        recipe: AccountInfo,
        mint: AccountInfo,
        ingredient_record: AccountInfo,
        payer: AccountInfo,
    ) -> Result<Seq<EffectView>, ProgramError> {
        match IngredientRecord::spec_get_or_create(ingredient_record, mint, recipe, payer) {
            Err(e) => Err(e),
            Ok((record, created)) => match spec_set_role(record.output, true) {
                Err(e) => Err(e),
                Ok(output) => Ok(
                    created + seq![
                        EffectView::Write {
                            account: ingredient_record.key,
                            data: (IngredientRecord { output, ..record }).spec_serialize(),
                        },
                    ],
                ),
            },
        }
    }

    /// Records the token of the output as an output of the recipe.
    fn record_as_output(
        &self,
        recipe: &AccountInfo,
        mint: &AccountInfo,
        ingredient_record: &AccountInfo,
        payer: &AccountInfo,
    ) -> (result: Result<Vec<Effect>, ProgramError>)
        ensures
            effects_match(
                result,
                IngredientOutput::spec_record_as_output(*recipe, *mint, *ingredient_record, *payer),
            ),
    {
        let (mut ingredient_record_account, mut effects) = IngredientRecord::get_or_create(
            ingredient_record,
            mint,
            recipe,
            payer,
        )?;
        ingredient_record_account.set_output(true)?;
        let saved = ingredient_record_account.save(ingredient_record)?;
        append_effects(&mut effects, saved);
        Ok(effects)
    }

    /// What is asked for the token of an output to be recorded as no output
    /// of the recipe any more: `MissingIngredient` where it is none.
    pub open spec fn spec_forget_as_output(
        recipe: AccountInfo,
        mint: AccountInfo,
        ingredient_record: AccountInfo,
        payer: AccountInfo,
    ) -> Result<Seq<EffectView>, ProgramError> {
        match IngredientRecord::spec_get(ingredient_record, mint, recipe) {
            Err(e) => Err(e),
            Ok(record) => match spec_set_role(record.output, false) {
                Err(e) => Err(e),
                Ok(output) => Ok(
                    (IngredientRecord { output, ..record }).spec_save_or_close(
                        ingredient_record,
                        payer,
                    ),
                ),
            },
        }
    }

    /// Records the token of the output as no output of the recipe any more.
    fn forget_as_output(
        &self,
        recipe: &AccountInfo,
        mint: &AccountInfo,
        ingredient_record: &AccountInfo,
        payer: &AccountInfo,
    ) -> (result: Result<Vec<Effect>, ProgramError>)
        ensures
            effects_match(
                result,
                IngredientOutput::spec_forget_as_output(*recipe, *mint, *ingredient_record, *payer),
            ),
    {
        let mut ingredient_record_account = IngredientRecord::get(ingredient_record, mint, recipe)?;
        ingredient_record_account.set_output(false)?;
        ingredient_record_account.save_or_close(ingredient_record, payer)
    }

    /// What is asked for the output to join a recipe. The mint must be
    /// writable; the record of the recipe grows and is written; the record
    /// of the token and the recipe is read, or created, and written with
    /// the token as an output; the record that holds the mint authority of
    /// the token counts one recipe more, taking the mint authority over
    /// from `authority` where it counts its first.
    pub open spec fn spec_add(
        self,
        recipe_account: RecipeView,
        recipe: AccountInfo,
        mint: AccountInfo,
        ingredient_record: AccountInfo,
        delegated_ingredient: AccountInfo,
        authority: AccountInfo,
        payer: AccountInfo,
    ) -> Result<Seq<EffectView>, ProgramError> {
        if !mint.is_writable {
            Err(failure(TokenRecipesError::ExpectedWritableAccount))
        } else {
            match spec_mint_account(mint) {
                Err(e) => Err(e),
                Ok(_) => match Recipe::spec_resize_and_save(
                    recipe_account.with_output(self),
                    recipe,
                    payer,
                    (recipe.data@.len() + self.spec_len()) as int,
                ) {
                    Err(e) => Err(e),
                    Ok(grown) => match IngredientOutput::spec_record_as_output(
                        recipe,
                        mint,
                        ingredient_record,
                        payer,
                    ) {
                        Err(e) => Err(e),
                        Ok(recorded) => match DelegatedIngredient::spec_create_or_increment(
                            delegated_ingredient,
                            mint,
                            authority,
                            payer,
                        ) {
                            Err(e) => Err(e),
                            Ok(delegated) => Ok(grown + recorded + delegated),
                        },
                    },
                },
            }
        }
    }

    /// Adds the output to a recipe. On failure the recipe is unchanged.
    pub fn add(
        &self,
        recipe_account: &mut Recipe,
        recipe: &AccountInfo,
        mint: &AccountInfo,
        ingredient_record: &AccountInfo,
        delegated_ingredient: &AccountInfo,
        authority: &AccountInfo,
        payer: &AccountInfo,
    ) -> (result: Result<Vec<Effect>, ProgramError>)
        ensures
            effects_match(
                result,
                self.spec_add(
                    old(recipe_account)@,
                    *recipe,
                    *mint,
                    *ingredient_record,
                    *delegated_ingredient,
                    *authority,
                    *payer,
                ),
            ),
            final(recipe_account)@ == (if result is Ok {
                old(recipe_account)@.with_output(*self)
            } else {
                old(recipe_account)@
            }),
    {
        assert_writable(mint)?;
        assert_mint_account(mint)?;
        let mut effects = recipe_account.add_ingredient_output(self, recipe, payer)?;
        let ghost grown = effects.deep_view();
        let recorded = match self.record_as_output(recipe, mint, ingredient_record, payer) {
            Ok(recorded) => recorded,
            Err(e) => {
                recipe_account.outputs.pop();
                assert(recipe_account.outputs@ =~= old(recipe_account).outputs@);
                return Err(e);
            },
        };
        let delegated = match DelegatedIngredient::create_or_increment(
            delegated_ingredient,
            mint,
            authority,
            payer,
        ) {
            Ok(delegated) => delegated,
            Err(e) => {
                recipe_account.outputs.pop();
                assert(recipe_account.outputs@ =~= old(recipe_account).outputs@);
                return Err(e);
            },
        };
        append_effects(&mut effects, recorded);
        append_effects(&mut effects, delegated);
        Ok(effects)
    }

    /// What is asked for the output at `index` to leave a recipe. The mint
    /// must be writable; the record of the recipe shrinks and is written;
    /// the record of the token and the recipe is written without the token
    /// as an output, or closed where the token plays no role any more; the
    /// record that holds the mint authority of the token counts one recipe
    /// less, handing the mint authority back to `authority` where it counts
    /// none any more.
    pub open spec fn spec_remove(
        self,
        recipe_account: RecipeView,
        index: int,
        recipe: AccountInfo,
        mint: AccountInfo,
        ingredient_record: AccountInfo,
        delegated_ingredient: AccountInfo,
        authority: AccountInfo,
        payer: AccountInfo,
    ) -> Result<Seq<EffectView>, ProgramError> {
        if !mint.is_writable {
            Err(failure(TokenRecipesError::ExpectedWritableAccount))
        } else {
            match spec_mint_account(mint) {
                Err(e) => Err(e),
                Ok(_) => match Recipe::spec_remove_output(recipe_account, index, recipe, payer) {
                    Err(e) => Err(e),
                    Ok((_, shrunk)) => match IngredientOutput::spec_forget_as_output(
                        recipe,
                        mint,
                        ingredient_record,
                        payer,
                    ) {
                        Err(e) => Err(e),
                        Ok(forgotten) => match DelegatedIngredient::spec_close_or_decrement(
                            delegated_ingredient,
                            mint,
                            authority,
                            payer,
                        ) {
                            Err(e) => Err(e),
                            Ok(released) => Ok(shrunk + forgotten + released),
                        },
                    },
                },
            }
        }
    }

    /// Removes the output, which stands at `index`, from a recipe. On
    /// failure the recipe is unchanged.
    pub fn remove(
        &self,
        recipe_account: &mut Recipe,
        index: usize,
        recipe: &AccountInfo,
        mint: &AccountInfo,
        ingredient_record: &AccountInfo,
        delegated_ingredient: &AccountInfo,
        authority: &AccountInfo,
        payer: &AccountInfo,
    ) -> (result: Result<Vec<Effect>, ProgramError>)
        ensures
            effects_match(
                result,
                self.spec_remove(
                    old(recipe_account)@,
                    index as int,
                    *recipe,
                    *mint,
                    *ingredient_record,
                    *delegated_ingredient,
                    *authority,
                    *payer,
                ),
            ),
            final(recipe_account)@ == (if result is Ok {
                old(recipe_account)@.without_output(index as int)
            } else {
                old(recipe_account)@
            }),
    {
        assert_writable(mint)?;
        assert_mint_account(mint)?;
        let (removed, mut effects) = recipe_account.remove_ingredient_output(index, recipe, payer)?;
        let forgotten = match self.forget_as_output(recipe, mint, ingredient_record, payer) {
            Ok(forgotten) => forgotten,
            Err(e) => {
                recipe_account.outputs.insert(index, removed);
                assert(recipe_account.outputs@ =~= old(recipe_account).outputs@);
                return Err(e);
            },
        };
        let released = match DelegatedIngredient::close_or_decrement(
            delegated_ingredient,
            mint,
            authority,
            payer,
        ) {
            Ok(released) => released,
            Err(e) => {
                recipe_account.outputs.insert(index, removed);
                assert(recipe_account.outputs@ =~= old(recipe_account).outputs@);
                return Err(e);
            },
        };
        append_effects(&mut effects, forgotten);
        append_effects(&mut effects, released);
        Ok(effects)
    }

    /// What one craft of the output asks for, and the record that the next
    /// ingredient starts at. The amount minted is the amount of the output
    /// times the quantity. Where the output has a maximum supply, the
    /// supply of the mint as it stands plus the amount minted must fit a
    /// `u64`, else `NumericalOverflow`, and be no more than the maximum,
    /// else `MaximumSupplyReached`. The tokens are minted in the name of
    /// the record that holds the mint authority.
    pub open spec fn spec_craft(
        self,
        accounts: Seq<AccountInfo>,
        cursor: int,
        owner: AccountInfo,
        payer: AccountInfo,
        quantity: u64,
    ) -> Result<(int, Seq<EffectView>), ProgramError> {
        match spec_output_mint_and_token(
            accounts,
            cursor,
            owner,
            payer,
            quantity,
            self.spec_mint(),
            self.spec_amount(),
        ) {
            Err(e) => Err(e),
            Ok((mint_account, bump, multiplied, created)) => {
                let minted = created.push(
                    EffectView::MintTokens {
                        token: accounts[cursor + 1].key,
                        mint: accounts[cursor].key,
                        mint_authority: accounts[cursor + 2].key,
                        amount: multiplied,
                        decimals: mint_account.decimals,
                        signer_seeds: spec_with_bump(
                            DelegatedIngredient::spec_seeds(accounts[cursor].key),
                            bump,
                        ),
                    },
                );
                match self.spec_max_supply() {
                    None => Ok((cursor + 3, minted)),
                    Some(max_supply) => match spec_assert_max_supply(
                        mint_account.supply,
                        multiplied,
                        max_supply,
                    ) {
                        Err(e) => Err(e),
                        Ok(_) => Ok((cursor + 3, minted)),
                    },
                }
            },
        }
    }

    /// Decides what one craft of the output asks for, from the records that
    /// stand at `cursor`.
    pub fn craft(
        &self,
        accounts: &[AccountInfo],
        cursor: usize,
        owner: &AccountInfo,
        payer: &AccountInfo,
        quantity: u64,
    ) -> (result: Result<(usize, Vec<Effect>), ProgramError>)
        ensures
            match result {
                Ok((next, effects)) => self.spec_craft(
                    accounts@,
                    cursor as int,
                    *owner,
                    *payer,
                    quantity,
                ) == Ok::<(int, Seq<EffectView>), ProgramError>((next as int, effects.deep_view())),
                Err(e) => self.spec_craft(accounts@, cursor as int, *owner, *payer, quantity)
                    == Err::<(int, Seq<EffectView>), ProgramError>(e),
            },
    {
        let (mint, amount, max_supply) = match self {
            IngredientOutput::MintToken { mint, amount } => (mint, *amount, None),
            IngredientOutput::MintTokenWithMaxSupply { mint, amount, max_supply } => (
                mint,
                *amount,
                Some(*max_supply),
            ),
        };
        let (output_mint_account, delegated_ingredient_bump, multiplied_amount, mut effects) =
            next_output_mint_and_token(accounts, cursor, owner, payer, quantity, mint, amount)?;
        let output_mint = &accounts[cursor];
        let output_token = &accounts[cursor + 1];
        let delegated_ingredient = &accounts[cursor + 2];
        match max_supply {
            None => {},
            Some(max_supply) => {
                assert_max_supply(output_mint_account.supply, multiplied_amount, max_supply)?;
            },
        }
        let seeds = with_bump(
            DelegatedIngredient::seeds(&output_mint.key),
            delegated_ingredient_bump,
        );
        push_effect(
            &mut effects,
            mint_tokens(
                output_token,
                output_mint,
                delegated_ingredient,
                multiplied_amount,
                output_mint_account.decimals,
                Some(seeds),
            ),
        );
        Ok((cursor + 3, effects))
    }
}

/// An output whose amount times the quantity is more than a `u64` holds
/// cannot be crafted, whatever the records are.
pub proof fn lemma_output_overflow_fails(
    output: IngredientOutput,
    accounts: Seq<AccountInfo>,
    cursor: int,
    owner: AccountInfo,
    payer: AccountInfo,
    quantity: u64,
)
    requires
        output.spec_amount() * quantity > u64::MAX,
    ensures
        output.spec_craft(accounts, cursor, owner, payer, quantity) is Err,
{
}

/// The bytes of an output are as many as its length says.
pub proof fn lemma_output_serialized_len(output: IngredientOutput)
    ensures
        output.spec_serialize().len() == output.spec_len(),
{
    match output {
        IngredientOutput::MintToken { mint, amount } => {
            lemma_u64_round_trip(Seq::empty(), amount, Seq::empty());
        },
        IngredientOutput::MintTokenWithMaxSupply { mint, amount, max_supply } => {
            lemma_u64_round_trip(Seq::empty(), amount, Seq::empty());
            lemma_u64_round_trip(Seq::empty(), max_supply, Seq::empty());
        },
    }
}

/// An output that was written is read back, whatever stands around it.
pub proof fn lemma_output_round_trip(before: Seq<u8>, output: IngredientOutput, after: Seq<u8>)
    ensures
        IngredientOutput::spec_parse_at(
            before + output.spec_serialize() + after,
            before.len() as int,
        ) == Some((output, (before.len() + output.spec_len()) as int)),
{
    lemma_output_serialized_len(output);
    let all = before + output.spec_serialize() + after;
    let at = before.len() as int;
    match output {
        IngredientOutput::MintToken { mint, amount } => {
            let head = before + seq![0u8];
            assert(all =~= head + mint@ + (spec_u64_to_le_bytes(amount) + after));
            lemma_pubkey_round_trip(head, mint, spec_u64_to_le_bytes(amount) + after);
            assert(all =~= (head + mint@) + spec_u64_to_le_bytes(amount) + after);
            lemma_u64_round_trip(head + mint@, amount, after);
            assert(all[at] == 0u8);
        },
        IngredientOutput::MintTokenWithMaxSupply { mint, amount, max_supply } => {
            let head = before + seq![1u8];
            let le = spec_u64_to_le_bytes(amount);
            let le_max = spec_u64_to_le_bytes(max_supply);
            assert(all =~= head + mint@ + (le + le_max + after));
            lemma_pubkey_round_trip(head, mint, le + le_max + after);
            assert(all =~= (head + mint@) + le + (le_max + after));
            lemma_u64_round_trip(head + mint@, amount, le_max + after);
            assert(all =~= (head + mint@ + le) + le_max + after);
            lemma_u64_round_trip(head + mint@ + le, max_supply, after);
            assert(all[at] == 1u8);
        },
    }
}

} // verus!
