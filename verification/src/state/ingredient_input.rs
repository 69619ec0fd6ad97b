//! What a recipe consumes each time it is crafted.

use vstd::prelude::*;
use vstd::bytes::spec_u64_to_le_bytes;
use crate::codec::{
    lemma_pubkey_round_trip, lemma_u64_round_trip, pubkey_at, put_pubkey, put_u64, put_u8,
    spec_pubkey_at, spec_u64_at, u64_at,
};
use crate::account::AccountInfo;
use crate::assertions::{
    assert_mint_account, assert_same_pubkeys, assert_token_account,
    assert_token_account_or_create_ata, assert_writable, spec_mint_account, spec_token_account,
    spec_token_account_or_create_ata,
};
use crate::error::{failure, ProgramError, TokenRecipesError};
use crate::pubkey::Pubkey;
use crate::state::ingredient_record::{spec_set_role, IngredientRecord};
use crate::state::recipe::{Recipe, RecipeView};
use crate::utils::{
    append_effects, burn_tokens, effects_match, push_effect, single_effect, transfer_lamports,
    transfer_tokens, Effect, EffectView,
};

verus! {

/// One input of a recipe.
#[derive(Clone, Copy, Debug, PartialEq, Eq)]
pub enum IngredientInput {
    /// `amount` tokens of `mint` are burned.
    BurnToken { mint: Pubkey, amount: u64 },
    /// `amount` tokens of `mint` are moved to the token account of `destination`.
    TransferToken { mint: Pubkey, amount: u64, destination: Pubkey },
    /// `lamports` of native currency are moved to `destination`.
    TransferSol { lamports: u64, destination: Pubkey },
}

impl IngredientInput {
    /// The number of bytes that the input takes in a recipe record.
    pub open spec fn spec_len(self) -> nat {
        match self {
            IngredientInput::BurnToken { .. } => 41,
            IngredientInput::TransferToken { .. } => 73,
            IngredientInput::TransferSol { .. } => 41,
        }
    }

    /// The number of bytes that the input takes in a recipe record.
    pub fn len(&self) -> (len: usize)
        ensures
            len == self.spec_len(),
    {
        match self {
            IngredientInput::BurnToken { .. } => 1 + 32 + 8,
            IngredientInput::TransferToken { .. } => 1 + 32 + 8 + 32,
            IngredientInput::TransferSol { .. } => 1 + 8 + 32,
        }
    }

    /// The amount of the input that one craft takes.
    pub open spec fn spec_amount(self) -> u64 {
        match self {
            IngredientInput::BurnToken { amount, .. } => amount,
            IngredientInput::TransferToken { amount, .. } => amount,
            IngredientInput::TransferSol { lamports, .. } => lamports,
        }
    }

    /// The token whose use as an input the ingredient records, if it has one.
    pub open spec fn spec_mint(self) -> Option<Pubkey> {
        match self {
            IngredientInput::BurnToken { mint, .. } => Some(mint),
            IngredientInput::TransferToken { mint, .. } => Some(mint),
            IngredientInput::TransferSol { .. } => None,
        }
    }

    /// The bytes of the input in a recipe record: the variant's tag, then
    /// its fields in order.
    pub open spec fn spec_serialize(self) -> Seq<u8> {
        match self {
            IngredientInput::BurnToken { mint, amount } => seq![0u8] + mint@ + spec_u64_to_le_bytes(
                amount,
            ),
            IngredientInput::TransferToken { mint, amount, destination } => seq![1u8] + mint@
                + spec_u64_to_le_bytes(amount) + destination@,
            IngredientInput::TransferSol { lamports, destination } => seq![2u8]
                + spec_u64_to_le_bytes(lamports) + destination@,
        }
    }

    /// The input that the bytes of `data` from `at` on hold, and where the
    /// bytes behind it start; `None` where they hold no input.
    pub open spec fn spec_parse_at(data: Seq<u8>, at: int) -> Option<(IngredientInput, int)> {
        if at < 0 || at >= data.len() {
            None
        } else if data[at] == 0 && at + 41 <= data.len() {
            Some(
                (
                    IngredientInput::BurnToken {
                        mint: spec_pubkey_at(data, at + 1),
                        amount: spec_u64_at(data, at + 33),
                    },
                    at + 41,
                ),
            )
        } else if data[at] == 1 && at + 73 <= data.len() {
            Some(
                (
                    IngredientInput::TransferToken {
                        mint: spec_pubkey_at(data, at + 1),
                        amount: spec_u64_at(data, at + 33),
                        destination: spec_pubkey_at(data, at + 41),
                    },
                    at + 73,
                ),
            )
        } else if data[at] == 2 && at + 41 <= data.len() {
            Some(
                (
                    IngredientInput::TransferSol {
                        lamports: spec_u64_at(data, at + 1),
                        destination: spec_pubkey_at(data, at + 9),
                    },
                    at + 41,
                ),
            )
        } else {
            None
        }
    }

    /// Writes the input behind the bytes of `out`.
    pub fn serialize(&self, out: &mut Vec<u8>)
        ensures
            final(out)@ == old(out)@ + self.spec_serialize(),
    {
        match self {
            IngredientInput::BurnToken { mint, amount } => {
                put_u8(out, 0);
                put_pubkey(out, mint);
                put_u64(out, *amount);
                assert(out@ =~= old(out)@ + self.spec_serialize());
            },
            IngredientInput::TransferToken { mint, amount, destination } => {
                put_u8(out, 1);
                put_pubkey(out, mint);
                put_u64(out, *amount);
                put_pubkey(out, destination);
                assert(out@ =~= old(out)@ + self.spec_serialize());
            },
            IngredientInput::TransferSol { lamports, destination } => {
                put_u8(out, 2);
                put_u64(out, *lamports);
                put_pubkey(out, destination);
                assert(out@ =~= old(out)@ + self.spec_serialize());
            },
        }
    }

    /// Reads the input that starts at `at`.
    pub fn deserialize_at(data: &[u8], at: usize) -> (parsed: Option<(IngredientInput, usize)>)
        ensures
            match parsed {
                Some((input, next)) => IngredientInput::spec_parse_at(data@, at as int) == Some(
                    (input, next as int),
                ),
                None => IngredientInput::spec_parse_at(data@, at as int) is None,
            },
    {
        let len = data.len();
        if at >= len {
            return None;
        }
        let tag = data[at];
        if tag == 0 && len - at >= 41 {
            Some(
                (
                    IngredientInput::BurnToken {
                        mint: pubkey_at(data, at + 1),
                        amount: u64_at(data, at + 33),
                    },
                    at + 41,
                ),
            )
        } else if tag == 1 && len - at >= 73 {
            Some(
                (
                    IngredientInput::TransferToken {
                        mint: pubkey_at(data, at + 1),
                        amount: u64_at(data, at + 33),
                        destination: pubkey_at(data, at + 41),
                    },
                    at + 73,
                ),
            )
        } else if tag == 2 && len - at >= 41 {
            Some(
                (
                    IngredientInput::TransferSol {
                        lamports: u64_at(data, at + 1),
                        destination: pubkey_at(data, at + 9),
                    },
                    at + 41,
                ),
            )
        } else {
            None
        }
    }
}

/// Whether a recipe asks for native currency already.
pub open spec fn has_sol_input(inputs: Seq<IngredientInput>) -> bool {
    exists|j: int| 0 <= j < inputs.len() && (#[trigger] inputs[j]) is TransferSol
}

/// Whether a recipe asks for native currency already.
pub fn find_sol_input(inputs: &Vec<IngredientInput>) -> (found: bool)
    ensures
        found == has_sol_input(inputs@),
{
    let mut j: usize = 0;
    while j < inputs.len()
        invariant
            j <= inputs@.len(),
            forall|k: int| 0 <= k < j ==> !((#[trigger] inputs@[k]) is TransferSol),
        decreases inputs@.len() - j,
    {
        match inputs[j] {
            IngredientInput::TransferSol { .. } => {
                return true;
            },
            _ => {},
        }
        j += 1;
    }
    false
}

/// The amount of an ingredient that a craft of `quantity` takes or makes:
/// the amount of the ingredient times the quantity, `NumericalOverflow`
/// where that is more than a `u64` holds.
pub open spec fn spec_multiplied_amount(amount: u64, quantity: u64) -> Result<u64, ProgramError> {
    if amount * quantity > u64::MAX {
        Err(failure(TokenRecipesError::NumericalOverflow))
    } else {
        Ok((amount * quantity) as u64)
    }
}

/// Computes the amount of an ingredient that a craft of `quantity` takes or
/// makes.
pub fn multiplied_amount(amount: u64, quantity: u64) -> (result: Result<u64, ProgramError>)
    ensures
        result == spec_multiplied_amount(amount, quantity),
{
    match amount.checked_mul(quantity) {
        Some(multiplied) => Ok(multiplied),
        None => Err(ProgramError::from(TokenRecipesError::NumericalOverflow)),
    }
}

/// The tokens that a craft of `quantity` takes out of an account that
/// holds `available` of them: the amount of the input times the quantity,
/// `NumericalOverflow` where that is more than a `u64` holds,
/// `NotEnoughTokens` where the account holds less.
pub open spec fn spec_required_tokens(available: u64, amount: u64, quantity: u64) -> Result<
    u64,
    ProgramError,
> {
    match spec_multiplied_amount(amount, quantity) {
        Err(e) => Err(e),
        Ok(multiplied) => if available < multiplied {
            Err(failure(TokenRecipesError::NotEnoughTokens))
        } else {
            Ok(multiplied)
        },
    }
}

/// Computes the tokens that a craft of `quantity` takes out of an account
/// that holds `available` of them.
pub fn required_tokens(available: u64, amount: u64, quantity: u64) -> (result: Result<
    u64,
    ProgramError,
>)
    ensures
        result == spec_required_tokens(available, amount, quantity),
{
    let multiplied = multiplied_amount(amount, quantity)?;
    if available < multiplied {
        return Err(ProgramError::from(TokenRecipesError::NotEnoughTokens));
    }
    Ok(multiplied)
}

/// The decimals of the token of an input and the amount that a craft takes
/// of it. The two records at `cursor` must be the writable mint of the
/// input and a writable token account of that mint owned by `owner`, which
/// must hold the tokens that the craft takes.
pub open spec fn spec_input_mint_and_token(
    accounts: Seq<AccountInfo>,
    cursor: int,
    owner: AccountInfo,
    quantity: u64,
    mint: Pubkey,
    amount: u64,
) -> Result<(u8, u64), ProgramError> {
    if cursor < 0 || cursor + 2 > accounts.len() {
        Err(ProgramError::NotEnoughAccountKeys)
    } else {
        let input_mint = accounts[cursor];
        let input_token = accounts[cursor + 1];
        if input_mint.key != mint {
            Err(failure(TokenRecipesError::AccountMismatch))
        } else if !input_mint.is_writable {
            Err(failure(TokenRecipesError::ExpectedWritableAccount))
        } else {
            match spec_mint_account(input_mint) {
                Err(e) => Err(e),
                Ok(mint_account) => if !input_token.is_writable {
                    Err(failure(TokenRecipesError::ExpectedWritableAccount))
                } else {
                    match spec_token_account(input_token) {
                        Err(e) => Err(e),
                        Ok(token_account) => if input_mint.key != token_account.mint || owner.key
                            != token_account.owner {
                            Err(failure(TokenRecipesError::AccountMismatch))
                        } else {
                            match spec_required_tokens(token_account.amount, amount, quantity) {
                                Err(e) => Err(e),
                                Ok(multiplied) => Ok((mint_account.decimals, multiplied)),
                            }
                        },
                    }
                },
            }
        }
    }
}

/// Checks the mint and the token account of an input and computes the
/// amount that a craft takes of it.
pub fn next_input_mint_and_token(
    accounts: &[AccountInfo],
    cursor: usize,
    owner: &AccountInfo,
    quantity: u64,
    mint: &Pubkey,
    amount: u64,
) -> (result: Result<(u8, u64), ProgramError>)
    ensures
        result == spec_input_mint_and_token(
            accounts@,
            cursor as int,
            *owner,
            quantity,
            *mint,
            amount,
        ),
{
    if cursor >= accounts.len() || accounts.len() - cursor < 2 {
        return Err(ProgramError::NotEnoughAccountKeys);
    }
    let input_mint = &accounts[cursor];
    let input_token = &accounts[cursor + 1];
    assert_same_pubkeys(input_mint, mint)?;
    assert_writable(input_mint)?;
    let input_mint_account = assert_mint_account(input_mint)?;
    assert_writable(input_token)?;
    let input_token_account = assert_token_account(input_token)?;
    assert_same_pubkeys(input_mint, &input_token_account.mint)?;
    assert_same_pubkeys(owner, &input_token_account.owner)?;
    let multiplied_amount = required_tokens(input_token_account.amount, amount, quantity)?;
    Ok((input_mint_account.decimals, multiplied_amount))
}

impl IngredientInput {
    /// What is asked for the input to join a recipe. An input of tokens
    /// needs a writable mint; the record of the recipe grows and is
    /// written; the record of the token and the recipe is read, or created,
    /// and written with the token as an input, which fails with
    /// `IngredientAlreadyAdded` where the token is one already. An input of
    /// native currency fails with `IngredientAlreadyAdded` where the recipe
    /// has one already; else the record of the recipe grows and is written.
    pub open spec fn spec_add(
        self,
        recipe_account: RecipeView,
        recipe: AccountInfo,
        mint: AccountInfo,
        ingredient_record: AccountInfo,
        payer: AccountInfo,
    ) -> Result<Seq<EffectView>, ProgramError> {
        let resized = Recipe::spec_resize_and_save(
            recipe_account.with_input(self),
            recipe,
            payer,
            (recipe.data@.len() + self.spec_len()) as int,
        );
        match self {
            IngredientInput::TransferSol { .. } => if has_sol_input(recipe_account.inputs) {
                Err(failure(TokenRecipesError::IngredientAlreadyAdded))
            } else {
                resized
            },
            _ => if !mint.is_writable {
                Err(failure(TokenRecipesError::ExpectedWritableAccount))
            } else {
                match spec_mint_account(mint) {
                    Err(e) => Err(e),
                    Ok(_) => match resized {
                        Err(e) => Err(e),
                        Ok(grown) => match IngredientRecord::spec_get_or_create(
                            ingredient_record,
                            mint,
                            recipe,
                            payer,
                        ) {
                            Err(e) => Err(e),
                            Ok((record, created)) => match spec_set_role(record.input, true) {
                                Err(e) => Err(e),
                                Ok(input) => Ok(
                                    grown + created + seq![
                                        EffectView::Write {
                                            account: ingredient_record.key,
                                            data: (IngredientRecord {
                                                input,
                                                ..record
                                            }).spec_serialize(),
                                        },
                                    ],
                                ),
                            },
                        },
                    },
                }
            },
        }
    }

    /// Adds the input to a recipe. On failure the recipe is unchanged.
    pub fn add(
        &self,
        recipe_account: &mut Recipe,
        recipe: &AccountInfo,
        mint: &AccountInfo,
        ingredient_record: &AccountInfo,
        payer: &AccountInfo,
    ) -> (result: Result<Vec<Effect>, ProgramError>)
        ensures
            effects_match(
                result,
                self.spec_add(old(recipe_account)@, *recipe, *mint, *ingredient_record, *payer),
            ),
            final(recipe_account)@ == (if result is Ok {
                old(recipe_account)@.with_input(*self)
            } else {
                old(recipe_account)@
            }),
    {
        match self {
            IngredientInput::TransferSol { .. } => {
                if find_sol_input(&recipe_account.inputs) {
                    return Err(ProgramError::from(TokenRecipesError::IngredientAlreadyAdded));
                }
                recipe_account.add_ingredient_input(self, recipe, payer)
            },
            _ => {
                assert_writable(mint)?;
                assert_mint_account(mint)?;
                let mut effects = recipe_account.add_ingredient_input(self, recipe, payer)?;
                match self.record_as_input(recipe, mint, ingredient_record, payer) {
                    Ok(recorded) => {
                        append_effects(&mut effects, recorded);
                        assert(effects.deep_view() =~= self.spec_add(
                            old(recipe_account)@,
                            *recipe,
                            *mint,
                            *ingredient_record,
                            *payer,
                        ).unwrap());
                        Ok(effects)
                    },
                    Err(e) => {
                        recipe_account.inputs.pop();
                        assert(recipe_account.inputs@ =~= old(recipe_account).inputs@);
                        Err(e)
                    },
                }
            },
        }
    }

    /// What is asked for the token of an input to be recorded as an input
    /// of the recipe.
    pub open spec fn spec_record_as_input(
        recipe: AccountInfo,
        mint: AccountInfo,
        ingredient_record: AccountInfo,
        payer: AccountInfo,
    ) -> Result<Seq<EffectView>, ProgramError> {
        match IngredientRecord::spec_get_or_create(ingredient_record, mint, recipe, payer) {
            Err(e) => Err(e),
            Ok((record, created)) => match spec_set_role(record.input, true) {
                Err(e) => Err(e),
                Ok(input) => Ok(
                    created + seq![
                        EffectView::Write {
                            account: ingredient_record.key,
                            data: (IngredientRecord { input, ..record }).spec_serialize(),
                        },
                    ],
                ),
            },
        }
    }

    /// Records the token of the input as an input of the recipe.
    fn record_as_input(
        &self,
        recipe: &AccountInfo,
        mint: &AccountInfo,
        ingredient_record: &AccountInfo,
        payer: &AccountInfo,
    ) -> (result: Result<Vec<Effect>, ProgramError>)
        ensures
            effects_match(
                result,
                IngredientInput::spec_record_as_input(*recipe, *mint, *ingredient_record, *payer),
            ),
    {
        let (mut ingredient_record_account, mut effects) = IngredientRecord::get_or_create(
            ingredient_record,
            mint,
            recipe,
            payer,
        )?;
        ingredient_record_account.set_input(true)?;
        let saved = ingredient_record_account.save(ingredient_record)?;
        append_effects(&mut effects, saved);
        Ok(effects)
    }

    /// What is asked for the input at `index` to leave a recipe. An input
    /// of tokens needs a writable mint; the record of the recipe shrinks
    /// and is written; the record of the token and the recipe is read and
    /// written without the token as an input, or closed where the token
    /// plays no role any more. For an input of native currency only the
    /// record of the recipe shrinks and is written.
    pub open spec fn spec_remove(
        self,
        recipe_account: RecipeView,
        index: int,
        recipe: AccountInfo,
        mint: AccountInfo,
        ingredient_record: AccountInfo,
        payer: AccountInfo,
    ) -> Result<Seq<EffectView>, ProgramError> {
        let removed = Recipe::spec_remove_input(recipe_account, index, recipe, payer);
        match self {
            IngredientInput::TransferSol { .. } => match removed {
                Err(e) => Err(e),
                Ok((_, shrunk)) => Ok(shrunk),
            },
            _ => if !mint.is_writable {
                Err(failure(TokenRecipesError::ExpectedWritableAccount))
            } else {
                match spec_mint_account(mint) {
                    Err(e) => Err(e),
                    Ok(_) => match removed {
                        Err(e) => Err(e),
                        Ok((_, shrunk)) => match IngredientInput::spec_forget_as_input(
                            recipe,
                            mint,
                            ingredient_record,
                            payer,
                        ) {
                            Err(e) => Err(e),
                            Ok(forgotten) => Ok(shrunk + forgotten),
                        },
                    },
                }
            },
        }
    }

    /// What is asked for the token of an input to be recorded as no input
    /// of the recipe any more: `MissingIngredient` where it is none.
    pub open spec fn spec_forget_as_input(
        recipe: AccountInfo,
        mint: AccountInfo,
        ingredient_record: AccountInfo,
        payer: AccountInfo,
    ) -> Result<Seq<EffectView>, ProgramError> {
        match IngredientRecord::spec_get(ingredient_record, mint, recipe) {
            Err(e) => Err(e),
            Ok(record) => match spec_set_role(record.input, false) {
                Err(e) => Err(e),
                Ok(input) => Ok(
                    (IngredientRecord { input, ..record }).spec_save_or_close(
                        ingredient_record,
                        payer,
                    ),
                ),
            },
        }
    }

    /// Records the token of the input as no input of the recipe any more.
    fn forget_as_input(
        &self,
        recipe: &AccountInfo,
        mint: &AccountInfo,
        ingredient_record: &AccountInfo,
        payer: &AccountInfo,
    ) -> (result: Result<Vec<Effect>, ProgramError>)
        ensures
            effects_match(
                result,
                IngredientInput::spec_forget_as_input(*recipe, *mint, *ingredient_record, *payer),
            ),
    {
        let mut ingredient_record_account = IngredientRecord::get(ingredient_record, mint, recipe)?;
        ingredient_record_account.set_input(false)?;
        ingredient_record_account.save_or_close(ingredient_record, payer)
    }

    /// Removes the input, which stands at `index`, from a recipe. On
    /// failure the recipe is unchanged.
    pub fn remove(
        &self,
        recipe_account: &mut Recipe,
        index: usize,
        recipe: &AccountInfo,
        mint: &AccountInfo,
        ingredient_record: &AccountInfo,
        payer: &AccountInfo,
    ) -> (result: Result<Vec<Effect>, ProgramError>)
        ensures
            effects_match(
                result,
                self.spec_remove(
                    old(recipe_account)@,
                    index as int,
                    *recipe,
                    *mint,
                    *ingredient_record,
                    *payer,
                ),
            ),
            final(recipe_account)@ == (if result is Ok {
                old(recipe_account)@.without_input(index as int)
            } else {
                old(recipe_account)@
            }),
    {
        match self {
            IngredientInput::TransferSol { .. } => {
                let (_, effects) = recipe_account.remove_ingredient_input(index, recipe, payer)?;
                Ok(effects)
            },
            _ => {
                assert_writable(mint)?;
                assert_mint_account(mint)?;
                let (removed, mut effects) = recipe_account.remove_ingredient_input(
                    index,
                    recipe,
                    payer,
                )?;
                match self.forget_as_input(recipe, mint, ingredient_record, payer) {
                    Ok(forgotten) => {
                        append_effects(&mut effects, forgotten);
                        Ok(effects)
                    },
                    Err(e) => {
                        recipe_account.inputs.insert(index, removed);
                        assert(recipe_account.inputs@ =~= old(recipe_account).inputs@);
                        Err(e)
                    },
                }
            },
        }
    }

    /// What one craft of the input asks for, and the record that the next
    /// ingredient starts at. The records of the input stand at `cursor`:
    /// for tokens the mint and the token account of the crafter, and where
    /// they are transferred the destination and its token account, which
    /// is created where it is the destination's associated token account
    /// and does not exist; for native currency the destination. The amount
    /// taken is the amount of the input times the quantity.
    pub open spec fn spec_craft(
        self,
        accounts: Seq<AccountInfo>,
        cursor: int,
        owner: AccountInfo,
        payer: AccountInfo,
        quantity: u64,
    ) -> Result<(int, Seq<EffectView>), ProgramError> {
        match self {
            IngredientInput::BurnToken { mint, amount } => match spec_input_mint_and_token(
                accounts,
                cursor,
                owner,
                quantity,
                mint,
                amount,
            ) {
                Err(e) => Err(e),
                Ok((decimals, multiplied)) => Ok(
                    (
                        cursor + 2,
                        seq![
                            EffectView::BurnTokens {
                                token: accounts[cursor + 1].key,
                                mint: accounts[cursor].key,
                                owner: owner.key,
                                amount: multiplied,
                                decimals,
                            },
                        ],
                    ),
                ),
            },
            IngredientInput::TransferToken {
                mint,
                amount,
                destination,
            } => match spec_input_mint_and_token(accounts, cursor, owner, quantity, mint, amount) {
                Err(e) => Err(e),
                Ok((decimals, multiplied)) => if cursor + 4 > accounts.len() {
                    Err(ProgramError::NotEnoughAccountKeys)
                } else if accounts[cursor + 2].key != destination {
                    Err(failure(TokenRecipesError::AccountMismatch))
                } else {
                    match spec_token_account_or_create_ata(
                        accounts[cursor + 3],
                        accounts[cursor],
                        accounts[cursor + 2],
                        payer,
                    ) {
                        Err(e) => Err(e),
                        Ok(created) => Ok(
                            (
                                cursor + 4,
                                created.push(
                                    EffectView::TransferTokens {
                                        mint: accounts[cursor].key,
                                        from_owner: owner.key,
                                        from_token: accounts[cursor + 1].key,
                                        to_token: accounts[cursor + 3].key,
                                        amount: multiplied,
                                        decimals,
                                        signer_seeds: Seq::empty(),
                                    },
                                ),
                            ),
                        ),
                    }
                },
            },
            IngredientInput::TransferSol { lamports, destination } => if cursor < 0 || cursor + 1
                > accounts.len() {
                Err(ProgramError::NotEnoughAccountKeys)
            } else if accounts[cursor].key != destination {
                Err(failure(TokenRecipesError::AccountMismatch))
            } else if !accounts[cursor].is_writable {
                Err(failure(TokenRecipesError::ExpectedWritableAccount))
            } else {
                match spec_multiplied_amount(lamports, quantity) {
                    Err(e) => Err(e),
                    Ok(multiplied) => Ok(
                        (
                            cursor + 1,
                            seq![
                                EffectView::TransferLamports {
                                    from: payer.key,
                                    to: accounts[cursor].key,
                                    lamports: multiplied,
                                    signer_seeds: Seq::empty(),
                                },
                            ],
                        ),
                    ),
                }
            },
        }
    }

    /// Decides what one craft of the input asks for, from the records that
    /// stand at `cursor`.
    pub fn craft(
        &self,
        accounts: &[AccountInfo],
        cursor: usize,
        owner: &AccountInfo,
        payer: &AccountInfo,
        quantity: u64,
    ) -> (result: Result<(usize, Vec<Effect>), ProgramError>)
        ensures
            match result {
                Ok((next, effects)) => self.spec_craft(
                    accounts@,
                    cursor as int,
                    *owner,
                    *payer,
                    quantity,
                ) == Ok::<(int, Seq<EffectView>), ProgramError>((next as int, effects.deep_view())),
                Err(e) => self.spec_craft(accounts@, cursor as int, *owner, *payer, quantity)
                    == Err::<(int, Seq<EffectView>), ProgramError>(e),
            },
    {
        match self {
            IngredientInput::BurnToken { mint, amount } => {
                let (decimals, multiplied_amount) = next_input_mint_and_token(
                    accounts,
                    cursor,
                    owner,
                    quantity,
                    mint,
                    *amount,
                )?;
                let input_mint = &accounts[cursor];
                let input_token = &accounts[cursor + 1];
                Ok(
                    (
                        cursor + 2,
                        single_effect(
                            burn_tokens(
                                input_token,
                                input_mint,
                                owner,
                                multiplied_amount,
                                decimals,
                            ),
                        ),
                    ),
                )
            },
            IngredientInput::TransferToken { mint, amount, destination } => {
                let (decimals, multiplied_amount) = next_input_mint_and_token(
                    accounts,
                    cursor,
                    owner,
                    quantity,
                    mint,
                    *amount,
                )?;
                let input_mint = &accounts[cursor];
                let input_token = &accounts[cursor + 1];
                if accounts.len() - cursor < 4 {
                    return Err(ProgramError::NotEnoughAccountKeys);
                }
                let input_destination = &accounts[cursor + 2];
                let input_destination_token = &accounts[cursor + 3];
                assert_same_pubkeys(input_destination, destination)?;
                let mut effects = assert_token_account_or_create_ata(
                    input_destination_token,
                    input_mint,
                    input_destination,
                    payer,
                )?;
                push_effect(
                    &mut effects,
                    transfer_tokens(
                        input_mint,
                        owner,
                        input_token,
                        input_destination_token,
                        multiplied_amount,
                        decimals,
                        None,
                    ),
                );
                Ok((cursor + 4, effects))
            },
            IngredientInput::TransferSol { lamports, destination } => {
                if cursor >= accounts.len() {
                    return Err(ProgramError::NotEnoughAccountKeys);
                }
                let input_destination = &accounts[cursor];
                assert_same_pubkeys(input_destination, destination)?;
                assert_writable(input_destination)?;
                let multiplied_lamports = multiplied_amount(*lamports, quantity)?;
                Ok(
                    (
                        cursor + 1,
                        single_effect(
                            transfer_lamports(payer, input_destination, multiplied_lamports, None),
                        ),
                    ),
                )
            },
        }
    }
}

/// An input whose amount times the quantity is more than a `u64` holds
/// cannot be crafted, whatever the records are.
pub proof fn lemma_input_overflow_fails(
    input: IngredientInput,
    accounts: Seq<AccountInfo>,
    cursor: int,
    owner: AccountInfo,
    payer: AccountInfo,
    quantity: u64,
)
    requires
        input.spec_amount() * quantity > u64::MAX,
    ensures
        input.spec_craft(accounts, cursor, owner, payer, quantity) is Err,
{
}

/// The bytes of an input are as many as its length says.
pub proof fn lemma_input_serialized_len(input: IngredientInput)
    ensures
        input.spec_serialize().len() == input.spec_len(),
{
    match input {
        IngredientInput::BurnToken { mint, amount } => {
            lemma_u64_round_trip(Seq::empty(), amount, Seq::empty());
        },
        IngredientInput::TransferToken { mint, amount, destination } => {
            lemma_u64_round_trip(Seq::empty(), amount, Seq::empty());
        },
        IngredientInput::TransferSol { lamports, destination } => {
            lemma_u64_round_trip(Seq::empty(), lamports, Seq::empty());
        },
    }
}

/// An input that was written is read back, whatever stands around it.
pub proof fn lemma_input_round_trip(before: Seq<u8>, input: IngredientInput, after: Seq<u8>)
    ensures
        IngredientInput::spec_parse_at(
            before + input.spec_serialize() + after,
            before.len() as int,
        ) == Some((input, (before.len() + input.spec_len()) as int)),
{
    lemma_input_serialized_len(input);
    let all = before + input.spec_serialize() + after;
    let at = before.len() as int;
    match input {
        IngredientInput::BurnToken { mint, amount } => {
            let head = before + seq![0u8];
            assert(all =~= head + mint@ + (spec_u64_to_le_bytes(amount) + after));
            lemma_pubkey_round_trip(head, mint, spec_u64_to_le_bytes(amount) + after);
            assert(all =~= (head + mint@) + spec_u64_to_le_bytes(amount) + after);
            lemma_u64_round_trip(head + mint@, amount, after);
            assert(all[at] == 0u8);
        },
        IngredientInput::TransferToken { mint, amount, destination } => {
            let head = before + seq![1u8];
            let le = spec_u64_to_le_bytes(amount);
            assert(all =~= head + mint@ + (le + destination@ + after));
            lemma_pubkey_round_trip(head, mint, le + destination@ + after);
            assert(all =~= (head + mint@) + le + (destination@ + after));
            lemma_u64_round_trip(head + mint@, amount, destination@ + after);
            assert(all =~= (head + mint@ + le) + destination@ + after);
            lemma_pubkey_round_trip(head + mint@ + le, destination, after);
            assert(all[at] == 1u8);
        },
        IngredientInput::TransferSol { lamports, destination } => {
            let head = before + seq![2u8];
            let le = spec_u64_to_le_bytes(lamports);
            assert(all =~= head + le + (destination@ + after));
            lemma_u64_round_trip(head, lamports, destination@ + after);
            assert(all =~= (head + le) + destination@ + after);
            lemma_pubkey_round_trip(head + le, destination, after);
            assert(all[at] == 2u8);
        },
    }
}

} // verus!
