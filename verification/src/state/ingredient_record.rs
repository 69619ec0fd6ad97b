//! The record of the roles that one token plays in one recipe.

use vstd::prelude::*;
use vstd::slice::slice_to_vec;
use vstd::string::StringSliceAdditionalSpecFns;
use crate::account::AccountInfo;
use crate::assertions::{
    assert_account_key, assert_empty, assert_pda, assert_program_owner, assert_same_pubkeys,
    assert_writable, has_account_key, spec_assert_pda, ProgramResult,
};
use crate::codec::{
    lemma_pubkey_round_trip, pubkey_at, put_bool, put_pubkey, put_u8, spec_bool_byte,
    spec_pubkey_at,
};
use crate::error::{failure, ProgramError, TokenRecipesError};
use crate::pubkey::{id, program_id, Pubkey};
use crate::state::key::{lemma_key_round_trip, Key};
use crate::utils::{
    close_account, create_account, effects_match, no_effects, no_seeds, push_seed, single_effect,
    spec_with_bump, value_and_effects_match, with_bump, write_data, Effect, EffectView,
};

verus! {

/// Whether a token is an input of a recipe, an output of it, or both. One
/// such record is kept for each token and recipe, for as long as the token
/// plays a role in the recipe.
#[derive(Clone, Copy, Debug, PartialEq, Eq)]
pub struct IngredientRecord {
    pub key: Key,
    pub input: bool,
    pub output: bool,
    pub mint: Pubkey,
    pub recipe: Pubkey,
}

/// The role of a token after it is set to `value`: `IngredientAlreadyAdded`
/// where the token plays the role already and is to play it,
/// `MissingIngredient` where it does not play it and is not to.
pub open spec fn spec_set_role(held: bool, value: bool) -> Result<bool, ProgramError> {
    if held == value {
        if value {
            Err(failure(TokenRecipesError::IngredientAlreadyAdded))
        } else {
            Err(failure(TokenRecipesError::MissingIngredient))
        }
    } else {
        Ok(value)
    }
}

impl IngredientRecord {
    /// The size of the record.
    pub const LEN: usize = 67;

    /// Records that the token is, or is no longer, an input of the recipe.
    /// On failure the record is unchanged.
    pub fn set_input(&mut self, value: bool) -> (result: ProgramResult)
        ensures
            match spec_set_role(old(self).input, value) {
                Ok(input) => result is Ok && *final(self) == (IngredientRecord {
                    input,
                    ..*old(self)
                }),
                Err(e) => result == Err::<(), ProgramError>(e) && *final(self) == *old(self),
            },
    {
        if self.input == value {
            if value {
                Err(ProgramError::from(TokenRecipesError::IngredientAlreadyAdded))
            } else {
                Err(ProgramError::from(TokenRecipesError::MissingIngredient))
            }
        } else {
            self.input = value;
            Ok(())
        }
    }

    /// Records that the token is, or is no longer, an output of the recipe.
    /// On failure the record is unchanged.
    pub fn set_output(&mut self, value: bool) -> (result: ProgramResult)
        ensures
            match spec_set_role(old(self).output, value) {
                Ok(output) => result is Ok && *final(self) == (IngredientRecord {
                    output,
                    ..*old(self)
                }),
                Err(e) => result == Err::<(), ProgramError>(e) && *final(self) == *old(self),
            },
    {
        if self.output == value {
            if value {
                Err(ProgramError::from(TokenRecipesError::IngredientAlreadyAdded))
            } else {
                Err(ProgramError::from(TokenRecipesError::MissingIngredient))
            }
        } else {
            self.output = value;
            Ok(())
        }
    }

    /// Whether the token plays no role in the recipe any more.
    pub open spec fn spec_should_be_closed(self) -> bool {
        !self.input && !self.output
    }

    /// Whether the token plays no role in the recipe any more, so that the
    /// record is to be closed.
    pub fn should_be_closed(&self) -> (closed: bool)
        ensures
            closed == self.spec_should_be_closed(),
    {
        !self.input && !self.output
    }

    /// The seeds from which the address of the record is derived.
    pub open spec fn spec_seeds(mint: Pubkey, recipe: Pubkey) -> Seq<Seq<u8>> {
        seq![("ingredient_record").spec_bytes(), mint@, recipe@]
    }

    /// The seeds from which the address of the record of a token and a
    /// recipe is derived.
    pub fn seeds(mint: &Pubkey, recipe: &Pubkey) -> (seeds: Vec<Vec<u8>>)
        ensures
            seeds.deep_view() == IngredientRecord::spec_seeds(*mint, *recipe),
    {
        let mut seeds = no_seeds();
        push_seed(&mut seeds, slice_to_vec("ingredient_record".as_bytes()));
        push_seed(&mut seeds, mint.to_vec());
        push_seed(&mut seeds, recipe.to_vec());
        assert(seeds.deep_view() =~= IngredientRecord::spec_seeds(*mint, *recipe));
        seeds
    }

    /// The bytes of the record: the tag, the two roles, the token and the
    /// recipe.
    pub open spec fn spec_serialize(self) -> Seq<u8> {
        seq![self.key.spec_byte(), spec_bool_byte(self.input), spec_bool_byte(self.output)]
            + self.mint@ + self.recipe@
    }

    /// The record that the bytes start with, if any.
    pub open spec fn spec_parse(data: Seq<u8>) -> Option<IngredientRecord> {
        if data.len() < 67 || data[1] > 1 || data[2] > 1 {
            None
        } else {
            match Key::spec_from_byte(data[0]) {
                None => None,
                Some(key) => Some(
                    IngredientRecord {
                        key,
                        input: data[1] == 1,
                        output: data[2] == 1,
                        mint: spec_pubkey_at(data, 3),
                        recipe: spec_pubkey_at(data, 35),
                    },
                ),
            }
        }
    }

    /// The bytes of the record.
    pub fn serialize(&self) -> (bytes: Vec<u8>)
        ensures
            bytes@ == self.spec_serialize(),
    {
        let mut out: Vec<u8> = Vec::new();
        put_u8(&mut out, self.key.to_byte());
        put_bool(&mut out, self.input);
        put_bool(&mut out, self.output);
        put_pubkey(&mut out, &self.mint);
        put_pubkey(&mut out, &self.recipe);
        assert(out@ =~= self.spec_serialize());
        out
    }

    /// The record that the bytes start with, if any.
    pub fn deserialize(data: &[u8]) -> (parsed: Option<IngredientRecord>)
        ensures
            parsed == IngredientRecord::spec_parse(data@),
    {
        if data.len() < 67 || data[1] > 1 || data[2] > 1 {
            return None;
        }
        match Key::from_byte(data[0]) {
            None => None,
            Some(key) => Some(
                IngredientRecord {
                    key,
                    input: data[1] == 1,
                    output: data[2] == 1,
                    mint: pubkey_at(data, 3),
                    recipe: pubkey_at(data, 35),
                },
            ),
        }
    }

    /// The record that an account holds, if its bytes start with one.
    pub open spec fn spec_load(account: AccountInfo) -> Result<IngredientRecord, ProgramError> {
        match IngredientRecord::spec_parse(account.data@) {
            Some(record) => Ok(record),
            None => Err(failure(TokenRecipesError::DeserializationError)),
        }
    }

    /// Reads the record that an account holds. Fails with
    /// `DeserializationError` where its bytes do not start with one.
    pub fn load(account: &AccountInfo) -> (result: Result<IngredientRecord, ProgramError>)
        ensures
            result == IngredientRecord::spec_load(*account),
    {
        match IngredientRecord::deserialize(account.data.as_slice()) {
            Some(record) => Ok(record),
            None => Err(ProgramError::from(TokenRecipesError::DeserializationError)),
        }
    }

    /// Asks for the record to be written to its account.
    pub fn save(&self, account: &AccountInfo) -> (result: Result<Vec<Effect>, ProgramError>)
        ensures
            effects_match(
                result,
                Ok(seq![EffectView::Write { account: account.key, data: self.spec_serialize() }]),
            ),
    {
        Ok(single_effect(write_data(account, self.serialize())))
    }

    /// The record that is created for a token and a recipe, with what is
    /// asked for it: the account must be empty, writable and stand at the
    /// derived address; the token plays no role yet.
    pub open spec fn spec_create(
        ingredient_record: AccountInfo,
        mint: AccountInfo,
        recipe: AccountInfo,
        payer: AccountInfo,
    ) -> Result<(IngredientRecord, Seq<EffectView>), ProgramError> {
        if ingredient_record.data@.len() != 0 {
            Err(failure(TokenRecipesError::ExpectedEmptyAccount))
        } else if !ingredient_record.is_writable {
            Err(failure(TokenRecipesError::ExpectedWritableAccount))
        } else {
            match spec_assert_pda(
                ingredient_record.key,
                program_id(),
                IngredientRecord::spec_seeds(mint.key, recipe.key),
            ) {
                Err(e) => Err(e),
                Ok(bump) => Ok(
                    (
                        IngredientRecord {
                            key: Key::IngredientRecord,
                            input: false,
                            output: false,
                            mint: mint.key,
                            recipe: recipe.key,
                        },
                        seq![
                            EffectView::CreateAccount {
                                target: ingredient_record.key,
                                funding: payer.key,
                                size: 67,
                                owner: program_id(),
                                signer_seeds: spec_with_bump(
                                    IngredientRecord::spec_seeds(mint.key, recipe.key),
                                    bump,
                                ),
                            },
                        ],
                    ),
                ),
            }
        }
    }

    /// Creates the record of a token and a recipe.
    pub fn create(
        ingredient_record: &AccountInfo,
        mint: &AccountInfo,
        recipe: &AccountInfo,
        payer: &AccountInfo,
    ) -> (result: Result<(IngredientRecord, Vec<Effect>), ProgramError>)
        ensures
            value_and_effects_match(
                result,
                IngredientRecord::spec_create(*ingredient_record, *mint, *recipe, *payer),
            ),
    {
        assert_empty(ingredient_record)?;
        assert_writable(ingredient_record)?;
        let seeds = IngredientRecord::seeds(&mint.key, &recipe.key);
        let bump = assert_pda(ingredient_record, &id(), &seeds)?;
        let effect = create_account(
            ingredient_record,
            payer,
            IngredientRecord::LEN,
            &id(),
            Some(with_bump(seeds, bump)),
        );
        Ok(
            (
                IngredientRecord {
                    key: Key::IngredientRecord,
                    input: false,
                    output: false,
                    mint: mint.key,
                    recipe: recipe.key,
                },
                single_effect(effect),
            ),
        )
    }

    /// The record that an account holds for a token and a recipe: the
    /// account must be writable, belong to the program, start with the tag
    /// of such a record, stand at the derived address, and name the recipe
    /// and the token.
    pub open spec fn spec_get(
        ingredient_record: AccountInfo,
        mint: AccountInfo,
        recipe: AccountInfo,
    ) -> Result<
        IngredientRecord,
        ProgramError,
    > {
        if !ingredient_record.is_writable {
            Err(failure(TokenRecipesError::ExpectedWritableAccount))
        } else if ingredient_record.owner != program_id() {
            Err(failure(TokenRecipesError::InvalidProgramOwner))
        } else if !has_account_key(ingredient_record.data@, Key::IngredientRecord) {
            Err(failure(TokenRecipesError::InvalidAccountKey))
        } else {
            match spec_assert_pda(
                ingredient_record.key,
                program_id(),
                IngredientRecord::spec_seeds(mint.key, recipe.key),
            ) {
                Err(e) => Err(e),
                Ok(_) => match IngredientRecord::spec_load(ingredient_record) {
                    Err(e) => Err(e),
                    Ok(record) => if recipe.key != record.recipe || mint.key != record.mint {
                        Err(failure(TokenRecipesError::AccountMismatch))
                    } else {
                        Ok(record)
                    },
                },
            }
        }
    }

    /// Reads the record of a token and a recipe out of its account.
    pub fn get(
        ingredient_record: &AccountInfo,
        mint: &AccountInfo,
        recipe: &AccountInfo,
    ) -> (result:
        Result<IngredientRecord, ProgramError>)
        ensures
            result == IngredientRecord::spec_get(*ingredient_record, *mint, *recipe),
    {
        assert_writable(ingredient_record)?;
        assert_program_owner(ingredient_record, &id())?;
        assert_account_key(ingredient_record, Key::IngredientRecord)?;
        let seeds = IngredientRecord::seeds(&mint.key, &recipe.key);
        assert_pda(ingredient_record, &id(), &seeds)?;
        let ingredient_record_account = IngredientRecord::load(ingredient_record)?;
        assert_same_pubkeys(recipe, &ingredient_record_account.recipe)?;
        assert_same_pubkeys(mint, &ingredient_record_account.mint)?;
        Ok(ingredient_record_account)
    }

    /// The record of a token and a recipe: the one that its account holds,
    /// or a new one where the account is empty.
    pub open spec fn spec_get_or_create(
        ingredient_record: AccountInfo,
        mint: AccountInfo,
        recipe: AccountInfo,
        payer: AccountInfo,
    ) -> Result<(IngredientRecord, Seq<EffectView>), ProgramError> {
        if ingredient_record.data@.len() == 0 {
            IngredientRecord::spec_create(ingredient_record, mint, recipe, payer)
        } else {
            match IngredientRecord::spec_get(ingredient_record, mint, recipe) {
                Err(e) => Err(e),
                Ok(record) => Ok((record, Seq::empty())),
            }
        }
    }

    /// Reads the record of a token and a recipe, or creates it where its
    /// account is empty.
    pub fn get_or_create(
        ingredient_record: &AccountInfo,
        mint: &AccountInfo,
        recipe: &AccountInfo,
        payer: &AccountInfo,
    ) -> (result: Result<(IngredientRecord, Vec<Effect>), ProgramError>)
        ensures
            value_and_effects_match(
                result,
                IngredientRecord::spec_get_or_create(*ingredient_record, *mint, *recipe, *payer),
            ),
    {
        if ingredient_record.data_is_empty() {
            IngredientRecord::create(ingredient_record, mint, recipe, payer)
        } else {
            let record = IngredientRecord::get(ingredient_record, mint, recipe)?;
            Ok((record, no_effects()))
        }
    }

    /// What is asked for a record to be kept or given up: it is closed, its
    /// deposit handed to the payer, exactly when the token plays no role in
    /// the recipe any more; else it is written.
    pub open spec fn spec_save_or_close(
        self,
        ingredient_record: AccountInfo,
        payer: AccountInfo,
    ) -> Seq<
        EffectView,
    > {
        if self.spec_should_be_closed() {
            seq![EffectView::Close { target: ingredient_record.key, receiver: payer.key }]
        } else {
            seq![EffectView::Write { account: ingredient_record.key, data: self.spec_serialize() }]
        }
    }

    /// Asks for the record to be closed where the token plays no role any
    /// more, and to be written otherwise.
    pub fn save_or_close(&self, ingredient_record: &AccountInfo, payer: &AccountInfo) -> (result:
        Result<Vec<Effect>, ProgramError>)
        ensures
            effects_match(result, Ok(self.spec_save_or_close(*ingredient_record, *payer))),
    {
        if self.should_be_closed() {
            Ok(single_effect(close_account(ingredient_record, payer)))
        } else {
            self.save(ingredient_record)
        }
    }
}

/// A role is taken once and given up once: a token that was made to play a
/// role cannot be made to play it again, `IngredientAlreadyAdded`; one that
/// was made to play it no more cannot be made so again, and one that never
/// played it cannot be made to play it no more, `MissingIngredient`.
pub proof fn lemma_role_is_set_once(held: bool, value: bool)
    ensures
        match spec_set_role(held, value) {
            Ok(now) => now == value && spec_set_role(now, value) == Err::<bool, ProgramError>(
                failure(
                    if value {
                        TokenRecipesError::IngredientAlreadyAdded
                    } else {
                        TokenRecipesError::MissingIngredient
                    },
                ),
            ),
            Err(_) => held == value,
        },
        spec_set_role(false, false) == Err::<bool, ProgramError>(
            failure(TokenRecipesError::MissingIngredient),
        ),
        spec_set_role(true, true) == Err::<bool, ProgramError>(
            failure(TokenRecipesError::IngredientAlreadyAdded),
        ),
{
}

/// The record that is created for a token and a recipe says that the token
/// plays no role yet, so that no role can be taken from it.
pub proof fn lemma_created_record_has_no_role(
    ingredient_record: AccountInfo,
    mint: AccountInfo,
    recipe: AccountInfo,
    payer: AccountInfo,
)
    ensures
        match IngredientRecord::spec_create(ingredient_record, mint, recipe, payer) {
            Ok((record, _)) => !record.input && !record.output && record.spec_should_be_closed(),
            Err(_) => true,
        },
{
}

/// A record that was written to its account is the record that the account
/// holds when it is read next.
pub proof fn lemma_written_ingredient_record_is_loaded(
    record: IngredientRecord,
    account: AccountInfo,
    rest: Seq<u8>,
)
    requires
        account.data@ == record.spec_serialize() + rest,
    ensures
        IngredientRecord::spec_load(account) == Ok::<IngredientRecord, ProgramError>(record),
{
    lemma_ingredient_record_round_trip(record, rest);
}

/// A record that was written is read back, whatever stands behind it.
pub proof fn lemma_ingredient_record_round_trip(record: IngredientRecord, after: Seq<u8>)
    ensures
        IngredientRecord::spec_parse(record.spec_serialize() + after) == Some(record),
        record.spec_serialize().len() == IngredientRecord::LEN,
{
    let head = seq![
        record.key.spec_byte(),
        spec_bool_byte(record.input),
        spec_bool_byte(record.output),
    ];
    let all = record.spec_serialize() + after;
    lemma_key_round_trip(record.key);
    assert(all =~= head + record.mint@ + (record.recipe@ + after));
    lemma_pubkey_round_trip(head, record.mint, record.recipe@ + after);
    assert(all =~= (head + record.mint@) + record.recipe@ + after);
    lemma_pubkey_round_trip(head + record.mint@, record.recipe, after);
    assert(all[0] == record.key.spec_byte());
    assert(all[1] == spec_bool_byte(record.input));
    assert(all[2] == spec_bool_byte(record.output));
}

} // verus!
