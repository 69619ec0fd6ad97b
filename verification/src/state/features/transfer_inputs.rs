//! The feature that allows inputs to be transferred instead of burned.

use vstd::prelude::*;
use vstd::slice::slice_to_vec;
use vstd::string::StringSliceAdditionalSpecFns;
use crate::account::AccountInfo;
use crate::assertions::{check, ProgramResult};
use crate::error::{failure, ProgramError, TokenRecipesError};
use crate::pubkey::Pubkey;
use crate::state::features::{
    gates_within, keys_bytes, lemma_keys_bytes_len, lemma_keys_round_trip, parse_keys,
    spec_keys_bytes, spec_parse_keys, spec_unlock, unlock_feature_level, FeatureKind, Gate,
    UnlockFeatureContext,
};
use crate::state::ingredient_input::IngredientInput;
use crate::state::key::Key;
use crate::state::recipe::{Recipe, RecipeView};
use crate::utils::{
    effects_match, no_seeds, push_seed, single_effect, write_data, Effect, EffectView,
};

verus! {

/// The configuration of the feature that allows inputs to be transferred
/// instead of burned: the tokens that level it up. At level 0 no input is
/// transferred, at level 1 one, at level 2 two, and from level 3 on as many
/// as the recipe likes.
#[derive(Clone, Copy, Debug, PartialEq, Eq)]
pub struct TransferInputsFeature {
    /// The tag of the record.
    pub key: Key,
    /// When burned, leads one level up, up to level 2.
    pub mint_burn_1: Pubkey,
    /// When burned, leads one level up, up to level 3.
    pub mint_burn_2: Pubkey,
    /// When burned, leads straight to level 3.
    pub mint_burn_3: Pubkey,
    /// When held, leads straight to level 2.
    pub mint_skill_1: Pubkey,
    /// When held, leads straight to level 3.
    pub mint_skill_2: Pubkey,
}

impl TransferInputsFeature {
    /// The size of the record.
    pub const LEN: usize = 161;

    /// The highest level of the feature.
    pub const MAX_LEVEL: u8 = 3;

    /// The addresses of the record, in the order in which they are written.
    pub open spec fn spec_keys(self) -> Seq<Pubkey> {
        seq![
            self.mint_burn_1,
            self.mint_burn_2,
            self.mint_burn_3,
            self.mint_skill_1,
            self.mint_skill_2,
        ]
    }

    /// The record made of a tag and of addresses in the order in which they
    /// are written.
    pub open spec fn spec_from_keys(key: Key, keys: Seq<Pubkey>) -> TransferInputsFeature {
        TransferInputsFeature {
            key,
            mint_burn_1: keys[0],
            mint_burn_2: keys[1],
            mint_burn_3: keys[2],
            mint_skill_1: keys[3],
            mint_skill_2: keys[4],
        }
    }

    /// The bytes of the record: the tag, then the addresses in order.
    pub open spec fn spec_serialize(self) -> Seq<u8> {
        spec_keys_bytes(self.key, self.spec_keys())
    }

    /// The record that the bytes start with, if any.
    pub open spec fn spec_parse(data: Seq<u8>) -> Option<TransferInputsFeature> {
        match spec_parse_keys(data, 5) {
            Some((key, keys)) => Some(TransferInputsFeature::spec_from_keys(key, keys)),
            None => None,
        }
    }

    /// The bytes of the record.
    pub fn serialize(&self) -> (bytes: Vec<u8>)
        ensures
            bytes@ == self.spec_serialize(),
    {
        let mut keys: Vec<Pubkey> = Vec::new();
        keys.push(self.mint_burn_1);
        keys.push(self.mint_burn_2);
        keys.push(self.mint_burn_3);
        keys.push(self.mint_skill_1);
        keys.push(self.mint_skill_2);
        assert(keys@ =~= self.spec_keys());
        keys_bytes(self.key, &keys)
    }

    /// The record that the bytes start with, if any.
    pub fn deserialize(data: &[u8]) -> (parsed: Option<TransferInputsFeature>)
        ensures
            parsed == TransferInputsFeature::spec_parse(data@),
    {
        match parse_keys(data, 5) {
            Some((key, keys)) => Some(
                TransferInputsFeature {
                    key,
                    mint_burn_1: keys[0],
                    mint_burn_2: keys[1],
                    mint_burn_3: keys[2],
                    mint_skill_1: keys[3],
                    mint_skill_2: keys[4],
                },
            ),
            None => None,
        }
    }

    /// The record that an account holds, if its bytes start with one.
    pub open spec fn spec_load(account: AccountInfo) -> Result<
        TransferInputsFeature,
        ProgramError,
    > {
        match TransferInputsFeature::spec_parse(account.data@) {
            Some(feature) => Ok(feature),
            None => Err(failure(TokenRecipesError::DeserializationError)),
        }
    }

    /// Reads the record that an account holds. Fails with
    /// `DeserializationError` where its bytes do not start with one.
    pub fn load(account: &AccountInfo) -> (result: Result<TransferInputsFeature, ProgramError>)
        ensures
            result == TransferInputsFeature::spec_load(*account),
    {
        match TransferInputsFeature::deserialize(account.data.as_slice()) {
            Some(feature) => Ok(feature),
            None => Err(ProgramError::from(TokenRecipesError::DeserializationError)),
        }
    }

    /// Asks for the record to be written to its account.
    pub fn save(&self, account: &AccountInfo) -> (result: Result<Vec<Effect>, ProgramError>)
        ensures
            effects_match(
                result,
                Ok(seq![EffectView::Write { account: account.key, data: self.spec_serialize() }]),
            ),
    {
        Ok(single_effect(write_data(account, self.serialize())))
    }

    /// The seeds from which the address of the record is derived.
    pub open spec fn spec_seeds() -> Seq<Seq<u8>> {
        seq![("features").spec_bytes(), ("transfer_inputs").spec_bytes()]
    }

    /// The seeds from which the address of the record is derived.
    pub fn seeds() -> (seeds: Vec<Vec<u8>>)
        ensures
            seeds.deep_view() == TransferInputsFeature::spec_seeds(),
    {
        let mut seeds = no_seeds();
        push_seed(&mut seeds, slice_to_vec("features".as_bytes()));
        push_seed(&mut seeds, slice_to_vec("transfer_inputs".as_bytes()));
        assert(seeds.deep_view() =~= TransferInputsFeature::spec_seeds());
        seeds
    }

    /// The gates of the feature, in the order in which they are tried.
    pub open spec fn spec_gates(self) -> Seq<Gate> {
        seq![
            Gate { mint: self.mint_burn_1, ceiling: 2, jump: false, burn: true },
            Gate { mint: self.mint_burn_2, ceiling: 3, jump: false, burn: true },
            Gate { mint: self.mint_burn_3, ceiling: 3, jump: true, burn: true },
            Gate { mint: self.mint_skill_1, ceiling: 2, jump: true, burn: false },
            Gate { mint: self.mint_skill_2, ceiling: 3, jump: true, burn: false },
        ]
    }

    /// The gates of the feature, in the order in which they are tried.
    pub fn gates(&self) -> (gates: Vec<Gate>)
        ensures
            gates@ == self.spec_gates(),
            gates_within(gates@, TransferInputsFeature::MAX_LEVEL),
    {
        let mut gates: Vec<Gate> = Vec::new();
        gates.push(Gate { mint: self.mint_burn_1, ceiling: 2, jump: false, burn: true });
        gates.push(Gate { mint: self.mint_burn_2, ceiling: 3, jump: false, burn: true });
        gates.push(Gate { mint: self.mint_burn_3, ceiling: 3, jump: true, burn: true });
        gates.push(Gate { mint: self.mint_skill_1, ceiling: 2, jump: true, burn: false });
        gates.push(Gate { mint: self.mint_skill_2, ceiling: 3, jump: true, burn: false });
        assert(gates@ =~= self.spec_gates());
        gates
    }

    /// Levels the feature of a recipe up by the token that is presented.
    /// Fails with `MaxFeatureLevelReached` where the recipe is at the highest
    /// level, and with `InvalidMintToLevelUpFeature` where the token opens
    /// no gate at the recipe's level.
    pub fn unlock(&self, context: &UnlockFeatureContext) -> (result: Result<
        Vec<Effect>,
        ProgramError,
    >)
        ensures
            effects_match(
                result,
                spec_unlock(
                    *context.recipe,
                    *context.owner,
                    *context.mint,
                    *context.token,
                    FeatureKind::TransferInputs,
                    TransferInputsFeature::MAX_LEVEL,
                    self.spec_gates(),
                ),
            ),
    {
        unlock_feature_level(
            context,
            FeatureKind::TransferInputs,
            TransferInputsFeature::MAX_LEVEL,
            &self.gates(),
        )
    }

}

/// A record that was written is read back, whatever stands behind it.
pub proof fn lemma_transfer_inputs_feature_round_trip(
    feature: TransferInputsFeature,
    after: Seq<u8>,
)
    ensures
        TransferInputsFeature::spec_parse(feature.spec_serialize() + after) == Some(feature),
        feature.spec_serialize().len() == TransferInputsFeature::LEN,
{
    lemma_keys_bytes_len(feature.key, feature.spec_keys());
    lemma_keys_round_trip(feature.key, feature.spec_keys(), after);
}

/// The number of inputs of a recipe that are transferred.
pub open spec fn spec_transfer_inputs(inputs: Seq<IngredientInput>) -> nat
    decreases inputs.len(),
{
    if inputs.len() == 0 {
        0
    } else {
        spec_transfer_inputs(inputs.drop_last()) + if inputs.last() is TransferToken {
            1nat
        } else {
            0nat
        }
    }
}

/// The number of transferred inputs that a recipe may have at a level of
/// the feature; `None` where it may have as many as it likes.
pub open spec fn spec_max_transfer_inputs(level: u8) -> Option<nat> {
    match level {
        0 => Some(0),
        1 => Some(1),
        2 => Some(2),
        _ => None,
    }
}

/// Whether a recipe has no more transferred inputs than its level of the
/// feature allows.
pub open spec fn spec_valid_transfer_inputs(recipe: RecipeView) -> bool {
    match spec_max_transfer_inputs(recipe.feature_levels.transfer_inputs) {
        Some(max_allowed) => spec_transfer_inputs(recipe.inputs) <= max_allowed,
        None => true,
    }
}

/// Counts the inputs that are transferred.
pub fn count_transfer_inputs(inputs: &Vec<IngredientInput>) -> (total: usize)
    ensures
        total == spec_transfer_inputs(inputs@),
{
    let mut total: usize = 0;
    let mut i: usize = 0;
    assert(inputs@.subrange(0, 0) =~= Seq::<IngredientInput>::empty());
    while i < inputs.len()
        invariant
            i <= inputs@.len(),
            total <= i,
            total == spec_transfer_inputs(inputs@.subrange(0, i as int)),
        decreases inputs@.len() - i,
    {
        proof {
            let upto = inputs@.subrange(0, i + 1);
            assert(upto.drop_last() =~= inputs@.subrange(0, i as int));
            assert(upto.last() == inputs@[i as int]);
        }
        match inputs[i] {
            IngredientInput::TransferToken { .. } => {
                total += 1;
            },
            _ => {},
        }
        i += 1;
    }
    assert(inputs@.subrange(0, i as int) =~= inputs@);
    total
}

/// Asserts that the recipe has no more transferred inputs than its level of
/// the feature allows. To be used after the recipe was changed.
pub fn assert_valid_transfer_inputs(recipe: &Recipe) -> (result: ProgramResult)
    ensures
        result == check(
            spec_valid_transfer_inputs(recipe@),
            TokenRecipesError::InvalidTransferInputsFeature,
        ),
{
    let total_transfer_inputs = count_transfer_inputs(&recipe.inputs);
    match recipe.feature_levels.transfer_inputs {
        0 => assert_max_transfer_inputs(total_transfer_inputs, 0),
        1 => assert_max_transfer_inputs(total_transfer_inputs, 1),
        2 => assert_max_transfer_inputs(total_transfer_inputs, 2),
        _ => Ok(()),
    }
}

/// Asserts that a number of transferred inputs is not above what is
/// allowed.
pub fn assert_max_transfer_inputs(total_transfer_inputs: usize, max_allowed: usize) -> (result:
    ProgramResult)
    ensures
        result == check(
            total_transfer_inputs <= max_allowed,
            TokenRecipesError::InvalidTransferInputsFeature,
        ),
{
    if total_transfer_inputs > max_allowed {
        Err(ProgramError::from(TokenRecipesError::InvalidTransferInputsFeature))
    } else {
        Ok(())
    }
}

} // verus!
