//! The feature that allows outputs with a maximum supply.

use vstd::prelude::*;
use vstd::slice::slice_to_vec;
use vstd::string::StringSliceAdditionalSpecFns;
use crate::account::AccountInfo;
use crate::assertions::{check, ProgramResult};
use crate::error::{failure, ProgramError, TokenRecipesError};
use crate::pubkey::Pubkey;
use crate::state::features::{
    gates_within, keys_bytes, lemma_keys_bytes_len, lemma_keys_round_trip, parse_keys,
    spec_keys_bytes, spec_parse_keys, spec_unlock, unlock_feature_level, FeatureKind, Gate,
    UnlockFeatureContext,
};
use crate::state::ingredient_output::IngredientOutput;
use crate::state::key::Key;
use crate::state::recipe::{Recipe, RecipeView};
use crate::utils::{
    effects_match, no_seeds, push_seed, single_effect, write_data, Effect, EffectView,
};

verus! {

/// The configuration of the feature that allows outputs with a maximum
/// supply: the tokens that level it up. At level 0 no output has a maximum
/// supply; from level 1 on any may.
#[derive(Clone, Copy, Debug, PartialEq, Eq)]
pub struct MaxSupplyFeature {
    /// The tag of the record.
    pub key: Key,
    /// When burned, leads one level up, from level 0 to 1.
    pub mint_burn_1: Pubkey,
    /// When held, leads straight to level 1.
    pub mint_skill_1: Pubkey,
}

impl MaxSupplyFeature {
    /// The size of the record.
    pub const LEN: usize = 65;

    /// The highest level of the feature.
    pub const MAX_LEVEL: u8 = 1;

    /// The addresses of the record, in the order in which they are written.
    pub open spec fn spec_keys(self) -> Seq<Pubkey> {
        seq![
            self.mint_burn_1,
            self.mint_skill_1,
        ]
    }

    /// The record made of a tag and of addresses in the order in which they
    /// are written.
    pub open spec fn spec_from_keys(key: Key, keys: Seq<Pubkey>) -> MaxSupplyFeature {
        MaxSupplyFeature {
            key,
            mint_burn_1: keys[0],
            mint_skill_1: keys[1],
        }
    }

    /// The bytes of the record: the tag, then the addresses in order.
    pub open spec fn spec_serialize(self) -> Seq<u8> {
        spec_keys_bytes(self.key, self.spec_keys())
    }

    /// The record that the bytes start with, if any.
    pub open spec fn spec_parse(data: Seq<u8>) -> Option<MaxSupplyFeature> {
        match spec_parse_keys(data, 2) {
            Some((key, keys)) => Some(MaxSupplyFeature::spec_from_keys(key, keys)),
            None => None,
        }
    }

    /// The bytes of the record.
    pub fn serialize(&self) -> (bytes: Vec<u8>)
        ensures
            bytes@ == self.spec_serialize(),
    {
        let mut keys: Vec<Pubkey> = Vec::new();
        keys.push(self.mint_burn_1);
        keys.push(self.mint_skill_1);
        assert(keys@ =~= self.spec_keys());
        keys_bytes(self.key, &keys)
    }

    /// The record that the bytes start with, if any.
    pub fn deserialize(data: &[u8]) -> (parsed: Option<MaxSupplyFeature>)
        ensures
            parsed == MaxSupplyFeature::spec_parse(data@),
    {
        match parse_keys(data, 2) {
            Some((key, keys)) => Some(
                MaxSupplyFeature {
                    key,
                    mint_burn_1: keys[0],
                    mint_skill_1: keys[1],
                },
            ),
            None => None,
        }
    }

    /// The record that an account holds, if its bytes start with one.
    pub open spec fn spec_load(account: AccountInfo) -> Result<
        MaxSupplyFeature,
        ProgramError,
    > {
        match MaxSupplyFeature::spec_parse(account.data@) {
            Some(feature) => Ok(feature),
            None => Err(failure(TokenRecipesError::DeserializationError)),
        }
    }

    /// Reads the record that an account holds. Fails with
    /// `DeserializationError` where its bytes do not start with one.
    pub fn load(account: &AccountInfo) -> (result: Result<MaxSupplyFeature, ProgramError>)
        ensures
            result == MaxSupplyFeature::spec_load(*account),
    {
        match MaxSupplyFeature::deserialize(account.data.as_slice()) {
            Some(feature) => Ok(feature),
            None => Err(ProgramError::from(TokenRecipesError::DeserializationError)),
        }
    }

    /// Asks for the record to be written to its account.
    pub fn save(&self, account: &AccountInfo) -> (result: Result<Vec<Effect>, ProgramError>)
        ensures
            effects_match(
                result,
                Ok(seq![EffectView::Write { account: account.key, data: self.spec_serialize() }]),
            ),
    {
        Ok(single_effect(write_data(account, self.serialize())))
    }

    /// The seeds from which the address of the record is derived.
    pub open spec fn spec_seeds() -> Seq<Seq<u8>> {
        seq![("features").spec_bytes(), ("max_supply").spec_bytes()]
    }

    /// The seeds from which the address of the record is derived.
    pub fn seeds() -> (seeds: Vec<Vec<u8>>)
        ensures
            seeds.deep_view() == MaxSupplyFeature::spec_seeds(),
    {
        let mut seeds = no_seeds();
        push_seed(&mut seeds, slice_to_vec("features".as_bytes()));
        push_seed(&mut seeds, slice_to_vec("max_supply".as_bytes()));
        assert(seeds.deep_view() =~= MaxSupplyFeature::spec_seeds());
        seeds
    }

    /// The gates of the feature, in the order in which they are tried.
    pub open spec fn spec_gates(self) -> Seq<Gate> {
        seq![
            Gate { mint: self.mint_burn_1, ceiling: 1, jump: false, burn: true },
            Gate { mint: self.mint_skill_1, ceiling: 1, jump: true, burn: false },
        ]
    }

    /// The gates of the feature, in the order in which they are tried.
    pub fn gates(&self) -> (gates: Vec<Gate>)
        ensures
            gates@ == self.spec_gates(),
            gates_within(gates@, MaxSupplyFeature::MAX_LEVEL),
    {
        let mut gates: Vec<Gate> = Vec::new();
        gates.push(Gate { mint: self.mint_burn_1, ceiling: 1, jump: false, burn: true });
        gates.push(Gate { mint: self.mint_skill_1, ceiling: 1, jump: true, burn: false });
        assert(gates@ =~= self.spec_gates());
        gates
    }

    /// Levels the feature of a recipe up by the token that is presented.
    /// Fails with `MaxFeatureLevelReached` where the recipe is at the highest
    /// level, and with `InvalidMintToLevelUpFeature` where the token opens
    /// no gate at the recipe's level.
    pub fn unlock(&self, context: &UnlockFeatureContext) -> (result: Result<
        Vec<Effect>,
        ProgramError,
    >)
        ensures
            effects_match(
                result,
                spec_unlock(
                    *context.recipe,
                    *context.owner,
                    *context.mint,
                    *context.token,
                    FeatureKind::MaxSupply,
                    MaxSupplyFeature::MAX_LEVEL,
                    self.spec_gates(),
                ),
            ),
    {
        unlock_feature_level(
            context,
            FeatureKind::MaxSupply,
            MaxSupplyFeature::MAX_LEVEL,
            &self.gates(),
        )
    }

}

/// A record that was written is read back, whatever stands behind it.
pub proof fn lemma_max_supply_feature_round_trip(feature: MaxSupplyFeature, after: Seq<u8>)
    ensures
        MaxSupplyFeature::spec_parse(feature.spec_serialize() + after) == Some(feature),
        feature.spec_serialize().len() == MaxSupplyFeature::LEN,
{
    lemma_keys_bytes_len(feature.key, feature.spec_keys());
    lemma_keys_round_trip(feature.key, feature.spec_keys(), after);
}

/// The number of outputs of a recipe that have a maximum supply.
pub open spec fn spec_max_supply_outputs(outputs: Seq<IngredientOutput>) -> nat
    decreases outputs.len(),
{
    if outputs.len() == 0 {
        0
    } else {
        spec_max_supply_outputs(outputs.drop_last()) + if outputs.last()
            is MintTokenWithMaxSupply {
            1nat
        } else {
            0nat
        }
    }
}

/// Whether a recipe has outputs with a maximum supply only where its level
/// of the feature allows them.
pub open spec fn spec_valid_max_supply_outputs(recipe: RecipeView) -> bool {
    recipe.feature_levels.max_supply == 0 ==> spec_max_supply_outputs(recipe.outputs) == 0
}

/// Counts the outputs that have a maximum supply.
pub fn count_max_supply_outputs(outputs: &Vec<IngredientOutput>) -> (total: usize)
    ensures
        total == spec_max_supply_outputs(outputs@),
{
    let mut total: usize = 0;
    let mut i: usize = 0;
    assert(outputs@.subrange(0, 0) =~= Seq::<IngredientOutput>::empty());
    while i < outputs.len()
        invariant
            i <= outputs@.len(),
            total <= i,
            total == spec_max_supply_outputs(outputs@.subrange(0, i as int)),
        decreases outputs@.len() - i,
    {
        proof {
            let upto = outputs@.subrange(0, i + 1);
            assert(upto.drop_last() =~= outputs@.subrange(0, i as int));
            assert(upto.last() == outputs@[i as int]);
        }
        match outputs[i] {
            IngredientOutput::MintTokenWithMaxSupply { .. } => {
                total += 1;
            },
            _ => {},
        }
        i += 1;
    }
    assert(outputs@.subrange(0, i as int) =~= outputs@);
    total
}

/// Asserts that the recipe has outputs with a maximum supply only where
/// its level of the feature allows them. To be used after the recipe was
/// changed.
pub fn assert_valid_max_supply_outputs(recipe: &Recipe) -> (result: ProgramResult)
    ensures
        result == check(
            spec_valid_max_supply_outputs(recipe@),
            TokenRecipesError::InvalidMaxSupplyFeature,
        ),
{
    let total_max_supply_outputs = count_max_supply_outputs(&recipe.outputs);
    match recipe.feature_levels.max_supply {
        0 => assert_max_max_supply(total_max_supply_outputs, 0),
        _ => Ok(()),
    }
}

/// Asserts that a number of outputs with a maximum supply is not above what
/// is allowed.
pub fn assert_max_max_supply(total_max_supply_outputs: usize, max_allowed: usize) -> (result:
    ProgramResult)
    ensures
        result == check(
            total_max_supply_outputs <= max_allowed,
            TokenRecipesError::InvalidMaxSupplyFeature,
        ),
{
    if total_max_supply_outputs > max_allowed {
        Err(ProgramError::from(TokenRecipesError::InvalidMaxSupplyFeature))
    } else {
        Ok(())
    }
}

} // verus!
