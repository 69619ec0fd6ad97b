//! The feature that allows a recipe to ask for native currency.

use vstd::prelude::*;
use vstd::slice::slice_to_vec;
use vstd::string::StringSliceAdditionalSpecFns;
use crate::account::AccountInfo;
use crate::assertions::{check, ProgramResult};
use crate::error::{failure, ProgramError, TokenRecipesError};
use crate::pubkey::Pubkey;
use crate::state::features::{
    gates_within, keys_bytes, lemma_keys_bytes_len, lemma_keys_round_trip, parse_keys,
    spec_keys_bytes, spec_parse_keys, spec_unlock, unlock_feature_level, FeatureKind, Gate,
    UnlockFeatureContext,
};
use crate::state::ingredient_input::IngredientInput;
use crate::state::key::Key;
use crate::state::recipe::{Recipe, RecipeView};
use crate::utils::{
    effects_match, no_seeds, push_seed, single_effect, write_data, Effect, EffectView,
};

verus! {

/// The configuration of the feature that allows payments in native
/// currency: the tokens that level it up. At level 0 no payment is allowed;
/// level 1 allows up to one unit of the native currency, and each level up
/// to 10 twice as much as the one before; from level 11 on any amount is
/// allowed.
#[derive(Clone, Copy, Debug, PartialEq, Eq)]
pub struct SolPaymentFeature {
    /// The tag of the record.
    pub key: Key,
    /// When burned, leads one level up, from level 0 to 1.
    pub mint_burn_1: Pubkey,
    /// When burned, leads one level up, up to level 3.
    pub mint_burn_2: Pubkey,
    /// When burned, leads one level up, up to level 6.
    pub mint_burn_3: Pubkey,
    /// When burned, leads one level up, up to level 10.
    pub mint_burn_4: Pubkey,
    /// When burned, leads one level up, up to level 11.
    pub mint_burn_5: Pubkey,
    /// When burned, leads straight to level 3.
    pub mint_burn_6: Pubkey,
    /// When burned, leads straight to level 6.
    pub mint_burn_7: Pubkey,
    /// When burned, leads straight to level 10.
    pub mint_burn_8: Pubkey,
    /// When burned, leads straight to level 11.
    pub mint_burn_9: Pubkey,
    /// When held, leads straight to level 1.
    pub mint_skill_1: Pubkey,
    /// When held, leads straight to level 3.
    pub mint_skill_2: Pubkey,
    /// When held, leads straight to level 6.
    pub mint_skill_3: Pubkey,
    /// When held, leads straight to level 10.
    pub mint_skill_4: Pubkey,
    /// When held, leads straight to level 11.
    pub mint_skill_5: Pubkey,
}

impl SolPaymentFeature {
    /// The size of the record.
    pub const LEN: usize = 449;

    /// The highest level of the feature.
    pub const MAX_LEVEL: u8 = 11;

    /// The addresses of the record, in the order in which they are written.
    pub open spec fn spec_keys(self) -> Seq<Pubkey> {
        seq![
            self.mint_burn_1,
            self.mint_burn_2,
            self.mint_burn_3,
            self.mint_burn_4,
            self.mint_burn_5,
            self.mint_burn_6,
            self.mint_burn_7,
            self.mint_burn_8,
            self.mint_burn_9,
            self.mint_skill_1,
            self.mint_skill_2,
            self.mint_skill_3,
            self.mint_skill_4,
            self.mint_skill_5,
        ]
    }

    /// The record made of a tag and of addresses in the order in which they
    /// are written.
    pub open spec fn spec_from_keys(key: Key, keys: Seq<Pubkey>) -> SolPaymentFeature {
        SolPaymentFeature {
            key,
            mint_burn_1: keys[0],
            mint_burn_2: keys[1],
            mint_burn_3: keys[2],
            mint_burn_4: keys[3],
            mint_burn_5: keys[4],
            mint_burn_6: keys[5],
            mint_burn_7: keys[6],
            mint_burn_8: keys[7],
            mint_burn_9: keys[8],
            mint_skill_1: keys[9],
            mint_skill_2: keys[10],
            mint_skill_3: keys[11],
            mint_skill_4: keys[12],
            mint_skill_5: keys[13],
        }
    }

    /// The bytes of the record: the tag, then the addresses in order.
    pub open spec fn spec_serialize(self) -> Seq<u8> {
        spec_keys_bytes(self.key, self.spec_keys())
    }

    /// The record that the bytes start with, if any.
    pub open spec fn spec_parse(data: Seq<u8>) -> Option<SolPaymentFeature> {
        match spec_parse_keys(data, 14) {
            Some((key, keys)) => Some(SolPaymentFeature::spec_from_keys(key, keys)),
            None => None,
        }
    }

    /// The bytes of the record.
    pub fn serialize(&self) -> (bytes: Vec<u8>)
        ensures
            bytes@ == self.spec_serialize(),
    {
        let mut keys: Vec<Pubkey> = Vec::new();
        keys.push(self.mint_burn_1);
        keys.push(self.mint_burn_2);
        keys.push(self.mint_burn_3);
        keys.push(self.mint_burn_4);
        keys.push(self.mint_burn_5);
        keys.push(self.mint_burn_6);
        keys.push(self.mint_burn_7);
        keys.push(self.mint_burn_8);
        keys.push(self.mint_burn_9);
        keys.push(self.mint_skill_1);
        keys.push(self.mint_skill_2);
        keys.push(self.mint_skill_3);
        keys.push(self.mint_skill_4);
        keys.push(self.mint_skill_5);
        assert(keys@ =~= self.spec_keys());
        keys_bytes(self.key, &keys)
    }

    /// The record that the bytes start with, if any.
    pub fn deserialize(data: &[u8]) -> (parsed: Option<SolPaymentFeature>)
        ensures
            parsed == SolPaymentFeature::spec_parse(data@),
    {
        match parse_keys(data, 14) {
            Some((key, keys)) => Some(
                SolPaymentFeature {
                    key,
                    mint_burn_1: keys[0],
                    mint_burn_2: keys[1],
                    mint_burn_3: keys[2],
                    mint_burn_4: keys[3],
                    mint_burn_5: keys[4],
                    mint_burn_6: keys[5],
                    mint_burn_7: keys[6],
                    mint_burn_8: keys[7],
                    mint_burn_9: keys[8],
                    mint_skill_1: keys[9],
                    mint_skill_2: keys[10],
                    mint_skill_3: keys[11],
                    mint_skill_4: keys[12],
                    mint_skill_5: keys[13],
                },
            ),
            None => None,
        }
    }

    /// The record that an account holds, if its bytes start with one.
    pub open spec fn spec_load(account: AccountInfo) -> Result<
        SolPaymentFeature,
        ProgramError,
    > {
        match SolPaymentFeature::spec_parse(account.data@) {
            Some(feature) => Ok(feature),
            None => Err(failure(TokenRecipesError::DeserializationError)),
        }
    }

    /// Reads the record that an account holds. Fails with
    /// `DeserializationError` where its bytes do not start with one.
    pub fn load(account: &AccountInfo) -> (result: Result<SolPaymentFeature, ProgramError>)
        ensures
            result == SolPaymentFeature::spec_load(*account),
    {
        match SolPaymentFeature::deserialize(account.data.as_slice()) {
            Some(feature) => Ok(feature),
            None => Err(ProgramError::from(TokenRecipesError::DeserializationError)),
        }
    }

    /// Asks for the record to be written to its account.
    pub fn save(&self, account: &AccountInfo) -> (result: Result<Vec<Effect>, ProgramError>)
        ensures
            effects_match(
                result,
                Ok(seq![EffectView::Write { account: account.key, data: self.spec_serialize() }]),
            ),
    {
        Ok(single_effect(write_data(account, self.serialize())))
    }

    /// The seeds from which the address of the record is derived.
    pub open spec fn spec_seeds() -> Seq<Seq<u8>> {
        seq![("features").spec_bytes(), ("sol_payment").spec_bytes()]
    }

    /// The seeds from which the address of the record is derived.
    pub fn seeds() -> (seeds: Vec<Vec<u8>>)
        ensures
            seeds.deep_view() == SolPaymentFeature::spec_seeds(),
    {
        let mut seeds = no_seeds();
        push_seed(&mut seeds, slice_to_vec("features".as_bytes()));
        push_seed(&mut seeds, slice_to_vec("sol_payment".as_bytes()));
        assert(seeds.deep_view() =~= SolPaymentFeature::spec_seeds());
        seeds
    }

    /// The gates of the feature, in the order in which they are tried.
    pub open spec fn spec_gates(self) -> Seq<Gate> {
        seq![
            Gate { mint: self.mint_burn_1, ceiling: 1, jump: false, burn: true },
            Gate { mint: self.mint_burn_2, ceiling: 3, jump: false, burn: true },
            Gate { mint: self.mint_burn_3, ceiling: 6, jump: false, burn: true },
            Gate { mint: self.mint_burn_4, ceiling: 10, jump: false, burn: true },
            Gate { mint: self.mint_burn_5, ceiling: 11, jump: false, burn: true },
            Gate { mint: self.mint_burn_6, ceiling: 3, jump: true, burn: true },
            Gate { mint: self.mint_burn_7, ceiling: 6, jump: true, burn: true },
            Gate { mint: self.mint_burn_8, ceiling: 10, jump: true, burn: true },
            Gate { mint: self.mint_burn_9, ceiling: 11, jump: true, burn: true },
            Gate { mint: self.mint_skill_1, ceiling: 1, jump: true, burn: false },
            Gate { mint: self.mint_skill_2, ceiling: 3, jump: true, burn: false },
            Gate { mint: self.mint_skill_3, ceiling: 6, jump: true, burn: false },
            Gate { mint: self.mint_skill_4, ceiling: 10, jump: true, burn: false },
            Gate { mint: self.mint_skill_5, ceiling: 11, jump: true, burn: false },
        ]
    }

    /// The gates of the feature, in the order in which they are tried.
    pub fn gates(&self) -> (gates: Vec<Gate>)
        ensures
            gates@ == self.spec_gates(),
            gates_within(gates@, SolPaymentFeature::MAX_LEVEL),
    {
        let mut gates: Vec<Gate> = Vec::new();
        gates.push(Gate { mint: self.mint_burn_1, ceiling: 1, jump: false, burn: true });
        gates.push(Gate { mint: self.mint_burn_2, ceiling: 3, jump: false, burn: true });
        gates.push(Gate { mint: self.mint_burn_3, ceiling: 6, jump: false, burn: true });
        gates.push(Gate { mint: self.mint_burn_4, ceiling: 10, jump: false, burn: true });
        gates.push(Gate { mint: self.mint_burn_5, ceiling: 11, jump: false, burn: true });
        gates.push(Gate { mint: self.mint_burn_6, ceiling: 3, jump: true, burn: true });
        gates.push(Gate { mint: self.mint_burn_7, ceiling: 6, jump: true, burn: true });
        gates.push(Gate { mint: self.mint_burn_8, ceiling: 10, jump: true, burn: true });
        gates.push(Gate { mint: self.mint_burn_9, ceiling: 11, jump: true, burn: true });
        gates.push(Gate { mint: self.mint_skill_1, ceiling: 1, jump: true, burn: false });
        gates.push(Gate { mint: self.mint_skill_2, ceiling: 3, jump: true, burn: false });
        gates.push(Gate { mint: self.mint_skill_3, ceiling: 6, jump: true, burn: false });
        gates.push(Gate { mint: self.mint_skill_4, ceiling: 10, jump: true, burn: false });
        gates.push(Gate { mint: self.mint_skill_5, ceiling: 11, jump: true, burn: false });
        assert(gates@ =~= self.spec_gates());
        gates
    }

    /// Levels the feature of a recipe up by the token that is presented.
    /// Fails with `MaxFeatureLevelReached` where the recipe is at the highest
    /// level, and with `InvalidMintToLevelUpFeature` where the token opens
    /// no gate at the recipe's level.
    pub fn unlock(&self, context: &UnlockFeatureContext) -> (result: Result<
        Vec<Effect>,
        ProgramError,
    >)
        ensures
            effects_match(
                result,
                spec_unlock(
                    *context.recipe,
                    *context.owner,
                    *context.mint,
                    *context.token,
                    FeatureKind::SolPayment,
                    SolPaymentFeature::MAX_LEVEL,
                    self.spec_gates(),
                ),
            ),
    {
        unlock_feature_level(
            context,
            FeatureKind::SolPayment,
            SolPaymentFeature::MAX_LEVEL,
            &self.gates(),
        )
    }

}

/// A record that was written is read back, whatever stands behind it.
pub proof fn lemma_sol_payment_feature_round_trip(feature: SolPaymentFeature, after: Seq<u8>)
    ensures
        SolPaymentFeature::spec_parse(feature.spec_serialize() + after) == Some(feature),
        feature.spec_serialize().len() == SolPaymentFeature::LEN,
{
    lemma_keys_bytes_len(feature.key, feature.spec_keys());
    lemma_keys_round_trip(feature.key, feature.spec_keys(), after);
}

/// The lamports in one unit of the native currency.
pub const LAMPORTS_PER_SOL: u64 = 1_000_000_000;

/// The native currency that one craft of a recipe asks for, in lamports.
pub open spec fn spec_sol_payment(inputs: Seq<IngredientInput>) -> nat
    decreases inputs.len(),
{
    if inputs.len() == 0 {
        0
    } else {
        spec_sol_payment(inputs.drop_last()) + match inputs.last() {
            IngredientInput::TransferSol { lamports, .. } => lamports as nat,
            _ => 0nat,
        }
    }
}

/// The native currency that one craft may ask for at a level of the
/// feature, in lamports; `None` where it may ask for any amount.
pub open spec fn spec_max_sol_payment(level: u8) -> Option<nat> {
    match level {
        0 => Some(0),
        1 => Some(1_000_000_000),
        2 => Some(2_000_000_000),
        3 => Some(4_000_000_000),
        4 => Some(8_000_000_000),
        5 => Some(16_000_000_000),
        6 => Some(32_000_000_000),
        7 => Some(64_000_000_000),
        8 => Some(128_000_000_000),
        9 => Some(256_000_000_000),
        10 => Some(512_000_000_000),
        _ => None,
    }
}

/// Whether one craft of a recipe asks for no more native currency than its
/// level of the feature allows.
pub open spec fn spec_valid_sol_payment(recipe: RecipeView) -> bool {
    match spec_max_sol_payment(recipe.feature_levels.sol_payment) {
        Some(max_allowed) => spec_sol_payment(recipe.inputs) <= max_allowed,
        None => true,
    }
}

/// Adds up the native currency that one craft asks for; `None` where it is
/// more than a `u64` holds.
pub fn sum_sol_payment(inputs: &Vec<IngredientInput>) -> (total: Option<u64>)
    ensures
        match total {
            Some(lamports) => lamports == spec_sol_payment(inputs@),
            None => spec_sol_payment(inputs@) > u64::MAX,
        },
{
    let mut total: u64 = 0;
    let mut i: usize = 0;
    assert(inputs@.subrange(0, 0) =~= Seq::<IngredientInput>::empty());
    while i < inputs.len()
        invariant
            i <= inputs@.len(),
            total == spec_sol_payment(inputs@.subrange(0, i as int)),
        decreases inputs@.len() - i,
    {
        proof {
            let upto = inputs@.subrange(0, i + 1);
            assert(upto.drop_last() =~= inputs@.subrange(0, i as int));
            assert(upto.last() == inputs@[i as int]);
        }
        match inputs[i] {
            IngredientInput::TransferSol { lamports, .. } => {
                if lamports > u64::MAX - total {
                    proof {
                        lemma_sol_payment_grows(inputs@, i + 1);
                    }
                    return None;
                }
                total += lamports;
            },
            _ => {},
        }
        i += 1;
    }
    assert(inputs@.subrange(0, i as int) =~= inputs@);
    Some(total)
}

/// The native currency asked for by the first inputs of a recipe is no more
/// than that asked for by all of them.
pub proof fn lemma_sol_payment_grows(inputs: Seq<IngredientInput>, upto: int)
    requires
        0 <= upto <= inputs.len(),
    ensures
        spec_sol_payment(inputs.subrange(0, upto)) <= spec_sol_payment(inputs),
    decreases inputs.len(),
{
    if upto == inputs.len() {
        assert(inputs.subrange(0, upto) =~= inputs);
    } else {
        lemma_sol_payment_grows(inputs.drop_last(), upto);
        assert(inputs.drop_last().subrange(0, upto) =~= inputs.subrange(0, upto));
    }
}

/// Asserts that one craft of the recipe asks for no more native currency
/// than its level of the feature allows. To be used after the recipe was
/// changed.
pub fn assert_valid_sol_payment(recipe: &Recipe) -> (result: ProgramResult)
    ensures
        result == check(
            spec_valid_sol_payment(recipe@),
            TokenRecipesError::InvalidSolPaymentFeature,
        ),
{
    let level = recipe.feature_levels.sol_payment;
    if level > 10 {
        return Ok(());
    }
    let sol_amount = match sum_sol_payment(&recipe.inputs) {
        Some(lamports) => lamports,
        None => {
            return Err(ProgramError::from(TokenRecipesError::InvalidSolPaymentFeature));
        },
    };
    match level {
        0 => assert_max_sol_payment(sol_amount, 0),
        1 => assert_max_sol_payment(sol_amount, LAMPORTS_PER_SOL),
        2 => assert_max_sol_payment(sol_amount, 2 * LAMPORTS_PER_SOL),
        3 => assert_max_sol_payment(sol_amount, 4 * LAMPORTS_PER_SOL),
        4 => assert_max_sol_payment(sol_amount, 8 * LAMPORTS_PER_SOL),
        5 => assert_max_sol_payment(sol_amount, 16 * LAMPORTS_PER_SOL),
        6 => assert_max_sol_payment(sol_amount, 32 * LAMPORTS_PER_SOL),
        7 => assert_max_sol_payment(sol_amount, 64 * LAMPORTS_PER_SOL),
        8 => assert_max_sol_payment(sol_amount, 128 * LAMPORTS_PER_SOL),
        9 => assert_max_sol_payment(sol_amount, 256 * LAMPORTS_PER_SOL),
        _ => assert_max_sol_payment(sol_amount, 512 * LAMPORTS_PER_SOL),
    }
}

/// Asserts that an amount of native currency is not above what is allowed.
pub fn assert_max_sol_payment(sol_amount: u64, max_allowed: u64) -> (result: ProgramResult)
    ensures
        result == check(sol_amount <= max_allowed, TokenRecipesError::InvalidSolPaymentFeature),
{
    if sol_amount > max_allowed {
        Err(ProgramError::from(TokenRecipesError::InvalidSolPaymentFeature))
    } else {
        Ok(())
    }
}

} // verus!
