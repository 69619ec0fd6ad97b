//! The fee feature: how the fee of a craft is shared between the recipe and
//! the admin of the program, and how what was earned is paid out.

use vstd::prelude::*;
use vstd::slice::slice_to_vec;
use vstd::string::StringSliceAdditionalSpecFns;
use crate::account::AccountInfo;
use crate::assertions::{
    assert_account_key, assert_mint_account, assert_pda, assert_program_owner, assert_same_pubkeys,
    assert_token_account, assert_writable, check, has_account_key, spec_assert_pda,
    spec_mint_account, spec_token_account, ProgramResult,
};
use crate::error::{failure, ProgramError, TokenRecipesError};
use crate::pubkey::{id, program_id, Pubkey};
use crate::state::features::{
    gates_within, keys_bytes, lemma_keys_bytes_len, lemma_keys_round_trip, parse_keys,
    spec_keys_bytes, spec_parse_keys, spec_unlock, unlock_feature_level, FeatureKind, Gate,
    UnlockFeatureContext,
};
use crate::state::key::Key;
use crate::state::recipe::{Recipe, RecipeView};
use crate::utils::{
    effects_match, mint_tokens, no_seeds, push_effect, push_seed, single_effect, spec_with_bump,
    transfer_lamports, with_bump, write_data, Effect, EffectView,
};

verus! {

/// The configuration of the fee feature: where the admin's share goes, the
/// token that shards are minted in, and the tokens that level the feature up.
#[derive(Clone, Copy, Debug, PartialEq, Eq)]
pub struct FeesFeature {
    /// The tag of the record.
    pub key: Key,
    /// The address that receives the admin's share of the fees.
    pub admin_destination: Pubkey,
    /// The token that shards are minted in.
    pub shard_mint: Pubkey,
    /// When burned, leads one level up, from level 0 to 1.
    pub mint_burn_1: Pubkey,
    /// When burned, leads one level up, up to level 10.
    pub mint_burn_2: Pubkey,
    /// When burned, leads one level up, up to level 11.
    pub mint_burn_3: Pubkey,
    /// When burned, leads straight to level 10.
    pub mint_burn_4: Pubkey,
    /// When burned, leads straight to level 11.
    pub mint_burn_5: Pubkey,
    /// When held, leads straight to level 1.
    pub mint_skill_1: Pubkey,
    /// When held, leads straight to level 10.
    pub mint_skill_2: Pubkey,
    /// When held, leads straight to level 11.
    pub mint_skill_3: Pubkey,
}

impl FeesFeature {
    /// The size of the record.
    pub const LEN: usize = 321;

    /// The highest level of the feature.
    pub const MAX_LEVEL: u8 = 11;

    /// The addresses of the record, in the order in which they are written.
    pub open spec fn spec_keys(self) -> Seq<Pubkey> {
        seq![
            self.admin_destination,
            self.shard_mint,
            self.mint_burn_1,
            self.mint_burn_2,
            self.mint_burn_3,
            self.mint_burn_4,
            self.mint_burn_5,
            self.mint_skill_1,
            self.mint_skill_2,
            self.mint_skill_3,
        ]
    }

    /// The record made of a tag and of addresses in the order in which they
    /// are written.
    pub open spec fn spec_from_keys(key: Key, keys: Seq<Pubkey>) -> FeesFeature {
        FeesFeature {
            key,
            admin_destination: keys[0],
            shard_mint: keys[1],
            mint_burn_1: keys[2],
            mint_burn_2: keys[3],
            mint_burn_3: keys[4],
            mint_burn_4: keys[5],
            mint_burn_5: keys[6],
            mint_skill_1: keys[7],
            mint_skill_2: keys[8],
            mint_skill_3: keys[9],
        }
    }

    /// The bytes of the record: the tag, then the addresses in order.
    pub open spec fn spec_serialize(self) -> Seq<u8> {
        spec_keys_bytes(self.key, self.spec_keys())
    }

    /// The record that the bytes start with, if any.
    pub open spec fn spec_parse(data: Seq<u8>) -> Option<FeesFeature> {
        match spec_parse_keys(data, 10) {
            Some((key, keys)) => Some(FeesFeature::spec_from_keys(key, keys)),
            None => None,
        }
    }

    /// The bytes of the record.
    pub fn serialize(&self) -> (bytes: Vec<u8>)
        ensures
            bytes@ == self.spec_serialize(),
    {
        let mut keys: Vec<Pubkey> = Vec::new();
        keys.push(self.admin_destination);
        keys.push(self.shard_mint);
        keys.push(self.mint_burn_1);
        keys.push(self.mint_burn_2);
        keys.push(self.mint_burn_3);
        keys.push(self.mint_burn_4);
        keys.push(self.mint_burn_5);
        keys.push(self.mint_skill_1);
        keys.push(self.mint_skill_2);
        keys.push(self.mint_skill_3);
        assert(keys@ =~= self.spec_keys());
        keys_bytes(self.key, &keys)
    }

    /// The record that the bytes start with, if any.
    pub fn deserialize(data: &[u8]) -> (parsed: Option<FeesFeature>)
        ensures
            parsed == FeesFeature::spec_parse(data@),
    {
        match parse_keys(data, 10) {
            Some((key, keys)) => Some(
                FeesFeature {
                    key,
                    admin_destination: keys[0],
                    shard_mint: keys[1],
                    mint_burn_1: keys[2],
                    mint_burn_2: keys[3],
                    mint_burn_3: keys[4],
                    mint_burn_4: keys[5],
                    mint_burn_5: keys[6],
                    mint_skill_1: keys[7],
                    mint_skill_2: keys[8],
                    mint_skill_3: keys[9],
                },
            ),
            None => None,
        }
    }

    /// The record that an account holds, if its bytes start with one.
    pub open spec fn spec_load(account: AccountInfo) -> Result<
        FeesFeature,
        ProgramError,
    > {
        match FeesFeature::spec_parse(account.data@) {
            Some(feature) => Ok(feature),
            None => Err(failure(TokenRecipesError::DeserializationError)),
        }
    }

    /// Reads the record that an account holds. Fails with
    /// `DeserializationError` where its bytes do not start with one.
    pub fn load(account: &AccountInfo) -> (result: Result<FeesFeature, ProgramError>)
        ensures
            result == FeesFeature::spec_load(*account),
    {
        match FeesFeature::deserialize(account.data.as_slice()) {
            Some(feature) => Ok(feature),
            None => Err(ProgramError::from(TokenRecipesError::DeserializationError)),
        }
    }

    /// Asks for the record to be written to its account.
    pub fn save(&self, account: &AccountInfo) -> (result: Result<Vec<Effect>, ProgramError>)
        ensures
            effects_match(
                result,
                Ok(seq![EffectView::Write { account: account.key, data: self.spec_serialize() }]),
            ),
    {
        Ok(single_effect(write_data(account, self.serialize())))
    }

    /// The seeds from which the address of the record is derived.
    pub open spec fn spec_seeds() -> Seq<Seq<u8>> {
        seq![("features").spec_bytes(), ("fees").spec_bytes()]
    }

    /// The seeds from which the address of the record is derived.
    pub fn seeds() -> (seeds: Vec<Vec<u8>>)
        ensures
            seeds.deep_view() == FeesFeature::spec_seeds(),
    {
        let mut seeds = no_seeds();
        push_seed(&mut seeds, slice_to_vec("features".as_bytes()));
        push_seed(&mut seeds, slice_to_vec("fees".as_bytes()));
        assert(seeds.deep_view() =~= FeesFeature::spec_seeds());
        seeds
    }

    /// The gates of the feature, in the order in which they are tried.
    pub open spec fn spec_gates(self) -> Seq<Gate> {
        seq![
            Gate { mint: self.mint_burn_1, ceiling: 1, jump: false, burn: true },
            Gate { mint: self.mint_burn_2, ceiling: 10, jump: false, burn: true },
            Gate { mint: self.mint_burn_3, ceiling: 11, jump: false, burn: true },
            Gate { mint: self.mint_burn_4, ceiling: 10, jump: true, burn: true },
            Gate { mint: self.mint_burn_5, ceiling: 11, jump: true, burn: true },
            Gate { mint: self.mint_skill_1, ceiling: 1, jump: true, burn: false },
            Gate { mint: self.mint_skill_2, ceiling: 10, jump: true, burn: false },
            Gate { mint: self.mint_skill_3, ceiling: 11, jump: true, burn: false },
        ]
    }

    /// The gates of the feature, in the order in which they are tried.
    pub fn gates(&self) -> (gates: Vec<Gate>)
        ensures
            gates@ == self.spec_gates(),
            gates_within(gates@, FeesFeature::MAX_LEVEL),
    {
        let mut gates: Vec<Gate> = Vec::new();
        gates.push(Gate { mint: self.mint_burn_1, ceiling: 1, jump: false, burn: true });
        gates.push(Gate { mint: self.mint_burn_2, ceiling: 10, jump: false, burn: true });
        gates.push(Gate { mint: self.mint_burn_3, ceiling: 11, jump: false, burn: true });
        gates.push(Gate { mint: self.mint_burn_4, ceiling: 10, jump: true, burn: true });
        gates.push(Gate { mint: self.mint_burn_5, ceiling: 11, jump: true, burn: true });
        gates.push(Gate { mint: self.mint_skill_1, ceiling: 1, jump: true, burn: false });
        gates.push(Gate { mint: self.mint_skill_2, ceiling: 10, jump: true, burn: false });
        gates.push(Gate { mint: self.mint_skill_3, ceiling: 11, jump: true, burn: false });
        assert(gates@ =~= self.spec_gates());
        gates
    }

    /// Levels the feature of a recipe up by the token that is presented.
    /// Fails with `MaxFeatureLevelReached` where the recipe is at the highest
    /// level, and with `InvalidMintToLevelUpFeature` where the token opens
    /// no gate at the recipe's level.
    pub fn unlock(&self, context: &UnlockFeatureContext) -> (result: Result<
        Vec<Effect>,
        ProgramError,
    >)
        ensures
            effects_match(
                result,
                spec_unlock(
                    *context.recipe,
                    *context.owner,
                    *context.mint,
                    *context.token,
                    FeatureKind::Fees,
                    FeesFeature::MAX_LEVEL,
                    self.spec_gates(),
                ),
            ),
    {
        unlock_feature_level(
            context,
            FeatureKind::Fees,
            FeesFeature::MAX_LEVEL,
            &self.gates(),
        )
    }

    /// The record that an account of the program holds: the account must
    /// belong to the program, start with the tag of the feature, and hold
    /// the record.
    pub open spec fn spec_get(account: AccountInfo) -> Result<FeesFeature, ProgramError> {
        if account.owner != program_id() {
            Err(failure(TokenRecipesError::InvalidProgramOwner))
        } else if !has_account_key(account.data@, Key::FeesFeature) {
            Err(failure(TokenRecipesError::InvalidAccountKey))
        } else {
            FeesFeature::spec_load(account)
        }
    }

    /// Reads the record out of an account of the program.
    pub fn get(account: &AccountInfo) -> (result: Result<FeesFeature, ProgramError>)
        ensures
            result == FeesFeature::spec_get(*account),
    {
        assert_program_owner(account, &id())?;
        assert_account_key(account, Key::FeesFeature)?;
        FeesFeature::load(account)
    }

}

/// A record that was written is read back, whatever stands behind it.
pub proof fn lemma_fees_feature_round_trip(feature: FeesFeature, after: Seq<u8>)
    ensures
        FeesFeature::spec_parse(feature.spec_serialize() + after) == Some(feature),
        feature.spec_serialize().len() == FeesFeature::LEN,
{
    lemma_keys_bytes_len(feature.key, feature.spec_keys());
    lemma_keys_round_trip(feature.key, feature.spec_keys(), after);
}

/// The base fee of a craft, in lamports: a fiftieth of a unit of the native
/// currency.
pub const BASE_FEES: u64 = 20_000_000;

/// The share of the fee of a craft that goes to the recipe, in percent.
pub open spec fn spec_fee_percent(level: u8) -> nat {
    match level {
        1 => 10,
        2 => 20,
        3 => 30,
        4 => 40,
        5 => 50,
        6 => 60,
        7 => 70,
        8 => 80,
        9 => 90,
        10 => 90,
        11 => 100,
        _ => 0,
    }
}

/// The fee of a craft: the custom fee of the recipe at levels 10 and 11,
/// the base fee at every other level.
pub open spec fn spec_total_fees(recipe: RecipeView) -> u64 {
    if recipe.feature_levels.fees == 10 || recipe.feature_levels.fees == 11 {
        recipe.fees
    } else {
        BASE_FEES
    }
}

/// The fee of a craft, the part of it that goes to the admin, and the
/// shards that the craft earns. The recipe keeps its percentage of the fee,
/// rounded down, and the admin gets the rest. Shards are earned for every
/// lamport that goes to the admin, but none at level 0 nor where the fee
/// is below the base fee. Fails with `NumericalOverflow` where the fee
/// times the percentage is more than a `u64` holds.
pub open spec fn spec_fees_and_shards_per_craft(recipe: RecipeView) -> Result<
    (u64, u64, u64),
    ProgramError,
> {
    let percent = spec_fee_percent(recipe.feature_levels.fees);
    let total_fees = spec_total_fees(recipe);
    if total_fees * percent > u64::MAX {
        Err(failure(TokenRecipesError::NumericalOverflow))
    } else {
        let admin_fees = (total_fees - total_fees * percent / 100) as u64;
        let shards = if recipe.feature_levels.fees == 0 || total_fees < BASE_FEES {
            0
        } else {
            admin_fees
        };
        Ok((total_fees, admin_fees, shards))
    }
}

/// Returns the total fees, the admin fees and the shards of one craft.
pub fn get_fees_and_shards_per_craft(recipe: &Recipe) -> (result: Result<
    (u64, u64, u64),
    ProgramError,
>)
    ensures
        result == spec_fees_and_shards_per_craft(recipe@),
{
    let fee_percent: u64 = match recipe.feature_levels.fees {
        1 => 10,
        2 => 20,
        3 => 30,
        4 => 40,
        5 => 50,
        6 => 60,
        7 => 70,
        8 => 80,
        9 => 90,
        10 => 90,
        11 => 100,
        _ => 0,
    };
    let total_fees: u64 = match recipe.feature_levels.fees {
        10 | 11 => recipe.fees,
        _ => BASE_FEES,
    };
    let recipe_fees = match total_fees.checked_mul(fee_percent) {
        Some(product) => product / 100,
        None => { return Err(ProgramError::from(TokenRecipesError::NumericalOverflow)); },
    };
    assert(recipe_fees <= total_fees) by (nonlinear_arith)
        requires
            recipe_fees == (total_fees * fee_percent) / 100,
            fee_percent <= 100,
    ;
    let admin_fees = total_fees - recipe_fees;
    let shards = if recipe.feature_levels.fees == 0 || total_fees < BASE_FEES {
        0
    } else {
        admin_fees
    };
    Ok((total_fees, admin_fees, shards))
}

/// Asserts that the recipe can set custom fees: that it has reached level
/// 10 of the feature.
pub fn asserts_can_set_fees(recipe: &Recipe) -> (result: ProgramResult)
    ensures
        result == check(recipe.feature_levels.fees >= 10, TokenRecipesError::InvalidFeesFeature),
{
    let level = recipe.feature_levels.fees;
    if level < 10 {
        Err(ProgramError::from(TokenRecipesError::InvalidFeesFeature))
    } else {
        Ok(())
    }
}

/// What is asked for the fees that a recipe holds to be paid out. What the
/// record of the recipe holds above its storage deposit must cover the
/// admin's part, else `NumericalOverflow`; the record must stand at the
/// address derived from `base`; the admin's destination must be writable
/// and the one that is expected. The recipe's authority gets what is left
/// above the admin's part, the admin's destination gets the admin's part,
/// both signed in the name of the recipe.
pub open spec fn spec_collect_fees(
    accumulated_admin_fees: u64,
    expected_admin_fees_destination: Pubkey,
    base: Pubkey,
    recipe: AccountInfo,
    authority: AccountInfo,
    admin_fees_destination: AccountInfo,
    rent_exempt_reserve: u64,
) -> Result<Seq<EffectView>, ProgramError> {
    if recipe.lamports < rent_exempt_reserve {
        Err(failure(TokenRecipesError::NumericalOverflow))
    } else if recipe.lamports - rent_exempt_reserve < accumulated_admin_fees {
        Err(failure(TokenRecipesError::NumericalOverflow))
    } else {
        match spec_assert_pda(recipe.key, program_id(), Recipe::spec_seeds(base)) {
            Err(e) => Err(e),
            Ok(bump) => if !admin_fees_destination.is_writable {
                Err(failure(TokenRecipesError::ExpectedWritableAccount))
            } else if admin_fees_destination.key != expected_admin_fees_destination {
                Err(failure(TokenRecipesError::AccountMismatch))
            } else {
                Ok(
                    seq![
                        EffectView::TransferLamports {
                            from: recipe.key,
                            to: authority.key,
                            lamports: (recipe.lamports - rent_exempt_reserve
                                - accumulated_admin_fees) as u64,
                            signer_seeds: spec_with_bump(Recipe::spec_seeds(base), bump),
                        },
                        EffectView::TransferLamports {
                            from: recipe.key,
                            to: admin_fees_destination.key,
                            lamports: accumulated_admin_fees,
                            signer_seeds: spec_with_bump(Recipe::spec_seeds(base), bump),
                        },
                    ],
                )
            },
        }
    }
}

/// Pays out the fees that a recipe holds. `rent_exempt_reserve` is the
/// storage deposit that the record of the recipe must keep.
pub fn collect_fees(
    accumulated_admin_fees: u64,
    expected_admin_fees_destination: &Pubkey,
    base: &Pubkey,
    recipe: &AccountInfo,
    authority: &AccountInfo,
    admin_fees_destination: &AccountInfo,
    rent_exempt_reserve: u64,
) -> (result: Result<Vec<Effect>, ProgramError>)
    ensures
        effects_match(
            result,
            spec_collect_fees(
                accumulated_admin_fees,
                *expected_admin_fees_destination,
                *base,
                *recipe,
                *authority,
                *admin_fees_destination,
                rent_exempt_reserve,
            ),
        ),
{
    let recipe_lamports = recipe.lamports();
    let recipe_lamports_minus_rent = match recipe_lamports.checked_sub(rent_exempt_reserve) {
        Some(lamports) => lamports,
        None => { return Err(ProgramError::from(TokenRecipesError::NumericalOverflow)); },
    };
    let authority_fees = match recipe_lamports_minus_rent.checked_sub(accumulated_admin_fees) {
        Some(lamports) => lamports,
        None => { return Err(ProgramError::from(TokenRecipesError::NumericalOverflow)); },
    };
    let bump = assert_pda(recipe, &id(), &Recipe::seeds(base))?;
    let mut effects = single_effect(
        transfer_lamports(
            recipe,
            authority,
            authority_fees,
            Some(with_bump(Recipe::seeds(base), bump)),
        ),
    );
    assert_writable(admin_fees_destination)?;
    assert_same_pubkeys(admin_fees_destination, expected_admin_fees_destination)?;
    push_effect(
        &mut effects,
        transfer_lamports(
            recipe,
            admin_fees_destination,
            accumulated_admin_fees,
            Some(with_bump(Recipe::seeds(base), bump)),
        ),
    );
    assert(effects.deep_view() =~= spec_collect_fees(
        accumulated_admin_fees,
        *expected_admin_fees_destination,
        *base,
        *recipe,
        *authority,
        *admin_fees_destination,
        rent_exempt_reserve,
    ).unwrap());
    Ok(effects)
}

/// What is asked for the shards that a recipe earned to be minted. The
/// record of the feature must stand at its derived address; the mint must
/// be the one that is expected, writable and a mint; the token account must
/// be writable and a token account of that mint, owned by the authority.
/// The shards are minted into it, signed in the name of the feature.
pub open spec fn spec_collect_shards(
    accumulated_shards: u64,
    expected_shards_mint: Pubkey,
    authority: AccountInfo,
    shards_mint: AccountInfo,
    shards_token: AccountInfo,
    fees_feature_pda: AccountInfo,
) -> Result<Seq<EffectView>, ProgramError> {
    match spec_assert_pda(fees_feature_pda.key, program_id(), FeesFeature::spec_seeds()) {
        Err(e) => Err(e),
        Ok(bump) => if shards_mint.key != expected_shards_mint {
            Err(failure(TokenRecipesError::AccountMismatch))
        } else if !shards_mint.is_writable {
            Err(failure(TokenRecipesError::ExpectedWritableAccount))
        } else {
            match spec_mint_account(shards_mint) {
                Err(e) => Err(e),
                Ok(mint_account) => if !shards_token.is_writable {
                    Err(failure(TokenRecipesError::ExpectedWritableAccount))
                } else {
                    match spec_token_account(shards_token) {
                        Err(e) => Err(e),
                        Ok(token_account) => if shards_mint.key != token_account.mint
                            || authority.key != token_account.owner {
                            Err(failure(TokenRecipesError::AccountMismatch))
                        } else {
                            Ok(
                                seq![
                                    EffectView::MintTokens {
                                        token: shards_token.key,
                                        mint: shards_mint.key,
                                        mint_authority: fees_feature_pda.key,
                                        amount: accumulated_shards,
                                        decimals: mint_account.decimals,
                                        signer_seeds: spec_with_bump(
                                            FeesFeature::spec_seeds(),
                                            bump,
                                        ),
                                    },
                                ],
                            )
                        },
                    }
                },
            }
        },
    }
}

/// Mints the shards that a recipe earned to its authority.
pub fn collect_shards(
    accumulated_shards: u64,
    expected_shards_mint: &Pubkey,
    authority: &AccountInfo,
    shards_mint: &AccountInfo,
    shards_token: &AccountInfo,
    fees_feature_pda: &AccountInfo,
) -> (result: Result<Vec<Effect>, ProgramError>)
    ensures
        effects_match(
            result,
            spec_collect_shards(
                accumulated_shards,
                *expected_shards_mint,
                *authority,
                *shards_mint,
                *shards_token,
                *fees_feature_pda,
            ),
        ),
{
    let bump = assert_pda(fees_feature_pda, &id(), &FeesFeature::seeds())?;
    assert_same_pubkeys(shards_mint, expected_shards_mint)?;
    assert_writable(shards_mint)?;
    let shards_mint_account = assert_mint_account(shards_mint)?;
    assert_writable(shards_token)?;
    let shards_token_account = assert_token_account(shards_token)?;
    assert_same_pubkeys(shards_mint, &shards_token_account.mint)?;
    assert_same_pubkeys(authority, &shards_token_account.owner)?;
    Ok(
        single_effect(
            mint_tokens(
                shards_token,
                shards_mint,
                fees_feature_pda,
                accumulated_shards,
                shards_mint_account.decimals,
                Some(with_bump(FeesFeature::seeds(), bump)),
            ),
        ),
    )
}

} // verus!
