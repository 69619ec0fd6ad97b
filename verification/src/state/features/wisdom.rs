//! The wisdom feature: how much experience a craft earns, and how what was
//! earned is paid out.

use vstd::prelude::*;
use vstd::slice::slice_to_vec;
use vstd::string::StringSliceAdditionalSpecFns;
use crate::account::AccountInfo;
use crate::assertions::{
    assert_account_key, assert_mint_account, assert_pda, assert_program_owner, assert_same_pubkeys,
    assert_token_account_or_create_ata, assert_writable, has_account_key, spec_assert_pda,
    spec_mint_account, spec_token_account_or_create_ata,
};
use crate::error::{failure, ProgramError, TokenRecipesError};
use crate::pubkey::{id, program_id, Pubkey};
use crate::state::features::{
    gates_within, keys_bytes, lemma_keys_bytes_len, lemma_keys_round_trip, parse_keys,
    spec_keys_bytes, spec_parse_keys, spec_unlock, unlock_feature_level, FeatureKind, Gate,
    UnlockFeatureContext,
};
use crate::state::features::fees::BASE_FEES;
use crate::state::key::Key;
use crate::state::recipe::{Recipe, RecipeView};
use crate::utils::{
    effects_match, mint_tokens, no_seeds, push_effect, push_seed, single_effect, spec_with_bump,
    with_bump, write_data, Effect, EffectView,
};

verus! {

/// The configuration of the feature that earns more experience: the token
/// that experience is minted in and the tokens that level the feature up.
#[derive(Clone, Copy, Debug, PartialEq, Eq)]
pub struct WisdomFeature {
    /// The tag of the record.
    pub key: Key,
    /// The token that experience is minted in.
    pub experience_mint: Pubkey,
    /// When burned, leads one level up, up to level 4.
    pub mint_burn_1: Pubkey,
    /// When burned, leads one level up, up to level 6.
    pub mint_burn_2: Pubkey,
}

impl WisdomFeature {
    /// The size of the record.
    pub const LEN: usize = 97;

    /// The highest level of the feature.
    pub const MAX_LEVEL: u8 = 6;

    /// The addresses of the record, in the order in which they are written.
    pub open spec fn spec_keys(self) -> Seq<Pubkey> {
        seq![
            self.experience_mint,
            self.mint_burn_1,
            self.mint_burn_2,
        ]
    }

    /// The record made of a tag and of addresses in the order in which they
    /// are written.
    pub open spec fn spec_from_keys(key: Key, keys: Seq<Pubkey>) -> WisdomFeature {
        WisdomFeature {
            key,
            experience_mint: keys[0],
            mint_burn_1: keys[1],
            mint_burn_2: keys[2],
        }
    }

    /// The bytes of the record: the tag, then the addresses in order.
    pub open spec fn spec_serialize(self) -> Seq<u8> {
        spec_keys_bytes(self.key, self.spec_keys())
    }

    /// The record that the bytes start with, if any.
    pub open spec fn spec_parse(data: Seq<u8>) -> Option<WisdomFeature> {
        match spec_parse_keys(data, 3) {
            Some((key, keys)) => Some(WisdomFeature::spec_from_keys(key, keys)),
            None => None,
        }
    }

    /// The bytes of the record.
    pub fn serialize(&self) -> (bytes: Vec<u8>)
        ensures
            bytes@ == self.spec_serialize(),
    {
        let mut keys: Vec<Pubkey> = Vec::new();
        keys.push(self.experience_mint);
        keys.push(self.mint_burn_1);
        keys.push(self.mint_burn_2);
        assert(keys@ =~= self.spec_keys());
        keys_bytes(self.key, &keys)
    }

    /// The record that the bytes start with, if any.
    pub fn deserialize(data: &[u8]) -> (parsed: Option<WisdomFeature>)
        ensures
            parsed == WisdomFeature::spec_parse(data@),
    {
        match parse_keys(data, 3) {
            Some((key, keys)) => Some(
                WisdomFeature {
                    key,
                    experience_mint: keys[0],
                    mint_burn_1: keys[1],
                    mint_burn_2: keys[2],
                },
            ),
            None => None,
        }
    }

    /// The record that an account holds, if its bytes start with one.
    pub open spec fn spec_load(account: AccountInfo) -> Result<
        WisdomFeature,
        ProgramError,
    > {
        match WisdomFeature::spec_parse(account.data@) {
            Some(feature) => Ok(feature),
            None => Err(failure(TokenRecipesError::DeserializationError)),
        }
    }

    /// Reads the record that an account holds. Fails with
    /// `DeserializationError` where its bytes do not start with one.
    pub fn load(account: &AccountInfo) -> (result: Result<WisdomFeature, ProgramError>)
        ensures
            result == WisdomFeature::spec_load(*account),
    {
        match WisdomFeature::deserialize(account.data.as_slice()) {
            Some(feature) => Ok(feature),
            None => Err(ProgramError::from(TokenRecipesError::DeserializationError)),
        }
    }

    /// Asks for the record to be written to its account.
    pub fn save(&self, account: &AccountInfo) -> (result: Result<Vec<Effect>, ProgramError>)
        ensures
            effects_match(
                result,
                Ok(seq![EffectView::Write { account: account.key, data: self.spec_serialize() }]),
            ),
    {
        Ok(single_effect(write_data(account, self.serialize())))
    }

    /// The seeds from which the address of the record is derived.
    pub open spec fn spec_seeds() -> Seq<Seq<u8>> {
        seq![("features").spec_bytes(), ("wisdom").spec_bytes()]
    }

    /// The seeds from which the address of the record is derived.
    pub fn seeds() -> (seeds: Vec<Vec<u8>>)
        ensures
            seeds.deep_view() == WisdomFeature::spec_seeds(),
    {
        let mut seeds = no_seeds();
        push_seed(&mut seeds, slice_to_vec("features".as_bytes()));
        push_seed(&mut seeds, slice_to_vec("wisdom".as_bytes()));
        assert(seeds.deep_view() =~= WisdomFeature::spec_seeds());
        seeds
    }

    /// The gates of the feature, in the order in which they are tried.
    pub open spec fn spec_gates(self) -> Seq<Gate> {
        seq![
            Gate { mint: self.mint_burn_1, ceiling: 4, jump: false, burn: true },
            Gate { mint: self.mint_burn_2, ceiling: 6, jump: false, burn: true },
        ]
    }

    /// The gates of the feature, in the order in which they are tried.
    pub fn gates(&self) -> (gates: Vec<Gate>)
        ensures
            gates@ == self.spec_gates(),
            gates_within(gates@, WisdomFeature::MAX_LEVEL),
    {
        let mut gates: Vec<Gate> = Vec::new();
        gates.push(Gate { mint: self.mint_burn_1, ceiling: 4, jump: false, burn: true });
        gates.push(Gate { mint: self.mint_burn_2, ceiling: 6, jump: false, burn: true });
        assert(gates@ =~= self.spec_gates());
        gates
    }

    /// Levels the feature of a recipe up by the token that is presented.
    /// Fails with `MaxFeatureLevelReached` where the recipe is at the highest
    /// level, and with `InvalidMintToLevelUpFeature` where the token opens
    /// no gate at the recipe's level.
    pub fn unlock(&self, context: &UnlockFeatureContext) -> (result: Result<
        Vec<Effect>,
        ProgramError,
    >)
        ensures
            effects_match(
                result,
                spec_unlock(
                    *context.recipe,
                    *context.owner,
                    *context.mint,
                    *context.token,
                    FeatureKind::Wisdom,
                    WisdomFeature::MAX_LEVEL,
                    self.spec_gates(),
                ),
            ),
    {
        unlock_feature_level(
            context,
            FeatureKind::Wisdom,
            WisdomFeature::MAX_LEVEL,
            &self.gates(),
        )
    }

    /// The record that an account of the program holds: the account must
    /// belong to the program, start with the tag of the feature, and hold
    /// the record.
    pub open spec fn spec_get(account: AccountInfo) -> Result<WisdomFeature, ProgramError> {
        if account.owner != program_id() {
            Err(failure(TokenRecipesError::InvalidProgramOwner))
        } else if !has_account_key(account.data@, Key::WisdomFeature) {
            Err(failure(TokenRecipesError::InvalidAccountKey))
        } else {
            WisdomFeature::spec_load(account)
        }
    }

    /// Reads the record out of an account of the program.
    pub fn get(account: &AccountInfo) -> (result: Result<WisdomFeature, ProgramError>)
        ensures
            result == WisdomFeature::spec_get(*account),
    {
        assert_program_owner(account, &id())?;
        assert_account_key(account, Key::WisdomFeature)?;
        WisdomFeature::load(account)
    }

}

/// A record that was written is read back, whatever stands behind it.
pub proof fn lemma_wisdom_feature_round_trip(feature: WisdomFeature, after: Seq<u8>)
    ensures
        WisdomFeature::spec_parse(feature.spec_serialize() + after) == Some(feature),
        feature.spec_serialize().len() == WisdomFeature::LEN,
{
    lemma_keys_bytes_len(feature.key, feature.spec_keys());
    lemma_keys_round_trip(feature.key, feature.spec_keys(), after);
}

/// The experience that one craft earns at a level of the feature.
pub open spec fn spec_wisdom_experience(level: u8) -> u64 {
    match level {
        1 => 125,
        2 => 150,
        3 => 175,
        4 => 200,
        5 => 250,
        6 => 300,
        _ => 100,
    }
}

/// The experience that one craft of a recipe earns: that of its level of
/// the feature, but none where the recipe keeps the whole fee, nor where it
/// sets its own fee below the base fee.
pub open spec fn spec_experience_per_craft(recipe: RecipeView) -> u64 {
    if recipe.feature_levels.fees == 10 && recipe.fees < BASE_FEES {
        0
    } else if recipe.feature_levels.fees == 11 {
        0
    } else {
        spec_wisdom_experience(recipe.feature_levels.wisdom)
    }
}

/// Returns the experience that one craft of the recipe earns.
pub fn get_experience_per_craft(recipe: &Recipe) -> (experience: u64)
    ensures
        experience == spec_experience_per_craft(recipe@),
{
    if recipe.feature_levels.fees == 10 && recipe.fees < BASE_FEES {
        return 0;
    }
    if recipe.feature_levels.fees == 11 {
        return 0;
    }
    match recipe.feature_levels.wisdom {
        1 => 125,
        2 => 150,
        3 => 175,
        4 => 200,
        5 => 250,
        6 => 300,
        _ => 100,
    }
}

/// What is asked for the experience that a recipe earned to be minted. The
/// record of the feature must stand at its derived address; the mint must
/// be the one that is expected, writable and a mint; the token account must
/// be a token account of that mint owned by the authority, or is created as
/// their associated token account. The experience is minted into it, signed
/// in the name of the feature.
pub open spec fn spec_collect_experience(
    accumulated_experience: u64,
    expected_experience_mint: Pubkey,
    authority: AccountInfo,
    experience_mint: AccountInfo,
    experience_token: AccountInfo,
    wisdom_feature_pda: AccountInfo,
    payer: AccountInfo,
) -> Result<Seq<EffectView>, ProgramError> {
    match spec_assert_pda(wisdom_feature_pda.key, program_id(), WisdomFeature::spec_seeds()) {
        Err(e) => Err(e),
        Ok(bump) => if experience_mint.key != expected_experience_mint {
            Err(failure(TokenRecipesError::AccountMismatch))
        } else if !experience_mint.is_writable {
            Err(failure(TokenRecipesError::ExpectedWritableAccount))
        } else {
            match spec_mint_account(experience_mint) {
                Err(e) => Err(e),
                Ok(mint_account) => match spec_token_account_or_create_ata(
                    experience_token,
                    experience_mint,
                    authority,
                    payer,
                ) {
                    Err(e) => Err(e),
                    Ok(created) => Ok(
                        created.push(
                            EffectView::MintTokens {
                                token: experience_token.key,
                                mint: experience_mint.key,
                                mint_authority: wisdom_feature_pda.key,
                                amount: accumulated_experience,
                                decimals: mint_account.decimals,
                                signer_seeds: spec_with_bump(WisdomFeature::spec_seeds(), bump),
                            },
                        ),
                    ),
                },
            }
        },
    }
}

/// Mints the experience that a recipe earned to its authority.
pub fn collect_experience(
    accumulated_experience: u64,
    expected_experience_mint: &Pubkey,
    authority: &AccountInfo,
    experience_mint: &AccountInfo,
    experience_token: &AccountInfo,
    wisdom_feature_pda: &AccountInfo,
    payer: &AccountInfo,
) -> (result: Result<Vec<Effect>, ProgramError>)
    ensures
        effects_match(
            result,
            spec_collect_experience(
                accumulated_experience,
                *expected_experience_mint,
                *authority,
                *experience_mint,
                *experience_token,
                *wisdom_feature_pda,
                *payer,
            ),
        ),
{
    let bump = assert_pda(wisdom_feature_pda, &id(), &WisdomFeature::seeds())?;
    assert_same_pubkeys(experience_mint, expected_experience_mint)?;
    assert_writable(experience_mint)?;
    let experience_mint_account = assert_mint_account(experience_mint)?;
    let mut effects = assert_token_account_or_create_ata(
        experience_token,
        experience_mint,
        authority,
        payer,
    )?;
    push_effect(
        &mut effects,
        mint_tokens(
            experience_token,
            experience_mint,
            wisdom_feature_pda,
            accumulated_experience,
            experience_mint_account.decimals,
            Some(with_bump(WisdomFeature::seeds(), bump)),
        ),
    );
    Ok(effects)
}

} // verus!
