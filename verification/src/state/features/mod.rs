//! The leveled capabilities of a recipe and the records that configure how
//! each is unlocked.

use vstd::prelude::*;
use vstd::slice::slice_subrange;
use crate::account::AccountInfo;
use crate::assertions::{assert_mint_account, spec_mint_account};
use crate::codec::{lemma_pubkey_round_trip, pubkey_at, put_pubkey, put_u8, spec_pubkey_at};
use crate::error::{failure, ProgramError, TokenRecipesError};
use crate::pubkey::Pubkey;
use crate::state::features::additional_outputs::AdditionalOutputsFeature;
use crate::state::features::fees::FeesFeature;
use crate::state::features::max_supply::MaxSupplyFeature;
use crate::state::features::sol_payment::SolPaymentFeature;
use crate::state::features::transfer_inputs::TransferInputsFeature;
use crate::state::features::wisdom::WisdomFeature;
use crate::state::key::{lemma_key_round_trip, Key};
use crate::state::recipe::{Recipe, RecipeView};
use crate::utils::{
    append_effects, burn_tokens, effects_match, no_effects, push_effect, Effect, EffectView,
};

pub mod additional_outputs;
pub mod fees;
pub mod max_supply;
pub mod sol_payment;
pub mod transfer_inputs;
pub mod wisdom;

verus! {

/// The level that a recipe has reached in each feature.
#[derive(Clone, Copy, Debug, PartialEq, Eq)]
pub struct FeatureLevels {
    pub fees: u8,
    pub additional_outputs: u8,
    pub transfer_inputs: u8,
    pub max_supply: u8,
    pub sol_payment: u8,
    pub wisdom: u8,
    /// Bytes kept free for features to come.
    pub _padding: [u8; 10],
}

/// The reserved bytes that `bytes` holds.
pub open spec fn padding_of(bytes: Seq<u8>) -> [u8; 10] {
    choose|padding: [u8; 10]| padding@ == bytes
}

/// The reserved bytes that hold the bytes of `padding` are `padding`.
pub proof fn lemma_padding_of_view(padding: [u8; 10])
    ensures
        padding_of(padding@) == padding,
{
    let other = padding_of(padding@);
    assert(other@ == padding@);
    assert(other =~= padding);
}

impl FeatureLevels {
    /// The number of bytes that the levels take in a recipe record.
    pub const LEN: usize = 16;

    /// The bytes of the levels in a recipe record: one byte for each
    /// feature, then the reserved bytes.
    pub open spec fn spec_serialize(self) -> Seq<u8> {
        seq![
            self.fees,
            self.additional_outputs,
            self.transfer_inputs,
            self.max_supply,
            self.sol_payment,
            self.wisdom,
        ] + self._padding@
    }

    /// The levels that the sixteen bytes of `data` from `at` on hold.
    pub open spec fn spec_parse_at(data: Seq<u8>, at: int) -> FeatureLevels {
        FeatureLevels {
            fees: data[at],
            additional_outputs: data[at + 1],
            transfer_inputs: data[at + 2],
            max_supply: data[at + 3],
            sol_payment: data[at + 4],
            wisdom: data[at + 5],
            _padding: padding_of(data.subrange(at + 6, at + 16)),
        }
    }

    /// Writes the levels behind the bytes of `out`.
    pub fn serialize(&self, out: &mut Vec<u8>)
        ensures
            final(out)@ == old(out)@ + self.spec_serialize(),
    {
        put_u8(out, self.fees);
        put_u8(out, self.additional_outputs);
        put_u8(out, self.transfer_inputs);
        put_u8(out, self.max_supply);
        put_u8(out, self.sol_payment);
        put_u8(out, self.wisdom);
        let ghost head = out@;
        let mut i: usize = 0;
        while i < 10
            invariant
                i <= 10,
                out@ == head + self._padding@.subrange(0, i as int),
            decreases 10 - i,
        {
            out.push(self._padding[i]);
            assert(out@ =~= head + self._padding@.subrange(0, i + 1));
            i += 1;
        }
        assert(out@ =~= old(out)@ + self.spec_serialize());
    }

    /// Reads the levels that start at `at`.
    pub fn deserialize_at(data: &[u8], at: usize) -> (levels: FeatureLevels)
        requires
            at + 16 <= data@.len(),
        ensures
            levels == FeatureLevels::spec_parse_at(data@, at as int),
    {
        let _len: usize = data.len();
        let mut padding = [0u8; 10];
        let mut i: usize = 0;
        while i < 10
            invariant
                i <= 10,
                at + 16 <= data@.len() <= usize::MAX,
                forall|j: int| 0 <= j < i ==> padding@[j] == data@[at + 6 + j],
            decreases 10 - i,
        {
            padding[i] = data[at + 6 + i];
            i += 1;
        }
        proof {
            assert(padding@ =~= data@.subrange(at + 6, at + 16));
            lemma_padding_of_view(padding);
        }
        FeatureLevels {
            fees: data[at],
            additional_outputs: data[at + 1],
            transfer_inputs: data[at + 2],
            max_supply: data[at + 3],
            sol_payment: data[at + 4],
            wisdom: data[at + 5],
            _padding: padding,
        }
    }
}

/// The levels of a new recipe: every feature at level 0, the reserved
/// bytes zero.
pub open spec fn spec_default_levels() -> FeatureLevels {
    FeatureLevels {
        fees: 0,
        additional_outputs: 0,
        transfer_inputs: 0,
        max_supply: 0,
        sol_payment: 0,
        wisdom: 0,
        _padding: padding_of(Seq::new(10, |i: int| 0u8)),
    }
}

impl Default for FeatureLevels {
    /// Every feature at level 0.
    fn default() -> (levels: FeatureLevels)
        ensures
            levels == spec_default_levels(),
    {
        let levels = FeatureLevels {
            fees: 0,
            additional_outputs: 0,
            transfer_inputs: 0,
            max_supply: 0,
            sol_payment: 0,
            wisdom: 0,
            _padding: [0u8; 10],
        };
        proof {
            assert(levels._padding@ =~= Seq::new(10, |i: int| 0u8));
            lemma_padding_of_view(levels._padding);
        }
        levels
    }
}

/// The features of a recipe.
#[derive(Clone, Copy, Debug, PartialEq, Eq, Structural)]
pub enum FeatureKind {
    Fees,
    AdditionalOutputs,
    TransferInputs,
    MaxSupply,
    SolPayment,
    Wisdom,
}

impl FeatureLevels {
    /// The level reached in a feature.
    pub open spec fn spec_level(self, kind: FeatureKind) -> u8 {
        match kind {
            FeatureKind::Fees => self.fees,
            FeatureKind::AdditionalOutputs => self.additional_outputs,
            FeatureKind::TransferInputs => self.transfer_inputs,
            FeatureKind::MaxSupply => self.max_supply,
            FeatureKind::SolPayment => self.sol_payment,
            FeatureKind::Wisdom => self.wisdom,
        }
    }

    /// The levels with that of one feature set to `level`.
    pub open spec fn spec_with_level(self, kind: FeatureKind, level: u8) -> FeatureLevels {
        match kind {
            FeatureKind::Fees => FeatureLevels { fees: level, ..self },
            FeatureKind::AdditionalOutputs => FeatureLevels { additional_outputs: level, ..self },
            FeatureKind::TransferInputs => FeatureLevels { transfer_inputs: level, ..self },
            FeatureKind::MaxSupply => FeatureLevels { max_supply: level, ..self },
            FeatureKind::SolPayment => FeatureLevels { sol_payment: level, ..self },
            FeatureKind::Wisdom => FeatureLevels { wisdom: level, ..self },
        }
    }

    /// The level reached in a feature.
    pub fn level(&self, kind: FeatureKind) -> (level: u8)
        ensures
            level == self.spec_level(kind),
    {
        match kind {
            FeatureKind::Fees => self.fees,
            FeatureKind::AdditionalOutputs => self.additional_outputs,
            FeatureKind::TransferInputs => self.transfer_inputs,
            FeatureKind::MaxSupply => self.max_supply,
            FeatureKind::SolPayment => self.sol_payment,
            FeatureKind::Wisdom => self.wisdom,
        }
    }

    /// Sets the level reached in a feature.
    pub fn set_level(&mut self, kind: FeatureKind, level: u8)
        ensures
            *final(self) == old(self).spec_with_level(kind, level),
    {
        match kind {
            FeatureKind::Fees => { self.fees = level; },
            FeatureKind::AdditionalOutputs => { self.additional_outputs = level; },
            FeatureKind::TransferInputs => { self.transfer_inputs = level; },
            FeatureKind::MaxSupply => { self.max_supply = level; },
            FeatureKind::SolPayment => { self.sol_payment = level; },
            FeatureKind::Wisdom => { self.wisdom = level; },
        }
    }
}

/// One way to level a feature up: a token that, presented by a recipe
/// below the ceiling, raises the level.
#[derive(Clone, Copy, Debug, PartialEq, Eq)]
pub struct Gate {
    /// The token to present.
    pub mint: Pubkey,
    /// The level from which on the token is of no use any more.
    pub ceiling: u8,
    /// Whether the token leads straight to the ceiling, or one level up.
    pub jump: bool,
    /// Whether one token is burned on the way.
    pub burn: bool,
}

impl Gate {
    /// Whether this one of the gates opens for a recipe at `level` that
    /// presents `mint`.
    pub open spec fn spec_opens(self, level: u8, mint: Pubkey) -> bool {
        mint == self.mint && level < self.ceiling
    }

    /// The level that a recipe at `level` reaches by it.
    pub open spec fn spec_leads_to(self, level: u8) -> u8 {
        if self.jump {
            self.ceiling
        } else {
            (level + 1) as u8
        }
    }
}

/// The first gate that opens for a recipe at `level` that presents `mint`.
pub open spec fn first_open_gate(gates: Seq<Gate>, level: u8, mint: Pubkey) -> Option<Gate>
    decreases gates.len(),
{
    if gates.len() == 0 {
        None
    } else if gates[0].spec_opens(level, mint) {
        Some(gates[0])
    } else {
        first_open_gate(gates.drop_first(), level, mint)
    }
}

/// The level that a recipe at `level` reaches by presenting `mint`, and
/// whether a token is burned for it: `MaxFeatureLevelReached` at the
/// feature's highest level, `InvalidMintToLevelUpFeature` where no gate
/// opens.
pub open spec fn spec_unlock_level(
    level: u8,
    max_level: u8,
    gates: Seq<Gate>,
    mint: Pubkey,
) -> Result<
    (u8, bool),
    ProgramError,
> {
    if level >= max_level {
        Err(failure(TokenRecipesError::MaxFeatureLevelReached))
    } else {
        match first_open_gate(gates, level, mint) {
            None => Err(failure(TokenRecipesError::InvalidMintToLevelUpFeature)),
            Some(gate) => Ok((gate.spec_leads_to(level), gate.burn)),
        }
    }
}

/// Decides the level that a recipe reaches by presenting a token, and
/// whether a token is burned for it.
pub fn unlock_level(level: u8, max_level: u8, gates: &Vec<Gate>, mint: &Pubkey) -> (result: Result<
    (u8, bool),
    ProgramError,
>)
    ensures
        result == spec_unlock_level(level, max_level, gates@, *mint),
{
    if level >= max_level {
        return Err(ProgramError::from(TokenRecipesError::MaxFeatureLevelReached));
    }
    let mut i: usize = 0;
    assert(gates@.subrange(0, gates@.len() as int) =~= gates@);
    while i < gates.len()
        invariant
            i <= gates@.len(),
            level < max_level,
            first_open_gate(gates@, level, *mint) == first_open_gate(
                gates@.subrange(i as int, gates@.len() as int),
                level,
                *mint,
            ),
        decreases gates@.len() - i,
    {
        let gate = gates[i];
        proof {
            let rest = gates@.subrange(i as int, gates@.len() as int);
            assert(rest[0] == gate);
            assert(rest.drop_first() =~= gates@.subrange(i + 1, gates@.len() as int));
        }
        if *mint == gate.mint && level < gate.ceiling {
            let next = if gate.jump {
                gate.ceiling
            } else {
                level + 1
            };
            return Ok((next, gate.burn));
        }
        i += 1;
    }
    Err(ProgramError::from(TokenRecipesError::InvalidMintToLevelUpFeature))
}

/// Whether every gate of a feature stays within the feature's levels.
pub open spec fn gates_within(gates: Seq<Gate>, max_level: u8) -> bool {
    forall|i: int| 0 <= i < gates.len() ==> (#[trigger] gates[i]).ceiling <= max_level
}

/// A gate that opens is one of the gates, and opens.
pub proof fn lemma_first_open_gate(gates: Seq<Gate>, level: u8, mint: Pubkey)
    ensures
        match first_open_gate(gates, level, mint) {
            Some(gate) => gate.spec_opens(level, mint) && gates.contains(gate),
            None => forall|i: int|
                0 <= i < gates.len() ==> !(#[trigger] gates[i]).spec_opens(level, mint),
        },
    decreases gates.len(),
{
    if gates.len() == 0 {
    } else if gates[0].spec_opens(level, mint) {
    } else {
        let rest = gates.drop_first();
        lemma_first_open_gate(rest, level, mint);
        match first_open_gate(rest, level, mint) {
            Some(gate) => {
                let i = choose|i: int| 0 <= i < rest.len() && rest[i] == gate;
                assert(gates[i + 1] == gate);
            },
            None => {
                assert forall|i: int| 0 <= i < gates.len() implies !(
                #[trigger] gates[i]).spec_opens(level, mint) by {
                    if i > 0 {
                        assert(rest[i - 1] == gates[i]);
                    }
                }
            },
        }
    }
}

/// Unlocking never lowers a level and never leads beyond the highest level
/// of the feature: where it succeeds, the level reached is above the level
/// before and at most the highest.
pub proof fn lemma_unlock_level_is_monotonic(
    level: u8,
    max_level: u8,
    gates: Seq<Gate>,
    mint: Pubkey,
)
    requires
        gates_within(gates, max_level),
    ensures
        match spec_unlock_level(level, max_level, gates, mint) {
            Ok((next, _)) => level < next <= max_level,
            Err(_) => true,
        },
{
    lemma_first_open_gate(gates, level, mint);
}

/// The bytes of a record made of a tag and addresses: the tag, then the
/// addresses in order.
pub open spec fn spec_keys_bytes(key: Key, keys: Seq<Pubkey>) -> Seq<u8>
    decreases keys.len(),
{
    if keys.len() == 0 {
        seq![key.spec_byte()]
    } else {
        spec_keys_bytes(key, keys.drop_last()) + keys.last()@
    }
}

/// The `count` addresses that stand behind the tag of a record.
pub open spec fn spec_keys_at(data: Seq<u8>, count: nat) -> Seq<Pubkey> {
    Seq::new(count, |i: int| spec_pubkey_at(data, 1 + 32 * i))
}

/// The tag and the `count` addresses that the bytes start with, if any.
pub open spec fn spec_parse_keys(data: Seq<u8>, count: nat) -> Option<(Key, Seq<Pubkey>)> {
    if data.len() < 1 + 32 * count {
        None
    } else {
        match Key::spec_from_byte(data[0]) {
            None => None,
            Some(key) => Some((key, spec_keys_at(data, count))),
        }
    }
}

/// Writes a tag and addresses.
pub fn keys_bytes(key: Key, keys: &Vec<Pubkey>) -> (bytes: Vec<u8>)
    ensures
        bytes@ == spec_keys_bytes(key, keys@),
{
    let mut out: Vec<u8> = Vec::new();
    put_u8(&mut out, key.to_byte());
    assert(out@ =~= spec_keys_bytes(key, keys@.subrange(0, 0)));
    let mut i: usize = 0;
    while i < keys.len()
        invariant
            i <= keys@.len(),
            out@ == spec_keys_bytes(key, keys@.subrange(0, i as int)),
        decreases keys@.len() - i,
    {
        put_pubkey(&mut out, &keys[i]);
        proof {
            let upto = keys@.subrange(0, i + 1);
            assert(upto.drop_last() =~= keys@.subrange(0, i as int));
            assert(upto.last() == keys@[i as int]);
        }
        i += 1;
    }
    assert(keys@.subrange(0, i as int) =~= keys@);
    out
}

/// Reads a tag and `count` addresses.
pub fn parse_keys(data: &[u8], count: usize) -> (parsed: Option<(Key, Vec<Pubkey>)>)
    ensures
        match parsed {
            Some((key, keys)) => spec_parse_keys(data@, count as nat) == Some((key, keys@)),
            None => spec_parse_keys(data@, count as nat) is None,
        },
{
    let len = data.len();
    let needed = match count.checked_mul(32) {
        Some(bytes) => bytes.checked_add(1),
        None => None,
    };
    match needed {
        Some(needed) => {
            if len < needed {
                return None;
            }
        },
        None => {
            assert(1 + 32 * count > usize::MAX >= len);
            return None;
        },
    }
    let key = match Key::from_byte(data[0]) {
        Some(key) => key,
        None => { return None; },
    };
    let mut keys: Vec<Pubkey> = Vec::new();
    let mut i: usize = 0;
    while i < count
        invariant
            i <= count,
            usize::MAX >= data@.len() >= 1 + 32 * count,
            keys@ == spec_keys_at(data@, i as nat),
        decreases count - i,
    {
        keys.push(pubkey_at(data, 1 + 32 * i));
        assert(keys@ =~= spec_keys_at(data@, (i + 1) as nat));
        i += 1;
    }
    Some((key, keys))
}

/// The bytes of a tag and addresses are one more than 32 for each address.
pub proof fn lemma_keys_bytes_len(key: Key, keys: Seq<Pubkey>)
    ensures
        spec_keys_bytes(key, keys).len() == 1 + 32 * keys.len(),
    decreases keys.len(),
{
    if keys.len() > 0 {
        lemma_keys_bytes_len(key, keys.drop_last());
    }
}

/// A tag and addresses that were written are read back, whatever stands
/// behind them.
pub proof fn lemma_keys_round_trip(key: Key, keys: Seq<Pubkey>, after: Seq<u8>)
    ensures
        spec_parse_keys(spec_keys_bytes(key, keys) + after, keys.len()) == Some((key, keys)),
    decreases keys.len(),
{
    let all = spec_keys_bytes(key, keys) + after;
    lemma_keys_bytes_len(key, keys);
    lemma_key_round_trip(key);
    if keys.len() == 0 {
        assert(spec_keys_at(all, 0) =~= keys);
    } else {
        let front = keys.drop_last();
        let last = keys.last();
        lemma_keys_bytes_len(key, front);
        lemma_keys_round_trip(key, front, last@ + after);
        assert(all =~= spec_keys_bytes(key, front) + (last@ + after));
        assert(all =~= spec_keys_bytes(key, front) + last@ + after);
        lemma_pubkey_round_trip(spec_keys_bytes(key, front), last, after);
        assert(spec_keys_at(all, keys.len()) =~= keys) by {
            assert(spec_keys_at(all, front.len()) == front);
            assert forall|i: int| 0 <= i < keys.len() implies spec_keys_at(all, keys.len())[i]
                == keys[i] by {
                if i < front.len() {
                    assert(spec_keys_at(all, front.len())[i] == front[i]);
                }
            }
        }
        assert(all[0] == spec_keys_bytes(key, front)[0]);
    }
}

/// The records that an unlocking reads: the recipe, the holder of the token
/// that is presented, the token's mint, and the holder's token account.
pub struct UnlockFeatureContext<'a> {
    pub recipe: &'a AccountInfo,
    pub owner: &'a AccountInfo,
    pub mint: &'a AccountInfo,
    pub token: &'a AccountInfo,
}

/// The custom fee that a recipe starts with when it first reaches the level
/// from which on it sets its own: the base fee.
pub open spec fn spec_seeded_fees(kind: FeatureKind, level: u8, next: u8, fees: u64) -> u64 {
    if kind == FeatureKind::Fees && level < 10 && next >= 10 {
        fees::BASE_FEES
    } else {
        fees
    }
}

/// The recipe after one of its features went from its level to `next`.
pub open spec fn spec_leveled_up(recipe: RecipeView, kind: FeatureKind, next: u8) -> RecipeView {
    RecipeView {
        feature_levels: recipe.feature_levels.spec_with_level(kind, next),
        fees: spec_seeded_fees(kind, recipe.feature_levels.spec_level(kind), next, recipe.fees),
        ..recipe
    }
}

/// What is asked when a recipe presents a token to level a feature up. The
/// recipe is read from its writable record; the level it reaches is decided
/// by the gates; where a token is to be burned, the mint is checked and one token is
/// burned; the recipe is then written with its new level.
pub open spec fn spec_unlock(
    recipe: AccountInfo,
    owner: AccountInfo,
    mint: AccountInfo,
    token: AccountInfo,
    kind: FeatureKind,
    max_level: u8,
    gates: Seq<Gate>,
) -> Result<Seq<EffectView>, ProgramError> {
    match Recipe::spec_get_writable(recipe) {
        Err(e) => Err(e),
        Ok(recipe_account) => match spec_unlock_level(
            recipe_account.feature_levels.spec_level(kind),
            max_level,
            gates,
            mint.key,
        ) {
            Err(e) => Err(e),
            Ok((next, burn)) => {
                let saved = Recipe::spec_save(spec_leveled_up(recipe_account, kind, next), recipe);
                if burn {
                    match spec_mint_account(mint) {
                        Err(e) => Err(e),
                        Ok(mint_account) => match saved {
                            Err(e) => Err(e),
                            Ok(written) => Ok(
                                seq![
                                    EffectView::BurnTokens {
                                        token: token.key,
                                        mint: mint.key,
                                        owner: owner.key,
                                        amount: 1,
                                        decimals: mint_account.decimals,
                                    },
                                ] + written,
                            ),
                        },
                    }
                } else {
                    saved
                }
            },
        },
    }
}

/// Levels a feature of a recipe up by the gates of the feature.
pub fn unlock_feature_level(
    context: &UnlockFeatureContext,
    kind: FeatureKind,
    max_level: u8,
    gates: &Vec<Gate>,
) -> (result: Result<Vec<Effect>, ProgramError>)
    ensures
        effects_match(
            result,
            spec_unlock(
                *context.recipe,
                *context.owner,
                *context.mint,
                *context.token,
                kind,
                max_level,
                gates@,
            ),
        ),
{
    let mut recipe_account = Recipe::get_writable(context.recipe)?;
    let ghost before = recipe_account@;
    let level = recipe_account.feature_levels.level(kind);
    let (next, burn) = unlock_level(level, max_level, gates, &context.mint.key)?;
    recipe_account.feature_levels.set_level(kind, next);
    let mut effects = no_effects();
    if burn {
        let mint_account = assert_mint_account(context.mint)?;
        push_effect(
            &mut effects,
            burn_tokens(context.token, context.mint, context.owner, 1, mint_account.decimals),
        );
    }
    match kind {
        FeatureKind::Fees => {
            if level < 10 && next >= 10 {
                recipe_account.fees = fees::BASE_FEES;
            }
        },
        _ => {},
    }
    assert(recipe_account@ == spec_leveled_up(before, kind, next));
    let save = recipe_account.save(context.recipe)?;
    append_effects(&mut effects, save);
    assert(effects.deep_view() =~= spec_unlock(
        *context.recipe,
        *context.owner,
        *context.mint,
        *context.token,
        kind,
        max_level,
        gates@,
    ).unwrap());
    Ok(effects)
}

/// The configuration of one feature.
#[derive(Clone, Copy, Debug, PartialEq, Eq)]
pub enum Feature {
    Fees(FeesFeature),
    AdditionalOutputs(AdditionalOutputsFeature),
    TransferInputs(TransferInputsFeature),
    MaxSupply(MaxSupplyFeature),
    SolPayment(SolPaymentFeature),
    Wisdom(WisdomFeature),
}

impl Feature {
    /// The feature that the configuration is of.
    pub open spec fn spec_kind(self) -> FeatureKind {
        match self {
            Feature::Fees(_) => FeatureKind::Fees,
            Feature::AdditionalOutputs(_) => FeatureKind::AdditionalOutputs,
            Feature::TransferInputs(_) => FeatureKind::TransferInputs,
            Feature::MaxSupply(_) => FeatureKind::MaxSupply,
            Feature::SolPayment(_) => FeatureKind::SolPayment,
            Feature::Wisdom(_) => FeatureKind::Wisdom,
        }
    }

    /// The tag that the record of the configuration starts with.
    pub open spec fn spec_key(self) -> Key {
        match self {
            Feature::Fees(feature) => feature.key,
            Feature::AdditionalOutputs(feature) => feature.key,
            Feature::TransferInputs(feature) => feature.key,
            Feature::MaxSupply(feature) => feature.key,
            Feature::SolPayment(feature) => feature.key,
            Feature::Wisdom(feature) => feature.key,
        }
    }

    /// The highest level of the feature.
    pub open spec fn spec_max_level(self) -> u8 {
        match self {
            Feature::Fees(_) => FeesFeature::MAX_LEVEL,
            Feature::AdditionalOutputs(_) => AdditionalOutputsFeature::MAX_LEVEL,
            Feature::TransferInputs(_) => TransferInputsFeature::MAX_LEVEL,
            Feature::MaxSupply(_) => MaxSupplyFeature::MAX_LEVEL,
            Feature::SolPayment(_) => SolPaymentFeature::MAX_LEVEL,
            Feature::Wisdom(_) => WisdomFeature::MAX_LEVEL,
        }
    }

    /// The gates of the feature, in the order in which they are tried.
    pub open spec fn spec_gates(self) -> Seq<Gate> {
        match self {
            Feature::Fees(feature) => feature.spec_gates(),
            Feature::AdditionalOutputs(feature) => feature.spec_gates(),
            Feature::TransferInputs(feature) => feature.spec_gates(),
            Feature::MaxSupply(feature) => feature.spec_gates(),
            Feature::SolPayment(feature) => feature.spec_gates(),
            Feature::Wisdom(feature) => feature.spec_gates(),
        }
    }

    /// The bytes of the record of the configuration.
    pub open spec fn spec_record(self) -> Seq<u8> {
        match self {
            Feature::Fees(feature) => feature.spec_serialize(),
            Feature::AdditionalOutputs(feature) => feature.spec_serialize(),
            Feature::TransferInputs(feature) => feature.spec_serialize(),
            Feature::MaxSupply(feature) => feature.spec_serialize(),
            Feature::SolPayment(feature) => feature.spec_serialize(),
            Feature::Wisdom(feature) => feature.spec_serialize(),
        }
    }

    /// The tag that the record of the feature must start with.
    pub open spec fn spec_expected_key(self) -> Key {
        match self {
            Feature::Fees(_) => Key::FeesFeature,
            Feature::AdditionalOutputs(_) => Key::AdditionalOutputsFeature,
            Feature::TransferInputs(_) => Key::TransferInputsFeature,
            Feature::MaxSupply(_) => Key::MaxSupplyFeature,
            Feature::SolPayment(_) => Key::SolPaymentFeature,
            Feature::Wisdom(_) => Key::WisdomFeature,
        }
    }

    /// The size of the record of the configuration.
    pub open spec fn spec_len(self) -> usize {
        match self {
            Feature::Fees(_) => FeesFeature::LEN,
            Feature::AdditionalOutputs(_) => AdditionalOutputsFeature::LEN,
            Feature::TransferInputs(_) => TransferInputsFeature::LEN,
            Feature::MaxSupply(_) => MaxSupplyFeature::LEN,
            Feature::SolPayment(_) => SolPaymentFeature::LEN,
            Feature::Wisdom(_) => WisdomFeature::LEN,
        }
    }

    /// The seeds from which the address of the record is derived.
    pub open spec fn spec_seeds(self) -> Seq<Seq<u8>> {
        match self {
            Feature::Fees(_) => FeesFeature::spec_seeds(),
            Feature::AdditionalOutputs(_) => AdditionalOutputsFeature::spec_seeds(),
            Feature::TransferInputs(_) => TransferInputsFeature::spec_seeds(),
            Feature::MaxSupply(_) => MaxSupplyFeature::spec_seeds(),
            Feature::SolPayment(_) => SolPaymentFeature::spec_seeds(),
            Feature::Wisdom(_) => WisdomFeature::spec_seeds(),
        }
    }

    /// The tag that the configuration carries.
    pub fn key(&self) -> (key: Key)
        ensures
            key == self.spec_key(),
    {
        match self {
            Feature::Fees(feature) => feature.key,
            Feature::AdditionalOutputs(feature) => feature.key,
            Feature::TransferInputs(feature) => feature.key,
            Feature::MaxSupply(feature) => feature.key,
            Feature::SolPayment(feature) => feature.key,
            Feature::Wisdom(feature) => feature.key,
        }
    }

    /// The tag that the record of the feature must start with.
    pub fn expected_key(&self) -> (key: Key)
        ensures
            key == self.spec_expected_key(),
    {
        match self {
            Feature::Fees(_) => Key::FeesFeature,
            Feature::AdditionalOutputs(_) => Key::AdditionalOutputsFeature,
            Feature::TransferInputs(_) => Key::TransferInputsFeature,
            Feature::MaxSupply(_) => Key::MaxSupplyFeature,
            Feature::SolPayment(_) => Key::SolPaymentFeature,
            Feature::Wisdom(_) => Key::WisdomFeature,
        }
    }

    /// The size of the record of the configuration.
    pub fn len(&self) -> (len: usize)
        ensures
            len == self.spec_len(),
    {
        match self {
            Feature::Fees(_) => FeesFeature::LEN,
            Feature::AdditionalOutputs(_) => AdditionalOutputsFeature::LEN,
            Feature::TransferInputs(_) => TransferInputsFeature::LEN,
            Feature::MaxSupply(_) => MaxSupplyFeature::LEN,
            Feature::SolPayment(_) => SolPaymentFeature::LEN,
            Feature::Wisdom(_) => WisdomFeature::LEN,
        }
    }

    /// The seeds from which the address of the record is derived.
    pub fn seeds(&self) -> (seeds: Vec<Vec<u8>>)
        ensures
            seeds.deep_view() == self.spec_seeds(),
    {
        match self {
            Feature::Fees(_) => FeesFeature::seeds(),
            Feature::AdditionalOutputs(_) => AdditionalOutputsFeature::seeds(),
            Feature::TransferInputs(_) => TransferInputsFeature::seeds(),
            Feature::MaxSupply(_) => MaxSupplyFeature::seeds(),
            Feature::SolPayment(_) => SolPaymentFeature::seeds(),
            Feature::Wisdom(_) => WisdomFeature::seeds(),
        }
    }

    /// Levels the feature of a recipe up by the token that is presented.
    pub fn unlock(
        &self,
        context: &UnlockFeatureContext,
    ) -> (result: Result<Vec<Effect>, ProgramError>)
        ensures
            effects_match(
                result,
                spec_unlock(
                    *context.recipe,
                    *context.owner,
                    *context.mint,
                    *context.token,
                    self.spec_kind(),
                    self.spec_max_level(),
                    self.spec_gates(),
                ),
            ),
    {
        match self {
            Feature::Fees(feature) => feature.unlock(context),
            Feature::AdditionalOutputs(feature) => feature.unlock(context),
            Feature::TransferInputs(feature) => feature.unlock(context),
            Feature::MaxSupply(feature) => feature.unlock(context),
            Feature::SolPayment(feature) => feature.unlock(context),
            Feature::Wisdom(feature) => feature.unlock(context),
        }
    }

    /// The configuration that a record holds, told by the tag that the
    /// record starts with: `InvalidAccountKey` where the record is empty or
    /// the tag is of no feature, `DeserializationError` where the record
    /// does not hold the configuration that its tag says.
    pub open spec fn spec_load(account: AccountInfo) -> Result<Feature, ProgramError> {
        if account.data@.len() == 0 {
            Err(failure(TokenRecipesError::InvalidAccountKey))
        } else {
            match Key::spec_from_byte(account.data@[0]) {
                Some(Key::FeesFeature) => match FeesFeature::spec_load(
                    account,
                ) {
                    Ok(feature) => Ok(Feature::Fees(feature)),
                    Err(e) => Err(e),
                },
                Some(Key::AdditionalOutputsFeature) => match AdditionalOutputsFeature::spec_load(
                    account,
                ) {
                    Ok(feature) => Ok(Feature::AdditionalOutputs(feature)),
                    Err(e) => Err(e),
                },
                Some(Key::TransferInputsFeature) => match TransferInputsFeature::spec_load(
                    account,
                ) {
                    Ok(feature) => Ok(Feature::TransferInputs(feature)),
                    Err(e) => Err(e),
                },
                Some(Key::MaxSupplyFeature) => match MaxSupplyFeature::spec_load(
                    account,
                ) {
                    Ok(feature) => Ok(Feature::MaxSupply(feature)),
                    Err(e) => Err(e),
                },
                Some(Key::SolPaymentFeature) => match SolPaymentFeature::spec_load(
                    account,
                ) {
                    Ok(feature) => Ok(Feature::SolPayment(feature)),
                    Err(e) => Err(e),
                },
                Some(Key::WisdomFeature) => match WisdomFeature::spec_load(
                    account,
                ) {
                    Ok(feature) => Ok(Feature::Wisdom(feature)),
                    Err(e) => Err(e),
                },
                _ => Err(failure(TokenRecipesError::InvalidAccountKey)),
            }
        }
    }

    /// Reads the configuration of a feature out of its record.
    pub fn load(account: &AccountInfo) -> (result: Result<Feature, ProgramError>)
        ensures
            result == Feature::spec_load(*account),
    {
        if account.data_is_empty() {
            return Err(ProgramError::from(TokenRecipesError::InvalidAccountKey));
        }
        match Key::from_byte(account.data[0]) {
            Some(Key::FeesFeature) => Ok(
                Feature::Fees(FeesFeature::load(account)?),
            ),
            Some(Key::AdditionalOutputsFeature) => Ok(
                Feature::AdditionalOutputs(AdditionalOutputsFeature::load(account)?),
            ),
            Some(Key::TransferInputsFeature) => Ok(
                Feature::TransferInputs(TransferInputsFeature::load(account)?),
            ),
            Some(Key::MaxSupplyFeature) => Ok(
                Feature::MaxSupply(MaxSupplyFeature::load(account)?),
            ),
            Some(Key::SolPaymentFeature) => Ok(
                Feature::SolPayment(SolPaymentFeature::load(account)?),
            ),
            Some(Key::WisdomFeature) => Ok(
                Feature::Wisdom(WisdomFeature::load(account)?),
            ),
            _ => Err(ProgramError::from(TokenRecipesError::InvalidAccountKey)),
        }
    }

    /// Asks for the configuration to be written to its record.
    pub fn save(&self, account: &AccountInfo) -> (result: Result<Vec<Effect>, ProgramError>)
        ensures
            effects_match(
                result,
                Ok(seq![EffectView::Write { account: account.key, data: self.spec_record() }]),
            ),
    {
        match self {
            Feature::Fees(feature) => feature.save(account),
            Feature::AdditionalOutputs(feature) => feature.save(account),
            Feature::TransferInputs(feature) => feature.save(account),
            Feature::MaxSupply(feature) => feature.save(account),
            Feature::SolPayment(feature) => feature.save(account),
            Feature::Wisdom(feature) => feature.save(account),
        }
    }

    /// The bytes of the configuration in an instruction payload: the tag of
    /// the variant, then the record.
    pub open spec fn spec_serialize(self) -> Seq<u8> {
        match self {
            Feature::Fees(feature) => seq![0u8] + feature.spec_serialize(),
            Feature::AdditionalOutputs(feature) => seq![1u8] + feature.spec_serialize(),
            Feature::TransferInputs(feature) => seq![2u8] + feature.spec_serialize(),
            Feature::MaxSupply(feature) => seq![3u8] + feature.spec_serialize(),
            Feature::SolPayment(feature) => seq![4u8] + feature.spec_serialize(),
            Feature::Wisdom(feature) => seq![5u8] + feature.spec_serialize(),
        }
    }

    /// The configuration that the bytes of `data` from the first on hold,
    /// and the number of bytes that it takes; `None` where they hold none.
    pub open spec fn spec_parse(data: Seq<u8>) -> Option<(Feature, nat)> {
        if data.len() == 0 {
            None
        } else {
            let rest = data.subrange(1, data.len() as int);
            match data[0] {
                0 => match FeesFeature::spec_parse(rest) {
                    Some(feature) => Some(
                        (Feature::Fees(feature), (1 + FeesFeature::LEN) as nat),
                    ),
                    None => None,
                },
                1 => match AdditionalOutputsFeature::spec_parse(rest) {
                    Some(feature) => Some(
                        (
                            Feature::AdditionalOutputs(feature),
                            (1 + AdditionalOutputsFeature::LEN) as nat,
                        ),
                    ),
                    None => None,
                },
                2 => match TransferInputsFeature::spec_parse(rest) {
                    Some(feature) => Some(
                        (Feature::TransferInputs(feature), (1 + TransferInputsFeature::LEN) as nat),
                    ),
                    None => None,
                },
                3 => match MaxSupplyFeature::spec_parse(rest) {
                    Some(feature) => Some(
                        (Feature::MaxSupply(feature), (1 + MaxSupplyFeature::LEN) as nat),
                    ),
                    None => None,
                },
                4 => match SolPaymentFeature::spec_parse(rest) {
                    Some(feature) => Some(
                        (Feature::SolPayment(feature), (1 + SolPaymentFeature::LEN) as nat),
                    ),
                    None => None,
                },
                5 => match WisdomFeature::spec_parse(rest) {
                    Some(feature) => Some(
                        (Feature::Wisdom(feature), (1 + WisdomFeature::LEN) as nat),
                    ),
                    None => None,
                },
                _ => None,
            }
        }
    }

    /// Writes the configuration as it stands in an instruction payload.
    pub fn serialize(&self) -> (bytes: Vec<u8>)
        ensures
            bytes@ == self.spec_serialize(),
    {
        let mut out: Vec<u8> = Vec::new();
        let mut record = match self {
            Feature::Fees(feature) => {
                put_u8(&mut out, 0);
                feature.serialize()
            },
            Feature::AdditionalOutputs(feature) => {
                put_u8(&mut out, 1);
                feature.serialize()
            },
            Feature::TransferInputs(feature) => {
                put_u8(&mut out, 2);
                feature.serialize()
            },
            Feature::MaxSupply(feature) => {
                put_u8(&mut out, 3);
                feature.serialize()
            },
            Feature::SolPayment(feature) => {
                put_u8(&mut out, 4);
                feature.serialize()
            },
            Feature::Wisdom(feature) => {
                put_u8(&mut out, 5);
                feature.serialize()
            },
        };
        out.append(&mut record);
        assert(out@ =~= self.spec_serialize());
        out
    }

    /// Reads the configuration that an instruction payload holds.
    pub fn deserialize(data: &[u8]) -> (parsed: Option<(Feature, usize)>)
        ensures
            match parsed {
                Some((feature, len)) => Feature::spec_parse(data@) == Some((feature, len as nat)),
                None => Feature::spec_parse(data@) is None,
            },
    {
        if data.len() == 0 {
            return None;
        }
        let rest = slice_subrange(data, 1, data.len());
        match data[0] {
            0 => match FeesFeature::deserialize(rest) {
                Some(feature) => Some(
                    (Feature::Fees(feature), 1 + FeesFeature::LEN),
                ),
                None => None,
            },
            1 => match AdditionalOutputsFeature::deserialize(rest) {
                Some(feature) => Some(
                    (Feature::AdditionalOutputs(feature), 1 + AdditionalOutputsFeature::LEN),
                ),
                None => None,
            },
            2 => match TransferInputsFeature::deserialize(rest) {
                Some(feature) => Some(
                    (Feature::TransferInputs(feature), 1 + TransferInputsFeature::LEN),
                ),
                None => None,
            },
            3 => match MaxSupplyFeature::deserialize(rest) {
                Some(feature) => Some(
                    (Feature::MaxSupply(feature), 1 + MaxSupplyFeature::LEN),
                ),
                None => None,
            },
            4 => match SolPaymentFeature::deserialize(rest) {
                Some(feature) => Some(
                    (Feature::SolPayment(feature), 1 + SolPaymentFeature::LEN),
                ),
                None => None,
            },
            5 => match WisdomFeature::deserialize(rest) {
                Some(feature) => Some(
                    (Feature::Wisdom(feature), 1 + WisdomFeature::LEN),
                ),
                None => None,
            },
            _ => None,
        }
    }
}

/// A configuration that was written into an instruction payload is read
/// back, whatever stands behind it.
pub proof fn lemma_feature_round_trip(feature: Feature, after: Seq<u8>)
    ensures
        Feature::spec_parse(feature.spec_serialize() + after) == Some(
            (feature, feature.spec_serialize().len()),
        ),
{
    let all = feature.spec_serialize() + after;
    let rest = all.subrange(1, all.len() as int);
    match feature {
        Feature::Fees(inner) => {
            fees::lemma_fees_feature_round_trip(inner, after);
            assert(rest =~= inner.spec_serialize() + after);
        },
        Feature::AdditionalOutputs(inner) => {
            additional_outputs::lemma_additional_outputs_feature_round_trip(inner, after);
            assert(rest =~= inner.spec_serialize() + after);
        },
        Feature::TransferInputs(inner) => {
            transfer_inputs::lemma_transfer_inputs_feature_round_trip(inner, after);
            assert(rest =~= inner.spec_serialize() + after);
        },
        Feature::MaxSupply(inner) => {
            max_supply::lemma_max_supply_feature_round_trip(inner, after);
            assert(rest =~= inner.spec_serialize() + after);
        },
        Feature::SolPayment(inner) => {
            sol_payment::lemma_sol_payment_feature_round_trip(inner, after);
            assert(rest =~= inner.spec_serialize() + after);
        },
        Feature::Wisdom(inner) => {
            wisdom::lemma_wisdom_feature_round_trip(inner, after);
            assert(rest =~= inner.spec_serialize() + after);
        },
    }
}

/// The tokens of every feature stay within the levels of the feature.
pub proof fn lemma_feature_gates_within(feature: Feature)
    ensures
        gates_within(feature.spec_gates(), feature.spec_max_level()),
{
}

/// The level of a feature never goes down and never beyond the highest
/// level of the feature: where a recipe at `level` presents a token to a
/// feature and is levelled up, the level that it reaches is above `level`
/// and at most the highest; in every other case its level stays.
pub proof fn lemma_feature_level_is_monotonic(feature: Feature, level: u8, mint: Pubkey)
    ensures
        match spec_unlock_level(level, feature.spec_max_level(), feature.spec_gates(), mint) {
            Ok((next, _)) => level < next <= feature.spec_max_level(),
            Err(_) => true,
        },
{
    lemma_feature_gates_within(feature);
    lemma_unlock_level_is_monotonic(
        level,
        feature.spec_max_level(),
        feature.spec_gates(),
        mint,
    );
}

/// Levelling a feature up changes the level of that feature and, where the
/// recipe first reaches the level from which on it sets its own fee, the
/// fee; nothing else of the recipe, and no other level.
pub proof fn lemma_leveled_up_keeps_the_rest(
    recipe: RecipeView,
    kind: FeatureKind,
    next: u8,
    other: FeatureKind,
)
    requires
        other != kind,
    ensures
        spec_leveled_up(recipe, kind, next).feature_levels.spec_level(kind) == next,
        spec_leveled_up(recipe, kind, next).feature_levels.spec_level(other)
            == recipe.feature_levels.spec_level(other),
        spec_leveled_up(recipe, kind, next).inputs == recipe.inputs,
        spec_leveled_up(recipe, kind, next).outputs == recipe.outputs,
        spec_leveled_up(recipe, kind, next).authority == recipe.authority,
        spec_leveled_up(recipe, kind, next).status == recipe.status,
{
}

/// Levels that were written are read back, whatever stands around them.
pub proof fn lemma_levels_round_trip(before: Seq<u8>, levels: FeatureLevels, after: Seq<u8>)
    ensures
        FeatureLevels::spec_parse_at(before + levels.spec_serialize() + after, before.len() as int)
            == levels,
        levels.spec_serialize().len() == 16,
{
    let all = before + levels.spec_serialize() + after;
    let at = before.len() as int;
    assert(all.subrange(at + 6, at + 16) =~= levels._padding@);
    lemma_padding_of_view(levels._padding);
}

} // verus!
